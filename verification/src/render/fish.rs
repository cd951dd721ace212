//! The fish backend.  The prompt is a function (`function fish_prompt`)
//! that fish runs on every redraw, so variables and command substitutions
//! are plain fish code.  The body is a list of fragments, literal text
//! (single-quoted) or fish expressions (inserted as they are), joined by
//! one `printf '%s' ...` call.  The title is a separate `fish_title`.
//!
//! `<git/>` is native fish; `<cmd run>` holds POSIX shell code and runs
//! through `bash -c`.

use vstd::prelude::*;

use crate::ir::{
    lemma_nodes_view_index, lemma_nodes_view_push, lemma_nodes_view_take, node_view, nodes_view,
    opt_view, time_strftime, DocV, Document, Node, NodeV, PsmlError, TimeMode, DEFAULT_DATE_FMT,
};
use crate::render::util::{
    close_codes, fish_quote_single, fish_quoted, open_codes, raw_sgr, sgr, sgr_close, sgr_open,
    sgr_open_error,
};
use crate::render::ShellBackend;
use crate::text::push_str;

verus! {

/// The fish backend.
pub struct Fish;

/// One piece of the prompt: literal text (to be quoted) or ready fish code.
pub enum Frag {
    Lit(String),
    Expr(String),
}

/// The mathematical value of a [`Frag`].
pub enum FragV {
    Lit(Seq<char>),
    Expr(Seq<char>),
}

pub open spec fn frag_view(f: Frag) -> FragV {
    match f {
        Frag::Lit(s) => FragV::Lit(s@),
        Frag::Expr(s) => FragV::Expr(s@),
    }
}

pub open spec fn frags_view(s: Seq<Frag>) -> Seq<FragV> {
    s.map_values(|f: Frag| frag_view(f))
}

/// Appends literal text, merged into the last fragment when it is literal.
pub open spec fn push_lit(fr: Seq<FragV>, s: Seq<char>) -> Seq<FragV> {
    if fr.len() > 0 && fr.last() is Lit {
        fr.update(fr.len() - 1, FragV::Lit(fr.last()->Lit_0 + s))
    } else {
        fr.push(FragV::Lit(s))
    }
}

/// `(date '+FMT')`.
pub open spec fn fish_date(fmt: Seq<char>) -> Seq<char> {
    "(date "@ + fish_quoted("+"@ + fmt) + ")"@
}

/// Native fish code that prints the git branch between `prefix` and `suffix`.
pub open spec fn fish_git(prefix: Seq<char>, suffix: Seq<char>) -> Seq<char> {
    "(set -l b (git symbolic-ref --short HEAD 2>/dev/null; or git rev-parse --short HEAD 2>/dev/null); test -n \"$b\"; and printf '%s%s%s' "@
        + fish_quoted(prefix) + " \"$b\" "@ + fish_quoted(suffix) + ")"@
}

/// The fragments after rendering one node onto `fr`.
pub open spec fn fish_node(n: NodeV, fr: Seq<FragV>) -> Option<Seq<FragV>>
    decreases n, 2nat,
{
    match n {
        NodeV::Text(s) => Some(push_lit(fr, s)),
        NodeV::Br => Some(push_lit(fr, "\n"@)),
        NodeV::User => Some(fr.push(FragV::Expr("$USER"@))),
        NodeV::Host => Some(fr.push(FragV::Expr("$hostname"@))),
        NodeV::HostFull => Some(fr.push(FragV::Expr("(hostname -f 2>/dev/null; or hostname)"@))),
        NodeV::Cwd => Some(fr.push(FragV::Expr("(prompt_pwd)"@))),
        NodeV::CwdBase => Some(fr.push(FragV::Expr("(basename $PWD)"@))),
        NodeV::Symbol => Some(
            fr.push(FragV::Expr("(if fish_is_root_user; echo '#'; else; echo '$'; end)"@)),
        ),
        NodeV::Jobs => Some(fr.push(FragV::Expr("(jobs | count)"@))),
        NodeV::ExitCode => Some(fr.push(FragV::Expr("$status"@))),
        NodeV::Reset => Some(push_lit(fr, sgr("0"@))),
        NodeV::Time(m) => Some(fr.push(FragV::Expr(fish_date(time_strftime(m))))),
        NodeV::Date(f) => Some(
            fr.push(
                FragV::Expr(
                    fish_date(
                        match f {
                            Some(f) => f,
                            None => DEFAULT_DATE_FMT@,
                        },
                    ),
                ),
            ),
        ),
        NodeV::Git { prefix, suffix } => Some(fr.push(FragV::Expr(fish_git(prefix, suffix)))),
        NodeV::Cmd(run) => Some(fr.push(FragV::Expr("(bash -c "@ + fish_quoted(run) + ")"@))),
        NodeV::Bold(c) => fish_pair(c, "1"@, "22"@, fr),
        NodeV::Underline(c) => fish_pair(c, "4"@, "24"@, fr),
        NodeV::Italic(c) => fish_pair(c, "3"@, "23"@, fr),
        NodeV::Color { fg, bg, children } => match sgr_open(fg, bg) {
            Some(o) => fish_pair(children, o, sgr_close(fg, bg), fr),
            None => None,
        },
    }
}

/// `on`, the children, `off`, as SGR literals around the children.
pub open spec fn fish_pair(c: Seq<NodeV>, on: Seq<char>, off: Seq<char>, fr: Seq<FragV>) -> Option<
    Seq<FragV>,
>
    decreases c, 1nat,
{
    match fish_nodes(c, push_lit(fr, sgr(on))) {
        Some(f2) => Some(push_lit(f2, sgr(off))),
        None => None,
    }
}

/// The fragments after rendering a sequence of nodes onto `fr`.
pub open spec fn fish_nodes(ns: Seq<NodeV>, fr: Seq<FragV>) -> Option<Seq<FragV>>
    decreases ns, 0nat,
{
    if ns.len() == 0 {
        Some(fr)
    } else {
        match fish_nodes(ns.drop_last(), fr) {
            Some(f2) => fish_node(ns.last(), f2),
            None => None,
        }
    }
}

/// The message where fish refuses a node rendered onto `fr`: that of a
/// color that does not resolve, or of the first refused node inside.
pub open spec fn fish_node_error(n: NodeV, fr: Seq<FragV>) -> Seq<char>
    decreases n, 2nat,
{
    match n {
        NodeV::Bold(c) => fish_pair_error(c, "1"@, fr),
        NodeV::Underline(c) => fish_pair_error(c, "4"@, fr),
        NodeV::Italic(c) => fish_pair_error(c, "3"@, fr),
        NodeV::Color { fg, bg, children } => match sgr_open(fg, bg) {
            Some(o) => fish_pair_error(children, o, fr),
            None => sgr_open_error(fg, bg),
        },
        _ => Seq::empty(),
    }
}

/// The message of the first refused node among the children of a pair.
pub open spec fn fish_pair_error(c: Seq<NodeV>, on: Seq<char>, fr: Seq<FragV>) -> Seq<char>
    decreases c, 1nat,
{
    fish_nodes_error(c, push_lit(fr, sgr(on)))
}

/// The message of the first node of a sequence that fish refuses.
pub open spec fn fish_nodes_error(ns: Seq<NodeV>, fr: Seq<FragV>) -> Seq<char>
    decreases ns, 0nat,
{
    if ns.len() == 0 {
        Seq::empty()
    } else {
        match fish_nodes(ns.drop_last(), fr) {
            Some(f2) => fish_node_error(ns.last(), f2),
            None => fish_nodes_error(ns.drop_last(), fr),
        }
    }
}

/// A sequence has no rendering when one of its prefixes has none, and the
/// error is that of the prefix.
pub proof fn lemma_fish_nodes_prefix(s: Seq<NodeV>, i: int, fr: Seq<FragV>)
    requires
        0 <= i <= s.len(),
        fish_nodes(s.take(i), fr) is None,
    ensures
        fish_nodes(s, fr) is None,
        fish_nodes_error(s, fr) == fish_nodes_error(s.take(i), fr),
    decreases s.len() - i,
{
    if i < s.len() {
        assert(s.take(i + 1).drop_last() == s.take(i));
        lemma_fish_nodes_prefix(s, i + 1, fr);
    } else {
        assert(s.take(i) == s);
    }
}

/// The text of one fragment in the `printf` call.
pub open spec fn frag_text(f: FragV) -> Seq<char> {
    match f {
        FragV::Lit(s) => fish_quoted(s),
        FragV::Expr(s) => s,
    }
}

/// The fragment texts joined by single spaces.
pub open spec fn join_frags(fr: Seq<FragV>) -> Seq<char>
    decreases fr.len(),
{
    if fr.len() == 0 {
        Seq::empty()
    } else if fr.len() == 1 {
        frag_text(fr[0])
    } else {
        join_frags(fr.drop_last()) + " "@ + frag_text(fr.last())
    }
}

/// `printf '%s' arg1 arg2 ...`.
pub open spec fn printf_command(fr: Seq<FragV>) -> Seq<char> {
    if fr.len() == 0 {
        "printf '%s'"@
    } else {
        "printf '%s' "@ + join_frags(fr)
    }
}

/// The fish rendering of a document: `fish_prompt`, then `fish_title`
/// when there is a title; or the bare `printf` command.
pub open spec fn fish_render(doc: DocV, raw: bool) -> Option<Seq<char>> {
    match fish_nodes(doc.body, Seq::empty()) {
        Some(fr) => {
            let cmd = printf_command(fr);
            Some(
                if raw {
                    cmd
                } else {
                    "function fish_prompt\n    "@ + cmd + "\nend\n"@ + if doc.title.len() == 0 {
                        Seq::empty()
                    } else {
                        "\nfunction fish_title\n    echo "@ + fish_quoted(doc.title) + "\nend\n"@
                    }
                },
            )
        },
        None => None,
    }
}

impl ShellBackend for Fish {
    open spec fn spec_key(&self) -> Seq<char> {
        "fish"@
    }

    open spec fn spec_aliases(&self) -> Seq<Seq<char>> {
        Seq::empty()
    }

    open spec fn spec_render(&self, doc: DocV, raw: bool) -> Option<Seq<char>> {
        fish_render(doc, raw)
    }

    open spec fn spec_render_error(&self, doc: DocV) -> Seq<char> {
        fish_nodes_error(doc.body, Seq::empty())
    }

    fn key(&self) -> (k: &'static str) {
        "fish"
    }

    fn aliases(&self) -> (a: &'static [&'static str]) {
        &[]
    }

    fn render_document(&self, doc: &Document, raw: bool) -> (r: Result<String, PsmlError>) {
        let mut b = Builder::new();
        render_nodes(&doc.body, &mut b)?;
        let body_cmd = b.into_printf_command();
        Ok(finalize(doc.title.as_str(), body_cmd.as_str(), raw))
    }
}

struct Builder {
    frags: Vec<Frag>,
}

impl Builder {
    spec fn view(&self) -> Seq<FragV> {
        frags_view(self.frags@)
    }

    fn new() -> (b: Self)
        ensures
            b.view() == Seq::<FragV>::empty(),
    {
        Builder { frags: Vec::new() }
    }

    fn push_lit(&mut self, s: &str)
        ensures
            final(self).view() == push_lit(old(self).view(), s@),
    {
        let ghost fr = self.view();
        match self.frags.pop() {
            Some(Frag::Lit(last)) => {
                let mut l = last;
                push_str(&mut l, s);
                self.frags.push(Frag::Lit(l));
                assert(self.view() =~= push_lit(fr, s@));
            },
            Some(other) => {
                self.frags.push(other);
                self.frags.push(Frag::Lit(s.to_owned()));
                assert(self.view() =~= push_lit(fr, s@));
            },
            None => {
                self.frags.push(Frag::Lit(s.to_owned()));
                assert(self.view() =~= push_lit(fr, s@));
            },
        }
    }

    fn push_expr(&mut self, s: String)
        ensures
            final(self).view() == old(self).view().push(FragV::Expr(s@)),
    {
        let ghost fr = self.view();
        self.frags.push(Frag::Expr(s));
        assert(self.view() =~= fr.push(FragV::Expr(s@)));
    }

    /// `printf '%s' arg1 arg2 ...`: literals are quoted, expressions go as
    /// they are.  POSIX `printf` repeats its format over the remaining
    /// arguments, so `'%s'` concatenates them without a trailing newline.
    fn into_printf_command(self) -> (r: String)
        ensures
            r@ == printf_command(self.view()),
    {
        let n = self.frags.len();
        if n == 0 {
            let mut s = String::new();
            push_str(&mut s, "printf '%s'");
            return s;
        }
        let ghost fr = self.view();
        let mut s = String::new();
        push_str(&mut s, "printf '%s' ");
        let ghost head = s@;
        let mut i: usize = 0;
        while i < n
            invariant
                n == self.frags@.len(),
                fr == self.view(),
                fr.len() == n,
                i <= n,
                s@ == head + join_frags(fr.take(i as int)),
            decreases n - i,
        {
            if i > 0 {
                push_str(&mut s, " ");
            }
            match &self.frags[i] {
                Frag::Lit(l) => {
                    let q = fish_quote_single(l.as_str());
                    push_str(&mut s, q.as_str());
                },
                Frag::Expr(e) => push_str(&mut s, e.as_str()),
            }
            assert(fr.take(i + 1).drop_last() =~= fr.take(i as int));
            assert(fr.take(i + 1).last() == fr[i as int]);
            assert(fr[i as int] == frag_view(self.frags@[i as int]));
            i = i + 1;
        }
        assert(fr.take(n as int) =~= fr);
        s
    }
}

fn render_nodes(nodes: &Vec<Node>, b: &mut Builder) -> (r: Result<(), PsmlError>)
    ensures
        r is Ok <==> fish_nodes(nodes_view(nodes@), old(b).view()) is Some,
        r is Ok ==> final(b).view() == fish_nodes(nodes_view(nodes@), old(b).view()).unwrap(),
        r matches Err(e) ==> e.0@ == fish_nodes_error(nodes_view(nodes@), old(b).view()),
    decreases nodes, 0nat,
{
    let ghost start = b.view();
    for i in 0..nodes.len()
        invariant
            start == old(b).view(),
            fish_nodes(nodes_view(nodes@.take(i as int)), start) is Some,
            b.view() == fish_nodes(nodes_view(nodes@.take(i as int)), start).unwrap(),
    {
        proof {
            lemma_nodes_view_push(nodes@, i as int);
            let pre = nodes_view(nodes@.take(i as int));
            assert(pre.push(node_view(nodes@[i as int])).drop_last() == pre);
        }
        let r = render_node(&nodes[i], b);
        if r.is_err() {
            proof {
                lemma_nodes_view_index(nodes@);
                lemma_nodes_view_take(nodes@, i + 1);
                lemma_fish_nodes_prefix(nodes_view(nodes@), i + 1, start);
            }
            return r;
        }
    }
    assert(nodes@.take(nodes@.len() as int) == nodes@);
    Ok(())
}

fn lit_expr(s: &str) -> (r: String)
    ensures
        r@ == s@,
{
    s.to_owned()
}

fn render_node(node: &Node, b: &mut Builder) -> (r: Result<(), PsmlError>)
    ensures
        r is Ok <==> fish_node(node_view(*node), old(b).view()) is Some,
        r is Ok ==> final(b).view() == fish_node(node_view(*node), old(b).view()).unwrap(),
        r matches Err(e) ==> e.0@ == fish_node_error(node_view(*node), old(b).view()),
    decreases node, 2nat,
{
    match node {
        Node::Text(s) => b.push_lit(s.as_str()),
        Node::Br => b.push_lit("\n"),
        Node::User => b.push_expr(lit_expr("$USER")),
        Node::Host => b.push_expr(lit_expr("$hostname")),
        Node::HostFull => b.push_expr(lit_expr("(hostname -f 2>/dev/null; or hostname)")),
        Node::Cwd => b.push_expr(lit_expr("(prompt_pwd)")),
        Node::CwdBase => b.push_expr(lit_expr("(basename $PWD)")),
        Node::Symbol => b.push_expr(
            lit_expr("(if fish_is_root_user; echo '#'; else; echo '$'; end)"),
        ),
        Node::Jobs => b.push_expr(lit_expr("(jobs | count)")),
        Node::ExitCode => b.push_expr(lit_expr("$status")),
        Node::Reset => {
            let s = raw_sgr("0");
            b.push_lit(s.as_str());
        },
        Node::Time(mode) => b.push_expr(time_expr(*mode)),
        Node::Date(fmt) => b.push_expr(date_expr(fmt)),
        Node::Git { prefix, suffix } => b.push_expr(git_expr(prefix.as_str(), suffix.as_str())),
        Node::Cmd(run) => {
            let mut e = String::new();
            push_str(&mut e, "(bash -c ");
            let q = fish_quote_single(run.as_str());
            push_str(&mut e, q.as_str());
            push_str(&mut e, ")");
            b.push_expr(e);
        },
        Node::Bold(children) => emit_pair(children, "1", "22", b)?,
        Node::Underline(children) => emit_pair(children, "4", "24", b)?,
        Node::Italic(children) => emit_pair(children, "3", "23", b)?,
        Node::Color { fg, bg, children } => {
            let open = open_codes(fg, bg)?;
            emit_pair(children, open.as_str(), close_codes(fg, bg), b)?;
        },
    }
    Ok(())
}

fn emit_pair(children: &Vec<Node>, on: &str, off: &str, b: &mut Builder) -> (r: Result<(), PsmlError>)
    ensures
        r is Ok <==> fish_pair(nodes_view(children@), on@, off@, old(b).view()) is Some,
        r is Ok ==> final(b).view() == fish_pair(nodes_view(children@), on@, off@, old(b).view()).unwrap(),
        r matches Err(e) ==> e.0@ == fish_pair_error(nodes_view(children@), on@, old(b).view()),
    decreases children, 1nat,
{
    let s = raw_sgr(on);
    b.push_lit(s.as_str());
    render_nodes(children, b)?;
    let s = raw_sgr(off);
    b.push_lit(s.as_str());
    Ok(())
}

fn date_of(fmt: &str) -> (r: String)
    ensures
        r@ == fish_date(fmt@),
{
    let mut f = String::new();
    push_str(&mut f, "+");
    push_str(&mut f, fmt);
    let mut e = String::new();
    push_str(&mut e, "(date ");
    let q = fish_quote_single(f.as_str());
    push_str(&mut e, q.as_str());
    push_str(&mut e, ")");
    e
}

fn time_expr(mode: TimeMode) -> (r: String)
    ensures
        r@ == fish_date(time_strftime(mode)),
{
    date_of(mode.strftime_fmt())
}

fn date_expr(fmt: &Option<String>) -> (r: String)
    ensures
        r@ == fish_date(
            match opt_view(*fmt) {
                Some(f) => f,
                None => DEFAULT_DATE_FMT@,
            },
        ),
{
    match fmt {
        Some(f) => date_of(f.as_str()),
        None => date_of(DEFAULT_DATE_FMT),
    }
}

/// `<git/>` in native fish, with no dependency but git itself.
fn git_expr(prefix: &str, suffix: &str) -> (r: String)
    ensures
        r@ == fish_git(prefix@, suffix@),
{
    let mut e = String::new();
    push_str(
        &mut e,
        "(set -l b (git symbolic-ref --short HEAD 2>/dev/null; or git rev-parse --short HEAD 2>/dev/null); test -n \"$b\"; and printf '%s%s%s' ",
    );
    let p = fish_quote_single(prefix);
    push_str(&mut e, p.as_str());
    push_str(&mut e, " \"$b\" ");
    let s = fish_quote_single(suffix);
    push_str(&mut e, s.as_str());
    push_str(&mut e, ")");
    e
}

fn finalize(title: &str, body_cmd: &str, raw: bool) -> (r: String)
    ensures
        r@ == (if raw {
            body_cmd@
        } else {
            "function fish_prompt\n    "@ + body_cmd@ + "\nend\n"@ + if title@.len() == 0 {
                Seq::empty()
            } else {
                "\nfunction fish_title\n    echo "@ + fish_quoted(title@) + "\nend\n"@
            }
        }),
{
    if raw {
        return body_cmd.to_owned();
    }
    let mut script = String::new();
    push_str(&mut script, "function fish_prompt\n    ");
    push_str(&mut script, body_cmd);
    push_str(&mut script, "\nend\n");
    if title.unicode_len() != 0 {
        push_str(&mut script, "\nfunction fish_title\n    echo ");
        let q = fish_quote_single(title);
        push_str(&mut script, q.as_str());
        push_str(&mut script, "\nend\n");
    }
    script
}

} // verus!
