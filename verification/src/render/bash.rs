//! The bash backend: `PS1='...'` with bash's prompt escapes.

use vstd::prelude::*;

use crate::ir::{
    lemma_nodes_view_index, lemma_nodes_view_push, lemma_nodes_view_take, node_view, nodes_view, opt_view, DocV, Document, Node, NodeV,
    PsmlError, TimeMode,
};
use crate::render::util::{
    close_codes, git_cmd, git_command, open_codes, posix_quote_single, posix_quoted, sgr_close, sgr_open,
    sgr_open_error,
};
use crate::render::ShellBackend;
use crate::text::{push_str, replace_all, replace_char};

verus! {

/// The bash backend.
pub struct Bash;

/// `\[ESC[codes m\]`: an SGR sequence inside bash's zero-width markers.
pub open spec fn bash_sgr(codes: Seq<char>) -> Seq<char> {
    "\\[\\033["@ + codes + "m\\]"@
}

/// A command substitution in backticks, with `\` and `` ` `` escaped.
pub open spec fn bash_subst(cmd: Seq<char>) -> Seq<char> {
    "`"@ + replace_char(replace_char(cmd, '\\', "\\\\"@), '`', "\\`"@) + "`"@
}

/// bash's escape for the time in a mode.
pub open spec fn bash_time(m: TimeMode) -> Seq<char> {
    match m {
        TimeMode::H24 => "\\t"@,
        TimeMode::H12 => "\\T"@,
        TimeMode::AmPm => "\\@"@,
        TimeMode::H24Short => "\\A"@,
    }
}

/// `Some(a + b + c)` when both `b` and the result of `open` exist.
pub open spec fn wrap3(a: Seq<char>, b: Option<Seq<char>>, c: Seq<char>) -> Option<Seq<char>> {
    match b {
        Some(x) => Some(a + x + c),
        None => None,
    }
}

/// The bash rendering of one node.
pub open spec fn bash_node(n: NodeV) -> Option<Seq<char>>
    decreases n, 1nat,
{
    match n {
        NodeV::Text(s) => Some(s),
        NodeV::Br => Some("\\n"@),
        NodeV::User => Some("\\u"@),
        NodeV::Host => Some("\\h"@),
        NodeV::HostFull => Some("\\H"@),
        NodeV::Cwd => Some("\\w"@),
        NodeV::CwdBase => Some("\\W"@),
        NodeV::Symbol => Some("\\$"@),
        NodeV::Jobs => Some("\\j"@),
        NodeV::ExitCode => Some("$?"@),
        NodeV::Reset => Some("\\[\\033[0m\\]"@),
        NodeV::Time(m) => Some(bash_time(m)),
        NodeV::Date(f) => match f {
            Some(f) => Some("\\D{"@ + f + "}"@),
            None => Some("\\d"@),
        },
        NodeV::Git { prefix, suffix } => Some(bash_subst(git_cmd(prefix, suffix))),
        NodeV::Cmd(run) => Some(bash_subst(run)),
        NodeV::Bold(c) => wrap3(bash_sgr("1"@), bash_nodes(c), bash_sgr("22"@)),
        NodeV::Underline(c) => wrap3(bash_sgr("4"@), bash_nodes(c), bash_sgr("24"@)),
        NodeV::Italic(c) => wrap3(bash_sgr("3"@), bash_nodes(c), bash_sgr("23"@)),
        NodeV::Color { fg, bg, children } => match sgr_open(fg, bg) {
            Some(o) => wrap3(bash_sgr(o), bash_nodes(children), bash_sgr(sgr_close(fg, bg))),
            None => None,
        },
    }
}

/// The bash rendering of a sequence of nodes, `None` at the first node
/// that has none.
pub open spec fn bash_nodes(ns: Seq<NodeV>) -> Option<Seq<char>>
    decreases ns, 0nat,
{
    if ns.len() == 0 {
        Some(Seq::empty())
    } else {
        match bash_nodes(ns.drop_last()) {
            Some(a) => match bash_node(ns.last()) {
                Some(b) => Some(a + b),
                None => None,
            },
            None => None,
        }
    }
}

/// The message where bash refuses a node: that of a color that does not
/// resolve, or of the first refused node inside.
pub open spec fn bash_node_error(n: NodeV) -> Seq<char>
    decreases n, 1nat,
{
    match n {
        NodeV::Bold(c) => bash_nodes_error(c),
        NodeV::Underline(c) => bash_nodes_error(c),
        NodeV::Italic(c) => bash_nodes_error(c),
        NodeV::Color { fg, bg, children } => if sgr_open(fg, bg) is None {
            sgr_open_error(fg, bg)
        } else {
            bash_nodes_error(children)
        },
        _ => Seq::empty(),
    }
}

/// The message of the first node of a sequence that bash refuses.
pub open spec fn bash_nodes_error(ns: Seq<NodeV>) -> Seq<char>
    decreases ns, 0nat,
{
    if ns.len() == 0 {
        Seq::empty()
    } else if bash_nodes(ns.drop_last()) is None {
        bash_nodes_error(ns.drop_last())
    } else {
        bash_node_error(ns.last())
    }
}

/// A sequence has no rendering when one of its prefixes has none, and the
/// error is that of the prefix.
pub proof fn lemma_bash_nodes_prefix(s: Seq<NodeV>, i: int)
    requires
        0 <= i <= s.len(),
        bash_nodes(s.take(i)) is None,
    ensures
        bash_nodes(s) is None,
        bash_nodes_error(s) == bash_nodes_error(s.take(i)),
    decreases s.len() - i,
{
    if i < s.len() {
        assert(s.take(i + 1).drop_last() == s.take(i));
        lemma_bash_nodes_prefix(s, i + 1);
    } else {
        assert(s.take(i) == s);
    }
}

/// The prompt with the window title in front: `\[ESC]0;title BEL\]`.
pub open spec fn bash_full(title: Seq<char>, body: Seq<char>) -> Seq<char> {
    if title.len() == 0 {
        body
    } else {
        "\\[\\033]0;"@ + title + "\\007\\]"@ + body
    }
}

/// The bash rendering of a document: `PS1='...'`, or the bare value.
pub open spec fn bash_render(doc: DocV, raw: bool) -> Option<Seq<char>> {
    match bash_nodes(doc.body) {
        Some(body) => Some(
            if raw {
                bash_full(doc.title, body)
            } else {
                "PS1="@ + posix_quoted(bash_full(doc.title, body))
            },
        ),
        None => None,
    }
}

impl ShellBackend for Bash {
    open spec fn spec_key(&self) -> Seq<char> {
        "bash"@
    }

    open spec fn spec_aliases(&self) -> Seq<Seq<char>> {
        Seq::empty()
    }

    open spec fn spec_render(&self, doc: DocV, raw: bool) -> Option<Seq<char>> {
        bash_render(doc, raw)
    }

    open spec fn spec_render_error(&self, doc: DocV) -> Seq<char> {
        bash_nodes_error(doc.body)
    }

    fn key(&self) -> (k: &'static str) {
        "bash"
    }

    fn aliases(&self) -> (a: &'static [&'static str]) {
        &[]
    }

    fn render_document(&self, doc: &Document, raw: bool) -> (r: Result<String, PsmlError>) {
        let mut body = String::new();
        render_nodes(&doc.body, &mut body)?;
        Ok(finalize(doc.title.as_str(), body.as_str(), raw))
    }
}

fn render_nodes(nodes: &Vec<Node>, out: &mut String) -> (r: Result<(), PsmlError>)
    ensures
        r is Ok <==> bash_nodes(nodes_view(nodes@)) is Some,
        r is Ok ==> final(out)@ == old(out)@ + bash_nodes(nodes_view(nodes@)).unwrap(),
        r matches Err(e) ==> e.0@ == bash_nodes_error(nodes_view(nodes@)),
    decreases nodes, 0nat,
{
    let ghost start = out@;
    for i in 0..nodes.len()
        invariant
            bash_nodes(nodes_view(nodes@.take(i as int))) is Some,
            out@ == start + bash_nodes(nodes_view(nodes@.take(i as int))).unwrap(),
    {
        proof {
            lemma_nodes_view_push(nodes@, i as int);
            let pre = nodes_view(nodes@.take(i as int));
            assert(pre.push(node_view(nodes@[i as int])).drop_last() == pre);
        }
        let r = render_node(&nodes[i], out);
        if r.is_err() {
            proof {
                lemma_nodes_view_index(nodes@);
                lemma_nodes_view_take(nodes@, i + 1);
                lemma_bash_nodes_prefix(nodes_view(nodes@), i + 1);
            }
            return r;
        }
    }
    assert(nodes@.take(nodes@.len() as int) == nodes@);
    Ok(())
}

fn render_node(node: &Node, out: &mut String) -> (r: Result<(), PsmlError>)
    ensures
        r is Ok <==> bash_node(node_view(*node)) is Some,
        r is Ok ==> final(out)@ == old(out)@ + bash_node(node_view(*node)).unwrap(),
        r matches Err(e) ==> e.0@ == bash_node_error(node_view(*node)),
    decreases node, 2nat,
{
    match node {
        Node::Text(s) => push_str(out, s.as_str()),
        Node::Br => push_str(out, "\\n"),
        Node::User => push_str(out, "\\u"),
        Node::Host => push_str(out, "\\h"),
        Node::HostFull => push_str(out, "\\H"),
        Node::Cwd => push_str(out, "\\w"),
        Node::CwdBase => push_str(out, "\\W"),
        Node::Symbol => push_str(out, "\\$"),
        Node::Jobs => push_str(out, "\\j"),
        Node::ExitCode => push_str(out, "$?"),
        Node::Reset => push_str(out, "\\[\\033[0m\\]"),
        Node::Time(mode) => push_str(out, time_code(*mode)),
        Node::Date(fmt) => match fmt {
            Some(f) => {
                push_str(out, "\\D{");
                push_str(out, f.as_str());
                push_str(out, "}");
            },
            None => push_str(out, "\\d"),
        },
        Node::Git { prefix, suffix } => {
            let cmd = git_command(prefix.as_str(), suffix.as_str());
            let w = wrap_subst(cmd.as_str());
            push_str(out, w.as_str());
        },
        Node::Cmd(run) => {
            let w = wrap_subst(run.as_str());
            push_str(out, w.as_str());
        },
        Node::Bold(children) => emit_attr(children, "1", "22", out)?,
        Node::Underline(children) => emit_attr(children, "4", "24", out)?,
        Node::Italic(children) => emit_attr(children, "3", "23", out)?,
        Node::Color { fg, bg, children } => emit_color(fg, bg, children, out)?,
    }
    Ok(())
}

fn push_bash_sgr(out: &mut String, codes: &str)
    ensures
        final(out)@ == old(out)@ + bash_sgr(codes@),
{
    push_str(out, "\\[\\033[");
    push_str(out, codes);
    push_str(out, "m\\]");
}

fn emit_attr(children: &Vec<Node>, on: &str, off: &str, out: &mut String) -> (r: Result<(), PsmlError>)
    ensures
        r is Ok <==> bash_nodes(nodes_view(children@)) is Some,
        r is Ok ==> final(out)@ == old(out)@ + bash_sgr(on@) + bash_nodes(nodes_view(children@)).unwrap() + bash_sgr(off@),
        r matches Err(e) ==> e.0@ == bash_nodes_error(nodes_view(children@)),
    decreases children, 1nat,
{
    push_bash_sgr(out, on);
    render_nodes(children, out)?;
    push_bash_sgr(out, off);
    Ok(())
}

fn emit_color(
    fg: &Option<String>,
    bg: &Option<String>,
    children: &Vec<Node>,
    out: &mut String,
) -> (r: Result<(), PsmlError>)
    ensures
        r is Ok <==> bash_node(
            NodeV::Color { fg: opt_view(*fg), bg: opt_view(*bg), children: nodes_view(children@) },
        ) is Some,
        r is Ok ==> final(out)@ == old(out)@ + bash_node(
            NodeV::Color { fg: opt_view(*fg), bg: opt_view(*bg), children: nodes_view(children@) },
        ).unwrap(),
        r matches Err(e) ==> e.0@ == bash_node_error(
            NodeV::Color { fg: opt_view(*fg), bg: opt_view(*bg), children: nodes_view(children@) },
        ),
    decreases children, 1nat,
{
    let open = open_codes(fg, bg)?;
    push_bash_sgr(out, open.as_str());
    render_nodes(children, out)?;
    push_bash_sgr(out, close_codes(fg, bg));
    Ok(())
}

fn time_code(mode: TimeMode) -> (r: &'static str)
    ensures
        r@ == bash_time(mode),
{
    match mode {
        TimeMode::H24 => "\\t",
        TimeMode::H12 => "\\T",
        TimeMode::AmPm => "\\@",
        TimeMode::H24Short => "\\A",
    }
}

/// Wraps shell code in backticks rather than `$(...)`: the bash of MSYS2
/// (git-bash) fails on a `$(...)` in `PS1` when a `\n` follows later on the
/// same line, and backticks avoid that.  Inside backticks one `\` escapes
/// `\`, `` ` `` and `$`, so literal `\` and `` ` `` are escaped.
fn wrap_subst(cmd: &str) -> (r: String)
    ensures
        r@ == bash_subst(cmd@),
{
    let a = replace_all(cmd, '\\', "\\\\");
    let b = replace_all(a.as_str(), '`', "\\`");
    let mut s = String::new();
    push_str(&mut s, "`");
    push_str(&mut s, b.as_str());
    push_str(&mut s, "`");
    s
}

fn finalize(title: &str, body: &str, raw: bool) -> (r: String)
    ensures
        r@ == (if raw {
            bash_full(title@, body@)
        } else {
            "PS1="@ + posix_quoted(bash_full(title@, body@))
        }),
{
    let mut full = String::new();
    if title.unicode_len() != 0 {
        push_str(&mut full, "\\[\\033]0;");
        push_str(&mut full, title);
        push_str(&mut full, "\\007\\]");
    }
    push_str(&mut full, body);
    if raw {
        return full;
    }
    let mut s = String::new();
    push_str(&mut s, "PS1=");
    let q = posix_quote_single(full.as_str());
    push_str(&mut s, q.as_str());
    s
}

} // verus!
