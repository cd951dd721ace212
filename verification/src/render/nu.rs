//! The nu (Nushell) backend, best-effort (written against Nushell ~0.9x).
//! The prompt is a closure (`$env.PROMPT_COMMAND = {|| "..." }`) with one
//! interpolated string `$"..."` and `(expr)` inserts.  `<git/>` runs git
//! itself; `<jobs/>` is refused (Nushell has no Unix job control);
//! `<cmd run>` runs through `^bash -c`.

use vstd::prelude::*;

use crate::ir::{
    lemma_nodes_view_index, lemma_nodes_view_push, lemma_nodes_view_take, node_view, nodes_view,
    time_strftime, DocV, Document, Node, NodeV, PsmlError, DEFAULT_DATE_FMT,
};
use crate::render::util::{
    close_codes, nu_escape_interp, nu_escaped, nu_quote_raw, nu_raw, open_codes, raw_sgr, sgr,
    sgr_close, sgr_open, sgr_open_error,
};
use crate::render::ShellBackend;
use crate::text::push_str;

verus! {

/// The nu backend.
pub struct Nu;

/// `(date now | format date "FMT")`.
pub open spec fn nu_date(fmt: Seq<char>) -> Seq<char> {
    "(date now | format date \""@ + fmt + "\")"@
}

/// `<git/>` through git itself.
pub open spec fn nu_git(prefix: Seq<char>, suffix: Seq<char>) -> Seq<char> {
    "(let b = (try { git symbolic-ref --short HEAD } catch { try { git rev-parse --short HEAD } catch { '' } }); if ($b | str length) > 0 { $\""@
        + nu_escaped(prefix) + "($b)"@ + nu_escaped(suffix) + "\" } else { '' })"@
}

/// Wraps `b` between two literal SGR sequences.
pub open spec fn nu_wrap(on: Seq<char>, b: Option<Seq<char>>, off: Seq<char>) -> Option<Seq<char>> {
    match b {
        Some(x) => Some(nu_escaped(sgr(on)) + x + nu_escaped(sgr(off))),
        None => None,
    }
}

/// The nu rendering of one node (a piece of the interpolated string).
pub open spec fn nu_node(n: NodeV) -> Option<Seq<char>>
    decreases n, 1nat,
{
    match n {
        NodeV::Text(s) => Some(nu_escaped(s)),
        NodeV::Br => Some(nu_escaped("\n"@)),
        NodeV::User => Some(
            "(($env.USER? | default '') | default ($env.USERNAME? | default ''))"@,
        ),
        NodeV::Host => Some("(^hostname)"@),
        NodeV::HostFull => Some("(try { ^hostname -f } catch { ^hostname })"@),
        NodeV::Cwd => Some("(pwd)"@),
        NodeV::CwdBase => Some("(pwd | path basename)"@),
        NodeV::Symbol => Some("(if (is-admin) { '#' } else { '$' })"@),
        NodeV::Jobs => None,
        NodeV::ExitCode => Some("$env.LAST_EXIT_CODE"@),
        NodeV::Reset => Some(nu_escaped(sgr("0"@))),
        NodeV::Time(m) => Some(nu_date(time_strftime(m))),
        NodeV::Date(f) => Some(
            nu_date(
                match f {
                    Some(f) => f,
                    None => DEFAULT_DATE_FMT@,
                },
            ),
        ),
        NodeV::Git { prefix, suffix } => Some(nu_git(prefix, suffix)),
        NodeV::Cmd(run) => Some("(^bash -c "@ + nu_raw(run) + ")"@),
        NodeV::Bold(c) => nu_wrap("1"@, nu_nodes(c), "22"@),
        NodeV::Underline(c) => nu_wrap("4"@, nu_nodes(c), "24"@),
        NodeV::Italic(c) => nu_wrap("3"@, nu_nodes(c), "23"@),
        NodeV::Color { fg, bg, children } => match sgr_open(fg, bg) {
            Some(o) => nu_wrap(o, nu_nodes(children), sgr_close(fg, bg)),
            None => None,
        },
    }
}

/// The nu rendering of a sequence of nodes.
pub open spec fn nu_nodes(ns: Seq<NodeV>) -> Option<Seq<char>>
    decreases ns, 0nat,
{
    if ns.len() == 0 {
        Some(Seq::empty())
    } else {
        match nu_nodes(ns.drop_last()) {
            Some(a) => match nu_node(ns.last()) {
                Some(b) => Some(a + b),
                None => None,
            },
            None => None,
        }
    }
}

/// The message where nu refuses a node: what it cannot do, a color
/// that does not resolve, or the first refused node inside.
pub open spec fn nu_node_error(n: NodeV) -> Seq<char>
    decreases n, 1nat,
{
    match n {
        NodeV::Jobs => "nu: <jobs/> не поддержан — у Nushell нет классического Unix job-control"@,
        NodeV::Bold(c) => nu_nodes_error(c),
        NodeV::Underline(c) => nu_nodes_error(c),
        NodeV::Italic(c) => nu_nodes_error(c),
        NodeV::Color { fg, bg, children } => if sgr_open(fg, bg) is None {
            sgr_open_error(fg, bg)
        } else {
            nu_nodes_error(children)
        },
        _ => Seq::empty(),
    }
}

/// The message of the first node of a sequence that nu refuses.
pub open spec fn nu_nodes_error(ns: Seq<NodeV>) -> Seq<char>
    decreases ns, 0nat,
{
    if ns.len() == 0 {
        Seq::empty()
    } else if nu_nodes(ns.drop_last()) is None {
        nu_nodes_error(ns.drop_last())
    } else {
        nu_node_error(ns.last())
    }
}

/// A sequence has no rendering when one of its prefixes has none, and the
/// error is that of the prefix.
pub proof fn lemma_nu_nodes_prefix(s: Seq<NodeV>, i: int)
    requires
        0 <= i <= s.len(),
        nu_nodes(s.take(i)) is None,
    ensures
        nu_nodes(s) is None,
        nu_nodes_error(s) == nu_nodes_error(s.take(i)),
    decreases s.len() - i,
{
    if i < s.len() {
        assert(s.take(i + 1).drop_last() == s.take(i));
        lemma_nu_nodes_prefix(s, i + 1);
    } else {
        assert(s.take(i) == s);
    }
}

/// The nu rendering of a document: the title through an OSC sequence
/// printed once (if any), then the `PROMPT_COMMAND` closure; or the bare
/// `$"..."` string.
pub open spec fn nu_render(doc: DocV, raw: bool) -> Option<Seq<char>> {
    match nu_nodes(doc.body) {
        Some(inner) => {
            let body = "$\""@ + inner + "\""@;
            Some(
                if raw {
                    body
                } else {
                    (if doc.title.len() == 0 {
                        Seq::empty()
                    } else {
                        "print -n \"\\u{1b}]0;"@ + nu_escaped(doc.title) + "\\u{07}\"\n"@
                    }) + "$env.PROMPT_COMMAND = {|| "@ + body + " }\n"@
                },
            )
        },
        None => None,
    }
}

impl ShellBackend for Nu {
    open spec fn spec_key(&self) -> Seq<char> {
        "nu"@
    }

    open spec fn spec_aliases(&self) -> Seq<Seq<char>> {
        seq!["nushell"@]
    }

    open spec fn spec_render(&self, doc: DocV, raw: bool) -> Option<Seq<char>> {
        nu_render(doc, raw)
    }

    open spec fn spec_render_error(&self, doc: DocV) -> Seq<char> {
        nu_nodes_error(doc.body)
    }

    fn key(&self) -> (k: &'static str) {
        "nu"
    }

    fn aliases(&self) -> (a: &'static [&'static str]) {
        let a: &'static [&'static str] = &["nushell"];
        assert(a@.map_values(|s: &str| s@) =~= seq!["nushell"@]);
        a
    }

    fn render_document(&self, doc: &Document, raw: bool) -> (r: Result<String, PsmlError>) {
        let mut inner = String::new();
        render_nodes(&doc.body, &mut inner)?;
        Ok(finalize(doc.title.as_str(), inner.as_str(), raw))
    }
}

fn push_lit(out: &mut String, s: &str)
    ensures
        final(out)@ == old(out)@ + nu_escaped(s@),
{
    let e = nu_escape_interp(s);
    push_str(out, e.as_str());
}

fn render_nodes(nodes: &Vec<Node>, out: &mut String) -> (r: Result<(), PsmlError>)
    ensures
        r is Ok <==> nu_nodes(nodes_view(nodes@)) is Some,
        r is Ok ==> final(out)@ == old(out)@ + nu_nodes(nodes_view(nodes@)).unwrap(),
        r matches Err(e) ==> e.0@ == nu_nodes_error(nodes_view(nodes@)),
    decreases nodes, 0nat,
{
    let ghost start = out@;
    for i in 0..nodes.len()
        invariant
            nu_nodes(nodes_view(nodes@.take(i as int))) is Some,
            out@ == start + nu_nodes(nodes_view(nodes@.take(i as int))).unwrap(),
    {
        proof {
            lemma_nodes_view_push(nodes@, i as int);
            let pre = nodes_view(nodes@.take(i as int));
            assert(pre.push(node_view(nodes@[i as int])).drop_last() == pre);
        }
        let r = render_node(&nodes[i], out);
        if r.is_err() {
            proof {
                lemma_nodes_view_index(nodes@);
                lemma_nodes_view_take(nodes@, i + 1);
                lemma_nu_nodes_prefix(nodes_view(nodes@), i + 1);
            }
            return r;
        }
    }
    assert(nodes@.take(nodes@.len() as int) == nodes@);
    Ok(())
}

fn render_node(node: &Node, out: &mut String) -> (r: Result<(), PsmlError>)
    ensures
        r is Ok <==> nu_node(node_view(*node)) is Some,
        r is Ok ==> final(out)@ == old(out)@ + nu_node(node_view(*node)).unwrap(),
        r matches Err(e) ==> e.0@ == nu_node_error(node_view(*node)),
    decreases node, 2nat,
{
    match node {
        Node::Text(s) => push_lit(out, s.as_str()),
        Node::Br => push_lit(out, "\n"),
        Node::User => push_str(out, "(($env.USER? | default '') | default ($env.USERNAME? | default ''))"),
        Node::Host => push_str(out, "(^hostname)"),
        Node::HostFull => push_str(out, "(try { ^hostname -f } catch { ^hostname })"),
        // The home directory is not folded into `~` here, unlike bash/zsh/fish.
        Node::Cwd => push_str(out, "(pwd)"),
        Node::CwdBase => push_str(out, "(pwd | path basename)"),
        Node::Symbol => push_str(out, "(if (is-admin) { '#' } else { '$' })"),
        Node::Jobs => {
            let mut m = String::new();
            push_str(&mut m, "nu: <jobs/> не поддержан — у Nushell нет классического Unix job-control");
            return Err(PsmlError(m));
        },
        Node::ExitCode => push_str(out, "$env.LAST_EXIT_CODE"),
        Node::Reset => {
            let s = raw_sgr("0");
            push_lit(out, s.as_str());
        },
        Node::Time(mode) => date_of(mode.strftime_fmt(), out),
        Node::Date(fmt) => match fmt {
            Some(f) => date_of(f.as_str(), out),
            None => date_of(DEFAULT_DATE_FMT, out),
        },
        Node::Git { prefix, suffix } => git_expr(prefix.as_str(), suffix.as_str(), out),
        Node::Cmd(run) => {
            push_str(out, "(^bash -c ");
            let q = nu_quote_raw(run.as_str());
            push_str(out, q.as_str());
            push_str(out, ")");
        },
        Node::Bold(children) => emit_pair(children, "1", "22", out)?,
        Node::Underline(children) => emit_pair(children, "4", "24", out)?,
        Node::Italic(children) => emit_pair(children, "3", "23", out)?,
        Node::Color { fg, bg, children } => {
            let open = open_codes(fg, bg)?;
            emit_pair(children, open.as_str(), close_codes(fg, bg), out)?;
        },
    }
    Ok(())
}

fn emit_pair(children: &Vec<Node>, on: &str, off: &str, out: &mut String) -> (r: Result<(), PsmlError>)
    ensures
        r is Ok <==> nu_nodes(nodes_view(children@)) is Some,
        r is Ok ==> final(out)@ == old(out)@ + nu_wrap(on@, nu_nodes(nodes_view(children@)), off@).unwrap(),
        r matches Err(e) ==> e.0@ == nu_nodes_error(nodes_view(children@)),
    decreases children, 1nat,
{
    let s = raw_sgr(on);
    push_lit(out, s.as_str());
    render_nodes(children, out)?;
    let s = raw_sgr(off);
    push_lit(out, s.as_str());
    Ok(())
}

fn date_of(fmt: &str, out: &mut String)
    ensures
        final(out)@ == old(out)@ + nu_date(fmt@),
{
    push_str(out, "(date now | format date \"");
    push_str(out, fmt);
    push_str(out, "\")");
}

/// `<git/>` through git itself.
fn git_expr(prefix: &str, suffix: &str, out: &mut String)
    ensures
        final(out)@ == old(out)@ + nu_git(prefix@, suffix@),
{
    push_str(
        out,
        "(let b = (try { git symbolic-ref --short HEAD } catch { try { git rev-parse --short HEAD } catch { '' } }); if ($b | str length) > 0 { $\"",
    );
    let p = nu_escape_interp(prefix);
    push_str(out, p.as_str());
    push_str(out, "($b)");
    let s = nu_escape_interp(suffix);
    push_str(out, s.as_str());
    push_str(out, "\" } else { '' })");
}

fn finalize(title: &str, inner: &str, raw: bool) -> (r: String)
    ensures
        r@ == (if raw {
            "$\""@ + inner@ + "\""@
        } else {
            (if title@.len() == 0 {
                Seq::empty()
            } else {
                "print -n \"\\u{1b}]0;"@ + nu_escaped(title@) + "\\u{07}\"\n"@
            }) + "$env.PROMPT_COMMAND = {|| "@ + ("$\""@ + inner@ + "\""@) + " }\n"@
        }),
{
    let mut body = String::new();
    push_str(&mut body, "$\"");
    push_str(&mut body, inner);
    push_str(&mut body, "\"");
    if raw {
        return body;
    }
    let mut script = String::new();
    if title.unicode_len() != 0 {
        // nu can set the terminal title with the same OSC sequence as
        // bash/zsh: it is printed once, at startup.
        push_str(&mut script, "print -n \"\\u{1b}]0;");
        let e = nu_escape_interp(title);
        push_str(&mut script, e.as_str());
        push_str(&mut script, "\\u{07}\"\n");
    }
    push_str(&mut script, "$env.PROMPT_COMMAND = {|| ");
    push_str(&mut script, body.as_str());
    push_str(&mut script, " }\n");
    script
}

} // verus!
