//! The cmd.exe backend.  `PROMPT` is a static string with `$` codes and a
//! few `%variables%` that cmd expands on redraw; it cannot run a command
//! on redraw.  So `<git/>`, `<cmd run>`, `<jobs/>` and `<cwdbase/>` (and
//! 12-hour time or a custom date format) are refused with an explanation
//! instead of a prompt that silently does not work.  ANSI color goes
//! through `$E` (the ESC code); the title is a separate `title` command.

use vstd::prelude::*;

use crate::ir::{
    lemma_nodes_view_index, lemma_nodes_view_push, lemma_nodes_view_take, node_view, nodes_view,
    DocV, Document, Node, NodeV, PsmlError, TimeMode,
};
use crate::render::bash::wrap3;
use crate::render::util::{close_codes, open_codes, sgr_close, sgr_open, sgr_open_error};
use crate::render::ShellBackend;
use crate::text::{push_str, replace_all, replace_char};

verus! {

/// The cmd.exe backend.
pub struct Cmd;

/// `$E[codes m`.
pub open spec fn cmd_sgr(codes: Seq<char>) -> Seq<char> {
    "$E["@ + codes + "m"@
}

/// The cmd.exe rendering of one node; `None` for what `PROMPT` cannot do.
pub open spec fn cmd_node(n: NodeV) -> Option<Seq<char>>
    decreases n, 1nat,
{
    match n {
        NodeV::Text(s) => Some(replace_char(s, '$', "$$"@)),
        NodeV::Br => Some("$_"@),
        NodeV::User => Some("%USERNAME%"@),
        NodeV::Host => Some("%COMPUTERNAME%"@),
        NodeV::HostFull => Some("%COMPUTERNAME%.%USERDNSDOMAIN%"@),
        NodeV::Cwd => Some("$P"@),
        NodeV::CwdBase => None,
        NodeV::Symbol => Some(">"@),
        NodeV::Jobs => None,
        NodeV::ExitCode => Some("%ERRORLEVEL%"@),
        NodeV::Reset => Some("$E[0m"@),
        NodeV::Time(m) => if m == TimeMode::H24 {
            Some("$T"@)
        } else {
            None
        },
        NodeV::Date(f) => if f is None {
            Some("$D"@)
        } else {
            None
        },
        NodeV::Git { .. } => None,
        NodeV::Cmd(_) => None,
        NodeV::Bold(c) => wrap3(cmd_sgr("1"@), cmd_nodes(c), cmd_sgr("22"@)),
        NodeV::Underline(c) => wrap3(cmd_sgr("4"@), cmd_nodes(c), cmd_sgr("24"@)),
        NodeV::Italic(c) => wrap3(cmd_sgr("3"@), cmd_nodes(c), cmd_sgr("23"@)),
        NodeV::Color { fg, bg, children } => match sgr_open(fg, bg) {
            Some(o) => wrap3(cmd_sgr(o), cmd_nodes(children), cmd_sgr(sgr_close(fg, bg))),
            None => None,
        },
    }
}

/// The cmd.exe rendering of a sequence of nodes.
pub open spec fn cmd_nodes(ns: Seq<NodeV>) -> Option<Seq<char>>
    decreases ns, 0nat,
{
    if ns.len() == 0 {
        Some(Seq::empty())
    } else {
        match cmd_nodes(ns.drop_last()) {
            Some(a) => match cmd_node(ns.last()) {
                Some(b) => Some(a + b),
                None => None,
            },
            None => None,
        }
    }
}

/// The message where cmd.exe refuses a node: what `PROMPT` cannot do, a
/// color that does not resolve, or the first refused node inside.
pub open spec fn cmd_node_error(n: NodeV) -> Seq<char>
    decreases n, 1nat,
{
    match n {
        NodeV::CwdBase => "cmd.exe: <cwdbase/> не поддержан — у PROMPT нет способа взять только последний компонент пути без выполнения внешней команды"@,
        NodeV::Jobs => "cmd.exe: <jobs/> не поддержан — у cmd.exe нет управления job'ами"@,
        NodeV::Time(_) => "cmd.exe: <time mode=...> поддерживает только mode=\"24\" — у $T фиксированный локальный формат, 12-часовой/AM-PM формат недостижим без внешней команды"@,
        NodeV::Date(_) => "cmd.exe: <date fmt=...> не поддержан — у $D фиксированный локальный формат, свой strftime-формат недостижим без внешней команды"@,
        NodeV::Git { .. } => "cmd.exe: <git/> не поддержан — PROMPT в cmd.exe это статическая строка, она не может выполнять команды при каждой перерисовке"@,
        NodeV::Cmd(_) => "cmd.exe: <cmd run=...> не поддержан — PROMPT в cmd.exe это статическая строка, она не может выполнять произвольные команды при каждой перерисовке"@,
        NodeV::Bold(c) => cmd_nodes_error(c),
        NodeV::Underline(c) => cmd_nodes_error(c),
        NodeV::Italic(c) => cmd_nodes_error(c),
        NodeV::Color { fg, bg, children } => if sgr_open(fg, bg) is None {
            sgr_open_error(fg, bg)
        } else {
            cmd_nodes_error(children)
        },
        _ => Seq::empty(),
    }
}

/// The message of the first node of a sequence that cmd.exe refuses.
pub open spec fn cmd_nodes_error(ns: Seq<NodeV>) -> Seq<char>
    decreases ns, 0nat,
{
    if ns.len() == 0 {
        Seq::empty()
    } else if cmd_nodes(ns.drop_last()) is None {
        cmd_nodes_error(ns.drop_last())
    } else {
        cmd_node_error(ns.last())
    }
}

/// A sequence has no rendering when one of its prefixes has none, and the
/// error is that of the prefix.
pub proof fn lemma_cmd_nodes_prefix(s: Seq<NodeV>, i: int)
    requires
        0 <= i <= s.len(),
        cmd_nodes(s.take(i)) is None,
    ensures
        cmd_nodes(s) is None,
        cmd_nodes_error(s) == cmd_nodes_error(s.take(i)),
    decreases s.len() - i,
{
    if i < s.len() {
        assert(s.take(i + 1).drop_last() == s.take(i));
        lemma_cmd_nodes_prefix(s, i + 1);
    } else {
        assert(s.take(i) == s);
    }
}

/// The cmd.exe rendering of a document: `title ...` (if any) and
/// `prompt ...`, each ended by CR LF; or the bare prompt value.
pub open spec fn cmd_render(doc: DocV, raw: bool) -> Option<Seq<char>> {
    match cmd_nodes(doc.body) {
        Some(body) => Some(
            if raw {
                body
            } else {
                (if doc.title.len() == 0 {
                    Seq::empty()
                } else {
                    "title "@ + doc.title + "\r\n"@
                }) + "prompt "@ + body + "\r\n"@
            },
        ),
        None => None,
    }
}

impl ShellBackend for Cmd {
    open spec fn spec_key(&self) -> Seq<char> {
        "cmd"@
    }

    open spec fn spec_aliases(&self) -> Seq<Seq<char>> {
        Seq::empty()
    }

    open spec fn spec_render(&self, doc: DocV, raw: bool) -> Option<Seq<char>> {
        cmd_render(doc, raw)
    }

    open spec fn spec_render_error(&self, doc: DocV) -> Seq<char> {
        cmd_nodes_error(doc.body)
    }

    fn key(&self) -> (k: &'static str) {
        "cmd"
    }

    fn aliases(&self) -> (a: &'static [&'static str]) {
        &[]
    }

    fn render_document(&self, doc: &Document, raw: bool) -> (r: Result<String, PsmlError>) {
        let mut body = String::new();
        render_nodes(&doc.body, &mut body)?;
        Ok(finalize(doc.title.as_str(), body.as_str(), raw))
    }
}

fn render_nodes(nodes: &Vec<Node>, out: &mut String) -> (r: Result<(), PsmlError>)
    ensures
        r is Ok <==> cmd_nodes(nodes_view(nodes@)) is Some,
        r is Ok ==> final(out)@ == old(out)@ + cmd_nodes(nodes_view(nodes@)).unwrap(),
        r matches Err(e) ==> e.0@ == cmd_nodes_error(nodes_view(nodes@)),
    decreases nodes, 0nat,
{
    let ghost start = out@;
    for i in 0..nodes.len()
        invariant
            cmd_nodes(nodes_view(nodes@.take(i as int))) is Some,
            out@ == start + cmd_nodes(nodes_view(nodes@.take(i as int))).unwrap(),
    {
        proof {
            lemma_nodes_view_push(nodes@, i as int);
            let pre = nodes_view(nodes@.take(i as int));
            assert(pre.push(node_view(nodes@[i as int])).drop_last() == pre);
        }
        let r = render_node(&nodes[i], out);
        if r.is_err() {
            proof {
                lemma_nodes_view_index(nodes@);
                lemma_nodes_view_take(nodes@, i + 1);
                lemma_cmd_nodes_prefix(nodes_view(nodes@), i + 1);
            }
            return r;
        }
    }
    assert(nodes@.take(nodes@.len() as int) == nodes@);
    Ok(())
}

fn refuse(msg: &str) -> (r: Result<(), PsmlError>)
    ensures
        r matches Err(e) && e.0@ == msg@,
{
    let mut m = String::new();
    push_str(&mut m, msg);
    Err(PsmlError(m))
}

fn render_node(node: &Node, out: &mut String) -> (r: Result<(), PsmlError>)
    ensures
        r is Ok <==> cmd_node(node_view(*node)) is Some,
        r is Ok ==> final(out)@ == old(out)@ + cmd_node(node_view(*node)).unwrap(),
        r matches Err(e) ==> e.0@ == cmd_node_error(node_view(*node)),
    decreases node, 2nat,
{
    match node {
        Node::Text(s) => {
            let e = escape_literal(s.as_str());
            push_str(out, e.as_str());
        },
        Node::Br => push_str(out, "$_"),
        Node::User => push_str(out, "%USERNAME%"),
        Node::Host => push_str(out, "%COMPUTERNAME%"),
        // cmd has no short/full host name; the user's DNS domain stands in.
        Node::HostFull => push_str(out, "%COMPUTERNAME%.%USERDNSDOMAIN%"),
        Node::Cwd => push_str(out, "$P"),
        Node::CwdBase => {
            return refuse(
                "cmd.exe: <cwdbase/> не поддержан — у PROMPT нет способа взять только последний компонент пути без выполнения внешней команды",
            );
        },
        // cmd does not tell root from a plain user in PROMPT.
        Node::Symbol => push_str(out, ">"),
        Node::Jobs => {
            return refuse("cmd.exe: <jobs/> не поддержан — у cmd.exe нет управления job'ами");
        },
        Node::ExitCode => push_str(out, "%ERRORLEVEL%"),
        Node::Reset => push_str(out, "$E[0m"),
        Node::Time(mode) => match mode {
            TimeMode::H24 => push_str(out, "$T"),
            _ => {
                return refuse(
                    "cmd.exe: <time mode=...> поддерживает только mode=\"24\" — у $T фиксированный локальный формат, 12-часовой/AM-PM формат недостижим без внешней команды",
                );
            },
        },
        Node::Date(fmt) => match fmt {
            None => push_str(out, "$D"),
            Some(_) => {
                return refuse(
                    "cmd.exe: <date fmt=...> не поддержан — у $D фиксированный локальный формат, свой strftime-формат недостижим без внешней команды",
                );
            },
        },
        Node::Git { .. } => {
            return refuse(
                "cmd.exe: <git/> не поддержан — PROMPT в cmd.exe это статическая строка, она не может выполнять команды при каждой перерисовке",
            );
        },
        Node::Cmd(_) => {
            return refuse(
                "cmd.exe: <cmd run=...> не поддержан — PROMPT в cmd.exe это статическая строка, она не может выполнять произвольные команды при каждой перерисовке",
            );
        },
        Node::Bold(children) => emit_pair(children, "1", "22", out)?,
        Node::Underline(children) => emit_pair(children, "4", "24", out)?,
        Node::Italic(children) => emit_pair(children, "3", "23", out)?,
        Node::Color { fg, bg, children } => {
            let open = open_codes(fg, bg)?;
            emit_pair(children, open.as_str(), close_codes(fg, bg), out)?;
        },
    }
    Ok(())
}

fn push_cmd_sgr(out: &mut String, codes: &str)
    ensures
        final(out)@ == old(out)@ + cmd_sgr(codes@),
{
    push_str(out, "$E[");
    push_str(out, codes);
    push_str(out, "m");
}

fn emit_pair(children: &Vec<Node>, on: &str, off: &str, out: &mut String) -> (r: Result<(), PsmlError>)
    ensures
        r is Ok <==> cmd_nodes(nodes_view(children@)) is Some,
        r is Ok ==> final(out)@ == old(out)@ + cmd_sgr(on@) + cmd_nodes(nodes_view(children@)).unwrap()
            + cmd_sgr(off@),
        r matches Err(e) ==> e.0@ == cmd_nodes_error(nodes_view(children@)),
    decreases children, 1nat,
{
    push_cmd_sgr(out, on);
    render_nodes(children, out)?;
    push_cmd_sgr(out, off);
    Ok(())
}

/// The one dangerous character in `PROMPT` text is `$` (it starts a `$`
/// code); a literal `$` is written `$$`.  A literal `%` could still form
/// an existing `%variable%`; that cannot be neutralised without losing the
/// `%...%` expansion that this backend itself relies on.
fn escape_literal(s: &str) -> (r: String)
    ensures
        r@ == replace_char(s@, '$', "$$"@),
{
    replace_all(s, '$', "$$")
}

fn finalize(title: &str, body: &str, raw: bool) -> (r: String)
    ensures
        r@ == (if raw {
            body@
        } else {
            (if title@.len() == 0 {
                Seq::empty()
            } else {
                "title "@ + title@ + "\r\n"@
            }) + "prompt "@ + body@ + "\r\n"@
        }),
{
    if raw {
        return body.to_owned();
    }
    let mut script = String::new();
    if title.unicode_len() != 0 {
        push_str(&mut script, "title ");
        push_str(&mut script, title);
        push_str(&mut script, "\r\n");
    }
    push_str(&mut script, "prompt ");
    push_str(&mut script, body);
    push_str(&mut script, "\r\n");
    script
}

} // verus!
