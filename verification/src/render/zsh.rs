//! The zsh backend: `PROMPT='...'` with zsh's own prompt tokens (`%F{}`,
//! `%K{}`, `%B`, `%U`, ...) rather than raw SGR numbers.

use vstd::prelude::*;

use crate::ir::{
    any_runs_command, lemma_nodes_view_index, lemma_nodes_view_push, lemma_nodes_view_take,
    node_view, nodes_view, opt_view, runs_command, DocV, Document, Node, NodeV, PsmlError, TimeMode,
};
use crate::render::bash::wrap3;
use crate::render::util::{
    color_number, git_cmd, git_command, hex_color, is_color_number, is_hex_color, posix_quote_single,
    posix_quoted,
};
use crate::render::ShellBackend;
use crate::text::{
    debug_quoted, debug_str, dec, dec_string, lowercase, push_str, str_eq, to_lower,
};

verus! {

/// The zsh backend.
pub struct Zsh;

/// zsh's `%D{...}` code for the time in a mode.
pub open spec fn zsh_time(m: TimeMode) -> Seq<char> {
    match m {
        TimeMode::H24 => "%D{%H:%M:%S}"@,
        TimeMode::H12 => "%D{%I:%M:%S}"@,
        TimeMode::AmPm => "%D{%I:%M %p}"@,
        TimeMode::H24Short => "%D{%H:%M}"@,
    }
}

/// One of the eight color names that zsh knows by name.
pub open spec fn zsh_plain_name(name: Seq<char>) -> bool {
    name == "black"@ || name == "red"@ || name == "green"@ || name == "yellow"@ || name
        == "blue"@ || name == "magenta"@ || name == "cyan"@ || name == "white"@
}

/// The 256-color number of a bright color name.
pub open spec fn zsh_bright_num(name: Seq<char>) -> Option<nat> {
    if name == "brightblack"@ {
        Some(8)
    } else if name == "brightred"@ {
        Some(9)
    } else if name == "brightgreen"@ {
        Some(10)
    } else if name == "brightyellow"@ {
        Some(11)
    } else if name == "brightblue"@ {
        Some(12)
    } else if name == "brightmagenta"@ {
        Some(13)
    } else if name == "brightcyan"@ {
        Some(14)
    } else if name == "brightwhite"@ {
        Some(15)
    } else if name == "gray"@ {
        Some(8)
    } else if name == "grey"@ {
        Some(8)
    } else {
        None
    }
}

/// The content of `%F{...}`/`%K{...}` for a color value: `#rrggbb` and
/// numbers as written, names in lower case, bright names as their number.
pub open spec fn zsh_color(v: Seq<char>) -> Option<Seq<char>> {
    if hex_color(v) {
        Some(v)
    } else if color_number(v) {
        Some(v)
    } else if zsh_plain_name(lowercase(v)) {
        Some(lowercase(v))
    } else {
        match zsh_bright_num(lowercase(v)) {
            Some(n) => Some(dec(n)),
            None => None,
        }
    }
}

/// The opening tokens of a color.
pub open spec fn zsh_color_open(fg: Option<Seq<char>>, bg: Option<Seq<char>>) -> Option<Seq<char>> {
    let f = match fg {
        Some(f) => match zsh_color(f) {
            Some(c) => Some("%F{"@ + c + "}"@),
            None => None,
        },
        None => Some(Seq::empty()),
    };
    let b = match bg {
        Some(b) => match zsh_color(b) {
            Some(c) => Some("%K{"@ + c + "}"@),
            None => None,
        },
        None => Some(Seq::empty()),
    };
    match (f, b) {
        (Some(f), Some(b)) => Some(f + b),
        _ => None,
    }
}

/// No zsh color name starts with `#`.
pub proof fn lemma_no_zsh_name_starts_with_hash(n: Seq<char>)
    requires
        n.len() > 0,
        n[0] == '#',
    ensures
        !zsh_plain_name(n),
        zsh_bright_num(n) is None,
{
    reveal_strlit("black");
    reveal_strlit("red");
    reveal_strlit("green");
    reveal_strlit("yellow");
    reveal_strlit("blue");
    reveal_strlit("magenta");
    reveal_strlit("cyan");
    reveal_strlit("white");
    reveal_strlit("brightblack");
    reveal_strlit("brightred");
    reveal_strlit("brightgreen");
    reveal_strlit("brightyellow");
    reveal_strlit("brightblue");
    reveal_strlit("brightmagenta");
    reveal_strlit("brightcyan");
    reveal_strlit("brightwhite");
    reveal_strlit("gray");
    reveal_strlit("grey");
}

/// The message for a value that is not a zsh color.
pub open spec fn zsh_color_error(v: Seq<char>) -> Seq<char> {
    "неизвестное имя цвета: "@ + debug_quoted(v)
}

/// The message when the colors of a `<color>` do not resolve: that of
/// `fg` when it is not a color, else that of `bg`.
pub open spec fn zsh_color_open_error(fg: Option<Seq<char>>, bg: Option<Seq<char>>) -> Seq<char> {
    match fg {
        Some(f) if zsh_color(f) is None => zsh_color_error(f),
        _ => match bg {
            Some(b) => zsh_color_error(b),
            None => Seq::empty(),
        },
    }
}

/// The closing tokens of a color: `%f` for `fg`, `%k` for `bg`.
pub open spec fn zsh_color_close(fg: Option<Seq<char>>, bg: Option<Seq<char>>) -> Seq<char> {
    (if fg is Some {
        "%f"@
    } else {
        Seq::empty()
    }) + (if bg is Some {
        "%k"@
    } else {
        Seq::empty()
    })
}

/// The zsh rendering of one node.
pub open spec fn zsh_node(n: NodeV) -> Option<Seq<char>>
    decreases n, 1nat,
{
    match n {
        NodeV::Text(s) => Some(s),
        NodeV::Br => Some("\n"@),
        NodeV::User => Some("%n"@),
        NodeV::Host => Some("%m"@),
        NodeV::HostFull => Some("%M"@),
        NodeV::Cwd => Some("%~"@),
        NodeV::CwdBase => Some("%1~"@),
        NodeV::Symbol => Some("%#"@),
        NodeV::Jobs => Some("%j"@),
        NodeV::ExitCode => Some("%?"@),
        NodeV::Reset => Some("%f%k%b%u%{\\e[0m%}"@),
        NodeV::Time(m) => Some(zsh_time(m)),
        NodeV::Date(f) => match f {
            Some(f) => Some("%D{"@ + f + "}"@),
            None => Some("%D{%a %b %d}"@),
        },
        NodeV::Git { prefix, suffix } => Some("$("@ + git_cmd(prefix, suffix) + ")"@),
        NodeV::Cmd(run) => Some("$("@ + run + ")"@),
        NodeV::Bold(c) => wrap3("%B"@, zsh_nodes(c), "%b"@),
        NodeV::Underline(c) => wrap3("%U"@, zsh_nodes(c), "%u"@),
        NodeV::Italic(c) => wrap3("%{\\e[3m%}"@, zsh_nodes(c), "%{\\e[23m%}"@),
        NodeV::Color { fg, bg, children } => match zsh_color_open(fg, bg) {
            Some(o) => wrap3(o, zsh_nodes(children), zsh_color_close(fg, bg)),
            None => None,
        },
    }
}

/// The zsh rendering of a sequence of nodes.
pub open spec fn zsh_nodes(ns: Seq<NodeV>) -> Option<Seq<char>>
    decreases ns, 0nat,
{
    if ns.len() == 0 {
        Some(Seq::empty())
    } else {
        match zsh_nodes(ns.drop_last()) {
            Some(a) => match zsh_node(ns.last()) {
                Some(b) => Some(a + b),
                None => None,
            },
            None => None,
        }
    }
}

/// The message where zsh refuses a node: what it cannot do, a color
/// that does not resolve, or the first refused node inside.
pub open spec fn zsh_node_error(n: NodeV) -> Seq<char>
    decreases n, 1nat,
{
    match n {
        NodeV::Bold(c) => zsh_nodes_error(c),
        NodeV::Underline(c) => zsh_nodes_error(c),
        NodeV::Italic(c) => zsh_nodes_error(c),
        NodeV::Color { fg, bg, children } => if zsh_color_open(fg, bg) is None {
            zsh_color_open_error(fg, bg)
        } else {
            zsh_nodes_error(children)
        },
        _ => Seq::empty(),
    }
}

/// The message of the first node of a sequence that zsh refuses.
pub open spec fn zsh_nodes_error(ns: Seq<NodeV>) -> Seq<char>
    decreases ns, 0nat,
{
    if ns.len() == 0 {
        Seq::empty()
    } else if zsh_nodes(ns.drop_last()) is None {
        zsh_nodes_error(ns.drop_last())
    } else {
        zsh_node_error(ns.last())
    }
}

/// A sequence has no rendering when one of its prefixes has none, and the
/// error is that of the prefix.
pub proof fn lemma_zsh_nodes_prefix(s: Seq<NodeV>, i: int)
    requires
        0 <= i <= s.len(),
        zsh_nodes(s.take(i)) is None,
    ensures
        zsh_nodes(s) is None,
        zsh_nodes_error(s) == zsh_nodes_error(s.take(i)),
    decreases s.len() - i,
{
    if i < s.len() {
        assert(s.take(i + 1).drop_last() == s.take(i));
        lemma_zsh_nodes_prefix(s, i + 1);
    } else {
        assert(s.take(i) == s);
    }
}

/// The prompt with the window title in front.
pub open spec fn zsh_full(title: Seq<char>, body: Seq<char>) -> Seq<char> {
    if title.len() == 0 {
        body
    } else {
        "%{\\e]0;"@ + title + "\\a%}"@ + body
    }
}

/// The line that turns on `PROMPT_SUBST`.
pub open spec fn zsh_subst_line() -> Seq<char> {
    "setopt PROMPT_SUBST  # нужно, чтобы $(...) внутри PROMPT вычислялся\n"@
}

/// The zsh rendering of a document: `PROMPT='...'`, preceded by
/// `setopt PROMPT_SUBST` when the prompt runs a command.
pub open spec fn zsh_render(doc: DocV, raw: bool) -> Option<Seq<char>> {
    match zsh_nodes(doc.body) {
        Some(body) => Some(
            if raw {
                zsh_full(doc.title, body)
            } else {
                (if any_runs_command(doc.body) {
                    zsh_subst_line()
                } else {
                    Seq::empty()
                }) + "PROMPT="@ + posix_quoted(zsh_full(doc.title, body))
            },
        ),
        None => None,
    }
}

impl ShellBackend for Zsh {
    open spec fn spec_key(&self) -> Seq<char> {
        "zsh"@
    }

    open spec fn spec_aliases(&self) -> Seq<Seq<char>> {
        Seq::empty()
    }

    open spec fn spec_render(&self, doc: DocV, raw: bool) -> Option<Seq<char>> {
        zsh_render(doc, raw)
    }

    open spec fn spec_render_error(&self, doc: DocV) -> Seq<char> {
        zsh_nodes_error(doc.body)
    }

    fn key(&self) -> (k: &'static str) {
        "zsh"
    }

    fn aliases(&self) -> (a: &'static [&'static str]) {
        &[]
    }

    fn render_document(&self, doc: &Document, raw: bool) -> (r: Result<String, PsmlError>) {
        let mut uses_subst = false;
        let mut body = String::new();
        render_nodes(&doc.body, &mut body, &mut uses_subst)?;
        Ok(finalize(doc.title.as_str(), body.as_str(), raw, uses_subst))
    }
}

fn render_nodes(nodes: &Vec<Node>, out: &mut String, uses_subst: &mut bool) -> (r: Result<(), PsmlError>)
    ensures
        r is Ok <==> zsh_nodes(nodes_view(nodes@)) is Some,
        r is Ok ==> final(out)@ == old(out)@ + zsh_nodes(nodes_view(nodes@)).unwrap(),
        r matches Err(e) ==> e.0@ == zsh_nodes_error(nodes_view(nodes@)),
        r is Ok ==> *final(uses_subst) == (*old(uses_subst) || any_runs_command(nodes_view(nodes@))),
    decreases nodes, 0nat,
{
    let ghost start = out@;
    let ghost u0 = *uses_subst;
    for i in 0..nodes.len()
        invariant
            zsh_nodes(nodes_view(nodes@.take(i as int))) is Some,
            out@ == start + zsh_nodes(nodes_view(nodes@.take(i as int))).unwrap(),
            *uses_subst == (u0 || any_runs_command(nodes_view(nodes@.take(i as int)))),
    {
        proof {
            lemma_nodes_view_push(nodes@, i as int);
            let pre = nodes_view(nodes@.take(i as int));
            assert(pre.push(node_view(nodes@[i as int])).drop_last() == pre);
        }
        let r = render_node(&nodes[i], out, uses_subst);
        if r.is_err() {
            proof {
                lemma_nodes_view_index(nodes@);
                lemma_nodes_view_take(nodes@, i + 1);
                lemma_zsh_nodes_prefix(nodes_view(nodes@), i + 1);
            }
            return r;
        }
    }
    assert(nodes@.take(nodes@.len() as int) == nodes@);
    Ok(())
}

fn render_node(node: &Node, out: &mut String, uses_subst: &mut bool) -> (r: Result<(), PsmlError>)
    ensures
        r is Ok <==> zsh_node(node_view(*node)) is Some,
        r is Ok ==> final(out)@ == old(out)@ + zsh_node(node_view(*node)).unwrap(),
        r matches Err(e) ==> e.0@ == zsh_node_error(node_view(*node)),
        r is Ok ==> *final(uses_subst) == (*old(uses_subst) || runs_command(node_view(*node))),
    decreases node, 2nat,
{
    match node {
        Node::Text(s) => push_str(out, s.as_str()),
        Node::Br => push_str(out, "\n"),
        Node::User => push_str(out, "%n"),
        Node::Host => push_str(out, "%m"),
        Node::HostFull => push_str(out, "%M"),
        Node::Cwd => push_str(out, "%~"),
        Node::CwdBase => push_str(out, "%1~"),
        Node::Symbol => push_str(out, "%#"),
        Node::Jobs => push_str(out, "%j"),
        Node::ExitCode => push_str(out, "%?"),
        Node::Reset => push_str(out, "%f%k%b%u%{\\e[0m%}"),
        Node::Time(mode) => push_str(out, time_code(*mode)),
        Node::Date(fmt) => match fmt {
            Some(f) => {
                push_str(out, "%D{");
                push_str(out, f.as_str());
                push_str(out, "}");
            },
            None => push_str(out, "%D{%a %b %d}"),
        },
        Node::Git { prefix, suffix } => {
            *uses_subst = true;
            let cmd = git_command(prefix.as_str(), suffix.as_str());
            wrap_subst(cmd.as_str(), out);
        },
        Node::Cmd(run) => {
            *uses_subst = true;
            wrap_subst(run.as_str(), out);
        },
        Node::Bold(children) => emit_token_pair(children, "%B", "%b", out, uses_subst)?,
        Node::Underline(children) => emit_token_pair(children, "%U", "%u", out, uses_subst)?,
        Node::Italic(children) => emit_token_pair(
            children,
            "%{\\e[3m%}",
            "%{\\e[23m%}",
            out,
            uses_subst,
        )?,
        Node::Color { fg, bg, children } => emit_color(fg, bg, children, out, uses_subst)?,
    }
    Ok(())
}

fn emit_token_pair(
    children: &Vec<Node>,
    on: &str,
    off: &str,
    out: &mut String,
    uses_subst: &mut bool,
) -> (r: Result<(), PsmlError>)
    ensures
        r is Ok <==> zsh_nodes(nodes_view(children@)) is Some,
        r is Ok ==> final(out)@ == old(out)@ + on@ + zsh_nodes(nodes_view(children@)).unwrap() + off@,
        r matches Err(e) ==> e.0@ == zsh_nodes_error(nodes_view(children@)),
        r is Ok ==> *final(uses_subst) == (*old(uses_subst) || any_runs_command(nodes_view(children@))),
    decreases children, 1nat,
{
    push_str(out, on);
    render_nodes(children, out, uses_subst)?;
    push_str(out, off);
    Ok(())
}

fn emit_color(
    fg: &Option<String>,
    bg: &Option<String>,
    children: &Vec<Node>,
    out: &mut String,
    uses_subst: &mut bool,
) -> (r: Result<(), PsmlError>)
    ensures
        r is Ok <==> zsh_node(
            NodeV::Color { fg: opt_view(*fg), bg: opt_view(*bg), children: nodes_view(children@) },
        ) is Some,
        r is Ok ==> final(out)@ == old(out)@ + zsh_node(
            NodeV::Color { fg: opt_view(*fg), bg: opt_view(*bg), children: nodes_view(children@) },
        ).unwrap(),
        r is Ok ==> *final(uses_subst) == (*old(uses_subst) || any_runs_command(nodes_view(children@))),
        r matches Err(e) ==> e.0@ == zsh_node_error(
            NodeV::Color { fg: opt_view(*fg), bg: opt_view(*bg), children: nodes_view(children@) },
        ),
    decreases children, 1nat,
{
    let ghost start = out@;
    if let Some(f) = fg {
        let c = resolve_color_zsh(f.as_str())?;
        push_str(out, "%F{");
        push_str(out, c.as_str());
        push_str(out, "}");
    }
    if let Some(b) = bg {
        let c = resolve_color_zsh(b.as_str())?;
        push_str(out, "%K{");
        push_str(out, c.as_str());
        push_str(out, "}");
    }
    assert(out@ == start + zsh_color_open(opt_view(*fg), opt_view(*bg)).unwrap());
    render_nodes(children, out, uses_subst)?;
    let ghost mid = out@;
    if fg.is_some() {
        push_str(out, "%f");
    }
    if bg.is_some() {
        push_str(out, "%k");
    }
    assert(out@ == mid + zsh_color_close(opt_view(*fg), opt_view(*bg)));
    Ok(())
}

fn time_code(mode: TimeMode) -> (r: &'static str)
    ensures
        r@ == zsh_time(mode),
{
    match mode {
        TimeMode::H24 => "%D{%H:%M:%S}",
        TimeMode::H12 => "%D{%I:%M:%S}",
        TimeMode::AmPm => "%D{%I:%M %p}",
        TimeMode::H24Short => "%D{%H:%M}",
    }
}

/// zsh has no MSYS2 issue (that one is specific to bash), so the
/// substitution stays a plain `$(...)`, evaluated under `PROMPT_SUBST`.
fn wrap_subst(cmd: &str, out: &mut String)
    ensures
        final(out)@ == old(out)@ + "$("@ + cmd@ + ")"@,
{
    push_str(out, "$(");
    push_str(out, cmd);
    push_str(out, ")");
}

fn zsh_plain_name_exec(name: &str) -> (r: bool)
    ensures
        r == zsh_plain_name(name@),
{
    str_eq(name, "black") || str_eq(name, "red") || str_eq(name, "green") || str_eq(name, "yellow")
        || str_eq(name, "blue") || str_eq(name, "magenta") || str_eq(name, "cyan") || str_eq(
        name,
        "white",
    )
}

fn zsh_bright_num_exec(name: &str) -> (r: Option<u32>)
    ensures
        match zsh_bright_num(name@) {
            Some(n) => r == Some(n as u32),
            None => r is None,
        },
{
    if str_eq(name, "brightblack") {
        Some(8)
    } else if str_eq(name, "brightred") {
        Some(9)
    } else if str_eq(name, "brightgreen") {
        Some(10)
    } else if str_eq(name, "brightyellow") {
        Some(11)
    } else if str_eq(name, "brightblue") {
        Some(12)
    } else if str_eq(name, "brightmagenta") {
        Some(13)
    } else if str_eq(name, "brightcyan") {
        Some(14)
    } else if str_eq(name, "brightwhite") {
        Some(15)
    } else if str_eq(name, "gray") {
        Some(8)
    } else if str_eq(name, "grey") {
        Some(8)
    } else {
        None
    }
}

/// The content of `%F{...}` / `%K{...}` for a color value.
fn resolve_color_zsh(value: &str) -> (r: Result<String, PsmlError>)
    ensures
        r is Ok <==> zsh_color(value@) is Some,
        r matches Ok(s) ==> s@ == zsh_color(value@).unwrap(),
        r matches Err(e) ==> e.0@ == zsh_color_error(value@),
        value@.len() > 0 && value@[0] == '#' && r is Ok ==> hex_color(value@),
{
    if is_hex_color(value) {
        return Ok(value.to_owned());
    }
    if is_color_number(value) {
        return Ok(value.to_owned());
    }
    let name = to_lower(value);
    proof {
        if value@.len() > 0 && value@[0] == '#' {
            lemma_no_zsh_name_starts_with_hash(name@);
        }
    }
    if zsh_plain_name_exec(name.as_str()) {
        return Ok(name);
    }
    if let Some(n) = zsh_bright_num_exec(name.as_str()) {
        return Ok(dec_string(n));
    }
    let mut msg = String::new();
    push_str(&mut msg, "неизвестное имя цвета: ");
    let q = debug_str(value);
    push_str(&mut msg, q.as_str());
    Err(PsmlError(msg))
}

fn finalize(title: &str, body: &str, raw: bool, uses_subst: bool) -> (r: String)
    ensures
        r@ == (if raw {
            zsh_full(title@, body@)
        } else {
            (if uses_subst {
                zsh_subst_line()
            } else {
                Seq::empty()
            }) + "PROMPT="@ + posix_quoted(zsh_full(title@, body@))
        }),
{
    let mut full = String::new();
    if title.unicode_len() != 0 {
        push_str(&mut full, "%{\\e]0;");
        push_str(&mut full, title);
        push_str(&mut full, "\\a%}");
    }
    push_str(&mut full, body);
    if raw {
        return full;
    }
    let mut s = String::new();
    if uses_subst {
        push_str(&mut s, "setopt PROMPT_SUBST  # нужно, чтобы $(...) внутри PROMPT вычислялся\n");
    }
    push_str(&mut s, "PROMPT=");
    let q = posix_quote_single(full.as_str());
    push_str(&mut s, q.as_str());
    s
}

} // verus!
