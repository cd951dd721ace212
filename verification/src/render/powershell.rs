//! The PowerShell backend (PowerShell 7+: `??` and `$IsWindows`).  The
//! prompt is a function (`function prompt { ... }`) whose body is one
//! interpolated double-quoted string with `$(...)` inserts.  `<git/>` runs
//! git itself; `<cmd run>` runs through `bash -c`.  A `<date fmt>` is
//! strftime, which is translated to a .NET date format; an unknown
//! specifier is an error rather than a silently wrong date.

use vstd::prelude::*;

use crate::ir::{
    lemma_nodes_view_index, lemma_nodes_view_push, lemma_nodes_view_take, node_view, nodes_view,
    opt_view, DocV, Document, Node, NodeV, PsmlError, TimeMode,
};
use crate::render::util::{
    close_codes, open_codes, powershell_escape_double, powershell_escaped, powershell_quote_single,
    powershell_quoted, raw_sgr, sgr, sgr_close, sgr_open, sgr_open_error,
};
use crate::render::ShellBackend;
use crate::text::{push_char, push_str};

verus! {

/// The PowerShell backend.
pub struct PowerShell;

/// The `$`/`#` symbol: administrator on Windows, uid 0 elsewhere.
pub open spec fn ps_symbol() -> Seq<char> {
    "$(if($IsWindows){if(([Security.Principal.WindowsPrincipal][Security.Principal.WindowsIdentity]::GetCurrent()).IsInRole([Security.Principal.WindowsBuiltinRole]::Administrator)){'#'}else{'$'}}else{if((id -u) -eq '0'){'#'}else{'$'}})"@
}

/// The .NET format of the time in a mode.
pub open spec fn ps_time_fmt(m: TimeMode) -> Seq<char> {
    match m {
        TimeMode::H24 => "HH:mm:ss"@,
        TimeMode::H12 => "hh:mm:ss"@,
        TimeMode::AmPm => "hh:mm tt"@,
        TimeMode::H24Short => "HH:mm"@,
    }
}

/// `$(Get-Date -Format '...')`.
pub open spec fn ps_get_date(fmt: Seq<char>) -> Seq<char> {
    "$(Get-Date -Format "@ + powershell_quoted(fmt) + ")"@
}

/// The .NET translation of one strftime specifier `%c`.
pub open spec fn dotnet_code(c: char) -> Option<Seq<char>> {
    if c == 'Y' {
        Some("yyyy"@)
    } else if c == 'y' {
        Some("yy"@)
    } else if c == 'm' {
        Some("MM"@)
    } else if c == 'd' {
        Some("dd"@)
    } else if c == 'H' {
        Some("HH"@)
    } else if c == 'I' {
        Some("hh"@)
    } else if c == 'M' {
        Some("mm"@)
    } else if c == 'S' {
        Some("ss"@)
    } else if c == 'p' {
        Some("tt"@)
    } else if c == 'a' {
        Some("ddd"@)
    } else if c == 'A' {
        Some("dddd"@)
    } else if c == 'b' {
        Some("MMM"@)
    } else if c == 'B' {
        Some("MMMM"@)
    } else if c == '%' {
        Some("\\%"@)
    } else {
        None
    }
}

/// Reading a strftime format from the left: the translation so far and
/// whether a `%` waits for its specifier; `None` after an unknown one.
pub open spec fn dotnet_scan(f: Seq<char>) -> Option<(Seq<char>, bool)>
    decreases f.len(),
{
    if f.len() == 0 {
        Some((Seq::empty(), false))
    } else {
        match dotnet_scan(f.drop_last()) {
            None => None,
            Some((out, pending)) => {
                let c = f.last();
                if pending {
                    match dotnet_code(c) {
                        Some(m) => Some((out + m, false)),
                        None => None,
                    }
                } else if c == '%' {
                    Some((out, true))
                } else if c == '\\' {
                    Some((out + "\\\\"@, false))
                } else {
                    Some((out + seq!['\\', c], false))
                }
            },
        }
    }
}

/// The .NET custom date format of a strftime format: specifiers translated,
/// every other character escaped with `\`; `None` for an unknown specifier
/// or a trailing lone `%`.
pub open spec fn strftime_dotnet(f: Seq<char>) -> Option<Seq<char>> {
    match dotnet_scan(f) {
        Some((out, false)) => Some(out),
        _ => None,
    }
}

/// The message for the first unknown specifier of a strftime format.
pub open spec fn dotnet_scan_error(f: Seq<char>) -> Seq<char>
    decreases f.len(),
{
    if f.len() == 0 {
        Seq::empty()
    } else {
        match dotnet_scan(f.drop_last()) {
            None => dotnet_scan_error(f.drop_last()),
            Some((_, pending)) => if pending && dotnet_code(f.last()) is None {
                "PowerShell: спецификатор даты %"@ + seq![f.last()]
                    + " не поддержан конвертером strftime->.NET (доступны: Y y m d H I M S p a A b B %)"@
            } else {
                Seq::empty()
            },
        }
    }
}

/// The message for a strftime format that has no .NET translation.
pub open spec fn strftime_dotnet_error(f: Seq<char>) -> Seq<char> {
    if dotnet_scan(f) is None {
        dotnet_scan_error(f)
    } else {
        "PowerShell: формат даты заканчивается на одиночный '%'"@
    }
}

/// `<git/>` through git itself.
pub open spec fn ps_git(prefix: Seq<char>, suffix: Seq<char>) -> Seq<char> {
    "$($b = git symbolic-ref --short HEAD 2>$null; if (-not $b) { $b = git rev-parse --short HEAD 2>$null }; if ($b) { \""@
        + powershell_escaped(prefix) + "$b"@ + powershell_escaped(suffix) + "\" })"@
}

/// Wraps `b` between two literal SGR sequences.
pub open spec fn ps_wrap(on: Seq<char>, b: Option<Seq<char>>, off: Seq<char>) -> Option<Seq<char>> {
    match b {
        Some(x) => Some(powershell_escaped(sgr(on)) + x + powershell_escaped(sgr(off))),
        None => None,
    }
}

/// The PowerShell rendering of one node (a piece of the double-quoted string).
pub open spec fn ps_node(n: NodeV) -> Option<Seq<char>>
    decreases n, 1nat,
{
    match n {
        NodeV::Text(s) => Some(powershell_escaped(s)),
        NodeV::Br => Some("`n"@),
        NodeV::User => Some("$($env:USERNAME ?? $env:USER)"@),
        NodeV::Host => Some("$($env:COMPUTERNAME ?? (hostname))"@),
        NodeV::HostFull => Some("$([System.Net.Dns]::GetHostEntry('').HostName)"@),
        NodeV::Cwd => Some("$($pwd.Path -replace ('^' + [regex]::Escape($HOME)), '~')"@),
        NodeV::CwdBase => Some("$(Split-Path $pwd -Leaf)"@),
        NodeV::Symbol => Some(ps_symbol()),
        NodeV::Jobs => Some("$((Get-Job).Count)"@),
        NodeV::ExitCode => Some("$($LASTEXITCODE)"@),
        NodeV::Reset => Some(powershell_escaped(sgr("0"@))),
        NodeV::Time(m) => Some(ps_get_date(ps_time_fmt(m))),
        NodeV::Date(f) => match f {
            Some(f) => match strftime_dotnet(f) {
                Some(d) => Some(ps_get_date(d)),
                None => None,
            },
            None => Some(ps_get_date("ddd MMM dd"@)),
        },
        NodeV::Git { prefix, suffix } => Some(ps_git(prefix, suffix)),
        NodeV::Cmd(run) => Some("$(bash -c "@ + powershell_quoted(run) + ")"@),
        NodeV::Bold(c) => ps_wrap("1"@, ps_nodes(c), "22"@),
        NodeV::Underline(c) => ps_wrap("4"@, ps_nodes(c), "24"@),
        NodeV::Italic(c) => ps_wrap("3"@, ps_nodes(c), "23"@),
        NodeV::Color { fg, bg, children } => match sgr_open(fg, bg) {
            Some(o) => ps_wrap(o, ps_nodes(children), sgr_close(fg, bg)),
            None => None,
        },
    }
}

/// The PowerShell rendering of a sequence of nodes.
pub open spec fn ps_nodes(ns: Seq<NodeV>) -> Option<Seq<char>>
    decreases ns, 0nat,
{
    if ns.len() == 0 {
        Some(Seq::empty())
    } else {
        match ps_nodes(ns.drop_last()) {
            Some(a) => match ps_node(ns.last()) {
                Some(b) => Some(a + b),
                None => None,
            },
            None => None,
        }
    }
}

/// The message where PowerShell refuses a node: what it cannot do, a color
/// that does not resolve, or the first refused node inside.
pub open spec fn ps_node_error(n: NodeV) -> Seq<char>
    decreases n, 1nat,
{
    match n {
        NodeV::Date(f) => match f {
            Some(f) => strftime_dotnet_error(f),
            None => Seq::empty(),
        },
        NodeV::Bold(c) => ps_nodes_error(c),
        NodeV::Underline(c) => ps_nodes_error(c),
        NodeV::Italic(c) => ps_nodes_error(c),
        NodeV::Color { fg, bg, children } => if sgr_open(fg, bg) is None {
            sgr_open_error(fg, bg)
        } else {
            ps_nodes_error(children)
        },
        _ => Seq::empty(),
    }
}

/// The message of the first node of a sequence that PowerShell refuses.
pub open spec fn ps_nodes_error(ns: Seq<NodeV>) -> Seq<char>
    decreases ns, 0nat,
{
    if ns.len() == 0 {
        Seq::empty()
    } else if ps_nodes(ns.drop_last()) is None {
        ps_nodes_error(ns.drop_last())
    } else {
        ps_node_error(ns.last())
    }
}

/// A sequence has no rendering when one of its prefixes has none, and the
/// error is that of the prefix.
pub proof fn lemma_ps_nodes_prefix(s: Seq<NodeV>, i: int)
    requires
        0 <= i <= s.len(),
        ps_nodes(s.take(i)) is None,
    ensures
        ps_nodes(s) is None,
        ps_nodes_error(s) == ps_nodes_error(s.take(i)),
    decreases s.len() - i,
{
    if i < s.len() {
        assert(s.take(i + 1).drop_last() == s.take(i));
        lemma_ps_nodes_prefix(s, i + 1);
    } else {
        assert(s.take(i) == s);
    }
}

/// The PowerShell rendering of a document: a `prompt` function that sets
/// the window title (if any) and returns the string; or the bare string.
pub open spec fn ps_render(doc: DocV, raw: bool) -> Option<Seq<char>> {
    match ps_nodes(doc.body) {
        Some(inner) => {
            let body = "\""@ + inner + "\""@;
            Some(
                if raw {
                    body
                } else {
                    "function prompt {\n"@ + (if doc.title.len() == 0 {
                        Seq::empty()
                    } else {
                        "    $Host.UI.RawUI.WindowTitle = "@ + powershell_quoted(doc.title) + "\n"@
                    }) + "    "@ + body + "\n"@ + "}\n"@
                },
            )
        },
        None => None,
    }
}

impl ShellBackend for PowerShell {
    open spec fn spec_key(&self) -> Seq<char> {
        "powershell"@
    }

    open spec fn spec_aliases(&self) -> Seq<Seq<char>> {
        seq!["pwsh"@]
    }

    open spec fn spec_render(&self, doc: DocV, raw: bool) -> Option<Seq<char>> {
        ps_render(doc, raw)
    }

    open spec fn spec_render_error(&self, doc: DocV) -> Seq<char> {
        ps_nodes_error(doc.body)
    }

    fn key(&self) -> (k: &'static str) {
        "powershell"
    }

    fn aliases(&self) -> (a: &'static [&'static str]) {
        let a: &'static [&'static str] = &["pwsh"];
        assert(a@.map_values(|s: &str| s@) =~= seq!["pwsh"@]);
        a
    }

    fn render_document(&self, doc: &Document, raw: bool) -> (r: Result<String, PsmlError>) {
        let mut inner = String::new();
        render_nodes(&doc.body, &mut inner)?;
        Ok(finalize(doc.title.as_str(), inner.as_str(), raw))
    }
}

/// Literal text: backtick, `"` and `$` escaped so that nothing starts an
/// interpolation inside the outer `"..."`.
fn push_lit(out: &mut String, s: &str)
    ensures
        final(out)@ == old(out)@ + powershell_escaped(s@),
{
    let e = powershell_escape_double(s);
    push_str(out, e.as_str());
}

fn render_nodes(nodes: &Vec<Node>, out: &mut String) -> (r: Result<(), PsmlError>)
    ensures
        r is Ok <==> ps_nodes(nodes_view(nodes@)) is Some,
        r is Ok ==> final(out)@ == old(out)@ + ps_nodes(nodes_view(nodes@)).unwrap(),
        r matches Err(e) ==> e.0@ == ps_nodes_error(nodes_view(nodes@)),
    decreases nodes, 0nat,
{
    let ghost start = out@;
    for i in 0..nodes.len()
        invariant
            ps_nodes(nodes_view(nodes@.take(i as int))) is Some,
            out@ == start + ps_nodes(nodes_view(nodes@.take(i as int))).unwrap(),
    {
        proof {
            lemma_nodes_view_push(nodes@, i as int);
            let pre = nodes_view(nodes@.take(i as int));
            assert(pre.push(node_view(nodes@[i as int])).drop_last() == pre);
        }
        let r = render_node(&nodes[i], out);
        if r.is_err() {
            proof {
                lemma_nodes_view_index(nodes@);
                lemma_nodes_view_take(nodes@, i + 1);
                lemma_ps_nodes_prefix(nodes_view(nodes@), i + 1);
            }
            return r;
        }
    }
    assert(nodes@.take(nodes@.len() as int) == nodes@);
    Ok(())
}

fn render_node(node: &Node, out: &mut String) -> (r: Result<(), PsmlError>)
    ensures
        r is Ok <==> ps_node(node_view(*node)) is Some,
        r is Ok ==> final(out)@ == old(out)@ + ps_node(node_view(*node)).unwrap(),
        r matches Err(e) ==> e.0@ == ps_node_error(node_view(*node)),
    decreases node, 2nat,
{
    match node {
        Node::Text(s) => push_lit(out, s.as_str()),
        // `n is PowerShell's own newline escape inside "..."; the profile
        // source stays on one line.
        Node::Br => push_str(out, "`n"),
        Node::User => push_str(out, "$($env:USERNAME ?? $env:USER)"),
        Node::Host => push_str(out, "$($env:COMPUTERNAME ?? (hostname))"),
        Node::HostFull => push_str(out, "$([System.Net.Dns]::GetHostEntry('').HostName)"),
        Node::Cwd => push_str(out, "$($pwd.Path -replace ('^' + [regex]::Escape($HOME)), '~')"),
        Node::CwdBase => push_str(out, "$(Split-Path $pwd -Leaf)"),
        Node::Symbol => push_str(
            out,
            "$(if($IsWindows){if(([Security.Principal.WindowsPrincipal][Security.Principal.WindowsIdentity]::GetCurrent()).IsInRole([Security.Principal.WindowsBuiltinRole]::Administrator)){'#'}else{'$'}}else{if((id -u) -eq '0'){'#'}else{'$'}})",
        ),
        Node::Jobs => push_str(out, "$((Get-Job).Count)"),
        // PowerShell keeps no process exit code in `$?` (a success bool);
        // the closest is $LASTEXITCODE, set by external programs only.
        Node::ExitCode => push_str(out, "$($LASTEXITCODE)"),
        Node::Reset => {
            let s = raw_sgr("0");
            push_lit(out, s.as_str());
        },
        Node::Time(mode) => {
            let e = get_date(time_fmt(*mode));
            push_str(out, e.as_str());
        },
        Node::Date(fmt) => {
            let e = date_expr(fmt)?;
            push_str(out, e.as_str());
        },
        Node::Git { prefix, suffix } => {
            let e = git_expr(prefix.as_str(), suffix.as_str());
            push_str(out, e.as_str());
        },
        Node::Cmd(run) => {
            push_str(out, "$(bash -c ");
            let q = powershell_quote_single(run.as_str());
            push_str(out, q.as_str());
            push_str(out, ")");
        },
        Node::Bold(children) => emit_pair(children, "1", "22", out)?,
        Node::Underline(children) => emit_pair(children, "4", "24", out)?,
        Node::Italic(children) => emit_pair(children, "3", "23", out)?,
        Node::Color { fg, bg, children } => {
            let open = open_codes(fg, bg)?;
            emit_pair(children, open.as_str(), close_codes(fg, bg), out)?;
        },
    }
    Ok(())
}

fn emit_pair(children: &Vec<Node>, on: &str, off: &str, out: &mut String) -> (r: Result<(), PsmlError>)
    ensures
        r is Ok <==> ps_nodes(nodes_view(children@)) is Some,
        r is Ok ==> final(out)@ == old(out)@ + ps_wrap(on@, ps_nodes(nodes_view(children@)), off@).unwrap(),
        r matches Err(e) ==> e.0@ == ps_nodes_error(nodes_view(children@)),
    decreases children, 1nat,
{
    let s = raw_sgr(on);
    push_lit(out, s.as_str());
    render_nodes(children, out)?;
    let s = raw_sgr(off);
    push_lit(out, s.as_str());
    Ok(())
}

fn time_fmt(mode: TimeMode) -> (r: &'static str)
    ensures
        r@ == ps_time_fmt(mode),
{
    match mode {
        TimeMode::H24 => "HH:mm:ss",
        TimeMode::H12 => "hh:mm:ss",
        TimeMode::AmPm => "hh:mm tt",
        TimeMode::H24Short => "HH:mm",
    }
}

fn get_date(fmt: &str) -> (r: String)
    ensures
        r@ == ps_get_date(fmt@),
{
    let mut e = String::new();
    push_str(&mut e, "$(Get-Date -Format ");
    let q = powershell_quote_single(fmt);
    push_str(&mut e, q.as_str());
    push_str(&mut e, ")");
    e
}

fn date_expr(fmt: &Option<String>) -> (r: Result<String, PsmlError>)
    ensures
        r is Ok <==> ps_node(NodeV::Date(opt_view(*fmt))) is Some,
        r matches Ok(s) ==> s@ == ps_node(NodeV::Date(opt_view(*fmt))).unwrap(),
        r matches Err(e) ==> e.0@ == ps_node_error(NodeV::Date(opt_view(*fmt))),
{
    match fmt {
        Some(f) => {
            let d = strftime_to_dotnet(f.as_str())?;
            Ok(get_date(d.as_str()))
        },
        None => Ok(get_date("ddd MMM dd")),
    }
}

/// `<git/>` through git itself, with no other dependency.
fn git_expr(prefix: &str, suffix: &str) -> (r: String)
    ensures
        r@ == ps_git(prefix@, suffix@),
{
    let mut e = String::new();
    push_str(
        &mut e,
        "$($b = git symbolic-ref --short HEAD 2>$null; if (-not $b) { $b = git rev-parse --short HEAD 2>$null }; if ($b) { \"",
    );
    let p = powershell_escape_double(prefix);
    push_str(&mut e, p.as_str());
    push_str(&mut e, "$b");
    let s = powershell_escape_double(suffix);
    push_str(&mut e, s.as_str());
    push_str(&mut e, "\" })");
    e
}

fn dotnet_code_exec(c: char) -> (r: Option<&'static str>)
    ensures
        match dotnet_code(c) {
            Some(m) => r matches Some(s) && s@ == m,
            None => r is None,
        },
{
    if c == 'Y' {
        Some("yyyy")
    } else if c == 'y' {
        Some("yy")
    } else if c == 'm' {
        Some("MM")
    } else if c == 'd' {
        Some("dd")
    } else if c == 'H' {
        Some("HH")
    } else if c == 'I' {
        Some("hh")
    } else if c == 'M' {
        Some("mm")
    } else if c == 'S' {
        Some("ss")
    } else if c == 'p' {
        Some("tt")
    } else if c == 'a' {
        Some("ddd")
    } else if c == 'A' {
        Some("dddd")
    } else if c == 'b' {
        Some("MMM")
    } else if c == 'B' {
        Some("MMMM")
    } else if c == '%' {
        Some("\\%")
    } else {
        None
    }
}

proof fn lemma_dotnet_scan_none(f: Seq<char>, i: int)
    requires
        0 <= i <= f.len(),
        dotnet_scan(f.take(i)) is None,
    ensures
        dotnet_scan(f) is None,
        dotnet_scan_error(f) == dotnet_scan_error(f.take(i)),
    decreases f.len() - i,
{
    if i < f.len() {
        assert(f.take(i + 1).drop_last() == f.take(i));
        lemma_dotnet_scan_none(f, i + 1);
    } else {
        assert(f.take(i) == f);
    }
}

/// Translates a strftime format (as in `<date fmt="...">`) to the format
/// of `Get-Date -Format` (a .NET custom date format).
fn strftime_to_dotnet(fmt: &str) -> (r: Result<String, PsmlError>)
    ensures
        r is Ok <==> strftime_dotnet(fmt@) is Some,
        r matches Ok(s) ==> s@ == strftime_dotnet(fmt@).unwrap(),
        r matches Err(e) ==> e.0@ == strftime_dotnet_error(fmt@),
{
    let mut out = String::new();
    let mut pending = false;
    for c in it: fmt.chars()
        invariant
            it.seq() == fmt@,
            dotnet_scan(fmt@.take(it.index() as int)) == Some((out@, pending)),
    {
        let ghost i = it.index() as int;
        assert(fmt@.take(i + 1).drop_last() == fmt@.take(i));
        if pending {
            match dotnet_code_exec(c) {
                Some(m) => {
                    push_str(&mut out, m);
                    pending = false;
                },
                None => {
                    proof {
                        lemma_dotnet_scan_none(fmt@, i + 1);
                    }
                    let mut msg = String::new();
                    push_str(&mut msg, "PowerShell: спецификатор даты %");
                    push_char(&mut msg, c);
                    push_str(
                        &mut msg,
                        " не поддержан конвертером strftime->.NET (доступны: Y y m d H I M S p a A b B %)",
                    );
                    return Err(PsmlError(msg));
                },
            }
        } else if c == '%' {
            pending = true;
        } else if c == '\\' {
            push_str(&mut out, "\\\\");
        } else {
            push_char(&mut out, '\\');
            push_char(&mut out, c);
        }
    }
    assert(fmt@.take(fmt@.len() as int) == fmt@);
    if pending {
        let mut msg = String::new();
        push_str(&mut msg, "PowerShell: формат даты заканчивается на одиночный '%'");
        return Err(PsmlError(msg));
    }
    Ok(out)
}

fn finalize(title: &str, inner: &str, raw: bool) -> (r: String)
    ensures
        r@ == (if raw {
            "\""@ + inner@ + "\""@
        } else {
            "function prompt {\n"@ + (if title@.len() == 0 {
                Seq::empty()
            } else {
                "    $Host.UI.RawUI.WindowTitle = "@ + powershell_quoted(title@) + "\n"@
            }) + "    "@ + ("\""@ + inner@ + "\""@) + "\n"@ + "}\n"@
        }),
{
    let mut body = String::new();
    push_str(&mut body, "\"");
    push_str(&mut body, inner);
    push_str(&mut body, "\"");
    if raw {
        return body;
    }
    let mut script = String::new();
    push_str(&mut script, "function prompt {\n");
    if title.unicode_len() != 0 {
        push_str(&mut script, "    $Host.UI.RawUI.WindowTitle = ");
        let q = powershell_quote_single(title);
        push_str(&mut script, q.as_str());
        push_str(&mut script, "\n");
    }
    push_str(&mut script, "    ");
    push_str(&mut script, body.as_str());
    push_str(&mut script, "\n");
    push_str(&mut script, "}\n");
    script
}

} // verus!
