//! Properties of the library as a whole, proved over the specifications
//! of the parser, the registry and the backends.

use vstd::prelude::*;

use crate::ir::{any_runs_command, runs_command, DocV, NodeV};
use crate::parser::{
    close_container, formatting_only, insert_node, leaf_tag, open_body_tag, open_container,
    kind_name, spec_feed, spec_open, style_tag,
    ContainerKind, PState, XmlEventV,
};
use crate::render::bash::{bash_full, bash_node, bash_nodes, bash_nodes_error, bash_render, Bash};
use crate::render::cmd::{cmd_node, cmd_nodes, cmd_render};
use crate::render::fish::fish_render;
use crate::render::nu::nu_render;
use crate::render::powershell::ps_render;
use crate::render::util::{
    all_digits, fish_quoted, fg_name_code, nu_escaped, posix_quoted, powershell_quoted, sgr_color,
};
use crate::text::dec;
use crate::render::zsh::{zsh_node, zsh_nodes, zsh_render, zsh_bright_num, zsh_plain_name, zsh_subst_line, zsh_time};
use crate::render::fish::{fish_node, FragV};
use crate::render::powershell::{
    dotnet_code, dotnet_scan, ps_get_date, ps_node, ps_time_fmt, strftime_dotnet,
};
use crate::render::nu::{nu_node, nu_nodes, nu_wrap};
use crate::render::bash::{bash_sgr, wrap3};
use crate::render::cmd::cmd_sgr;
use crate::render::fish::fish_pair;
use crate::render::powershell::{ps_nodes, ps_wrap};
use crate::ir::{time_strftime, TimeMode, DEFAULT_DATE_FMT};
use crate::text::lowercase;
use crate::render::{
    chosen_shell_name, first_match, matches_name, spec_backends, Shell, ShellBackend,
};

verus! {

broadcast use vstd::string::group_string_axioms;

/// Every name of a shell (its key or one of its aliases) selects that
/// shell: no two shells share a name.
pub proof fn registry_names_select_their_shell(b: Shell, name: Seq<char>)
    requires
        matches_name(b, name),
    ensures
        first_match(spec_backends(), name) == Some(b),
{
    reveal_strlit("bash");
    reveal_strlit("zsh");
    reveal_strlit("fish");
    reveal_strlit("powershell");
    reveal_strlit("pwsh");
    reveal_strlit("cmd");
    reveal_strlit("nu");
    reveal_strlit("nushell");
    assert("bash"@.len() == 4 && "zsh"@.len() == 3 && "fish"@.len() == 4 && "powershell"@.len()
        == 10 && "pwsh"@.len() == 4 && "cmd"@.len() == 3 && "nu"@.len() == 2 && "nushell"@.len()
        == 7);
    assert("bash"@[0] == 'b' && "fish"@[0] == 'f' && "pwsh"@[0] == 'p');
    assert("zsh"@[0] == 'z' && "cmd"@[0] == 'c');
    let bs = spec_backends();
    assert(bs.drop_first() =~= seq![Shell::Zsh, Shell::Fish, Shell::PowerShell, Shell::Cmd, Shell::Nu]);
    assert(bs.drop_first().drop_first() =~= seq![Shell::Fish, Shell::PowerShell, Shell::Cmd, Shell::Nu]);
    assert(bs.drop_first().drop_first().drop_first() =~= seq![Shell::PowerShell, Shell::Cmd, Shell::Nu]);
    assert(bs.drop_first().drop_first().drop_first().drop_first() =~= seq![Shell::Cmd, Shell::Nu]);
    assert(bs.drop_first().drop_first().drop_first().drop_first().drop_first() =~= seq![Shell::Nu]);
    assert(seq!["pwsh"@].contains(name) ==> name == "pwsh"@);
    assert(seq!["nushell"@].contains(name) ==> name == "nushell"@);
    assert(!Seq::<Seq<char>>::empty().contains(name));
    let n = name;
    reveal_with_fuel(first_match, 7);
    let t1 = bs.drop_first();
    let t2 = t1.drop_first();
    let t3 = t2.drop_first();
    let t4 = t3.drop_first();
    let t5 = t4.drop_first();
    assert(bs[0] == Shell::Bash && t1[0] == Shell::Zsh && t2[0] == Shell::Fish && t3[0]
        == Shell::PowerShell && t4[0] == Shell::Cmd && t5[0] == Shell::Nu);
    // The names of the shells differ in length or in their first letter.
    if b != Shell::Bash {
        assert(!matches_name(Shell::Bash, n));
    }
    if b != Shell::Zsh {
        assert(!matches_name(Shell::Zsh, n));
    }
    if b != Shell::Fish {
        assert(!matches_name(Shell::Fish, n));
    }
    if b != Shell::PowerShell {
        assert(!matches_name(Shell::PowerShell, n));
    }
    if b != Shell::Cmd {
        assert(!matches_name(Shell::Cmd, n));
    }
    if b != Shell::Nu {
        assert(!matches_name(Shell::Nu, n));
    }
}

/// An explicit shell name wins over the document's `<psml shell="...">`:
/// with `shell` given, the document's own attribute does not matter.
pub proof fn explicit_shell_wins(c: Seq<char>, d: Option<Seq<char>>)
    ensures
        chosen_shell_name(Some(c), d) == c,
{
}


/// `--raw` prints the prompt value alone: each shell's full output is that
/// value inside the shell's own wrapper, and one exists exactly when the
/// other does.
pub proof fn raw_is_the_value_inside_the_wrapper(d: DocV)
    ensures
        bash_render(d, false) == match bash_render(d, true) {
            Some(v) => Some("PS1="@ + posix_quoted(v)),
            None => None,
        },
        zsh_render(d, false) == match zsh_render(d, true) {
            Some(v) => Some(
                (if any_runs_command(d.body) {
                    zsh_subst_line()
                } else {
                    Seq::empty()
                }) + "PROMPT="@ + posix_quoted(v),
            ),
            None => None,
        },
        fish_render(d, false) == match fish_render(d, true) {
            Some(v) => Some(
                "function fish_prompt\n    "@ + v + "\nend\n"@ + if d.title.len() == 0 {
                    Seq::empty()
                } else {
                    "\nfunction fish_title\n    echo "@ + fish_quoted(d.title) + "\nend\n"@
                },
            ),
            None => None,
        },
        ps_render(d, false) == match ps_render(d, true) {
            Some(v) => Some(
                "function prompt {\n"@ + (if d.title.len() == 0 {
                    Seq::empty()
                } else {
                    "    $Host.UI.RawUI.WindowTitle = "@ + powershell_quoted(d.title) + "\n"@
                }) + "    "@ + v + "\n"@ + "}\n"@,
            ),
            None => None,
        },
        nu_render(d, false) == match nu_render(d, true) {
            Some(v) => Some(
                (if d.title.len() == 0 {
                    Seq::empty()
                } else {
                    "print -n \"\\u{1b}]0;"@ + nu_escaped(d.title) + "\\u{07}\"\n"@
                }) + "$env.PROMPT_COMMAND = {|| "@ + v + " }\n"@,
            ),
            None => None,
        },
        cmd_render(d, false) == match cmd_render(d, true) {
            Some(v) => Some(
                (if d.title.len() == 0 {
                    Seq::empty()
                } else {
                    "title "@ + d.title + "\r\n"@
                }) + "prompt "@ + v + "\r\n"@,
            ),
            None => None,
        },
{
}

/// bash needs no `setopt`-like line: its output is always `PS1=...`.
pub proof fn bash_output_is_a_ps1_assignment(d: DocV)
    ensures
        bash_render(d, false) matches Some(o) ==> o.take(4) == "PS1="@,
{
    reveal_strlit("PS1=");
    if let Some(v) = bash_render(d, true) {
        let o = "PS1="@ + posix_quoted(v);
        assert(o.take(4) =~= "PS1="@);
    }
}

/// zsh output starts with `setopt PROMPT_SUBST` exactly when the prompt
/// runs a command (`<git/>` or `<cmd run>`).
pub proof fn zsh_turns_on_prompt_subst_iff_commands_run(d: DocV)
    ensures
        zsh_render(d, false) matches Some(o) ==> (o.take(6) == "setopt"@ <==> any_runs_command(
            d.body,
        )),
{
    reveal_strlit("setopt");
    reveal_strlit("PROMPT=");
    reveal_strlit("setopt PROMPT_SUBST  # нужно, чтобы $(...) внутри PROMPT вычислялся\n");
    if let Some(v) = zsh_render(d, true) {
        if any_runs_command(d.body) {
            let o = zsh_subst_line() + "PROMPT="@ + posix_quoted(v);
            assert(o.take(6) =~= "setopt"@);
        } else {
            let o = Seq::<char>::empty() + "PROMPT="@ + posix_quoted(v);
            assert(o[0] == 'P');
            assert(o.take(6)[0] != "setopt"@[0]);
        }
    }
}

/// What cmd.exe's static `PROMPT` cannot do, at any depth: run a command,
/// show jobs or the last path component, a 12-hour time or a custom date.
pub open spec fn cmd_cannot_show(n: NodeV) -> bool
    decreases n, 1nat,
{
    match n {
        NodeV::Git { .. } => true,
        NodeV::Cmd(_) => true,
        NodeV::Jobs => true,
        NodeV::CwdBase => true,
        NodeV::Time(m) => m != crate::ir::TimeMode::H24,
        NodeV::Date(f) => f is Some,
        NodeV::Bold(c) => any_cmd_cannot_show(c),
        NodeV::Underline(c) => any_cmd_cannot_show(c),
        NodeV::Italic(c) => any_cmd_cannot_show(c),
        NodeV::Color { children, .. } => any_cmd_cannot_show(children),
        _ => false,
    }
}

pub open spec fn any_cmd_cannot_show(ns: Seq<NodeV>) -> bool
    decreases ns, 0nat,
{
    if ns.len() == 0 {
        false
    } else {
        any_cmd_cannot_show(ns.drop_last()) || cmd_cannot_show(ns.last())
    }
}

proof fn lemma_cmd_node_refuses(n: NodeV)
    requires
        cmd_cannot_show(n),
    ensures
        cmd_node(n) is None,
    decreases n, 1nat,
{
    match n {
        NodeV::Bold(c) => lemma_cmd_nodes_refuse(c),
        NodeV::Underline(c) => lemma_cmd_nodes_refuse(c),
        NodeV::Italic(c) => lemma_cmd_nodes_refuse(c),
        NodeV::Color { children, .. } => lemma_cmd_nodes_refuse(children),
        _ => {},
    }
}

proof fn lemma_cmd_nodes_refuse(ns: Seq<NodeV>)
    requires
        any_cmd_cannot_show(ns),
    ensures
        cmd_nodes(ns) is None,
    decreases ns, 0nat,
{
    if any_cmd_cannot_show(ns.drop_last()) {
        lemma_cmd_nodes_refuse(ns.drop_last());
    } else {
        lemma_cmd_node_refuses(ns.last());
    }
}

proof fn lemma_runs_command_cmd(n: NodeV)
    requires
        runs_command(n),
    ensures
        cmd_cannot_show(n),
    decreases n, 1nat,
{
    match n {
        NodeV::Bold(c) => lemma_any_runs_command_cmd(c),
        NodeV::Underline(c) => lemma_any_runs_command_cmd(c),
        NodeV::Italic(c) => lemma_any_runs_command_cmd(c),
        NodeV::Color { children, .. } => lemma_any_runs_command_cmd(children),
        _ => {},
    }
}

proof fn lemma_any_runs_command_cmd(ns: Seq<NodeV>)
    requires
        any_runs_command(ns),
    ensures
        any_cmd_cannot_show(ns),
    decreases ns, 0nat,
{
    if any_runs_command(ns.drop_last()) {
        lemma_any_runs_command_cmd(ns.drop_last());
    } else {
        lemma_runs_command_cmd(ns.last());
    }
}

/// cmd.exe refuses a document with anything its static `PROMPT` cannot
/// show (in particular `<git/>` and `<cmd run>`, which would need a command
/// run on every redraw), whatever the nesting, instead of emitting a prompt
/// that silently does not work.
pub proof fn cmd_refuses_what_prompt_cannot_show(d: DocV, raw: bool)
    requires
        any_cmd_cannot_show(d.body) || any_runs_command(d.body),
    ensures
        cmd_render(d, raw) is None,
{
    if any_runs_command(d.body) {
        lemma_any_runs_command_cmd(d.body);
    }
    lemma_cmd_nodes_refuse(d.body);
}

/// Formatting between tags (whitespace with a line break) is dropped
/// wherever it stands; other nonempty text in the body becomes a text node.
pub proof fn formatting_text_is_dropped(s: PState, t: Seq<char>)
    ensures
        formatting_only(t) ==> spec_feed(s, XmlEventV::Text(t)) == Some(s),
        !formatting_only(t) && t.len() > 0 && !s.in_title && s.in_body ==> spec_feed(
            s,
            XmlEventV::Text(t),
        ) == Some(insert_node(s, NodeV::Text(t))),
{
}

/// A state inside `<body>`, outside `<head>`/`<title>`.
pub open spec fn in_body(s: PState) -> bool {
    s.psml_seen && s.in_body && !s.in_head && !s.in_title
}

/// A self-closing style tag (`<bold/>`, `<b/>`, ...) opens and closes at
/// once: it adds an empty container node and leaves no style open.
pub proof fn self_closing_style_tag_is_empty(
    s: PState,
    name: Seq<char>,
    attrs: Seq<(Seq<char>, Seq<char>)>,
)
    requires
        in_body(s),
        lowercase(name) == "bold"@ || lowercase(name) == "b"@,
    ensures
        spec_feed(s, XmlEventV::Empty { name, attrs }) == Some(
            insert_node(s, NodeV::Bold(Seq::empty())),
        ),
{
    reveal_strlit("bold");
    reveal_strlit("b");
    reveal_strlit("psml");
    reveal_strlit("head");
    reveal_strlit("title");
    reveal_strlit("body");
    reveal_strlit("br");
    reveal_strlit("user");
    reveal_strlit("host");
    reveal_strlit("hostfull");
    reveal_strlit("cwd");
    reveal_strlit("cwdbase");
    reveal_strlit("symbol");
    reveal_strlit("jobs");
    reveal_strlit("exitcode");
    reveal_strlit("reset");
    reveal_strlit("time");
    reveal_strlit("date");
    reveal_strlit("git");
    reveal_strlit("cmd");
    let t = lowercase(name);
    assert(t[0] == 'b');
    assert(t != "psml"@ && t != "head"@ && t != "title"@ && t != "user"@ && t != "host"@
        && t != "hostfull"@ && t != "cwd"@ && t != "cwdbase"@ && t != "symbol"@ && t != "jobs"@
        && t != "exitcode"@ && t != "reset"@ && t != "time"@ && t != "date"@ && t != "git"@
        && t != "cmd"@);
    assert(t != "body"@) by {
        if t == "bold"@ {
            assert(t[1] == 'o');
            assert("body"@[1] == 'o');
            assert(t[2] != "body"@[2]);
        } else {
            assert(t.len() == 1);
        }
    }
    assert(t != "br"@) by {
        if t == "bold"@ {
            assert(t.len() == 4);
        } else {
            assert(t.len() == 1);
        }
    }
    let s1 = open_container(s, ContainerKind::Bold, None, None);
    assert(s1.frames.drop_last() =~= s.frames);
    assert(PState { frames: s1.frames.drop_last(), ..s1 } == s);
}

/// Style tags close in the order they opened: closing a kind that is not
/// the innermost open one is an error.
pub proof fn style_tags_close_innermost_first(s: PState, kind: ContainerKind)
    requires
        s.frames.len() == 0 || s.frames.last().kind != kind,
    ensures
        close_container(s, kind) is None,
{
}


/// `<title>` holds only text: inside it every tag but the structural ones
/// (`psml`, `head`, `title`, `body`) is refused.
pub proof fn title_holds_only_text(s: PState, tag: Seq<char>, attrs: Seq<(Seq<char>, Seq<char>)>)
    requires
        s.psml_seen,
        s.in_title,
        lowercase(tag) != "psml"@,
        lowercase(tag) != "head"@,
        lowercase(tag) != "title"@,
        lowercase(tag) != "body"@,
    ensures
        spec_open(s, tag, attrs) is None,
{
}

/// Nothing but `<psml>` may come first: before it every other tag is
/// refused, and text outside `<body>`/`<title>` is refused.
pub proof fn psml_comes_first(s: PState, tag: Seq<char>, attrs: Seq<(Seq<char>, Seq<char>)>, t: Seq<
    char,
>)
    requires
        !s.psml_seen,
    ensures
        lowercase(tag) != "psml"@ ==> spec_open(s, tag, attrs) is None,
        !s.in_title && !s.in_body && t.len() > 0 && !formatting_only(t) ==> spec_feed(
            s,
            XmlEventV::Text(t),
        ) is None,
{
}

/// bash renders a sequence of nodes part by part, and where it refuses,
/// the error is that of the first refused part.
proof fn lemma_bash_nodes_concat(a: Seq<NodeV>, b: Seq<NodeV>)
    ensures
        bash_nodes(a + b) == match (bash_nodes(a), bash_nodes(b)) {
            (Some(x), Some(y)) => Some(x + y),
            _ => None,
        },
        bash_nodes(a + b) is None ==> bash_nodes_error(a + b) == if bash_nodes(a) is None {
            bash_nodes_error(a)
        } else {
            bash_nodes_error(b)
        },
    decreases b.len(),
{
    if b.len() == 0 {
        assert(a + b == a);
    } else {
        lemma_bash_nodes_concat(a, b.drop_last());
        assert((a + b).drop_last() == a + b.drop_last());
        assert((a + b).last() == b.last());
        if let (Some(x), Some(y), Some(z)) = (
            bash_nodes(a),
            bash_nodes(b.drop_last()),
            bash_node(b.last()),
        ) {
            assert(x + y + z == x + (y + z));
        }
    }
}

/// bash renders the body of a document part by part: for a body
/// `b1 + b2`, the bare prompt is the title sequence, then the value for
/// `b1`, then that for `b2`; it is refused exactly when one part is, with
/// the error of the first refused part.
pub proof fn bash_rendering_concatenates(d: DocV, b1: Seq<NodeV>, b2: Seq<NodeV>)
    requires
        d.body == b1 + b2,
    ensures
        ({
            let d1 = DocV { title: Seq::empty(), body: b1, ..d };
            let d2 = DocV { title: Seq::empty(), body: b2, ..d };
            &&& bash_render(d, true) == match (bash_render(d1, true), bash_render(d2, true)) {
                (Some(x1), Some(x2)) => Some(bash_full(d.title, Seq::empty()) + x1 + x2),
                _ => None,
            }
            &&& bash_render(d, true) is None ==> Bash.spec_render_error(d) == if bash_render(
                d1,
                true,
            ) is None {
                Bash.spec_render_error(d1)
            } else {
                Bash.spec_render_error(d2)
            }
        }),
{
    lemma_bash_nodes_concat(b1, b2);
    if let (Some(x1), Some(x2)) = (bash_nodes(b1), bash_nodes(b2)) {
        assert(bash_full(d.title, x1 + x2) == bash_full(d.title, Seq::empty()) + x1 + x2);
    }
}

/// A background color is the foreground color shifted: `48` in place of
/// `38` for `#rrggbb` and numbers, the code plus 10 for a name; one
/// exists exactly when the other does.
pub proof fn background_color_is_foreground_shifted(v: Seq<char>)
    ensures
        sgr_color(v, true) is Some <==> sgr_color(v, false) is Some,
        (v.len() == 7 && v[0] == '#') || all_digits(v) ==> match sgr_color(v, false) {
            Some(f) => f.take(2) == "38"@ && sgr_color(v, true) == Some("48"@ + f.skip(2)),
            None => true,
        },
        !((v.len() == 7 && v[0] == '#') || all_digits(v)) ==> match fg_name_code(lowercase(v)) {
            Some(c) => sgr_color(v, false) == Some(dec(c)) && sgr_color(v, true) == Some(dec(c + 10)),
            None => sgr_color(v, false) is None,
        },
{
    reveal_strlit("38");
    reveal_strlit("48");
    if (v.len() == 7 && v[0] == '#') || all_digits(v) {
        if let Some(f) = sgr_color(v, false) {
            let rest = f.skip(2);
            assert(f == "38"@ + rest);
            assert(f.take(2) == "38"@);
            assert(sgr_color(v, true).unwrap() == "48"@ + rest);
        }
    }
}

// ---------------------------------------------------------------------------
// What single tags and specifiers mean
// ---------------------------------------------------------------------------

/// `<b>`, `<u>` and `<i>` are aliases of `<bold>`, `<underline>` and
/// `<italic>`: in every parser state, opening the short tag does exactly
/// what opening the long one does, and each opens a container of its own
/// kind (bold, underline, italic), three different kinds.
pub proof fn style_aliases_open_their_own_kind(
    s: PState,
    attrs: Seq<(Seq<char>, Seq<char>)>,
    short: Seq<char>,
    long: Seq<char>,
)
    requires
        (lowercase(short) == "b"@ && lowercase(long) == "bold"@) || (lowercase(short) == "u"@
            && lowercase(long) == "underline"@) || (lowercase(short) == "i"@ && lowercase(long)
            == "italic"@),
    ensures
        spec_open(s, short, attrs) == spec_open(s, long, attrs),
        s.psml_seen && s.in_body && !s.in_head && !s.in_title ==> spec_open(s, long, attrs) == Some(
            open_container(
                s,
                if lowercase(long) == "bold"@ {
                    ContainerKind::Bold
                } else if lowercase(long) == "underline"@ {
                    ContainerKind::Underline
                } else {
                    ContainerKind::Italic
                },
                None,
                None,
            ),
        ),
{
    reveal_strlit("psml");
    reveal_strlit("head");
    reveal_strlit("title");
    reveal_strlit("body");
    reveal_strlit("br");
    reveal_strlit("user");
    reveal_strlit("host");
    reveal_strlit("hostfull");
    reveal_strlit("cwd");
    reveal_strlit("cwdbase");
    reveal_strlit("symbol");
    reveal_strlit("jobs");
    reveal_strlit("exitcode");
    reveal_strlit("reset");
    reveal_strlit("time");
    reveal_strlit("date");
    reveal_strlit("git");
    reveal_strlit("cmd");
    reveal_strlit("bold");
    reveal_strlit("b");
    reveal_strlit("underline");
    reveal_strlit("u");
    reveal_strlit("italic");
    reveal_strlit("i");
    let a = lowercase(short);
    let b = lowercase(long);
    lemma_style_tag_is_only_style(a);
    lemma_style_tag_is_only_style(b);
    assert(a[0] == b[0]);
    assert(style_tag(a) == style_tag(b));
    assert(open_body_tag(s, a, attrs) == open_body_tag(s, b, attrs));
}

/// A style tag name is no other tag: not structural, not a variable,
/// not `time`, `date`, `git`, `cmd` or `color`.
proof fn lemma_style_tag_is_only_style(t: Seq<char>)
    requires
        t == "b"@ || t == "bold"@ || t == "u"@ || t == "underline"@ || t == "i"@ || t == "italic"@,
    ensures
        style_tag(t) == if t[0] == 'b' {
            Some(ContainerKind::Bold)
        } else if t[0] == 'u' {
            Some(ContainerKind::Underline)
        } else {
            Some(ContainerKind::Italic)
        },
        leaf_tag(t) is None,
        t != "psml"@ && t != "head"@ && t != "title"@ && t != "body"@,
        t != "time"@ && t != "date"@ && t != "git"@ && t != "cmd"@ && t != "color"@,
{
    reveal_strlit("psml");
    reveal_strlit("head");
    reveal_strlit("title");
    reveal_strlit("body");
    reveal_strlit("br");
    reveal_strlit("user");
    reveal_strlit("host");
    reveal_strlit("hostfull");
    reveal_strlit("cwd");
    reveal_strlit("cwdbase");
    reveal_strlit("symbol");
    reveal_strlit("jobs");
    reveal_strlit("exitcode");
    reveal_strlit("reset");
    reveal_strlit("time");
    reveal_strlit("date");
    reveal_strlit("git");
    reveal_strlit("cmd");
    reveal_strlit("color");
    reveal_strlit("bold");
    reveal_strlit("b");
    reveal_strlit("underline");
    reveal_strlit("u");
    reveal_strlit("italic");
    reveal_strlit("i");
    if t == "bold"@ {
        assert(t.len() == 4 && t[0] == 'b' && t[1] == 'o' && t[2] == 'l');
    } else if t == "b"@ {
        assert(t.len() == 1 && t[0] == 'b');
    } else if t == "underline"@ {
        assert(t.len() == 9 && t[0] == 'u');
    } else if t == "u"@ {
        assert(t.len() == 1 && t[0] == 'u');
    } else if t == "italic"@ {
        assert(t.len() == 6 && t[0] == 'i');
    } else {
        assert(t.len() == 1 && t[0] == 'i');
    }
}

/// A translated strftime format extended by one time specifier: the
/// translation so far, then the .NET field.
proof fn lemma_dotnet_append_specifier(p: Seq<char>, c: char)
    requires
        strftime_dotnet(p) is Some,
        dotnet_code(c) is Some,
    ensures
        strftime_dotnet(p + seq!['%', c]) == Some(strftime_dotnet(p).unwrap() + dotnet_code(c).unwrap()),
{
    let q = p + seq!['%', c];
    let out = strftime_dotnet(p).unwrap();
    assert(dotnet_scan(p) == Some((out, false)));
    assert(q.drop_last() == p.push('%'));
    assert(q.last() == c);
    assert(p.push('%').drop_last() == p);
    assert(p.push('%').last() == '%');
    assert(dotnet_scan(p.push('%')) == Some((out, true)));
    assert(dotnet_scan(q) == Some((out + dotnet_code(c).unwrap(), false)));
}

/// `<date fmt>` on PowerShell translates each time specifier to the .NET
/// field of the same meaning as `<time mode>` uses it: after any format
/// that translates, `%H` adds the 24-hour field of mode `24`, `%I` the
/// 12-hour field of mode `12`, `%M` the minutes, `%S` the seconds and `%p`
/// the AM/PM field of mode `ampm`; the 12- and 24-hour fields differ.
pub proof fn date_specifiers_match_time_fields(p: Seq<char>)
    requires
        strftime_dotnet(p) is Some,
    ensures
        strftime_dotnet(p + "%H"@) == Some(strftime_dotnet(p).unwrap() + ps_time_fmt(TimeMode::H24).take(2)),
        strftime_dotnet(p + "%I"@) == Some(strftime_dotnet(p).unwrap() + ps_time_fmt(TimeMode::H12).take(2)),
        strftime_dotnet(p + "%M"@) == Some(
            strftime_dotnet(p).unwrap() + ps_time_fmt(TimeMode::H12).subrange(3, 5),
        ),
        strftime_dotnet(p + "%S"@) == Some(
            strftime_dotnet(p).unwrap() + ps_time_fmt(TimeMode::H12).subrange(6, 8),
        ),
        strftime_dotnet(p + "%p"@) == Some(
            strftime_dotnet(p).unwrap() + ps_time_fmt(TimeMode::AmPm).subrange(6, 8),
        ),
        ps_time_fmt(TimeMode::H12).take(2) != ps_time_fmt(TimeMode::H24).take(2),
{
    reveal_strlit("%H");
    reveal_strlit("%I");
    reveal_strlit("%M");
    reveal_strlit("%S");
    reveal_strlit("%p");
    reveal_strlit("HH:mm:ss");
    reveal_strlit("hh:mm:ss");
    reveal_strlit("hh:mm tt");
    reveal_strlit("HH");
    reveal_strlit("hh");
    reveal_strlit("mm");
    reveal_strlit("ss");
    reveal_strlit("tt");
    assert("%H"@ == seq!['%', 'H']);
    assert("%I"@ == seq!['%', 'I']);
    assert("%M"@ == seq!['%', 'M']);
    assert("%S"@ == seq!['%', 'S']);
    assert("%p"@ == seq!['%', 'p']);
    lemma_dotnet_append_specifier(p, 'H');
    lemma_dotnet_append_specifier(p, 'I');
    lemma_dotnet_append_specifier(p, 'M');
    lemma_dotnet_append_specifier(p, 'S');
    lemma_dotnet_append_specifier(p, 'p');
    assert(ps_time_fmt(TimeMode::H24).take(2) =~= "HH"@);
    assert(ps_time_fmt(TimeMode::H12).take(2) =~= "hh"@);
    assert(ps_time_fmt(TimeMode::H12).subrange(3, 5) =~= "mm"@);
    assert(ps_time_fmt(TimeMode::H12).subrange(6, 8) =~= "ss"@);
    assert(ps_time_fmt(TimeMode::AmPm).subrange(6, 8) =~= "tt"@);
    assert("hh"@[0] != "HH"@[0]);
}

/// zsh renders a sequence of nodes part by part.
proof fn lemma_zsh_nodes_concat(a: Seq<NodeV>, b: Seq<NodeV>)
    ensures
        zsh_nodes(a + b) == match (zsh_nodes(a), zsh_nodes(b)) {
            (Some(x), Some(y)) => Some(x + y),
            _ => None,
        },
    decreases b.len(),
{
    if b.len() == 0 {
        assert(a + b == a);
    } else {
        lemma_zsh_nodes_concat(a, b.drop_last());
        assert((a + b).drop_last() == a + b.drop_last());
        assert((a + b).last() == b.last());
        if let (Some(x), Some(y), Some(z)) = (
            zsh_nodes(a),
            zsh_nodes(b.drop_last()),
            zsh_node(b.last()),
        ) {
            assert(x + y + z == x + (y + z));
        }
    }
}

/// The rendering of one node in the middle of others: the nodes before,
/// the node, the nodes after.
proof fn lemma_bash_middle(a: Seq<NodeV>, n: NodeV, b: Seq<NodeV>)
    ensures
        bash_nodes(a + seq![n] + b) == match (bash_nodes(a), bash_node(n), bash_nodes(b)) {
            (Some(x), Some(t), Some(y)) => Some(x + t + y),
            _ => None,
        },
{
    lemma_bash_nodes_concat(a, seq![n]);
    lemma_bash_nodes_concat(a + seq![n], b);
    assert(seq![n].drop_last() == Seq::<NodeV>::empty());
    assert(seq![n].last() == n);
    if let Some(t) = bash_node(n) {
        assert(Seq::<char>::empty() + t == t);
        assert(bash_nodes(Seq::<NodeV>::empty()) == Some(Seq::<char>::empty()));
        assert(bash_nodes(seq![n]) == Some(t));
    } else {
        assert(bash_nodes(seq![n]) is None);
    }
}

proof fn lemma_zsh_middle(a: Seq<NodeV>, n: NodeV, b: Seq<NodeV>)
    ensures
        zsh_nodes(a + seq![n] + b) == match (zsh_nodes(a), zsh_node(n), zsh_nodes(b)) {
            (Some(x), Some(t), Some(y)) => Some(x + t + y),
            _ => None,
        },
{
    lemma_zsh_nodes_concat(a, seq![n]);
    lemma_zsh_nodes_concat(a + seq![n], b);
    assert(seq![n].drop_last() == Seq::<NodeV>::empty());
    assert(seq![n].last() == n);
    if let Some(t) = zsh_node(n) {
        assert(Seq::<char>::empty() + t == t);
        assert(zsh_nodes(Seq::<NodeV>::empty()) == Some(Seq::<char>::empty()));
        assert(zsh_nodes(seq![n]) == Some(t));
    } else {
        assert(zsh_nodes(seq![n]) is None);
    }
}

/// `<cwd/>` and `<cwdbase/>` are different things on every shell that
/// shows both: wherever they stand among other nodes, a bash or zsh prompt
/// with one is never the prompt with the other, and fish, PowerShell and
/// nu render them differently.  bash's base is its `\w` escape with the
/// capital letter (`\W`); zsh's base is its `%~` token limited to one
/// component (`%1~`).
pub proof fn cwd_and_cwdbase_differ(a: Seq<NodeV>, b: Seq<NodeV>, fr: Seq<FragV>)
    ensures
        bash_nodes(a + seq![NodeV::Cwd] + b) is Some <==> bash_nodes(a + seq![NodeV::CwdBase] + b) is Some,
        bash_nodes(a + seq![NodeV::Cwd] + b) is Some ==> bash_nodes(a + seq![NodeV::Cwd] + b)
            != bash_nodes(a + seq![NodeV::CwdBase] + b),
        bash_node(NodeV::Cwd).unwrap() == seq!['\\', 'w'],
        bash_node(NodeV::CwdBase).unwrap() == seq!['\\', 'W'],
        zsh_nodes(a + seq![NodeV::Cwd] + b) is Some <==> zsh_nodes(a + seq![NodeV::CwdBase] + b) is Some,
        zsh_nodes(a + seq![NodeV::Cwd] + b) is Some ==> zsh_nodes(a + seq![NodeV::Cwd] + b)
            != zsh_nodes(a + seq![NodeV::CwdBase] + b),
        zsh_node(NodeV::CwdBase).unwrap() == seq!['%', '1'] + zsh_node(NodeV::Cwd).unwrap().skip(1),
        zsh_node(NodeV::Cwd).unwrap() == seq!['%', '~'],
        fish_node(NodeV::Cwd, fr) != fish_node(NodeV::CwdBase, fr),
        fish_node(NodeV::CwdBase, fr) == Some(fr.push(FragV::Expr("(basename "@ + "$PWD"@ + ")"@))),
        ps_node(NodeV::Cwd) != ps_node(NodeV::CwdBase),
        nu_node(NodeV::Cwd) != nu_node(NodeV::CwdBase),
{
    reveal_strlit("\\w");
    reveal_strlit("\\W");
    reveal_strlit("%~");
    reveal_strlit("%1~");
    reveal_strlit("(prompt_pwd)");
    reveal_strlit("(basename $PWD)");
    reveal_strlit("(basename ");
    reveal_strlit("$PWD");
    reveal_strlit(")");
    reveal_strlit("$($pwd.Path -replace ('^' + [regex]::Escape($HOME)), '~')");
    reveal_strlit("$(Split-Path $pwd -Leaf)");
    reveal_strlit("(pwd)");
    reveal_strlit("(pwd | path basename)");
    lemma_bash_middle(a, NodeV::Cwd, b);
    lemma_bash_middle(a, NodeV::CwdBase, b);
    lemma_zsh_middle(a, NodeV::Cwd, b);
    lemma_zsh_middle(a, NodeV::CwdBase, b);
    assert("\\w"@ =~= seq!['\\', 'w']);
    assert("\\W"@ =~= seq!['\\', 'W']);
    assert("%~"@ =~= seq!['%', '~']);
    assert("%1~"@ =~= seq!['%', '1'] + "%~"@.skip(1));
    if let (Some(x), Some(y)) = (bash_nodes(a), bash_nodes(b)) {
        let p = x + "\\w"@ + y;
        let q = x + "\\W"@ + y;
        assert(p[x.len() as int + 1] == 'w');
        assert(q[x.len() as int + 1] == 'W');
    }
    if let (Some(x), Some(y)) = (zsh_nodes(a), zsh_nodes(b)) {
        assert((x + "%~"@ + y).len() != (x + "%1~"@ + y).len());
    }
    assert("(basename "@ + "$PWD"@ + ")"@ =~= "(basename $PWD)"@);
    assert("(prompt_pwd)"@[1] != "(basename $PWD)"@[1]);
    assert(fr.push(FragV::Expr("(prompt_pwd)"@)).last() != fr.push(FragV::Expr("(basename $PWD)"@)).last());
    assert("(pwd)"@.len() != "(pwd | path basename)"@.len());
    assert("$($pwd.Path -replace ('^' + [regex]::Escape($HOME)), '~')"@.len()
        != "$(Split-Path $pwd -Leaf)"@.len());
}

/// The variables of a prompt: the nodes that stand for one value of the
/// session (no text, no children, no command).
pub open spec fn is_variable(n: NodeV) -> bool {
    match n {
        NodeV::Br | NodeV::User | NodeV::Host | NodeV::HostFull | NodeV::Cwd | NodeV::CwdBase
        | NodeV::Symbol | NodeV::Jobs | NodeV::ExitCode | NodeV::Reset | NodeV::Time(_) => true,
        NodeV::Date(f) => f is None,
        _ => false,
    }
}

/// bash shows different variables differently: no two of them render to
/// the same escape.
pub proof fn bash_variables_render_differently(n1: NodeV, n2: NodeV)
    requires
        is_variable(n1),
        is_variable(n2),
        n1 != n2,
    ensures
        bash_node(n1) != bash_node(n2),
{
    reveal_strlit("\\n");
    reveal_strlit("\\u");
    reveal_strlit("\\h");
    reveal_strlit("\\H");
    reveal_strlit("\\w");
    reveal_strlit("\\W");
    reveal_strlit("\\$");
    reveal_strlit("\\j");
    reveal_strlit("$?");
    reveal_strlit("\\[\\033[0m\\]");
    reveal_strlit("\\t");
    reveal_strlit("\\T");
    reveal_strlit("\\@");
    reveal_strlit("\\A");
    reveal_strlit("\\d");
    assert("\\n"@[1] == 'n');
    assert("\\u"@[1] == 'u');
    assert("\\h"@[1] == 'h');
    assert("\\H"@[1] == 'H');
    assert("\\w"@[1] == 'w');
    assert("\\W"@[1] == 'W');
    assert("\\$"@[1] == '$');
    assert("\\j"@[1] == 'j');
    assert("$?"@[1] == '?');
    assert("\\[\\033[0m\\]"@[1] == '[');
    assert("\\t"@[1] == 't');
    assert("\\T"@[1] == 'T');
    assert("\\@"@[1] == '@');
    assert("\\A"@[1] == 'A');
    assert("\\d"@[1] == 'd');
}

/// zsh shows different variables differently: no two of them render to
/// the same prompt token.
pub proof fn zsh_variables_render_differently(n1: NodeV, n2: NodeV)
    requires
        is_variable(n1),
        is_variable(n2),
        n1 != n2,
    ensures
        zsh_node(n1) != zsh_node(n2),
{
    reveal_strlit("\n");
    reveal_strlit("%n");
    reveal_strlit("%m");
    reveal_strlit("%M");
    reveal_strlit("%~");
    reveal_strlit("%1~");
    reveal_strlit("%#");
    reveal_strlit("%j");
    reveal_strlit("%?");
    reveal_strlit("%f%k%b%u%{\\e[0m%}");
    reveal_strlit("%D{%H:%M:%S}");
    reveal_strlit("%D{%I:%M:%S}");
    reveal_strlit("%D{%I:%M %p}");
    reveal_strlit("%D{%H:%M}");
    reveal_strlit("%D{%a %b %d}");
    assert({ let x = "\n"@; x.len() == 1 });
    assert({ let x = "%n"@; x.len() == 2 && x[1] == 'n' });
    assert({ let x = "%m"@; x.len() == 2 && x[1] == 'm' });
    assert({ let x = "%M"@; x.len() == 2 && x[1] == 'M' });
    assert({ let x = "%~"@; x.len() == 2 && x[1] == '~' });
    assert({ let x = "%1~"@; x.len() == 3 && x[1] == '1' });
    assert({ let x = "%#"@; x.len() == 2 && x[1] == '#' });
    assert({ let x = "%j"@; x.len() == 2 && x[1] == 'j' });
    assert({ let x = "%?"@; x.len() == 2 && x[1] == '?' });
    assert({ let x = "%f%k%b%u%{\\e[0m%}"@; x.len() == 17 && x[1] == 'f' && x[4] == '%' && x[8] == '%' });
    assert({ let x = "%D{%H:%M:%S}"@; x.len() == 12 && x[1] == 'D' && x[4] == 'H' && x[8] == ':' });
    assert({ let x = "%D{%I:%M:%S}"@; x.len() == 12 && x[1] == 'D' && x[4] == 'I' && x[8] == ':' });
    assert({ let x = "%D{%I:%M %p}"@; x.len() == 12 && x[1] == 'D' && x[4] == 'I' && x[8] == ' ' });
    assert({ let x = "%D{%H:%M}"@; x.len() == 9 && x[1] == 'D' && x[4] == 'H' && x[8] == '}' });
    assert({ let x = "%D{%a %b %d}"@; x.len() == 12 && x[1] == 'D' && x[4] == 'a' && x[8] == ' ' });
}

/// cmd.exe shows different variables differently: of the variables that
/// `PROMPT` can show, no two render to the same code.
pub proof fn cmd_variables_render_differently(n1: NodeV, n2: NodeV)
    requires
        is_variable(n1),
        is_variable(n2),
        n1 != n2,
        cmd_node(n1) is Some,
    ensures
        cmd_node(n1) != cmd_node(n2),
{
    reveal_strlit("$_");
    reveal_strlit("%USERNAME%");
    reveal_strlit("%COMPUTERNAME%");
    reveal_strlit("%COMPUTERNAME%.%USERDNSDOMAIN%");
    reveal_strlit("$P");
    reveal_strlit(">");
    reveal_strlit("%ERRORLEVEL%");
    reveal_strlit("$E[0m");
    reveal_strlit("$T");
    reveal_strlit("$D");
    assert({ let x = "$_"@; x.len() == 2 && x[1] == '_' });
    assert({ let x = "%USERNAME%"@; x.len() == 10 && x[1] == 'U' });
    assert({ let x = "%COMPUTERNAME%"@; x.len() == 14 && x[1] == 'C' });
    assert({ let x = "%COMPUTERNAME%.%USERDNSDOMAIN%"@; x.len() == 30 && x[1] == 'C' });
    assert({ let x = "$P"@; x.len() == 2 && x[1] == 'P' });
    assert({ let x = ">"@; x.len() == 1 });
    assert({ let x = "%ERRORLEVEL%"@; x.len() == 12 && x[1] == 'E' });
    assert({ let x = "$E[0m"@; x.len() == 5 && x[1] == 'E' });
    assert({ let x = "$T"@; x.len() == 2 && x[1] == 'T' });
    assert({ let x = "$D"@; x.len() == 2 && x[1] == 'D' });
}

/// Different strftime specifiers translate to different .NET fields.
pub proof fn dotnet_fields_are_distinct(c1: char, c2: char)
    requires
        c1 != c2,
        dotnet_code(c1) is Some,
    ensures
        dotnet_code(c1) != dotnet_code(c2),
{
    reveal_strlit("yyyy");
    reveal_strlit("yy");
    reveal_strlit("MM");
    reveal_strlit("dd");
    reveal_strlit("HH");
    reveal_strlit("hh");
    reveal_strlit("mm");
    reveal_strlit("ss");
    reveal_strlit("tt");
    reveal_strlit("ddd");
    reveal_strlit("dddd");
    reveal_strlit("MMM");
    reveal_strlit("MMMM");
    reveal_strlit("\\%");
    assert({ let x = "yyyy"@; x.len() == 4 && x[0] == 'y' });
    assert({ let x = "yy"@; x.len() == 2 && x[0] == 'y' });
    assert({ let x = "MM"@; x.len() == 2 && x[0] == 'M' });
    assert({ let x = "dd"@; x.len() == 2 && x[0] == 'd' });
    assert({ let x = "HH"@; x.len() == 2 && x[0] == 'H' });
    assert({ let x = "hh"@; x.len() == 2 && x[0] == 'h' });
    assert({ let x = "mm"@; x.len() == 2 && x[0] == 'm' });
    assert({ let x = "ss"@; x.len() == 2 && x[0] == 's' });
    assert({ let x = "tt"@; x.len() == 2 && x[0] == 't' });
    assert({ let x = "ddd"@; x.len() == 3 && x[0] == 'd' });
    assert({ let x = "dddd"@; x.len() == 4 && x[0] == 'd' });
    assert({ let x = "MMM"@; x.len() == 3 && x[0] == 'M' });
    assert({ let x = "MMMM"@; x.len() == 4 && x[0] == 'M' });
    assert({ let x = "\\%"@; x.len() == 2 && x[0] == '\\' });
}

/// The values of the session that a prompt shows: user, host, the
/// directory, the symbol, jobs and the exit code.
pub open spec fn is_session_value(n: NodeV) -> bool {
    match n {
        NodeV::User | NodeV::Host | NodeV::HostFull | NodeV::Cwd | NodeV::CwdBase | NodeV::Symbol
        | NodeV::Jobs | NodeV::ExitCode => true,
        _ => false,
    }
}

/// PowerShell shows different session values by different expressions.
pub proof fn powershell_session_values_differ(n1: NodeV, n2: NodeV)
    requires
        is_session_value(n1),
        is_session_value(n2),
        n1 != n2,
    ensures
        ps_node(n1) != ps_node(n2),
{
    reveal_strlit("$($env:USERNAME ?? $env:USER)");
    reveal_strlit("$($env:COMPUTERNAME ?? (hostname))");
    reveal_strlit("$([System.Net.Dns]::GetHostEntry('').HostName)");
    reveal_strlit("$($pwd.Path -replace ('^' + [regex]::Escape($HOME)), '~')");
    reveal_strlit("$(Split-Path $pwd -Leaf)");
    reveal_strlit("$(if($IsWindows){if(([Security.Principal.WindowsPrincipal][Security.Principal.WindowsIdentity]::GetCurrent()).IsInRole([Security.Principal.WindowsBuiltinRole]::Administrator)){'#'}else{'$'}}else{if((id -u) -eq '0'){'#'}else{'$'}})");
    reveal_strlit("$((Get-Job).Count)");
    reveal_strlit("$($LASTEXITCODE)");
    assert({ let x = "$($env:USERNAME ?? $env:USER)"@; x.len() == 29 });
    assert({ let x = "$($env:COMPUTERNAME ?? (hostname))"@; x.len() == 34 });
    assert({ let x = "$([System.Net.Dns]::GetHostEntry('').HostName)"@; x.len() == 46 });
    assert({ let x = "$($pwd.Path -replace ('^' + [regex]::Escape($HOME)), '~')"@; x.len() == 57 });
    assert({ let x = "$(Split-Path $pwd -Leaf)"@; x.len() == 24 });
    assert({ let x = "$(if($IsWindows){if(([Security.Principal.WindowsPrincipal][Security.Principal.WindowsIdentity]::GetCurrent()).IsInRole([Security.Principal.WindowsBuiltinRole]::Administrator)){'#'}else{'$'}}else{if((id -u) -eq '0'){'#'}else{'$'}})"@; x.len() == 230 });
    assert({ let x = "$((Get-Job).Count)"@; x.len() == 18 });
    assert({ let x = "$($LASTEXITCODE)"@; x.len() == 16 });
}

/// nu shows different session values by different expressions (of those
/// it can show).
pub proof fn nu_session_values_differ(n1: NodeV, n2: NodeV)
    requires
        is_session_value(n1),
        is_session_value(n2),
        n1 != n2,
        nu_node(n1) is Some,
    ensures
        nu_node(n1) != nu_node(n2),
{
    reveal_strlit("(($env.USER? | default '') | default ($env.USERNAME? | default ''))");
    reveal_strlit("(^hostname)");
    reveal_strlit("(try { ^hostname -f } catch { ^hostname })");
    reveal_strlit("(pwd)");
    reveal_strlit("(pwd | path basename)");
    reveal_strlit("(if (is-admin) { '#' } else { '$' })");
    reveal_strlit("$env.LAST_EXIT_CODE");
    assert({ let x = "(($env.USER? | default '') | default ($env.USERNAME? | default ''))"@; x.len() == 67 });
    assert({ let x = "(^hostname)"@; x.len() == 11 });
    assert({ let x = "(try { ^hostname -f } catch { ^hostname })"@; x.len() == 42 });
    assert({ let x = "(pwd)"@; x.len() == 5 });
    assert({ let x = "(pwd | path basename)"@; x.len() == 21 });
    assert({ let x = "(if (is-admin) { '#' } else { '$' })"@; x.len() == 36 });
    assert({ let x = "$env.LAST_EXIT_CODE"@; x.len() == 19 });
}

/// fish shows different session values by different expressions, after
/// any fragments.
pub proof fn fish_session_values_differ(n1: NodeV, n2: NodeV, fr: Seq<FragV>)
    requires
        is_session_value(n1),
        is_session_value(n2),
        n1 != n2,
    ensures
        fish_node(n1, fr) != fish_node(n2, fr),
{
    reveal_strlit("$USER");
    reveal_strlit("$hostname");
    reveal_strlit("(hostname -f 2>/dev/null; or hostname)");
    reveal_strlit("(prompt_pwd)");
    reveal_strlit("(basename $PWD)");
    reveal_strlit("(if fish_is_root_user; echo '#'; else; echo '$'; end)");
    reveal_strlit("(jobs | count)");
    reveal_strlit("$status");
    assert({ let x = "$USER"@; x.len() == 5 });
    assert({ let x = "$hostname"@; x.len() == 9 });
    assert({ let x = "(hostname -f 2>/dev/null; or hostname)"@; x.len() == 38 });
    assert({ let x = "(prompt_pwd)"@; x.len() == 12 });
    assert({ let x = "(basename $PWD)"@; x.len() == 15 });
    assert({ let x = "(if fish_is_root_user; echo '#'; else; echo '$'; end)"@; x.len() == 53 });
    assert({ let x = "(jobs | count)"@; x.len() == 14 });
    assert({ let x = "$status"@; x.len() == 7 });
    assert forall|e1: Seq<char>, e2: Seq<char>| e1 != e2 implies #[trigger] fr.push(FragV::Expr(e1))
        != #[trigger] fr.push(FragV::Expr(e2)) by {
        assert(fr.push(FragV::Expr(e1))[fr.len() as int] == FragV::Expr(e1));
        assert(fr.push(FragV::Expr(e2))[fr.len() as int] == FragV::Expr(e2));
    }
}

/// The SGR parameters that ECMA-48 gives a style, on and off: bold 1/22,
/// underline 4/24, italic 3/23.
pub open spec fn ecma48_style(k: ContainerKind) -> (Seq<char>, Seq<char>) {
    match k {
        ContainerKind::Bold => ("1"@, "22"@),
        ContainerKind::Underline => ("4"@, "24"@),
        ContainerKind::Italic => ("3"@, "23"@),
        ContainerKind::Color => (Seq::empty(), Seq::empty()),
    }
}

/// The node of a style container holding `c`.
pub open spec fn style_node(k: ContainerKind, c: Seq<NodeV>) -> NodeV {
    match k {
        ContainerKind::Bold => NodeV::Bold(c),
        ContainerKind::Underline => NodeV::Underline(c),
        _ => NodeV::Italic(c),
    }
}

/// Every backend that writes SGR sequences turns a bold, underline or
/// italic container on and off with the parameters that ECMA-48 gives
/// that style, around the rendering of its children; zsh does the same for
/// italic (it has its own tokens for bold and underline).
pub proof fn styles_use_their_ecma48_parameters(k: ContainerKind, c: Seq<NodeV>, fr: Seq<FragV>)
    requires
        k != ContainerKind::Color,
    ensures
        bash_node(style_node(k, c)) == wrap3(
            bash_sgr(ecma48_style(k).0),
            bash_nodes(c),
            bash_sgr(ecma48_style(k).1),
        ),
        cmd_node(style_node(k, c)) == wrap3(
            cmd_sgr(ecma48_style(k).0),
            cmd_nodes(c),
            cmd_sgr(ecma48_style(k).1),
        ),
        fish_node(style_node(k, c), fr) == fish_pair(c, ecma48_style(k).0, ecma48_style(k).1, fr),
        nu_node(style_node(k, c)) == nu_wrap(ecma48_style(k).0, nu_nodes(c), ecma48_style(k).1),
        ps_node(style_node(k, c)) == ps_wrap(ecma48_style(k).0, ps_nodes(c), ecma48_style(k).1),
        zsh_node(NodeV::Italic(c)) == wrap3(
            "%{"@ + "\\e["@ + ecma48_style(ContainerKind::Italic).0 + "m%}"@,
            zsh_nodes(c),
            "%{"@ + "\\e["@ + ecma48_style(ContainerKind::Italic).1 + "m%}"@,
        ),
{
    reveal_strlit("%{");
    reveal_strlit("\\e[");
    reveal_strlit("m%}");
    reveal_strlit("3");
    reveal_strlit("23");
    reveal_strlit("%{\\e[3m%}");
    reveal_strlit("%{\\e[23m%}");
    assert("%{"@ + "\\e["@ + "3"@ + "m%}"@ =~= "%{\\e[3m%}"@);
    assert("%{"@ + "\\e["@ + "23"@ + "m%}"@ =~= "%{\\e[23m%}"@);
}

/// `<time mode="m">` shows what `<date fmt="...">` shows with the strftime
/// format of that mode, and `<date/>` what it shows with the default
/// format (weekday, month, day), on zsh, fish and nu; zsh's format for a
/// mode is exactly that strftime format.
pub proof fn time_is_a_date_in_the_mode_format(m: TimeMode, fr: Seq<FragV>)
    ensures
        zsh_node(NodeV::Time(m)) == zsh_node(NodeV::Date(Some(time_strftime(m)))),
        zsh_node(NodeV::Date(None)) == zsh_node(NodeV::Date(Some(DEFAULT_DATE_FMT@))),
        fish_node(NodeV::Time(m), fr) == fish_node(NodeV::Date(Some(time_strftime(m))), fr),
        fish_node(NodeV::Date(None), fr) == fish_node(NodeV::Date(Some(DEFAULT_DATE_FMT@)), fr),
        nu_node(NodeV::Time(m)) == nu_node(NodeV::Date(Some(time_strftime(m)))),
        nu_node(NodeV::Date(None)) == nu_node(NodeV::Date(Some(DEFAULT_DATE_FMT@))),
{
    reveal_strlit("%D{");
    reveal_strlit("}");
    reveal_strlit("%D{%H:%M:%S}");
    reveal_strlit("%D{%I:%M:%S}");
    reveal_strlit("%D{%I:%M %p}");
    reveal_strlit("%D{%H:%M}");
    reveal_strlit("%D{%a %b %d}");
    reveal_strlit("%H:%M:%S");
    reveal_strlit("%I:%M:%S");
    reveal_strlit("%I:%M %p");
    reveal_strlit("%H:%M");
    reveal_strlit("%a %b %d");
    assert("%D{"@ + time_strftime(m) + "}"@ =~= zsh_time(m));
    assert("%D{"@ + DEFAULT_DATE_FMT@ + "}"@ =~= "%D{%a %b %d}"@);
}

/// The color names mean the same on every shell: a name is one of zsh's
/// eight plain colors exactly when its SGR code is one of the eight basic
/// ones (30-37), and zsh's 256-color number of a bright name is its SGR
/// code less 82 (90-97 against 8-15); gray and grey are bright black.
pub proof fn color_names_agree_across_shells(n: Seq<char>)
    ensures
        zsh_plain_name(n) <==> (fg_name_code(n) matches Some(c) && 30 <= c <= 37),
        zsh_bright_num(n) matches Some(k) ==> fg_name_code(n) == Some(k + 82),
        fg_name_code(n) matches Some(c) ==> (90 <= c <= 97 ==> zsh_bright_num(n) == Some((c - 82) as nat)),
        fg_name_code("gray"@) == fg_name_code("brightblack"@),
        fg_name_code("grey"@) == fg_name_code("brightblack"@),
{
    reveal_strlit("black");
    reveal_strlit("red");
    reveal_strlit("green");
    reveal_strlit("yellow");
    reveal_strlit("blue");
    reveal_strlit("magenta");
    reveal_strlit("cyan");
    reveal_strlit("white");
    reveal_strlit("brightblack");
    reveal_strlit("brightred");
    reveal_strlit("brightgreen");
    reveal_strlit("brightyellow");
    reveal_strlit("brightblue");
    reveal_strlit("brightmagenta");
    reveal_strlit("brightcyan");
    reveal_strlit("brightwhite");
    reveal_strlit("gray");
    reveal_strlit("grey");
    assert({ let x = "black"@; x.len() == 5 && x[0] == 'b' && x[2] == 'a' });
    assert({ let x = "red"@; x.len() == 3 && x[0] == 'r' && x[2] == 'd' });
    assert({ let x = "green"@; x.len() == 5 && x[0] == 'g' && x[2] == 'e' });
    assert({ let x = "yellow"@; x.len() == 6 && x[0] == 'y' && x[2] == 'l' });
    assert({ let x = "blue"@; x.len() == 4 && x[0] == 'b' && x[2] == 'u' });
    assert({ let x = "magenta"@; x.len() == 7 && x[0] == 'm' && x[2] == 'g' && x[6] == 'a' });
    assert({ let x = "cyan"@; x.len() == 4 && x[0] == 'c' && x[2] == 'a' });
    assert({ let x = "white"@; x.len() == 5 && x[0] == 'w' && x[2] == 'i' });
    assert({ let x = "brightblack"@; x.len() == 11 && x[0] == 'b' && x[2] == 'i' && x[6] == 'b' });
    assert({ let x = "brightred"@; x.len() == 9 && x[0] == 'b' && x[2] == 'i' && x[6] == 'r' });
    assert({ let x = "brightgreen"@; x.len() == 11 && x[0] == 'b' && x[2] == 'i' && x[6] == 'g' });
    assert({ let x = "brightyellow"@; x.len() == 12 && x[0] == 'b' && x[2] == 'i' && x[6] == 'y' });
    assert({ let x = "brightblue"@; x.len() == 10 && x[0] == 'b' && x[2] == 'i' && x[6] == 'b' });
    assert({ let x = "brightmagenta"@; x.len() == 13 && x[0] == 'b' && x[2] == 'i' && x[6] == 'm' });
    assert({ let x = "brightcyan"@; x.len() == 10 && x[0] == 'b' && x[2] == 'i' && x[6] == 'c' });
    assert({ let x = "brightwhite"@; x.len() == 11 && x[0] == 'b' && x[2] == 'i' && x[6] == 'w' });
    assert({ let x = "gray"@; x.len() == 4 && x[0] == 'g' && x[2] == 'a' });
    assert({ let x = "grey"@; x.len() == 4 && x[0] == 'g' && x[2] == 'e' });
}

/// A style container is opened by the tag that error messages call it by:
/// the name of each style kind is a tag that opens that kind.
pub proof fn style_kinds_are_opened_by_their_names(k: ContainerKind)
    requires
        k != ContainerKind::Color,
    ensures
        style_tag(kind_name(k)) == Some(k),
{
    reveal_strlit("bold");
    reveal_strlit("underline");
    reveal_strlit("italic");
    assert("bold"@[0] == 'b' && "underline"@[0] == 'u' && "italic"@[0] == 'i');
    lemma_style_tag_is_only_style(kind_name(k));
}

/// PowerShell's `<date/>` without a format shows the .NET fields of the
/// default strftime format `%a %b %d`: weekday, month, day.
pub proof fn powershell_default_date_is_the_default_format()
    ensures
        ps_node(NodeV::Date(None)) == Some(
            ps_get_date(dotnet_code('a').unwrap() + " "@ + dotnet_code('b').unwrap() + " "@
                + dotnet_code('d').unwrap()),
        ),
        DEFAULT_DATE_FMT@ == seq!['%', 'a', ' ', '%', 'b', ' ', '%', 'd'],
{
    reveal_strlit("ddd MMM dd");
    reveal_strlit("ddd");
    reveal_strlit("MMM");
    reveal_strlit("dd");
    reveal_strlit(" ");
    reveal_strlit("%a %b %d");
    assert("ddd"@ + " "@ + "MMM"@ + " "@ + "dd"@ =~= "ddd MMM dd"@);
    assert(DEFAULT_DATE_FMT@ =~= seq!['%', 'a', ' ', '%', 'b', ' ', '%', 'd']);
}

} // verus!
