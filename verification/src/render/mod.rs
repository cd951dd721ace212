//! The registry of shell backends.  Adding a shell means writing a module
//! with an `impl ShellBackend` and listing it in [`backends`]; the parser
//! and the other backends stay as they are.

use vstd::prelude::*;

pub mod bash;
pub mod cmd;
pub mod fish;
pub mod nu;
pub mod powershell;
pub mod util;
pub mod zsh;

use crate::ir::{DocV, Document, PsmlError};
use crate::render::bash::Bash;
use crate::render::cmd::Cmd;
use crate::render::fish::Fish;
use crate::render::nu::Nu;
use crate::render::powershell::PowerShell;
use crate::render::zsh::Zsh;
use crate::text::{ascii_lower, debug_quoted, debug_str, lowercase, push_str, str_eq, to_lower};

verus! {

/// One shell backend: turns the tree of a document into a script for its
/// shell to `eval`/`source`.
pub trait ShellBackend {
    /// The canonical name, as written in `--shell` and `<psml shell="...">`.
    spec fn spec_key(&self) -> Seq<char>;

    /// Other accepted names.
    spec fn spec_aliases(&self) -> Seq<Seq<char>>;

    /// The rendering of a document, `None` where the backend refuses it.
    spec fn spec_render(&self, doc: DocV, raw: bool) -> Option<Seq<char>>;

    /// The message of the error where the backend refuses a document.
    spec fn spec_render_error(&self, doc: DocV) -> Seq<char>;

    /// The canonical name.
    fn key(&self) -> (k: &'static str)
        ensures
            k@ == self.spec_key(),
    ;

    /// Alternative names (such as `pwsh` for PowerShell).
    fn aliases(&self) -> (a: &'static [&'static str])
        ensures
            a@.map_values(|s: &str| s@) == self.spec_aliases(),
    ;

    /// Renders the whole document: the prompt body, the wrapper that the
    /// shell needs (variable assignment or function definition) and the
    /// `raw` form (only the prompt value, without wrapper).
    fn render_document(&self, doc: &Document, raw: bool) -> (r: Result<String, PsmlError>)
        ensures
            r is Ok <==> self.spec_render(doc@, raw) is Some,
            r matches Ok(s) ==> s@ == self.spec_render(doc@, raw).unwrap(),
            r matches Err(e) ==> e.0@ == self.spec_render_error(doc@),
    ;
}

/// A known shell: the handle that the registry hands out for a backend.
#[derive(Debug, Clone, Copy, PartialEq, Eq, Structural)]
pub enum Shell {
    Bash,
    Zsh,
    Fish,
    PowerShell,
    Cmd,
    Nu,
}

impl ShellBackend for Shell {
    open spec fn spec_key(&self) -> Seq<char> {
        match self {
            Shell::Bash => Bash.spec_key(),
            Shell::Zsh => Zsh.spec_key(),
            Shell::Fish => Fish.spec_key(),
            Shell::PowerShell => PowerShell.spec_key(),
            Shell::Cmd => Cmd.spec_key(),
            Shell::Nu => Nu.spec_key(),
        }
    }

    open spec fn spec_aliases(&self) -> Seq<Seq<char>> {
        match self {
            Shell::Bash => Bash.spec_aliases(),
            Shell::Zsh => Zsh.spec_aliases(),
            Shell::Fish => Fish.spec_aliases(),
            Shell::PowerShell => PowerShell.spec_aliases(),
            Shell::Cmd => Cmd.spec_aliases(),
            Shell::Nu => Nu.spec_aliases(),
        }
    }

    open spec fn spec_render(&self, doc: DocV, raw: bool) -> Option<Seq<char>> {
        match self {
            Shell::Bash => Bash.spec_render(doc, raw),
            Shell::Zsh => Zsh.spec_render(doc, raw),
            Shell::Fish => Fish.spec_render(doc, raw),
            Shell::PowerShell => PowerShell.spec_render(doc, raw),
            Shell::Cmd => Cmd.spec_render(doc, raw),
            Shell::Nu => Nu.spec_render(doc, raw),
        }
    }

    open spec fn spec_render_error(&self, doc: DocV) -> Seq<char> {
        match self {
            Shell::Bash => Bash.spec_render_error(doc),
            Shell::Zsh => Zsh.spec_render_error(doc),
            Shell::Fish => Fish.spec_render_error(doc),
            Shell::PowerShell => PowerShell.spec_render_error(doc),
            Shell::Cmd => Cmd.spec_render_error(doc),
            Shell::Nu => Nu.spec_render_error(doc),
        }
    }

    fn key(&self) -> (k: &'static str) {
        match self {
            Shell::Bash => Bash.key(),
            Shell::Zsh => Zsh.key(),
            Shell::Fish => Fish.key(),
            Shell::PowerShell => PowerShell.key(),
            Shell::Cmd => Cmd.key(),
            Shell::Nu => Nu.key(),
        }
    }

    fn aliases(&self) -> (a: &'static [&'static str]) {
        match self {
            Shell::Bash => Bash.aliases(),
            Shell::Zsh => Zsh.aliases(),
            Shell::Fish => Fish.aliases(),
            Shell::PowerShell => PowerShell.aliases(),
            Shell::Cmd => Cmd.aliases(),
            Shell::Nu => Nu.aliases(),
        }
    }

    fn render_document(&self, doc: &Document, raw: bool) -> (r: Result<String, PsmlError>) {
        match self {
            Shell::Bash => Bash.render_document(doc, raw),
            Shell::Zsh => Zsh.render_document(doc, raw),
            Shell::Fish => Fish.render_document(doc, raw),
            Shell::PowerShell => PowerShell.render_document(doc, raw),
            Shell::Cmd => Cmd.render_document(doc, raw),
            Shell::Nu => Nu.render_document(doc, raw),
        }
    }
}

/// The registry, in the order of `--help` and of the shell list.
pub open spec fn spec_backends() -> Seq<Shell> {
    seq![Shell::Bash, Shell::Zsh, Shell::Fish, Shell::PowerShell, Shell::Cmd, Shell::Nu]
}

/// Every known shell, in registry order.
pub fn backends() -> (r: Vec<Shell>)
    ensures
        r@ == spec_backends(),
{
    let r = vec![Shell::Bash, Shell::Zsh, Shell::Fish, Shell::PowerShell, Shell::Cmd, Shell::Nu];
    assert(r@ =~= spec_backends());
    r
}

/// Whether `name` is the key or an alias of `b`.
pub open spec fn matches_name(b: Shell, name: Seq<char>) -> bool {
    b.spec_key() == name || b.spec_aliases().contains(name)
}

/// The first shell of `bs` that answers to `name`.
pub open spec fn first_match(bs: Seq<Shell>, name: Seq<char>) -> Option<Shell>
    decreases bs.len(),
{
    if bs.len() == 0 {
        None
    } else if matches_name(bs[0], name) {
        Some(bs[0])
    } else {
        first_match(bs.drop_first(), name)
    }
}

/// The backend that a shell name selects: the name is lowercased first.
pub open spec fn spec_find_backend(name: Seq<char>) -> Option<Shell> {
    first_match(spec_backends(), lowercase(name))
}

fn matches_key(backend: Shell, name: &str) -> (r: bool)
    ensures
        r == matches_name(backend, name@),
{
    if str_eq(backend.key(), name) {
        return true;
    }
    let aliases = backend.aliases();
    let ghost al = aliases@.map_values(|s: &str| s@);
    let mut i: usize = 0;
    while i < aliases.len()
        invariant
            al == aliases@.map_values(|s: &str| s@),
            al == backend.spec_aliases(),
            i <= aliases@.len(),
            backend.spec_key() != name@,
            forall|j: int| 0 <= j < i ==> al[j] != name@,
        decreases aliases@.len() - i,
    {
        if str_eq(aliases[i], name) {
            assert(al[i as int] == name@);
            return true;
        }
        i = i + 1;
    }
    assert(!al.contains(name@));
    false
}

proof fn lemma_first_match_skip(bs: Seq<Shell>, i: int, name: Seq<char>)
    requires
        0 <= i < bs.len(),
        !matches_name(bs[i], name),
    ensures
        first_match(bs.skip(i), name) == first_match(bs.skip(i + 1), name),
{
    assert(bs.skip(i).drop_first() =~= bs.skip(i + 1));
}

/// Looks a shell up by its key or one of its aliases, ignoring case.
pub fn find_backend(name: &str) -> (r: Option<Shell>)
    ensures
        r == spec_find_backend(name@),
        vstd::utf8::is_ascii_chars(name@) ==> r == first_match(spec_backends(), ascii_lower(name@)),
{
    let lname = to_lower(name);
    let all = backends();
    let mut i: usize = 0;
    assert(all@.skip(0) =~= all@);
    while i < all.len()
        invariant
            all@ == spec_backends(),
            i <= all@.len(),
            first_match(all@, lname@) == first_match(all@.skip(i as int), lname@),
            lname@ == lowercase(name@),
            vstd::utf8::is_ascii_chars(name@) ==> lname@ == ascii_lower(name@),
        decreases all@.len() - i,
    {
        if matches_key(all[i], lname.as_str()) {
            return Some(all[i]);
        }
        proof {
            lemma_first_match_skip(all@, i as int, lname@);
        }
        i = i + 1;
    }
    None
}

/// The keys of all shells, for error messages and `--help`.
pub fn shell_keys() -> (r: Vec<&'static str>)
    ensures
        r@.map_values(|s: &str| s@) == spec_backends().map_values(|b: Shell| b.spec_key()),
{
    let all = backends();
    let mut keys: Vec<&'static str> = Vec::new();
    for i in 0..all.len()
        invariant
            all@ == spec_backends(),
            keys@.map_values(|s: &str| s@) == all@.take(i as int).map_values(|b: Shell| b.spec_key()),
    {
        let ghost old_keys = keys@;
        let k = all[i].key();
        keys.push(k);
        assert(all@.take(i + 1) =~= all@.take(i as int).push(all@[i as int]));
        assert(keys@ == old_keys.push(k));
        assert(keys@.map_values(|s: &str| s@) =~= old_keys.map_values(|s: &str| s@).push(k@));
        assert(all@.take(i + 1).map_values(|b: Shell| b.spec_key()) =~= all@.take(
            i as int,
        ).map_values(|b: Shell| b.spec_key()).push(all@[i as int].spec_key()));
    }
    assert(all@.take(all@.len() as int) =~= all@);
    keys
}

/// The name that selects the shell: the explicit one (`--shell`) wins over
/// the document's `<psml shell="...">`, and `bash` is the default.
pub open spec fn chosen_shell_name(cli: Option<Seq<char>>, doc: Option<Seq<char>>) -> Seq<char> {
    match cli {
        Some(c) => c,
        None => match doc {
            Some(d) => d,
            None => "bash"@,
        },
    }
}

pub open spec fn opt_str_view(o: Option<&str>) -> Option<Seq<char>> {
    match o {
        Some(s) => Some(s@),
        None => None,
    }
}

/// Names joined with `, ` between them.
pub open spec fn join_names(ks: Seq<Seq<char>>) -> Seq<char>
    decreases ks.len(),
{
    if ks.len() == 0 {
        Seq::empty()
    } else if ks.len() == 1 {
        ks[0]
    } else {
        join_names(ks.drop_last()) + ", "@ + ks.last()
    }
}

/// The message for an unknown shell name: the name and the keys of all
/// shells.
pub open spec fn unknown_shell_error(name: Seq<char>) -> Seq<char> {
    "неизвестный shell: "@ + debug_quoted(name) + " (доступны: "@ + join_names(
        spec_backends().map_values(|b: Shell| b.spec_key()),
    ) + ")"@
}

/// Picks the shell: an explicit argument (`--shell`) wins over the
/// attribute in the file (`<psml shell="...">`), and without either it is
/// bash; an unknown name is an error that lists the known ones.
pub fn resolve_shell(cli_override: Option<&str>, doc_attr: Option<&str>) -> (r: Result<
    Shell,
    PsmlError,
>)
    ensures
        match spec_find_backend(
            chosen_shell_name(opt_str_view(cli_override), opt_str_view(doc_attr)),
        ) {
            Some(b) => r == Ok::<Shell, PsmlError>(b),
            None => r matches Err(e) && e.0@ == unknown_shell_error(
                chosen_shell_name(opt_str_view(cli_override), opt_str_view(doc_attr)),
            ),
        },
        cli_override is None && doc_attr is None ==> r == Ok::<Shell, PsmlError>(Shell::Bash),
{
    let chosen: &str = match cli_override {
        Some(c) => c,
        None => match doc_attr {
            Some(d) => d,
            None => {
                proof {
                    reveal_strlit("bash");
                    assert(vstd::utf8::is_ascii_chars("bash"@));
                    assert(ascii_lower("bash"@) =~= "bash"@);
                    crate::properties::registry_names_select_their_shell(Shell::Bash, "bash"@);
                }
                "bash"
            },
        },
    };
    match find_backend(chosen) {
        Some(b) => Ok(b),
        None => {
            let mut msg = String::new();
            push_str(&mut msg, "неизвестный shell: ");
            let q = debug_str(chosen);
            push_str(&mut msg, q.as_str());
            push_str(&mut msg, " (доступны: ");
            let ghost head = msg@;
            let keys = shell_keys();
            let ghost ks = keys@.map_values(|s: &str| s@);
            for i in 0..keys.len()
                invariant
                    ks == keys@.map_values(|s: &str| s@),
                    msg@ == head + join_names(ks.take(i as int)),
            {
                let ghost before = msg@;
                if i > 0 {
                    push_str(&mut msg, ", ");
                }
                push_str(&mut msg, keys[i]);
                proof {
                    assert(ks.take(i + 1).drop_last() == ks.take(i as int));
                    assert(ks.take(i + 1).last() == keys[i as int]@);
                    if i == 0 {
                        assert(join_names(ks.take(1)) == ks[0]);
                    }
                }
            }
            assert(ks.take(keys.len() as int) == ks);
            push_str(&mut msg, ")");
            Err(PsmlError(msg))
        },
    }
}

} // verus!
