//! PSML (Prompt String Markup Language): a small HTML-like markup for shell
//! prompts, turned into a ready-to-use prompt (a string, a function or a
//! closure) for a chosen shell.
//!
//! The crate has three layers:
//!
//! 1. [`parser::parse_psml`]: PSML text to an [`ir::Document`] (a tree of
//!    [`ir::Node`]); the only place that knows PSML/XML syntax.
//! 2. [`render::ShellBackend`]: knows only the tree.  Each shell (bash,
//!    zsh, fish, powershell, cmd, nu) is a module of [`render`].
//! 3. [`convert`]: the two together, as the command line uses them.
//!
//! [`preview::render_preview`] turns a tree straight into ANSI text with
//! live values, to look at a prompt without touching a shell's config.

use vstd::prelude::*;

pub mod ir;
pub mod parser;
pub mod preview;
pub mod properties;
pub mod quoting;

pub mod render;
pub mod text;
pub mod xml;

pub use ir::{Document, Node, PsmlError, TimeMode};
pub use parser::{parse_events, parse_psml, peek_shell_attr};
pub use preview::render_preview;

pub use render::{find_backend, resolve_shell, shell_keys, Shell, ShellBackend};

use ir::DocV;
use parser::{
    lemma_parsed_shell_is_peeked, parse_error, peek_shell, spec_parse_events, xml_lex,
};
use render::{chosen_shell_name, opt_str_view, spec_find_backend, unknown_shell_error};

verus! {

/// The prompt for a parsed document: the shell is `shell` when given, else
/// the document's `<psml shell="...">`, else bash; `None` when that name is
/// unknown or the backend refuses the document.
pub open spec fn spec_render_for_shell(doc: DocV, shell: Option<Seq<char>>, raw: bool) -> Option<
    Seq<char>,
> {
    match spec_find_backend(chosen_shell_name(shell, doc.shell)) {
        Some(b) => b.spec_render(doc, raw),
        None => None,
    }
}

/// The message where [`render_for_shell`] refuses a document: the name is
/// unknown, or the backend refuses the document.
pub open spec fn render_for_shell_error(doc: DocV, shell: Option<Seq<char>>) -> Seq<char> {
    let name = chosen_shell_name(shell, doc.shell);
    match spec_find_backend(name) {
        Some(b) => b.spec_render_error(doc),
        None => unknown_shell_error(name),
    }
}

/// What [`convert`] gives for a text.  The shell is resolved first, from
/// `shell` or else from the `<psml shell="...">` that the first events
/// give ([`peek_shell`]); then the text is parsed and rendered.  `None`
/// when the shell name is unknown, the lexer stops on an error, the events
/// do not make a document, or the backend refuses it.
pub open spec fn spec_convert(text: Seq<char>, shell: Option<Seq<char>>, raw: bool) -> Option<
    Seq<char>,
> {
    match spec_find_backend(chosen_shell_name(shell, peek_shell(text))) {
        None => None,
        Some(b) => if xml_lex(text).1 {
            None
        } else {
            match spec_parse_events(xml_lex(text).0) {
                Some(d) => b.spec_render(d, raw),
                None => None,
            }
        },
    }
}

/// The message where [`convert`] refuses a text: that of an unknown shell
/// name, else of the parser, else of the backend; `None` where it is the
/// lexer's own message, which is not stated.
pub open spec fn convert_error(text: Seq<char>, shell: Option<Seq<char>>) -> Option<Seq<char>> {
    let name = chosen_shell_name(shell, peek_shell(text));
    match spec_find_backend(name) {
        None => Some(unknown_shell_error(name)),
        Some(b) => if !xml_lex(text).1 && spec_parse_events(xml_lex(text).0) is Some {
            Some(b.spec_render_error(spec_parse_events(xml_lex(text).0).unwrap()))
        } else {
            parse_error(text)
        },
    }
}

/// Renders a parsed document for the shell that `shell` (if given) or the
/// document names; `raw` prints only the prompt value, without the
/// assignment or function around it.
pub fn render_for_shell(doc: &Document, shell: Option<&str>, raw: bool) -> (r: Result<
    String,
    PsmlError,
>)
    ensures
        r is Ok <==> spec_render_for_shell(doc@, opt_str_view(shell), raw) is Some,
        r matches Ok(s) ==> s@ == spec_render_for_shell(doc@, opt_str_view(shell), raw).unwrap(),
        r matches Err(e) ==> e.0@ == render_for_shell_error(doc@, opt_str_view(shell)),
{
    let backend = match &doc.shell {
        Some(s) => resolve_shell(shell, Some(s.as_str())),
        None => resolve_shell(shell, None),
    }?;
    backend.render_document(doc, raw)
}

/// The main entry: parses `psml_text` and renders it for a shell.
///
/// `shell` (if given) wins over `<psml shell="...">` in the file; without
/// either it is bash.  `raw` prints only the prompt value, without the
/// wrapper (`PS1=...`, `function prompt {...}`, ... — each shell has its
/// own).  The shell is resolved before the whole document is parsed (from
/// `<psml shell="...">` read by [`peek_shell_attr`]), so an unknown shell
/// name is refused before any error further on in the text.
pub fn convert(psml_text: &str, shell: Option<&str>, raw: bool) -> (r: Result<String, PsmlError>)
    ensures
        r is Ok <==> spec_convert(psml_text@, opt_str_view(shell), raw) is Some,
        r matches Ok(out) ==> out@ == spec_convert(psml_text@, opt_str_view(shell), raw).unwrap(),
        r matches Err(e) ==> (convert_error(psml_text@, opt_str_view(shell)) matches Some(m)
            ==> e.0@ == m),
{
    let backend = match shell {
        Some(s) => resolve_shell(Some(s), None)?,
        None => {
            let attr = peek_shell_attr(psml_text);
            match &attr {
                Some(a) => resolve_shell(None, Some(a.as_str()))?,
                None => resolve_shell(None, None)?,
            }
        },
    };
    let doc = parse_psml(psml_text)?;
    proof {
        lemma_parsed_shell_is_peeked(psml_text@);
    }
    backend.render_document(&doc, raw)
}

/// POSIX single quoting (`'...'`), kept in the public interface: it is
/// what `PS1='...'` and `PROMPT='...'` are built with.
pub fn shell_quote_single(value: &str) -> (r: String)
    ensures
        r@ == render::util::posix_quoted(value@),
{
    render::util::posix_quote_single(value)
}

} // verus!
