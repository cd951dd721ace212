//! The PSML parser: text to a [`Document`].  It is the one place that knows
//! PSML/XML syntax and nothing of shells.  `quick_xml` lexes tags,
//! attributes and entities ([`crate::xml`]); the nesting of style tags and
//! the tree are built here, on a stack of frames.
//!
//! The building step is [`Parser`]: it takes plain [`XmlEvent`]s, one at a
//! time, and has an exact contract over [`spec_feed`]; [`parse_events`]
//! runs it over a list of events; [`parse_psml`] feeds it what the lexer
//! reads from the text.

use vstd::prelude::*;

use quick_xml::events::BytesStart;

use crate::ir::{
    node_view, nodes_view, opt_view, time_mode_error, time_mode_of, DocV, Document, Node,
    NodeV, PsmlError, TimeMode,
};
use crate::text::{lowercase, push_str, str_eq, to_lower};
use quick_xml::events::attributes::Attributes;
use quick_xml::reader::Reader;

use crate::xml::{
    attr_error_text, attribute_key, attribute_key_text, attribute_next, attribute_value,
    attribute_value_text, attributes_rest, end_name, end_tag_name, fresh_reader, next_attribute,
    read_next, reader_rest, start_attributes, start_name, start_tag_name, tag_attributes,
    text_unescape, text_value, xml_error_text, xml_read_event, xml_reader, RawEvent,
};

verus! {

/// One attribute of a tag, as written (the name is not lowercased yet).
pub struct XmlAttr {
    pub name: String,
    pub value: String,
}

/// One event of the XML lexer, as plain values.
pub enum XmlEvent {
    /// An opening tag `<name ...>`.
    Start { name: String, attrs: Vec<XmlAttr> },
    /// A self-closing tag `<name .../>`.
    Empty { name: String, attrs: Vec<XmlAttr> },
    /// A closing tag `</name>`.
    End { name: String },
    /// Text, with entities decoded.
    Text(String),
    /// A comment, doctype, processing instruction, declaration or CDATA:
    /// ignored, as an HTML parser would.
    Other,
}

/// The mathematical value of an [`XmlEvent`]: attributes as (name, value).
pub enum XmlEventV {
    Start { name: Seq<char>, attrs: Seq<(Seq<char>, Seq<char>)> },
    Empty { name: Seq<char>, attrs: Seq<(Seq<char>, Seq<char>)> },
    End { name: Seq<char> },
    Text(Seq<char>),
    Other,
}

pub open spec fn attrs_view(a: Seq<XmlAttr>) -> Seq<(Seq<char>, Seq<char>)> {
    a.map_values(|x: XmlAttr| (x.name@, x.value@))
}

pub open spec fn event_view(e: XmlEvent) -> XmlEventV {
    match e {
        XmlEvent::Start { name, attrs } => XmlEventV::Start { name: name@, attrs: attrs_view(attrs@) },
        XmlEvent::Empty { name, attrs } => XmlEventV::Empty { name: name@, attrs: attrs_view(attrs@) },
        XmlEvent::End { name } => XmlEventV::End { name: name@ },
        XmlEvent::Text(t) => XmlEventV::Text(t@),
        XmlEvent::Other => XmlEventV::Other,
    }
}

pub open spec fn events_view(s: Seq<XmlEvent>) -> Seq<XmlEventV> {
    s.map_values(|e: XmlEvent| event_view(e))
}

/// The canonical kind of a container (nestable) tag; aliases (`b`, `u`,
/// `i`) fold into the same kind.
#[derive(Debug, Clone, Copy, PartialEq, Eq, Structural)]
pub enum ContainerKind {
    Bold,
    Underline,
    Italic,
    Color,
}

/// An open container tag and what it holds so far.
pub struct FrameV {
    pub kind: ContainerKind,
    pub fg: Option<Seq<char>>,
    pub bg: Option<Seq<char>>,
    pub children: Seq<NodeV>,
}

/// The state of the parser between two events.
pub struct PState {
    pub shell: Option<Seq<char>>,
    pub psml_seen: bool,
    pub psml_depth: int,
    pub in_head: bool,
    pub in_title: bool,
    pub body_seen: bool,
    pub in_body: bool,
    pub title: Seq<char>,
    pub body_root: Seq<NodeV>,
    pub frames: Seq<FrameV>,
}

/// The state before the first event.
pub open spec fn initial_state() -> PState {
    PState {
        shell: None,
        psml_seen: false,
        psml_depth: 0,
        in_head: false,
        in_title: false,
        body_seen: false,
        in_body: false,
        title: Seq::empty(),
        body_root: Seq::empty(),
        frames: Seq::empty(),
    }
}

/// The value of an attribute: the last one whose lowercased name is `key`.
pub open spec fn attr_get(attrs: Seq<(Seq<char>, Seq<char>)>, key: Seq<char>) -> Option<Seq<char>>
    decreases attrs.len(),
{
    if attrs.len() == 0 {
        None
    } else if lowercase(attrs.last().0) == key {
        Some(attrs.last().1)
    } else {
        attr_get(attrs.drop_last(), key)
    }
}

/// A node goes into the innermost open container, or into the body.
pub open spec fn insert_node(s: PState, n: NodeV) -> PState {
    if s.frames.len() > 0 {
        let top = s.frames.last();
        PState {
            frames: s.frames.update(
                s.frames.len() - 1,
                FrameV { children: top.children.push(n), ..top },
            ),
            ..s
        }
    } else {
        PState { body_root: s.body_root.push(n), ..s }
    }
}

pub open spec fn open_container(
    s: PState,
    kind: ContainerKind,
    fg: Option<Seq<char>>,
    bg: Option<Seq<char>>,
) -> PState {
    PState { frames: s.frames.push(FrameV { kind, fg, bg, children: Seq::empty() }), ..s }
}

/// The node that a closed frame becomes.
pub open spec fn frame_node(f: FrameV) -> NodeV {
    match f.kind {
        ContainerKind::Bold => NodeV::Bold(f.children),
        ContainerKind::Underline => NodeV::Underline(f.children),
        ContainerKind::Italic => NodeV::Italic(f.children),
        ContainerKind::Color => NodeV::Color { fg: f.fg, bg: f.bg, children: f.children },
    }
}

/// Closes the innermost container, which must be of kind `kind`.
pub open spec fn close_container(s: PState, kind: ContainerKind) -> Option<PState> {
    if s.frames.len() > 0 && s.frames.last().kind == kind {
        let f = s.frames.last();
        Some(insert_node(PState { frames: s.frames.drop_last(), ..s }, frame_node(f)))
    } else {
        None
    }
}

/// The node of a self-closing variable tag.
pub open spec fn leaf_tag(tag: Seq<char>) -> Option<NodeV> {
    if tag == "br"@ {
        Some(NodeV::Br)
    } else if tag == "user"@ {
        Some(NodeV::User)
    } else if tag == "host"@ {
        Some(NodeV::Host)
    } else if tag == "hostfull"@ {
        Some(NodeV::HostFull)
    } else if tag == "cwd"@ {
        Some(NodeV::Cwd)
    } else if tag == "cwdbase"@ {
        Some(NodeV::CwdBase)
    } else if tag == "symbol"@ {
        Some(NodeV::Symbol)
    } else if tag == "jobs"@ {
        Some(NodeV::Jobs)
    } else if tag == "exitcode"@ {
        Some(NodeV::ExitCode)
    } else if tag == "reset"@ {
        Some(NodeV::Reset)
    } else {
        None
    }
}

/// The kind of a style tag without attributes (and its aliases).
pub open spec fn style_tag(tag: Seq<char>) -> Option<ContainerKind> {
    if tag == "bold"@ || tag == "b"@ {
        Some(ContainerKind::Bold)
    } else if tag == "underline"@ || tag == "u"@ {
        Some(ContainerKind::Underline)
    } else if tag == "italic"@ || tag == "i"@ {
        Some(ContainerKind::Italic)
    } else {
        None
    }
}

/// An opening tag inside `<body>` (name already lowercased).
pub open spec fn open_body_tag(s: PState, tag: Seq<char>, attrs: Seq<(Seq<char>, Seq<char>)>) -> Option<
    PState,
> {
    if leaf_tag(tag) is Some {
        Some(insert_node(s, leaf_tag(tag).unwrap()))
    } else if tag == "time"@ {
        let mode = match attr_get(attrs, "mode"@) {
            Some(m) => m,
            None => "24"@,
        };
        match time_mode_of(mode) {
            Some(m) => Some(insert_node(s, NodeV::Time(m))),
            None => None,
        }
    } else if tag == "date"@ {
        Some(insert_node(s, NodeV::Date(attr_get(attrs, "fmt"@))))
    } else if tag == "git"@ {
        let prefix = match attr_get(attrs, "prefix"@) {
            Some(p) => p,
            None => " ("@,
        };
        let suffix = match attr_get(attrs, "suffix"@) {
            Some(p) => p,
            None => ")"@,
        };
        Some(insert_node(s, NodeV::Git { prefix, suffix }))
    } else if tag == "cmd"@ {
        match attr_get(attrs, "run"@) {
            Some(r) => if r.len() > 0 {
                Some(insert_node(s, NodeV::Cmd(r)))
            } else {
                None
            },
            None => None,
        }
    } else if style_tag(tag) is Some {
        Some(open_container(s, style_tag(tag).unwrap(), None, None))
    } else if tag == "color"@ {
        let fg = attr_get(attrs, "fg"@);
        let bg = attr_get(attrs, "bg"@);
        if fg is None && bg is None {
            None
        } else {
            Some(open_container(s, ContainerKind::Color, fg, bg))
        }
    } else {
        None
    }
}

/// An opening tag: `tag_raw` is lowercased first.  `<psml>` (the first
/// one, at depth 0) takes the `shell` attribute; everything else needs
/// `<psml>` first; `<title>` lives in `<head>` and holds only text; other
/// tags live in `<body>`.
pub open spec fn spec_open(s: PState, tag_raw: Seq<char>, attrs: Seq<(Seq<char>, Seq<char>)>) -> Option<
    PState,
> {
    let tag = lowercase(tag_raw);
    if tag == "psml"@ {
        let s2 = if s.psml_depth == 0 && !s.psml_seen {
            PState { psml_seen: true, shell: attr_get(attrs, "shell"@), ..s }
        } else {
            s
        };
        Some(PState { psml_depth: s2.psml_depth + 1, ..s2 })
    } else if !s.psml_seen {
        None
    } else if tag == "head"@ {
        Some(PState { in_head: true, ..s })
    } else if tag == "title"@ {
        if !s.in_head {
            None
        } else {
            Some(PState { in_title: true, ..s })
        }
    } else if tag == "body"@ {
        Some(PState { in_body: true, body_seen: true, ..s })
    } else if s.in_title || s.in_head || !s.in_body {
        None
    } else {
        open_body_tag(s, tag, attrs)
    }
}

/// A closing tag: structural tags leave their section, style tags close
/// their container (which must be the innermost one), other closing tags
/// are ignored.
pub open spec fn spec_close(s: PState, tag_raw: Seq<char>) -> Option<PState> {
    let tag = lowercase(tag_raw);
    if tag == "psml"@ {
        Some(PState { psml_depth: s.psml_depth - 1, ..s })
    } else if tag == "head"@ {
        Some(PState { in_head: false, ..s })
    } else if tag == "title"@ {
        Some(PState { in_title: false, ..s })
    } else if tag == "body"@ {
        Some(PState { in_body: false, ..s })
    } else if style_tag(tag) is Some {
        close_container(s, style_tag(tag).unwrap())
    } else if tag == "color"@ {
        close_container(s, ContainerKind::Color)
    } else {
        Some(s)
    }
}

/// Whitespace as the text rule counts it.
pub open spec fn is_ws(c: char) -> bool {
    c == ' ' || c == '\t' || c == '\r' || c == '\n' || c == '\x0c' || c == '\x0b'
}

/// Formatting text between tags on different lines: whitespace only, with
/// a line break in it.
pub open spec fn formatting_only(d: Seq<char>) -> bool {
    d.contains('\n') && forall|i: int| 0 <= i < d.len() ==> is_ws(#[trigger] d[i])
}

/// A text event.  As in HTML, text that is only formatting is dropped; a
/// space within one line is kept.
pub open spec fn spec_text(s: PState, d: Seq<char>) -> Option<PState> {
    if d.len() == 0 || formatting_only(d) {
        Some(s)
    } else if s.in_title {
        Some(PState { title: s.title + d, ..s })
    } else if s.in_body {
        Some(insert_node(s, NodeV::Text(d)))
    } else {
        None
    }
}

/// A tag that opens closes again: the closing tag of a tag that was just
/// opened is never refused.
proof fn lemma_open_then_close(s: PState, name: Seq<char>, attrs: Seq<(Seq<char>, Seq<char>)>)
    requires
        spec_open(s, name, attrs) is Some,
    ensures
        spec_close(spec_open(s, name, attrs).unwrap(), name) is Some,
{
    reveal_strlit("psml");
    reveal_strlit("head");
    reveal_strlit("title");
    reveal_strlit("body");
    reveal_strlit("br");
    reveal_strlit("user");
    reveal_strlit("host");
    reveal_strlit("hostfull");
    reveal_strlit("cwd");
    reveal_strlit("cwdbase");
    reveal_strlit("symbol");
    reveal_strlit("jobs");
    reveal_strlit("exitcode");
    reveal_strlit("reset");
    reveal_strlit("time");
    reveal_strlit("date");
    reveal_strlit("git");
    reveal_strlit("cmd");
    reveal_strlit("bold");
    reveal_strlit("b");
    reveal_strlit("underline");
    reveal_strlit("u");
    reveal_strlit("italic");
    reveal_strlit("i");
    reveal_strlit("color");
    let tag = lowercase(name);
    let s2 = spec_open(s, name, attrs).unwrap();
    if tag == "psml"@ || tag == "head"@ || tag == "title"@ || tag == "body"@ {
    } else if style_tag(tag) is Some {
        let k = style_tag(tag).unwrap();
        if tag == "bold"@ {
            assert(tag.len() == 4 && tag[0] == 'b' && tag[1] == 'o');
        } else if tag == "b"@ {
            assert(tag.len() == 1 && tag[0] == 'b');
        } else if tag == "underline"@ {
            assert(tag.len() == 9 && tag[0] == 'u');
        } else if tag == "u"@ {
            assert(tag.len() == 1 && tag[0] == 'u');
        } else if tag == "italic"@ {
            assert(tag.len() == 6 && tag[0] == 'i');
        } else {
            assert(tag.len() == 1 && tag[0] == 'i');
        }
        assert(leaf_tag(tag) is None);
        assert(tag != "time"@ && tag != "date"@ && tag != "git"@ && tag != "cmd"@);
        assert(s2 == open_container(s, k, None, None));
        assert(s2.frames.last().kind == k);
    } else if tag == "color"@ {
        assert(tag.len() == 5 && tag[0] == 'c');
        assert(leaf_tag(tag) is None);
        assert(tag != "time"@ && tag != "date"@ && tag != "git"@ && tag != "cmd"@);
        assert(s2.frames.last().kind == ContainerKind::Color);
    }
}

/// The message of a refused opening tag inside `<body>` (name already
/// lowercased).
pub open spec fn body_tag_error(tag: Seq<char>, attrs: Seq<(Seq<char>, Seq<char>)>) -> Seq<char> {
    if tag == "time"@ {
        time_mode_error(
            match attr_get(attrs, "mode"@) {
                Some(m) => m,
                None => "24"@,
            },
        )
    } else if tag == "cmd"@ {
        "<cmd> должен иметь атрибут run с shell-командой"@
    } else if tag == "color"@ {
        "<color> должен иметь атрибут fg и/или bg"@
    } else {
        "неизвестный тег: <"@ + tag + ">"@
    }
}

/// The message of a refused opening tag.
pub open spec fn open_error(s: PState, tag_raw: Seq<char>, attrs: Seq<(Seq<char>, Seq<char>)>) -> Seq<
    char,
> {
    let tag = lowercase(tag_raw);
    if !s.psml_seen {
        "тег <"@ + tag + "> встречен до <psml>"@
    } else if tag == "title"@ {
        "<title> допустим только внутри <head>"@
    } else if s.in_title {
        "тег <"@ + tag + "> недопустим внутри <title>: <title> поддерживает только текст"@
    } else if s.in_head {
        "тег <"@ + tag + "> внутри <head> допустим только в виде <title>"@
    } else if !s.in_body {
        "тег <"@ + tag + "> вне <body>"@
    } else {
        body_tag_error(tag, attrs)
    }
}

/// The message of a closing tag that does not close the innermost
/// container.
pub open spec fn close_error(kind: ContainerKind) -> Seq<char> {
    "неправильное вложение тегов: ожидался конец </"@ + kind_name(kind) + ">"@
}

/// The message of a refused closing tag.
pub open spec fn spec_close_error(tag_raw: Seq<char>) -> Seq<char> {
    let tag = lowercase(tag_raw);
    match style_tag(tag) {
        Some(k) => close_error(k),
        None => close_error(ContainerKind::Color),
    }
}

/// The message of refused text.
pub open spec fn text_error(s: PState) -> Seq<char> {
    if s.in_head {
        "текст вне <title> внутри <head>"@
    } else {
        "текст вне <body>/<title>"@
    }
}

/// The message of a refused event.
pub open spec fn feed_error(s: PState, e: XmlEventV) -> Seq<char> {
    match e {
        XmlEventV::Start { name, attrs } => open_error(s, name, attrs),
        XmlEventV::Empty { name, attrs } => open_error(s, name, attrs),
        XmlEventV::End { name } => spec_close_error(name),
        XmlEventV::Text(t) => text_error(s),
        XmlEventV::Other => Seq::empty(),
    }
}

/// One event; a self-closing tag opens and closes at once.
pub open spec fn spec_feed(s: PState, e: XmlEventV) -> Option<PState> {
    match e {
        XmlEventV::Start { name, attrs } => spec_open(s, name, attrs),
        XmlEventV::Empty { name, attrs } => match spec_open(s, name, attrs) {
            Some(s2) => spec_close(s2, name),
            None => None,
        },
        XmlEventV::End { name } => spec_close(s, name),
        XmlEventV::Text(t) => spec_text(s, t),
        XmlEventV::Other => Some(s),
    }
}

/// The state after a sequence of events, `None` at the first refused one.
pub open spec fn spec_run(s: PState, es: Seq<XmlEventV>) -> Option<PState>
    decreases es.len(),
{
    if es.len() == 0 {
        Some(s)
    } else {
        match spec_run(s, es.drop_last()) {
            Some(s2) => spec_feed(s2, es.last()),
            None => None,
        }
    }
}

/// The document at the end: `<psml>` must have been seen and closed,
/// `<body>` seen, and no style tag left open.
pub open spec fn spec_finish(s: PState) -> Option<DocV> {
    if !s.psml_seen || s.psml_depth != 0 || !s.body_seen || s.frames.len() > 0 {
        None
    } else {
        Some(DocV { shell: s.shell, title: s.title, body: s.body_root })
    }
}

/// The message when the events end in a state that is not a document.
pub open spec fn finish_error(s: PState) -> Seq<char> {
    if !s.psml_seen {
        "не найден корневой тег <psml>"@
    } else if s.psml_depth != 0 {
        "тег <psml> не закрыт"@
    } else if !s.body_seen {
        "не найден тег <body>"@
    } else {
        "остались незакрытые стилевые теги"@
    }
}

/// The message of the first event of a sequence that the parser refuses.
pub open spec fn run_error(es: Seq<XmlEventV>) -> Seq<char>
    decreases es.len(),
{
    if es.len() == 0 {
        Seq::empty()
    } else {
        match spec_run(initial_state(), es.drop_last()) {
            Some(s) => feed_error(s, es.last()),
            None => run_error(es.drop_last()),
        }
    }
}

/// The message when a sequence of events is not a document: that of the
/// first refused event, else that of the state at the end.
pub open spec fn parse_events_error(es: Seq<XmlEventV>) -> Seq<char> {
    match spec_run(initial_state(), es) {
        Some(s) => finish_error(s),
        None => run_error(es),
    }
}

/// A run that is refused within a prefix is refused with that prefix's
/// error.
pub proof fn lemma_run_error_prefix(es: Seq<XmlEventV>, i: int)
    requires
        0 <= i <= es.len(),
        spec_run(initial_state(), es.take(i)) is None,
    ensures
        spec_run(initial_state(), es) is None,
        run_error(es) == run_error(es.take(i)),
    decreases es.len() - i,
{
    if i < es.len() {
        assert(es.take(i + 1).drop_last() == es.take(i));
        lemma_run_error_prefix(es, i + 1);
    } else {
        assert(es.take(i) == es);
    }
}

/// The document that a sequence of events describes, `None` when it is
/// not a valid PSML document.
pub open spec fn spec_parse_events(es: Seq<XmlEventV>) -> Option<DocV> {
    match spec_run(initial_state(), es) {
        Some(s) => spec_finish(s),
        None => None,
    }
}

// ---------------------------------------------------------------------------
// The builder
// ---------------------------------------------------------------------------

struct Frame {
    kind: ContainerKind,
    fg: Option<String>,
    bg: Option<String>,
    children: Vec<Node>,
}

spec fn frame_view(f: Frame) -> FrameV {
    FrameV { kind: f.kind, fg: opt_view(f.fg), bg: opt_view(f.bg), children: nodes_view(f.children@) }
}

spec fn frames_view(s: Seq<Frame>) -> Seq<FrameV> {
    s.map_values(|f: Frame| frame_view(f))
}

spec fn parts_concat(s: Seq<String>) -> Seq<char>
    decreases s.len(),
{
    if s.len() == 0 {
        Seq::empty()
    } else {
        parts_concat(s.drop_last()) + s.last()@
    }
}

/// The state of the parser while it reads a document: which sections are
/// open, the title text so far, the body so far and the open style tags.
pub struct Parser {
    shell: Option<String>,
    psml_seen: bool,
    psml_depth: i64,
    in_head: bool,
    in_title: bool,
    body_seen: bool,
    in_body: bool,
    title_parts: Vec<String>,
    body_root: Vec<Node>,
    frame_stack: Vec<Frame>,
    events_seen: Ghost<nat>,
}

impl View for Parser {
    type V = PState;

    closed spec fn view(&self) -> PState {
        PState {
            shell: opt_view(self.shell),
            psml_seen: self.psml_seen,
            psml_depth: self.psml_depth as int,
            in_head: self.in_head,
            in_title: self.in_title,
            body_seen: self.body_seen,
            in_body: self.in_body,
            title: parts_concat(self.title_parts@),
            body_root: nodes_view(self.body_root@),
            frames: frames_view(self.frame_stack@),
        }
    }
}


fn err_tag(before: &str, tag: &str, after: &str) -> (r: PsmlError)
    ensures
        r.0@ == before@ + tag@ + after@,
{
    let mut m = String::new();
    push_str(&mut m, before);
    push_str(&mut m, tag);
    push_str(&mut m, after);
    PsmlError(m)
}

fn err_msg(text: &str) -> (r: PsmlError)
    ensures
        r.0@ == text@,
{
    let mut m = String::new();
    push_str(&mut m, text);
    PsmlError(m)
}

/// The value of attribute `key` (the last one whose lowercased name is it).
fn get_attr(attrs: &Vec<XmlAttr>, key: &str) -> (r: Option<String>)
    ensures
        opt_view(r) == attr_get(attrs_view(attrs@), key@),
{
    let ghost av = attrs_view(attrs@);
    let mut i = attrs.len();
    assert(av.take(i as int) =~= av);
    while i > 0
        invariant
            av == attrs_view(attrs@),
            i <= attrs@.len(),
            attr_get(av, key@) == attr_get(av.take(i as int), key@),
        decreases i,
    {
        let ghost pre = av.take(i as int);
        assert(pre.drop_last() =~= av.take(i - 1));
        assert(pre.last() == (attrs@[i - 1].name@, attrs@[i - 1].value@));
        let name = to_lower(attrs[i - 1].name.as_str());
        if str_eq(name.as_str(), key) {
            return Some(attrs[i - 1].value.clone());
        }
        i = i - 1;
    }
    None
}

fn get_attr_or(attrs: &Vec<XmlAttr>, key: &str, default: &str) -> (r: String)
    ensures
        r@ == match attr_get(attrs_view(attrs@), key@) {
            Some(v) => v,
            None => default@,
        },
{
    match get_attr(attrs, key) {
        Some(v) => v,
        None => default.to_owned(),
    }
}

fn leaf_node(tag: &str) -> (r: Option<Node>)
    ensures
        match leaf_tag(tag@) {
            Some(n) => r matches Some(x) && node_view(x) == n,
            None => r is None,
        },
{
    if str_eq(tag, "br") {
        Some(Node::Br)
    } else if str_eq(tag, "user") {
        Some(Node::User)
    } else if str_eq(tag, "host") {
        Some(Node::Host)
    } else if str_eq(tag, "hostfull") {
        Some(Node::HostFull)
    } else if str_eq(tag, "cwd") {
        Some(Node::Cwd)
    } else if str_eq(tag, "cwdbase") {
        Some(Node::CwdBase)
    } else if str_eq(tag, "symbol") {
        Some(Node::Symbol)
    } else if str_eq(tag, "jobs") {
        Some(Node::Jobs)
    } else if str_eq(tag, "exitcode") {
        Some(Node::ExitCode)
    } else if str_eq(tag, "reset") {
        Some(Node::Reset)
    } else {
        None
    }
}

fn style_kind(tag: &str) -> (r: Option<ContainerKind>)
    ensures
        r == style_tag(tag@),
{
    if str_eq(tag, "bold") || str_eq(tag, "b") {
        Some(ContainerKind::Bold)
    } else if str_eq(tag, "underline") || str_eq(tag, "u") {
        Some(ContainerKind::Underline)
    } else if str_eq(tag, "italic") || str_eq(tag, "i") {
        Some(ContainerKind::Italic)
    } else {
        None
    }
}

/// The tag name of a container kind, as error messages show it.
pub open spec fn kind_name(k: ContainerKind) -> Seq<char> {
    match k {
        ContainerKind::Bold => "bold"@,
        ContainerKind::Underline => "underline"@,
        ContainerKind::Italic => "italic"@,
        ContainerKind::Color => "color"@,
    }
}

impl ContainerKind {
    fn name(self) -> (r: &'static str)
        ensures
            r@ == kind_name(self),
    {
        match self {
            ContainerKind::Bold => "bold",
            ContainerKind::Underline => "underline",
            ContainerKind::Italic => "italic",
            ContainerKind::Color => "color",
        }
    }
}

/// Whether text is whitespace only with a line break in it.
fn whitespace_only_with_newline(data: &str) -> (r: bool)
    ensures
        r == formatting_only(data@),
{
    let mut has_newline = false;
    for c in it: data.chars()
        invariant
            it.seq() == data@,
            forall|j: int| 0 <= j < it.index() ==> is_ws(#[trigger] data@[j]),
            has_newline == data@.take(it.index() as int).contains('\n'),
    {
        let ghost i = it.index() as int;
        if !(c == ' ' || c == '\t' || c == '\r' || c == '\n' || c == '\x0c' || c == '\x0b') {
            return false;
        }
        proof {
            let pre = data@.take(i);
            let cur = data@.take(i + 1);
            assert(cur == pre.push(c));
            if cur.contains('\n') {
                let k = choose|k: int| 0 <= k < cur.len() && cur[k] == '\n';
                if k < i {
                    assert(pre[k] == '\n');
                }
            }
            if pre.contains('\n') {
                let k = choose|k: int| 0 <= k < pre.len() && pre[k] == '\n';
                assert(cur[k] == '\n');
            }
            if c == '\n' {
                assert(cur[i] == '\n');
            }
        }
        if c == '\n' {
            has_newline = true;
        }
    }
    assert(data@.take(data@.len() as int) == data@);
    has_newline
}

impl Parser {
    /// The parser is consistent: the `<psml>` depth is bounded by the number
    /// of events fed so far.
    pub closed spec fn wf(&self) -> bool {
        -(self.events_seen@ as int) <= self.psml_depth <= self.events_seen@ as int
    }

    /// The number of events fed so far.
    pub closed spec fn fed(&self) -> nat {
        self.events_seen@
    }

    /// A parser before any event.
    pub fn new() -> (p: Self)
        ensures
            p@ == initial_state(),
            p.wf(),
            p.fed() == 0,
    {
        let p = Parser {
            shell: None,
            psml_seen: false,
            psml_depth: 0,
            in_head: false,
            in_title: false,
            body_seen: false,
            in_body: false,
            title_parts: Vec::new(),
            body_root: Vec::new(),
            frame_stack: Vec::new(),
            events_seen: Ghost(0),
        };
        assert(p@.title =~= Seq::<char>::empty());
        assert(p@.body_root =~= Seq::<NodeV>::empty());
        assert(p@.frames =~= Seq::<FrameV>::empty());
        p
    }

    fn insert_node(&mut self, node: Node)
        ensures
            final(self)@ == insert_node(old(self)@, node_view(node)),
            final(self).events_seen == old(self).events_seen,
    {
        let ghost s = self@;
        let ghost nv = node_view(node);
        match self.frame_stack.pop() {
            Some(top) => {
                let mut top = top;
                let ghost old_children = top.children@;
                top.children.push(node);
                assert(top.children@.drop_last() == old_children);
                self.frame_stack.push(top);
                assert(self@.frames =~= s.frames.update(
                    s.frames.len() - 1,
                    FrameV { children: s.frames.last().children.push(nv), ..s.frames.last() },
                ));
            },
            None => {
                let ghost old_body = self.body_root@;
                self.body_root.push(node);
                assert(self.body_root@.drop_last() == old_body);
                assert(self@.body_root =~= s.body_root.push(nv));
                assert(self@.frames =~= s.frames);
            },
        }
    }

    fn open_container(&mut self, kind: ContainerKind, fg: Option<String>, bg: Option<String>)
        ensures
            final(self)@ == open_container(old(self)@, kind, opt_view(fg), opt_view(bg)),
            final(self).events_seen == old(self).events_seen,
    {
        let ghost s = self@;
        let frame = Frame { kind, fg, bg, children: Vec::new() };
        assert(nodes_view(frame.children@) =~= Seq::<NodeV>::empty());
        self.frame_stack.push(frame);
        assert(self@.frames =~= s.frames.push(
            FrameV { kind, fg: opt_view(fg), bg: opt_view(bg), children: Seq::empty() },
        ));
    }

    fn close_container(&mut self, kind: ContainerKind) -> (r: Result<(), PsmlError>)
        ensures
            r is Ok <==> close_container(old(self)@, kind) is Some,
            r is Ok ==> final(self)@ == close_container(old(self)@, kind).unwrap(),
            r matches Err(e) ==> e.0@ == close_error(kind),
            r is Err ==> final(self)@ == old(self)@,
            final(self).events_seen == old(self).events_seen,
            final(self).psml_depth == old(self).psml_depth,
    {
        let ghost s = self@;
        let n = self.frame_stack.len();
        if n > 0 && self.frame_stack[n - 1].kind == kind {
            let frame = self.frame_stack.pop().unwrap();
            assert(self@.frames =~= s.frames.drop_last());
            let node = match kind {
                ContainerKind::Bold => Node::Bold(frame.children),
                ContainerKind::Underline => Node::Underline(frame.children),
                ContainerKind::Italic => Node::Italic(frame.children),
                ContainerKind::Color => Node::Color {
                    fg: frame.fg,
                    bg: frame.bg,
                    children: frame.children,
                },
            };
            self.insert_node(node);
            Ok(())
        } else {
            Err(err_tag("неправильное вложение тегов: ожидался конец </", kind.name(), ">"))
        }
    }

    fn open_body_tag(&mut self, tag: &str, attrs: &Vec<XmlAttr>) -> (r: Result<(), PsmlError>)
        ensures
            r is Ok <==> open_body_tag(old(self)@, tag@, attrs_view(attrs@)) is Some,
            r is Ok ==> final(self)@ == open_body_tag(old(self)@, tag@, attrs_view(attrs@)).unwrap(),
            r matches Err(e) ==> e.0@ == body_tag_error(tag@, attrs_view(attrs@)),
            r is Err ==> final(self)@ == old(self)@,
            final(self).events_seen == old(self).events_seen,
            final(self).psml_depth == old(self).psml_depth,
    {
        if let Some(n) = leaf_node(tag) {
            self.insert_node(n);
            return Ok(());
        }
        if str_eq(tag, "time") {
            let mode_str = get_attr_or(attrs, "mode", "24");
            let mode = TimeMode::parse(mode_str.as_str())?;
            self.insert_node(Node::Time(mode));
            return Ok(());
        }
        if str_eq(tag, "date") {
            let fmt = get_attr(attrs, "fmt");
            self.insert_node(Node::Date(fmt));
            return Ok(());
        }
        if str_eq(tag, "git") {
            let prefix = get_attr_or(attrs, "prefix", " (");
            let suffix = get_attr_or(attrs, "suffix", ")");
            self.insert_node(Node::Git { prefix, suffix });
            return Ok(());
        }
        if str_eq(tag, "cmd") {
            match get_attr(attrs, "run") {
                Some(r) => {
                    if r.as_str().unicode_len() > 0 {
                        self.insert_node(Node::Cmd(r));
                        return Ok(());
                    }
                },
                None => {},
            }
            return Err(err_msg("<cmd> должен иметь атрибут run с shell-командой"));
        }
        if let Some(kind) = style_kind(tag) {
            self.open_container(kind, None, None);
            return Ok(());
        }
        if str_eq(tag, "color") {
            let fg = get_attr(attrs, "fg");
            let bg = get_attr(attrs, "bg");
            if fg.is_none() && bg.is_none() {
                return Err(err_msg("<color> должен иметь атрибут fg и/или bg"));
            }
            self.open_container(ContainerKind::Color, fg, bg);
            return Ok(());
        }
        Err(err_tag("неизвестный тег: <", tag, ">"))
    }

    fn open(&mut self, tag_raw: &str, attrs: &Vec<XmlAttr>) -> (r: Result<(), PsmlError>)
        requires
            old(self).psml_depth < i64::MAX,
        ensures
            r is Ok <==> spec_open(old(self)@, tag_raw@, attrs_view(attrs@)) is Some,
            r is Ok ==> final(self)@ == spec_open(old(self)@, tag_raw@, attrs_view(attrs@)).unwrap(),
            r matches Err(e) ==> e.0@ == open_error(old(self)@, tag_raw@, attrs_view(attrs@)),
            r is Err ==> final(self)@ == old(self)@,
            final(self).events_seen == old(self).events_seen,
            old(self).psml_depth <= final(self).psml_depth <= old(self).psml_depth + 1,
    {
        let tag = to_lower(tag_raw);
        let t = tag.as_str();
        if str_eq(t, "psml") {
            if self.psml_depth == 0 && !self.psml_seen {
                self.psml_seen = true;
                self.shell = get_attr(attrs, "shell");
            }
            self.psml_depth = self.psml_depth + 1;
            return Ok(());
        }
        if !self.psml_seen {
            return Err(err_tag("тег <", t, "> встречен до <psml>"));
        }
        if str_eq(t, "head") {
            self.in_head = true;
            return Ok(());
        }
        if str_eq(t, "title") {
            if !self.in_head {
                return Err(err_msg("<title> допустим только внутри <head>"));
            }
            self.in_title = true;
            return Ok(());
        }
        if str_eq(t, "body") {
            self.in_body = true;
            self.body_seen = true;
            return Ok(());
        }
        if self.in_title {
            return Err(
                err_tag("тег <", t, "> недопустим внутри <title>: <title> поддерживает только текст"),
            );
        }
        if self.in_head {
            return Err(err_tag("тег <", t, "> внутри <head> допустим только в виде <title>"));
        }
        if !self.in_body {
            return Err(err_tag("тег <", t, "> вне <body>"));
        }
        self.open_body_tag(t, attrs)
    }

    fn close(&mut self, tag_raw: &str) -> (r: Result<(), PsmlError>)
        requires
            old(self).psml_depth > i64::MIN,
        ensures
            r is Ok <==> spec_close(old(self)@, tag_raw@) is Some,
            r is Ok ==> final(self)@ == spec_close(old(self)@, tag_raw@).unwrap(),
            r matches Err(e) ==> e.0@ == spec_close_error(tag_raw@),
            r is Err ==> final(self)@ == old(self)@,
            final(self).events_seen == old(self).events_seen,
            old(self).psml_depth - 1 <= final(self).psml_depth <= old(self).psml_depth,
    {
        let tag = to_lower(tag_raw);
        let t = tag.as_str();
        if str_eq(t, "psml") {
            self.psml_depth = self.psml_depth - 1;
        } else if str_eq(t, "head") {
            self.in_head = false;
        } else if str_eq(t, "title") {
            self.in_title = false;
        } else if str_eq(t, "body") {
            self.in_body = false;
        } else if let Some(kind) = style_kind(t) {
            self.close_container(kind)?;
        } else if str_eq(t, "color") {
            self.close_container(ContainerKind::Color)?;
        }
        // Other tags (br, user, time, date, git, cmd, reset, ...) have no
        // closing form: a closing tag for them is ignored.
        Ok(())
    }

    /// A text node.  As in HTML, formatting between tags on different
    /// lines (whitespace with a line break) is dropped; a space within one
    /// line is intended and kept.
    fn text(&mut self, data: &str) -> (r: Result<(), PsmlError>)
        ensures
            r is Ok <==> spec_text(old(self)@, data@) is Some,
            r is Ok ==> final(self)@ == spec_text(old(self)@, data@).unwrap(),
            r matches Err(e) ==> e.0@ == text_error(old(self)@),
            r is Err ==> final(self)@ == old(self)@,
            final(self).events_seen == old(self).events_seen,
            final(self).psml_depth == old(self).psml_depth,
    {
        if data.unicode_len() == 0 {
            return Ok(());
        }
        if whitespace_only_with_newline(data) {
            return Ok(());
        }
        if self.in_title {
            let ghost s = self@;
            let ghost old_parts = self.title_parts@;
            self.title_parts.push(data.to_owned());
            assert(self.title_parts@.drop_last() == old_parts);
            assert(self@ == PState { title: s.title + data@, ..s });
            return Ok(());
        }
        if self.in_body {
            self.insert_node(Node::Text(data.to_owned()));
            return Ok(());
        }
        if self.in_head {
            return Err(err_msg("текст вне <title> внутри <head>"));
        }
        Err(err_msg("текст вне <body>/<title>"))
    }

    /// Feeds one event of the lexer; a self-closing tag opens and closes
    /// at once (a style tag then holds nothing).
    pub fn feed(&mut self, event: &XmlEvent) -> (r: Result<(), PsmlError>)
        requires
            old(self).wf(),
            old(self).fed() < i64::MAX,
        ensures
            final(self).wf(),
            final(self).fed() == old(self).fed() + 1,
            r is Ok <==> spec_feed(old(self)@, event_view(*event)) is Some,
            r is Ok ==> final(self)@ == spec_feed(old(self)@, event_view(*event)).unwrap(),
            r matches Err(e) ==> e.0@ == feed_error(old(self)@, event_view(*event)),
            r is Err ==> final(self)@ == old(self)@,
    {
        let r = match event {
            XmlEvent::Start { name, attrs } => self.open(name.as_str(), attrs),
            XmlEvent::Empty { name, attrs } => {
                match self.open(name.as_str(), attrs) {
                    Ok(()) => {
                        proof {
                            lemma_open_then_close(old(self)@, name@, attrs_view(attrs@));
                        }
                        self.close(name.as_str())
                    },
                    Err(e) => Err(e),
                }
            },
            XmlEvent::End { name } => self.close(name.as_str()),
            XmlEvent::Text(t) => self.text(t.as_str()),
            XmlEvent::Other => Ok(()),
        };
        self.events_seen = Ghost(self.events_seen@ + 1);
        r
    }

    /// The document, once every event has been fed.
    pub fn finish(self) -> (r: Result<Document, PsmlError>)
        ensures
            r is Ok <==> spec_finish(self@) is Some,
            r matches Ok(d) ==> d@ == spec_finish(self@).unwrap(),
            r matches Err(e) ==> e.0@ == finish_error(self@),
    {
        if !self.psml_seen {
            return Err(err_msg("не найден корневой тег <psml>"));
        }
        if self.psml_depth != 0 {
            return Err(err_msg("тег <psml> не закрыт"));
        }
        if !self.body_seen {
            return Err(err_msg("не найден тег <body>"));
        }
        if self.frame_stack.len() > 0 {
            return Err(err_msg("остались незакрытые стилевые теги"));
        }
        let title = concat_parts(&self.title_parts);
        Ok(Document { shell: self.shell, title, body: self.body_root })
    }
}

fn concat_parts(parts: &Vec<String>) -> (r: String)
    ensures
        r@ == parts_concat(parts@),
{
    let mut out = String::new();
    for i in 0..parts.len()
        invariant
            out@ == parts_concat(parts@.take(i as int)),
    {
        assert(parts@.take(i + 1).drop_last() == parts@.take(i as int));
        push_str(&mut out, parts[i].as_str());
    }
    assert(parts@.take(parts@.len() as int) == parts@);
    out
}


/// A run that fails on a prefix fails.
pub proof fn lemma_run_prefix_none(s: PState, es: Seq<XmlEventV>, i: int)
    requires
        0 <= i <= es.len(),
        spec_run(s, es.take(i)) is None,
    ensures
        spec_run(s, es) is None,
    decreases es.len() - i,
{
    if i < es.len() {
        assert(es.take(i + 1).drop_last() == es.take(i));
        lemma_run_prefix_none(s, es, i + 1);
    } else {
        assert(es.take(i) == es);
    }
}

/// Builds the document that a list of lexer events describes.
pub fn parse_events(events: &Vec<XmlEvent>) -> (r: Result<Document, PsmlError>)
    requires
        events@.len() < i64::MAX,
    ensures
        r is Ok <==> spec_parse_events(events_view(events@)) is Some,
        r matches Ok(d) ==> d@ == spec_parse_events(events_view(events@)).unwrap(),
        r matches Err(e) ==> e.0@ == parse_events_error(events_view(events@)),
{
    let ghost ev = events_view(events@);
    let mut p = Parser::new();
    for i in 0..events.len()
        invariant
            ev == events_view(events@),
            events@.len() < i64::MAX,
            p.wf(),
            p.fed() == i,
            spec_run(initial_state(), ev.take(i as int)) == Some(p@),
    {
        assert(ev.take(i + 1).drop_last() == ev.take(i as int));
        assert(ev.take(i + 1).last() == event_view(events@[i as int]));
        let r = p.feed(&events[i]);
        if r.is_err() {
            proof {
                lemma_run_error_prefix(ev, i + 1);
            }
            return Err(r.unwrap_err());
        }
    }
    assert(ev.take(events@.len() as int) == ev);
    p.finish()
}

// ---------------------------------------------------------------------------
// What the lexer reads from a text
// ---------------------------------------------------------------------------

/// The attributes that an attribute iterator gives, as (key, decoded
/// value), in order; `None` when the iterator refuses an attribute or a
/// value does not decode.
pub open spec fn lex_attrs(it: Attributes) -> Option<Seq<(Seq<char>, Seq<char>)>>
    decreases attributes_rest(it).len(),
{
    let (item, next) = attribute_next(it);
    match item {
        None => Some(Seq::empty()),
        Some(Err(_)) => None,
        Some(Ok(a)) => if attributes_rest(next).len() < attributes_rest(it).len() {
            match (attribute_value_text(a), lex_attrs(next)) {
                (Some(v), Some(rest)) => Some(seq![(attribute_key_text(a), v)] + rest),
                _ => None,
            }
        } else {
            None
        },
    }
}

/// One reader event as a plain event; `None` when its attributes or its
/// text do not read.
pub open spec fn lex_event(ev: RawEvent) -> Option<XmlEventV> {
    match ev {
        RawEvent::Start(e) => match lex_attrs(tag_attributes(e)) {
            Some(attrs) => Some(XmlEventV::Start { name: start_tag_name(e), attrs }),
            None => None,
        },
        RawEvent::Empty(e) => match lex_attrs(tag_attributes(e)) {
            Some(attrs) => Some(XmlEventV::Empty { name: start_tag_name(e), attrs }),
            None => None,
        },
        RawEvent::End(e) => Some(XmlEventV::End { name: end_tag_name(e) }),
        RawEvent::Text(t) => match text_value(t) {
            Some(s) => Some(XmlEventV::Text(s)),
            None => None,
        },
        RawEvent::Eof => Some(XmlEventV::Other),
        RawEvent::Other => Some(XmlEventV::Other),
    }
}

/// The plain events that a reader gives up to its end, and whether a
/// lexer error (of the reader, an attribute or an entity) stopped it
/// first.
pub open spec fn lex_from(r: Reader<&[u8]>) -> (Seq<XmlEventV>, bool)
    decreases reader_rest(r).len(),
{
    let (res, next) = read_next(r);
    match res {
        Err(_) => (Seq::empty(), true),
        Ok(RawEvent::Eof) => (Seq::empty(), false),
        Ok(ev) => match lex_event(ev) {
            None => (Seq::empty(), true),
            Some(x) => if reader_rest(next).len() < reader_rest(r).len() {
                let rest = lex_from(next);
                (seq![x] + rest.0, rest.1)
            } else {
                (Seq::empty(), true)
            },
        },
    }
}

/// What the lexer reads from a PSML text: its events, in order, and
/// whether a lexer error stopped it before the end.
pub open spec fn xml_lex(text: Seq<char>) -> (Seq<XmlEventV>, bool) {
    lex_from(fresh_reader(text))
}

fn lex_error(prefix: &str, detail: String) -> (r: PsmlError)
    ensures
        r.0@ == prefix@ + detail@,
{
    let mut m = String::new();
    push_str(&mut m, prefix);
    push_str(&mut m, detail.as_str());
    PsmlError(m)
}

/// The attributes of a tag, in order, with entities in values decoded.
/// They are what [`lex_attrs`] says of the tag's attribute iterator.
fn read_attrs(start: &BytesStart) -> (r: Result<Vec<XmlAttr>, PsmlError>)
    ensures
        r is Ok <==> lex_attrs(tag_attributes(*start)) is Some,
        r matches Ok(v) ==> attrs_view(v@) == lex_attrs(tag_attributes(*start)).unwrap(),
{
    let mut attrs: Vec<XmlAttr> = Vec::new();
    let mut it = start_attributes(start);
    loop
        invariant
            lex_attrs(tag_attributes(*start)) == match lex_attrs(it) {
                Some(rest) => Some(attrs_view(attrs@) + rest),
                None => None::<Seq<(Seq<char>, Seq<char>)>>,
            },
        decreases attributes_rest(it).len(),
    {
        let ghost before = it;
        match next_attribute(&mut it) {
            None => {
                assert(attrs_view(attrs@) + Seq::empty() == attrs_view(attrs@));
                return Ok(attrs);
            },
            Some(Err(e)) => return Err(lex_error("некорректный атрибут: ", attr_error_text(&e))),
            Some(Ok(a)) => {
                let name = attribute_key(&a);
                let value = match attribute_value(&a) {
                    Ok(v) => v,
                    Err(e) => {
                        return Err(lex_error("некорректное значение атрибута: ", xml_error_text(&e)));
                    },
                };
                let ghost old_attrs = attrs@;
                attrs.push(XmlAttr { name, value });
                proof {
                    assert(attrs_view(attrs@) == attrs_view(old_attrs).push((name@, value@)));
                    match lex_attrs(it) {
                        Some(rest) => {
                            assert(attrs_view(old_attrs) + (seq![(name@, value@)] + rest)
                                == attrs_view(attrs@) + rest);
                        },
                        None => {},
                    }
                }
            },
        }
    }
}

/// Reads the next event of the lexer as a plain event: `Ok(None)` at the
/// end, an error where the reader, an attribute or an entity fails.
fn next_event(reader: &mut Reader<&[u8]>) -> (r: Result<Option<XmlEvent>, PsmlError>)
    ensures
        match r {
            Err(_) => lex_from(*old(reader)) == (Seq::<XmlEventV>::empty(), true),
            Ok(None) => lex_from(*old(reader)) == (Seq::<XmlEventV>::empty(), false),
            Ok(Some(ev)) => {
                &&& reader_rest(*final(reader)).len() < reader_rest(*old(reader)).len()
                &&& lex_from(*old(reader)) == (
                    seq![event_view(ev)] + lex_from(*final(reader)).0,
                    lex_from(*final(reader)).1,
                )
            },
        },
{
    let raw = match xml_read_event(reader) {
        Ok(e) => e,
        Err(e) => return Err(lex_error("ошибка разбора PSML: ", xml_error_text(&e))),
    };
    let event = match raw {
        RawEvent::Eof => return Ok(None),
        RawEvent::Start(e) => {
            let name = start_name(&e);
            let attrs = read_attrs(&e)?;
            XmlEvent::Start { name, attrs }
        },
        RawEvent::Empty(e) => {
            // A self-closing tag opens and closes at once: a style tag
            // then gives a node without children.
            let name = start_name(&e);
            let attrs = read_attrs(&e)?;
            XmlEvent::Empty { name, attrs }
        },
        RawEvent::End(e) => XmlEvent::End { name: end_name(&e) },
        RawEvent::Text(t) => match text_unescape(&t) {
            Ok(s) => XmlEvent::Text(s),
            Err(e) => return Err(lex_error("ошибка текста PSML: ", xml_error_text(&e))),
        },
        // Comments, doctype, processing instructions, CDATA: ignored.
        RawEvent::Other => XmlEvent::Other,
    };
    Ok(Some(event))
}

/// The message where [`parse_psml`] refuses a text, `None` where it is the
/// lexer's own message (which is not stated): the parser's message when it
/// refuses one of the events read before any lexer error, or when the
/// events end in a state that is not a document.
pub open spec fn parse_error(text: Seq<char>) -> Option<Seq<char>> {
    let (es, lex_failed) = xml_lex(text);
    if spec_run(initial_state(), es) is None {
        Some(run_error(es))
    } else if lex_failed {
        None
    } else {
        Some(finish_error(spec_run(initial_state(), es).unwrap()))
    }
}

/// Parses PSML text into a [`Document`].  Nothing here knows a shell:
/// `doc.shell` is the raw value of `<psml shell="...">` (or `None`); the
/// shell name is interpreted by [`crate::render::resolve_shell`].
///
/// The text is lexed by `quick_xml` and every event goes through
/// [`Parser::feed`]; a lexer error, or the first event that the parser
/// refuses, ends it with an error.  The result is the document that the
/// events of [`xml_lex`] describe.
pub fn parse_psml(text: &str) -> (r: Result<Document, PsmlError>)
    ensures
        r is Ok <==> !xml_lex(text@).1 && spec_parse_events(xml_lex(text@).0) is Some,
        r matches Ok(d) ==> d@ == spec_parse_events(xml_lex(text@).0).unwrap(),
        r matches Err(e) ==> (parse_error(text@) matches Some(m) ==> e.0@ == m),
{
    let mut reader = xml_reader(text);
    let ghost total = reader_rest(reader).len();
    let mut p = Parser::new();
    let ghost mut seen: Seq<XmlEventV> = Seq::empty();
    assert(seen + lex_from(reader).0 == lex_from(reader).0);
    loop
        invariant
            total <= isize::MAX,
            p.wf(),
            p.fed() == seen.len(),
            p.fed() + reader_rest(reader).len() <= total,
            spec_run(initial_state(), seen) == Some(p@),
            xml_lex(text@) == (seen + lex_from(reader).0, lex_from(reader).1),
        decreases reader_rest(reader).len(),
    {
        let ghost before = reader;
        let event = match next_event(&mut reader) {
            Err(e) => {
                assert(seen + Seq::<XmlEventV>::empty() == seen);
                return Err(e);
            },
            Ok(None) => {
                let r = p.finish();
                assert(seen + Seq::<XmlEventV>::empty() == seen);
                assert(spec_parse_events(seen) == spec_finish(p@));
                return r;
            },
            Ok(Some(ev)) => ev,
        };
        let ghost x = event_view(event);
        proof {
            assert(seen + (seq![x] + lex_from(reader).0) == seen.push(x) + lex_from(reader).0);
            assert(seen.push(x).drop_last() == seen);
        }
        let fed = p.feed(&event);
        if fed.is_err() {
            proof {
                let full = xml_lex(text@).0;
                assert(full.take(seen.len() as int + 1) == seen.push(x));
                lemma_run_error_prefix(full, seen.len() as int + 1);
            }
            return Err(fed.unwrap_err());
        }
        proof {
            seen = seen.push(x);
        }
    }
}

/// The `shell` attribute that the parser takes from `<psml>`, read from the
/// first events of a sequence: found once a run of a prefix has seen
/// `<psml>` (`Some` of the attribute, itself an `Option`), not found when
/// the events end, or a prefix is refused, before that.
pub open spec fn peek_events(es: Seq<XmlEventV>) -> Option<Option<Seq<char>>>
    decreases es.len(),
{
    if es.len() == 0 {
        None
    } else {
        match peek_events(es.drop_last()) {
            Some(x) => Some(x),
            None => match spec_run(initial_state(), es) {
                Some(s) => if s.psml_seen {
                    Some(s.shell)
                } else {
                    None
                },
                None => None,
            },
        }
    }
}

/// The `shell` attribute of `<psml>` in a text, as far as the lexer and
/// the parser get before they stop.
pub open spec fn peek_shell(text: Seq<char>) -> Option<Seq<char>> {
    match peek_events(xml_lex(text).0) {
        Some(x) => x,
        None => None,
    }
}

/// What [`peek_events`] finds in a prefix, it finds in the whole.
proof fn lemma_peek_prefix(es: Seq<XmlEventV>, i: int)
    requires
        0 <= i <= es.len(),
        peek_events(es.take(i)) is Some,
    ensures
        peek_events(es) == peek_events(es.take(i)),
    decreases es.len() - i,
{
    if i < es.len() {
        assert(es.take(i + 1).drop_last() == es.take(i));
        lemma_peek_prefix(es, i + 1);
    } else {
        assert(es.take(i) == es);
    }
}

/// Where a prefix is refused before `<psml>` is found, nothing is found.
proof fn lemma_peek_none_after(es: Seq<XmlEventV>, i: int)
    requires
        0 <= i <= es.len(),
        peek_events(es.take(i)) is None,
        spec_run(initial_state(), es.take(i)) is None,
    ensures
        peek_events(es) is None,
    decreases es.len() - i,
{
    if i < es.len() {
        assert(es.take(i + 1).drop_last() == es.take(i));
        assert(es.take(i + 1).take(i) == es.take(i));
        lemma_run_prefix_none(initial_state(), es.take(i + 1), i);
        lemma_peek_none_after(es, i + 1);
    } else {
        assert(es.take(i) == es);
    }
}

/// Once `<psml>` is seen, it stays seen and the shell stays as it was.
proof fn lemma_feed_keeps_shell(s: PState, e: XmlEventV)
    requires
        s.psml_seen,
        spec_feed(s, e) is Some,
    ensures
        spec_feed(s, e).unwrap().psml_seen,
        spec_feed(s, e).unwrap().shell == s.shell,
{
}

/// The shell that the events give to the parser is what [`peek_events`]
/// finds: nothing while `<psml>` is not seen, its attribute once it is.
pub proof fn lemma_peek_events(es: Seq<XmlEventV>)
    requires
        spec_run(initial_state(), es) is Some,
    ensures
        ({
            let s = spec_run(initial_state(), es).unwrap();
            if s.psml_seen {
                peek_events(es) == Some(s.shell)
            } else {
                peek_events(es) is None
            }
        }),
    decreases es.len(),
{
    if es.len() > 0 {
        let s1 = spec_run(initial_state(), es.drop_last()).unwrap();
        lemma_peek_events(es.drop_last());
        if s1.psml_seen {
            lemma_feed_keeps_shell(s1, es.last());
        }
    }
}

/// A parsed document's shell attribute is the one that the first events
/// give.
pub proof fn lemma_parsed_shell_is_peeked(text: Seq<char>)
    requires
        !xml_lex(text).1,
        spec_parse_events(xml_lex(text).0) is Some,
    ensures
        spec_parse_events(xml_lex(text).0).unwrap().shell == peek_shell(text),
{
    lemma_peek_events(xml_lex(text).0);
}

/// Reads the `shell` attribute of `<psml>` without building the whole
/// document: events go through the parser only until `<psml>` is seen.
/// `None` when there is no such attribute, or when the lexer or the parser
/// stops before `<psml>`.
pub fn peek_shell_attr(text: &str) -> (r: Option<String>)
    ensures
        opt_view(r) == peek_shell(text@),
{
    let mut reader = xml_reader(text);
    let ghost total = reader_rest(reader).len();
    let mut p = Parser::new();
    let ghost mut seen: Seq<XmlEventV> = Seq::empty();
    assert(seen + lex_from(reader).0 == lex_from(reader).0);
    loop
        invariant
            total <= isize::MAX,
            p.wf(),
            p.fed() == seen.len(),
            p.fed() + reader_rest(reader).len() <= total,
            spec_run(initial_state(), seen) == Some(p@),
            !p@.psml_seen,
            peek_events(seen) is None,
            xml_lex(text@) == (seen + lex_from(reader).0, lex_from(reader).1),
        decreases reader_rest(reader).len(),
    {
        let ghost before = reader;
        let event = match next_event(&mut reader) {
            Ok(Some(ev)) => ev,
            _ => {
                proof {
                    assert(seen + Seq::<XmlEventV>::empty() == seen);
                }
                return None;
            },
        };
        let ghost x = event_view(event);
        proof {
            assert(seen + (seq![x] + lex_from(reader).0) == seen.push(x) + lex_from(reader).0);
            assert(seen.push(x).drop_last() == seen);
        }
        let fed = p.feed(&event);
        let ghost full = xml_lex(text@).0;
        proof {
            assert(full.take(seen.len() as int + 1) == seen.push(x));
        }
        if fed.is_err() {
            proof {
                lemma_peek_none_after(full, seen.len() as int + 1);
            }
            return None;
        }
        proof {
            seen = seen.push(x);
        }
        if p.psml_seen {
            proof {
                lemma_peek_prefix(full, seen.len() as int);
            }
            return match &p.shell {
                Some(s) => Some(s.clone()),
                None => None,
            };
        }
    }
}

} // verus!
