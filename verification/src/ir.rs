//! The shell-agnostic tree of a PSML document.

use vstd::prelude::*;

use crate::text::{debug_quoted, debug_str, push_str, str_eq};

verus! {

/// An error of PSML, shared by parsing and rendering.
#[derive(Debug, Clone, PartialEq, Eq)]
pub struct PsmlError(pub String);

/// The mode of a `<time mode="...">` tag.
#[derive(Debug, Clone, Copy, PartialEq, Eq, Structural)]
pub enum TimeMode {
    H24,
    H12,
    AmPm,
    H24Short,
}

/// The mode named by a `<time mode="...">` value, if any.
pub open spec fn time_mode_of(s: Seq<char>) -> Option<TimeMode> {
    if s == "24"@ {
        Some(TimeMode::H24)
    } else if s == "12"@ {
        Some(TimeMode::H12)
    } else if s == "ampm"@ {
        Some(TimeMode::AmPm)
    } else if s == "24short"@ {
        Some(TimeMode::H24Short)
    } else {
        None
    }
}

/// The strftime format of a time mode.
pub open spec fn time_strftime(m: TimeMode) -> Seq<char> {
    match m {
        TimeMode::H24 => "%H:%M:%S"@,
        TimeMode::H12 => "%I:%M:%S"@,
        TimeMode::AmPm => "%I:%M %p"@,
        TimeMode::H24Short => "%H:%M"@,
    }
}

/// The message for an unknown `<time mode>`.
pub open spec fn time_mode_error(s: Seq<char>) -> Seq<char> {
    "<time mode=...>: неизвестный режим "@ + debug_quoted(s)
}

/// The strftime format of `<date/>` without `fmt`: weekday, month, day.
pub const DEFAULT_DATE_FMT: &'static str = "%a %b %d";

impl TimeMode {
    /// Reads the value of `<time mode="...">`.
    pub fn parse(s: &str) -> (r: Result<Self, PsmlError>)
        ensures
            r is Ok <==> time_mode_of(s@) is Some,
            r matches Ok(m) ==> time_mode_of(s@) == Some(m),
            r matches Err(e) ==> e.0@ == time_mode_error(s@),
    {
        if str_eq(s, "24") {
            Ok(TimeMode::H24)
        } else if str_eq(s, "12") {
            Ok(TimeMode::H12)
        } else if str_eq(s, "ampm") {
            Ok(TimeMode::AmPm)
        } else if str_eq(s, "24short") {
            Ok(TimeMode::H24Short)
        } else {
            let mut msg = String::new();
            push_str(&mut msg, "<time mode=...>: неизвестный режим ");
            let q = debug_str(s);
            push_str(&mut msg, q.as_str());
            Err(PsmlError(msg))
        }
    }

    /// The strftime format that shows the time in this mode.
    pub fn strftime_fmt(self) -> (r: &'static str)
        ensures
            r@ == time_strftime(self),
    {
        match self {
            TimeMode::H24 => "%H:%M:%S",
            TimeMode::H12 => "%I:%M:%S",
            TimeMode::AmPm => "%I:%M %p",
            TimeMode::H24Short => "%H:%M",
        }
    }
}

/// One node of the prompt tree.  Container variants hold their children.
#[derive(Debug, PartialEq, Eq)]
pub enum Node {
    Text(String),
    Br,
    User,
    Host,
    HostFull,
    Cwd,
    CwdBase,
    Symbol,
    Jobs,
    ExitCode,
    Time(TimeMode),
    Date(Option<String>),
    Git { prefix: String, suffix: String },
    Cmd(String),
    Reset,
    Bold(Vec<Node>),
    Underline(Vec<Node>),
    Italic(Vec<Node>),
    Color { fg: Option<String>, bg: Option<String>, children: Vec<Node> },
}

/// The mathematical value of a [`Node`].
pub enum NodeV {
    Text(Seq<char>),
    Br,
    User,
    Host,
    HostFull,
    Cwd,
    CwdBase,
    Symbol,
    Jobs,
    ExitCode,
    Time(TimeMode),
    Date(Option<Seq<char>>),
    Git { prefix: Seq<char>, suffix: Seq<char> },
    Cmd(Seq<char>),
    Reset,
    Bold(Seq<NodeV>),
    Underline(Seq<NodeV>),
    Italic(Seq<NodeV>),
    Color { fg: Option<Seq<char>>, bg: Option<Seq<char>>, children: Seq<NodeV> },
}

pub open spec fn opt_view(o: Option<String>) -> Option<Seq<char>> {
    match o {
        Some(s) => Some(s@),
        None => None,
    }
}

pub open spec fn node_view(n: Node) -> NodeV
    decreases n, 1nat,
{
    match n {
        Node::Text(s) => NodeV::Text(s@),
        Node::Br => NodeV::Br,
        Node::User => NodeV::User,
        Node::Host => NodeV::Host,
        Node::HostFull => NodeV::HostFull,
        Node::Cwd => NodeV::Cwd,
        Node::CwdBase => NodeV::CwdBase,
        Node::Symbol => NodeV::Symbol,
        Node::Jobs => NodeV::Jobs,
        Node::ExitCode => NodeV::ExitCode,
        Node::Time(m) => NodeV::Time(m),
        Node::Date(f) => NodeV::Date(opt_view(f)),
        Node::Git { prefix, suffix } => NodeV::Git { prefix: prefix@, suffix: suffix@ },
        Node::Cmd(r) => NodeV::Cmd(r@),
        Node::Reset => NodeV::Reset,
        Node::Bold(c) => NodeV::Bold(nodes_view(c@)),
        Node::Underline(c) => NodeV::Underline(nodes_view(c@)),
        Node::Italic(c) => NodeV::Italic(nodes_view(c@)),
        Node::Color { fg, bg, children } => NodeV::Color {
            fg: opt_view(fg),
            bg: opt_view(bg),
            children: nodes_view(children@),
        },
    }
}

pub open spec fn nodes_view(s: Seq<Node>) -> Seq<NodeV>
    decreases s, 0nat,
{
    if s.len() == 0 {
        Seq::empty()
    } else {
        nodes_view(s.drop_last()).push(node_view(s.last()))
    }
}

/// Whether a node runs a command when the prompt is drawn (`<git/>` or
/// `<cmd run>`, at any depth).
pub open spec fn runs_command(n: NodeV) -> bool
    decreases n, 1nat,
{
    match n {
        NodeV::Git { .. } => true,
        NodeV::Cmd(_) => true,
        NodeV::Bold(c) => any_runs_command(c),
        NodeV::Underline(c) => any_runs_command(c),
        NodeV::Italic(c) => any_runs_command(c),
        NodeV::Color { children, .. } => any_runs_command(children),
        _ => false,
    }
}

/// Whether some node of a sequence runs a command.
pub open spec fn any_runs_command(ns: Seq<NodeV>) -> bool
    decreases ns, 0nat,
{
    if ns.len() == 0 {
        false
    } else {
        any_runs_command(ns.drop_last()) || runs_command(ns.last())
    }
}

/// A parsed PSML document: the window title (text only), the prompt body
/// and the optional shell named by `<psml shell="...">`.
#[derive(Debug, PartialEq, Eq)]
pub struct Document {
    pub shell: Option<String>,
    pub title: String,
    pub body: Vec<Node>,
}

/// The mathematical value of a [`Document`].
pub struct DocV {
    pub shell: Option<Seq<char>>,
    pub title: Seq<char>,
    pub body: Seq<NodeV>,
}

impl View for Document {
    type V = DocV;

    open spec fn view(&self) -> DocV {
        DocV { shell: opt_view(self.shell), title: self.title@, body: nodes_view(self.body@) }
    }
}

impl Default for Document {
    fn default() -> (d: Self)
        ensures
            d.shell is None,
            d.title@ == Seq::<char>::empty(),
            d.body@ == Seq::<Node>::empty(),
    {
        Document { shell: None, title: String::new(), body: Vec::new() }
    }
}

/// `nodes_view` of a prefix one longer.
pub proof fn lemma_nodes_view_push(s: Seq<Node>, i: int)
    requires
        0 <= i < s.len(),
    ensures
        nodes_view(s.take(i + 1)) == nodes_view(s.take(i)).push(node_view(s[i])),
{
    assert(s.take(i + 1).drop_last() == s.take(i));
}

/// `nodes_view` commutes with taking a prefix.
pub proof fn lemma_nodes_view_take(s: Seq<Node>, i: int)
    requires
        0 <= i <= s.len(),
    ensures
        nodes_view(s.take(i)) == nodes_view(s).take(i),
{
    lemma_nodes_view_index(s);
    lemma_nodes_view_index(s.take(i));
    assert(nodes_view(s.take(i)) =~= nodes_view(s).take(i));
}

/// `nodes_view` keeps the length and maps each element.
pub proof fn lemma_nodes_view_index(s: Seq<Node>)
    ensures
        nodes_view(s).len() == s.len(),
        forall|i: int| 0 <= i < s.len() ==> #[trigger] nodes_view(s)[i] == node_view(s[i]),
    decreases s.len(),
{
    if s.len() > 0 {
        lemma_nodes_view_index(s.drop_last());
    }
}

} // verus!
