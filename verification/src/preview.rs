//! Preview: renders a [`Document`] not into a shell script but straight
//! into ANSI text with live values, to see the prompt at once without
//! editing a shell's config.
//!
//! Unlike a backend, it does everything now, once.  The live values
//! (user, host, directory, time, date, git branch, the output of
//! `<cmd run>`) come from the machine: [`preview_requests`] lists the date
//! formats and commands that a document needs, the caller runs them and
//! hands the raw outputs over in a [`PreviewEnv`].  `<jobs/>` and
//! `<exitcode/>` belong to an interactive shell session, not to this
//! process: a fixed example (`0`) stands there, and a note after the output
//! says so when they occur.

use vstd::prelude::*;

use crate::ir::{
    lemma_nodes_view_index, lemma_nodes_view_push, lemma_nodes_view_take, node_view, nodes_view,
    opt_view, time_strftime, DocV, Document, Node, NodeV, PsmlError, DEFAULT_DATE_FMT,
};
use crate::render::util::{close_codes, open_codes, raw_sgr, sgr, sgr_close, sgr_open};
use crate::text::{push_str, str_eq};
use vstd::string::StrSliceExecFns;

verus! {

/// A key (a date format or a command) and the raw standard output that
/// running it gave (`None` when it could not be run).
pub struct Answer {
    pub key: String,
    pub output: Option<String>,
}

/// The raw observations of the machine that a preview shows.  Every
/// `Option<String>` is the raw standard output of a command (or the value
/// of a variable), `None` when there was none.
pub struct PreviewEnv {
    /// `$USER`, else `$USERNAME`.
    pub user_var: Option<String>,
    /// `whoami`.
    pub whoami: Option<String>,
    /// `hostname`.
    pub hostname: Option<String>,
    /// `hostname -f`.
    pub hostname_full: Option<String>,
    /// The current directory, as text.
    pub cwd: Option<String>,
    /// `$HOME`.
    pub home: Option<String>,
    /// The last component of the current directory.
    pub cwd_name: Option<String>,
    /// `id -u`.
    pub uid: Option<String>,
    /// `git symbolic-ref --short HEAD`, else `git rev-parse --short HEAD`.
    pub git_branch: Option<String>,
    /// `date +FMT` for each date format of the document.
    pub dates: Vec<Answer>,
    /// `sh -c RUN` for each command of the document.
    pub commands: Vec<Answer>,
}

/// `s` without its trailing line breaks.
pub open spec fn trim_newlines(s: Seq<char>) -> Seq<char>
    decreases s.len(),
{
    if s.len() > 0 && s.last() == '\n' {
        trim_newlines(s.drop_last())
    } else {
        s
    }
}

/// What a captured output shows: trimmed of trailing line breaks, nothing
/// when empty.
pub open spec fn captured(o: Option<Seq<char>>) -> Option<Seq<char>> {
    match o {
        Some(s) => if trim_newlines(s).len() == 0 {
            None
        } else {
            Some(trim_newlines(s))
        },
        None => None,
    }
}

pub open spec fn or_default(o: Option<Seq<char>>, d: Seq<char>) -> Seq<char> {
    match o {
        Some(s) => s,
        None => d,
    }
}

/// The view of an answer list.
pub open spec fn answers_view(a: Seq<Answer>) -> Seq<(Seq<char>, Option<Seq<char>>)> {
    a.map_values(|x: Answer| (x.key@, opt_view(x.output)))
}

/// The first answer for `key`.
pub open spec fn lookup(a: Seq<(Seq<char>, Option<Seq<char>>)>, key: Seq<char>) -> Option<
    Option<Seq<char>>,
>
    decreases a.len(),
{
    if a.len() == 0 {
        None
    } else if a[0].0 == key {
        Some(a[0].1)
    } else {
        lookup(a.drop_first(), key)
    }
}

/// The mathematical value of a [`PreviewEnv`].
pub struct EnvV {
    pub user_var: Option<Seq<char>>,
    pub whoami: Option<Seq<char>>,
    pub hostname: Option<Seq<char>>,
    pub hostname_full: Option<Seq<char>>,
    pub cwd: Option<Seq<char>>,
    pub home: Option<Seq<char>>,
    pub cwd_name: Option<Seq<char>>,
    pub uid: Option<Seq<char>>,
    pub git_branch: Option<Seq<char>>,
    pub dates: Seq<(Seq<char>, Option<Seq<char>>)>,
    pub commands: Seq<(Seq<char>, Option<Seq<char>>)>,
}

impl View for PreviewEnv {
    type V = EnvV;

    open spec fn view(&self) -> EnvV {
        EnvV {
            user_var: opt_view(self.user_var),
            whoami: opt_view(self.whoami),
            hostname: opt_view(self.hostname),
            hostname_full: opt_view(self.hostname_full),
            cwd: opt_view(self.cwd),
            home: opt_view(self.home),
            cwd_name: opt_view(self.cwd_name),
            uid: opt_view(self.uid),
            git_branch: opt_view(self.git_branch),
            dates: answers_view(self.dates@),
            commands: answers_view(self.commands@),
        }
    }
}

/// The user name: a nonempty `$USER`/`$USERNAME`, else `whoami`, else `user`.
pub open spec fn env_user(e: EnvV) -> Seq<char> {
    match e.user_var {
        Some(u) if u.len() > 0 => u,
        _ => or_default(captured(e.whoami), "user"@),
    }
}

/// The short host name, `host` when unknown.
pub open spec fn env_host(e: EnvV) -> Seq<char> {
    or_default(captured(e.hostname), "host"@)
}

/// The full host name: `hostname -f`, else `hostname`, else `host`.
pub open spec fn env_host_full(e: EnvV) -> Seq<char> {
    match captured(e.hostname_full) {
        Some(h) => h,
        None => env_host(e),
    }
}

/// The current directory with a leading `$HOME` folded into `~`.
pub open spec fn env_cwd(e: EnvV) -> Seq<char> {
    let cwd = or_default(e.cwd, "?"@);
    match e.home {
        Some(h) => if h.len() > 0 && h.len() <= cwd.len() && cwd.take(h.len() as int) == h {
            "~"@ + cwd.skip(h.len() as int)
        } else {
            cwd
        },
        None => cwd,
    }
}

/// The last component of the current directory, `/` when there is none.
pub open spec fn env_cwd_base(e: EnvV) -> Seq<char> {
    or_default(e.cwd_name, "/"@)
}

/// Whether the user is root (`id -u` printed `0`).
pub open spec fn env_is_root(e: EnvV) -> bool {
    captured(e.uid) == Some("0"@)
}

/// The output of `date +FMT`, or `<date +FMT>` when there is none.
pub open spec fn env_date(e: EnvV, fmt: Seq<char>) -> Seq<char> {
    match lookup(e.dates, fmt) {
        Some(o) => match captured(o) {
            Some(t) => t,
            None => "<date +"@ + fmt + ">"@,
        },
        None => "<date +"@ + fmt + ">"@,
    }
}

/// The output of a command, trimmed, whatever its exit status (as a
/// `$(...)` in a live shell); empty when it could not run.
pub open spec fn env_command(e: EnvV, run: Seq<char>) -> Seq<char> {
    match lookup(e.commands, run) {
        Some(Some(o)) => trim_newlines(o),
        _ => Seq::empty(),
    }
}

/// Wraps `b` between two SGR sequences.
pub open spec fn pv_wrap(on: Seq<char>, b: Option<Seq<char>>, off: Seq<char>) -> Option<Seq<char>> {
    match b {
        Some(x) => Some(sgr(on) + x + sgr(off)),
        None => None,
    }
}

/// The preview of one node.
pub open spec fn pv_node(n: NodeV, e: EnvV) -> Option<Seq<char>>
    decreases n, 1nat,
{
    match n {
        NodeV::Text(s) => Some(s),
        NodeV::Br => Some("\n"@),
        NodeV::User => Some(env_user(e)),
        NodeV::Host => Some(env_host(e)),
        NodeV::HostFull => Some(env_host_full(e)),
        NodeV::Cwd => Some(env_cwd(e)),
        NodeV::CwdBase => Some(env_cwd_base(e)),
        NodeV::Symbol => Some(
            if env_is_root(e) {
                "#"@
            } else {
                "$"@
            },
        ),
        NodeV::Jobs => Some("0"@),
        NodeV::ExitCode => Some("0"@),
        NodeV::Reset => Some(sgr("0"@)),
        NodeV::Time(m) => Some(env_date(e, time_strftime(m))),
        NodeV::Date(f) => Some(env_date(e, or_default(f, DEFAULT_DATE_FMT@))),
        NodeV::Git { prefix, suffix } => Some(
            match captured(e.git_branch) {
                Some(b) => prefix + b + suffix,
                None => Seq::empty(),
            },
        ),
        NodeV::Cmd(run) => Some(env_command(e, run)),
        NodeV::Bold(c) => pv_wrap("1"@, pv_nodes(c, e), "22"@),
        NodeV::Underline(c) => pv_wrap("4"@, pv_nodes(c, e), "24"@),
        NodeV::Italic(c) => pv_wrap("3"@, pv_nodes(c, e), "23"@),
        NodeV::Color { fg, bg, children } => match sgr_open(fg, bg) {
            Some(o) => pv_wrap(o, pv_nodes(children, e), sgr_close(fg, bg)),
            None => None,
        },
    }
}

/// The preview of a sequence of nodes.
pub open spec fn pv_nodes(ns: Seq<NodeV>, e: EnvV) -> Option<Seq<char>>
    decreases ns, 0nat,
{
    if ns.len() == 0 {
        Some(Seq::empty())
    } else {
        match pv_nodes(ns.drop_last(), e) {
            Some(a) => match pv_node(ns.last(), e) {
                Some(b) => Some(a + b),
                None => None,
            },
            None => None,
        }
    }
}

/// Whether a node (at any depth) is `<jobs/>` or `<exitcode/>`.
pub open spec fn uses_placeholder(n: NodeV) -> bool
    decreases n, 1nat,
{
    match n {
        NodeV::Jobs => true,
        NodeV::ExitCode => true,
        NodeV::Bold(c) => any_placeholder(c),
        NodeV::Underline(c) => any_placeholder(c),
        NodeV::Italic(c) => any_placeholder(c),
        NodeV::Color { children, .. } => any_placeholder(children),
        _ => false,
    }
}

pub open spec fn any_placeholder(ns: Seq<NodeV>) -> bool
    decreases ns, 0nat,
{
    if ns.len() == 0 {
        false
    } else {
        any_placeholder(ns.drop_last()) || uses_placeholder(ns.last())
    }
}

/// The note printed after a preview that shows `<jobs/>`/`<exitcode/>`.
pub open spec fn placeholder_note() -> Seq<char> {
    "\n(значения <jobs/>/<exitcode/> выше — пример (0): они известны только живой интерактивной сессии шелла, а не этому процессу)"@
}

/// The preview of a document: the title line (if any), the prompt, and
/// the note on example values when needed.
pub open spec fn spec_preview(doc: DocV, e: EnvV) -> Option<Seq<char>> {
    match pv_nodes(doc.body, e) {
        Some(body) => Some(
            (if doc.title.len() == 0 {
                Seq::empty()
            } else {
                "Заголовок окна: "@ + doc.title + "\n"@
            }) + body + if any_placeholder(doc.body) {
                placeholder_note()
            } else {
                Seq::empty()
            },
        ),
        None => None,
    }
}

/// A sequence has no preview when one of its prefixes has none.
pub proof fn lemma_pv_nodes_prefix(s: Seq<NodeV>, i: int, e: EnvV)
    requires
        0 <= i <= s.len(),
        pv_nodes(s.take(i), e) is None,
    ensures
        pv_nodes(s, e) is None,
    decreases s.len() - i,
{
    if i < s.len() {
        assert(s.take(i + 1).drop_last() == s.take(i));
        lemma_pv_nodes_prefix(s, i + 1, e);
    } else {
        assert(s.take(i) == s);
    }
}

// ---------------------------------------------------------------------------
// What a preview needs from the machine
// ---------------------------------------------------------------------------

/// The date formats (for `<time/>` and `<date/>`) and the commands (for
/// `<cmd run>`) of a node, in document order.
pub open spec fn requests_node(n: NodeV) -> (Seq<Seq<char>>, Seq<Seq<char>>)
    decreases n, 1nat,
{
    match n {
        NodeV::Time(m) => (seq![time_strftime(m)], Seq::empty()),
        NodeV::Date(f) => (seq![or_default(f, DEFAULT_DATE_FMT@)], Seq::empty()),
        NodeV::Cmd(run) => (Seq::empty(), seq![run]),
        NodeV::Bold(c) => requests_nodes(c),
        NodeV::Underline(c) => requests_nodes(c),
        NodeV::Italic(c) => requests_nodes(c),
        NodeV::Color { children, .. } => requests_nodes(children),
        _ => (Seq::empty(), Seq::empty()),
    }
}

pub open spec fn requests_nodes(ns: Seq<NodeV>) -> (Seq<Seq<char>>, Seq<Seq<char>>)
    decreases ns, 0nat,
{
    if ns.len() == 0 {
        (Seq::empty(), Seq::empty())
    } else {
        let a = requests_nodes(ns.drop_last());
        let b = requests_node(ns.last());
        (a.0 + b.0, a.1 + b.1)
    }
}

/// The date formats and commands that a preview of `doc` needs run.
pub struct PreviewRequests {
    pub date_formats: Vec<String>,
    pub commands: Vec<String>,
}

pub open spec fn strings_view(s: Seq<String>) -> Seq<Seq<char>> {
    s.map_values(|x: String| x@)
}

fn push_string(v: &mut Vec<String>, s: String)
    ensures
        strings_view(final(v)@) == strings_view(old(v)@).push(s@),
{
    let ghost o = v@;
    v.push(s);
    assert(strings_view(v@) =~= strings_view(o).push(s@));
}

fn collect_nodes(nodes: &Vec<Node>, req: &mut PreviewRequests)
    ensures
        strings_view(final(req).date_formats@) == strings_view(old(req).date_formats@)
            + requests_nodes(nodes_view(nodes@)).0,
        strings_view(final(req).commands@) == strings_view(old(req).commands@) + requests_nodes(
            nodes_view(nodes@),
        ).1,
    decreases nodes, 0nat,
{
    let ghost d0 = strings_view(req.date_formats@);
    let ghost c0 = strings_view(req.commands@);
    for i in 0..nodes.len()
        invariant
            d0 == strings_view(old(req).date_formats@),
            c0 == strings_view(old(req).commands@),
            strings_view(req.date_formats@) == d0 + requests_nodes(nodes_view(nodes@.take(i as int))).0,
            strings_view(req.commands@) == c0 + requests_nodes(nodes_view(nodes@.take(i as int))).1,
    {
        proof {
            lemma_nodes_view_push(nodes@, i as int);
            let pre = nodes_view(nodes@.take(i as int));
            assert(pre.push(node_view(nodes@[i as int])).drop_last() == pre);
        }
        let ghost dd = strings_view(req.date_formats@);
        let ghost cc = strings_view(req.commands@);
        collect_node(&nodes[i], req);
        proof {
            let pre = requests_nodes(nodes_view(nodes@.take(i as int)));
            let b = requests_node(node_view(nodes@[i as int]));
            assert(strings_view(req.date_formats@) =~= d0 + (pre.0 + b.0));
            assert(strings_view(req.commands@) =~= c0 + (pre.1 + b.1));
        }
    }
    assert(nodes@.take(nodes@.len() as int) == nodes@);
}

fn collect_node(node: &Node, req: &mut PreviewRequests)
    ensures
        strings_view(final(req).date_formats@) == strings_view(old(req).date_formats@)
            + requests_node(node_view(*node)).0,
        strings_view(final(req).commands@) == strings_view(old(req).commands@) + requests_node(
            node_view(*node),
        ).1,
    decreases node, 1nat,
{
    let ghost d0 = strings_view(req.date_formats@);
    let ghost c0 = strings_view(req.commands@);
    match node {
        Node::Time(mode) => {
            push_string(&mut req.date_formats, mode.strftime_fmt().to_owned());
            assert(strings_view(req.date_formats@) =~= d0 + seq![time_strftime(*mode)]);
            assert(strings_view(req.commands@) =~= c0 + Seq::<Seq<char>>::empty());
        },
        Node::Date(fmt) => {
            let f = match fmt {
                Some(f) => f.clone(),
                None => DEFAULT_DATE_FMT.to_owned(),
            };
            push_string(&mut req.date_formats, f);
            assert(strings_view(req.date_formats@) =~= d0 + requests_node(node_view(*node)).0);
            assert(strings_view(req.commands@) =~= c0 + Seq::<Seq<char>>::empty());
        },
        Node::Cmd(run) => {
            push_string(&mut req.commands, run.clone());
            assert(strings_view(req.date_formats@) =~= d0 + Seq::<Seq<char>>::empty());
            assert(strings_view(req.commands@) =~= c0 + seq![run@]);
        },
        Node::Bold(c) => collect_nodes(c, req),
        Node::Underline(c) => collect_nodes(c, req),
        Node::Italic(c) => collect_nodes(c, req),
        Node::Color { children, .. } => collect_nodes(children, req),
        _ => {
            assert(strings_view(req.date_formats@) =~= d0 + Seq::<Seq<char>>::empty());
            assert(strings_view(req.commands@) =~= c0 + Seq::<Seq<char>>::empty());
        },
    }
}

/// The date formats and commands that [`render_preview`] needs answered,
/// in document order.
pub fn preview_requests(doc: &Document) -> (r: PreviewRequests)
    ensures
        strings_view(r.date_formats@) == requests_nodes(doc@.body).0,
        strings_view(r.commands@) == requests_nodes(doc@.body).1,
{
    let mut req = PreviewRequests { date_formats: Vec::new(), commands: Vec::new() };
    assert(strings_view(req.date_formats@) =~= Seq::<Seq<char>>::empty());
    assert(strings_view(req.commands@) =~= Seq::<Seq<char>>::empty());
    collect_nodes(&doc.body, &mut req);
    assert(strings_view(req.date_formats@) =~= requests_nodes(doc@.body).0);
    assert(strings_view(req.commands@) =~= requests_nodes(doc@.body).1);
    req
}


// ---------------------------------------------------------------------------
// Rendering
// ---------------------------------------------------------------------------

/// `s` without its trailing line breaks (`trim_end_matches('\n')`).
pub fn trim_newlines_exec(s: &str) -> (r: String)
    ensures
        r@ == trim_newlines(s@),
{
    let mut j = s.unicode_len();
    assert(s@.take(j as int) =~= s@);
    while j > 0 && s.get_char(j - 1) == '\n'
        invariant
            j <= s@.len(),
            trim_newlines(s@) == trim_newlines(s@.take(j as int)),
        decreases j,
    {
        assert(s@.take(j as int).drop_last() =~= s@.take(j - 1));
        j = j - 1;
    }
    assert(trim_newlines(s@.take(j as int)) == s@.take(j as int));
    s.substring_char(0, j).to_owned()
}

/// What a captured output shows (see [`captured`]).
pub fn capture_text(o: &Option<String>) -> (r: Option<String>)
    ensures
        opt_view(r) == captured(opt_view(*o)),
{
    match o {
        Some(s) => {
            let t = trim_newlines_exec(s.as_str());
            if t.as_str().unicode_len() == 0 {
                None
            } else {
                Some(t)
            }
        },
        None => None,
    }
}

fn lookup_answer(a: &Vec<Answer>, key: &str) -> (r: Option<Option<String>>)
    ensures
        match lookup(answers_view(a@), key@) {
            Some(o) => r matches Some(x) && opt_view(x) == o,
            None => r is None,
        },
{
    let ghost av = answers_view(a@);
    let mut i: usize = 0;
    assert(av.skip(0) =~= av);
    while i < a.len()
        invariant
            av == answers_view(a@),
            i <= a@.len(),
            lookup(av, key@) == lookup(av.skip(i as int), key@),
        decreases a@.len() - i,
    {
        assert(av.skip(i as int)[0] == (a@[i as int].key@, opt_view(a@[i as int].output)));
        if str_eq(a[i].key.as_str(), key) {
            return Some(a[i].output.clone());
        }
        assert(av.skip(i as int).drop_first() =~= av.skip(i + 1));
        i = i + 1;
    }
    None
}

fn has_prefix(s: &str, p: &str) -> (r: bool)
    ensures
        r == (p@.len() <= s@.len() && s@.take(p@.len() as int) == p@),
{
    let n = p.unicode_len();
    if n > s.unicode_len() {
        return false;
    }
    let mut i: usize = 0;
    while i < n
        invariant
            n == p@.len(),
            n <= s@.len(),
            i <= n,
            forall|j: int| 0 <= j < i ==> s@[j] == p@[j],
        decreases n - i,
    {
        if s.get_char(i) != p.get_char(i) {
            assert(s@.take(n as int)[i as int] != p@[i as int]);
            return false;
        }
        i = i + 1;
    }
    assert(s@.take(n as int) =~= p@);
    true
}

fn user_text(env: &PreviewEnv) -> (r: String)
    ensures
        r@ == env_user(env@),
{
    if let Some(u) = &env.user_var {
        if u.as_str().unicode_len() > 0 {
            return u.clone();
        }
    }
    match capture_text(&env.whoami) {
        Some(w) => w,
        None => "user".to_owned(),
    }
}

fn host_text(env: &PreviewEnv) -> (r: String)
    ensures
        r@ == env_host(env@),
{
    match capture_text(&env.hostname) {
        Some(h) => h,
        None => "host".to_owned(),
    }
}

fn host_full_text(env: &PreviewEnv) -> (r: String)
    ensures
        r@ == env_host_full(env@),
{
    match capture_text(&env.hostname_full) {
        Some(h) => h,
        None => host_text(env),
    }
}

fn cwd_collapsed(env: &PreviewEnv) -> (r: String)
    ensures
        r@ == env_cwd(env@),
{
    let cwd = match &env.cwd {
        Some(c) => c.clone(),
        None => "?".to_owned(),
    };
    if let Some(home) = &env.home {
        let h = home.as_str();
        if h.unicode_len() > 0 && has_prefix(cwd.as_str(), h) {
            let n = cwd.as_str().unicode_len();
            let rest = cwd.as_str().substring_char(h.unicode_len(), n);
            let mut out = String::new();
            push_str(&mut out, "~");
            push_str(&mut out, rest);
            return out;
        }
    }
    cwd
}

fn cwd_base_text(env: &PreviewEnv) -> (r: String)
    ensures
        r@ == env_cwd_base(env@),
{
    match &env.cwd_name {
        Some(n) => n.clone(),
        None => "/".to_owned(),
    }
}

fn is_root(env: &PreviewEnv) -> (r: bool)
    ensures
        r == env_is_root(env@),
{
    match capture_text(&env.uid) {
        Some(u) => str_eq(u.as_str(), "0"),
        None => false,
    }
}

fn date_text(env: &PreviewEnv, fmt: &str) -> (r: String)
    ensures
        r@ == env_date(env@, fmt@),
{
    if let Some(o) = lookup_answer(&env.dates, fmt) {
        if let Some(t) = capture_text(&o) {
            return t;
        }
    }
    let mut out = String::new();
    push_str(&mut out, "<date +");
    push_str(&mut out, fmt);
    push_str(&mut out, ">");
    out
}

fn command_text(env: &PreviewEnv, run: &str) -> (r: String)
    ensures
        r@ == env_command(env@, run@),
{
    match lookup_answer(&env.commands, run) {
        Some(Some(o)) => trim_newlines_exec(o.as_str()),
        _ => String::new(),
    }
}

fn render_nodes(nodes: &Vec<Node>, env: &PreviewEnv, out: &mut String, used: &mut bool) -> (r: Result<
    (),
    PsmlError,
>)
    ensures
        r is Ok <==> pv_nodes(nodes_view(nodes@), env@) is Some,
        r is Ok ==> final(out)@ == old(out)@ + pv_nodes(nodes_view(nodes@), env@).unwrap(),
        r is Ok ==> *final(used) == (*old(used) || any_placeholder(nodes_view(nodes@))),
    decreases nodes, 0nat,
{
    let ghost start = out@;
    let ghost u0 = *used;
    for i in 0..nodes.len()
        invariant
            pv_nodes(nodes_view(nodes@.take(i as int)), env@) is Some,
            out@ == start + pv_nodes(nodes_view(nodes@.take(i as int)), env@).unwrap(),
            *used == (u0 || any_placeholder(nodes_view(nodes@.take(i as int)))),
    {
        proof {
            lemma_nodes_view_push(nodes@, i as int);
            let pre = nodes_view(nodes@.take(i as int));
            assert(pre.push(node_view(nodes@[i as int])).drop_last() == pre);
        }
        let r = render_node(&nodes[i], env, out, used);
        if r.is_err() {
            proof {
                lemma_nodes_view_index(nodes@);
                lemma_nodes_view_take(nodes@, i + 1);
                lemma_pv_nodes_prefix(nodes_view(nodes@), i + 1, env@);
            }
            return r;
        }
    }
    assert(nodes@.take(nodes@.len() as int) == nodes@);
    Ok(())
}

fn render_node(node: &Node, env: &PreviewEnv, out: &mut String, used: &mut bool) -> (r: Result<
    (),
    PsmlError,
>)
    ensures
        r is Ok <==> pv_node(node_view(*node), env@) is Some,
        r is Ok ==> final(out)@ == old(out)@ + pv_node(node_view(*node), env@).unwrap(),
        r is Ok ==> *final(used) == (*old(used) || uses_placeholder(node_view(*node))),
    decreases node, 2nat,
{
    match node {
        Node::Text(s) => push_str(out, s.as_str()),
        Node::Br => push_str(out, "\n"),
        Node::User => {
            let u = user_text(env);
            push_str(out, u.as_str());
        },
        Node::Host => {
            let h = host_text(env);
            push_str(out, h.as_str());
        },
        Node::HostFull => {
            let h = host_full_text(env);
            push_str(out, h.as_str());
        },
        Node::Cwd => {
            let c = cwd_collapsed(env);
            push_str(out, c.as_str());
        },
        Node::CwdBase => {
            let c = cwd_base_text(env);
            push_str(out, c.as_str());
        },
        Node::Symbol => push_str(
            out,
            if is_root(env) {
                "#"
            } else {
                "$"
            },
        ),
        Node::Jobs => {
            *used = true;
            push_str(out, "0");
        },
        Node::ExitCode => {
            *used = true;
            push_str(out, "0");
        },
        Node::Reset => {
            let s = raw_sgr("0");
            push_str(out, s.as_str());
        },
        Node::Time(mode) => {
            let d = date_text(env, mode.strftime_fmt());
            push_str(out, d.as_str());
        },
        Node::Date(fmt) => {
            let d = match fmt {
                Some(f) => date_text(env, f.as_str()),
                None => date_text(env, DEFAULT_DATE_FMT),
            };
            push_str(out, d.as_str());
        },
        Node::Git { prefix, suffix } => {
            if let Some(b) = capture_text(&env.git_branch) {
                push_str(out, prefix.as_str());
                push_str(out, b.as_str());
                push_str(out, suffix.as_str());
            }
        },
        Node::Cmd(run) => {
            let c = command_text(env, run.as_str());
            push_str(out, c.as_str());
        },
        Node::Bold(children) => emit_pair(children, "1", "22", env, out, used)?,
        Node::Underline(children) => emit_pair(children, "4", "24", env, out, used)?,
        Node::Italic(children) => emit_pair(children, "3", "23", env, out, used)?,
        Node::Color { fg, bg, children } => {
            let open = open_codes(fg, bg)?;
            emit_pair(children, open.as_str(), close_codes(fg, bg), env, out, used)?;
        },
    }
    Ok(())
}

fn emit_pair(
    children: &Vec<Node>,
    on: &str,
    off: &str,
    env: &PreviewEnv,
    out: &mut String,
    used: &mut bool,
) -> (r: Result<(), PsmlError>)
    ensures
        r is Ok <==> pv_nodes(nodes_view(children@), env@) is Some,
        r is Ok ==> final(out)@ == old(out)@ + pv_wrap(on@, pv_nodes(nodes_view(children@), env@), off@).unwrap(),
        r is Ok ==> *final(used) == (*old(used) || any_placeholder(nodes_view(children@))),
    decreases children, 1nat,
{
    let s = raw_sgr(on);
    push_str(out, s.as_str());
    render_nodes(children, env, out, used)?;
    let s = raw_sgr(off);
    push_str(out, s.as_str());
    Ok(())
}

/// The preview of a document with the live values in `env`: the window
/// title on a line of its own (if any), the prompt as ANSI text, and, when
/// `<jobs/>` or `<exitcode/>` occur, a note that their `0` is an example.
pub fn render_preview(doc: &Document, env: &PreviewEnv) -> (r: Result<String, PsmlError>)
    ensures
        r is Ok <==> spec_preview(doc@, env@) is Some,
        r matches Ok(s) ==> s@ == spec_preview(doc@, env@).unwrap(),
{
    let mut out = String::new();
    if doc.title.as_str().unicode_len() != 0 {
        push_str(&mut out, "Заголовок окна: ");
        push_str(&mut out, doc.title.as_str());
        push_str(&mut out, "\n");
    }
    let mut used_placeholder = false;
    render_nodes(&doc.body, env, &mut out, &mut used_placeholder)?;
    if used_placeholder {
        push_str(
            &mut out,
            "\n(значения <jobs/>/<exitcode/> выше — пример (0): они известны только живой интерактивной сессии шелла, а не этому процессу)",
        );
    }
    Ok(out)
}

} // verus!
