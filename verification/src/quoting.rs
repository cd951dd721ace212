//! Each quoting and escaping rule of the backends reads back to the text
//! it encodes.  A reader is a small machine over the characters: a mode
//! and the characters that each step yields; `None` where the text would
//! mean something else to the shell (an interpolation, the end of the
//! string, a bare word).

use vstd::prelude::*;

use crate::render::bash::bash_subst;
use crate::render::util::{
    fish_quoted, nu_escaped, posix_quoted, powershell_escaped, powershell_quoted,
};
use crate::text::replace_char;

verus! {

broadcast use vstd::string::group_string_axioms;

/// One step of a reader: from a mode and a character to the next mode and
/// the characters it yields, `None` when the reader refuses.
pub type Step = spec_fn(int, char) -> Option<(int, Seq<char>)>;

/// Runs a reader from mode `m` over `s`: the final mode and everything
/// yielded.
pub open spec fn run(step: Step, m: int, s: Seq<char>) -> Option<(int, Seq<char>)>
    decreases s.len(),
{
    if s.len() == 0 {
        Some((m, Seq::empty()))
    } else {
        match run(step, m, s.drop_last()) {
            Some((m1, o1)) => match step(m1, s.last()) {
                Some((m2, o2)) => Some((m2, o1 + o2)),
                None => None,
            },
            None => None,
        }
    }
}

/// Running over `a + b` is running over `a`, then over `b`.
pub proof fn lemma_run_concat(step: Step, m: int, a: Seq<char>, b: Seq<char>)
    ensures
        run(step, m, a + b) == match run(step, m, a) {
            Some((m1, o1)) => match run(step, m1, b) {
                Some((m2, o2)) => Some((m2, o1 + o2)),
                None => None,
            },
            None => None,
        },
    decreases b.len(),
{
    if b.len() == 0 {
        assert(a + b =~= a);
        if let Some((m1, o1)) = run(step, m, a) {
            assert(o1 + Seq::<char>::empty() =~= o1);
        }
    } else {
        lemma_run_concat(step, m, a, b.drop_last());
        assert((a + b).drop_last() =~= a + b.drop_last());
        assert((a + b).last() == b.last());
        if let Some((m1, o1)) = run(step, m, a) {
            if let Some((m2, o2)) = run(step, m1, b.drop_last()) {
                if let Some((m3, o3)) = step(m2, b.last()) {
                    assert(o1 + o2 + o3 =~= o1 + (o2 + o3));
                }
            }
        }
    }
}

/// Every character of `s` replaced by its encoding `f(c)`.
pub open spec fn encode(s: Seq<char>, f: spec_fn(char) -> Seq<char>) -> Seq<char>
    decreases s.len(),
{
    if s.len() == 0 {
        Seq::empty()
    } else {
        encode(s.drop_last(), f) + f(s.last())
    }
}

/// The encoding that replaces `c` by `r`.
pub open spec fn replace_rule(c: char, r: Seq<char>) -> spec_fn(char) -> Seq<char> {
    |x: char|
        if x == c {
            r
        } else {
            seq![x]
        }
}

/// Replacing one character is an encoding.
pub proof fn lemma_replace_is_encode(s: Seq<char>, c: char, r: Seq<char>)
    ensures
        replace_char(s, c, r) == encode(s, replace_rule(c, r)),
    decreases s.len(),
{
    if s.len() > 0 {
        lemma_replace_is_encode(s.drop_last(), c, r);
    }
}

/// Encoding a concatenation encodes each part.
pub proof fn lemma_encode_concat(a: Seq<char>, b: Seq<char>, f: spec_fn(char) -> Seq<char>)
    ensures
        encode(a + b, f) == encode(a, f) + encode(b, f),
    decreases b.len(),
{
    if b.len() == 0 {
        assert(a + b =~= a);
        assert(encode(a, f) + Seq::<char>::empty() =~= encode(a, f));
    } else {
        lemma_encode_concat(a, b.drop_last(), f);
        assert((a + b).drop_last() =~= a + b.drop_last());
        assert(encode(a, f) + encode(b.drop_last(), f) + f(b.last()) =~= encode(a, f) + (encode(
            b.drop_last(),
            f,
        ) + f(b.last())));
    }
}

/// Encoding twice is one encoding by the composed rule.
pub proof fn lemma_encode_compose(
    s: Seq<char>,
    f: spec_fn(char) -> Seq<char>,
    g: spec_fn(char) -> Seq<char>,
)
    ensures
        encode(encode(s, f), g) == encode(s, |x: char| encode(f(x), g)),
    decreases s.len(),
{
    if s.len() > 0 {
        lemma_encode_compose(s.drop_last(), f, g);
        lemma_encode_concat(encode(s.drop_last(), f), f(s.last()), g);
    }
}

/// A reader that reads every encoded character back in mode `m` reads a
/// whole encoded text back.
pub proof fn lemma_run_encode(step: Step, m: int, s: Seq<char>, f: spec_fn(char) -> Seq<char>)
    requires
        forall|c: char| #[trigger] run(step, m, f(c)) == Some((m, seq![c])),
    ensures
        run(step, m, encode(s, f)) == Some((m, s)),
    decreases s.len(),
{
    if s.len() > 0 {
        lemma_run_encode(step, m, s.drop_last(), f);
        lemma_run_concat(step, m, encode(s.drop_last(), f), f(s.last()));
        assert(run(step, m, f(s.last())) == Some((m, seq![s.last()])));
        assert(s.drop_last() + seq![s.last()] =~= s);
    }
}

/// How a POSIX shell reads a word made of single-quoted parts and `\'`:
/// mode 0 outside quotes, 1 inside, 2 after a backslash outside.  Any
/// other character outside quotes is refused (it would not be literal).
pub open spec fn posix_reader() -> Step {
    |m: int, c: char|
        if m == 0 {
            if c == '\'' {
                Some((1int, Seq::<char>::empty()))
            } else if c == '\\' {
                Some((2int, Seq::<char>::empty()))
            } else {
                None
            }
        } else if m == 1 {
            if c == '\'' {
                Some((0int, Seq::<char>::empty()))
            } else {
                Some((1int, seq![c]))
            }
        } else {
            Some((0int, seq![c]))
        }
}

/// POSIX single quoting (`PS1='...'`, `PROMPT='...'`) reads back, in a
/// POSIX shell, as exactly the quoted text.
pub proof fn posix_quoting_reads_back(v: Seq<char>)
    ensures
        run(posix_reader(), 0, posix_quoted(v)) == Some((0int, v)),
{
    reveal_strlit("'");
    reveal_strlit("'\\''");
    let f = replace_rule('\'', "'\\''"@);
    let step = posix_reader();
    lemma_replace_is_encode(v, '\'', "'\\''"@);
    assert forall|c: char| #[trigger] run(step, 1, f(c)) == Some((1int, seq![c])) by {
        reveal_with_fuel(run, 5);
        if c == '\'' {
            assert(f(c) =~= seq!['\'', '\\', '\'', '\'']);
            assert(f(c).drop_last() =~= seq!['\'', '\\', '\'']);
            assert(f(c).drop_last().drop_last() =~= seq!['\'', '\\']);
            assert(f(c).drop_last().drop_last().drop_last() =~= seq!['\'']);
            assert(seq!['\''].drop_last() =~= Seq::<char>::empty());
            assert(Seq::<char>::empty() + Seq::<char>::empty() + Seq::<char>::empty() + seq![
                '\'',
            ] + Seq::<char>::empty() =~= seq![c]);
        } else {
            assert(f(c).drop_last() =~= Seq::<char>::empty());
            assert(Seq::<char>::empty() + seq![c] =~= seq![c]);
        }
    }
    lemma_run_encode(step, 1, v, f);
    let body = encode(v, f);
    assert(run(step, 0, "'"@) == Some((1int, Seq::<char>::empty()))) by {
        assert("'"@.drop_last() =~= Seq::<char>::empty());
    }
    assert(run(step, 1, "'"@) == Some((0int, Seq::<char>::empty()))) by {
        assert("'"@.drop_last() =~= Seq::<char>::empty());
    }
    assert(posix_quoted(v) == "'"@ + body + "'"@);
    lemma_run_concat(step, 0, "'"@, body);
    assert(run(step, 0, "'"@ + body) == Some((1int, Seq::<char>::empty() + v)));
    lemma_run_concat(step, 0, "'"@ + body, "'"@);
    assert(Seq::<char>::empty() + v =~= v);
    assert(v + Seq::<char>::empty() =~= v);
}

/// How fish reads a single-quoted string: inside, `\\` and `\'` stand for
/// `\` and `'`, a backslash before anything else is literal.  Mode 0
/// outside, 1 inside, 2 inside after a backslash.
pub open spec fn fish_reader() -> Step {
    |m: int, c: char|
        if m == 0 {
            if c == '\'' {
                Some((1int, Seq::<char>::empty()))
            } else {
                None
            }
        } else if m == 1 {
            if c == '\\' {
                Some((2int, Seq::<char>::empty()))
            } else if c == '\'' {
                Some((0int, Seq::<char>::empty()))
            } else {
                Some((1int, seq![c]))
            }
        } else if c == '\\' || c == '\'' {
            Some((1int, seq![c]))
        } else {
            Some((1int, seq!['\\', c]))
        }
}

/// Reads back a quoted text `open + encode(v, f) + close` when the reader
/// goes from mode `m0` to `m1` on `open`, reads every encoded character
/// back in mode `m1`, and goes to `m2` on `close`.
proof fn lemma_quoted_reads_back(
    step: Step,
    open: Seq<char>,
    v: Seq<char>,
    f: spec_fn(char) -> Seq<char>,
    close: Seq<char>,
    m0: int,
    m1: int,
    m2: int,
)
    requires
        run(step, m0, open) == Some((m1, Seq::<char>::empty())),
        run(step, m1, close) == Some((m2, Seq::<char>::empty())),
        forall|c: char| #[trigger] run(step, m1, f(c)) == Some((m1, seq![c])),
    ensures
        run(step, m0, open + encode(v, f) + close) == Some((m2, v)),
{
    lemma_run_encode(step, m1, v, f);
    lemma_run_concat(step, m0, open, encode(v, f));
    lemma_run_concat(step, m0, open + encode(v, f), close);
    assert(Seq::<char>::empty() + v =~= v);
    assert(v + Seq::<char>::empty() =~= v);
}

proof fn lemma_run_single(step: Step, m: int, c: char)
    ensures
        run(step, m, seq![c]) == match step(m, c) {
            Some((m2, o)) => Some((m2, Seq::<char>::empty() + o)),
            None => None,
        },
{
    assert(seq![c].drop_last() =~= Seq::<char>::empty());
    reveal_with_fuel(run, 2);
}

/// fish single quoting (`'...'` with `\\` and `\'`) reads back, in fish,
/// as exactly the quoted text.
pub proof fn fish_quoting_reads_back(v: Seq<char>)
    ensures
        run(fish_reader(), 0, fish_quoted(v)) == Some((0int, v)),
{
    reveal_strlit("'");
    reveal_strlit("\\\\");
    reveal_strlit("\\'");
    let r1 = replace_rule('\\', "\\\\"@);
    let r2 = replace_rule('\'', "\\'"@);
    let f = |x: char| encode(r1(x), r2);
    let step = fish_reader();
    lemma_replace_is_encode(v, '\\', "\\\\"@);
    lemma_replace_is_encode(replace_char(v, '\\', "\\\\"@), '\'', "\\'"@);
    lemma_encode_compose(v, r1, r2);
    assert forall|c: char| #[trigger] run(step, 1, f(c)) == Some((1int, seq![c])) by {
        reveal_with_fuel(run, 4);
        reveal_with_fuel(encode, 3);
        if c == '\\' {
            assert(r1(c) =~= seq!['\\', '\\']);
            assert(seq!['\\', '\\'].drop_last() =~= seq!['\\']);
            assert(seq!['\\'].drop_last() =~= Seq::<char>::empty());
            assert(f(c) =~= seq!['\\', '\\']);
            assert(Seq::<char>::empty() + Seq::<char>::empty() + seq!['\\'] =~= seq![c]);
        } else if c == '\'' {
            assert(r1(c) =~= seq!['\'']);
            assert(seq!['\''].drop_last() =~= Seq::<char>::empty());
            assert(f(c) =~= seq!['\\', '\'']);
            assert(seq!['\\', '\''].drop_last() =~= seq!['\\']);
            assert(seq!['\\'].drop_last() =~= Seq::<char>::empty());
            assert(Seq::<char>::empty() + Seq::<char>::empty() + seq!['\''] =~= seq![c]);
        } else {
            assert(r1(c) =~= seq![c]);
            assert(seq![c].drop_last() =~= Seq::<char>::empty());
            assert(f(c) =~= seq![c]);
            assert(Seq::<char>::empty() + seq![c] =~= seq![c]);
        }
    }
    lemma_run_single(step, 0, '\'');
    lemma_run_single(step, 1, '\'');
    assert("'"@ =~= seq!['\'']);
    lemma_quoted_reads_back(step, "'"@, v, f, "'"@, 0, 1, 0);
}

/// How PowerShell reads a single-quoted string: `''` inside stands for
/// `'`.  Mode 0 before it, 1 inside, 2 after a quote inside (the end,
/// unless another quote follows).
pub open spec fn powershell_single_reader() -> Step {
    |m: int, c: char|
        if m == 0 {
            if c == '\'' {
                Some((1int, Seq::<char>::empty()))
            } else {
                None
            }
        } else if m == 1 {
            if c == '\'' {
                Some((2int, Seq::<char>::empty()))
            } else {
                Some((1int, seq![c]))
            }
        } else if c == '\'' {
            Some((1int, seq!['\'']))
        } else {
            None
        }
}

/// PowerShell single quoting (`'...'` with `''`) reads back as exactly the
/// quoted text, ending after the closing quote.
pub proof fn powershell_single_quoting_reads_back(v: Seq<char>)
    ensures
        run(powershell_single_reader(), 0, powershell_quoted(v)) == Some((2int, v)),
{
    reveal_strlit("'");
    reveal_strlit("''");
    let f = replace_rule('\'', "''"@);
    let step = powershell_single_reader();
    lemma_replace_is_encode(v, '\'', "''"@);
    assert forall|c: char| #[trigger] run(step, 1, f(c)) == Some((1int, seq![c])) by {
        reveal_with_fuel(run, 3);
        if c == '\'' {
            assert(f(c) =~= seq!['\'', '\'']);
            assert(seq!['\'', '\''].drop_last() =~= seq!['\'']);
            assert(seq!['\''].drop_last() =~= Seq::<char>::empty());
            assert(Seq::<char>::empty() + Seq::<char>::empty() + seq!['\''] =~= seq![c]);
        } else {
            assert(f(c) =~= seq![c]);
            assert(seq![c].drop_last() =~= Seq::<char>::empty());
            assert(Seq::<char>::empty() + seq![c] =~= seq![c]);
        }
    }
    lemma_run_single(step, 0, '\'');
    lemma_run_single(step, 1, '\'');
    assert("'"@ =~= seq!['\'']);
    lemma_quoted_reads_back(step, "'"@, v, f, "'"@, 0, 1, 2);
}

/// How PowerShell reads the inside of a double-quoted string: a backtick
/// escapes the next character; a bare `"` (the end) or `$` (an
/// interpolation) is refused.  Mode 0, or 1 after a backtick.
pub open spec fn powershell_double_reader() -> Step {
    |m: int, c: char|
        if m == 0 {
            if c == '`' {
                Some((1int, Seq::<char>::empty()))
            } else if c == '"' || c == '$' {
                None
            } else {
                Some((0int, seq![c]))
            }
        } else if c == '`' || c == '"' || c == '$' {
            Some((0int, seq![c]))
        } else {
            None
        }
}

/// Literal text escaped for a PowerShell `"..."` string reads back as
/// exactly that text: it neither ends the string nor interpolates.
pub proof fn powershell_double_escaping_reads_back(v: Seq<char>)
    ensures
        run(powershell_double_reader(), 0, powershell_escaped(v)) == Some((0int, v)),
{
    reveal_strlit("``");
    reveal_strlit("`\"");
    reveal_strlit("`$");
    let r1 = replace_rule('`', "``"@);
    let r2 = replace_rule('"', "`\""@);
    let r3 = replace_rule('$', "`$"@);
    let f12 = |x: char| encode(r1(x), r2);
    let f = |x: char| encode(f12(x), r3);
    let step = powershell_double_reader();
    lemma_replace_is_encode(v, '`', "``"@);
    lemma_replace_is_encode(replace_char(v, '`', "``"@), '"', "`\""@);
    lemma_replace_is_encode(replace_char(replace_char(v, '`', "``"@), '"', "`\""@), '$', "`$"@);
    lemma_encode_compose(v, r1, r2);
    lemma_encode_compose(v, f12, r3);
    assert forall|c: char| #[trigger] run(step, 0, f(c)) == Some((0int, seq![c])) by {
        reveal_with_fuel(run, 3);
        reveal_with_fuel(encode, 3);
        assert(seq![c].drop_last() =~= Seq::<char>::empty());
        if c == '`' {
            assert(seq!['`', '`'].drop_last() =~= seq!['`']);
            assert(seq!['`'].drop_last() =~= Seq::<char>::empty());
            assert(f12(c) =~= seq!['`', '`']);
            assert(f(c) =~= seq!['`', '`']);
            assert(Seq::<char>::empty() + Seq::<char>::empty() + seq!['`'] =~= seq![c]);
        } else if c == '"' {
            assert(seq!['`', '"'].drop_last() =~= seq!['`']);
            assert(seq!['`'].drop_last() =~= Seq::<char>::empty());
            assert(f12(c) =~= seq!['`', '"']);
            assert(f(c) =~= seq!['`', '"']);
            assert(Seq::<char>::empty() + Seq::<char>::empty() + seq!['"'] =~= seq![c]);
        } else if c == '$' {
            assert(seq!['`', '$'].drop_last() =~= seq!['`']);
            assert(seq!['`'].drop_last() =~= Seq::<char>::empty());
            assert(f12(c) =~= seq!['$']);
            assert(f(c) =~= seq!['`', '$']);
            assert(Seq::<char>::empty() + Seq::<char>::empty() + seq!['$'] =~= seq![c]);
        } else {
            assert(f12(c) =~= seq![c]);
            assert(f(c) =~= seq![c]);
            assert(Seq::<char>::empty() + seq![c] =~= seq![c]);
        }
    }
    lemma_run_encode(step, 0, v, f);
}

/// How nu reads the inside of an interpolated string `$"..."`: `\`
/// escapes the next character; a bare `"` (the end) or `(` (an
/// expression) is refused.  Mode 0, or 1 after a backslash.
pub open spec fn nu_interp_reader() -> Step {
    |m: int, c: char|
        if m == 0 {
            if c == '\\' {
                Some((1int, Seq::<char>::empty()))
            } else if c == '"' || c == '(' {
                None
            } else {
                Some((0int, seq![c]))
            }
        } else if c == '\\' || c == '"' || c == '(' {
            Some((0int, seq![c]))
        } else {
            None
        }
}

/// Literal text escaped for a nu `$"..."` string reads back as exactly
/// that text: it neither ends the string nor starts an expression.
pub proof fn nu_escaping_reads_back(v: Seq<char>)
    ensures
        run(nu_interp_reader(), 0, nu_escaped(v)) == Some((0int, v)),
{
    reveal_strlit("\\\\");
    reveal_strlit("\\\"");
    reveal_strlit("\\(");
    let r1 = replace_rule('\\', "\\\\"@);
    let r2 = replace_rule('"', "\\\""@);
    let r3 = replace_rule('(', "\\("@);
    let f12 = |x: char| encode(r1(x), r2);
    let f = |x: char| encode(f12(x), r3);
    let step = nu_interp_reader();
    lemma_replace_is_encode(v, '\\', "\\\\"@);
    lemma_replace_is_encode(replace_char(v, '\\', "\\\\"@), '"', "\\\""@);
    lemma_replace_is_encode(replace_char(replace_char(v, '\\', "\\\\"@), '"', "\\\""@), '(', "\\("@);
    lemma_encode_compose(v, r1, r2);
    lemma_encode_compose(v, f12, r3);
    assert forall|c: char| #[trigger] run(step, 0, f(c)) == Some((0int, seq![c])) by {
        reveal_with_fuel(run, 3);
        reveal_with_fuel(encode, 3);
        assert(seq![c].drop_last() =~= Seq::<char>::empty());
        if c == '\\' {
            assert(seq!['\\', '\\'].drop_last() =~= seq!['\\']);
            assert(seq!['\\'].drop_last() =~= Seq::<char>::empty());
            assert(f12(c) =~= seq!['\\', '\\']);
            assert(f(c) =~= seq!['\\', '\\']);
            assert(Seq::<char>::empty() + Seq::<char>::empty() + seq!['\\'] =~= seq![c]);
        } else if c == '"' {
            assert(seq!['\\', '"'].drop_last() =~= seq!['\\']);
            assert(seq!['\\'].drop_last() =~= Seq::<char>::empty());
            assert(f12(c) =~= seq!['\\', '"']);
            assert(f(c) =~= seq!['\\', '"']);
            assert(Seq::<char>::empty() + Seq::<char>::empty() + seq!['"'] =~= seq![c]);
        } else if c == '(' {
            assert(seq!['\\', '('].drop_last() =~= seq!['\\']);
            assert(seq!['\\'].drop_last() =~= Seq::<char>::empty());
            assert(f12(c) =~= seq!['(']);
            assert(f(c) =~= seq!['\\', '(']);
            assert(Seq::<char>::empty() + Seq::<char>::empty() + seq!['('] =~= seq![c]);
        } else {
            assert(f12(c) =~= seq![c]);
            assert(f(c) =~= seq![c]);
            assert(Seq::<char>::empty() + seq![c] =~= seq![c]);
        }
    }
    lemma_run_encode(step, 0, v, f);
}

/// How a POSIX shell reads a backtick command substitution: inside, `\`
/// before `\`, `` ` `` or `$` stands for that character and is literal
/// before anything else.  Mode 0 before it, 1 inside, 2 after a backslash
/// inside, 3 after the closing backtick (nothing may follow).
pub open spec fn backtick_reader() -> Step {
    |m: int, c: char|
        if m == 0 {
            if c == '`' {
                Some((1int, Seq::<char>::empty()))
            } else {
                None
            }
        } else if m == 1 {
            if c == '\\' {
                Some((2int, Seq::<char>::empty()))
            } else if c == '`' {
                Some((3int, Seq::<char>::empty()))
            } else {
                Some((1int, seq![c]))
            }
        } else if m == 2 {
            if c == '\\' || c == '`' || c == '$' {
                Some((1int, seq![c]))
            } else {
                Some((1int, seq!['\\', c]))
            }
        } else {
            None
        }
}

/// The backtick substitution of bash (`<git/>`, `<cmd run>`) runs exactly
/// the given command: the shell reads the command text back from it.
pub proof fn bash_substitution_reads_back(cmd: Seq<char>)
    ensures
        run(backtick_reader(), 0, bash_subst(cmd)) == Some((3int, cmd)),
{
    reveal_strlit("`");
    reveal_strlit("\\\\");
    reveal_strlit("\\`");
    let r1 = replace_rule('\\', "\\\\"@);
    let r2 = replace_rule('`', "\\`"@);
    let f = |x: char| encode(r1(x), r2);
    let step = backtick_reader();
    lemma_replace_is_encode(cmd, '\\', "\\\\"@);
    lemma_replace_is_encode(replace_char(cmd, '\\', "\\\\"@), '`', "\\`"@);
    lemma_encode_compose(cmd, r1, r2);
    assert forall|c: char| #[trigger] run(step, 1, f(c)) == Some((1int, seq![c])) by {
        reveal_with_fuel(run, 3);
        reveal_with_fuel(encode, 3);
        assert(seq![c].drop_last() =~= Seq::<char>::empty());
        if c == '\\' {
            assert(seq!['\\', '\\'].drop_last() =~= seq!['\\']);
            assert(seq!['\\'].drop_last() =~= Seq::<char>::empty());
            assert(f(c) =~= seq!['\\', '\\']);
            assert(Seq::<char>::empty() + Seq::<char>::empty() + seq!['\\'] =~= seq![c]);
        } else if c == '`' {
            assert(seq!['\\', '`'].drop_last() =~= seq!['\\']);
            assert(seq!['\\'].drop_last() =~= Seq::<char>::empty());
            assert(f(c) =~= seq!['\\', '`']);
            assert(Seq::<char>::empty() + Seq::<char>::empty() + seq!['`'] =~= seq![c]);
        } else {
            assert(f(c) =~= seq![c]);
            assert(Seq::<char>::empty() + seq![c] =~= seq![c]);
        }
    }
    lemma_run_single(step, 0, '`');
    lemma_run_single(step, 1, '`');
    assert("`"@ =~= seq!['`']);
    lemma_quoted_reads_back(step, "`"@, cmd, f, "`"@, 0, 1, 3);
}

/// How cmd.exe reads `PROMPT` text: `$$` stands for `$`; a `$` before
/// anything else is a `$` code, refused here.  Mode 0, or 1 after a `$`.
pub open spec fn cmd_prompt_reader() -> Step {
    |m: int, c: char|
        if m == 0 {
            if c == '$' {
                Some((1int, Seq::<char>::empty()))
            } else {
                Some((0int, seq![c]))
            }
        } else if c == '$' {
            Some((0int, seq!['$']))
        } else {
            None
        }
}

/// Literal text in a cmd.exe `PROMPT` (`$` doubled) shows as exactly that
/// text: no `$` code comes out of it.
pub proof fn cmd_literal_reads_back(v: Seq<char>)
    ensures
        run(cmd_prompt_reader(), 0, replace_char(v, '$', "$$"@)) == Some((0int, v)),
{
    reveal_strlit("$$");
    let f = replace_rule('$', "$$"@);
    let step = cmd_prompt_reader();
    lemma_replace_is_encode(v, '$', "$$"@);
    assert forall|c: char| #[trigger] run(step, 0, f(c)) == Some((0int, seq![c])) by {
        reveal_with_fuel(run, 3);
        assert(seq![c].drop_last() =~= Seq::<char>::empty());
        if c == '$' {
            assert(f(c) =~= seq!['$', '$']);
            assert(seq!['$', '$'].drop_last() =~= seq!['$']);
            assert(Seq::<char>::empty() + Seq::<char>::empty() + seq!['$'] =~= seq![c]);
        } else {
            assert(f(c) =~= seq![c]);
            assert(Seq::<char>::empty() + seq![c] =~= seq![c]);
        }
    }
    lemma_run_encode(step, 0, v, f);
}

} // verus!
