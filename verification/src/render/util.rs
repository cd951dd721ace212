//! Pieces shared by several backends: the quoting rules of the shells and
//! the resolver of a PSML color (name, number `0-255` or `#rrggbb`) to an
//! ANSI SGR parameter, used by every backend that emits raw SGR sequences.

use vstd::prelude::*;

use crate::ir::{opt_view, PsmlError};
use crate::text::{
    debug_quoted, debug_str, dec, dec_string, lowercase, push_dec, push_str, replace_all, replace_char, str_eq,
    to_lower,
};

verus! {

/// POSIX single quoting: `'...'`, where a quote is written `'\''`.
pub open spec fn posix_quoted(v: Seq<char>) -> Seq<char> {
    "'"@ + replace_char(v, '\'', "'\\''"@) + "'"@
}

/// fish single quoting: `\` and `'` are escaped with a backslash.
pub open spec fn fish_quoted(v: Seq<char>) -> Seq<char> {
    "'"@ + replace_char(replace_char(v, '\\', "\\\\"@), '\'', "\\'"@) + "'"@
}

/// PowerShell single quoting: a quote is doubled.
pub open spec fn powershell_quoted(v: Seq<char>) -> Seq<char> {
    "'"@ + replace_char(v, '\'', "''"@) + "'"@
}

/// The body of a PowerShell double-quoted string: backtick, `"` and `$`
/// are escaped with a backtick.
pub open spec fn powershell_escaped(v: Seq<char>) -> Seq<char> {
    replace_char(replace_char(replace_char(v, '`', "``"@), '"', "`\""@), '$', "`$"@)
}

/// A nu raw string `r#'...'#`.
pub open spec fn nu_raw(v: Seq<char>) -> Seq<char> {
    "r#'"@ + v + "'#"@
}

/// The body of a nu interpolated string: `\`, `"` and `(` are escaped.
pub open spec fn nu_escaped(v: Seq<char>) -> Seq<char> {
    replace_char(replace_char(replace_char(v, '\\', "\\\\"@), '"', "\\\""@), '(', "\\("@)
}

/// An SGR escape sequence with the real ESC byte.
pub open spec fn sgr(codes: Seq<char>) -> Seq<char> {
    "\u{1b}["@ + codes + "m"@
}

/// POSIX single quoting (`'...'`), for bash and zsh.
pub fn posix_quote_single(value: &str) -> (r: String)
    ensures
        r@ == posix_quoted(value@),
{
    let mut out = String::new();
    push_str(&mut out, "'");
    let body = replace_all(value, '\'', "'\\''");
    push_str(&mut out, body.as_str());
    push_str(&mut out, "'");
    out
}

/// fish single quoting (`'...'`): `\\` and `\'` are the only escapes.
pub fn fish_quote_single(value: &str) -> (r: String)
    ensures
        r@ == fish_quoted(value@),
{
    let step = replace_all(value, '\\', "\\\\");
    let body = replace_all(step.as_str(), '\'', "\\'");
    let mut out = String::new();
    push_str(&mut out, "'");
    push_str(&mut out, body.as_str());
    push_str(&mut out, "'");
    out
}

/// PowerShell single quoting (`'...'`): a quote is doubled.
pub fn powershell_quote_single(value: &str) -> (r: String)
    ensures
        r@ == powershell_quoted(value@),
{
    let body = replace_all(value, '\'', "''");
    let mut out = String::new();
    push_str(&mut out, "'");
    push_str(&mut out, body.as_str());
    push_str(&mut out, "'");
    out
}

/// Escaping for the inside of a PowerShell double-quoted string.
pub fn powershell_escape_double(value: &str) -> (r: String)
    ensures
        r@ == powershell_escaped(value@),
{
    let a = replace_all(value, '`', "``");
    let b = replace_all(a.as_str(), '"', "`\"");
    replace_all(b.as_str(), '$', "`$")
}

/// A nu raw string `r#'...'#`; nothing inside is escaped.
pub fn nu_quote_raw(value: &str) -> (r: String)
    ensures
        r@ == nu_raw(value@),
{
    let mut out = String::new();
    push_str(&mut out, "r#'");
    push_str(&mut out, value);
    push_str(&mut out, "'#");
    out
}

/// Escaping for the inside of a nu interpolated string `$"..."`.
pub fn nu_escape_interp(value: &str) -> (r: String)
    ensures
        r@ == nu_escaped(value@),
{
    let a = replace_all(value, '\\', "\\\\");
    let b = replace_all(a.as_str(), '"', "\\\"");
    replace_all(b.as_str(), '(', "\\(")
}

/// A raw SGR sequence `ESC [ codes m`.
pub fn raw_sgr(codes: &str) -> (r: String)
    ensures
        r@ == sgr(codes@),
{
    let mut out = String::new();
    push_str(&mut out, "\u{1b}[");
    push_str(&mut out, codes);
    push_str(&mut out, "m");
    out
}

// ---------------------------------------------------------------------------
// Colors
// ---------------------------------------------------------------------------

/// The value of a hexadecimal digit.
pub open spec fn hex_val(c: char) -> Option<nat> {
    if '0' <= c <= '9' {
        Some((c as nat - '0' as nat) as nat)
    } else if 'a' <= c <= 'f' {
        Some((c as nat - 'a' as nat + 10) as nat)
    } else if 'A' <= c <= 'F' {
        Some((c as nat - 'A' as nat + 10) as nat)
    } else {
        None
    }
}

/// A byte written as two hexadecimal digits (`0-9`, `a-f`, `A-F`).
pub open spec fn hex_pair(a: char, b: char) -> Option<nat> {
    match (hex_val(a), hex_val(b)) {
        (Some(x), Some(y)) => Some(16 * x + y),
        _ => None,
    }
}

/// A `#rrggbb` color: `#` and six hexadecimal digits.
pub open spec fn hex_color(v: Seq<char>) -> bool {
    &&& v.len() == 7
    &&& v[0] == '#'
    &&& hex_pair(v[1], v[2]) is Some
    &&& hex_pair(v[3], v[4]) is Some
    &&& hex_pair(v[5], v[6]) is Some
}

/// A color number: ASCII digits with a value of at most 255.
pub open spec fn color_number(v: Seq<char>) -> bool {
    all_digits(v) && digits_value(v) <= 255
}

/// A nonempty string of ASCII digits.
pub open spec fn all_digits(s: Seq<char>) -> bool {
    s.len() > 0 && forall|i: int| 0 <= i < s.len() ==> '0' <= #[trigger] s[i] <= '9'
}

/// The number written by a string of decimal digits.
pub open spec fn digits_value(s: Seq<char>) -> nat
    decreases s.len(),
{
    if s.len() == 0 {
        0
    } else {
        10 * digits_value(s.drop_last()) + (s.last() as nat - '0' as nat) as nat
    }
}

/// The SGR code of a foreground color name.
pub open spec fn fg_name_code(name: Seq<char>) -> Option<nat> {
    if name == "black"@ {
        Some(30)
    } else if name == "red"@ {
        Some(31)
    } else if name == "green"@ {
        Some(32)
    } else if name == "yellow"@ {
        Some(33)
    } else if name == "blue"@ {
        Some(34)
    } else if name == "magenta"@ {
        Some(35)
    } else if name == "cyan"@ {
        Some(36)
    } else if name == "white"@ {
        Some(37)
    } else if name == "brightblack"@ {
        Some(90)
    } else if name == "brightred"@ {
        Some(91)
    } else if name == "brightgreen"@ {
        Some(92)
    } else if name == "brightyellow"@ {
        Some(93)
    } else if name == "brightblue"@ {
        Some(94)
    } else if name == "brightmagenta"@ {
        Some(95)
    } else if name == "brightcyan"@ {
        Some(96)
    } else if name == "brightwhite"@ {
        Some(97)
    } else if name == "gray"@ {
        Some(90)
    } else if name == "grey"@ {
        Some(90)
    } else {
        None
    }
}

/// The SGR parameter of a PSML color value, `None` when the value is not a
/// color: `#rrggbb` gives `38;2;r;g;b`, a number `0-255` gives `38;5;n`, a
/// name gives its 8/16-color code (`48`/`+10` for a background).
pub open spec fn sgr_color(value: Seq<char>, is_bg: bool) -> Option<Seq<char>> {
    let base = if is_bg {
        "48"@
    } else {
        "38"@
    };
    if value.len() == 7 && value[0] == '#' {
        match (hex_pair(value[1], value[2]), hex_pair(value[3], value[4]), hex_pair(value[5], value[6])) {
            (Some(r), Some(g), Some(b)) => Some(
                base + ";2;"@ + dec(r) + ";"@ + dec(g) + ";"@ + dec(b),
            ),
            _ => None,
        }
    } else if all_digits(value) {
        if digits_value(value) <= 255 {
            Some(base + ";5;"@ + dec(digits_value(value)))
        } else {
            None
        }
    } else {
        match fg_name_code(lowercase(value)) {
            Some(c) => Some(dec(if is_bg { c + 10 } else { c })),
            None => None,
        }
    }
}

fn hex_digit(c: char) -> (r: Option<u32>)
    ensures
        match hex_val(c) {
            Some(v) => r == Some(v as u32),
            None => r is None,
        },
{
    if '0' <= c && c <= '9' {
        Some((c as u32) - ('0' as u32))
    } else if 'a' <= c && c <= 'f' {
        Some((c as u32) - ('a' as u32) + 10)
    } else if 'A' <= c && c <= 'F' {
        Some((c as u32) - ('A' as u32) + 10)
    } else {
        None
    }
}

fn hex_byte(a: char, b: char) -> (r: Option<u32>)
    ensures
        match hex_pair(a, b) {
            Some(v) => r == Some(v as u32) && v < 256,
            None => r is None,
        },
{
    match (hex_digit(a), hex_digit(b)) {
        (Some(x), Some(y)) => Some(16 * x + y),
        _ => None,
    }
}

/// Whether `value` is a `#rrggbb` color.
pub(crate) fn is_hex_color(value: &str) -> (r: bool)
    ensures
        r == hex_color(value@),
{
    if value.unicode_len() != 7 || value.get_char(0) != '#' {
        return false;
    }
    hex_byte(value.get_char(1), value.get_char(2)).is_some() && hex_byte(
        value.get_char(3),
        value.get_char(4),
    ).is_some() && hex_byte(value.get_char(5), value.get_char(6)).is_some()
}

/// Whether `value` is a color number `0-255`.
pub(crate) fn is_color_number(value: &str) -> (r: bool)
    ensures
        r == color_number(value@),
{
    match small_number(value) {
        Some(n) => n <= 255,
        None => false,
    }
}

/// Reads a string of ASCII digits, `None` when it is not one; a number
/// above 255 reads as 256.
fn small_number(value: &str) -> (r: Option<u32>)
    ensures
        r is Some <==> all_digits(value@),
        r matches Some(n) ==> (if digits_value(value@) <= 255 {
            n == digits_value(value@)
        } else {
            n == 256
        }),
{
    let n = value.unicode_len();
    if n == 0 {
        return None;
    }
    let mut acc: u32 = 0;
    let mut i: usize = 0;
    while i < n
        invariant
            n == value@.len(),
            i <= n,
            forall|j: int| 0 <= j < i ==> '0' <= #[trigger] value@[j] <= '9',
            if digits_value(value@.take(i as int)) <= 255 {
                acc == digits_value(value@.take(i as int))
            } else {
                acc == 256
            },
        decreases n - i,
    {
        let c = value.get_char(i);
        if c < '0' || c > '9' {
            return None;
        }
        let d = (c as u32) - ('0' as u32);
        assert(value@.take(i + 1).drop_last() == value@.take(i as int));
        assert(value@.take(i + 1).last() == c);
        if acc <= 255 {
            let next = acc * 10 + d;
            if next <= 255 {
                acc = next;
            } else {
                acc = 256;
            }
        }
        i = i + 1;
    }
    assert(value@.take(n as int) == value@);
    Some(acc)
}

/// The SGR code of a foreground color name.
fn fg_name_code_exec(name: &str) -> (r: Option<u32>)
    ensures
        match fg_name_code(name@) {
            Some(c) => r == Some(c as u32),
            None => r is None,
        },
{
    if str_eq(name, "black") {
        Some(30)
    } else if str_eq(name, "red") {
        Some(31)
    } else if str_eq(name, "green") {
        Some(32)
    } else if str_eq(name, "yellow") {
        Some(33)
    } else if str_eq(name, "blue") {
        Some(34)
    } else if str_eq(name, "magenta") {
        Some(35)
    } else if str_eq(name, "cyan") {
        Some(36)
    } else if str_eq(name, "white") {
        Some(37)
    } else if str_eq(name, "brightblack") {
        Some(90)
    } else if str_eq(name, "brightred") {
        Some(91)
    } else if str_eq(name, "brightgreen") {
        Some(92)
    } else if str_eq(name, "brightyellow") {
        Some(93)
    } else if str_eq(name, "brightblue") {
        Some(94)
    } else if str_eq(name, "brightmagenta") {
        Some(95)
    } else if str_eq(name, "brightcyan") {
        Some(96)
    } else if str_eq(name, "brightwhite") {
        Some(97)
    } else if str_eq(name, "gray") {
        Some(90)
    } else if str_eq(name, "grey") {
        Some(90)
    } else {
        None
    }
}

fn color_error(prefix: &str, value: &str) -> (r: PsmlError)
    ensures
        r.0@ == prefix@ + debug_quoted(value@),
{
    let mut msg = String::new();
    push_str(&mut msg, prefix);
    let q = debug_str(value);
    push_str(&mut msg, q.as_str());
    PsmlError(msg)
}

/// No color name starts with `#`.
pub proof fn lemma_no_name_starts_with_hash(n: Seq<char>)
    requires
        n.len() > 0,
        n[0] == '#',
    ensures
        fg_name_code(n) is None,
{
    reveal_strlit("black");
    reveal_strlit("red");
    reveal_strlit("green");
    reveal_strlit("yellow");
    reveal_strlit("blue");
    reveal_strlit("magenta");
    reveal_strlit("cyan");
    reveal_strlit("white");
    reveal_strlit("brightblack");
    reveal_strlit("brightred");
    reveal_strlit("brightgreen");
    reveal_strlit("brightyellow");
    reveal_strlit("brightblue");
    reveal_strlit("brightmagenta");
    reveal_strlit("brightcyan");
    reveal_strlit("brightwhite");
    reveal_strlit("gray");
    reveal_strlit("grey");
}

/// Resolves a `fg`/`bg` value (color name, number `0-255` or `#rrggbb`) to
/// the SGR parameter that goes into `ESC [ ... m`.
pub fn resolve_sgr_color(value: &str, is_bg: bool) -> (r: Result<String, PsmlError>)
    ensures
        r is Ok <==> sgr_color(value@, is_bg) is Some,
        r matches Ok(s) ==> s@ == sgr_color(value@, is_bg).unwrap(),
        r matches Err(e) ==> e.0@ == sgr_color_error(value@),
        value@.len() > 0 && value@[0] == '#' && r is Ok ==> hex_color(value@),
{
    let base = if is_bg {
        "48"
    } else {
        "38"
    };
    if value.unicode_len() == 7 && value.get_char(0) == '#' {
        let r = hex_byte(value.get_char(1), value.get_char(2));
        let g = hex_byte(value.get_char(3), value.get_char(4));
        let b = hex_byte(value.get_char(5), value.get_char(6));
        match (r, g, b) {
            (Some(r), Some(g), Some(b)) => {
                let mut out = String::new();
                push_str(&mut out, base);
                push_str(&mut out, ";2;");
                push_dec(&mut out, r);
                push_str(&mut out, ";");
                push_dec(&mut out, g);
                push_str(&mut out, ";");
                push_dec(&mut out, b);
                return Ok(out);
            },
            _ => {
                return Err(color_error("некорректный hex-цвет: ", value));
            },
        }
    }
    if let Some(n) = small_number(value) {
        if n > 255 {
            return Err(color_error("номер цвета должен быть 0-255, получено ", value));
        }
        let mut out = String::new();
        push_str(&mut out, base);
        push_str(&mut out, ";5;");
        push_dec(&mut out, n);
        return Ok(out);
    }
    let name = to_lower(value);
    proof {
        if value@.len() > 0 && value@[0] == '#' {
            lemma_no_name_starts_with_hash(name@);
        }
    }
    match fg_name_code_exec(name.as_str()) {
        Some(code) => Ok(dec_string(
            if is_bg {
                code + 10
            } else {
                code
            },
        )),
        None => Err(color_error("неизвестное имя цвета: ", value)),
    }
}

/// The SGR parameters that open a color: `fg`, `bg` or both, joined by `;`.
pub open spec fn sgr_open(fg: Option<Seq<char>>, bg: Option<Seq<char>>) -> Option<Seq<char>> {
    match (fg, bg) {
        (Some(f), Some(b)) => match (sgr_color(f, false), sgr_color(b, true)) {
            (Some(cf), Some(cb)) => Some(cf + ";"@ + cb),
            _ => None,
        },
        (Some(f), None) => sgr_color(f, false),
        (None, Some(b)) => sgr_color(b, true),
        (None, None) => Some(Seq::empty()),
    }
}

/// The message for a value that is not a color: a bad `#rrggbb`, a
/// number above 255, or an unknown name.
pub open spec fn sgr_color_error(value: Seq<char>) -> Seq<char> {
    if value.len() == 7 && value[0] == '#' {
        "некорректный hex-цвет: "@ + debug_quoted(value)
    } else if all_digits(value) {
        "номер цвета должен быть 0-255, получено "@ + debug_quoted(value)
    } else {
        "неизвестное имя цвета: "@ + debug_quoted(value)
    }
}

/// The message when the colors of a `<color>` do not resolve: that of
/// `fg` when it is not a color, else that of `bg`.
pub open spec fn sgr_open_error(fg: Option<Seq<char>>, bg: Option<Seq<char>>) -> Seq<char> {
    match fg {
        Some(f) if sgr_color(f, false) is None => sgr_color_error(f),
        _ => match bg {
            Some(b) => sgr_color_error(b),
            None => Seq::empty(),
        },
    }
}

/// The SGR parameters that close a color: `39` for `fg`, `49` for `bg`.
pub open spec fn sgr_close(fg: Option<Seq<char>>, bg: Option<Seq<char>>) -> Seq<char> {
    match (fg, bg) {
        (Some(_), Some(_)) => "39;49"@,
        (Some(_), None) => "39"@,
        (None, Some(_)) => "49"@,
        (None, None) => Seq::empty(),
    }
}

/// The SGR parameters that open a color (see [`sgr_open`]).
pub fn open_codes(fg: &Option<String>, bg: &Option<String>) -> (r: Result<String, PsmlError>)
    ensures
        r is Ok <==> sgr_open(opt_view(*fg), opt_view(*bg)) is Some,
        r matches Ok(s) ==> s@ == sgr_open(opt_view(*fg), opt_view(*bg)).unwrap(),
        r matches Err(e) ==> e.0@ == sgr_open_error(opt_view(*fg), opt_view(*bg)),
{
    let mut out = String::new();
    if let Some(f) = fg {
        let c = resolve_sgr_color(f.as_str(), false)?;
        push_str(&mut out, c.as_str());
    }
    if let Some(b) = bg {
        let c = resolve_sgr_color(b.as_str(), true)?;
        if fg.is_some() {
            push_str(&mut out, ";");
        }
        push_str(&mut out, c.as_str());
    }
    Ok(out)
}

/// The SGR parameters that close a color (see [`sgr_close`]).
pub fn close_codes(fg: &Option<String>, bg: &Option<String>) -> (r: &'static str)
    ensures
        r@ == sgr_close(opt_view(*fg), opt_view(*bg)),
{
    match (fg, bg) {
        (Some(_), Some(_)) => "39;49",
        (Some(_), None) => "39",
        (None, Some(_)) => "49",
        (None, None) => {
            proof {
                reveal_strlit("");
            }
            ""
        },
    }
}

/// The POSIX shell code that prints the current git branch between
/// `prefix` and `suffix` (nothing outside a repository).
pub open spec fn git_cmd(prefix: Seq<char>, suffix: Seq<char>) -> Seq<char> {
    "b=$(git symbolic-ref --short HEAD 2>/dev/null || git rev-parse --short HEAD 2>/dev/null); [ -n \"$b\" ] && printf \"%s%s%s\" \""@
        + prefix + "\" \"$b\" \""@ + suffix + "\""@
}

/// The POSIX shell code of [`git_cmd`].
pub fn git_command(prefix: &str, suffix: &str) -> (r: String)
    ensures
        r@ == git_cmd(prefix@, suffix@),
{
    let mut s = String::new();
    push_str(&mut s, "b=$(git symbolic-ref --short HEAD 2>/dev/null || git rev-parse --short HEAD 2>/dev/null); [ -n \"$b\" ] && printf \"%s%s%s\" \"");
    push_str(&mut s, prefix);
    push_str(&mut s, "\" \"$b\" \"");
    push_str(&mut s, suffix);
    push_str(&mut s, "\"");
    s
}

} // verus!
