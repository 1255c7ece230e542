//! Reading the fields of the settings form that a widget card submits.
//!
//! The form arrives as a JSON object; each field is handed over here as a
//! `FormValue`, and what the settings become is decided here.
use vstd::prelude::*;

use crate::ids::{ascii_fold, eq_ignore_ascii_case, fold};
use crate::text::{chars_of, string_of};

verus! {

/// A field of the submitted form, as JSON gave it.
#[derive(Debug)]
pub enum FormValue {
    /// A JSON boolean.
    Bool(bool),
    /// A JSON string.
    Text(String),
    /// A JSON number, with its value as an unsigned and as a signed 64-bit
    /// integer where it is one, and as the whole number that its 64-bit
    /// floating-point value is cast to (`as i64`: toward zero, saturating).
    Number { as_u64: Option<u64>, as_i64: Option<i64>, whole: Option<i64> },
    /// Any other JSON value.
    Other,
}

/// A form field as a mathematical value: text as its characters.
pub enum FormInput {
    Bool(bool),
    Text(Seq<char>),
    Number { as_u64: Option<u64>, as_i64: Option<i64>, whole: Option<i64> },
    Other,
}

impl View for FormValue {
    type V = FormInput;

    open spec fn view(&self) -> FormInput {
        match self {
            FormValue::Bool(b) => FormInput::Bool(*b),
            FormValue::Text(s) => FormInput::Text(s@),
            FormValue::Number { as_u64, as_i64, whole } => FormInput::Number {
                as_u64: *as_u64,
                as_i64: *as_i64,
                whole: *whole,
            },
            FormValue::Other => FormInput::Other,
        }
    }
}

/// A text input that stands for "on": `true` in any ASCII case, or `1`.
pub open spec fn flag_text(s: Seq<char>) -> bool {
    eq_ignore_ascii_case(s, "true"@) || s == "1"@
}

/// Whether a text input stands for "on".
pub fn form_flag_text(s: &str) -> (r: bool)
    ensures
        r == flag_text(s@),
{
    proof {
        reveal_strlit("true");
        reveal_strlit("1");
    }
    let c = chars_of(s);
    if c.len() == 1 && c[0] == '1' {
        proof {
            assert(c@ =~= "1"@);
        }
        return true;
    }
    if c.len() != 4 {
        proof {
            if s@ == "1"@ {
                assert(s@.len() == 1);
            }
        }
        return false;
    }
    let t = fold(c[0]) == 't' as u32 && fold(c[1]) == 'r' as u32 && fold(c[2]) == 'u' as u32
        && fold(c[3]) == 'e' as u32;
    proof {
        if t {
            assert forall|i: int| 0 <= i < 4 implies ascii_fold(s@[i]) == ascii_fold("true"@[i]) by {}
        }
    }
    t
}

/// What a boolean form field says: a JSON boolean as it is, a text input read
/// as a flag, nothing for any other value or a missing field.
pub open spec fn bool_field(value: Option<FormInput>) -> Option<bool> {
    match value {
        Some(FormInput::Bool(b)) => Some(b),
        Some(FormInput::Text(s)) => Some(flag_text(s)),
        _ => None,
    }
}

/// Interprets a toggle input that may arrive as a boolean or as text.
pub fn parse_bool_field(value: Option<&FormValue>) -> (r: Option<bool>)
    ensures
        r == bool_field(
            match value {
                Some(v) => Some(v@),
                None => None,
            },
        ),
{
    match value {
        Some(FormValue::Bool(b)) => Some(*b),
        Some(FormValue::Text(s)) => Some(form_flag_text(s.as_str())),
        _ => None,
    }
}

/// The apps-list toggle a form field gives: a boolean as it is, text as a
/// flag, anything else as off.
pub open spec fn apps_flag(value: FormInput) -> bool {
    match value {
        FormInput::Bool(b) => b,
        FormInput::Text(s) => flag_text(s),
        _ => false,
    }
}

/// Reads the apps-list toggle: a boolean as it is, text as a flag, anything
/// else as off.
pub fn apps_expanded_field(value: &FormValue) -> (r: bool)
    ensures
        r == apps_flag(value@),
{
    match value {
        FormValue::Bool(b) => *b,
        FormValue::Text(s) => form_flag_text(s.as_str()),
        _ => false,
    }
}

pub open spec fn is_digit(c: char) -> bool {
    '0' <= c && c <= '9'
}

/// The number a string of decimal digits denotes.
pub open spec fn decimal_value(s: Seq<char>) -> nat
    decreases s.len(),
{
    if s.len() == 0 {
        0
    } else {
        decimal_value(s.drop_last()) * 10 + ((s.last() as u32) - ('0' as u32)) as nat
    }
}

/// The digits of an unsigned number in text: after an optional leading `+`.
pub open spec fn unsigned_digits(s: Seq<char>) -> Seq<char> {
    if s.len() > 0 && s[0] == '+' {
        s.drop_first()
    } else {
        s
    }
}

/// What `str::parse` gives for an unsigned integer type whose largest value is
/// `max`: the number, when the text is an optional `+` followed by at least one
/// decimal digit and nothing else, and the number is at most `max`.
pub open spec fn parsed_unsigned(s: Seq<char>, max: nat) -> Option<nat> {
    let d = unsigned_digits(s);
    if d.len() > 0 && (forall|i: int| 0 <= i < d.len() ==> is_digit(#[trigger] d[i]))
        && decimal_value(d) <= max {
        Some(decimal_value(d))
    } else {
        None
    }
}

/// A number written with more digits is at least the number its first digits
/// write.
proof fn lemma_decimal_prefix(s: Seq<char>, k: int)
    requires
        0 <= k <= s.len(),
        forall|i: int| 0 <= i < s.len() ==> is_digit(#[trigger] s[i]),
    ensures
        decimal_value(s.take(k)) <= decimal_value(s),
    decreases s.len() - k,
{
    if k < s.len() {
        assert(s.take(k + 1).drop_last() =~= s.take(k));
        lemma_decimal_prefix(s, k + 1);
    } else {
        assert(s.take(k) =~= s);
    }
}

/// Parses an unsigned decimal number no larger than `max`.
fn parse_decimal(s: &str, max: u64) -> (r: Option<u64>)
    ensures
        match parsed_unsigned(s@, max as nat) {
            Some(n) => r == Some(n as u64),
            None => r is None,
        },
{
    let c = chars_of(s);
    let start: usize = if c.len() > 0 && c[0] == '+' {
        1
    } else {
        0
    };
    let ghost d = unsigned_digits(s@);
    proof {
        assert(d =~= c@.subrange(start as int, c@.len() as int));
    }
    if start >= c.len() {
        return None;
    }
    let mut value: u64 = 0;
    let mut i: usize = start;
    while i < c.len()
        invariant
            c@ == s@,
            start <= i <= c@.len(),
            d == c@.subrange(start as int, c@.len() as int),
            d == unsigned_digits(s@),
            forall|j: int| 0 <= j < i - start ==> is_digit(#[trigger] d[j]),
            value as nat == decimal_value(d.take(i - start)),
            value <= max,
        decreases c@.len() - i,
    {
        let ch = c[i];
        if !('0' <= ch && ch <= '9') {
            proof {
                assert(d[i - start] == ch);
                assert(!is_digit(d[i - start]));

            }
            return None;
        }
        let digit = (ch as u32 - '0' as u32) as u64;
        proof {
            assert(d.take(i - start + 1).drop_last() =~= d.take(i - start));
            assert(d.take(i - start + 1).last() == ch);
        }
        if digit > max || value > (max - digit) / 10 {
            proof {
                assert(value * 10 + digit > max) by (nonlinear_arith)
                    requires
                        digit > max || value > (max - digit) / 10,
                        digit <= 9,
                ;
                assert(decimal_value(d.take(i - start + 1)) > max);
                if forall|j: int| 0 <= j < d.len() ==> is_digit(#[trigger] d[j]) {
                    lemma_decimal_prefix(d, i - start + 1);
                }
            }
            return None;
        }
        proof {
            assert(value * 10 + digit <= max) by (nonlinear_arith)
                requires
                    value <= (max - digit) / 10,
                    digit <= max,
            ;
        }
        value = value * 10 + digit;
        i = i + 1;
    }
    proof {
        assert(d.take(d.len() as int) =~= d);
    }
    Some(value)
}

/// What the chart window field asks for, before the chart window is clamped: a
/// JSON number that is an unsigned 64-bit integer, cut to 32 bits (the cast
/// keeps the low 32 bits), or a text that parses as a 32-bit unsigned number.
pub open spec fn chart_window_request(value: FormInput) -> Option<u32> {
    match value {
        FormInput::Number { as_u64: Some(n), .. } => Some(n as u32),
        FormInput::Text(s) => match parsed_unsigned(s, u32::MAX as nat) {
            Some(n) => Some(n as u32),
            None => None,
        },
        _ => None,
    }
}

/// Reads the chart window field, before the chart window is clamped.
pub fn chart_window_field(value: &FormValue) -> (r: Option<u32>)
    ensures
        r == chart_window_request(value@),
{
    match value {
        FormValue::Number { as_u64: Some(n), .. } => Some(*n as u32),
        FormValue::Text(s) => match parse_decimal(s.as_str(), 0xFFFF_FFFFu64) {
            Some(n) => Some(n as u32),
            None => None,
        },
        _ => None,
    }
}

/// The characters that `str::trim` takes off (Unicode `White_Space`).
pub open spec fn is_white_space(c: char) -> bool {
    let v = c as u32;
    (0x09 <= v && v <= 0x0D) || v == 0x20 || v == 0x85 || v == 0xA0 || v == 0x1680 || (0x2000 <= v
        && v <= 0x200A) || v == 0x2028 || v == 0x2029 || v == 0x202F || v == 0x205F || v == 0x3000
}

/// `s` without the white space at its front.
pub open spec fn trim_start_ws(s: Seq<char>) -> Seq<char>
    decreases s.len(),
{
    if s.len() > 0 && is_white_space(s[0]) {
        trim_start_ws(s.drop_first())
    } else {
        s
    }
}

/// `s` without the white space at its end.
pub open spec fn trim_end_ws(s: Seq<char>) -> Seq<char>
    decreases s.len(),
{
    if s.len() > 0 && is_white_space(s.last()) {
        trim_end_ws(s.drop_last())
    } else {
        s
    }
}

/// `s` without white space at either end (`str::trim`).
pub open spec fn trimmed_ws(s: Seq<char>) -> Seq<char> {
    trim_end_ws(trim_start_ws(s))
}

fn white_space(c: char) -> (r: bool)
    ensures
        r == is_white_space(c),
{
    let v = c as u32;
    (0x09 <= v && v <= 0x0D) || v == 0x20 || v == 0x85 || v == 0xA0 || v == 0x1680 || (0x2000 <= v
        && v <= 0x200A) || v == 0x2028 || v == 0x2029 || v == 0x202F || v == 0x205F || v == 0x3000
}

/// The characters of `s` without white space at either end.
pub(crate) fn trim_chars(s: &str) -> (r: Vec<char>)
    ensures
        r@ == trimmed_ws(s@),
{
    let v = chars_of(s);
    let n = v.len();
    let mut i: usize = 0;
    assert(v@.subrange(0, n as int) =~= v@);
    while i < n && white_space(v[i])
        invariant
            n == v@.len(),
            i <= n,
            trim_start_ws(v@) == trim_start_ws(v@.subrange(i as int, n as int)),
        decreases n - i,
    {
        proof {
            assert(v@.subrange(i + 1, n as int) =~= v@.subrange(i as int, n as int).drop_first());
        }
        i = i + 1;
    }
    let ghost front = v@.subrange(i as int, n as int);
    assert(trim_start_ws(front) == front);
    let mut j: usize = n;
    while j > i && white_space(v[j - 1])
        invariant
            n == v@.len(),
            i <= j <= n,
            front == v@.subrange(i as int, n as int),
            trim_end_ws(front) == trim_end_ws(v@.subrange(i as int, j as int)),
        decreases j - i,
    {
        proof {
            assert(v@.subrange(i as int, j - 1) =~= v@.subrange(i as int, j as int).drop_last());
        }
        j = j - 1;
    }
    let ghost kept = v@.subrange(i as int, j as int);
    assert(trim_end_ws(kept) == kept);
    let mut out: Vec<char> = Vec::new();
    let mut k: usize = i;
    while k < j
        invariant
            n == v@.len(),
            i <= k <= j <= n,
            out@ == v@.subrange(i as int, k as int),
        decreases j - k,
    {
        out.push(v[k]);
        proof {
            assert(out@ =~= v@.subrange(i as int, k + 1));
        }
        k = k + 1;
    }
    out
}

/// The adapter chosen in the form: no field keeps the current choice; an empty
/// or `auto` field (white space around it and ASCII case aside) selects the
/// aggregate of all adapters (`None`); a decimal adapter id selects that
/// adapter; anything else keeps the current choice.
pub open spec fn adapter_choice(raw: Option<Seq<char>>, current: Option<u64>) -> Option<u64> {
    match raw {
        None => current,
        Some(text) => {
            let t = trimmed_ws(text);
            if t.len() == 0 || eq_ignore_ascii_case(t, "auto"@) {
                None
            } else {
                match parsed_unsigned(t, u64::MAX as nat) {
                    Some(n) => Some(n as u64),
                    None => current,
                }
            }
        },
    }
}

/// Decides the adapter selection from the form's adapter field.
pub fn adapter_selection(raw: Option<&str>, current: Option<u64>) -> (r: Option<u64>)
    ensures
        r == adapter_choice(
            match raw {
                Some(s) => Some(s@),
                None => None,
            },
            current,
        ),
{
    match raw {
        None => current,
        Some(text) => {
            let t = trim_chars(text);
            if t.len() == 0 || is_auto(&t) {
                None
            } else {
                let s = string_of(&t);
                match parse_decimal(s.as_str(), 0xFFFF_FFFF_FFFF_FFFFu64) {
                    Some(n) => Some(n),
                    None => current,
                }
            }
        },
    }
}

/// Whether the characters are `auto` in any ASCII case.
fn is_auto(t: &Vec<char>) -> (r: bool)
    ensures
        r == eq_ignore_ascii_case(t@, "auto"@),
{
    proof {
        reveal_strlit("auto");
    }
    if t.len() != 4 {
        return false;
    }
    let r = fold(t[0]) == 'a' as u32 && fold(t[1]) == 'u' as u32 && fold(t[2]) == 't' as u32
        && fold(t[3]) == 'o' as u32;
    r
}

/// The alert threshold, in bytes per second, for a threshold given in MiB/s:
/// at least 1 MiB/s, times 1024 * 1024, in 64-bit arithmetic that wraps as the
/// release build does.
pub open spec fn threshold_bps(mbps: i64) -> u64 {
    (((if mbps < 1 {
        1u64
    } else {
        mbps as u64
    }) as int * 1048576) % 0x1_0000_0000_0000_0000) as u64
}

/// Reads the alert threshold from a value in MiB/s.
pub fn alert_threshold_bps(mbps: i64) -> (r: u64)
    ensures
        r == threshold_bps(mbps),
{
    let m: u64 = if mbps < 1 {
        1
    } else {
        mbps as u64
    };
    let r = m.wrapping_mul(1048576);
    r
}

/// The alert sustain time in seconds for a value given: at least 1, kept to
/// its low 32 bits as the cast does.
pub open spec fn sustain_secs(secs: i64) -> u32 {
    (if secs < 1 {
        1i64
    } else {
        secs
    }) as u32
}

/// Reads the alert sustain time, in seconds, from a value given.
pub fn alert_sustain_secs(secs: i64) -> (r: u32)
    ensures
        r == sustain_secs(secs),
{
    let s: i64 = if secs < 1 {
        1
    } else {
        secs
    };
    s as u32
}

} // verus!
