//! Parsing of JSON text into a value tree.
//!
//! The grammar is stated as a family of recursive specification functions
//! over a character sequence and a position; the executable parser is proved
//! to return exactly what they denote.  `sp_value` accepts standard JSON;
//! a number becomes an unsigned 64-bit value when it is a plain integer
//! that fits, and is carried verbatim as its literal text otherwise.  The
//! one deliberate restriction: a `\u` escape must denote a Unicode scalar
//! value (no surrogate pairs); such a body is a parse failure, which the
//! dispatch layer reports as a decode error.

use vstd::prelude::*;

use crate::json::{arr_view, lemma_arr_view_push, lemma_obj_view_push, obj_view, Json, JsonV};
use crate::text::{
    char_from_scalar, chars_to_string, digit_val, digits_val, is_dec_digit,
    lemma_digits_val_extend, str_to_chars,
};

verus! {

broadcast use vstd::std_specs::vec::group_vec_axioms, vstd::seq::group_seq_axioms;

pub open spec fn is_ws(c: char) -> bool {
    c == ' ' || c == '\n' || c == '\r' || c == '\t'
}

pub open spec fn is_hex_digit(c: char) -> bool {
    is_dec_digit(c) || ('a' <= c <= 'f') || ('A' <= c <= 'F')
}

/// The numeric value of a hexadecimal digit character.
pub open spec fn hex_val(c: char) -> int {
    if is_dec_digit(c) {
        digit_val(c)
    } else if 'a' <= c <= 'f' {
        c as int - 'a' as int + 10
    } else {
        c as int - 'A' as int + 10
    }
}

/// The character a short escape (the character after the backslash) stands for.
pub open spec fn short_escape(e: char) -> Option<char> {
    if e == '"' {
        Option::Some('"')
    } else if e == '\\' {
        Option::Some('\\')
    } else if e == '/' {
        Option::Some('/')
    } else if e == 'b' {
        Option::Some('\u{8}')
    } else if e == 'f' {
        Option::Some('\u{c}')
    } else if e == 'n' {
        Option::Some('\n')
    } else if e == 'r' {
        Option::Some('\r')
    } else if e == 't' {
        Option::Some('\t')
    } else {
        Option::None
    }
}

/// Parses the remainder of a string literal, starting just after an opening
/// quote (or after any prefix already consumed); yields the decoded
/// characters and the position just past the closing quote.
pub open spec fn sp_string(s: Seq<char>, i: int) -> Option<(Seq<char>, int)>
    decreases s.len() - i, 0int,
{
    if i < 0 || i >= s.len() {
        Option::None
    } else if s[i] == '"' {
        Option::Some((Seq::empty(), i + 1))
    } else if s[i] == '\\' {
        if i + 2 > s.len() {
            Option::None
        } else if s[i + 1] == 'u' {
            if i + 6 > s.len() {
                Option::None
            } else if is_hex_digit(s[i + 2]) && is_hex_digit(s[i + 3]) && is_hex_digit(s[i + 4])
                && is_hex_digit(s[i + 5]) {
                let v = hex_val(s[i + 2]) * 4096 + hex_val(s[i + 3]) * 256 + hex_val(s[i + 4]) * 16
                    + hex_val(s[i + 5]);
                if 0xD800 <= v < 0xE000 {
                    Option::None
                } else {
                    match sp_string(s, i + 6) {
                        Option::Some(p) => Option::Some((seq![(v as u32) as char] + p.0, p.1)),
                        Option::None => Option::None,
                    }
                }
            } else {
                Option::None
            }
        } else {
            match short_escape(s[i + 1]) {
                Option::Some(c) => match sp_string(s, i + 2) {
                    Option::Some(p) => Option::Some((seq![c] + p.0, p.1)),
                    Option::None => Option::None,
                },
                Option::None => Option::None,
            }
        }
    } else {
        match sp_string(s, i + 1) {
            Option::Some(p) => Option::Some((seq![s[i]] + p.0, p.1)),
            Option::None => Option::None,
        }
    }
}

/// The position after a maximal run of decimal digits.
pub open spec fn sp_digits_end(s: Seq<char>, i: int) -> int
    decreases s.len() - i,
{
    if 0 <= i < s.len() && is_dec_digit(s[i]) {
        sp_digits_end(s, i + 1)
    } else {
        i
    }
}

/// The position after the fraction part, if any: a dot must be followed by
/// at least one digit.
pub open spec fn sp_frac_end(s: Seq<char>, i: int) -> Option<int> {
    if 0 <= i < s.len() && s[i] == '.' {
        let r = sp_digits_end(s, i + 1);
        if r == i + 1 {
            Option::None
        } else {
            Option::Some(r)
        }
    } else {
        Option::Some(i)
    }
}

/// The position after the exponent part, if any: `e` or `E`, an optional
/// sign, then at least one digit.
pub open spec fn sp_exp_end(s: Seq<char>, i: int) -> Option<int> {
    if 0 <= i < s.len() && (s[i] == 'e' || s[i] == 'E') {
        let t = if i + 1 < s.len() && (s[i + 1] == '+' || s[i + 1] == '-') {
            i + 2
        } else {
            i + 1
        };
        let u = sp_digits_end(s, t);
        if u == t {
            Option::None
        } else {
            Option::Some(u)
        }
    } else {
        Option::Some(i)
    }
}

/// The position after a complete JSON number starting at `i`: an optional
/// minus, an integer part (a lone zero, or a nonzero digit then digits),
/// then optional fraction and exponent parts.
pub open spec fn sp_num_end(s: Seq<char>, i: int) -> Option<int> {
    let p = if 0 <= i < s.len() && s[i] == '-' {
        i + 1
    } else {
        i
    };
    if !(0 <= p < s.len() && is_dec_digit(s[p])) {
        Option::None
    } else {
        let q = if s[p] == '0' {
            p + 1
        } else {
            sp_digits_end(s, p)
        };
        match sp_frac_end(s, q) {
            Option::Some(r) => sp_exp_end(s, r),
            Option::None => Option::None,
        }
    }
}

/// Whether every character of `lex` is a decimal digit.
pub open spec fn all_digits(lex: Seq<char>) -> bool {
    forall|k: int| 0 <= k < lex.len() ==> is_dec_digit(#[trigger] lex[k])
}

/// A character that could extend a number lexeme: what must not follow a
/// complete number for parsing to stop there.
pub open spec fn is_num_extender(c: char) -> bool {
    is_dec_digit(c) || c == '.' || c == 'e' || c == 'E'
}

/// Parses a number: the lexeme becomes an unsigned 64-bit value when it is
/// a plain integer that fits, and is carried verbatim as text otherwise.
pub open spec fn sp_number(s: Seq<char>, i: int) -> Option<(JsonV, int)> {
    match sp_num_end(s, i) {
        Option::Some(end) => {
            let lex = s.subrange(i, end);
            if all_digits(lex) && digits_val(lex) <= u64::MAX {
                Option::Some((JsonV::Num(digits_val(lex) as u64), end))
            } else {
                Option::Some((JsonV::NumText(lex), end))
            }
        },
        Option::None => Option::None,
    }
}

/// Whether the fixed word `w` occurs at position `i`.
pub open spec fn has_word(s: Seq<char>, i: int, w: Seq<char>) -> bool {
    0 <= i && i + w.len() <= s.len() && s.subrange(i, i + w.len() as int) == w
}

/// Parses a value, skipping leading whitespace.
pub open spec fn sp_value(s: Seq<char>, i: int) -> Option<(JsonV, int)>
    decreases s.len() - i, 0int,
{
    if i < 0 || i >= s.len() {
        Option::None
    } else if is_ws(s[i]) {
        sp_value(s, i + 1)
    } else if s[i] == 'n' {
        if has_word(s, i, seq!['n', 'u', 'l', 'l']) {
            Option::Some((JsonV::Null, i + 4))
        } else {
            Option::None
        }
    } else if s[i] == 't' {
        if has_word(s, i, seq!['t', 'r', 'u', 'e']) {
            Option::Some((JsonV::Bool(true), i + 4))
        } else {
            Option::None
        }
    } else if s[i] == 'f' {
        if has_word(s, i, seq!['f', 'a', 'l', 's', 'e']) {
            Option::Some((JsonV::Bool(false), i + 5))
        } else {
            Option::None
        }
    } else if s[i] == '"' {
        match sp_string(s, i + 1) {
            Option::Some(p) => Option::Some((JsonV::Str(p.0), p.1)),
            Option::None => Option::None,
        }
    } else if s[i] == '-' || is_dec_digit(s[i]) {
        sp_number(s, i)
    } else if s[i] == '[' {
        sp_array_body(s, i + 1)
    } else if s[i] == '{' {
        sp_object_body(s, i + 1)
    } else {
        Option::None
    }
}

/// Parses what follows `[`: a closing bracket or the elements.
pub open spec fn sp_array_body(s: Seq<char>, i: int) -> Option<(JsonV, int)>
    decreases s.len() - i, 2int,
{
    if i < 0 || i >= s.len() {
        Option::None
    } else if is_ws(s[i]) {
        sp_array_body(s, i + 1)
    } else if s[i] == ']' {
        Option::Some((JsonV::Arr(Seq::empty()), i + 1))
    } else {
        match sp_elems(s, i) {
            Option::Some(p) => Option::Some((JsonV::Arr(p.0), p.1)),
            Option::None => Option::None,
        }
    }
}

/// Parses one or more comma-separated array elements, then the closing bracket.
pub open spec fn sp_elems(s: Seq<char>, i: int) -> Option<(Seq<JsonV>, int)>
    decreases s.len() - i, 1int,
{
    match sp_value(s, i) {
        Option::Some(p) => if p.1 <= i || p.1 > s.len() {
            Option::None
        } else {
            match sp_elems_tail(s, p.1) {
                Option::Some(q) => Option::Some((seq![p.0] + q.0, q.1)),
                Option::None => Option::None,
            }
        },
        Option::None => Option::None,
    }
}

/// After an array element: whitespace, then a comma and further elements,
/// or the closing bracket.
pub open spec fn sp_elems_tail(s: Seq<char>, i: int) -> Option<(Seq<JsonV>, int)>
    decreases s.len() - i, 2int,
{
    if i < 0 || i >= s.len() {
        Option::None
    } else if is_ws(s[i]) {
        sp_elems_tail(s, i + 1)
    } else if s[i] == ',' {
        sp_elems(s, i + 1)
    } else if s[i] == ']' {
        Option::Some((Seq::empty(), i + 1))
    } else {
        Option::None
    }
}

/// Parses what follows `{`: a closing brace or the members.
pub open spec fn sp_object_body(s: Seq<char>, i: int) -> Option<(JsonV, int)>
    decreases s.len() - i, 2int,
{
    if i < 0 || i >= s.len() {
        Option::None
    } else if is_ws(s[i]) {
        sp_object_body(s, i + 1)
    } else if s[i] == '}' {
        Option::Some((JsonV::Obj(Seq::empty()), i + 1))
    } else {
        match sp_members(s, i) {
            Option::Some(p) => Option::Some((JsonV::Obj(p.0), p.1)),
            Option::None => Option::None,
        }
    }
}

/// Parses one or more `"key": value` members, then the closing brace.
pub open spec fn sp_members(s: Seq<char>, i: int) -> Option<(Seq<(Seq<char>, JsonV)>, int)>
    decreases s.len() - i, 1int,
{
    if i < 0 || i >= s.len() {
        Option::None
    } else if is_ws(s[i]) {
        sp_members(s, i + 1)
    } else if s[i] == '"' {
        match sp_string(s, i + 1) {
            Option::Some(p) => if p.1 <= i + 1 || p.1 > s.len() {
                Option::None
            } else {
                sp_member_value(s, p.1, p.0)
            },
            Option::None => Option::None,
        }
    } else {
        Option::None
    }
}

/// After a member key: whitespace, a colon, the value, and what follows it.
pub open spec fn sp_member_value(s: Seq<char>, i: int, key: Seq<char>) -> Option<
    (Seq<(Seq<char>, JsonV)>, int),
>
    decreases s.len() - i, 2int,
{
    if i < 0 || i >= s.len() {
        Option::None
    } else if is_ws(s[i]) {
        sp_member_value(s, i + 1, key)
    } else if s[i] == ':' {
        match sp_value(s, i + 1) {
            Option::Some(p) => if p.1 <= i || p.1 > s.len() {
                Option::None
            } else {
                match sp_members_tail(s, p.1) {
                    Option::Some(q) => Option::Some((seq![(key, p.0)] + q.0, q.1)),
                    Option::None => Option::None,
                }
            },
            Option::None => Option::None,
        }
    } else {
        Option::None
    }
}

/// After a member: whitespace, then a comma and further members, or the
/// closing brace.
pub open spec fn sp_members_tail(s: Seq<char>, i: int) -> Option<(Seq<(Seq<char>, JsonV)>, int)>
    decreases s.len() - i, 2int,
{
    if i < 0 || i >= s.len() {
        Option::None
    } else if is_ws(s[i]) {
        sp_members_tail(s, i + 1)
    } else if s[i] == ',' {
        sp_members(s, i + 1)
    } else if s[i] == '}' {
        Option::Some((Seq::empty(), i + 1))
    } else {
        Option::None
    }
}

/// Whether everything from position `i` on is whitespace.
pub open spec fn all_ws_from(s: Seq<char>, i: int) -> bool
    decreases s.len() - i,
{
    if 0 <= i < s.len() {
        is_ws(s[i]) && all_ws_from(s, i + 1)
    } else {
        true
    }
}

/// What parsing a complete text denotes: one value, with nothing but
/// whitespace around it.
pub open spec fn spec_parse(s: Seq<char>) -> Option<JsonV> {
    match sp_value(s, 0) {
        Option::Some(p) => if all_ws_from(s, p.1) {
            Option::Some(p.0)
        } else {
            Option::None
        },
        Option::None => Option::None,
    }
}

fn exec_is_ws(c: char) -> (r: bool)
    ensures
        r == is_ws(c),
{
    c == ' ' || c == '\n' || c == '\r' || c == '\t'
}

fn exec_is_dec_digit(c: char) -> (r: bool)
    ensures
        r == is_dec_digit(c),
{
    let u = c as u32;
    48 <= u && u <= 57
}

fn exec_is_hex_digit(c: char) -> (r: bool)
    ensures
        r == is_hex_digit(c),
{
    let u = c as u32;
    (48 <= u && u <= 57) || (97 <= u && u <= 102) || (65 <= u && u <= 70)
}

fn exec_digit_val(c: char) -> (r: u32)
    requires
        is_dec_digit(c),
    ensures
        r == digit_val(c),
{
    c as u32 - 48
}

fn exec_hex_val(c: char) -> (r: u32)
    requires
        is_hex_digit(c),
    ensures
        r == hex_val(c),
{
    let u = c as u32;
    if 48 <= u && u <= 57 {
        u - 48
    } else if 97 <= u && u <= 102 {
        u - 97 + 10
    } else {
        u - 65 + 10
    }
}

fn exec_short_escape(e: char) -> (r: Option<char>)
    ensures
        r == short_escape(e),
{
    if e == '"' {
        Option::Some('"')
    } else if e == '\\' {
        Option::Some('\\')
    } else if e == '/' {
        Option::Some('/')
    } else if e == 'b' {
        Option::Some('\u{8}')
    } else if e == 'f' {
        Option::Some('\u{c}')
    } else if e == 'n' {
        Option::Some('\n')
    } else if e == 'r' {
        Option::Some('\r')
    } else if e == 't' {
        Option::Some('\t')
    } else {
        Option::None
    }
}

fn p_string(s: &Vec<char>, i: usize) -> (r: Option<(Vec<char>, usize)>)
    requires
        i <= s@.len(),
    ensures
        match r {
            Option::Some(p) => sp_string(s@, i as int) == Option::Some((p.0@, p.1 as int)) && i
                < p.1 <= s@.len(),
            Option::None => sp_string(s@, i as int) is None,
        },
{
    let mut acc: Vec<char> = Vec::new();
    let mut k: usize = i;
    loop
        invariant
            i <= k <= s@.len(),
            match sp_string(s@, k as int) {
                Option::Some(p) => sp_string(s@, i as int) == Option::Some((acc@ + p.0, p.1)),
                Option::None => sp_string(s@, i as int) is None,
            },
        decreases s@.len() - k,
    {
        if k >= s.len() {
            return Option::None;
        }
        let c = s[k];
        if c == '"' {
            proof {
                assert(acc@ + Seq::<char>::empty() =~= acc@);
            }
            return Option::Some((acc, k + 1));
        } else if c == '\\' {
            if s.len() - k < 2 {
                return Option::None;
            }
            let e = s[k + 1];
            if e == 'u' {
                if s.len() - k < 6 {
                    return Option::None;
                }
                if !(exec_is_hex_digit(s[k + 2]) && exec_is_hex_digit(s[k + 3]) && exec_is_hex_digit(
                    s[k + 4],
                ) && exec_is_hex_digit(s[k + 5])) {
                    return Option::None;
                }
                let v: u32 = exec_hex_val(s[k + 2]) * 4096 + exec_hex_val(s[k + 3]) * 256
                    + exec_hex_val(s[k + 4]) * 16 + exec_hex_val(s[k + 5]);
                if 0xD800 <= v && v < 0xE000 {
                    return Option::None;
                }
                let decoded = char_from_scalar(v);
                proof {
                    if let Option::Some(p) = sp_string(s@, k + 6) {
                        assert(acc@ + (seq![decoded] + p.0) =~= acc@.push(decoded) + p.0);
                    }
                }
                acc.push(decoded);
                k = k + 6;
            } else {
                match exec_short_escape(e) {
                    Option::Some(decoded) => {
                        proof {
                            if let Option::Some(p) = sp_string(s@, k + 2) {
                                assert(acc@ + (seq![decoded] + p.0) =~= acc@.push(decoded) + p.0);
                            }
                        }
                        acc.push(decoded);
                        k = k + 2;
                    },
                    Option::None => {
                        return Option::None;
                    },
                }
            }
        } else {
            proof {
                if let Option::Some(p) = sp_string(s@, k + 1) {
                    assert(acc@ + (seq![c] + p.0) =~= acc@.push(c) + p.0);
                }
            }
            acc.push(c);
            k = k + 1;
        }
    }
}

fn p_digits_end(s: &Vec<char>, i: usize) -> (r: usize)
    requires
        i <= s@.len(),
    ensures
        r == sp_digits_end(s@, i as int),
        i <= r <= s@.len(),
        i < s@.len() && is_dec_digit(s@[i as int]) ==> i < r,
{
    let mut k: usize = i;
    while k < s.len() && exec_is_dec_digit(s[k])
        invariant
            i <= k <= s@.len(),
            sp_digits_end(s@, i as int) == sp_digits_end(s@, k as int),
            k > i || k == i,
            i < s@.len() && is_dec_digit(s@[i as int]) && k == i ==> k < s@.len()
                && is_dec_digit(s@[k as int]),
        decreases s@.len() - k,
    {
        k = k + 1;
    }
    k
}

fn p_num_end(s: &Vec<char>, i: usize) -> (r: Option<usize>)
    requires
        i < s@.len(),
    ensures
        match r {
            Option::Some(end) => sp_num_end(s@, i as int) == Option::Some(end as int) && i < end
                <= s@.len(),
            Option::None => sp_num_end(s@, i as int) is None,
        },
{
    let len = s.len();
    let p: usize = if s[i] == '-' {
        i + 1
    } else {
        i
    };
    if p >= len || !exec_is_dec_digit(s[p]) {
        return Option::None;
    }
    let q: usize = if s[p] == '0' {
        p + 1
    } else {
        p_digits_end(s, p)
    };
    let r1: usize = if q < s.len() && s[q] == '.' {
        let fe = p_digits_end(s, q + 1);
        if fe == q + 1 {
            return Option::None;
        }
        fe
    } else {
        q
    };
    if r1 < s.len() && (s[r1] == 'e' || s[r1] == 'E') {
        let t: usize = if r1 + 1 < s.len() && (s[r1 + 1] == '+' || s[r1 + 1] == '-') {
            r1 + 2
        } else {
            r1 + 1
        };
        let u = p_digits_end(s, t);
        if u == t {
            return Option::None;
        }
        Option::Some(u)
    } else {
        Option::Some(r1)
    }
}

fn p_number(s: &Vec<char>, i: usize) -> (r: Option<(Json, usize)>)
    requires
        i < s@.len(),
    ensures
        match r {
            Option::Some(p) => sp_number(s@, i as int) == Option::Some((p.0@, p.1 as int)) && i
                < p.1 <= s@.len(),
            Option::None => sp_number(s@, i as int) is None,
        },
{
    let end = match p_num_end(s, i) {
        Option::Some(e) => e,
        Option::None => {
            return Option::None;
        },
    };
    let ghost lex = s@.subrange(i as int, end as int);
    // is the lexeme a plain digit string?
    let mut k: usize = i;
    while k < end && exec_is_dec_digit(s[k])
        invariant
            i <= k <= end <= s@.len(),
            forall|j: int| i <= j < k ==> is_dec_digit(#[trigger] s@[j]),
        decreases end - k,
    {
        k = k + 1;
    }
    if k < end {
        // a sign, dot or exponent occurs: carry the lexeme as text
        proof {
            assert(lex[k - i] == s@[k as int]);
            assert(!all_digits(lex));
        }
        return Option::Some((Json::NumText(lexeme_string(s, i, end)), end));
    }
    proof {
        assert(forall|j: int| 0 <= j < lex.len() ==> lex[j] == s@[i + j]);
        assert(all_digits(lex));
    }
    // accumulate the value, falling back to text when it exceeds 64 bits
    let mut acc: u64 = 0;
    let mut m: usize = i;
    while m < end
        invariant
            i <= m <= end <= s@.len(),
            i < end,
            sp_num_end(s@, i as int) == Option::Some(end as int),
            lex == s@.subrange(i as int, end as int),
            all_digits(lex),
            acc == digits_val(s@.subrange(i as int, m as int)),
            digits_val(s@.subrange(i as int, m as int)) <= u64::MAX,
        decreases end - m,
    {
        let ghost prefix = s@.subrange(i as int, m as int);
        let ghost next = s@.subrange(i as int, m + 1);
        proof {
            assert(next.drop_last() =~= prefix);
            assert(next.last() == s@[m as int]);
            assert(lex[m - i] == s@[m as int]);
        }
        let d: u32 = exec_digit_val(s[m]);
        let overflowed = match acc.checked_mul(10) {
            Option::Some(mul) => match mul.checked_add(d as u64) {
                Option::Some(n) => {
                    acc = n;
                    false
                },
                Option::None => true,
            },
            Option::None => true,
        };
        if overflowed {
            proof {
                assert(digits_val(next) > u64::MAX);
                assert(next =~= lex.take(m + 1 - i));
                lemma_digits_val_extend(lex, m + 1 - i);
                assert(digits_val(lex) > u64::MAX);
            }
            return Option::Some((Json::NumText(lexeme_string(s, i, end)), end));
        }
        m = m + 1;
    }
    proof {
        assert(s@.subrange(i as int, end as int) =~= lex);
    }
    Option::Some((Json::Num(acc), end))
}

/// Copies the characters of `s[i..end]` into a string.
fn lexeme_string(s: &Vec<char>, i: usize, end: usize) -> (r: String)
    requires
        i <= end <= s@.len(),
    ensures
        r@ == s@.subrange(i as int, end as int),
{
    let mut buf: Vec<char> = Vec::new();
    let mut m: usize = i;
    while m < end
        invariant
            i <= m <= end <= s@.len(),
            buf@ == s@.subrange(i as int, m as int),
        decreases end - m,
    {
        proof {
            assert(s@.subrange(i as int, m + 1) =~= s@.subrange(i as int, m as int).push(
                s@[m as int],
            ));
        }
        buf.push(s[m]);
        m = m + 1;
    }
    chars_to_string(&buf)
}

fn p_value(s: &Vec<char>, i: usize) -> (r: Option<(Json, usize)>)
    requires
        i <= s@.len(),
    ensures
        match r {
            Option::Some(p) => sp_value(s@, i as int) == Option::Some((p.0@, p.1 as int)) && i < p.1
                <= s@.len(),
            Option::None => sp_value(s@, i as int) is None,
        },
    decreases s@.len() - i,
{
    let mut k: usize = i;
    while k < s.len() && exec_is_ws(s[k])
        invariant
            i <= k <= s@.len(),
            sp_value(s@, i as int) == sp_value(s@, k as int),
        decreases s@.len() - k,
    {
        k = k + 1;
    }
    if k >= s.len() {
        return Option::None;
    }
    let c = s[k];
    if c == 'n' {
        if s.len() - k >= 4 && s[k + 1] == 'u' && s[k + 2] == 'l' && s[k + 3] == 'l' {
            proof {
                assert(s@.subrange(k as int, k + 4) =~= seq!['n', 'u', 'l', 'l']);
            }
            Option::Some((Json::Null, k + 4))
        } else {
            proof {
                if has_word(s@, k as int, seq!['n', 'u', 'l', 'l']) {
                    assert(s@.subrange(k as int, k + 4)[1] == s@[k + 1]);
                    assert(s@.subrange(k as int, k + 4)[2] == s@[k + 2]);
                    assert(s@.subrange(k as int, k + 4)[3] == s@[k + 3]);
                }
            }
            Option::None
        }
    } else if c == 't' {
        if s.len() - k >= 4 && s[k + 1] == 'r' && s[k + 2] == 'u' && s[k + 3] == 'e' {
            proof {
                assert(s@.subrange(k as int, k + 4) =~= seq!['t', 'r', 'u', 'e']);
            }
            Option::Some((Json::Bool(true), k + 4))
        } else {
            proof {
                if has_word(s@, k as int, seq!['t', 'r', 'u', 'e']) {
                    assert(s@.subrange(k as int, k + 4)[1] == s@[k + 1]);
                    assert(s@.subrange(k as int, k + 4)[2] == s@[k + 2]);
                    assert(s@.subrange(k as int, k + 4)[3] == s@[k + 3]);
                }
            }
            Option::None
        }
    } else if c == 'f' {
        if s.len() - k >= 5 && s[k + 1] == 'a' && s[k + 2] == 'l' && s[k + 3] == 's' && s[k + 4]
            == 'e' {
            proof {
                assert(s@.subrange(k as int, k + 5) =~= seq!['f', 'a', 'l', 's', 'e']);
            }
            Option::Some((Json::Bool(false), k + 5))
        } else {
            proof {
                if has_word(s@, k as int, seq!['f', 'a', 'l', 's', 'e']) {
                    assert(s@.subrange(k as int, k + 5)[1] == s@[k + 1]);
                    assert(s@.subrange(k as int, k + 5)[2] == s@[k + 2]);
                    assert(s@.subrange(k as int, k + 5)[3] == s@[k + 3]);
                    assert(s@.subrange(k as int, k + 5)[4] == s@[k + 4]);
                }
            }
            Option::None
        }
    } else if c == '"' {
        match p_string(s, k + 1) {
            Option::Some(p) => {
                let text = chars_to_string(&p.0);
                Option::Some((Json::Str(text), p.1))
            },
            Option::None => Option::None,
        }
    } else if c == '-' || exec_is_dec_digit(c) {
        match p_number(s, k) {
            Option::Some(p) => Option::Some((p.0, p.1)),
            Option::None => Option::None,
        }
    } else if c == '[' {
        let mut m: usize = k + 1;
        while m < s.len() && exec_is_ws(s[m])
            invariant
                k + 1 <= m <= s@.len(),
                sp_array_body(s@, k + 1) == sp_array_body(s@, m as int),
            decreases s@.len() - m,
        {
            m = m + 1;
        }
        if m >= s.len() {
            return Option::None;
        }
        if s[m] == ']' {
            proof {
                assert(arr_view(Seq::<Json>::empty()) =~= Seq::<JsonV>::empty());
            }
            let elems: Vec<Json> = Vec::new();
            return Option::Some((Json::Arr(elems), m + 1));
        }
        let mut elems: Vec<Json> = Vec::new();
        proof {
            assert(arr_view(elems@) + Seq::<JsonV>::empty() =~= arr_view(elems@));
        }
        loop
            invariant
                i < m <= s@.len(),
                match sp_elems(s@, m as int) {
                    Option::Some(q) => sp_value(s@, i as int) == Option::Some(
                        (JsonV::Arr(arr_view(elems@) + q.0), q.1),
                    ),
                    Option::None => sp_value(s@, i as int) is None,
                },
            decreases s@.len() - m,
        {
            let parsed = p_value(s, m);
            match parsed {
                Option::None => {
                    return Option::None;
                },
                Option::Some(p) => {
                    let (v, j) = p;
                    let ghost old_elems = elems@;
                    proof {
                        lemma_arr_view_push(old_elems, v);
                    }
                    elems.push(v);
                    let mut t: usize = j;
                    while t < s.len() && exec_is_ws(s[t])
                        invariant
                            j <= t <= s@.len(),
                            sp_elems_tail(s@, j as int) == sp_elems_tail(s@, t as int),
                        decreases s@.len() - t,
                    {
                        t = t + 1;
                    }
                    if t >= s.len() {
                        return Option::None;
                    }
                    if s[t] == ',' {
                        proof {
                            if let Option::Some(q) = sp_elems(s@, t + 1) {
                                assert(arr_view(old_elems) + (seq![v@] + q.0) =~= arr_view(elems@)
                                    + q.0);
                            }
                        }
                        m = t + 1;
                    } else if s[t] == ']' {
                        proof {
                            assert(arr_view(old_elems) + (seq![v@] + Seq::<JsonV>::empty())
                                =~= arr_view(elems@) + Seq::<JsonV>::empty());
                            assert(arr_view(elems@) + Seq::<JsonV>::empty() =~= arr_view(elems@));
                        }
                        return Option::Some((Json::Arr(elems), t + 1));
                    } else {
                        return Option::None;
                    }
                },
            }
        }
    } else if c == '{' {
        let mut m: usize = k + 1;
        while m < s.len() && exec_is_ws(s[m])
            invariant
                k + 1 <= m <= s@.len(),
                sp_object_body(s@, k + 1) == sp_object_body(s@, m as int),
            decreases s@.len() - m,
        {
            m = m + 1;
        }
        if m >= s.len() {
            return Option::None;
        }
        if s[m] == '}' {
            proof {
                assert(obj_view(Seq::<(String, Json)>::empty()) =~= Seq::<
                    (Seq<char>, JsonV),
                >::empty());
            }
            let members: Vec<(String, Json)> = Vec::new();
            return Option::Some((Json::Obj(members), m + 1));
        }
        let mut members: Vec<(String, Json)> = Vec::new();
        proof {
            assert(obj_view(members@) + Seq::<(Seq<char>, JsonV)>::empty() =~= obj_view(members@));
        }
        loop
            invariant
                i < m <= s@.len(),
                match sp_members(s@, m as int) {
                    Option::Some(q) => sp_value(s@, i as int) == Option::Some(
                        (JsonV::Obj(obj_view(members@) + q.0), q.1),
                    ),
                    Option::None => sp_value(s@, i as int) is None,
                },
            decreases s@.len() - m,
        {
            let mut w: usize = m;
            while w < s.len() && exec_is_ws(s[w])
                invariant
                    m <= w <= s@.len(),
                    sp_members(s@, m as int) == sp_members(s@, w as int),
                decreases s@.len() - w,
            {
                w = w + 1;
            }
            if w >= s.len() {
                return Option::None;
            }
            if s[w] != '"' {
                return Option::None;
            }
            let key_chars = p_string(s, w + 1);
            match key_chars {
                Option::None => {
                    return Option::None;
                },
                Option::Some(kp) => {
                    let key = chars_to_string(&kp.0);
                    let j = kp.1;
                    let mut t: usize = j;
                    while t < s.len() && exec_is_ws(s[t])
                        invariant
                            j <= t <= s@.len(),
                            key@ == kp.0@,
                            sp_member_value(s@, j as int, key@) == sp_member_value(
                                s@,
                                t as int,
                                key@,
                            ),
                        decreases s@.len() - t,
                    {
                        t = t + 1;
                    }
                    if t >= s.len() {
                        return Option::None;
                    }
                    if s[t] != ':' {
                        return Option::None;
                    }
                    let parsed = p_value(s, t + 1);
                    match parsed {
                        Option::None => {
                            return Option::None;
                        },
                        Option::Some(p) => {
                            let (v, jv) = p;
                            let ghost old_members = members@;
                            proof {
                                lemma_obj_view_push(old_members, key, v);
                            }
                            members.push((key, v));
                            let mut u: usize = jv;
                            while u < s.len() && exec_is_ws(s[u])
                                invariant
                                    jv <= u <= s@.len(),
                                    sp_members_tail(s@, jv as int) == sp_members_tail(
                                        s@,
                                        u as int,
                                    ),
                                decreases s@.len() - u,
                            {
                                u = u + 1;
                            }
                            if u >= s.len() {
                                return Option::None;
                            }
                            if s[u] == ',' {
                                proof {
                                    if let Option::Some(q) = sp_members(s@, u + 1) {
                                        assert(obj_view(old_members) + (seq![(kp.0@, v@)] + q.0)
                                            =~= obj_view(members@) + q.0);
                                    }
                                }
                                m = u + 1;
                            } else if s[u] == '}' {
                                proof {
                                    assert(obj_view(old_members) + (seq![(kp.0@, v@)] + Seq::<
                                        (Seq<char>, JsonV),
                                    >::empty()) =~= obj_view(members@));
                                }
                                return Option::Some((Json::Obj(members), u + 1));
                            } else {
                                return Option::None;
                            }
                        },
                    }
                },
            }
        }
    } else {
        Option::None
    }
}

/// Parses a complete JSON text; returns the value exactly when the text is
/// one well-formed JSON value surrounded by nothing but whitespace.
pub fn parse_text(s: &str) -> (r: Option<Json>)
    ensures
        match r {
            Option::Some(j) => spec_parse(s@) == Option::Some(j@),
            Option::None => spec_parse(s@) is None,
        },
{
    let chars = str_to_chars(s);
    match p_value(&chars, 0) {
        Option::None => Option::None,
        Option::Some(p) => {
            let (v, j) = p;
            let mut t: usize = j;
            while t < chars.len() && exec_is_ws(chars[t])
                invariant
                    j <= t <= chars@.len(),
                    chars@ == s@,
                    all_ws_from(s@, j as int) == all_ws_from(s@, t as int),
                decreases chars@.len() - t,
            {
                t = t + 1;
            }
            if t >= chars.len() {
                Option::Some(v)
            } else {
                Option::None
            }
        },
    }
}

} // verus!
