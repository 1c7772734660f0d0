//! The codec round trip: parsing the serialized text of a JSON value
//! yields that value back, for every value whose numbers are held as
//! unsigned 64-bit integers — which is every payload the library builds.
//! This is the law the dispatch layer's encode and decode sides rest on;
//! `lemma_parse_of_text` at the bottom states it for complete texts.

use vstd::prelude::*;

use crate::encode::{esc_char, esc_str, items_text, json_text, members_text, quoted};
use crate::json::{all_nums_u64, JsonV};
use crate::parse::{
    all_digits, all_ws_from, has_word, hex_val, is_hex_digit, is_num_extender, is_ws,
    short_escape, sp_array_body, sp_digits_end, sp_elems, sp_elems_tail, sp_exp_end, sp_frac_end,
    sp_member_value, sp_members, sp_members_tail, sp_num_end, sp_number, sp_object_body,
    sp_string, sp_value, spec_parse,
};
use crate::text::{
    dec_rep, digits_val, hex_char, is_dec_digit, lemma_dec_rep_digits, lemma_dec_rep_val,
};

verus! {

broadcast use vstd::seq::group_seq_axioms;

/// The text `t` occupies positions `i` to `i + t.len()` of `s`.
pub open spec fn region(s: Seq<char>, i: int, t: Seq<char>) -> bool {
    0 <= i && i + t.len() <= s.len() && s.subrange(i, i + t.len() as int) == t
}

proof fn lemma_region_index(s: Seq<char>, i: int, t: Seq<char>, j: int)
    requires
        region(s, i, t),
        0 <= j < t.len(),
    ensures
        s[i + j] == t[j],
{
    assert(s.subrange(i, i + t.len() as int)[j] == s[i + j]);
}

proof fn lemma_region_split(s: Seq<char>, i: int, t1: Seq<char>, t2: Seq<char>)
    requires
        region(s, i, t1 + t2),
    ensures
        region(s, i, t1),
        region(s, i + t1.len(), t2),
{
    let l1 = t1.len() as int;
    let l2 = t2.len() as int;
    assert forall|j: int| 0 <= j < l1 implies s[i + j] == t1[j] by {
        lemma_region_index(s, i, t1 + t2, j);
    }
    assert(s.subrange(i, i + l1) =~= t1);
    assert forall|j: int| 0 <= j < l2 implies s[i + l1 + j] == t2[j] by {
        lemma_region_index(s, i, t1 + t2, l1 + j);
    }
    assert(s.subrange(i + l1, i + l1 + l2) =~= t2);
}

/// A region of digits with no digit after it is exactly what a digit run
/// consumes.
proof fn lemma_digits_run(s: Seq<char>, i: int, ds: Seq<char>)
    requires
        region(s, i, ds),
        forall|j: int| 0 <= j < ds.len() ==> is_dec_digit(#[trigger] ds[j]),
        i + ds.len() == s.len() || !is_dec_digit(s[i + ds.len()]),
    ensures
        sp_digits_end(s, i) == i + ds.len(),
    decreases ds.len(),
{
    if ds.len() == 0 {
    } else {
        lemma_region_index(s, i, ds, 0);
        assert(is_dec_digit(ds[0]));
        assert(seq![ds[0]] + ds.drop_first() =~= ds);
        lemma_region_split(s, i, seq![ds[0]], ds.drop_first());
        lemma_digits_run(s, i + 1, ds.drop_first());
    }
}

/// Parsing at the decimal rendering of `n` yields `n`, provided no
/// character that could extend the number follows it.
proof fn lemma_parse_number(s: Seq<char>, i: int, n: u64)
    requires
        region(s, i, dec_rep(n as nat)),
        i + dec_rep(n as nat).len() == s.len() || !is_num_extender(
            s[i + dec_rep(n as nat).len()],
        ),
    ensures
        sp_number(s, i) == Option::Some((JsonV::Num(n), i + dec_rep(n as nat).len())),
{
    let ds = dec_rep(n as nat);
    let end = i + ds.len();
    lemma_dec_rep_digits(n as nat);
    lemma_dec_rep_val(n as nat);
    lemma_region_index(s, i, ds, 0);
    assert(is_dec_digit(s[i]));
    assert(s[i] != '-');
    // the integer part runs to `end` exactly
    if s[i] == '0' {
        assert(ds[0] == '0');
        assert(n == 0);
        assert(ds.len() == 1);
    } else {
        lemma_digits_run(s, i, ds);
    }
    // no fraction or exponent can follow
    assert(end == s.len() || (s[end] != '.' && s[end] != 'e' && s[end] != 'E'));
    assert(sp_frac_end(s, end) == Option::Some(end));
    assert(sp_exp_end(s, end) == Option::Some(end));
    assert(sp_num_end(s, i) == Option::Some(end));
    let lex = s.subrange(i, end);
    assert(lex == ds);
    assert(all_digits(lex));
    assert(digits_val(lex) == n);
}

/// Parsing just after a quote, at the escaped text of `str` followed by a
/// closing quote, yields `str`.
proof fn lemma_parse_string(s: Seq<char>, i: int, text: Seq<char>)
    requires
        region(s, i, esc_str(text)),
        i + esc_str(text).len() < s.len(),
        s[i + esc_str(text).len()] == '"',
    ensures
        sp_string(s, i) == Option::Some((text, i + esc_str(text).len() + 1)),
    decreases text.len(),
{
    if text.len() == 0 {
        assert(esc_str(text).len() == 0);
        assert(s[i] == '"');
    } else {
        let c = text[0];
        let e = esc_char(c);
        let rest = text.drop_first();
        assert(esc_str(text) == e + esc_str(rest));
        lemma_region_split(s, i, e, esc_str(rest));
        lemma_parse_string(s, i + e.len(), rest);
        assert(seq![c] + rest =~= text);
        if c == '"' {
            // escaped as backslash quote
            lemma_region_index(s, i, e, 0);
            lemma_region_index(s, i, e, 1);
            assert(s[i] == '\\' && s[i + 1] == '"');
            assert(short_escape(s[i + 1]) == Option::Some('"'));
        } else if c == '\\' {
            lemma_region_index(s, i, e, 0);
            lemma_region_index(s, i, e, 1);
            assert(s[i] == '\\' && s[i + 1] == '\\');
            assert(short_escape(s[i + 1]) == Option::Some('\\'));
        } else if (c as u32) < 32 {
            let code = (c as u32) as int;
            lemma_region_index(s, i, e, 0);
            lemma_region_index(s, i, e, 1);
            lemma_region_index(s, i, e, 2);
            lemma_region_index(s, i, e, 3);
            lemma_region_index(s, i, e, 4);
            lemma_region_index(s, i, e, 5);
            assert(s[i] == '\\' && s[i + 1] == 'u' && s[i + 2] == '0' && s[i + 3] == '0');
            assert(s[i + 4] == hex_char(code / 16) && s[i + 5] == hex_char(code % 16));
            lemma_hex_char_val(code / 16);
            lemma_hex_char_val(code % 16);
            assert(hex_val('0') == 0);
            let v = hex_val(s[i + 2]) * 4096 + hex_val(s[i + 3]) * 256 + hex_val(s[i + 4]) * 16
                + hex_val(s[i + 5]);
            assert(code == 16 * (code / 16) + code % 16);
            assert(v == code);
            vstd::utf8::char_u32_cast(c, c as u32);
            assert((v as u32) as char == c);
        } else {
            lemma_region_index(s, i, e, 0);
            assert(s[i] == c);
        }
    }
}

/// A hexadecimal digit character denotes its digit.
proof fn lemma_hex_char_val(d: int)
    requires
        0 <= d < 16,
    ensures
        is_hex_digit(hex_char(d)),
        hex_val(hex_char(d)) == d,
{
}

/// Serialized text of a value whose numbers are all integer-valued is
/// never empty, and its first character is never whitespace nor a closing
/// delimiter.
proof fn lemma_json_text_first(v: JsonV)
    requires
        all_nums_u64(v),
    ensures
        json_text(v).len() >= 1,
        !is_ws(json_text(v)[0]),
        json_text(v)[0] != ']',
        json_text(v)[0] != '}',
{
    match v {
        JsonV::Num(n) => {
            lemma_dec_rep_digits(n as nat);
        },
        _ => {},
    }
}

/// Parsing at the serialized text of `v` yields `v` and stops right after it.
proof fn lemma_parse_value(s: Seq<char>, i: int, v: JsonV)
    requires
        region(s, i, json_text(v)),
        all_nums_u64(v),
        v is Num ==> i + json_text(v).len() == s.len() || !is_num_extender(
            s[i + json_text(v).len()],
        ),
    ensures
        sp_value(s, i) == Option::Some((v, i + json_text(v).len())),
    decreases v, 0int,
{
    let t = json_text(v);
    let end = i + t.len();
    lemma_json_text_first(v);
    lemma_region_index(s, i, t, 0);
    match v {
        JsonV::Null => {
            assert(has_word(s, i, seq!['n', 'u', 'l', 'l']));
        },
        JsonV::Bool(b) => {
            if b {
                assert(has_word(s, i, seq!['t', 'r', 'u', 'e']));
            } else {
                assert(has_word(s, i, seq!['f', 'a', 'l', 's', 'e']));
            }
        },
        JsonV::Num(n) => {
            lemma_dec_rep_digits(n as nat);
            lemma_parse_number(s, i, n);
        },
        JsonV::NumText(_) => {
            assert(false);
        },
        JsonV::Str(text) => {
            assert(t == seq!['"'] + (esc_str(text) + seq!['"']));
            lemma_region_split(s, i, seq!['"'], esc_str(text) + seq!['"']);
            lemma_region_split(s, i + 1, esc_str(text), seq!['"']);
            lemma_region_index(s, i + 1 + esc_str(text).len(), seq!['"'], 0);
            lemma_parse_string(s, i + 1, text);
        },
        JsonV::Arr(elems) => {
            assert(t == seq!['['] + (items_text(elems, 0) + seq![']']));
            lemma_region_split(s, i, seq!['['], items_text(elems, 0) + seq![']']);
            lemma_region_split(s, i + 1, items_text(elems, 0), seq![']']);
            lemma_region_index(s, i + 1 + items_text(elems, 0).len(), seq![']'], 0);
            let after = i + 1 + items_text(elems, 0).len();
            assert(s[after] == ']');
            if elems.len() == 0 {
                assert(items_text(elems, 0).len() == 0);
                assert(s[i + 1] == ']');
                assert(sp_array_body(s, i + 1) == Option::Some(
                    (JsonV::Arr(Seq::<JsonV>::empty()), i + 2),
                ));
                assert(elems =~= Seq::<JsonV>::empty());
            } else {
                let aa = JsonV::Arr(elems)->Arr_0;
                assert(aa == elems);
                assert(all_nums_u64(aa[0]));
                assert(all_nums_u64(elems[0]));
                lemma_json_text_first(elems[0]);
                assert(items_text(elems, 0)[0] == json_text(elems[0])[0]);
                lemma_region_index(s, i + 1, items_text(elems, 0), 0);
                lemma_parse_items(s, i + 1, elems, 0);
                assert(elems.skip(0) =~= elems);
            }
        },
        JsonV::Obj(members) => {
            assert(t == seq!['{'] + (members_text(members, 0) + seq!['}']));
            lemma_region_split(s, i, seq!['{'], members_text(members, 0) + seq!['}']);
            lemma_region_split(s, i + 1, members_text(members, 0), seq!['}']);
            lemma_region_index(s, i + 1 + members_text(members, 0).len(), seq!['}'], 0);
            let after = i + 1 + members_text(members, 0).len();
            assert(s[after] == '}');
            if members.len() == 0 {
                assert(members_text(members, 0).len() == 0);
                assert(s[i + 1] == '}');
                assert(sp_object_body(s, i + 1) == Option::Some(
                    (JsonV::Obj(Seq::<(Seq<char>, JsonV)>::empty()), i + 2),
                ));
                assert(members =~= Seq::<(Seq<char>, JsonV)>::empty());
            } else {
                assert(members_text(members, 0)[0] == '"');
                lemma_region_index(s, i + 1, members_text(members, 0), 0);
                lemma_parse_members(s, i + 1, members, 0);
                assert(members.skip(0) =~= members);
            }
        },
    }
}

/// Parsing at the comma-separated text of elements `k..` yields them, given
/// the closing bracket right after.
proof fn lemma_parse_items(s: Seq<char>, i: int, elems: Seq<JsonV>, k: int)
    requires
        0 <= k < elems.len(),
        all_nums_u64(JsonV::Arr(elems)),
        region(s, i, items_text(elems, k)),
        i + items_text(elems, k).len() < s.len(),
        s[i + items_text(elems, k).len()] == ']',
    ensures
        sp_elems(s, i) == Option::Some((elems.skip(k), i + items_text(elems, k).len() + 1)),
    decreases elems, elems.len() - k,
{
    let t = items_text(elems, k);
    let vt = json_text(elems[k]);
    let aa = JsonV::Arr(elems)->Arr_0;
    assert(aa == elems);
    assert(all_nums_u64(aa[k]));
    assert(all_nums_u64(elems[k]));
    lemma_json_text_first(elems[k]);
    if k == elems.len() - 1 {
        assert(t == vt);
        let j = i + vt.len();
        assert(s[j] == ']');
        assert(!is_num_extender(']'));
        lemma_parse_value(s, i, elems[k]);
        assert(sp_elems_tail(s, j) == Option::Some((Seq::<JsonV>::empty(), j + 1)));
        assert(seq![elems[k]] + Seq::<JsonV>::empty() =~= elems.skip(k));
    } else {
        assert(t == vt + (seq![','] + items_text(elems, k + 1)));
        lemma_region_split(s, i, vt, seq![','] + items_text(elems, k + 1));
        lemma_region_split(s, i + vt.len(), seq![','], items_text(elems, k + 1));
        let j = i + vt.len();
        lemma_region_index(s, j, seq![','], 0);
        assert(s[j] == ',');
        assert(!is_num_extender(','));
        lemma_parse_value(s, i, elems[k]);
        lemma_parse_items(s, j + 1, elems, k + 1);
        assert(sp_elems_tail(s, j) == sp_elems(s, j + 1));
        assert(seq![elems[k]] + elems.skip(k + 1) =~= elems.skip(k));
    }
}

/// Parsing at the comma-separated text of members `k..` yields them, given
/// the closing brace right after.
proof fn lemma_parse_members(s: Seq<char>, i: int, members: Seq<(Seq<char>, JsonV)>, k: int)
    requires
        0 <= k < members.len(),
        all_nums_u64(JsonV::Obj(members)),
        region(s, i, members_text(members, k)),
        i + members_text(members, k).len() < s.len(),
        s[i + members_text(members, k).len()] == '}',
    ensures
        sp_members(s, i) == Option::Some(
            (members.skip(k), i + members_text(members, k).len() + 1),
        ),
    decreases members, members.len() - k,
{
    let t = members_text(members, k);
    let key = members[k].0;
    let val = members[k].1;
    let kt = quoted(key);
    let vt = json_text(val);
    let mm = JsonV::Obj(members)->Obj_0;
    assert(mm == members);
    assert(all_nums_u64(mm[k].1));
    assert(all_nums_u64(members[k].1));
    lemma_json_text_first(val);
    let j = i + kt.len();  // at the colon
    let jv = j + 1 + vt.len();  // just after the value
    if k == members.len() - 1 {
        assert(t == (kt + seq![':']) + vt);
        lemma_region_split(s, i, kt + seq![':'], vt);
        lemma_region_split(s, i, kt, seq![':']);
        assert((kt + seq![':']).len() == kt.len() + 1);
    } else {
        assert(t == ((kt + seq![':']) + vt) + (seq![','] + members_text(members, k + 1)));
        lemma_region_split(s, i, (kt + seq![':']) + vt, seq![','] + members_text(members, k + 1));
        lemma_region_split(s, i, kt + seq![':'], vt);
        lemma_region_split(s, i, kt, seq![':']);
    }
    // the key string
    assert(kt == seq!['"'] + (esc_str(key) + seq!['"']));
    lemma_region_split(s, i, seq!['"'], esc_str(key) + seq!['"']);
    lemma_region_split(s, i + 1, esc_str(key), seq!['"']);
    lemma_region_index(s, i, kt, 0);
    lemma_region_index(s, i + 1 + esc_str(key).len(), seq!['"'], 0);
    lemma_parse_string(s, i + 1, key);
    assert(s[i] == '"');
    assert(!is_ws(s[i]));
    assert(sp_string(s, i + 1) == Option::Some((key, j)));
    assert(i + 1 < j <= s.len());
    assert(sp_members(s, i) == sp_member_value(s, j, key));
    // the colon
    lemma_region_index(s, j, seq![':'], 0);
    assert(s[j] == ':');
    // the character just after the value is a comma or the closing brace
    if k == members.len() - 1 {
        assert(jv == i + t.len());
        assert(s[jv] == '}');
    } else {
        lemma_region_split(s, jv, seq![','], members_text(members, k + 1));
        lemma_region_index(s, jv, seq![','], 0);
        assert(s[jv] == ',');
    }
    assert(!is_num_extender(s[jv]));
    // the value
    lemma_region_index(s, j + 1, vt, 0);
    lemma_parse_value(s, j + 1, val);
    assert(sp_value(s, j + 1) == Option::Some((val, jv)));
    if k == members.len() - 1 {
        assert(sp_members_tail(s, jv) == Option::Some((Seq::<(Seq<char>, JsonV)>::empty(), jv + 1)));
        assert((key, val) == members[k]);
        assert(seq![(key, val)] + Seq::<(Seq<char>, JsonV)>::empty() =~= members.skip(k));
    } else {
        lemma_parse_members(s, jv + 1, members, k + 1);
        assert(sp_members_tail(s, jv) == sp_members(s, jv + 1));
        assert((key, val) == members[k]);
        assert(seq![(key, val)] + members.skip(k + 1) =~= members.skip(k));
    }
}

/// The round trip: the serialized text of a JSON value parses back to
/// exactly that value, for every value whose numbers are unsigned 64-bit
/// integers — the form of every payload the library builds.  (A number
/// carried as literal text round-trips verbatim only when its lexeme is in
/// the parser's shape, which nothing constrains here.)
pub proof fn lemma_parse_of_text(v: JsonV)
    requires
        all_nums_u64(v),
    ensures
        spec_parse(json_text(v)) == Option::Some(v),
{
    let s = json_text(v);
    lemma_json_text_first(v);
    assert(s.subrange(0, s.len() as int) =~= s);
    assert(region(s, 0, s));
    lemma_parse_value(s, 0, v);
    assert(all_ws_from(s, s.len() as int));
}

} // verus!
