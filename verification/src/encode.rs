//! Serialization of a JSON value to text.
//!
//! `json_text` states, character by character, what the serialized form of a
//! value is; `to_text` produces exactly that text.  The writer emits no
//! whitespace, keeps object members in order, renders a carried number
//! literal verbatim, and escapes only what must be escaped: the quote, the
//! backslash, and control characters (as `\u00XX`).

use vstd::prelude::*;

use crate::json::{arr_view, obj_view, Json, JsonV};
use crate::text::{chars_to_string, dec_rep, exec_hex_char, hex_char, push_dec, str_to_chars};

verus! {

broadcast use vstd::std_specs::vec::group_vec_axioms, vstd::seq::group_seq_axioms;

/// The escaped form of one character inside a JSON string literal.
pub open spec fn esc_char(c: char) -> Seq<char> {
    if c == '"' {
        seq!['\\', '"']
    } else if c == '\\' {
        seq!['\\', '\\']
    } else if (c as u32) < 32 {
        seq!['\\', 'u', '0', '0', hex_char(((c as u32) as int) / 16), hex_char(((c as u32) as int) % 16)]
    } else {
        seq![c]
    }
}

/// The escaped form of a whole string, without the surrounding quotes.
pub open spec fn esc_str(s: Seq<char>) -> Seq<char>
    decreases s.len(),
{
    if s.len() == 0 {
        Seq::empty()
    } else {
        esc_char(s[0]) + esc_str(s.drop_first())
    }
}

/// The text of a quoted, escaped JSON string literal.
pub open spec fn quoted(s: Seq<char>) -> Seq<char> {
    seq!['"'] + esc_str(s) + seq!['"']
}

/// The serialized text of a JSON value.
pub open spec fn json_text(j: JsonV) -> Seq<char>
    decreases j, 0int,
{
    match j {
        JsonV::Null => seq!['n', 'u', 'l', 'l'],
        JsonV::Bool(b) => if b {
            seq!['t', 'r', 'u', 'e']
        } else {
            seq!['f', 'a', 'l', 's', 'e']
        },
        JsonV::Num(n) => dec_rep(n as nat),
        JsonV::NumText(t) => t,
        JsonV::Str(s) => quoted(s),
        JsonV::Arr(elems) => seq!['['] + items_text(elems, 0) + seq![']'],
        JsonV::Obj(members) => seq!['{'] + members_text(members, 0) + seq!['}'],
    }
}

/// The comma-separated text of the array elements from index `i` on.
pub open spec fn items_text(elems: Seq<JsonV>, i: int) -> Seq<char>
    decreases elems, elems.len() - i,
{
    if i < 0 || i >= elems.len() {
        Seq::empty()
    } else if i == elems.len() - 1 {
        json_text(elems[i])
    } else {
        json_text(elems[i]) + seq![','] + items_text(elems, i + 1)
    }
}

/// The comma-separated text of the object members from index `i` on.
pub open spec fn members_text(members: Seq<(Seq<char>, JsonV)>, i: int) -> Seq<char>
    decreases members, members.len() - i,
{
    if i < 0 || i >= members.len() {
        Seq::empty()
    } else if i == members.len() - 1 {
        quoted(members[i].0) + seq![':'] + json_text(members[i].1)
    } else {
        quoted(members[i].0) + seq![':'] + json_text(members[i].1) + seq![','] + members_text(
            members,
            i + 1,
        )
    }
}

/// Escaping distributes over concatenation.
proof fn lemma_esc_append(s1: Seq<char>, s2: Seq<char>)
    ensures
        esc_str(s1 + s2) == esc_str(s1) + esc_str(s2),
    decreases s1.len(),
{
    if s1.len() == 0 {
        assert(s1 + s2 =~= s2);
        assert(esc_str(s1) + esc_str(s2) =~= esc_str(s2));
    } else {
        assert((s1 + s2).drop_first() =~= s1.drop_first() + s2);
        lemma_esc_append(s1.drop_first(), s2);
        assert(esc_str(s1) + esc_str(s2) =~= esc_char(s1[0]) + (esc_str(s1.drop_first()) + esc_str(
            s2,
        )));
    }
}

fn write_escaped_char(c: char, out: &mut Vec<char>)
    ensures
        final(out)@ == old(out)@ + esc_char(c),
{
    if c == '"' {
        out.push('\\');
        out.push('"');
    } else if c == '\\' {
        out.push('\\');
        out.push('\\');
    } else if (c as u32) < 32 {
        let code: u32 = c as u32;
        out.push('\\');
        out.push('u');
        out.push('0');
        out.push('0');
        out.push(exec_hex_char(code / 16));
        out.push(exec_hex_char(code % 16));
    } else {
        out.push(c);
    }
}

fn write_quoted(s: &str, out: &mut Vec<char>)
    ensures
        final(out)@ == old(out)@ + quoted(s@),
{
    let chars = str_to_chars(s);
    out.push('"');
    let mut i: usize = 0;
    while i < chars.len()
        invariant
            0 <= i <= chars.len(),
            chars@ == s@,
            out@ == old(out)@ + seq!['"'] + esc_str(s@.take(i as int)),
        decreases chars.len() - i,
    {
        proof {
            let c = s@[i as int];
            assert(s@.take(i + 1) =~= s@.take(i as int) + seq![c]);
            lemma_esc_append(s@.take(i as int), seq![c]);
            assert(seq![c].drop_first() =~= Seq::<char>::empty());
            assert(esc_str(seq![c]) =~= esc_char(c) + esc_str(Seq::<char>::empty()));
            assert(esc_char(c) + Seq::<char>::empty() =~= esc_char(c));
        }
        write_escaped_char(chars[i], out);
        i = i + 1;
    }
    proof {
        assert(s@.take(s@.len() as int) =~= s@);
    }
    out.push('"');
    proof {
        assert(final(out)@ =~= old(out)@ + quoted(s@));
    }
}

fn write_value(j: &Json, out: &mut Vec<char>)
    ensures
        final(out)@ == old(out)@ + json_text(j@),
    decreases j, 0int,
{
    match j {
        Json::Null => {
            out.push('n');
            out.push('u');
            out.push('l');
            out.push('l');
            proof {
                assert(final(out)@ =~= old(out)@ + json_text(j@));
            }
        },
        Json::Bool(b) => {
            if *b {
                out.push('t');
                out.push('r');
                out.push('u');
                out.push('e');
            } else {
                out.push('f');
                out.push('a');
                out.push('l');
                out.push('s');
                out.push('e');
            }
            proof {
                assert(final(out)@ =~= old(out)@ + json_text(j@));
            }
        },
        Json::Num(n) => {
            push_dec(*n, out);
        },
        Json::NumText(t) => {
            let mut chars = str_to_chars(t.as_str());
            out.append(&mut chars);
        },
        Json::Str(s) => {
            write_quoted(s.as_str(), out);
        },
        Json::Arr(elems) => {
            out.push('[');
            write_items(elems, 0, out);
            out.push(']');
            proof {
                assert(final(out)@ =~= old(out)@ + json_text(j@));
            }
        },
        Json::Obj(members) => {
            out.push('{');
            write_members(members, 0, out);
            out.push('}');
            proof {
                assert(final(out)@ =~= old(out)@ + json_text(j@));
            }
        },
    }
}

fn write_items(elems: &Vec<Json>, i: usize, out: &mut Vec<char>)
    requires
        i <= elems@.len(),
    ensures
        final(out)@ == old(out)@ + items_text(arr_view(elems@), i as int),
    decreases elems, elems@.len() - i,
{
    let ghost ev = arr_view(elems@);
    if i < elems.len() {
        write_value(&elems[i], out);
        if i + 1 < elems.len() {
            out.push(',');
            write_items(elems, i + 1, out);
            proof {
                assert(final(out)@ =~= old(out)@ + items_text(ev, i as int));
            }
        }
    }
}

fn write_members(members: &Vec<(String, Json)>, i: usize, out: &mut Vec<char>)
    requires
        i <= members@.len(),
    ensures
        final(out)@ == old(out)@ + members_text(obj_view(members@), i as int),
    decreases members, members@.len() - i,
{
    let ghost mv = obj_view(members@);
    if i < members.len() {
        write_quoted(members[i].0.as_str(), out);
        out.push(':');
        write_value(&members[i].1, out);
        if i + 1 < members.len() {
            out.push(',');
            write_members(members, i + 1, out);
        }
        proof {
            assert(final(out)@ =~= old(out)@ + members_text(mv, i as int));
        }
    }
}

/// Serializes a JSON value to its text.
pub fn to_text(j: &Json) -> (r: String)
    ensures
        r@ == json_text(j@),
{
    let mut out: Vec<char> = Vec::new();
    write_value(j, &mut out);
    proof {
        assert(out@ =~= json_text(j@));
    }
    chars_to_string(&out)
}

} // verus!
