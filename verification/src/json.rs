//! A JSON value tree, the wire shape every payload and response body of the
//! service takes.  `Json` is the executable tree; `JsonV` is its mathematical
//! counterpart, with character sequences in place of strings, used by every
//! contract in the crate.
//!
//! Numbers come in two forms.  An unsigned integer that fits 64 bits — the
//! form of every numeric field the service exchanges, such as an attachment
//! size — is held as its value in `Num`.  Any other well-formed JSON number
//! (negative, fractional, with an exponent, or too large) is carried
//! verbatim in `NumText` as the literal text it arrived with, and is
//! re-rendered exactly; only the `Num` form backs the typed record fields.

use vstd::prelude::*;

verus! {

broadcast use vstd::std_specs::vec::group_vec_axioms, vstd::seq::group_seq_axioms;

/// An executable JSON value.  Object members keep the order they were written
/// or parsed in; duplicate keys are kept, and lookups take the first match.
#[derive(Debug)]
pub enum Json {
    Null,
    Bool(bool),
    Num(u64),
    /// A number carried as its literal text.
    NumText(String),
    Str(String),
    Arr(Vec<Json>),
    Obj(Vec<(String, Json)>),
}

/// The mathematical shape of a JSON value.
#[verifier::ext_equal]
pub enum JsonV {
    Null,
    Bool(bool),
    Num(u64),
    /// A number carried as its literal text.
    NumText(Seq<char>),
    Str(Seq<char>),
    Arr(Seq<JsonV>),
    Obj(Seq<(Seq<char>, JsonV)>),
}

/// The element-wise view of a sequence of JSON values.
pub open spec fn arr_view(elems: Seq<Json>) -> Seq<JsonV>
    decreases elems,
{
    Seq::new(
        elems.len(),
        |i: int|
            if 0 <= i < elems.len() {
                elems[i]@
            } else {
                JsonV::Null
            },
    )
}

/// The element-wise view of a sequence of object members.
pub open spec fn obj_view(members: Seq<(String, Json)>) -> Seq<(Seq<char>, JsonV)>
    decreases members,
{
    Seq::new(
        members.len(),
        |i: int|
            if 0 <= i < members.len() {
                (members[i].0@, members[i].1@)
            } else {
                (Seq::<char>::empty(), JsonV::Null)
            },
    )
}

impl View for Json {
    type V = JsonV;

    open spec fn view(&self) -> JsonV
        decreases self,
    {
        match self {
            Json::Null => JsonV::Null,
            Json::Bool(b) => JsonV::Bool(*b),
            Json::Num(n) => JsonV::Num(*n),
            Json::NumText(t) => JsonV::NumText(t@),
            Json::Str(s) => JsonV::Str(s@),
            Json::Arr(elems) => JsonV::Arr(arr_view(elems@)),
            Json::Obj(members) => JsonV::Obj(obj_view(members@)),
        }
    }
}

pub proof fn lemma_arr_view_push(elems: Seq<Json>, e: Json)
    ensures
        arr_view(elems.push(e)) == arr_view(elems).push(e@),
{
    assert(arr_view(elems.push(e)) =~= arr_view(elems).push(e@));
}

pub proof fn lemma_obj_view_push(members: Seq<(String, Json)>, k: String, v: Json)
    ensures
        obj_view(members.push((k, v))) == obj_view(members).push((k@, v@)),
{
    assert(obj_view(members.push((k, v))) =~= obj_view(members).push((k@, v@)));
}

/// Whether every number in the value is held as an unsigned 64-bit
/// integer, none carried as literal text.  Every payload the library
/// builds is of this form.
pub open spec fn all_nums_u64(v: JsonV) -> bool
    decreases v,
{
    match v {
        JsonV::NumText(_) => false,
        JsonV::Arr(a) => forall|k: int| 0 <= k < a.len() ==> all_nums_u64(#[trigger] a[k]),
        JsonV::Obj(m) => forall|k: int| 0 <= k < m.len() ==> all_nums_u64(#[trigger] m[k].1),
        _ => true,
    }
}

/// The value of the first member named `key`, if any.
pub open spec fn spec_lookup(members: Seq<(Seq<char>, JsonV)>, key: Seq<char>) -> Option<JsonV>
    decreases members.len(),
{
    if members.len() == 0 {
        Option::None
    } else if members[0].0 == key {
        Option::Some(members[0].1)
    } else {
        spec_lookup(members.drop_first(), key)
    }
}

/// Whether some member is named `key`.
pub open spec fn spec_has_key(members: Seq<(Seq<char>, JsonV)>, key: Seq<char>) -> bool {
    spec_lookup(members, key) is Some
}

impl Json {
    /// The value of the first member named `key` of an object, `None` when the
    /// value is not an object or has no such member.
    pub fn get<'a>(&'a self, key: &str) -> (r: Option<&'a Json>)
        ensures
            match r {
                Option::Some(v) => self@ matches JsonV::Obj(m) && spec_lookup(m, key@)
                    == Option::Some(v@),
                Option::None => !(self@ matches JsonV::Obj(m) && spec_has_key(m, key@)),
            },
    {
        match self {
            Json::Obj(members) => lookup_in(members, key),
            _ => Option::None,
        }
    }

    /// A structurally equal copy of this value.
    pub fn deep_clone(&self) -> (r: Json)
        ensures
            r@ == self@,
        decreases self,
    {
        match self {
            Json::Null => Json::Null,
            Json::Bool(b) => Json::Bool(*b),
            Json::Num(n) => Json::Num(*n),
            Json::NumText(t) => Json::NumText(t.clone()),
            Json::Str(s) => Json::Str(s.clone()),
            Json::Arr(elems) => Json::Arr(clone_elems(elems)),
            Json::Obj(members) => Json::Obj(clone_members(members)),
        }
    }

    /// The string text of member `key`, when it is a string.
    pub fn get_str(&self, key: &str) -> (r: Option<String>)
        ensures
            match r {
                Option::Some(st) => jv_has_str(self@, key@) && st@ == jv_str(self@, key@),
                Option::None => !jv_has_str(self@, key@),
            },
    {
        match self.get(key) {
            Option::Some(v) => match v {
                Json::Str(s) => Option::Some(s.clone()),
                _ => Option::None,
            },
            Option::None => Option::None,
        }
    }

    /// The numeric value of member `key`, when it is a number.
    pub fn get_num(&self, key: &str) -> (r: Option<u64>)
        ensures
            match r {
                Option::Some(n) => jv_has_num(self@, key@) && n == jv_num(self@, key@),
                Option::None => !jv_has_num(self@, key@),
            },
    {
        match self.get(key) {
            Option::Some(v) => match v {
                Json::Num(n) => Option::Some(*n),
                _ => Option::None,
            },
            Option::None => Option::None,
        }
    }

    /// The boolean value of member `key`, when it is a boolean.
    pub fn get_bool(&self, key: &str) -> (r: Option<bool>)
        ensures
            match r {
                Option::Some(b) => jv_has_bool(self@, key@) && b == jv_bool(self@, key@),
                Option::None => !jv_has_bool(self@, key@),
            },
    {
        match self.get(key) {
            Option::Some(v) => match v {
                Json::Bool(b) => Option::Some(*b),
                _ => Option::None,
            },
            Option::None => Option::None,
        }
    }

    /// An optional string member: `None` only when the member is present but
    /// neither a string nor null.
    pub fn get_opt_str(&self, key: &str) -> (r: Option<Option<String>>)
        ensures
            match r {
                Option::Some(o) => jv_opt_str_ok(self@, key@) && match o {
                    Option::Some(st) => jv_opt_str(self@, key@) == Option::Some(st@),
                    Option::None => jv_opt_str(self@, key@) is None,
                },
                Option::None => !jv_opt_str_ok(self@, key@),
            },
    {
        match self.get(key) {
            Option::None => Option::Some(Option::None),
            Option::Some(v) => match v {
                Json::Null => Option::Some(Option::None),
                Json::Str(s) => Option::Some(Option::Some(s.clone())),
                _ => Option::None,
            },
        }
    }

    /// An optional member of any shape; absent and null both yield `None`.
    pub fn get_opt_val(&self, key: &str) -> (r: Option<Json>)
        ensures
            match r {
                Option::Some(v) => jv_opt_val(self@, key@) == Option::Some(v@),
                Option::None => jv_opt_val(self@, key@) is None,
            },
    {
        match self.get(key) {
            Option::None => Option::None,
            Option::Some(v) => match v {
                Json::Null => Option::None,
                other => Option::Some(other.deep_clone()),
            },
        }
    }

    /// An optional string-list member: `None` only when the member is
    /// present but neither a string array nor null.
    pub fn get_opt_strs(&self, key: &str) -> (r: Option<Option<Vec<String>>>)
        ensures
            match r {
                Option::Some(o) => jv_opt_strs_ok(self@, key@) && match o {
                    Option::Some(vs) => jv_opt_strs(self@, key@) == Option::Some(vs.deep_view()),
                    Option::None => jv_opt_strs(self@, key@) is None,
                },
                Option::None => !jv_opt_strs_ok(self@, key@),
            },
    {
        match self.get(key) {
            Option::None => Option::Some(Option::None),
            Option::Some(v) => match v {
                Json::Null => Option::Some(Option::None),
                Json::Arr(_) => match self.get_str_arr(key) {
                    Option::Some(vs) => Option::Some(Option::Some(vs)),
                    Option::None => Option::None,
                },
                _ => Option::None,
            },
        }
    }

    /// The texts of member `key`, when it is an array of strings.
    pub fn get_str_arr(&self, key: &str) -> (r: Option<Vec<String>>)
        ensures
            match r {
                Option::Some(vs) => jv_has_str_arr(self@, key@) && vs.deep_view() == jv_str_arr(
                    self@,
                    key@,
                ),
                Option::None => !jv_has_str_arr(self@, key@),
            },
    {
        match self.get(key) {
            Option::Some(v) => match v {
                Json::Arr(elems) => {
                    let mut out: Vec<String> = Vec::new();
                    let mut i: usize = 0;
                    while i < elems.len()
                        invariant
                            0 <= i <= elems@.len(),
                            out@.len() == i,
                            jv_get(self@, key@) == Option::Some(JsonV::Arr(arr_view(elems@))),
                            forall|k: int| 0 <= k < i ==> elems@[k]@ is Str,
                            forall|k: int|
                                0 <= k < i ==> out@[k]@ == arr_view(elems@)[k]->Str_0,
                        decreases elems@.len() - i,
                    {
                        match &elems[i] {
                            Json::Str(s) => {
                                out.push(s.clone());
                            },
                            _ => {
                                proof {
                                    assert(jv_get(self@, key@) == Option::Some(
                                        JsonV::Arr(arr_view(elems@)),
                                    ));
                                    assert(arr_view(elems@)[i as int] == elems@[i as int]@);
                                    assert(!(arr_view(elems@)[i as int] is Str));
                                }
                                return Option::None;
                            },
                        }
                        i = i + 1;
                    }
                    proof {
                        assert(forall|k: int|
                            0 <= k < arr_view(elems@).len() ==> arr_view(elems@)[k]
                                == elems@[k]@);
                        assert(out.deep_view() =~= jv_str_arr(self@, key@));
                    }
                    Option::Some(out)
                },
                _ => Option::None,
            },
            Option::None => Option::None,
        }
    }
}

/// The value of member `key`, when `j` is an object that has it.
pub open spec fn jv_get(j: JsonV, key: Seq<char>) -> Option<JsonV> {
    match j {
        JsonV::Obj(m) => spec_lookup(m, key),
        _ => Option::None,
    }
}

/// Whether member `key` is a string; `jv_str` is then its text.
pub open spec fn jv_has_str(j: JsonV, key: Seq<char>) -> bool {
    jv_get(j, key) matches Option::Some(JsonV::Str(_))
}

pub open spec fn jv_str(j: JsonV, key: Seq<char>) -> Seq<char> {
    match jv_get(j, key) {
        Option::Some(JsonV::Str(s)) => s,
        _ => Seq::empty(),
    }
}

/// Whether member `key` is a number; `jv_num` is then its value.
pub open spec fn jv_has_num(j: JsonV, key: Seq<char>) -> bool {
    jv_get(j, key) matches Option::Some(JsonV::Num(_))
}

pub open spec fn jv_num(j: JsonV, key: Seq<char>) -> u64 {
    match jv_get(j, key) {
        Option::Some(JsonV::Num(n)) => n,
        _ => 0,
    }
}

/// Whether member `key` is a boolean; `jv_bool` is then its value.
pub open spec fn jv_has_bool(j: JsonV, key: Seq<char>) -> bool {
    jv_get(j, key) matches Option::Some(JsonV::Bool(_))
}

pub open spec fn jv_bool(j: JsonV, key: Seq<char>) -> bool {
    match jv_get(j, key) {
        Option::Some(JsonV::Bool(b)) => b,
        _ => false,
    }
}

/// Whether member `key` is an array of strings; `jv_str_arr` is then its
/// texts.
pub open spec fn jv_has_str_arr(j: JsonV, key: Seq<char>) -> bool {
    match jv_get(j, key) {
        Option::Some(JsonV::Arr(a)) => forall|k: int| 0 <= k < a.len() ==> a[k] is Str,
        _ => false,
    }
}

pub open spec fn jv_str_arr(j: JsonV, key: Seq<char>) -> Seq<Seq<char>> {
    match jv_get(j, key) {
        Option::Some(JsonV::Arr(a)) => Seq::new(
            a.len(),
            |k: int|
                match a[k] {
                    JsonV::Str(s) => s,
                    _ => Seq::empty(),
                },
        ),
        _ => Seq::empty(),
    }
}

/// An optional string-list member: absent and null both mean "not set";
/// when present it must be an array of strings.
pub open spec fn jv_opt_strs_ok(j: JsonV, key: Seq<char>) -> bool {
    match jv_get(j, key) {
        Option::None => true,
        Option::Some(JsonV::Null) => true,
        Option::Some(JsonV::Arr(a)) => forall|k: int| 0 <= k < a.len() ==> a[k] is Str,
        _ => false,
    }
}

pub open spec fn jv_opt_strs(j: JsonV, key: Seq<char>) -> Option<Seq<Seq<char>>> {
    match jv_get(j, key) {
        Option::Some(JsonV::Arr(a)) => Option::Some(
            Seq::new(
                a.len(),
                |k: int|
                    match a[k] {
                        JsonV::Str(s) => s,
                        _ => Seq::empty(),
                    },
            ),
        ),
        _ => Option::None,
    }
}

/// An optional member of any shape: absent and null both mean "not set".
pub open spec fn jv_opt_val(j: JsonV, key: Seq<char>) -> Option<JsonV> {
    match jv_get(j, key) {
        Option::None => Option::None,
        Option::Some(JsonV::Null) => Option::None,
        Option::Some(x) => Option::Some(x),
    }
}

/// An optional string member: it may be absent or null, but when present it
/// must be a string.  `jv_opt_str` is its text when present.
pub open spec fn jv_opt_str_ok(j: JsonV, key: Seq<char>) -> bool {
    match jv_get(j, key) {
        Option::None => true,
        Option::Some(JsonV::Null) => true,
        Option::Some(JsonV::Str(_)) => true,
        _ => false,
    }
}

pub open spec fn jv_opt_str(j: JsonV, key: Seq<char>) -> Option<Seq<char>> {
    match jv_get(j, key) {
        Option::Some(JsonV::Str(s)) => Option::Some(s),
        _ => Option::None,
    }
}

/// The keys of an object's members, in order.
pub open spec fn member_keys(m: Seq<(Seq<char>, JsonV)>) -> Seq<Seq<char>> {
    Seq::new(m.len(), |i: int| m[i].0)
}

/// The key a set optional field contributes, or nothing.
pub open spec fn opt_key(key: Seq<char>, present: bool) -> Seq<Seq<char>> {
    if present {
        seq![key]
    } else {
        Seq::empty()
    }
}

/// Member keys distribute over concatenation.
pub proof fn lemma_member_keys_concat(a: Seq<(Seq<char>, JsonV)>, b: Seq<(Seq<char>, JsonV)>)
    ensures
        member_keys(a + b) == member_keys(a) + member_keys(b),
{
    assert(member_keys(a + b) =~= member_keys(a) + member_keys(b));
}

/// A concatenation misses a key that both halves miss.
pub proof fn lemma_not_contains_concat(a: Seq<Seq<char>>, b: Seq<Seq<char>>, x: Seq<char>)
    requires
        !a.contains(x),
        !b.contains(x),
    ensures
        !(a + b).contains(x),
{
    assert forall|i: int| 0 <= i < (a + b).len() implies (a + b)[i] != x by {
        if i < a.len() {
            assert((a + b)[i] == a[i]);
            assert(!a.contains(x));
        } else {
            assert((a + b)[i] == b[i - a.len()]);
            assert(!b.contains(x));
        }
    }
}

/// A JSON array of the given strings, in order.
pub open spec fn strs_jv(vs: Seq<String>) -> JsonV {
    JsonV::Arr(Seq::new(vs.len(), |i: int| JsonV::Str(vs[i]@)))
}

/// The member an optional string contributes: one pair when supplied,
/// nothing when absent.
pub open spec fn opt_str_member(key: Seq<char>, v: Option<String>) -> Seq<(Seq<char>, JsonV)> {
    match v {
        Option::Some(s) => seq![(key, JsonV::Str(s@))],
        Option::None => Seq::empty(),
    }
}

/// The member an optional string list contributes.
pub open spec fn opt_strs_member(key: Seq<char>, v: Option<Vec<String>>) -> Seq<
    (Seq<char>, JsonV),
> {
    match v {
        Option::Some(vs) => seq![(key, strs_jv(vs@))],
        Option::None => Seq::empty(),
    }
}

/// The member an optional boolean contributes.
pub open spec fn opt_bool_member(key: Seq<char>, v: Option<bool>) -> Seq<(Seq<char>, JsonV)> {
    match v {
        Option::Some(b) => seq![(key, JsonV::Bool(b))],
        Option::None => Seq::empty(),
    }
}

/// The member an optional JSON value contributes.
pub open spec fn opt_val_member(key: Seq<char>, v: Option<Json>) -> Seq<(Seq<char>, JsonV)> {
    match v {
        Option::Some(j) => seq![(key, j@)],
        Option::None => Seq::empty(),
    }
}

/// Appends a string member.
pub fn push_str_member(members: &mut Vec<(String, Json)>, key: &str, v: &String)
    ensures
        obj_view(final(members)@) == obj_view(old(members)@) + seq![(key@, JsonV::Str(v@))],
{
    members.push((String::from_str(key), Json::Str(v.clone())));
    proof {
        assert(obj_view(members@) =~= obj_view(old(members)@) + seq![(key@, JsonV::Str(v@))]);
    }
}

/// Appends a string-list member.
pub fn push_strs_member(members: &mut Vec<(String, Json)>, key: &str, vs: &Vec<String>)
    ensures
        obj_view(final(members)@) == obj_view(old(members)@) + seq![(key@, strs_jv(vs@))],
{
    let mut elems: Vec<Json> = Vec::new();
    let mut i: usize = 0;
    while i < vs.len()
        invariant
            0 <= i <= vs@.len(),
            elems@.len() == i,
            forall|k: int| 0 <= k < i ==> elems@[k]@ == JsonV::Str(vs@[k]@),
        decreases vs@.len() - i,
    {
        elems.push(Json::Str(vs[i].clone()));
        i = i + 1;
    }
    proof {
        assert(arr_view(elems@) =~= strs_jv(vs@)->Arr_0);
    }
    members.push((String::from_str(key), Json::Arr(elems)));
    proof {
        assert(obj_view(members@) =~= obj_view(old(members)@) + seq![(key@, strs_jv(vs@))]);
    }
}

/// Appends an optional string member, or nothing when it is absent.
pub fn push_opt_str_member(members: &mut Vec<(String, Json)>, key: &str, v: &Option<String>)
    ensures
        obj_view(final(members)@) == obj_view(old(members)@) + opt_str_member(key@, *v),
{
    match v {
        Option::Some(s) => {
            push_str_member(members, key, s);
        },
        Option::None => {
            proof {
                assert(obj_view(members@) =~= obj_view(members@) + Seq::<
                    (Seq<char>, JsonV),
                >::empty());
            }
        },
    }
}

/// Appends an optional string-list member, or nothing when it is absent.
pub fn push_opt_strs_member(members: &mut Vec<(String, Json)>, key: &str, v: &Option<Vec<String>>)
    ensures
        obj_view(final(members)@) == obj_view(old(members)@) + opt_strs_member(key@, *v),
{
    match v {
        Option::Some(vs) => {
            push_strs_member(members, key, vs);
        },
        Option::None => {
            proof {
                assert(obj_view(members@) =~= obj_view(members@) + Seq::<
                    (Seq<char>, JsonV),
                >::empty());
            }
        },
    }
}

/// Appends an optional boolean member, or nothing when it is absent.
pub fn push_opt_bool_member(members: &mut Vec<(String, Json)>, key: &str, v: &Option<bool>)
    ensures
        obj_view(final(members)@) == obj_view(old(members)@) + opt_bool_member(key@, *v),
{
    match v {
        Option::Some(b) => {
            members.push((String::from_str(key), Json::Bool(*b)));
            proof {
                assert(obj_view(members@) =~= obj_view(old(members)@) + seq![
                    (key@, JsonV::Bool(*b)),
                ]);
            }
        },
        Option::None => {
            proof {
                assert(obj_view(members@) =~= obj_view(members@) + Seq::<
                    (Seq<char>, JsonV),
                >::empty());
            }
        },
    }
}

/// Appends an optional member of any shape, or nothing when it is absent.
pub fn push_opt_val_member(members: &mut Vec<(String, Json)>, key: &str, v: &Option<Json>)
    ensures
        obj_view(final(members)@) == obj_view(old(members)@) + opt_val_member(key@, *v),
{
    match v {
        Option::Some(j) => {
            members.push((String::from_str(key), j.deep_clone()));
            proof {
                assert(obj_view(members@) =~= obj_view(old(members)@) + seq![(key@, j@)]);
            }
        },
        Option::None => {
            proof {
                assert(obj_view(members@) =~= obj_view(members@) + Seq::<
                    (Seq<char>, JsonV),
                >::empty());
            }
        },
    }
}

fn clone_elems(elems: &Vec<Json>) -> (r: Vec<Json>)
    ensures
        arr_view(r@) == arr_view(elems@),
    decreases elems,
{
    let mut out: Vec<Json> = Vec::new();
    let mut i: usize = 0;
    while i < elems.len()
        invariant
            0 <= i <= elems@.len(),
            out@.len() == i,
            forall|k: int| 0 <= k < i ==> out@[k]@ == elems@[k]@,
        decreases elems@.len() - i,
    {
        out.push(elems[i].deep_clone());
        i = i + 1;
    }
    proof {
        assert(arr_view(out@) =~= arr_view(elems@));
    }
    out
}

pub fn clone_members(members: &Vec<(String, Json)>) -> (r: Vec<(String, Json)>)
    ensures
        obj_view(r@) == obj_view(members@),
    decreases members,
{
    let mut out: Vec<(String, Json)> = Vec::new();
    let mut i: usize = 0;
    while i < members.len()
        invariant
            0 <= i <= members@.len(),
            out@.len() == i,
            forall|k: int|
                0 <= k < i ==> out@[k].0@ == members@[k].0@ && out@[k].1@ == members@[k].1@,
        decreases members@.len() - i,
    {
        out.push((members[i].0.clone(), members[i].1.deep_clone()));
        i = i + 1;
    }
    proof {
        assert(obj_view(out@) =~= obj_view(members@));
    }
    out
}

fn lookup_in<'a>(members: &'a Vec<(String, Json)>, key: &str) -> (r: Option<&'a Json>)
    ensures
        match r {
            Option::Some(v) => spec_lookup(obj_view(members@), key@) == Option::Some(v@),
            Option::None => !spec_has_key(obj_view(members@), key@),
        },
{
    let ghost m = obj_view(members@);
    proof {
        assert(m.skip(0) =~= m);
    }
    let key_string = String::from_str(key);
    let mut i: usize = 0;
    while i < members.len()
        invariant
            0 <= i <= members.len(),
            key_string@ == key@,
            m == obj_view(members@),
            spec_lookup(m, key@) == spec_lookup(m.skip(i as int), key@),
        decreases members.len() - i,
    {
        proof {
            assert(m.skip(i as int)[0] == m[i as int]);
            assert(m.skip(i as int).drop_first() =~= m.skip(i + 1));
        }
        if members[i].0 == key_string {
            return Option::Some(&members[i].1);
        }
        i = i + 1;
    }
    proof {
        assert(m.skip(members@.len() as int) =~= Seq::<(Seq<char>, JsonV)>::empty());
    }
    Option::None
}

} // verus!
