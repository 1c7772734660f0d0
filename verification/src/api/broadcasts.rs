//! Broadcast resources: request and record shapes, their wire codecs, and
//! the broadcast operations of the dispatch client.

use vstd::prelude::*;

use crate::api::{
    data_rel, data_wf, decode_data, list_call, payload_call, plain_call, FromJson, HttpRequest,
    Method, PaginationOptions, ResendClient,
};
use crate::json::{
    jv_has_str, jv_opt_str, jv_opt_str_ok, jv_str, member_keys, obj_view, opt_str_member,
    opt_strs_member, push_opt_str_member, push_opt_strs_member, push_str_member, Json, JsonV,
};

verus! {

broadcast use vstd::std_specs::vec::group_vec_axioms, vstd::seq::group_seq_axioms;

/// A request to create a broadcast for a segment; optional content fields
/// are omitted from the payload when absent.
#[derive(Clone, Debug)]
pub struct CreateBroadcastRequest {
    pub name: String,
    pub segment_id: String,
    pub from: String,
    pub subject: String,
    pub html: Option<String>,
    pub text: Option<String>,
    pub reply_to: Option<Vec<String>>,
}

impl CreateBroadcastRequest {
    /// The payload this request serializes to: the four required fields,
    /// then each optional field exactly when supplied.
    pub open spec fn jv(self) -> JsonV {
        JsonV::Obj(
            seq![
                ("name"@, JsonV::Str(self.name@)),
                ("segment_id"@, JsonV::Str(self.segment_id@)),
                ("from"@, JsonV::Str(self.from@)),
                ("subject"@, JsonV::Str(self.subject@)),
            ] + opt_str_member("html"@, self.html) + opt_str_member("text"@, self.text)
                + opt_strs_member("reply_to"@, self.reply_to),
        )
    }

    pub fn to_json(&self) -> (j: Json)
        ensures
            j@ == self.jv(),
    {
        let mut members: Vec<(String, Json)> = Vec::new();
        push_str_member(&mut members, "name", &self.name);
        push_str_member(&mut members, "segment_id", &self.segment_id);
        push_str_member(&mut members, "from", &self.from);
        push_str_member(&mut members, "subject", &self.subject);
        push_opt_str_member(&mut members, "html", &self.html);
        push_opt_str_member(&mut members, "text", &self.text);
        push_opt_strs_member(&mut members, "reply_to", &self.reply_to);
        proof {
            assert(obj_view(members@) =~= self.jv()->Obj_0);
        }
        Json::Obj(members)
    }
}

/// A partial update of a broadcast; each absent field is omitted and left
/// unchanged by the server.
#[derive(Clone, Debug)]
pub struct UpdateBroadcastRequest {
    pub name: Option<String>,
    pub segment_id: Option<String>,
    pub from: Option<String>,
    pub subject: Option<String>,
    pub html: Option<String>,
    pub text: Option<String>,
    pub reply_to: Option<Vec<String>>,
}

impl UpdateBroadcastRequest {
    /// The payload this request serializes to: only the supplied fields.
    pub open spec fn jv(self) -> JsonV {
        JsonV::Obj(
            opt_str_member("name"@, self.name) + opt_str_member("segment_id"@, self.segment_id)
                + opt_str_member("from"@, self.from) + opt_str_member("subject"@, self.subject)
                + opt_str_member("html"@, self.html) + opt_str_member("text"@, self.text)
                + opt_strs_member("reply_to"@, self.reply_to),
        )
    }

    pub fn to_json(&self) -> (j: Json)
        ensures
            j@ == self.jv(),
    {
        let mut members: Vec<(String, Json)> = Vec::new();
        push_opt_str_member(&mut members, "name", &self.name);
        push_opt_str_member(&mut members, "segment_id", &self.segment_id);
        push_opt_str_member(&mut members, "from", &self.from);
        push_opt_str_member(&mut members, "subject", &self.subject);
        push_opt_str_member(&mut members, "html", &self.html);
        push_opt_str_member(&mut members, "text", &self.text);
        push_opt_strs_member(&mut members, "reply_to", &self.reply_to);
        proof {
            assert(obj_view(members@) =~= self.jv()->Obj_0);
        }
        Json::Obj(members)
    }
}

/// A broadcast record; the server may omit the name and segment.
#[derive(Clone, Debug)]
pub struct Broadcast {
    pub id: String,
    pub name: Option<String>,
    /// Lifecycle state, e.g. `"draft"` or `"sent"`.
    pub status: String,
    pub created_at: String,
    pub segment_id: Option<String>,
}

impl FromJson for Broadcast {
    open spec fn json_wf(j: JsonV) -> bool {
        &&& jv_has_str(j, "id"@)
        &&& jv_opt_str_ok(j, "name"@)
        &&& jv_has_str(j, "status"@)
        &&& jv_has_str(j, "created_at"@)
        &&& jv_opt_str_ok(j, "segment_id"@)
    }

    open spec fn json_rel(j: JsonV, v: Self) -> bool {
        &&& v.id@ == jv_str(j, "id"@)
        &&& (match v.name {
            Option::Some(s) => jv_opt_str(j, "name"@) == Option::Some(s@),
            Option::None => jv_opt_str(j, "name"@) is None,
        })
        &&& v.status@ == jv_str(j, "status"@)
        &&& v.created_at@ == jv_str(j, "created_at"@)
        &&& (match v.segment_id {
            Option::Some(s) => jv_opt_str(j, "segment_id"@) == Option::Some(s@),
            Option::None => jv_opt_str(j, "segment_id"@) is None,
        })
    }

    fn from_json(j: &Json) -> (r: Option<Self>)
        ensures
            match r {
                Option::Some(v) => Self::json_wf(j@) && Self::json_rel(j@, v),
                Option::None => !Self::json_wf(j@),
            },
    {
        let id = match j.get_str("id") {
            Option::Some(s) => s,
            Option::None => {
                return Option::None;
            },
        };
        let name = match j.get_opt_str("name") {
            Option::Some(o) => o,
            Option::None => {
                return Option::None;
            },
        };
        let status = match j.get_str("status") {
            Option::Some(s) => s,
            Option::None => {
                return Option::None;
            },
        };
        let created_at = match j.get_str("created_at") {
            Option::Some(s) => s,
            Option::None => {
                return Option::None;
            },
        };
        let segment_id = match j.get_opt_str("segment_id") {
            Option::Some(o) => o,
            Option::None => {
                return Option::None;
            },
        };
        Option::Some(Broadcast { id, name, status, created_at, segment_id })
    }
}

/// The envelope of a broadcast list.
#[derive(Debug)]
pub struct ListBroadcastsResponse {
    pub data: Vec<Broadcast>,
}

impl FromJson for ListBroadcastsResponse {
    open spec fn json_wf(j: JsonV) -> bool {
        data_wf::<Broadcast>(j)
    }

    open spec fn json_rel(j: JsonV, v: Self) -> bool {
        data_rel::<Broadcast>(j, v.data)
    }

    fn from_json(j: &Json) -> (r: Option<Self>)
        ensures
            match r {
                Option::Some(v) => Self::json_wf(j@) && Self::json_rel(j@, v),
                Option::None => !Self::json_wf(j@),
            },
    {
        match decode_data::<Broadcast>(j) {
            Option::Some(data) => Option::Some(ListBroadcastsResponse { data }),
            Option::None => Option::None,
        }
    }
}

impl ResendClient {
    /// `POST /broadcasts` with the serialized create request.
    pub fn create_broadcast(&self, request: &CreateBroadcastRequest) -> (r: HttpRequest)
        ensures
            payload_call(r, *self, Method::Post, "/broadcasts"@, request.jv()),
    {
        self.request_with_body(Method::Post, "/broadcasts", &request.to_json())
    }

    /// `GET /broadcasts` with the pagination parameters.
    pub fn list_broadcasts(&self, pagination: &PaginationOptions) -> (r: HttpRequest)
        ensures
            list_call(r, *self, "/broadcasts"@, *pagination),
    {
        let mut r = self.request(Method::Get, "/broadcasts");
        r.apply_pagination(pagination);
        proof {
            assert(Seq::<(Seq<char>, Seq<char>)>::empty() + crate::api::pagination_params(
                *pagination,
            ) =~= crate::api::pagination_params(*pagination));
        }
        r
    }

    /// `GET /broadcasts/{id}`.
    pub fn get_broadcast(&self, id: &str) -> (r: HttpRequest)
        ensures
            plain_call(r, *self, Method::Get, "/broadcasts/"@ + id@),
    {
        self.request_for_id(Method::Get, "/broadcasts/", id)
    }

    /// `PATCH /broadcasts/{id}` with the serialized update request.
    pub fn update_broadcast(&self, id: &str, request: &UpdateBroadcastRequest) -> (r: HttpRequest)
        ensures
            payload_call(r, *self, Method::Patch, "/broadcasts/"@ + id@, request.jv()),
    {
        let mut r = self.request_for_id(Method::Patch, "/broadcasts/", id);
        r.body = Option::Some(crate::encode::to_text(&request.to_json()));
        r
    }

    /// `DELETE /broadcasts/{id}`.
    pub fn delete_broadcast(&self, id: &str) -> (r: HttpRequest)
        ensures
            plain_call(r, *self, Method::Delete, "/broadcasts/"@ + id@),
    {
        self.request_for_id(Method::Delete, "/broadcasts/", id)
    }

    /// `POST /broadcasts/{id}/send`.
    pub fn send_broadcast(&self, id: &str) -> (r: HttpRequest)
        ensures
            plain_call(r, *self, Method::Post, "/broadcasts/"@ + id@ + "/send"@),
    {
        self.request_for_id_with(Method::Post, "/broadcasts/", id, "/send")
    }
}

/// A create payload's keys are the four required fields followed by the
/// supplied optional ones; an absent optional field's key does not appear
/// at all.
#[verifier::rlimit(60)]
pub proof fn lemma_create_broadcast_keys(r: CreateBroadcastRequest)
    ensures
        member_keys(r.jv()->Obj_0) == seq!["name"@, "segment_id"@, "from"@, "subject"@]
            + crate::json::opt_key("html"@, r.html is Some) + crate::json::opt_key(
            "text"@,
            r.text is Some,
        ) + crate::json::opt_key("reply_to"@, r.reply_to is Some),
        r.html is None ==> !member_keys(r.jv()->Obj_0).contains("html"@),
        r.text is None ==> !member_keys(r.jv()->Obj_0).contains("text"@),
        r.reply_to is None ==> !member_keys(r.jv()->Obj_0).contains("reply_to"@),
{
    reveal_strlit("name");
    reveal_strlit("segment_id");
    reveal_strlit("from");
    reveal_strlit("subject");
    reveal_strlit("html");
    reveal_strlit("text");
    reveal_strlit("reply_to");
    assert(member_keys(r.jv()->Obj_0) =~= seq!["name"@, "segment_id"@, "from"@, "subject"@]
        + crate::json::opt_key("html"@, r.html is Some) + crate::json::opt_key(
        "text"@,
        r.text is Some,
    ) + crate::json::opt_key("reply_to"@, r.reply_to is Some));
    assert("name"@.len() == 4 && "segment_id"@.len() == 10 && "from"@.len() == 4);
    assert("subject"@.len() == 7 && "html"@.len() == 4 && "text"@.len() == 4);
    assert("reply_to"@.len() == 8);
    assert("name"@[0] == 'n' && "from"@[0] == 'f' && "html"@[0] == 'h' && "text"@[0] == 't');
}

/// An update payload's keys are exactly the supplied fields'; an absent
/// field's key does not appear at all.
pub proof fn lemma_update_broadcast_keys(r: UpdateBroadcastRequest)
    ensures
        member_keys(r.jv()->Obj_0) == crate::json::opt_key("name"@, r.name is Some)
            + crate::json::opt_key("segment_id"@, r.segment_id is Some)
            + crate::json::opt_key("from"@, r.from is Some) + crate::json::opt_key(
            "subject"@,
            r.subject is Some,
        ) + crate::json::opt_key("html"@, r.html is Some) + crate::json::opt_key(
            "text"@,
            r.text is Some,
        ) + crate::json::opt_key("reply_to"@, r.reply_to is Some),
        r.html is None ==> !member_keys(r.jv()->Obj_0).contains("html"@),
        r.reply_to is None ==> !member_keys(r.jv()->Obj_0).contains("reply_to"@),
{
    reveal_strlit("name");
    reveal_strlit("segment_id");
    reveal_strlit("from");
    reveal_strlit("subject");
    reveal_strlit("html");
    reveal_strlit("text");
    reveal_strlit("reply_to");
    assert("name"@.len() == 4 && "segment_id"@.len() == 10 && "from"@.len() == 4);
    assert("subject"@.len() == 7 && "html"@.len() == 4 && "text"@.len() == 4);
    assert("reply_to"@.len() == 8);
    assert("name"@[0] == 'n' && "from"@[0] == 'f' && "html"@[0] == 'h' && "text"@[0] == 't');
    let p1 = opt_str_member("name"@, r.name);
    let p2 = opt_str_member("segment_id"@, r.segment_id);
    let p3 = opt_str_member("from"@, r.from);
    let p4 = opt_str_member("subject"@, r.subject);
    let p5 = opt_str_member("html"@, r.html);
    let p6 = opt_str_member("text"@, r.text);
    let p7 = opt_strs_member("reply_to"@, r.reply_to);
    let k1 = crate::json::opt_key("name"@, r.name is Some);
    let k2 = crate::json::opt_key("segment_id"@, r.segment_id is Some);
    let k3 = crate::json::opt_key("from"@, r.from is Some);
    let k4 = crate::json::opt_key("subject"@, r.subject is Some);
    let k5 = crate::json::opt_key("html"@, r.html is Some);
    let k6 = crate::json::opt_key("text"@, r.text is Some);
    let k7 = crate::json::opt_key("reply_to"@, r.reply_to is Some);
    assert(member_keys(p1) =~= k1);
    assert(member_keys(p2) =~= k2);
    assert(member_keys(p3) =~= k3);
    assert(member_keys(p4) =~= k4);
    assert(member_keys(p5) =~= k5);
    assert(member_keys(p6) =~= k6);
    assert(member_keys(p7) =~= k7);
    crate::json::lemma_member_keys_concat(p1, p2);
    crate::json::lemma_member_keys_concat(p1 + p2, p3);
    crate::json::lemma_member_keys_concat(p1 + p2 + p3, p4);
    crate::json::lemma_member_keys_concat(p1 + p2 + p3 + p4, p5);
    crate::json::lemma_member_keys_concat(p1 + p2 + p3 + p4 + p5, p6);
    crate::json::lemma_member_keys_concat(p1 + p2 + p3 + p4 + p5 + p6, p7);
    assert(member_keys(r.jv()->Obj_0) == k1 + k2 + k3 + k4 + k5 + k6 + k7);
    if r.html is None {
        assert(!k1.contains("html"@));
        assert(!k2.contains("html"@));
        assert(!k3.contains("html"@));
        assert(!k4.contains("html"@));
        assert(!k5.contains("html"@));
        assert(!k6.contains("html"@));
        assert(!k7.contains("html"@));
        crate::json::lemma_not_contains_concat(k1, k2, "html"@);
        crate::json::lemma_not_contains_concat(k1 + k2, k3, "html"@);
        crate::json::lemma_not_contains_concat(k1 + k2 + k3, k4, "html"@);
        crate::json::lemma_not_contains_concat(k1 + k2 + k3 + k4, k5, "html"@);
        crate::json::lemma_not_contains_concat(k1 + k2 + k3 + k4 + k5, k6, "html"@);
        crate::json::lemma_not_contains_concat(k1 + k2 + k3 + k4 + k5 + k6, k7, "html"@);
    }
    if r.reply_to is None {
        assert(!k1.contains("reply_to"@));
        assert(!k2.contains("reply_to"@));
        assert(!k3.contains("reply_to"@));
        assert(!k4.contains("reply_to"@));
        assert(!k5.contains("reply_to"@));
        assert(!k6.contains("reply_to"@));
        assert(!k7.contains("reply_to"@));
        crate::json::lemma_not_contains_concat(k1, k2, "reply_to"@);
        crate::json::lemma_not_contains_concat(k1 + k2, k3, "reply_to"@);
        crate::json::lemma_not_contains_concat(k1 + k2 + k3, k4, "reply_to"@);
        crate::json::lemma_not_contains_concat(k1 + k2 + k3 + k4, k5, "reply_to"@);
        crate::json::lemma_not_contains_concat(k1 + k2 + k3 + k4 + k5, k6, "reply_to"@);
        crate::json::lemma_not_contains_concat(k1 + k2 + k3 + k4 + k5 + k6, k7, "reply_to"@);
    }
}

} // verus!
