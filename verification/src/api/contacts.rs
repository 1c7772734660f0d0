//! Contact resources: request and record shapes, their wire codecs, and the
//! contact operations of the dispatch client, including segment membership.

use vstd::prelude::*;

use crate::api::{
    data_rel, data_wf, decode_data, list_call, payload_call, plain_call, FromJson, HttpRequest,
    Method, PaginationOptions, ResendClient,
};
use crate::json::{
    clone_members, jv_bool, jv_has_bool, jv_has_str, jv_opt_str, jv_opt_str_ok, jv_str,
    member_keys, obj_view, opt_bool_member, opt_str_member, push_opt_bool_member,
    push_opt_str_member, push_str_member, Json, JsonV,
};

verus! {

broadcast use vstd::std_specs::vec::group_vec_axioms, vstd::seq::group_seq_axioms;

/// A request to create a contact: an address, plus optional name fields,
/// subscription state, and free-form properties (an ordered key/value
/// list, serialized as one nested object).
#[derive(Debug)]
pub struct CreateContactRequest {
    pub email: String,
    pub first_name: Option<String>,
    pub last_name: Option<String>,
    pub unsubscribed: Option<bool>,
    pub properties: Option<Vec<(String, Json)>>,
}

/// The member the optional properties object contributes.
pub open spec fn properties_member(v: Option<Vec<(String, Json)>>) -> Seq<(Seq<char>, JsonV)> {
    match v {
        Option::Some(ps) => seq![("properties"@, JsonV::Obj(obj_view(ps@)))],
        Option::None => Seq::empty(),
    }
}

impl CreateContactRequest {
    /// The payload this request serializes to: `email` always, each
    /// optional field exactly when supplied.
    pub open spec fn jv(self) -> JsonV {
        JsonV::Obj(
            seq![("email"@, JsonV::Str(self.email@))] + opt_str_member(
                "first_name"@,
                self.first_name,
            ) + opt_str_member("last_name"@, self.last_name) + opt_bool_member(
                "unsubscribed"@,
                self.unsubscribed,
            ) + properties_member(self.properties),
        )
    }

    pub fn to_json(&self) -> (j: Json)
        ensures
            j@ == self.jv(),
    {
        let mut members: Vec<(String, Json)> = Vec::new();
        push_str_member(&mut members, "email", &self.email);
        push_opt_str_member(&mut members, "first_name", &self.first_name);
        push_opt_str_member(&mut members, "last_name", &self.last_name);
        push_opt_bool_member(&mut members, "unsubscribed", &self.unsubscribed);
        match &self.properties {
            Option::Some(ps) => {
                members.push((String::from_str("properties"), Json::Obj(clone_members(ps))));
            },
            Option::None => {},
        }
        proof {
            assert(obj_view(members@) =~= self.jv()->Obj_0);
        }
        Json::Obj(members)
    }
}

/// A partial update of a contact; each absent field is omitted and left
/// unchanged by the server.
#[derive(Clone, Debug)]
pub struct UpdateContactRequest {
    pub first_name: Option<String>,
    pub last_name: Option<String>,
    pub unsubscribed: Option<bool>,
}

impl UpdateContactRequest {
    /// The payload this request serializes to: only the supplied fields.
    pub open spec fn jv(self) -> JsonV {
        JsonV::Obj(
            opt_str_member("first_name"@, self.first_name) + opt_str_member(
                "last_name"@,
                self.last_name,
            ) + opt_bool_member("unsubscribed"@, self.unsubscribed),
        )
    }

    pub fn to_json(&self) -> (j: Json)
        ensures
            j@ == self.jv(),
    {
        let mut members: Vec<(String, Json)> = Vec::new();
        push_opt_str_member(&mut members, "first_name", &self.first_name);
        push_opt_str_member(&mut members, "last_name", &self.last_name);
        push_opt_bool_member(&mut members, "unsubscribed", &self.unsubscribed);
        proof {
            assert(obj_view(members@) =~= self.jv()->Obj_0);
        }
        Json::Obj(members)
    }
}

/// A contact record.
#[derive(Clone, Debug)]
pub struct Contact {
    pub id: String,
    pub email: String,
    pub first_name: Option<String>,
    pub last_name: Option<String>,
    pub created_at: String,
    pub unsubscribed: bool,
}

impl FromJson for Contact {
    open spec fn json_wf(j: JsonV) -> bool {
        &&& jv_has_str(j, "id"@)
        &&& jv_has_str(j, "email"@)
        &&& jv_opt_str_ok(j, "first_name"@)
        &&& jv_opt_str_ok(j, "last_name"@)
        &&& jv_has_str(j, "created_at"@)
        &&& jv_has_bool(j, "unsubscribed"@)
    }

    open spec fn json_rel(j: JsonV, v: Self) -> bool {
        &&& v.id@ == jv_str(j, "id"@)
        &&& v.email@ == jv_str(j, "email"@)
        &&& (match v.first_name {
            Option::Some(s) => jv_opt_str(j, "first_name"@) == Option::Some(s@),
            Option::None => jv_opt_str(j, "first_name"@) is None,
        })
        &&& (match v.last_name {
            Option::Some(s) => jv_opt_str(j, "last_name"@) == Option::Some(s@),
            Option::None => jv_opt_str(j, "last_name"@) is None,
        })
        &&& v.created_at@ == jv_str(j, "created_at"@)
        &&& v.unsubscribed == jv_bool(j, "unsubscribed"@)
    }

    fn from_json(j: &Json) -> (r: Option<Self>)
        ensures
            match r {
                Option::Some(v) => Self::json_wf(j@) && Self::json_rel(j@, v),
                Option::None => !Self::json_wf(j@),
            },
    {
        let id = match j.get_str("id") {
            Option::Some(s) => s,
            Option::None => {
                return Option::None;
            },
        };
        let email = match j.get_str("email") {
            Option::Some(s) => s,
            Option::None => {
                return Option::None;
            },
        };
        let first_name = match j.get_opt_str("first_name") {
            Option::Some(o) => o,
            Option::None => {
                return Option::None;
            },
        };
        let last_name = match j.get_opt_str("last_name") {
            Option::Some(o) => o,
            Option::None => {
                return Option::None;
            },
        };
        let created_at = match j.get_str("created_at") {
            Option::Some(s) => s,
            Option::None => {
                return Option::None;
            },
        };
        let unsubscribed = match j.get_bool("unsubscribed") {
            Option::Some(b) => b,
            Option::None => {
                return Option::None;
            },
        };
        Option::Some(Contact { id, email, first_name, last_name, created_at, unsubscribed })
    }
}

/// The envelope of a contact list.
#[derive(Debug)]
pub struct ListContactsResponse {
    pub data: Vec<Contact>,
}

impl FromJson for ListContactsResponse {
    open spec fn json_wf(j: JsonV) -> bool {
        data_wf::<Contact>(j)
    }

    open spec fn json_rel(j: JsonV, v: Self) -> bool {
        data_rel::<Contact>(j, v.data)
    }

    fn from_json(j: &Json) -> (r: Option<Self>)
        ensures
            match r {
                Option::Some(v) => Self::json_wf(j@) && Self::json_rel(j@, v),
                Option::None => !Self::json_wf(j@),
            },
    {
        match decode_data::<Contact>(j) {
            Option::Some(data) => Option::Some(ListContactsResponse { data }),
            Option::None => Option::None,
        }
    }
}

impl ResendClient {
    /// `POST /contacts` with the serialized create request.
    pub fn create_contact(&self, request: &CreateContactRequest) -> (r: HttpRequest)
        ensures
            payload_call(r, *self, Method::Post, "/contacts"@, request.jv()),
    {
        self.request_with_body(Method::Post, "/contacts", &request.to_json())
    }

    /// `GET /contacts` with the pagination parameters.
    pub fn list_contacts(&self, pagination: &PaginationOptions) -> (r: HttpRequest)
        ensures
            list_call(r, *self, "/contacts"@, *pagination),
    {
        let mut r = self.request(Method::Get, "/contacts");
        r.apply_pagination(pagination);
        proof {
            assert(Seq::<(Seq<char>, Seq<char>)>::empty() + crate::api::pagination_params(
                *pagination,
            ) =~= crate::api::pagination_params(*pagination));
        }
        r
    }

    /// `GET /contacts/{id}`.
    pub fn get_contact(&self, id: &str) -> (r: HttpRequest)
        ensures
            plain_call(r, *self, Method::Get, "/contacts/"@ + id@),
    {
        self.request_for_id(Method::Get, "/contacts/", id)
    }

    /// `PATCH /contacts/{id}` with the serialized update request.
    pub fn update_contact(&self, id: &str, request: &UpdateContactRequest) -> (r: HttpRequest)
        ensures
            payload_call(r, *self, Method::Patch, "/contacts/"@ + id@, request.jv()),
    {
        let mut r = self.request_for_id(Method::Patch, "/contacts/", id);
        r.body = Option::Some(crate::encode::to_text(&request.to_json()));
        r
    }

    /// `DELETE /contacts/{id}`.
    pub fn delete_contact(&self, id: &str) -> (r: HttpRequest)
        ensures
            plain_call(r, *self, Method::Delete, "/contacts/"@ + id@),
    {
        self.request_for_id(Method::Delete, "/contacts/", id)
    }

    /// `POST /contacts/{contact_id}/segments/{segment_id}`.
    pub fn add_contact_to_segment(&self, contact_id: &str, segment_id: &str) -> (r: HttpRequest)
        ensures
            plain_call(
                r,
                *self,
                Method::Post,
                "/contacts/"@ + contact_id@ + "/segments/"@ + segment_id@,
            ),
    {
        self.request_for_two_ids(Method::Post, "/contacts/", contact_id, "/segments/", segment_id)
    }

    /// `DELETE /contacts/{contact_id}/segments/{segment_id}`.
    pub fn delete_contact_from_segment(&self, contact_id: &str, segment_id: &str) -> (r:
        HttpRequest)
        ensures
            plain_call(
                r,
                *self,
                Method::Delete,
                "/contacts/"@ + contact_id@ + "/segments/"@ + segment_id@,
            ),
    {
        self.request_for_two_ids(
            Method::Delete,
            "/contacts/",
            contact_id,
            "/segments/",
            segment_id,
        )
    }
}

/// A create payload's keys are exactly `email` and the supplied optional
/// fields; an absent optional field's key does not appear at all.
#[verifier::rlimit(60)]
pub proof fn lemma_create_contact_keys(r: CreateContactRequest)
    ensures
        member_keys(r.jv()->Obj_0) == seq!["email"@] + crate::json::opt_key(
            "first_name"@,
            r.first_name is Some,
        ) + crate::json::opt_key("last_name"@, r.last_name is Some)
            + crate::json::opt_key("unsubscribed"@, r.unsubscribed is Some)
            + crate::json::opt_key("properties"@, r.properties is Some),
        r.first_name is None ==> !member_keys(r.jv()->Obj_0).contains("first_name"@),
        r.last_name is None ==> !member_keys(r.jv()->Obj_0).contains("last_name"@),
        r.unsubscribed is None ==> !member_keys(r.jv()->Obj_0).contains("unsubscribed"@),
        r.properties is None ==> !member_keys(r.jv()->Obj_0).contains("properties"@),
{
    reveal_strlit("email");
    reveal_strlit("first_name");
    reveal_strlit("last_name");
    reveal_strlit("unsubscribed");
    reveal_strlit("properties");
    assert(member_keys(r.jv()->Obj_0) =~= seq!["email"@] + crate::json::opt_key(
        "first_name"@,
        r.first_name is Some,
    ) + crate::json::opt_key("last_name"@, r.last_name is Some)
        + crate::json::opt_key("unsubscribed"@, r.unsubscribed is Some)
        + crate::json::opt_key("properties"@, r.properties is Some));
    assert("email"@.len() == 5 && "first_name"@.len() == 10 && "last_name"@.len() == 9);
    assert("unsubscribed"@.len() == 12 && "properties"@.len() == 10);
    assert("first_name"@[0] == 'f' && "properties"@[0] == 'p');
}

/// An update payload's keys are exactly the supplied fields'; an absent
/// field's key does not appear at all.
pub proof fn lemma_update_contact_keys(r: UpdateContactRequest)
    ensures
        member_keys(r.jv()->Obj_0) == crate::json::opt_key("first_name"@, r.first_name is Some)
            + crate::json::opt_key("last_name"@, r.last_name is Some) + crate::json::opt_key(
            "unsubscribed"@,
            r.unsubscribed is Some,
        ),
        r.first_name is None ==> !member_keys(r.jv()->Obj_0).contains("first_name"@),
        r.last_name is None ==> !member_keys(r.jv()->Obj_0).contains("last_name"@),
        r.unsubscribed is None ==> !member_keys(r.jv()->Obj_0).contains("unsubscribed"@),
{
    reveal_strlit("first_name");
    reveal_strlit("last_name");
    reveal_strlit("unsubscribed");
    assert(member_keys(r.jv()->Obj_0) =~= crate::json::opt_key(
        "first_name"@,
        r.first_name is Some,
    ) + crate::json::opt_key("last_name"@, r.last_name is Some) + crate::json::opt_key(
        "unsubscribed"@,
        r.unsubscribed is Some,
    ));
    assert("first_name"@.len() == 10 && "last_name"@.len() == 9 && "unsubscribed"@.len() == 12);
    assert("first_name"@[0] == 'f' && "last_name"@[0] == 'l');
}

} // verus!
