//! Contact-property resources: request and record shapes, their wire
//! codecs, and the contact-property operations of the dispatch client.
//!
//! A property's fallback value is free-form JSON, carried as a `Json` value
//! of the library's own; on the wire the property's kind travels under the
//! key `type`.

use vstd::prelude::*;

use crate::api::{
    data_rel, data_wf, decode_data, list_call, payload_call, plain_call, FromJson, HttpRequest,
    Method, PaginationOptions, ResendClient,
};
use crate::json::{
    jv_has_str, jv_opt_val, jv_str, member_keys, obj_view, opt_val_member, push_opt_val_member,
    push_str_member, Json, JsonV,
};

verus! {

broadcast use vstd::std_specs::vec::group_vec_axioms, vstd::seq::group_seq_axioms;

/// A request to create a contact property: its key, its kind (sent as
/// `type`), and an optional fallback value, omitted when absent.
#[derive(Debug)]
pub struct CreateContactPropertyRequest {
    pub key: String,
    pub property_type: String,
    pub fallback_value: Option<Json>,
}

impl CreateContactPropertyRequest {
    /// The payload this request serializes to.
    pub open spec fn jv(self) -> JsonV {
        JsonV::Obj(
            seq![("key"@, JsonV::Str(self.key@)), ("type"@, JsonV::Str(self.property_type@))]
                + opt_val_member("fallback_value"@, self.fallback_value),
        )
    }

    pub fn to_json(&self) -> (j: Json)
        ensures
            j@ == self.jv(),
    {
        let mut members: Vec<(String, Json)> = Vec::new();
        push_str_member(&mut members, "key", &self.key);
        push_str_member(&mut members, "type", &self.property_type);
        push_opt_val_member(&mut members, "fallback_value", &self.fallback_value);
        proof {
            assert(obj_view(members@) =~= self.jv()->Obj_0);
        }
        Json::Obj(members)
    }
}

/// A partial update of a contact property: a new fallback value, or an
/// empty payload when none is supplied.
#[derive(Debug)]
pub struct UpdateContactPropertyRequest {
    pub fallback_value: Option<Json>,
}

impl UpdateContactPropertyRequest {
    /// The payload this request serializes to: only the supplied field.
    pub open spec fn jv(self) -> JsonV {
        JsonV::Obj(opt_val_member("fallback_value"@, self.fallback_value))
    }

    pub fn to_json(&self) -> (j: Json)
        ensures
            j@ == self.jv(),
    {
        let mut members: Vec<(String, Json)> = Vec::new();
        push_opt_val_member(&mut members, "fallback_value", &self.fallback_value);
        proof {
            assert(obj_view(members@) =~= self.jv()->Obj_0);
        }
        Json::Obj(members)
    }
}

/// A contact-property record.
#[derive(Debug)]
pub struct ContactProperty {
    pub id: String,
    pub key: String,
    /// The property's kind, from the wire key `type`.
    pub property_type: String,
    pub fallback_value: Option<Json>,
    pub created_at: String,
}

impl FromJson for ContactProperty {
    open spec fn json_wf(j: JsonV) -> bool {
        &&& jv_has_str(j, "id"@)
        &&& jv_has_str(j, "key"@)
        &&& jv_has_str(j, "type"@)
        &&& jv_has_str(j, "created_at"@)
    }

    open spec fn json_rel(j: JsonV, v: Self) -> bool {
        &&& v.id@ == jv_str(j, "id"@)
        &&& v.key@ == jv_str(j, "key"@)
        &&& v.property_type@ == jv_str(j, "type"@)
        &&& (match v.fallback_value {
            Option::Some(f) => jv_opt_val(j, "fallback_value"@) == Option::Some(f@),
            Option::None => jv_opt_val(j, "fallback_value"@) is None,
        })
        &&& v.created_at@ == jv_str(j, "created_at"@)
    }

    fn from_json(j: &Json) -> (r: Option<Self>)
        ensures
            match r {
                Option::Some(v) => Self::json_wf(j@) && Self::json_rel(j@, v),
                Option::None => !Self::json_wf(j@),
            },
    {
        let id = match j.get_str("id") {
            Option::Some(s) => s,
            Option::None => {
                return Option::None;
            },
        };
        let key = match j.get_str("key") {
            Option::Some(s) => s,
            Option::None => {
                return Option::None;
            },
        };
        let property_type = match j.get_str("type") {
            Option::Some(s) => s,
            Option::None => {
                return Option::None;
            },
        };
        let fallback_value = j.get_opt_val("fallback_value");
        let created_at = match j.get_str("created_at") {
            Option::Some(s) => s,
            Option::None => {
                return Option::None;
            },
        };
        Option::Some(ContactProperty { id, key, property_type, fallback_value, created_at })
    }
}

/// The envelope of a contact-property list.
#[derive(Debug)]
pub struct ListContactPropertiesResponse {
    pub data: Vec<ContactProperty>,
}

impl FromJson for ListContactPropertiesResponse {
    open spec fn json_wf(j: JsonV) -> bool {
        data_wf::<ContactProperty>(j)
    }

    open spec fn json_rel(j: JsonV, v: Self) -> bool {
        data_rel::<ContactProperty>(j, v.data)
    }

    fn from_json(j: &Json) -> (r: Option<Self>)
        ensures
            match r {
                Option::Some(v) => Self::json_wf(j@) && Self::json_rel(j@, v),
                Option::None => !Self::json_wf(j@),
            },
    {
        match decode_data::<ContactProperty>(j) {
            Option::Some(data) => Option::Some(ListContactPropertiesResponse { data }),
            Option::None => Option::None,
        }
    }
}

impl ResendClient {
    /// `POST /contact-properties` with the serialized create request.
    pub fn create_contact_property(&self, request: &CreateContactPropertyRequest) -> (r:
        HttpRequest)
        ensures
            payload_call(r, *self, Method::Post, "/contact-properties"@, request.jv()),
    {
        self.request_with_body(Method::Post, "/contact-properties", &request.to_json())
    }

    /// `GET /contact-properties` with the pagination parameters.
    pub fn list_contact_properties(&self, pagination: &PaginationOptions) -> (r: HttpRequest)
        ensures
            list_call(r, *self, "/contact-properties"@, *pagination),
    {
        let mut r = self.request(Method::Get, "/contact-properties");
        r.apply_pagination(pagination);
        proof {
            assert(Seq::<(Seq<char>, Seq<char>)>::empty() + crate::api::pagination_params(
                *pagination,
            ) =~= crate::api::pagination_params(*pagination));
        }
        r
    }

    /// `GET /contact-properties/{id}`.
    pub fn get_contact_property(&self, id: &str) -> (r: HttpRequest)
        ensures
            plain_call(r, *self, Method::Get, "/contact-properties/"@ + id@),
    {
        self.request_for_id(Method::Get, "/contact-properties/", id)
    }

    /// `PATCH /contact-properties/{id}` with the serialized update request.
    pub fn update_contact_property(
        &self,
        id: &str,
        request: &UpdateContactPropertyRequest,
    ) -> (r: HttpRequest)
        ensures
            payload_call(r, *self, Method::Patch, "/contact-properties/"@ + id@, request.jv()),
    {
        let mut r = self.request_for_id(Method::Patch, "/contact-properties/", id);
        r.body = Option::Some(crate::encode::to_text(&request.to_json()));
        r
    }

    /// `DELETE /contact-properties/{id}`.
    pub fn delete_contact_property(&self, id: &str) -> (r: HttpRequest)
        ensures
            plain_call(r, *self, Method::Delete, "/contact-properties/"@ + id@),
    {
        self.request_for_id(Method::Delete, "/contact-properties/", id)
    }
}

/// An absent fallback value is omitted from the payload outright; a create
/// payload's keys are exactly `key`, `type`, and `fallback_value` when
/// supplied.
pub proof fn lemma_create_contact_property_keys(r: CreateContactPropertyRequest)
    ensures
        member_keys(r.jv()->Obj_0) == seq!["key"@, "type"@] + crate::json::opt_key(
            "fallback_value"@,
            r.fallback_value is Some,
        ),
        r.fallback_value is None ==> !member_keys(r.jv()->Obj_0).contains("fallback_value"@),
{
    reveal_strlit("key");
    reveal_strlit("type");
    reveal_strlit("fallback_value");
    assert(member_keys(r.jv()->Obj_0) =~= seq!["key"@, "type"@] + crate::json::opt_key(
        "fallback_value"@,
        r.fallback_value is Some,
    ));
    assert("key"@.len() == 3 && "type"@.len() == 4 && "fallback_value"@.len() == 14);
}

/// An update payload holds the fallback value's key exactly when one is
/// supplied, and is the empty object otherwise.
pub proof fn lemma_update_contact_property_keys(r: UpdateContactPropertyRequest)
    ensures
        r.fallback_value is None ==> r.jv()->Obj_0 =~= Seq::<(Seq<char>, JsonV)>::empty(),
        r.fallback_value is Some ==> member_keys(r.jv()->Obj_0) =~= seq!["fallback_value"@],
{
}

} // verus!
