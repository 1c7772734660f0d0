//! API-key resources: request and record shapes, their wire codecs, and the
//! API-key operations of the dispatch client.

use vstd::prelude::*;

use crate::api::{
    data_rel, data_wf, decode_data, list_call, payload_call, plain_call, FromJson, HttpRequest,
    Method, PaginationOptions, ResendClient,
};
use crate::json::{
    jv_has_str, jv_opt_str, jv_opt_str_ok, jv_str, member_keys, obj_view, opt_str_member,
    push_opt_str_member, push_str_member, Json, JsonV,
};

verus! {

broadcast use vstd::std_specs::vec::group_vec_axioms, vstd::seq::group_seq_axioms;

/// A request to create an API key: a name, optionally a permission level
/// and a domain to restrict the key to.
#[derive(Clone, Debug)]
pub struct CreateApiKeyRequest {
    pub name: String,
    pub permission: Option<String>,
    pub domain_id: Option<String>,
}

impl CreateApiKeyRequest {
    /// The payload this request serializes to: `name` always, each optional
    /// field exactly when supplied.
    pub open spec fn jv(self) -> JsonV {
        JsonV::Obj(
            seq![("name"@, JsonV::Str(self.name@))] + opt_str_member("permission"@, self.permission)
                + opt_str_member("domain_id"@, self.domain_id),
        )
    }

    pub fn to_json(&self) -> (j: Json)
        ensures
            j@ == self.jv(),
    {
        let mut members: Vec<(String, Json)> = Vec::new();
        push_str_member(&mut members, "name", &self.name);
        push_opt_str_member(&mut members, "permission", &self.permission);
        push_opt_str_member(&mut members, "domain_id", &self.domain_id);
        proof {
            assert(obj_view(members@) =~= seq![("name"@, JsonV::Str(self.name@))] + opt_str_member(
                "permission"@,
                self.permission,
            ) + opt_str_member("domain_id"@, self.domain_id));
        }
        Json::Obj(members)
    }
}

/// An API-key record; the token value is returned only on creation.
#[derive(Clone, Debug)]
pub struct ApiKey {
    pub id: String,
    pub name: String,
    pub created_at: String,
    /// The secret token, shown once on creation and absent elsewhere.
    pub token: Option<String>,
}

impl FromJson for ApiKey {
    open spec fn json_wf(j: JsonV) -> bool {
        &&& jv_has_str(j, "id"@)
        &&& jv_has_str(j, "name"@)
        &&& jv_has_str(j, "created_at"@)
        &&& jv_opt_str_ok(j, "token"@)
    }

    open spec fn json_rel(j: JsonV, v: Self) -> bool {
        &&& v.id@ == jv_str(j, "id"@)
        &&& v.name@ == jv_str(j, "name"@)
        &&& v.created_at@ == jv_str(j, "created_at"@)
        &&& (match v.token {
            Option::Some(t) => jv_opt_str(j, "token"@) == Option::Some(t@),
            Option::None => jv_opt_str(j, "token"@) is None,
        })
    }

    fn from_json(j: &Json) -> (r: Option<Self>)
        ensures
            match r {
                Option::Some(v) => Self::json_wf(j@) && Self::json_rel(j@, v),
                Option::None => !Self::json_wf(j@),
            },
    {
        let id = match j.get_str("id") {
            Option::Some(s) => s,
            Option::None => {
                return Option::None;
            },
        };
        let name = match j.get_str("name") {
            Option::Some(s) => s,
            Option::None => {
                return Option::None;
            },
        };
        let created_at = match j.get_str("created_at") {
            Option::Some(s) => s,
            Option::None => {
                return Option::None;
            },
        };
        let token = match j.get_opt_str("token") {
            Option::Some(o) => o,
            Option::None => {
                return Option::None;
            },
        };
        Option::Some(ApiKey { id, name, created_at, token })
    }
}

/// The envelope of an API-key list.
#[derive(Debug)]
pub struct ListApiKeysResponse {
    pub data: Vec<ApiKey>,
}

impl FromJson for ListApiKeysResponse {
    open spec fn json_wf(j: JsonV) -> bool {
        data_wf::<ApiKey>(j)
    }

    open spec fn json_rel(j: JsonV, v: Self) -> bool {
        data_rel::<ApiKey>(j, v.data)
    }

    fn from_json(j: &Json) -> (r: Option<Self>)
        ensures
            match r {
                Option::Some(v) => Self::json_wf(j@) && Self::json_rel(j@, v),
                Option::None => !Self::json_wf(j@),
            },
    {
        match decode_data::<ApiKey>(j) {
            Option::Some(data) => Option::Some(ListApiKeysResponse { data }),
            Option::None => Option::None,
        }
    }
}

impl ResendClient {
    /// `POST /api-keys` with the serialized create request.
    pub fn create_api_key(&self, request: &CreateApiKeyRequest) -> (r: HttpRequest)
        ensures
            payload_call(r, *self, Method::Post, "/api-keys"@, request.jv()),
    {
        self.request_with_body(Method::Post, "/api-keys", &request.to_json())
    }

    /// `GET /api-keys` with the pagination parameters.
    pub fn list_api_keys(&self, pagination: &PaginationOptions) -> (r: HttpRequest)
        ensures
            list_call(r, *self, "/api-keys"@, *pagination),
    {
        let mut r = self.request(Method::Get, "/api-keys");
        r.apply_pagination(pagination);
        proof {
            assert(Seq::<(Seq<char>, Seq<char>)>::empty() + crate::api::pagination_params(
                *pagination,
            ) =~= crate::api::pagination_params(*pagination));
        }
        r
    }

    /// `DELETE /api-keys/{id}`.
    pub fn delete_api_key(&self, id: &str) -> (r: HttpRequest)
        ensures
            plain_call(r, *self, Method::Delete, "/api-keys/"@ + id@),
    {
        self.request_for_id(Method::Delete, "/api-keys/", id)
    }
}

/// The create payload's keys are exactly the supplied fields: `name`
/// always, `permission` and `domain_id` each exactly when set, and nothing
/// else.
pub proof fn lemma_create_api_key_keys(r: CreateApiKeyRequest)
    ensures
        member_keys(r.jv()->Obj_0) == seq!["name"@] + (match r.permission {
            Option::Some(_) => seq!["permission"@],
            Option::None => Seq::empty(),
        }) + (match r.domain_id {
            Option::Some(_) => seq!["domain_id"@],
            Option::None => Seq::empty(),
        }),
        r.permission is None ==> !member_keys(r.jv()->Obj_0).contains("permission"@),
        r.domain_id is None ==> !member_keys(r.jv()->Obj_0).contains("domain_id"@),
{
    reveal_strlit("name");
    reveal_strlit("permission");
    reveal_strlit("domain_id");
    assert(member_keys(r.jv()->Obj_0) =~= seq!["name"@] + (match r.permission {
        Option::Some(_) => seq!["permission"@],
        Option::None => Seq::<Seq<char>>::empty(),
    }) + (match r.domain_id {
        Option::Some(_) => seq!["domain_id"@],
        Option::None => Seq::<Seq<char>>::empty(),
    }));
    assert("name"@.len() == 4 && "permission"@.len() == 10 && "domain_id"@.len() == 9);
}

} // verus!
