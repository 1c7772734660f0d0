//! Domain resources: request and record shapes, their wire codecs, and the
//! domain operations of the dispatch client.

use vstd::prelude::*;

use crate::api::{
    data_rel, data_wf, decode_data, list_call, payload_call, plain_call, FromJson, HttpRequest,
    Method, PaginationOptions, ResendClient,
};
use crate::json::{
    jv_has_str, jv_str, obj_view, spec_has_key, spec_lookup, Json, JsonV,
};

verus! {

broadcast use vstd::std_specs::vec::group_vec_axioms, vstd::seq::group_seq_axioms;

/// A request to create a domain: a name, and optionally a region.
#[derive(Clone, Debug)]
pub struct CreateDomainRequest {
    pub name: String,
    /// Region to host the domain in; the server picks its default when
    /// absent.
    pub region: Option<String>,
}

impl CreateDomainRequest {
    /// The payload this request serializes to: `name` always, `region`
    /// exactly when supplied.
    pub open spec fn jv(self) -> JsonV {
        JsonV::Obj(
            seq![("name"@, JsonV::Str(self.name@))] + (match self.region {
                Option::Some(r) => seq![("region"@, JsonV::Str(r@))],
                Option::None => Seq::empty(),
            }),
        )
    }

    pub fn to_json(&self) -> (j: Json)
        ensures
            j@ == self.jv(),
    {
        let mut members: Vec<(String, Json)> = Vec::new();
        members.push((String::from_str("name"), Json::Str(self.name.clone())));
        match &self.region {
            Option::Some(r) => {
                members.push((String::from_str("region"), Json::Str(r.clone())));
            },
            Option::None => {},
        }
        let j = Json::Obj(members);
        proof {
            match &self.region {
                Option::Some(r) => {
                    assert(obj_view(j->Obj_0@) =~= seq![("name"@, JsonV::Str(self.name@))] + seq![
                        ("region"@, JsonV::Str(r@)),
                    ]);
                },
                Option::None => {
                    assert(obj_view(j->Obj_0@) =~= seq![("name"@, JsonV::Str(self.name@))]
                        + Seq::<(Seq<char>, JsonV)>::empty());
                },
            }
        }
        j
    }
}

/// A domain record as the server returns it.
#[derive(Clone, Debug)]
pub struct Domain {
    pub id: String,
    pub name: String,
    pub created_at: String,
    /// Verification state, e.g. `"not_verified"` or `"verified"`.
    pub status: String,
    pub region: String,
}

impl FromJson for Domain {
    open spec fn json_wf(j: JsonV) -> bool {
        &&& jv_has_str(j, "id"@)
        &&& jv_has_str(j, "name"@)
        &&& jv_has_str(j, "created_at"@)
        &&& jv_has_str(j, "status"@)
        &&& jv_has_str(j, "region"@)
    }

    open spec fn json_rel(j: JsonV, v: Self) -> bool {
        &&& v.id@ == jv_str(j, "id"@)
        &&& v.name@ == jv_str(j, "name"@)
        &&& v.created_at@ == jv_str(j, "created_at"@)
        &&& v.status@ == jv_str(j, "status"@)
        &&& v.region@ == jv_str(j, "region"@)
    }

    fn from_json(j: &Json) -> (r: Option<Self>)
        ensures
            match r {
                Option::Some(v) => Self::json_wf(j@) && Self::json_rel(j@, v),
                Option::None => !Self::json_wf(j@),
            },
    {
        let id = match j.get_str("id") {
            Option::Some(s) => s,
            Option::None => {
                return Option::None;
            },
        };
        let name = match j.get_str("name") {
            Option::Some(s) => s,
            Option::None => {
                return Option::None;
            },
        };
        let created_at = match j.get_str("created_at") {
            Option::Some(s) => s,
            Option::None => {
                return Option::None;
            },
        };
        let status = match j.get_str("status") {
            Option::Some(s) => s,
            Option::None => {
                return Option::None;
            },
        };
        let region = match j.get_str("region") {
            Option::Some(s) => s,
            Option::None => {
                return Option::None;
            },
        };
        Option::Some(Domain { id, name, created_at, status, region })
    }
}

/// The envelope of a domain list: `{ "data": [record, ...] }`.
#[derive(Debug)]
pub struct ListDomainsResponse {
    pub data: Vec<Domain>,
}

impl FromJson for ListDomainsResponse {
    open spec fn json_wf(j: JsonV) -> bool {
        data_wf::<Domain>(j)
    }

    open spec fn json_rel(j: JsonV, v: Self) -> bool {
        data_rel::<Domain>(j, v.data)
    }

    fn from_json(j: &Json) -> (r: Option<Self>)
        ensures
            match r {
                Option::Some(v) => Self::json_wf(j@) && Self::json_rel(j@, v),
                Option::None => !Self::json_wf(j@),
            },
    {
        match decode_data::<Domain>(j) {
            Option::Some(data) => Option::Some(ListDomainsResponse { data }),
            Option::None => Option::None,
        }
    }
}

impl ResendClient {
    /// `POST /domains` with the serialized create request.
    pub fn create_domain(&self, request: &CreateDomainRequest) -> (r: HttpRequest)
        ensures
            payload_call(r, *self, Method::Post, "/domains"@, request.jv()),
    {
        self.request_with_body(Method::Post, "/domains", &request.to_json())
    }

    /// `GET /domains` with the pagination parameters.
    pub fn list_domains(&self, pagination: &PaginationOptions) -> (r: HttpRequest)
        ensures
            list_call(r, *self, "/domains"@, *pagination),
    {
        let mut r = self.request(Method::Get, "/domains");
        r.apply_pagination(pagination);
        proof {
            assert(Seq::<(Seq<char>, Seq<char>)>::empty() + crate::api::pagination_params(
                *pagination,
            ) =~= crate::api::pagination_params(*pagination));
        }
        r
    }

    /// `GET /domains/{id}`.
    pub fn get_domain(&self, id: &str) -> (r: HttpRequest)
        ensures
            plain_call(r, *self, Method::Get, "/domains/"@ + id@),
    {
        self.request_for_id(Method::Get, "/domains/", id)
    }

    /// `DELETE /domains/{id}`.
    pub fn delete_domain(&self, id: &str) -> (r: HttpRequest)
        ensures
            plain_call(r, *self, Method::Delete, "/domains/"@ + id@),
    {
        self.request_for_id(Method::Delete, "/domains/", id)
    }

    /// `POST /domains/{id}/verify`.
    pub fn verify_domain(&self, id: &str) -> (r: HttpRequest)
        ensures
            plain_call(r, *self, Method::Post, "/domains/"@ + id@ + "/verify"@),
    {
        self.request_for_id_with(Method::Post, "/domains/", id, "/verify")
    }
}

/// An absent optional region is omitted from the create payload outright —
/// the key does not appear — while a supplied one is sent verbatim, beside
/// the name.
pub proof fn lemma_create_domain_payload(r: CreateDomainRequest)
    ensures
        r.jv() matches JsonV::Obj(m) && spec_lookup(m, "name"@) == Option::Some(
            JsonV::Str(r.name@),
        ),
        r.region is None ==> !spec_has_key(r.jv()->Obj_0, "region"@),
        r.region matches Option::Some(reg) ==> spec_lookup(r.jv()->Obj_0, "region"@)
            == Option::Some(JsonV::Str(reg@)),
        r.jv()->Obj_0.len() == (if r.region is Some {
            2int
        } else {
            1int
        }),
{
    reveal_strlit("name");
    reveal_strlit("region");
    assert("name"@.len() == 4);
    assert("region"@.len() == 6);
    assert("name"@ != "region"@);
    let m = r.jv()->Obj_0;
    assert(m[0] == ("name"@, JsonV::Str(r.name@)));
    match r.region {
        Option::Some(reg) => {
            let single = seq![("region"@, JsonV::Str(reg@))];
            assert(m.drop_first() =~= single);
            assert(spec_lookup(single, "region"@) == Option::Some(JsonV::Str(reg@)));
            assert(spec_lookup(m, "region"@) == spec_lookup(m.drop_first(), "region"@));
        },
        Option::None => {
            assert(m =~= seq![("name"@, JsonV::Str(r.name@))]);
            assert(m.drop_first() =~= Seq::<(Seq<char>, JsonV)>::empty());
            assert(spec_lookup(Seq::<(Seq<char>, JsonV)>::empty(), "region"@) is None);
            assert(spec_lookup(m, "region"@) == spec_lookup(m.drop_first(), "region"@));
        },
    }
}

/// Decoding a record that echoes a create request's fields preserves them:
/// the decoded domain carries the requested name, and the requested region
/// where one was supplied.
pub proof fn lemma_domain_echo(r: CreateDomainRequest, j: JsonV, d: Domain)
    requires
        Domain::json_wf(j),
        Domain::json_rel(j, d),
        crate::json::jv_get(j, "name"@) == spec_lookup(r.jv()->Obj_0, "name"@),
        r.region matches Option::Some(reg) ==> crate::json::jv_get(j, "region"@)
            == Option::Some(JsonV::Str(reg@)),
    ensures
        d.name@ == r.name@,
        r.region matches Option::Some(reg) ==> d.region@ == reg@,
{
    lemma_create_domain_payload(r);
}

} // verus!
