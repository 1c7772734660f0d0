//! Webhook resources: request and record shapes, their wire codecs, and the
//! webhook operations of the dispatch client.

use vstd::prelude::*;

use crate::api::{
    data_rel, data_wf, decode_data, list_call, payload_call, plain_call, FromJson, HttpRequest,
    Method, PaginationOptions, ResendClient,
};
use crate::json::{
    jv_has_str, jv_opt_str, jv_opt_str_ok, jv_str, obj_view, push_str_member, push_strs_member,
    strs_jv, Json, JsonV,
};

verus! {

broadcast use vstd::std_specs::vec::group_vec_axioms, vstd::seq::group_seq_axioms;

/// A request to create a webhook: the endpoint to call and the events to
/// deliver to it.
#[derive(Clone, Debug)]
pub struct CreateWebhookRequest {
    pub endpoint: String,
    pub events: Vec<String>,
}

impl CreateWebhookRequest {
    /// The payload this request serializes to.
    pub open spec fn jv(self) -> JsonV {
        JsonV::Obj(
            seq![("endpoint"@, JsonV::Str(self.endpoint@)), ("events"@, strs_jv(self.events@))],
        )
    }

    pub fn to_json(&self) -> (j: Json)
        ensures
            j@ == self.jv(),
    {
        let mut members: Vec<(String, Json)> = Vec::new();
        push_str_member(&mut members, "endpoint", &self.endpoint);
        push_strs_member(&mut members, "events", &self.events);
        proof {
            assert(obj_view(members@) =~= seq![
                ("endpoint"@, JsonV::Str(self.endpoint@)),
                ("events"@, strs_jv(self.events@)),
            ]);
        }
        Json::Obj(members)
    }
}

/// A webhook record; the server may omit any descriptive field.
#[derive(Clone, Debug)]
pub struct Webhook {
    pub id: String,
    pub endpoint: Option<String>,
    pub created_at: Option<String>,
    pub signing_secret: Option<String>,
}

impl FromJson for Webhook {
    open spec fn json_wf(j: JsonV) -> bool {
        &&& jv_has_str(j, "id"@)
        &&& jv_opt_str_ok(j, "endpoint"@)
        &&& jv_opt_str_ok(j, "created_at"@)
        &&& jv_opt_str_ok(j, "signing_secret"@)
    }

    open spec fn json_rel(j: JsonV, v: Self) -> bool {
        &&& v.id@ == jv_str(j, "id"@)
        &&& (match v.endpoint {
            Option::Some(s) => jv_opt_str(j, "endpoint"@) == Option::Some(s@),
            Option::None => jv_opt_str(j, "endpoint"@) is None,
        })
        &&& (match v.created_at {
            Option::Some(s) => jv_opt_str(j, "created_at"@) == Option::Some(s@),
            Option::None => jv_opt_str(j, "created_at"@) is None,
        })
        &&& (match v.signing_secret {
            Option::Some(s) => jv_opt_str(j, "signing_secret"@) == Option::Some(s@),
            Option::None => jv_opt_str(j, "signing_secret"@) is None,
        })
    }

    fn from_json(j: &Json) -> (r: Option<Self>)
        ensures
            match r {
                Option::Some(v) => Self::json_wf(j@) && Self::json_rel(j@, v),
                Option::None => !Self::json_wf(j@),
            },
    {
        let id = match j.get_str("id") {
            Option::Some(s) => s,
            Option::None => {
                return Option::None;
            },
        };
        let endpoint = match j.get_opt_str("endpoint") {
            Option::Some(o) => o,
            Option::None => {
                return Option::None;
            },
        };
        let created_at = match j.get_opt_str("created_at") {
            Option::Some(o) => o,
            Option::None => {
                return Option::None;
            },
        };
        let signing_secret = match j.get_opt_str("signing_secret") {
            Option::Some(o) => o,
            Option::None => {
                return Option::None;
            },
        };
        Option::Some(Webhook { id, endpoint, created_at, signing_secret })
    }
}

/// The envelope of a webhook list.
#[derive(Debug)]
pub struct ListWebhooksResponse {
    pub data: Vec<Webhook>,
}

impl FromJson for ListWebhooksResponse {
    open spec fn json_wf(j: JsonV) -> bool {
        data_wf::<Webhook>(j)
    }

    open spec fn json_rel(j: JsonV, v: Self) -> bool {
        data_rel::<Webhook>(j, v.data)
    }

    fn from_json(j: &Json) -> (r: Option<Self>)
        ensures
            match r {
                Option::Some(v) => Self::json_wf(j@) && Self::json_rel(j@, v),
                Option::None => !Self::json_wf(j@),
            },
    {
        match decode_data::<Webhook>(j) {
            Option::Some(data) => Option::Some(ListWebhooksResponse { data }),
            Option::None => Option::None,
        }
    }
}

impl ResendClient {
    /// `POST /webhooks` with the serialized create request.
    pub fn create_webhook(&self, request: &CreateWebhookRequest) -> (r: HttpRequest)
        ensures
            payload_call(r, *self, Method::Post, "/webhooks"@, request.jv()),
    {
        self.request_with_body(Method::Post, "/webhooks", &request.to_json())
    }

    /// `GET /webhooks` with the pagination parameters.
    pub fn list_webhooks(&self, pagination: &PaginationOptions) -> (r: HttpRequest)
        ensures
            list_call(r, *self, "/webhooks"@, *pagination),
    {
        let mut r = self.request(Method::Get, "/webhooks");
        r.apply_pagination(pagination);
        proof {
            assert(Seq::<(Seq<char>, Seq<char>)>::empty() + crate::api::pagination_params(
                *pagination,
            ) =~= crate::api::pagination_params(*pagination));
        }
        r
    }

    /// `GET /webhooks/{id}`.
    pub fn get_webhook(&self, id: &str) -> (r: HttpRequest)
        ensures
            plain_call(r, *self, Method::Get, "/webhooks/"@ + id@),
    {
        self.request_for_id(Method::Get, "/webhooks/", id)
    }

    /// `DELETE /webhooks/{id}`.
    pub fn delete_webhook(&self, id: &str) -> (r: HttpRequest)
        ensures
            plain_call(r, *self, Method::Delete, "/webhooks/"@ + id@),
    {
        self.request_for_id(Method::Delete, "/webhooks/", id)
    }
}

} // verus!
