//! Topic resources: request and record shapes, their wire codecs, and the
//! topic operations of the dispatch client.

use vstd::prelude::*;

use crate::api::{
    data_rel, data_wf, decode_data, list_call, payload_call, plain_call, FromJson, HttpRequest,
    Method, PaginationOptions, ResendClient,
};
use crate::json::{
    jv_has_str, jv_str, member_keys, obj_view, opt_str_member, push_opt_str_member,
    push_str_member, Json, JsonV,
};

verus! {

broadcast use vstd::std_specs::vec::group_vec_axioms, vstd::seq::group_seq_axioms;

/// A request to create a topic: its name and the default subscription
/// state for new contacts.
#[derive(Clone, Debug)]
pub struct CreateTopicRequest {
    pub name: String,
    pub default_subscription: String,
}

impl CreateTopicRequest {
    /// The payload this request serializes to.
    pub open spec fn jv(self) -> JsonV {
        JsonV::Obj(
            seq![
                ("name"@, JsonV::Str(self.name@)),
                ("default_subscription"@, JsonV::Str(self.default_subscription@)),
            ],
        )
    }

    pub fn to_json(&self) -> (j: Json)
        ensures
            j@ == self.jv(),
    {
        let mut members: Vec<(String, Json)> = Vec::new();
        push_str_member(&mut members, "name", &self.name);
        push_str_member(&mut members, "default_subscription", &self.default_subscription);
        proof {
            assert(obj_view(members@) =~= seq![
                ("name"@, JsonV::Str(self.name@)),
                ("default_subscription"@, JsonV::Str(self.default_subscription@)),
            ]);
        }
        Json::Obj(members)
    }
}

/// A partial update of a topic; an absent name is omitted from the payload.
#[derive(Clone, Debug)]
pub struct UpdateTopicRequest {
    pub name: Option<String>,
}

impl UpdateTopicRequest {
    /// The payload this request serializes to: only the supplied field.
    pub open spec fn jv(self) -> JsonV {
        JsonV::Obj(opt_str_member("name"@, self.name))
    }

    pub fn to_json(&self) -> (j: Json)
        ensures
            j@ == self.jv(),
    {
        let mut members: Vec<(String, Json)> = Vec::new();
        push_opt_str_member(&mut members, "name", &self.name);
        proof {
            assert(obj_view(members@) =~= opt_str_member("name"@, self.name));
        }
        Json::Obj(members)
    }
}

/// A topic record.
#[derive(Clone, Debug)]
pub struct Topic {
    pub id: String,
    pub name: String,
    pub created_at: String,
}

impl FromJson for Topic {
    open spec fn json_wf(j: JsonV) -> bool {
        &&& jv_has_str(j, "id"@)
        &&& jv_has_str(j, "name"@)
        &&& jv_has_str(j, "created_at"@)
    }

    open spec fn json_rel(j: JsonV, v: Self) -> bool {
        &&& v.id@ == jv_str(j, "id"@)
        &&& v.name@ == jv_str(j, "name"@)
        &&& v.created_at@ == jv_str(j, "created_at"@)
    }

    fn from_json(j: &Json) -> (r: Option<Self>)
        ensures
            match r {
                Option::Some(v) => Self::json_wf(j@) && Self::json_rel(j@, v),
                Option::None => !Self::json_wf(j@),
            },
    {
        let id = match j.get_str("id") {
            Option::Some(s) => s,
            Option::None => {
                return Option::None;
            },
        };
        let name = match j.get_str("name") {
            Option::Some(s) => s,
            Option::None => {
                return Option::None;
            },
        };
        let created_at = match j.get_str("created_at") {
            Option::Some(s) => s,
            Option::None => {
                return Option::None;
            },
        };
        Option::Some(Topic { id, name, created_at })
    }
}

/// The envelope of a topic list.
#[derive(Debug)]
pub struct ListTopicsResponse {
    pub data: Vec<Topic>,
}

impl FromJson for ListTopicsResponse {
    open spec fn json_wf(j: JsonV) -> bool {
        data_wf::<Topic>(j)
    }

    open spec fn json_rel(j: JsonV, v: Self) -> bool {
        data_rel::<Topic>(j, v.data)
    }

    fn from_json(j: &Json) -> (r: Option<Self>)
        ensures
            match r {
                Option::Some(v) => Self::json_wf(j@) && Self::json_rel(j@, v),
                Option::None => !Self::json_wf(j@),
            },
    {
        match decode_data::<Topic>(j) {
            Option::Some(data) => Option::Some(ListTopicsResponse { data }),
            Option::None => Option::None,
        }
    }
}

impl ResendClient {
    /// `POST /topics` with the serialized create request.
    pub fn create_topic(&self, request: &CreateTopicRequest) -> (r: HttpRequest)
        ensures
            payload_call(r, *self, Method::Post, "/topics"@, request.jv()),
    {
        self.request_with_body(Method::Post, "/topics", &request.to_json())
    }

    /// `GET /topics` with the pagination parameters.
    pub fn list_topics(&self, pagination: &PaginationOptions) -> (r: HttpRequest)
        ensures
            list_call(r, *self, "/topics"@, *pagination),
    {
        let mut r = self.request(Method::Get, "/topics");
        r.apply_pagination(pagination);
        proof {
            assert(Seq::<(Seq<char>, Seq<char>)>::empty() + crate::api::pagination_params(
                *pagination,
            ) =~= crate::api::pagination_params(*pagination));
        }
        r
    }

    /// `GET /topics/{id}`.
    pub fn get_topic(&self, id: &str) -> (r: HttpRequest)
        ensures
            plain_call(r, *self, Method::Get, "/topics/"@ + id@),
    {
        self.request_for_id(Method::Get, "/topics/", id)
    }

    /// `PATCH /topics/{id}` with the serialized update request.
    pub fn update_topic(&self, id: &str, request: &UpdateTopicRequest) -> (r: HttpRequest)
        ensures
            payload_call(r, *self, Method::Patch, "/topics/"@ + id@, request.jv()),
    {
        let mut r = self.request_for_id(Method::Patch, "/topics/", id);
        r.body = Option::Some(crate::encode::to_text(&request.to_json()));
        r
    }

    /// `DELETE /topics/{id}`.
    pub fn delete_topic(&self, id: &str) -> (r: HttpRequest)
        ensures
            plain_call(r, *self, Method::Delete, "/topics/"@ + id@),
    {
        self.request_for_id(Method::Delete, "/topics/", id)
    }
}

/// An update payload omits an absent name outright; a supplied one is its
/// only member.
pub proof fn lemma_update_topic_keys(r: UpdateTopicRequest)
    ensures
        r.name is None ==> r.jv()->Obj_0 =~= Seq::<(Seq<char>, JsonV)>::empty(),
        r.name matches Option::Some(n) ==> member_keys(r.jv()->Obj_0) =~= seq!["name"@],
{
}

} // verus!
