//! Segment resources: request and record shapes, their wire codecs, and the
//! segment operations of the dispatch client.

use vstd::prelude::*;

use crate::api::{
    data_rel, data_wf, decode_data, list_call, payload_call, plain_call, FromJson, HttpRequest,
    Method, PaginationOptions, ResendClient,
};
use crate::json::{jv_has_str, jv_str, obj_view, Json, JsonV};

verus! {

broadcast use vstd::std_specs::vec::group_vec_axioms, vstd::seq::group_seq_axioms;

/// A request to create a segment: its name.
#[derive(Clone, Debug)]
pub struct CreateSegmentRequest {
    pub name: String,
}

impl CreateSegmentRequest {
    /// The payload this request serializes to.
    pub open spec fn jv(self) -> JsonV {
        JsonV::Obj(seq![("name"@, JsonV::Str(self.name@))])
    }

    pub fn to_json(&self) -> (j: Json)
        ensures
            j@ == self.jv(),
    {
        let mut members: Vec<(String, Json)> = Vec::new();
        crate::json::push_str_member(&mut members, "name", &self.name);
        proof {
            assert(obj_view(members@) =~= seq![("name"@, JsonV::Str(self.name@))]);
        }
        Json::Obj(members)
    }
}

/// A segment record.
#[derive(Clone, Debug)]
pub struct Segment {
    pub id: String,
    pub name: String,
    pub created_at: String,
}

impl FromJson for Segment {
    open spec fn json_wf(j: JsonV) -> bool {
        &&& jv_has_str(j, "id"@)
        &&& jv_has_str(j, "name"@)
        &&& jv_has_str(j, "created_at"@)
    }

    open spec fn json_rel(j: JsonV, v: Self) -> bool {
        &&& v.id@ == jv_str(j, "id"@)
        &&& v.name@ == jv_str(j, "name"@)
        &&& v.created_at@ == jv_str(j, "created_at"@)
    }

    fn from_json(j: &Json) -> (r: Option<Self>)
        ensures
            match r {
                Option::Some(v) => Self::json_wf(j@) && Self::json_rel(j@, v),
                Option::None => !Self::json_wf(j@),
            },
    {
        let id = match j.get_str("id") {
            Option::Some(s) => s,
            Option::None => {
                return Option::None;
            },
        };
        let name = match j.get_str("name") {
            Option::Some(s) => s,
            Option::None => {
                return Option::None;
            },
        };
        let created_at = match j.get_str("created_at") {
            Option::Some(s) => s,
            Option::None => {
                return Option::None;
            },
        };
        Option::Some(Segment { id, name, created_at })
    }
}

/// The envelope of a segment list.
#[derive(Debug)]
pub struct ListSegmentsResponse {
    pub data: Vec<Segment>,
}

impl FromJson for ListSegmentsResponse {
    open spec fn json_wf(j: JsonV) -> bool {
        data_wf::<Segment>(j)
    }

    open spec fn json_rel(j: JsonV, v: Self) -> bool {
        data_rel::<Segment>(j, v.data)
    }

    fn from_json(j: &Json) -> (r: Option<Self>)
        ensures
            match r {
                Option::Some(v) => Self::json_wf(j@) && Self::json_rel(j@, v),
                Option::None => !Self::json_wf(j@),
            },
    {
        match decode_data::<Segment>(j) {
            Option::Some(data) => Option::Some(ListSegmentsResponse { data }),
            Option::None => Option::None,
        }
    }
}

impl ResendClient {
    /// `POST /segments` naming the segment to create.
    pub fn create_segment(&self, name: &str) -> (r: HttpRequest)
        ensures
            payload_call(
                r,
                *self,
                Method::Post,
                "/segments"@,
                JsonV::Obj(seq![("name"@, JsonV::Str(name@))]),
            ),
    {
        let request = CreateSegmentRequest { name: String::from_str(name) };
        self.request_with_body(Method::Post, "/segments", &request.to_json())
    }

    /// `GET /segments` with the pagination parameters.
    pub fn list_segments(&self, pagination: &PaginationOptions) -> (r: HttpRequest)
        ensures
            list_call(r, *self, "/segments"@, *pagination),
    {
        let mut r = self.request(Method::Get, "/segments");
        r.apply_pagination(pagination);
        proof {
            assert(Seq::<(Seq<char>, Seq<char>)>::empty() + crate::api::pagination_params(
                *pagination,
            ) =~= crate::api::pagination_params(*pagination));
        }
        r
    }

    /// `GET /segments/{id}`.
    pub fn get_segment(&self, id: &str) -> (r: HttpRequest)
        ensures
            plain_call(r, *self, Method::Get, "/segments/"@ + id@),
    {
        self.request_for_id(Method::Get, "/segments/", id)
    }

    /// `DELETE /segments/{id}`.
    pub fn delete_segment(&self, id: &str) -> (r: HttpRequest)
        ensures
            plain_call(r, *self, Method::Delete, "/segments/"@ + id@),
    {
        self.request_for_id(Method::Delete, "/segments/", id)
    }
}

} // verus!
