//! Received-email resources: record shapes, their wire codecs, and the
//! receiving operations of the dispatch client.  A single received email
//! is returned as raw JSON, decoded into the library's own value tree.

use vstd::prelude::*;

use crate::api::{
    data_rel, data_wf, decode_data, list_call, plain_call, FromJson, HttpRequest, Method,
    PaginationOptions, ResendClient,
};
use crate::json::{
    jv_has_num, jv_has_str, jv_has_str_arr, jv_num, jv_str, jv_str_arr, Json, JsonV,
};

verus! {

broadcast use vstd::std_specs::vec::group_vec_axioms, vstd::seq::group_seq_axioms;

/// A received email record.
#[derive(Clone, Debug)]
pub struct ReceivedEmail {
    pub id: String,
    pub from: String,
    pub to: Vec<String>,
    pub subject: String,
    pub created_at: String,
}

impl FromJson for ReceivedEmail {
    open spec fn json_wf(j: JsonV) -> bool {
        &&& jv_has_str(j, "id"@)
        &&& jv_has_str(j, "from"@)
        &&& jv_has_str_arr(j, "to"@)
        &&& jv_has_str(j, "subject"@)
        &&& jv_has_str(j, "created_at"@)
    }

    open spec fn json_rel(j: JsonV, v: Self) -> bool {
        &&& v.id@ == jv_str(j, "id"@)
        &&& v.from@ == jv_str(j, "from"@)
        &&& v.to.deep_view() == jv_str_arr(j, "to"@)
        &&& v.subject@ == jv_str(j, "subject"@)
        &&& v.created_at@ == jv_str(j, "created_at"@)
    }

    fn from_json(j: &Json) -> (r: Option<Self>)
        ensures
            match r {
                Option::Some(v) => Self::json_wf(j@) && Self::json_rel(j@, v),
                Option::None => !Self::json_wf(j@),
            },
    {
        let id = match j.get_str("id") {
            Option::Some(s) => s,
            Option::None => {
                return Option::None;
            },
        };
        let from = match j.get_str("from") {
            Option::Some(s) => s,
            Option::None => {
                return Option::None;
            },
        };
        let to = match j.get_str_arr("to") {
            Option::Some(v) => v,
            Option::None => {
                return Option::None;
            },
        };
        let subject = match j.get_str("subject") {
            Option::Some(s) => s,
            Option::None => {
                return Option::None;
            },
        };
        let created_at = match j.get_str("created_at") {
            Option::Some(s) => s,
            Option::None => {
                return Option::None;
            },
        };
        Option::Some(ReceivedEmail { id, from, to, subject, created_at })
    }
}

/// The envelope of a received-email list.
#[derive(Debug)]
pub struct ListReceivedEmailsResponse {
    pub data: Vec<ReceivedEmail>,
}

impl FromJson for ListReceivedEmailsResponse {
    open spec fn json_wf(j: JsonV) -> bool {
        data_wf::<ReceivedEmail>(j)
    }

    open spec fn json_rel(j: JsonV, v: Self) -> bool {
        data_rel::<ReceivedEmail>(j, v.data)
    }

    fn from_json(j: &Json) -> (r: Option<Self>)
        ensures
            match r {
                Option::Some(v) => Self::json_wf(j@) && Self::json_rel(j@, v),
                Option::None => !Self::json_wf(j@),
            },
    {
        match decode_data::<ReceivedEmail>(j) {
            Option::Some(data) => Option::Some(ListReceivedEmailsResponse { data }),
            Option::None => Option::None,
        }
    }
}

/// An attachment of a received email.
#[derive(Clone, Debug)]
pub struct ReceivedAttachment {
    pub id: String,
    pub filename: String,
    /// Size in bytes.
    pub size: u64,
    pub content_type: String,
}

impl FromJson for ReceivedAttachment {
    open spec fn json_wf(j: JsonV) -> bool {
        &&& jv_has_str(j, "id"@)
        &&& jv_has_str(j, "filename"@)
        &&& jv_has_num(j, "size"@)
        &&& jv_has_str(j, "content_type"@)
    }

    open spec fn json_rel(j: JsonV, v: Self) -> bool {
        &&& v.id@ == jv_str(j, "id"@)
        &&& v.filename@ == jv_str(j, "filename"@)
        &&& v.size == jv_num(j, "size"@)
        &&& v.content_type@ == jv_str(j, "content_type"@)
    }

    fn from_json(j: &Json) -> (r: Option<Self>)
        ensures
            match r {
                Option::Some(v) => Self::json_wf(j@) && Self::json_rel(j@, v),
                Option::None => !Self::json_wf(j@),
            },
    {
        let id = match j.get_str("id") {
            Option::Some(s) => s,
            Option::None => {
                return Option::None;
            },
        };
        let filename = match j.get_str("filename") {
            Option::Some(s) => s,
            Option::None => {
                return Option::None;
            },
        };
        let size = match j.get_num("size") {
            Option::Some(n) => n,
            Option::None => {
                return Option::None;
            },
        };
        let content_type = match j.get_str("content_type") {
            Option::Some(s) => s,
            Option::None => {
                return Option::None;
            },
        };
        Option::Some(ReceivedAttachment { id, filename, size, content_type })
    }
}

/// The envelope of a received-attachment list.
#[derive(Debug)]
pub struct ListReceivedAttachmentsResponse {
    pub data: Vec<ReceivedAttachment>,
}

impl FromJson for ListReceivedAttachmentsResponse {
    open spec fn json_wf(j: JsonV) -> bool {
        data_wf::<ReceivedAttachment>(j)
    }

    open spec fn json_rel(j: JsonV, v: Self) -> bool {
        data_rel::<ReceivedAttachment>(j, v.data)
    }

    fn from_json(j: &Json) -> (r: Option<Self>)
        ensures
            match r {
                Option::Some(v) => Self::json_wf(j@) && Self::json_rel(j@, v),
                Option::None => !Self::json_wf(j@),
            },
    {
        match decode_data::<ReceivedAttachment>(j) {
            Option::Some(data) => Option::Some(ListReceivedAttachmentsResponse { data }),
            Option::None => Option::None,
        }
    }
}

impl ResendClient {
    /// `GET /emails/receiving` with the pagination parameters.
    pub fn list_received_emails(&self, pagination: &PaginationOptions) -> (r: HttpRequest)
        ensures
            list_call(r, *self, "/emails/receiving"@, *pagination),
    {
        let mut r = self.request(Method::Get, "/emails/receiving");
        r.apply_pagination(pagination);
        proof {
            assert(Seq::<(Seq<char>, Seq<char>)>::empty() + crate::api::pagination_params(
                *pagination,
            ) =~= crate::api::pagination_params(*pagination));
        }
        r
    }

    /// `GET /emails/receiving/{id}`; the reply is decoded as raw JSON.
    pub fn get_received_email(&self, id: &str) -> (r: HttpRequest)
        ensures
            plain_call(r, *self, Method::Get, "/emails/receiving/"@ + id@),
    {
        self.request_for_id(Method::Get, "/emails/receiving/", id)
    }

    /// `GET /emails/receiving/{id}/attachments`.
    pub fn list_received_attachments(&self, id: &str) -> (r: HttpRequest)
        ensures
            plain_call(r, *self, Method::Get, "/emails/receiving/"@ + id@ + "/attachments"@),
    {
        self.request_for_id_with(Method::Get, "/emails/receiving/", id, "/attachments")
    }
}

} // verus!
