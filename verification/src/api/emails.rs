//! Email resources: request and record shapes, their wire codecs, and the
//! email operations of the dispatch client.

use vstd::prelude::*;

use crate::api::{
    data_rel, data_wf, decode_data, list_call, payload_call, plain_call, FromJson, HttpRequest,
    Method, PaginationOptions, ResendClient,
};
use crate::json::{
    jv_has_num, jv_has_str, jv_has_str_arr, jv_num, jv_str, jv_str_arr, member_keys, obj_view, opt_key,
    opt_str_member, opt_strs_member, push_opt_str_member, push_opt_strs_member, push_str_member,
    push_strs_member, strs_jv, Json, JsonV,
};

verus! {

broadcast use vstd::std_specs::vec::group_vec_axioms, vstd::seq::group_seq_axioms;

/// A request to send an email: sender, recipients and subject, plus a
/// constrained set of optional fields, each omitted from the payload when
/// absent.
#[derive(Clone, Debug)]
pub struct SendEmailRequest {
    pub from: String,
    pub to: Vec<String>,
    pub subject: String,
    pub html: Option<String>,
    pub text: Option<String>,
    pub cc: Option<Vec<String>>,
    pub bcc: Option<Vec<String>>,
    pub reply_to: Option<Vec<String>>,
    pub scheduled_at: Option<String>,
}

impl SendEmailRequest {
    /// The payload this request serializes to: the three required fields,
    /// then each optional field exactly when supplied.
    pub open spec fn jv(self) -> JsonV {
        JsonV::Obj(
            seq![
                ("from"@, JsonV::Str(self.from@)),
                ("to"@, strs_jv(self.to@)),
                ("subject"@, JsonV::Str(self.subject@)),
            ] + opt_str_member("html"@, self.html) + opt_str_member("text"@, self.text)
                + opt_strs_member("cc"@, self.cc) + opt_strs_member("bcc"@, self.bcc)
                + opt_strs_member("reply_to"@, self.reply_to) + opt_str_member(
                "scheduled_at"@,
                self.scheduled_at,
            ),
        )
    }

    pub fn to_json(&self) -> (j: Json)
        ensures
            j@ == self.jv(),
    {
        let mut members: Vec<(String, Json)> = Vec::new();
        push_str_member(&mut members, "from", &self.from);
        push_strs_member(&mut members, "to", &self.to);
        push_str_member(&mut members, "subject", &self.subject);
        push_opt_str_member(&mut members, "html", &self.html);
        push_opt_str_member(&mut members, "text", &self.text);
        push_opt_strs_member(&mut members, "cc", &self.cc);
        push_opt_strs_member(&mut members, "bcc", &self.bcc);
        push_opt_strs_member(&mut members, "reply_to", &self.reply_to);
        push_opt_str_member(&mut members, "scheduled_at", &self.scheduled_at);
        proof {
            assert(obj_view(members@) =~= self.jv()->Obj_0);
        }
        Json::Obj(members)
    }
}

/// A send request also decodes from JSON: this is how a batch file's
/// entries are read back in.
impl FromJson for SendEmailRequest {
    open spec fn json_wf(j: JsonV) -> bool {
        &&& jv_has_str(j, "from"@)
        &&& jv_has_str_arr(j, "to"@)
        &&& jv_has_str(j, "subject"@)
        &&& crate::json::jv_opt_str_ok(j, "html"@)
        &&& crate::json::jv_opt_str_ok(j, "text"@)
        &&& crate::json::jv_opt_strs_ok(j, "cc"@)
        &&& crate::json::jv_opt_strs_ok(j, "bcc"@)
        &&& crate::json::jv_opt_strs_ok(j, "reply_to"@)
        &&& crate::json::jv_opt_str_ok(j, "scheduled_at"@)
    }

    open spec fn json_rel(j: JsonV, v: Self) -> bool {
        &&& v.from@ == jv_str(j, "from"@)
        &&& v.to.deep_view() == jv_str_arr(j, "to"@)
        &&& v.subject@ == jv_str(j, "subject"@)
        &&& (match v.html {
            Option::Some(s) => crate::json::jv_opt_str(j, "html"@) == Option::Some(s@),
            Option::None => crate::json::jv_opt_str(j, "html"@) is None,
        })
        &&& (match v.text {
            Option::Some(s) => crate::json::jv_opt_str(j, "text"@) == Option::Some(s@),
            Option::None => crate::json::jv_opt_str(j, "text"@) is None,
        })
        &&& (match v.cc {
            Option::Some(vs) => crate::json::jv_opt_strs(j, "cc"@) == Option::Some(vs.deep_view()),
            Option::None => crate::json::jv_opt_strs(j, "cc"@) is None,
        })
        &&& (match v.bcc {
            Option::Some(vs) => crate::json::jv_opt_strs(j, "bcc"@) == Option::Some(
                vs.deep_view(),
            ),
            Option::None => crate::json::jv_opt_strs(j, "bcc"@) is None,
        })
        &&& (match v.reply_to {
            Option::Some(vs) => crate::json::jv_opt_strs(j, "reply_to"@) == Option::Some(
                vs.deep_view(),
            ),
            Option::None => crate::json::jv_opt_strs(j, "reply_to"@) is None,
        })
        &&& (match v.scheduled_at {
            Option::Some(s) => crate::json::jv_opt_str(j, "scheduled_at"@) == Option::Some(s@),
            Option::None => crate::json::jv_opt_str(j, "scheduled_at"@) is None,
        })
    }

    fn from_json(j: &Json) -> (r: Option<Self>)
        ensures
            match r {
                Option::Some(v) => Self::json_wf(j@) && Self::json_rel(j@, v),
                Option::None => !Self::json_wf(j@),
            },
    {
        let from = match j.get_str("from") {
            Option::Some(s) => s,
            Option::None => {
                return Option::None;
            },
        };
        let to = match j.get_str_arr("to") {
            Option::Some(v) => v,
            Option::None => {
                return Option::None;
            },
        };
        let subject = match j.get_str("subject") {
            Option::Some(s) => s,
            Option::None => {
                return Option::None;
            },
        };
        let html = match j.get_opt_str("html") {
            Option::Some(o) => o,
            Option::None => {
                return Option::None;
            },
        };
        let text = match j.get_opt_str("text") {
            Option::Some(o) => o,
            Option::None => {
                return Option::None;
            },
        };
        let cc = match j.get_opt_strs("cc") {
            Option::Some(o) => o,
            Option::None => {
                return Option::None;
            },
        };
        let bcc = match j.get_opt_strs("bcc") {
            Option::Some(o) => o,
            Option::None => {
                return Option::None;
            },
        };
        let reply_to = match j.get_opt_strs("reply_to") {
            Option::Some(o) => o,
            Option::None => {
                return Option::None;
            },
        };
        let scheduled_at = match j.get_opt_str("scheduled_at") {
            Option::Some(o) => o,
            Option::None => {
                return Option::None;
            },
        };
        Option::Some(
            SendEmailRequest { from, to, subject, html, text, cc, bcc, reply_to, scheduled_at },
        )
    }
}

/// The reply to a send: the issued email identifier.
#[derive(Clone, Debug)]
pub struct SendEmailResponse {
    pub id: String,
}

impl FromJson for SendEmailResponse {
    open spec fn json_wf(j: JsonV) -> bool {
        jv_has_str(j, "id"@)
    }

    open spec fn json_rel(j: JsonV, v: Self) -> bool {
        v.id@ == jv_str(j, "id"@)
    }

    fn from_json(j: &Json) -> (r: Option<Self>)
        ensures
            match r {
                Option::Some(v) => Self::json_wf(j@) && Self::json_rel(j@, v),
                Option::None => !Self::json_wf(j@),
            },
    {
        match j.get_str("id") {
            Option::Some(id) => Option::Some(SendEmailResponse { id }),
            Option::None => Option::None,
        }
    }
}

/// An email record as the server returns it.
#[derive(Clone, Debug)]
pub struct Email {
    pub id: String,
    pub from: String,
    pub to: Vec<String>,
    pub subject: String,
    pub created_at: String,
    /// The status of the email's most recent delivery event.
    pub last_event: String,
}

impl FromJson for Email {
    open spec fn json_wf(j: JsonV) -> bool {
        &&& jv_has_str(j, "id"@)
        &&& jv_has_str(j, "from"@)
        &&& jv_has_str_arr(j, "to"@)
        &&& jv_has_str(j, "subject"@)
        &&& jv_has_str(j, "created_at"@)
        &&& jv_has_str(j, "last_event"@)
    }

    open spec fn json_rel(j: JsonV, v: Self) -> bool {
        &&& v.id@ == jv_str(j, "id"@)
        &&& v.from@ == jv_str(j, "from"@)
        &&& v.to.deep_view() == jv_str_arr(j, "to"@)
        &&& v.subject@ == jv_str(j, "subject"@)
        &&& v.created_at@ == jv_str(j, "created_at"@)
        &&& v.last_event@ == jv_str(j, "last_event"@)
    }

    fn from_json(j: &Json) -> (r: Option<Self>)
        ensures
            match r {
                Option::Some(v) => Self::json_wf(j@) && Self::json_rel(j@, v),
                Option::None => !Self::json_wf(j@),
            },
    {
        let id = match j.get_str("id") {
            Option::Some(s) => s,
            Option::None => {
                return Option::None;
            },
        };
        let from = match j.get_str("from") {
            Option::Some(s) => s,
            Option::None => {
                return Option::None;
            },
        };
        let to = match j.get_str_arr("to") {
            Option::Some(v) => v,
            Option::None => {
                return Option::None;
            },
        };
        let subject = match j.get_str("subject") {
            Option::Some(s) => s,
            Option::None => {
                return Option::None;
            },
        };
        let created_at = match j.get_str("created_at") {
            Option::Some(s) => s,
            Option::None => {
                return Option::None;
            },
        };
        let last_event = match j.get_str("last_event") {
            Option::Some(s) => s,
            Option::None => {
                return Option::None;
            },
        };
        Option::Some(Email { id, from, to, subject, created_at, last_event })
    }
}

/// The comma-and-space-joined text of the strings from index `i` on.
pub open spec fn joined(vs: Seq<Seq<char>>, i: int) -> Seq<char>
    decreases vs.len() - i,
{
    if i < 0 || i >= vs.len() {
        Seq::empty()
    } else if i == vs.len() - 1 {
        vs[i]
    } else {
        vs[i] + ", "@ + joined(vs, i + 1)
    }
}

fn join_from(v: &Vec<String>, i: usize) -> (r: String)
    requires
        i <= v@.len(),
    ensures
        r@ == joined(v.deep_view(), i as int),
    decreases v@.len() - i,
{
    if i >= v.len() {
        String::new()
    } else if i == v.len() - 1 {
        v[i].clone()
    } else {
        let mut s = v[i].clone();
        s.append(", ");
        let rest = join_from(v, i + 1);
        s.concat(rest.as_str())
    }
}

/// Renders a list of strings for table display, separated by `", "`.
pub fn display_vec(v: &Vec<String>) -> (r: String)
    ensures
        r@ == joined(v.deep_view(), 0),
{
    join_from(v, 0)
}

/// The envelope of an email list.
#[derive(Debug)]
pub struct ListEmailsResponse {
    pub data: Vec<Email>,
}

impl FromJson for ListEmailsResponse {
    open spec fn json_wf(j: JsonV) -> bool {
        data_wf::<Email>(j)
    }

    open spec fn json_rel(j: JsonV, v: Self) -> bool {
        data_rel::<Email>(j, v.data)
    }

    fn from_json(j: &Json) -> (r: Option<Self>)
        ensures
            match r {
                Option::Some(v) => Self::json_wf(j@) && Self::json_rel(j@, v),
                Option::None => !Self::json_wf(j@),
            },
    {
        match decode_data::<Email>(j) {
            Option::Some(data) => Option::Some(ListEmailsResponse { data }),
            Option::None => Option::None,
        }
    }
}

/// A request to move a scheduled email to a new delivery time.
#[derive(Clone, Debug)]
pub struct UpdateEmailRequest {
    pub scheduled_at: String,
}

impl UpdateEmailRequest {
    /// The payload this request serializes to.
    pub open spec fn jv(self) -> JsonV {
        JsonV::Obj(seq![("scheduled_at"@, JsonV::Str(self.scheduled_at@))])
    }

    pub fn to_json(&self) -> (j: Json)
        ensures
            j@ == self.jv(),
    {
        let mut members: Vec<(String, Json)> = Vec::new();
        push_str_member(&mut members, "scheduled_at", &self.scheduled_at);
        proof {
            assert(obj_view(members@) =~= seq![("scheduled_at"@, JsonV::Str(self.scheduled_at@))]);
        }
        Json::Obj(members)
    }
}

/// An attachment of a sent email.
#[derive(Clone, Debug)]
pub struct Attachment {
    pub id: String,
    pub filename: String,
    /// Size in bytes.
    pub size: u64,
    pub content_type: String,
}

impl FromJson for Attachment {
    open spec fn json_wf(j: JsonV) -> bool {
        &&& jv_has_str(j, "id"@)
        &&& jv_has_str(j, "filename"@)
        &&& jv_has_num(j, "size"@)
        &&& jv_has_str(j, "content_type"@)
    }

    open spec fn json_rel(j: JsonV, v: Self) -> bool {
        &&& v.id@ == jv_str(j, "id"@)
        &&& v.filename@ == jv_str(j, "filename"@)
        &&& v.size == jv_num(j, "size"@)
        &&& v.content_type@ == jv_str(j, "content_type"@)
    }

    fn from_json(j: &Json) -> (r: Option<Self>)
        ensures
            match r {
                Option::Some(v) => Self::json_wf(j@) && Self::json_rel(j@, v),
                Option::None => !Self::json_wf(j@),
            },
    {
        let id = match j.get_str("id") {
            Option::Some(s) => s,
            Option::None => {
                return Option::None;
            },
        };
        let filename = match j.get_str("filename") {
            Option::Some(s) => s,
            Option::None => {
                return Option::None;
            },
        };
        let size = match j.get_num("size") {
            Option::Some(n) => n,
            Option::None => {
                return Option::None;
            },
        };
        let content_type = match j.get_str("content_type") {
            Option::Some(s) => s,
            Option::None => {
                return Option::None;
            },
        };
        Option::Some(Attachment { id, filename, size, content_type })
    }
}

/// The envelope of an attachment list.
#[derive(Debug)]
pub struct ListAttachmentsResponse {
    pub data: Vec<Attachment>,
}

impl FromJson for ListAttachmentsResponse {
    open spec fn json_wf(j: JsonV) -> bool {
        data_wf::<Attachment>(j)
    }

    open spec fn json_rel(j: JsonV, v: Self) -> bool {
        data_rel::<Attachment>(j, v.data)
    }

    fn from_json(j: &Json) -> (r: Option<Self>)
        ensures
            match r {
                Option::Some(v) => Self::json_wf(j@) && Self::json_rel(j@, v),
                Option::None => !Self::json_wf(j@),
            },
    {
        match decode_data::<Attachment>(j) {
            Option::Some(data) => Option::Some(ListAttachmentsResponse { data }),
            Option::None => Option::None,
        }
    }
}

/// The payload of a batch send: the array of each request's payload, in
/// order.
pub open spec fn batch_jv(reqs: Seq<SendEmailRequest>) -> JsonV {
    JsonV::Arr(Seq::new(reqs.len(), |i: int| reqs[i].jv()))
}

impl ResendClient {
    /// `POST /emails` with the serialized send request.
    pub fn send_email(&self, request: &SendEmailRequest) -> (r: HttpRequest)
        ensures
            payload_call(r, *self, Method::Post, "/emails"@, request.jv()),
    {
        self.request_with_body(Method::Post, "/emails", &request.to_json())
    }

    /// `POST /emails/batch` with one array payload holding every request.
    pub fn send_email_batch(&self, requests: &Vec<SendEmailRequest>) -> (r: HttpRequest)
        ensures
            payload_call(r, *self, Method::Post, "/emails/batch"@, batch_jv(requests@)),
    {
        let mut elems: Vec<Json> = Vec::new();
        let mut i: usize = 0;
        while i < requests.len()
            invariant
                0 <= i <= requests@.len(),
                elems@.len() == i,
                forall|k: int| 0 <= k < i ==> elems@[k]@ == requests@[k].jv(),
            decreases requests@.len() - i,
        {
            elems.push(requests[i].to_json());
            i = i + 1;
        }
        let payload = Json::Arr(elems);
        proof {
            assert(crate::json::arr_view(payload->Arr_0@) =~= batch_jv(requests@)->Arr_0);
        }
        self.request_with_body(Method::Post, "/emails/batch", &payload)
    }

    /// `GET /emails/{id}`.
    pub fn get_email(&self, id: &str) -> (r: HttpRequest)
        ensures
            plain_call(r, *self, Method::Get, "/emails/"@ + id@),
    {
        self.request_for_id(Method::Get, "/emails/", id)
    }

    /// `GET /emails` with the pagination parameters.
    pub fn list_emails(&self, pagination: &PaginationOptions) -> (r: HttpRequest)
        ensures
            list_call(r, *self, "/emails"@, *pagination),
    {
        let mut r = self.request(Method::Get, "/emails");
        r.apply_pagination(pagination);
        proof {
            assert(Seq::<(Seq<char>, Seq<char>)>::empty() + crate::api::pagination_params(
                *pagination,
            ) =~= crate::api::pagination_params(*pagination));
        }
        r
    }

    /// `POST /emails/{id}/cancel`.
    pub fn cancel_email(&self, id: &str) -> (r: HttpRequest)
        ensures
            plain_call(r, *self, Method::Post, "/emails/"@ + id@ + "/cancel"@),
    {
        self.request_for_id_with(Method::Post, "/emails/", id, "/cancel")
    }

    /// `PATCH /emails/{id}` with the serialized update request.
    pub fn update_email(&self, id: &str, request: &UpdateEmailRequest) -> (r: HttpRequest)
        ensures
            payload_call(r, *self, Method::Patch, "/emails/"@ + id@, request.jv()),
    {
        let mut r = self.request_for_id(Method::Patch, "/emails/", id);
        r.body = Option::Some(crate::encode::to_text(&request.to_json()));
        r
    }

    /// `GET /emails/{id}/attachments`.
    pub fn list_email_attachments(&self, id: &str) -> (r: HttpRequest)
        ensures
            plain_call(r, *self, Method::Get, "/emails/"@ + id@ + "/attachments"@),
    {
        self.request_for_id_with(Method::Get, "/emails/", id, "/attachments")
    }
}

/// A send payload's keys are exactly the three required fields followed by
/// the supplied optional ones; an absent optional field's key does not
/// appear at all.
#[verifier::rlimit(100)]
pub proof fn lemma_send_email_keys(r: SendEmailRequest)
    ensures
        member_keys(r.jv()->Obj_0) == seq!["from"@, "to"@, "subject"@] + opt_key(
            "html"@,
            r.html is Some,
        ) + opt_key("text"@, r.text is Some) + opt_key("cc"@, r.cc is Some) + opt_key(
            "bcc"@,
            r.bcc is Some,
        ) + opt_key("reply_to"@, r.reply_to is Some) + opt_key(
            "scheduled_at"@,
            r.scheduled_at is Some,
        ),
        r.html is None ==> !member_keys(r.jv()->Obj_0).contains("html"@),
        r.text is None ==> !member_keys(r.jv()->Obj_0).contains("text"@),
        r.cc is None ==> !member_keys(r.jv()->Obj_0).contains("cc"@),
        r.bcc is None ==> !member_keys(r.jv()->Obj_0).contains("bcc"@),
        r.reply_to is None ==> !member_keys(r.jv()->Obj_0).contains("reply_to"@),
        r.scheduled_at is None ==> !member_keys(r.jv()->Obj_0).contains("scheduled_at"@),
{
    reveal_strlit("from");
    reveal_strlit("to");
    reveal_strlit("subject");
    reveal_strlit("html");
    reveal_strlit("text");
    reveal_strlit("cc");
    reveal_strlit("bcc");
    reveal_strlit("reply_to");
    reveal_strlit("scheduled_at");
    assert(member_keys(r.jv()->Obj_0) =~= seq!["from"@, "to"@, "subject"@] + opt_key(
        "html"@,
        r.html is Some,
    ) + opt_key("text"@, r.text is Some) + opt_key("cc"@, r.cc is Some) + opt_key(
        "bcc"@,
        r.bcc is Some,
    ) + opt_key("reply_to"@, r.reply_to is Some) + opt_key(
        "scheduled_at"@,
        r.scheduled_at is Some,
    ));
    assert("from"@.len() == 4 && "to"@.len() == 2 && "subject"@.len() == 7);
    assert("html"@.len() == 4 && "text"@.len() == 4 && "cc"@.len() == 2);
    assert("bcc"@.len() == 3 && "reply_to"@.len() == 8 && "scheduled_at"@.len() == 12);
    assert("html"@[0] == 'h' && "text"@[0] == 't' && "from"@[0] == 'f');
    assert("to"@[0] == 't' && "cc"@[0] == 'c' && "text"@[1] == 'e' && "to"@[1] == 'o');
}

} // verus!
