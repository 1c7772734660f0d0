//! Template resources: request and record shapes, their wire codecs, and
//! the template operations of the dispatch client.

use vstd::prelude::*;

use crate::api::{
    data_rel, data_wf, decode_data, list_call, payload_call, plain_call, FromJson, HttpRequest,
    Method, PaginationOptions, ResendClient,
};
use crate::json::{
    jv_has_str, jv_str, member_keys, obj_view, opt_str_member, push_opt_str_member,
    push_str_member, Json, JsonV,
};

verus! {

broadcast use vstd::std_specs::vec::group_vec_axioms, vstd::seq::group_seq_axioms;

/// A request to create a template: its name and HTML content.
#[derive(Clone, Debug)]
pub struct CreateTemplateRequest {
    pub name: String,
    pub html: String,
}

impl CreateTemplateRequest {
    /// The payload this request serializes to.
    pub open spec fn jv(self) -> JsonV {
        JsonV::Obj(seq![("name"@, JsonV::Str(self.name@)), ("html"@, JsonV::Str(self.html@))])
    }

    pub fn to_json(&self) -> (j: Json)
        ensures
            j@ == self.jv(),
    {
        let mut members: Vec<(String, Json)> = Vec::new();
        push_str_member(&mut members, "name", &self.name);
        push_str_member(&mut members, "html", &self.html);
        proof {
            assert(obj_view(members@) =~= seq![
                ("name"@, JsonV::Str(self.name@)),
                ("html"@, JsonV::Str(self.html@)),
            ]);
        }
        Json::Obj(members)
    }
}

/// A partial update of a template: set each supplied field, leave the rest
/// unchanged; absent fields are omitted from the payload.
#[derive(Clone, Debug)]
pub struct UpdateTemplateRequest {
    pub name: Option<String>,
    pub html: Option<String>,
}

impl UpdateTemplateRequest {
    /// The payload this request serializes to: only the supplied fields.
    pub open spec fn jv(self) -> JsonV {
        JsonV::Obj(opt_str_member("name"@, self.name) + opt_str_member("html"@, self.html))
    }

    pub fn to_json(&self) -> (j: Json)
        ensures
            j@ == self.jv(),
    {
        let mut members: Vec<(String, Json)> = Vec::new();
        push_opt_str_member(&mut members, "name", &self.name);
        push_opt_str_member(&mut members, "html", &self.html);
        proof {
            assert(obj_view(members@) =~= opt_str_member("name"@, self.name) + opt_str_member(
                "html"@,
                self.html,
            ));
        }
        Json::Obj(members)
    }
}

/// A template record.
#[derive(Clone, Debug)]
pub struct Template {
    pub id: String,
    pub name: String,
    pub created_at: String,
}

impl FromJson for Template {
    open spec fn json_wf(j: JsonV) -> bool {
        &&& jv_has_str(j, "id"@)
        &&& jv_has_str(j, "name"@)
        &&& jv_has_str(j, "created_at"@)
    }

    open spec fn json_rel(j: JsonV, v: Self) -> bool {
        &&& v.id@ == jv_str(j, "id"@)
        &&& v.name@ == jv_str(j, "name"@)
        &&& v.created_at@ == jv_str(j, "created_at"@)
    }

    fn from_json(j: &Json) -> (r: Option<Self>)
        ensures
            match r {
                Option::Some(v) => Self::json_wf(j@) && Self::json_rel(j@, v),
                Option::None => !Self::json_wf(j@),
            },
    {
        let id = match j.get_str("id") {
            Option::Some(s) => s,
            Option::None => {
                return Option::None;
            },
        };
        let name = match j.get_str("name") {
            Option::Some(s) => s,
            Option::None => {
                return Option::None;
            },
        };
        let created_at = match j.get_str("created_at") {
            Option::Some(s) => s,
            Option::None => {
                return Option::None;
            },
        };
        Option::Some(Template { id, name, created_at })
    }
}

/// The envelope of a template list.
#[derive(Debug)]
pub struct ListTemplatesResponse {
    pub data: Vec<Template>,
}

impl FromJson for ListTemplatesResponse {
    open spec fn json_wf(j: JsonV) -> bool {
        data_wf::<Template>(j)
    }

    open spec fn json_rel(j: JsonV, v: Self) -> bool {
        data_rel::<Template>(j, v.data)
    }

    fn from_json(j: &Json) -> (r: Option<Self>)
        ensures
            match r {
                Option::Some(v) => Self::json_wf(j@) && Self::json_rel(j@, v),
                Option::None => !Self::json_wf(j@),
            },
    {
        match decode_data::<Template>(j) {
            Option::Some(data) => Option::Some(ListTemplatesResponse { data }),
            Option::None => Option::None,
        }
    }
}

impl ResendClient {
    /// `POST /templates` with the serialized create request.
    pub fn create_template(&self, request: &CreateTemplateRequest) -> (r: HttpRequest)
        ensures
            payload_call(r, *self, Method::Post, "/templates"@, request.jv()),
    {
        self.request_with_body(Method::Post, "/templates", &request.to_json())
    }

    /// `GET /templates` with the pagination parameters.
    pub fn list_templates(&self, pagination: &PaginationOptions) -> (r: HttpRequest)
        ensures
            list_call(r, *self, "/templates"@, *pagination),
    {
        let mut r = self.request(Method::Get, "/templates");
        r.apply_pagination(pagination);
        proof {
            assert(Seq::<(Seq<char>, Seq<char>)>::empty() + crate::api::pagination_params(
                *pagination,
            ) =~= crate::api::pagination_params(*pagination));
        }
        r
    }

    /// `GET /templates/{id}`.
    pub fn get_template(&self, id: &str) -> (r: HttpRequest)
        ensures
            plain_call(r, *self, Method::Get, "/templates/"@ + id@),
    {
        self.request_for_id(Method::Get, "/templates/", id)
    }

    /// `PATCH /templates/{id}` with the serialized update request.
    pub fn update_template(&self, id: &str, request: &UpdateTemplateRequest) -> (r: HttpRequest)
        ensures
            payload_call(r, *self, Method::Patch, "/templates/"@ + id@, request.jv()),
    {
        let mut r = self.request_for_id(Method::Patch, "/templates/", id);
        r.body = Option::Some(crate::encode::to_text(&request.to_json()));
        r
    }

    /// `DELETE /templates/{id}`.
    pub fn delete_template(&self, id: &str) -> (r: HttpRequest)
        ensures
            plain_call(r, *self, Method::Delete, "/templates/"@ + id@),
    {
        self.request_for_id(Method::Delete, "/templates/", id)
    }
}

/// An update payload holds exactly the supplied fields' keys; an absent
/// field's key does not appear at all.
pub proof fn lemma_update_template_keys(r: UpdateTemplateRequest)
    ensures
        member_keys(r.jv()->Obj_0) == (match r.name {
            Option::Some(_) => seq!["name"@],
            Option::None => Seq::empty(),
        }) + (match r.html {
            Option::Some(_) => seq!["html"@],
            Option::None => Seq::empty(),
        }),
        r.name is None ==> !member_keys(r.jv()->Obj_0).contains("name"@),
        r.html is None ==> !member_keys(r.jv()->Obj_0).contains("html"@),
{
    reveal_strlit("name");
    reveal_strlit("html");
    assert(member_keys(r.jv()->Obj_0) =~= (match r.name {
        Option::Some(_) => seq!["name"@],
        Option::None => Seq::<Seq<char>>::empty(),
    }) + (match r.html {
        Option::Some(_) => seq!["html"@],
        Option::None => Seq::<Seq<char>>::empty(),
    }));
    assert("name"@.len() == 4 && "html"@.len() == 4);
    assert("name"@[0] == 'n' && "html"@[0] == 'h');
}

} // verus!
