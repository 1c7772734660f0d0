//! The template command: its subcommands and the call each one performs.

use vstd::prelude::*;

use crate::api::templates::{CreateTemplateRequest, UpdateTemplateRequest};
use crate::api::{
    list_call, payload_call, plain_call, HttpRequest, Method, PaginationOptions, ResendClient,
};

verus! {

/// The template command, wrapping one chosen subcommand.
pub struct TemplatesCommand {
    pub command: TemplatesSubcommand,
}

/// What can be done with templates.
pub enum TemplatesSubcommand {
    /// Create a template with a name and HTML content.
    Create { name: String, html: String },
    /// List templates, paginated.
    List(PaginationOptions),
    /// Fetch one template.
    Get { id: String },
    /// Update one template's supplied fields.
    Update { id: String, name: Option<String>, html: Option<String> },
    /// Delete one template.
    Delete { id: String },
}

impl TemplatesCommand {
    /// The one HTTP call this command performs.
    pub fn plan(&self, client: &ResendClient) -> (r: HttpRequest)
        ensures
            match self.command {
                TemplatesSubcommand::Create { name, html } => payload_call(
                    r,
                    *client,
                    Method::Post,
                    "/templates"@,
                    (CreateTemplateRequest { name, html }).jv(),
                ),
                TemplatesSubcommand::List(p) => list_call(r, *client, "/templates"@, p),
                TemplatesSubcommand::Get { id } => plain_call(
                    r,
                    *client,
                    Method::Get,
                    "/templates/"@ + id@,
                ),
                TemplatesSubcommand::Update { id, name, html } => payload_call(
                    r,
                    *client,
                    Method::Patch,
                    "/templates/"@ + id@,
                    (UpdateTemplateRequest { name, html }).jv(),
                ),
                TemplatesSubcommand::Delete { id } => plain_call(
                    r,
                    *client,
                    Method::Delete,
                    "/templates/"@ + id@,
                ),
            },
    {
        match &self.command {
            TemplatesSubcommand::Create { name, html } => {
                let request = CreateTemplateRequest { name: name.clone(), html: html.clone() };
                let r = client.create_template(&request);
                proof {
                    assert(request.jv() =~= (CreateTemplateRequest {
                        name: *name,
                        html: *html,
                    }).jv());
                }
                r
            },
            TemplatesSubcommand::List(pagination) => client.list_templates(pagination),
            TemplatesSubcommand::Get { id } => client.get_template(id.as_str()),
            TemplatesSubcommand::Update { id, name, html } => {
                let request = UpdateTemplateRequest { name: name.clone(), html: html.clone() };
                let r = client.update_template(id.as_str(), &request);
                proof {
                    assert(request.jv() =~= (UpdateTemplateRequest {
                        name: *name,
                        html: *html,
                    }).jv());
                }
                r
            },
            TemplatesSubcommand::Delete { id } => client.delete_template(id.as_str()),
        }
    }
}

} // verus!
