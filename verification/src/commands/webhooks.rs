//! The webhook command: its subcommands and the call each one performs.

use vstd::prelude::*;

use crate::api::webhooks::CreateWebhookRequest;
use crate::api::{
    list_call, payload_call, plain_call, HttpRequest, Method, PaginationOptions, ResendClient,
};
use crate::text::clone_strings;

verus! {

/// The webhook command, wrapping one chosen subcommand.
pub struct WebhooksCommand {
    pub command: WebhooksSubcommand,
}

/// What can be done with webhooks.
pub enum WebhooksSubcommand {
    /// Create a webhook for an endpoint and a set of events.
    Create { endpoint: String, events: Vec<String> },
    /// List webhooks, paginated.
    List(PaginationOptions),
    /// Fetch one webhook.
    Get { id: String },
    /// Delete one webhook.
    Delete { id: String },
}

impl WebhooksCommand {
    /// The one HTTP call this command performs.
    pub fn plan(&self, client: &ResendClient) -> (r: HttpRequest)
        ensures
            match self.command {
                WebhooksSubcommand::Create { endpoint, events } => payload_call(
                    r,
                    *client,
                    Method::Post,
                    "/webhooks"@,
                    (CreateWebhookRequest { endpoint, events }).jv(),
                ),
                WebhooksSubcommand::List(p) => list_call(r, *client, "/webhooks"@, p),
                WebhooksSubcommand::Get { id } => plain_call(
                    r,
                    *client,
                    Method::Get,
                    "/webhooks/"@ + id@,
                ),
                WebhooksSubcommand::Delete { id } => plain_call(
                    r,
                    *client,
                    Method::Delete,
                    "/webhooks/"@ + id@,
                ),
            },
    {
        match &self.command {
            WebhooksSubcommand::Create { endpoint, events } => {
                let request = CreateWebhookRequest {
                    endpoint: endpoint.clone(),
                    events: clone_strings(events),
                };
                let r = client.create_webhook(&request);
                proof {
                    let se = crate::json::strs_jv(request.events@);
                    let so = crate::json::strs_jv(events@);
                    assert(se->Arr_0 =~= so->Arr_0);
                    assert(se == so);
                    assert(request.jv()->Obj_0 =~= (CreateWebhookRequest {
                        endpoint: *endpoint,
                        events: *events,
                    }).jv()->Obj_0);
                    assert(request.jv() == (CreateWebhookRequest {
                        endpoint: *endpoint,
                        events: *events,
                    }).jv());
                }
                r
            },
            WebhooksSubcommand::List(pagination) => client.list_webhooks(pagination),
            WebhooksSubcommand::Get { id } => client.get_webhook(id.as_str()),
            WebhooksSubcommand::Delete { id } => client.delete_webhook(id.as_str()),
        }
    }
}

} // verus!
