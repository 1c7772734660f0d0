//! The broadcast command: its subcommands and the call each one performs.

use vstd::prelude::*;

use crate::api::broadcasts::{CreateBroadcastRequest, UpdateBroadcastRequest};
use crate::api::{
    list_call, payload_call, plain_call, HttpRequest, Method, PaginationOptions, ResendClient,
};
use crate::text::clone_opt_strings;

verus! {

/// The broadcast command, wrapping one chosen subcommand.
pub struct BroadcastsCommand {
    pub command: BroadcastsSubcommand,
}

/// What can be done with broadcasts.
pub enum BroadcastsSubcommand {
    /// Create a broadcast for a segment.
    Create {
        name: String,
        segment_id: String,
        from: String,
        subject: String,
        html: Option<String>,
        text: Option<String>,
    },
    /// List broadcasts, paginated.
    List(PaginationOptions),
    /// Fetch one broadcast.
    Get { id: String },
    /// Update one broadcast's supplied fields.
    Update {
        id: String,
        name: Option<String>,
        segment_id: Option<String>,
        from: Option<String>,
        subject: Option<String>,
        html: Option<String>,
        text: Option<String>,
        reply_to: Option<Vec<String>>,
    },
    /// Delete one broadcast.
    Delete { id: String },
    /// Send one broadcast.
    Send { id: String },
}

impl BroadcastsCommand {
    /// The one HTTP call this command performs.  A broadcast created from
    /// the command line carries no reply-to list.
    pub fn plan(&self, client: &ResendClient) -> (r: HttpRequest)
        ensures
            match self.command {
                BroadcastsSubcommand::Create { name, segment_id, from, subject, html, text } => payload_call(
                    r,
                    *client,
                    Method::Post,
                    "/broadcasts"@,
                    (CreateBroadcastRequest {
                        name,
                        segment_id,
                        from,
                        subject,
                        html,
                        text,
                        reply_to: Option::None,
                    }).jv(),
                ),
                BroadcastsSubcommand::List(p) => list_call(r, *client, "/broadcasts"@, p),
                BroadcastsSubcommand::Get { id } => plain_call(
                    r,
                    *client,
                    Method::Get,
                    "/broadcasts/"@ + id@,
                ),
                BroadcastsSubcommand::Update {
                    id,
                    name,
                    segment_id,
                    from,
                    subject,
                    html,
                    text,
                    reply_to,
                } => payload_call(
                    r,
                    *client,
                    Method::Patch,
                    "/broadcasts/"@ + id@,
                    (UpdateBroadcastRequest {
                        name,
                        segment_id,
                        from,
                        subject,
                        html,
                        text,
                        reply_to,
                    }).jv(),
                ),
                BroadcastsSubcommand::Delete { id } => plain_call(
                    r,
                    *client,
                    Method::Delete,
                    "/broadcasts/"@ + id@,
                ),
                BroadcastsSubcommand::Send { id } => plain_call(
                    r,
                    *client,
                    Method::Post,
                    "/broadcasts/"@ + id@ + "/send"@,
                ),
            },
    {
        match &self.command {
            BroadcastsSubcommand::Create { name, segment_id, from, subject, html, text } => {
                let request = CreateBroadcastRequest {
                    name: name.clone(),
                    segment_id: segment_id.clone(),
                    from: from.clone(),
                    subject: subject.clone(),
                    html: html.clone(),
                    text: text.clone(),
                    reply_to: Option::None,
                };
                let r = client.create_broadcast(&request);
                proof {
                    assert(request.jv() =~= (CreateBroadcastRequest {
                        name: *name,
                        segment_id: *segment_id,
                        from: *from,
                        subject: *subject,
                        html: *html,
                        text: *text,
                        reply_to: Option::None,
                    }).jv());
                }
                r
            },
            BroadcastsSubcommand::List(pagination) => client.list_broadcasts(pagination),
            BroadcastsSubcommand::Get { id } => client.get_broadcast(id.as_str()),
            BroadcastsSubcommand::Update {
                id,
                name,
                segment_id,
                from,
                subject,
                html,
                text,
                reply_to,
            } => {
                let request = UpdateBroadcastRequest {
                    name: name.clone(),
                    segment_id: segment_id.clone(),
                    from: from.clone(),
                    subject: subject.clone(),
                    html: html.clone(),
                    text: text.clone(),
                    reply_to: clone_opt_strings(reply_to),
                };
                let r = client.update_broadcast(id.as_str(), &request);
                proof {
                    match reply_to {
                        Option::Some(rs) => {
                            let se = crate::json::strs_jv(request.reply_to->0@);
                            let so = crate::json::strs_jv(rs@);
                            assert(se->Arr_0 =~= so->Arr_0);
                            assert(se == so);
                        },
                        Option::None => {},
                    }
                    let spec_req = UpdateBroadcastRequest {
                        name: *name,
                        segment_id: *segment_id,
                        from: *from,
                        subject: *subject,
                        html: *html,
                        text: *text,
                        reply_to: *reply_to,
                    };
                    assert(request.jv()->Obj_0 =~= spec_req.jv()->Obj_0);
                    assert(request.jv() == spec_req.jv());
                }
                r
            },
            BroadcastsSubcommand::Delete { id } => client.delete_broadcast(id.as_str()),
            BroadcastsSubcommand::Send { id } => client.send_broadcast(id.as_str()),
        }
    }
}

} // verus!
