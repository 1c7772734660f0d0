//! The topic command: its subcommands and the call each one performs.

use vstd::prelude::*;

use crate::api::topics::{CreateTopicRequest, UpdateTopicRequest};
use crate::api::{
    list_call, payload_call, plain_call, HttpRequest, Method, PaginationOptions, ResendClient,
};

verus! {

/// The topic command, wrapping one chosen subcommand.
pub struct TopicsCommand {
    pub command: TopicsSubcommand,
}

/// What can be done with topics.
pub enum TopicsSubcommand {
    /// Create a topic with a name and a default subscription state.
    Create { name: String, default_subscription: String },
    /// List topics, paginated.
    List(PaginationOptions),
    /// Fetch one topic.
    Get { id: String },
    /// Update one topic's supplied fields.
    Update { id: String, name: Option<String> },
    /// Delete one topic.
    Delete { id: String },
}

impl TopicsCommand {
    /// The one HTTP call this command performs.
    pub fn plan(&self, client: &ResendClient) -> (r: HttpRequest)
        ensures
            match self.command {
                TopicsSubcommand::Create { name, default_subscription } => payload_call(
                    r,
                    *client,
                    Method::Post,
                    "/topics"@,
                    (CreateTopicRequest { name, default_subscription }).jv(),
                ),
                TopicsSubcommand::List(p) => list_call(r, *client, "/topics"@, p),
                TopicsSubcommand::Get { id } => plain_call(
                    r,
                    *client,
                    Method::Get,
                    "/topics/"@ + id@,
                ),
                TopicsSubcommand::Update { id, name } => payload_call(
                    r,
                    *client,
                    Method::Patch,
                    "/topics/"@ + id@,
                    (UpdateTopicRequest { name }).jv(),
                ),
                TopicsSubcommand::Delete { id } => plain_call(
                    r,
                    *client,
                    Method::Delete,
                    "/topics/"@ + id@,
                ),
            },
    {
        match &self.command {
            TopicsSubcommand::Create { name, default_subscription } => {
                let request = CreateTopicRequest {
                    name: name.clone(),
                    default_subscription: default_subscription.clone(),
                };
                let r = client.create_topic(&request);
                proof {
                    assert(request.jv() =~= (CreateTopicRequest {
                        name: *name,
                        default_subscription: *default_subscription,
                    }).jv());
                }
                r
            },
            TopicsSubcommand::List(pagination) => client.list_topics(pagination),
            TopicsSubcommand::Get { id } => client.get_topic(id.as_str()),
            TopicsSubcommand::Update { id, name } => {
                let request = UpdateTopicRequest { name: name.clone() };
                let r = client.update_topic(id.as_str(), &request);
                proof {
                    assert(request.jv() =~= (UpdateTopicRequest { name: *name }).jv());
                }
                r
            },
            TopicsSubcommand::Delete { id } => client.delete_topic(id.as_str()),
        }
    }
}

} // verus!
