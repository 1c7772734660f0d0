//! The received-email command: its subcommands and the call each one
//! performs.

use vstd::prelude::*;

use crate::api::{list_call, plain_call, HttpRequest, Method, PaginationOptions, ResendClient};

verus! {

/// The received-email command, wrapping one chosen subcommand.
pub struct ReceivingCommand {
    pub command: ReceivingSubcommand,
}

/// What can be done with received emails.
pub enum ReceivingSubcommand {
    /// List received emails, paginated.
    List(PaginationOptions),
    /// Fetch one received email, as raw JSON.
    Get { id: String },
    /// List one received email's attachments.
    Attachments { id: String },
}

impl ReceivingCommand {
    /// The one HTTP call this command performs.
    pub fn plan(&self, client: &ResendClient) -> (r: HttpRequest)
        ensures
            match self.command {
                ReceivingSubcommand::List(p) => list_call(r, *client, "/emails/receiving"@, p),
                ReceivingSubcommand::Get { id } => plain_call(
                    r,
                    *client,
                    Method::Get,
                    "/emails/receiving/"@ + id@,
                ),
                ReceivingSubcommand::Attachments { id } => plain_call(
                    r,
                    *client,
                    Method::Get,
                    "/emails/receiving/"@ + id@ + "/attachments"@,
                ),
            },
    {
        match &self.command {
            ReceivingSubcommand::List(pagination) => client.list_received_emails(pagination),
            ReceivingSubcommand::Get { id } => client.get_received_email(id.as_str()),
            ReceivingSubcommand::Attachments { id } => client.list_received_attachments(
                id.as_str(),
            ),
        }
    }
}

} // verus!
