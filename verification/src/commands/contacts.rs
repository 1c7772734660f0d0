//! The contact command: its subcommands and the call each one performs,
//! including segment membership changes.

use vstd::prelude::*;

use crate::api::contacts::{CreateContactRequest, UpdateContactRequest};
use crate::api::{
    list_call, payload_call, plain_call, HttpRequest, Method, PaginationOptions, ResendClient,
};

verus! {

/// The contact command, wrapping one chosen subcommand.
pub struct ContactsCommand {
    pub command: ContactsSubcommand,
}

/// What can be done with contacts.
pub enum ContactsSubcommand {
    /// Create a contact with an address and optional details.
    Create {
        email: String,
        first_name: Option<String>,
        last_name: Option<String>,
        unsubscribed: Option<bool>,
    },
    /// List contacts, paginated.
    List(PaginationOptions),
    /// Fetch one contact.
    Get { id: String },
    /// Update one contact's supplied fields.
    Update {
        id: String,
        first_name: Option<String>,
        last_name: Option<String>,
        unsubscribed: Option<bool>,
    },
    /// Delete one contact.
    Delete { id: String },
    /// Add a contact to a segment.
    AddToSegment { contact_id: String, segment_id: String },
    /// Remove a contact from a segment.
    RemoveFromSegment { contact_id: String, segment_id: String },
}

impl ContactsCommand {
    /// The one HTTP call this command performs.  A contact created from
    /// the command line carries no free-form properties.
    pub fn plan(&self, client: &ResendClient) -> (r: HttpRequest)
        ensures
            match self.command {
                ContactsSubcommand::Create { email, first_name, last_name, unsubscribed } => payload_call(
                    r,
                    *client,
                    Method::Post,
                    "/contacts"@,
                    (CreateContactRequest {
                        email,
                        first_name,
                        last_name,
                        unsubscribed,
                        properties: Option::None,
                    }).jv(),
                ),
                ContactsSubcommand::List(p) => list_call(r, *client, "/contacts"@, p),
                ContactsSubcommand::Get { id } => plain_call(
                    r,
                    *client,
                    Method::Get,
                    "/contacts/"@ + id@,
                ),
                ContactsSubcommand::Update { id, first_name, last_name, unsubscribed } => payload_call(
                    r,
                    *client,
                    Method::Patch,
                    "/contacts/"@ + id@,
                    (UpdateContactRequest { first_name, last_name, unsubscribed }).jv(),
                ),
                ContactsSubcommand::Delete { id } => plain_call(
                    r,
                    *client,
                    Method::Delete,
                    "/contacts/"@ + id@,
                ),
                ContactsSubcommand::AddToSegment { contact_id, segment_id } => plain_call(
                    r,
                    *client,
                    Method::Post,
                    "/contacts/"@ + contact_id@ + "/segments/"@ + segment_id@,
                ),
                ContactsSubcommand::RemoveFromSegment { contact_id, segment_id } => plain_call(
                    r,
                    *client,
                    Method::Delete,
                    "/contacts/"@ + contact_id@ + "/segments/"@ + segment_id@,
                ),
            },
    {
        match &self.command {
            ContactsSubcommand::Create { email, first_name, last_name, unsubscribed } => {
                let request = CreateContactRequest {
                    email: email.clone(),
                    first_name: first_name.clone(),
                    last_name: last_name.clone(),
                    unsubscribed: *unsubscribed,
                    properties: Option::None,
                };
                let r = client.create_contact(&request);
                proof {
                    assert(request.jv() =~= (CreateContactRequest {
                        email: *email,
                        first_name: *first_name,
                        last_name: *last_name,
                        unsubscribed: *unsubscribed,
                        properties: Option::None,
                    }).jv());
                }
                r
            },
            ContactsSubcommand::List(pagination) => client.list_contacts(pagination),
            ContactsSubcommand::Get { id } => client.get_contact(id.as_str()),
            ContactsSubcommand::Update { id, first_name, last_name, unsubscribed } => {
                let request = UpdateContactRequest {
                    first_name: first_name.clone(),
                    last_name: last_name.clone(),
                    unsubscribed: *unsubscribed,
                };
                let r = client.update_contact(id.as_str(), &request);
                proof {
                    assert(request.jv() =~= (UpdateContactRequest {
                        first_name: *first_name,
                        last_name: *last_name,
                        unsubscribed: *unsubscribed,
                    }).jv());
                }
                r
            },
            ContactsSubcommand::Delete { id } => client.delete_contact(id.as_str()),
            ContactsSubcommand::AddToSegment { contact_id, segment_id } => client
                .add_contact_to_segment(contact_id.as_str(), segment_id.as_str()),
            ContactsSubcommand::RemoveFromSegment { contact_id, segment_id } => client
                .delete_contact_from_segment(contact_id.as_str(), segment_id.as_str()),
        }
    }
}

} // verus!
