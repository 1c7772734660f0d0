//! The contact-property command: its subcommands and the call each one
//! performs.  A fallback value given on the command line is a string, sent
//! as a JSON string.

use vstd::prelude::*;

use crate::api::contact_properties::{
    CreateContactPropertyRequest, UpdateContactPropertyRequest,
};
use crate::api::{
    list_call, payload_call, plain_call, HttpRequest, Method, PaginationOptions, ResendClient,
};
use crate::json::{Json, JsonV};

verus! {

/// The contact-property command, wrapping one chosen subcommand.
pub struct ContactPropertiesCommand {
    pub command: ContactPropertiesSubcommand,
}

/// What can be done with contact properties.
pub enum ContactPropertiesSubcommand {
    /// Create a property with a key, a kind, and an optional string
    /// fallback value.
    Create { key: String, property_type: String, fallback_value: Option<String> },
    /// List properties, paginated.
    List(PaginationOptions),
    /// Fetch one property.
    Get { id: String },
    /// Update one property's fallback value.
    Update { id: String, fallback_value: Option<String> },
    /// Delete one property.
    Delete { id: String },
}

/// The member an optional string fallback contributes to a payload.
pub open spec fn fallback_member(v: Option<String>) -> Seq<(Seq<char>, JsonV)> {
    match v {
        Option::Some(s) => seq![("fallback_value"@, JsonV::Str(s@))],
        Option::None => Seq::empty(),
    }
}

impl ContactPropertiesCommand {
    /// The one HTTP call this command performs.
    pub fn plan(&self, client: &ResendClient) -> (r: HttpRequest)
        ensures
            match self.command {
                ContactPropertiesSubcommand::Create { key, property_type, fallback_value } => payload_call(
                    r,
                    *client,
                    Method::Post,
                    "/contact-properties"@,
                    JsonV::Obj(
                        seq![
                            ("key"@, JsonV::Str(key@)),
                            ("type"@, JsonV::Str(property_type@)),
                        ] + fallback_member(fallback_value),
                    ),
                ),
                ContactPropertiesSubcommand::List(p) => list_call(
                    r,
                    *client,
                    "/contact-properties"@,
                    p,
                ),
                ContactPropertiesSubcommand::Get { id } => plain_call(
                    r,
                    *client,
                    Method::Get,
                    "/contact-properties/"@ + id@,
                ),
                ContactPropertiesSubcommand::Update { id, fallback_value } => payload_call(
                    r,
                    *client,
                    Method::Patch,
                    "/contact-properties/"@ + id@,
                    JsonV::Obj(fallback_member(fallback_value)),
                ),
                ContactPropertiesSubcommand::Delete { id } => plain_call(
                    r,
                    *client,
                    Method::Delete,
                    "/contact-properties/"@ + id@,
                ),
            },
    {
        match &self.command {
            ContactPropertiesSubcommand::Create { key, property_type, fallback_value } => {
                let fallback = match fallback_value {
                    Option::Some(s) => Option::Some(Json::Str(s.clone())),
                    Option::None => Option::None,
                };
                let request = CreateContactPropertyRequest {
                    key: key.clone(),
                    property_type: property_type.clone(),
                    fallback_value: fallback,
                };
                let r = client.create_contact_property(&request);
                proof {
                    assert(request.jv()->Obj_0 =~= seq![
                        ("key"@, JsonV::Str(key@)),
                        ("type"@, JsonV::Str(property_type@)),
                    ] + fallback_member(*fallback_value));
                }
                r
            },
            ContactPropertiesSubcommand::List(pagination) => client.list_contact_properties(
                pagination,
            ),
            ContactPropertiesSubcommand::Get { id } => client.get_contact_property(id.as_str()),
            ContactPropertiesSubcommand::Update { id, fallback_value } => {
                let fallback = match fallback_value {
                    Option::Some(s) => Option::Some(Json::Str(s.clone())),
                    Option::None => Option::None,
                };
                let request = UpdateContactPropertyRequest { fallback_value: fallback };
                let r = client.update_contact_property(id.as_str(), &request);
                proof {
                    assert(request.jv()->Obj_0 =~= fallback_member(*fallback_value));
                }
                r
            },
            ContactPropertiesSubcommand::Delete { id } => client.delete_contact_property(
                id.as_str(),
            ),
        }
    }
}

} // verus!
