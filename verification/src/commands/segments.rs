//! The segment command: its subcommands and the call each one performs.

use vstd::prelude::*;

use crate::api::{
    list_call, payload_call, plain_call, HttpRequest, Method, PaginationOptions, ResendClient,
};
use crate::json::JsonV;

verus! {

/// The segment command, wrapping one chosen subcommand.
pub struct SegmentsCommand {
    pub command: SegmentsSubcommand,
}

/// What can be done with segments.
pub enum SegmentsSubcommand {
    /// Create a segment with a name.
    Create { name: String },
    /// List segments, paginated.
    List(PaginationOptions),
    /// Fetch one segment.
    Get { id: String },
    /// Delete one segment.
    Delete { id: String },
}

impl SegmentsCommand {
    /// The one HTTP call this command performs.
    pub fn plan(&self, client: &ResendClient) -> (r: HttpRequest)
        ensures
            match self.command {
                SegmentsSubcommand::Create { name } => payload_call(
                    r,
                    *client,
                    Method::Post,
                    "/segments"@,
                    JsonV::Obj(seq![("name"@, JsonV::Str(name@))]),
                ),
                SegmentsSubcommand::List(p) => list_call(r, *client, "/segments"@, p),
                SegmentsSubcommand::Get { id } => plain_call(
                    r,
                    *client,
                    Method::Get,
                    "/segments/"@ + id@,
                ),
                SegmentsSubcommand::Delete { id } => plain_call(
                    r,
                    *client,
                    Method::Delete,
                    "/segments/"@ + id@,
                ),
            },
    {
        match &self.command {
            SegmentsSubcommand::Create { name } => client.create_segment(name.as_str()),
            SegmentsSubcommand::List(pagination) => client.list_segments(pagination),
            SegmentsSubcommand::Get { id } => client.get_segment(id.as_str()),
            SegmentsSubcommand::Delete { id } => client.delete_segment(id.as_str()),
        }
    }
}

} // verus!
