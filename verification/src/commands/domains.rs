//! The domain command: its subcommands and the call each one performs.

use vstd::prelude::*;

use crate::api::domains::CreateDomainRequest;
use crate::api::{
    list_call, payload_call, plain_call, HttpRequest, Method, PaginationOptions, ResendClient,
};

verus! {

/// The domain command, wrapping one chosen subcommand.
pub struct DomainsCommand {
    pub command: DomainsSubcommand,
}

/// What can be done with domains.
pub enum DomainsSubcommand {
    /// Create a domain with a name and an optional region.
    Create { name: String, region: Option<String> },
    /// List domains, paginated.
    List(PaginationOptions),
    /// Fetch one domain.
    Get { id: String },
    /// Delete one domain.
    Delete { id: String },
    /// Start verification of one domain.
    Verify { id: String },
}

impl DomainsCommand {
    /// The one HTTP call this command performs.
    pub fn plan(&self, client: &ResendClient) -> (r: HttpRequest)
        ensures
            match self.command {
                DomainsSubcommand::Create { name, region } => payload_call(
                    r,
                    *client,
                    Method::Post,
                    "/domains"@,
                    (CreateDomainRequest { name, region }).jv(),
                ),
                DomainsSubcommand::List(p) => list_call(r, *client, "/domains"@, p),
                DomainsSubcommand::Get { id } => plain_call(
                    r,
                    *client,
                    Method::Get,
                    "/domains/"@ + id@,
                ),
                DomainsSubcommand::Delete { id } => plain_call(
                    r,
                    *client,
                    Method::Delete,
                    "/domains/"@ + id@,
                ),
                DomainsSubcommand::Verify { id } => plain_call(
                    r,
                    *client,
                    Method::Post,
                    "/domains/"@ + id@ + "/verify"@,
                ),
            },
    {
        match &self.command {
            DomainsSubcommand::Create { name, region } => {
                let request = CreateDomainRequest { name: name.clone(), region: region.clone() };
                let r = client.create_domain(&request);
                proof {
                    assert(request.jv() =~= (CreateDomainRequest {
                        name: *name,
                        region: *region,
                    }).jv());
                }
                r
            },
            DomainsSubcommand::List(pagination) => client.list_domains(pagination),
            DomainsSubcommand::Get { id } => client.get_domain(id.as_str()),
            DomainsSubcommand::Delete { id } => client.delete_domain(id.as_str()),
            DomainsSubcommand::Verify { id } => client.verify_domain(id.as_str()),
        }
    }
}

} // verus!
