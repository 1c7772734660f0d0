//! The API-key command: its subcommands and the call each one performs.

use vstd::prelude::*;

use crate::api::api_keys::CreateApiKeyRequest;
use crate::api::{
    list_call, payload_call, plain_call, HttpRequest, Method, PaginationOptions, ResendClient,
};

verus! {

/// The API-key command, wrapping one chosen subcommand.
pub struct ApiKeysCommand {
    pub command: ApiKeysSubcommand,
}

/// What can be done with API keys.
pub enum ApiKeysSubcommand {
    /// Create an API key with a name and optional permission and domain.
    Create { name: String, permission: Option<String>, domain_id: Option<String> },
    /// List API keys, paginated.
    List(PaginationOptions),
    /// Delete one API key.
    Delete { id: String },
}

impl ApiKeysCommand {
    /// The one HTTP call this command performs.
    pub fn plan(&self, client: &ResendClient) -> (r: HttpRequest)
        ensures
            match self.command {
                ApiKeysSubcommand::Create { name, permission, domain_id } => payload_call(
                    r,
                    *client,
                    Method::Post,
                    "/api-keys"@,
                    (CreateApiKeyRequest { name, permission, domain_id }).jv(),
                ),
                ApiKeysSubcommand::List(p) => list_call(r, *client, "/api-keys"@, p),
                ApiKeysSubcommand::Delete { id } => plain_call(
                    r,
                    *client,
                    Method::Delete,
                    "/api-keys/"@ + id@,
                ),
            },
    {
        match &self.command {
            ApiKeysSubcommand::Create { name, permission, domain_id } => {
                let request = CreateApiKeyRequest {
                    name: name.clone(),
                    permission: permission.clone(),
                    domain_id: domain_id.clone(),
                };
                let r = client.create_api_key(&request);
                proof {
                    assert(request.jv() =~= (CreateApiKeyRequest {
                        name: *name,
                        permission: *permission,
                        domain_id: *domain_id,
                    }).jv());
                }
                r
            },
            ApiKeysSubcommand::List(pagination) => client.list_api_keys(pagination),
            ApiKeysSubcommand::Delete { id } => client.delete_api_key(id.as_str()),
        }
    }
}

} // verus!
