//! The command layer: one type per resource naming its subcommands, and for
//! each a verified `plan` that maps the chosen subcommand to the one HTTP
//! call it performs.  Parsing the command line into these types, sending
//! the planned request, and rendering the reply are the surrounding
//! application's work.

pub mod api_keys;
pub mod broadcasts;
pub mod contact_properties;
pub mod contacts;
pub mod domains;
pub mod emails;
pub mod receiving;
pub mod segments;
pub mod templates;
pub mod topics;
pub mod webhooks;
