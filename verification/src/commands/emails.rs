//! The email command: its subcommands and the action each one performs.
//!
//! Most subcommands perform one HTTP call.  Two do local work instead:
//! saving a draft writes a file, and a batch send first reads one — the
//! application does that reading and writing, while composing the draft
//! request and building the batch call stay here.

use vstd::prelude::*;

use crate::api::emails::{SendEmailRequest, UpdateEmailRequest};
use crate::api::{
    list_call, payload_call, plain_call, HttpRequest, Method, PaginationOptions, ResendClient,
};

verus! {

/// The email command, wrapping one chosen subcommand.
pub struct EmailsCommand {
    pub command: EmailsSubcommand,
}

/// What can be done with emails.
pub enum EmailsSubcommand {
    /// Send an email.
    Send {
        from: String,
        to: Vec<String>,
        subject: String,
        html: Option<String>,
        text: Option<String>,
        scheduled_at: Option<String>,
    },
    /// Compose an email and save it locally as a draft instead of sending.
    Draft {
        from: String,
        to: Vec<String>,
        subject: String,
        html: Option<String>,
        text: Option<String>,
        html_file: Option<String>,
        text_file: Option<String>,
        scheduled_at: Option<String>,
    },
    /// Fetch one email.
    Get { id: String },
    /// List sent emails, paginated.
    List(PaginationOptions),
    /// Cancel one scheduled email.
    Cancel { id: String },
    /// Move one scheduled email to a new time.
    Update { id: String, scheduled_at: String },
    /// List one email's attachments.
    Attachments { id: String },
    /// Send a batch of emails read from a JSON file.
    SendBatch { file: String },
}

/// What an email subcommand asks the application to do: issue one HTTP
/// call, or perform the local file work of a draft or a batch first.
pub enum EmailsAction {
    /// Send this one request.
    Call(HttpRequest),
    /// Read any content files, then compose the draft with `draft_request`
    /// and write it out.
    ComposeDraft,
    /// Read the named batch file, decode it, then build the call with
    /// `send_email_batch`.
    BatchFromFile,
}

/// The draft composed from command-line content: a content field is set
/// exactly when its text is nonempty, and the draft is never sent, so it
/// carries no extra recipient lists.
pub fn draft_request(
    from: String,
    to: Vec<String>,
    subject: String,
    html_content: String,
    text_content: String,
    scheduled_at: Option<String>,
) -> (r: SendEmailRequest)
    ensures
        r.from == from,
        r.to == to,
        r.subject == subject,
        html_content@.len() > 0 ==> r.html == Option::Some(html_content),
        html_content@.len() == 0 ==> r.html is None,
        text_content@.len() > 0 ==> r.text == Option::Some(text_content),
        text_content@.len() == 0 ==> r.text is None,
        r.cc is None,
        r.bcc is None,
        r.reply_to is None,
        r.scheduled_at == scheduled_at,
{
    let html = if html_content.as_str().is_empty() {
        Option::None
    } else {
        Option::Some(html_content)
    };
    let text = if text_content.as_str().is_empty() {
        Option::None
    } else {
        Option::Some(text_content)
    };
    SendEmailRequest {
        from,
        to,
        subject,
        html,
        text,
        cc: Option::None,
        bcc: Option::None,
        reply_to: Option::None,
        scheduled_at,
    }
}

impl EmailsCommand {
    /// The action this command performs: for every purely remote
    /// subcommand, the exact HTTP call; for the draft and the batch, the
    /// file work the application must do around the library.
    pub fn plan(&self, client: &ResendClient) -> (r: EmailsAction)
        ensures
            match self.command {
                EmailsSubcommand::Send { from, to, subject, html, text, scheduled_at } => (r
                    matches EmailsAction::Call(req) && payload_call(
                    req,
                    *client,
                    Method::Post,
                    "/emails"@,
                    (SendEmailRequest {
                        from,
                        to,
                        subject,
                        html,
                        text,
                        cc: Option::None,
                        bcc: Option::None,
                        reply_to: Option::None,
                        scheduled_at,
                    }).jv(),
                )),
                EmailsSubcommand::Draft { .. } => r is ComposeDraft,
                EmailsSubcommand::Get { id } => (r matches EmailsAction::Call(req) && plain_call(
                    req,
                    *client,
                    Method::Get,
                    "/emails/"@ + id@,
                )),
                EmailsSubcommand::List(p) => (r matches EmailsAction::Call(req) && list_call(
                    req,
                    *client,
                    "/emails"@,
                    p,
                )),
                EmailsSubcommand::Cancel { id } => (r matches EmailsAction::Call(req)
                    && plain_call(req, *client, Method::Post, "/emails/"@ + id@ + "/cancel"@)),
                EmailsSubcommand::Update { id, scheduled_at } => (r matches EmailsAction::Call(req)
                    && payload_call(
                    req,
                    *client,
                    Method::Patch,
                    "/emails/"@ + id@,
                    (UpdateEmailRequest { scheduled_at }).jv(),
                )),
                EmailsSubcommand::Attachments { id } => (r matches EmailsAction::Call(req)
                    && plain_call(req, *client, Method::Get, "/emails/"@ + id@ + "/attachments"@)),
                EmailsSubcommand::SendBatch { .. } => r is BatchFromFile,
            },
    {
        match &self.command {
            EmailsSubcommand::Send { from, to, subject, html, text, scheduled_at } => {
                let request = SendEmailRequest {
                    from: from.clone(),
                    to: crate::text::clone_strings(to),
                    subject: subject.clone(),
                    html: html.clone(),
                    text: text.clone(),
                    cc: Option::None,
                    bcc: Option::None,
                    reply_to: Option::None,
                    scheduled_at: scheduled_at.clone(),
                };
                let r = client.send_email(&request);
                proof {
                    let se = crate::json::strs_jv(request.to@);
                    let so = crate::json::strs_jv(to@);
                    assert(se->Arr_0 =~= so->Arr_0);
                    assert(se == so);
                    let spec_req = SendEmailRequest {
                        from: *from,
                        to: *to,
                        subject: *subject,
                        html: *html,
                        text: *text,
                        cc: Option::None,
                        bcc: Option::None,
                        reply_to: Option::None,
                        scheduled_at: *scheduled_at,
                    };
                    assert(request.jv()->Obj_0 =~= spec_req.jv()->Obj_0);
                    assert(request.jv() == spec_req.jv());
                }
                EmailsAction::Call(r)
            },
            EmailsSubcommand::Draft { .. } => EmailsAction::ComposeDraft,
            EmailsSubcommand::Get { id } => EmailsAction::Call(client.get_email(id.as_str())),
            EmailsSubcommand::List(pagination) => EmailsAction::Call(
                client.list_emails(pagination),
            ),
            EmailsSubcommand::Cancel { id } => EmailsAction::Call(
                client.cancel_email(id.as_str()),
            ),
            EmailsSubcommand::Update { id, scheduled_at } => {
                let request = UpdateEmailRequest { scheduled_at: scheduled_at.clone() };
                let r = client.update_email(id.as_str(), &request);
                proof {
                    assert(request.jv() =~~= (UpdateEmailRequest {
                        scheduled_at: *scheduled_at,
                    }).jv());
                }
                EmailsAction::Call(r)
            },
            EmailsSubcommand::Attachments { id } => EmailsAction::Call(
                client.list_email_attachments(id.as_str()),
            ),
            EmailsSubcommand::SendBatch { .. } => EmailsAction::BatchFromFile,
        }
    }
}

} // verus!
