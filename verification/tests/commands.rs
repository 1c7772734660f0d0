//! Tests of the command layer: each subcommand plans exactly the call the
//! service expects.

use resend_cli::api::{Method, PaginationOptions, ResendClient};
use resend_cli::commands::contacts::{ContactsCommand, ContactsSubcommand};
use resend_cli::commands::domains::{DomainsCommand, DomainsSubcommand};
use resend_cli::commands::emails::{draft_request, EmailsAction, EmailsCommand, EmailsSubcommand};
use resend_cli::commands::segments::{SegmentsCommand, SegmentsSubcommand};
use resend_cli::config::Config;

fn planning_client() -> ResendClient {
    ResendClient::new(Config { api_key: "test_key".to_string() })
}

#[test]
fn domain_create_command_plans_a_post() {
    let cmd = DomainsCommand {
        command: DomainsSubcommand::Create { name: "example.com".to_string(), region: None },
    };
    let call = cmd.plan(&planning_client());
    assert_eq!(call.method, Method::Post);
    assert_eq!(call.url, "https://api.resend.com/domains");
    assert_eq!(call.body.as_deref(), Some("{\"name\":\"example.com\"}"));
}

#[test]
fn domain_list_command_carries_pagination() {
    let cmd = DomainsCommand {
        command: DomainsSubcommand::List(PaginationOptions {
            limit: Some(5),
            after: None,
            before: Some("cur".to_string()),
        }),
    };
    let call = cmd.plan(&planning_client());
    assert_eq!(call.method, Method::Get);
    assert_eq!(
        call.query,
        vec![("limit".to_string(), "5".to_string()), ("before".to_string(), "cur".to_string())]
    );
}

#[test]
fn contact_segment_membership_paths() {
    let add = ContactsCommand {
        command: ContactsSubcommand::AddToSegment {
            contact_id: "c_1".to_string(),
            segment_id: "s_2".to_string(),
        },
    };
    let call = add.plan(&planning_client());
    assert_eq!(call.method, Method::Post);
    assert_eq!(call.url, "https://api.resend.com/contacts/c_1/segments/s_2");

    let remove = ContactsCommand {
        command: ContactsSubcommand::RemoveFromSegment {
            contact_id: "c_1".to_string(),
            segment_id: "s_2".to_string(),
        },
    };
    let call = remove.plan(&planning_client());
    assert_eq!(call.method, Method::Delete);
    assert_eq!(call.url, "https://api.resend.com/contacts/c_1/segments/s_2");
}

#[test]
fn segment_create_command_sends_the_name() {
    let cmd = SegmentsCommand {
        command: SegmentsSubcommand::Create { name: "Leads".to_string() },
    };
    let call = cmd.plan(&planning_client());
    assert_eq!(call.body.as_deref(), Some("{\"name\":\"Leads\"}"));
}

#[test]
fn email_send_command_omits_unset_fields() {
    let cmd = EmailsCommand {
        command: EmailsSubcommand::Send {
            from: "a@b.c".to_string(),
            to: vec!["d@e.f".to_string()],
            subject: "hi".to_string(),
            html: None,
            text: Some("plain".to_string()),
            scheduled_at: None,
        },
    };
    match cmd.plan(&planning_client()) {
        EmailsAction::Call(call) => {
            assert_eq!(
                call.body.as_deref(),
                Some("{\"from\":\"a@b.c\",\"to\":[\"d@e.f\"],\"subject\":\"hi\",\
                      \"text\":\"plain\"}")
            );
        },
        _ => panic!("sending is one HTTP call"),
    }
}

#[test]
fn email_draft_and_batch_are_local_actions() {
    let draft = EmailsCommand {
        command: EmailsSubcommand::Draft {
            from: "a@b.c".to_string(),
            to: vec![],
            subject: "s".to_string(),
            html: None,
            text: None,
            html_file: None,
            text_file: None,
            scheduled_at: None,
        },
    };
    assert!(matches!(draft.plan(&planning_client()), EmailsAction::ComposeDraft));

    let batch = EmailsCommand {
        command: EmailsSubcommand::SendBatch { file: "test_data.json".to_string() },
    };
    assert!(matches!(batch.plan(&planning_client()), EmailsAction::BatchFromFile));
}

#[test]
fn draft_request_sets_only_nonempty_content() {
    let r = draft_request(
        "a@b.c".to_string(),
        vec!["d@e.f".to_string()],
        "s".to_string(),
        "<p>hi</p>".to_string(),
        "".to_string(),
        Some("2024-01-01".to_string()),
    );
    assert_eq!(r.html.as_deref(), Some("<p>hi</p>"));
    assert!(r.text.is_none());
    assert!(r.cc.is_none() && r.bcc.is_none() && r.reply_to.is_none());
    assert_eq!(r.scheduled_at.as_deref(), Some("2024-01-01"));
}
