use serde_json::Value;
use user_notification::changes::ChangeSet;
use user_notification::event::{
    HookApprovalRequest, HookEvent, HookEventAfterAgent, HookEventAfterApprovalRequested,
    HookEventAfterElicitationRequested, HookEventAfterInputRequested, HookPayload,
};
use user_notification::json::JsonEncode;
use user_notification::legacy::{legacy_notify_json, UserNotification};
use user_notification::notifier::{
    ApprovalContext, ApprovalNotification, UserNotification as CoreNotification,
};
use user_notification::protocol::{
    ExecPolicyAmendment, FileChange, NetworkApprovalContext, NetworkApprovalProtocol,
    NetworkPolicyAmendment, NetworkPolicyRuleAction, ParsedCommand, PermissionProfile, RequestId,
    RequestUserInputQuestion, RequestUserInputQuestionOption,
};

fn parse(text: &str) -> Value {
    serde_json::from_str(text).expect("valid JSON")
}

fn expected_notification_json() -> Value {
    parse(
        r#"{
            "type": "agent-turn-complete",
            "thread-id": "b5f6c1c2-1111-2222-3333-444455556666",
            "turn-id": "12345",
            "cwd": "/Users/example/project",
            "client": "codex-tui",
            "input-messages": ["Rename `foo` to `bar` and update the callsites."],
            "last-assistant-message": "Rename complete and verified `cargo build` succeeds."
        }"#,
    )
}

#[test]
fn user_notification_test_user_notification() {
    let notification = CoreNotification::AgentTurnComplete {
        thread_id: "b5f6c1c2-1111-2222-3333-444455556666".to_string(),
        turn_id: "12345".to_string(),
        cwd: "/Users/example/project".to_string(),
        input_messages: vec!["Rename `foo` to `bar` and update the callsites.".to_string()],
        last_assistant_message: Some(
            "Rename complete and verified `cargo build` succeeds.".to_string(),
        ),
    };
    let serialized = notification.to_json();
    assert_eq!(
        serialized,
        r#"{"type":"agent-turn-complete","thread-id":"b5f6c1c2-1111-2222-3333-444455556666","turn-id":"12345","cwd":"/Users/example/project","input-messages":["Rename `foo` to `bar` and update the callsites."],"last-assistant-message":"Rename complete and verified `cargo build` succeeds."}"#
    );
}

#[test]
fn test_user_notification_exec_approval() {
    let context = ApprovalContext {
        thread_id: "b5f6c1c2-1111-2222-3333-444455556666".to_string(),
        turn_id: "12345".to_string(),
        cwd: "/Users/example/project".to_string(),
        input_messages: vec!["Run git status".to_string()],
        last_assistant_message: Some("Checking repository status.".to_string()),
        call_id: "call-1".to_string(),
        reason: Some("Exec approval required.".to_string()),
    };
    let notification = CoreNotification::ApprovalRequested {
        approval: ApprovalNotification::Exec {
            context,
            command: vec!["git".to_string(), "status".to_string()],
            proposed_execpolicy_amendment: Some(ExecPolicyAmendment::new(vec!["git".to_string()])),
            parsed_cmd: vec![ParsedCommand::Unknown {
                cmd: "git status".to_string(),
            }],
        },
    };
    let serialized = parse(&notification.to_json());
    assert_eq!(
        serialized,
        parse(
            r#"{
                "type": "approval-requested",
                "approval-kind": "exec",
                "thread-id": "b5f6c1c2-1111-2222-3333-444455556666",
                "turn-id": "12345",
                "cwd": "/Users/example/project",
                "input-messages": ["Run git status"],
                "last-assistant-message": "Checking repository status.",
                "call-id": "call-1",
                "reason": "Exec approval required.",
                "command": ["git", "status"],
                "proposed-execpolicy-amendment": ["git"],
                "parsed-cmd": [
                    {"type": "unknown", "cmd": "git status"}
                ]
            }"#
        )
    );
}

#[test]
fn test_user_notification_apply_patch_approval() {
    let context = ApprovalContext {
        thread_id: "b5f6c1c2-1111-2222-3333-444455556666".to_string(),
        turn_id: "12345".to_string(),
        cwd: "/Users/example/project".to_string(),
        input_messages: vec!["Apply patch to main.rs".to_string()],
        last_assistant_message: None,
        call_id: "call-2".to_string(),
        reason: None,
    };
    let mut changes = ChangeSet::new();
    changes.insert(
        "src/main.rs".to_string(),
        FileChange::Update {
            unified_diff: "@@ -1 +1 @@\n-old\n+new\n".to_string(),
            move_path: None,
        },
    );
    let notification = CoreNotification::ApprovalRequested {
        approval: ApprovalNotification::ApplyPatch {
            context,
            changes,
            grant_root: Some("/Users/example/project".to_string()),
        },
    };
    let serialized = parse(&notification.to_json());
    assert_eq!(
        serialized,
        parse(
            r#"{
                "type": "approval-requested",
                "approval-kind": "apply-patch",
                "thread-id": "b5f6c1c2-1111-2222-3333-444455556666",
                "turn-id": "12345",
                "cwd": "/Users/example/project",
                "input-messages": ["Apply patch to main.rs"],
                "last-assistant-message": null,
                "call-id": "call-2",
                "reason": null,
                "changes": {
                    "src/main.rs": {
                        "type": "update",
                        "unified_diff": "@@ -1 +1 @@\n-old\n+new\n",
                        "move_path": null
                    }
                },
                "grant-root": "/Users/example/project"
            }"#
        )
    );
}

#[test]
fn test_user_notification() {
    let notification = UserNotification::AgentTurnComplete {
        thread_id: "b5f6c1c2-1111-2222-3333-444455556666".to_string(),
        turn_id: "12345".to_string(),
        cwd: "/Users/example/project".to_string(),
        client: Some("codex-tui".to_string()),
        input_messages: vec!["Rename `foo` to `bar` and update the callsites.".to_string()],
        last_assistant_message: Some(
            "Rename complete and verified `cargo build` succeeds.".to_string(),
        ),
    };
    let serialized = notification.to_json();
    let actual = parse(&serialized);
    assert_eq!(actual, expected_notification_json());
}

#[test]
fn legacy_notify_json_serializes_exec_approval_payload() {
    let payload = HookPayload {
        cwd: "/Users/example/project".to_string(),
        client: Some("codex-tui".to_string()),
        hook_event: HookEvent::AfterApprovalRequested {
            event: HookEventAfterApprovalRequested {
                thread_id: "b5f6c1c2-1111-2222-3333-444455556666".to_string(),
                turn_id: "12345".to_string(),
                call_id: "call-1".to_string(),
                reason: Some("Exec approval required.".to_string()),
                input_messages: vec!["Run git status".to_string()],
                last_assistant_message: Some("Checking repository status.".to_string()),
                approval: HookApprovalRequest::Exec {
                    command: vec!["git".to_string(), "status".to_string()],
                    proposed_execpolicy_amendment: Some(ExecPolicyAmendment::new(vec![
                        "git".to_string(),
                    ])),
                    proposed_network_policy_amendments: Some(vec![NetworkPolicyAmendment {
                        host: "example.com".to_string(),
                        action: NetworkPolicyRuleAction::Allow,
                    }]),
                    additional_permissions: Some(PermissionProfile::default()),
                    parsed_cmd: vec![ParsedCommand::Unknown {
                        cmd: "git status".to_string(),
                    }],
                    network_approval_context: Some(NetworkApprovalContext {
                        host: "example.com".to_string(),
                        protocol: NetworkApprovalProtocol::Https,
                    }),
                },
            },
        },
    };

    let serialized = legacy_notify_json(&payload).ok().expect("payload");
    let actual = parse(&serialized);
    assert_eq!(
        actual,
        parse(
            r#"{
                "type": "exec-approval-requested",
                "thread-id": "b5f6c1c2-1111-2222-3333-444455556666",
                "turn-id": "12345",
                "cwd": "/Users/example/project",
                "client": "codex-tui",
                "input-messages": ["Run git status"],
                "last-assistant-message": "Checking repository status.",
                "call-id": "call-1",
                "reason": "Exec approval required.",
                "command": ["git", "status"],
                "proposed-execpolicy-amendment": ["git"],
                "proposed-network-policy-amendments": [{
                    "host": "example.com",
                    "action": "allow"
                }],
                "additional-permissions": {
                    "file_system": null,
                    "macos": null,
                    "network": null
                },
                "parsed-cmd": [{
                    "type": "unknown",
                    "cmd": "git status"
                }],
                "network-approval-context": {
                    "host": "example.com",
                    "protocol": "https"
                }
            }"#
        )
    );
}

#[test]
fn legacy_notify_json_serializes_input_requested_payload() {
    let payload = HookPayload {
        cwd: "/Users/example/project".to_string(),
        client: None,
        hook_event: HookEvent::AfterInputRequested {
            event: HookEventAfterInputRequested {
                thread_id: "b5f6c1c2-1111-2222-3333-444455556666".to_string(),
                turn_id: "12345".to_string(),
                call_id: "call-2".to_string(),
                input_messages: vec!["Need an answer".to_string()],
                last_assistant_message: Some("Choose one.".to_string()),
                questions: vec![RequestUserInputQuestion {
                    id: "confirm".to_string(),
                    header: "Confirm".to_string(),
                    question: "Proceed?".to_string(),
                    is_other: false,
                    is_secret: false,
                    options: Some(vec![RequestUserInputQuestionOption {
                        label: "Yes".to_string(),
                        description: "Continue.".to_string(),
                    }]),
                }],
            },
        },
    };

    let serialized = legacy_notify_json(&payload).ok().expect("payload");
    let actual = parse(&serialized);
    assert_eq!(actual["type"], parse(r#""input-requested""#));
    assert_eq!(actual["call-id"], parse(r#""call-2""#));
}

#[test]
fn legacy_notify_json_serializes_elicitation_requested_payload() {
    let payload = HookPayload {
        cwd: "/Users/example/project".to_string(),
        client: Some("codex-app-server".to_string()),
        hook_event: HookEvent::AfterElicitationRequested {
            event: HookEventAfterElicitationRequested {
                thread_id: "b5f6c1c2-1111-2222-3333-444455556666".to_string(),
                turn_id: Some("12345".to_string()),
                server_name: "calendar".to_string(),
                request_id: RequestId::Integer(99),
                message: "Open the browser".to_string(),
            },
        },
    };

    let serialized = legacy_notify_json(&payload).ok().expect("payload");
    let actual = parse(&serialized);
    assert_eq!(actual["type"], parse(r#""elicitation-requested""#));
    assert_eq!(actual["request-id"], parse("99"));
}

#[test]
fn legacy_notify_json_matches_historical_wire_shape() {
    let payload = HookPayload {
        cwd: "/Users/example/project".to_string(),
        client: Some("codex-tui".to_string()),
        hook_event: HookEvent::AfterAgent {
            event: HookEventAfterAgent {
                thread_id: "b5f6c1c2-1111-2222-3333-444455556666".to_string(),
                turn_id: "12345".to_string(),
                input_messages: vec!["Rename `foo` to `bar` and update the callsites.".to_string()],
                last_assistant_message: Some(
                    "Rename complete and verified `cargo build` succeeds.".to_string(),
                ),
            },
        },
    };

    let serialized = legacy_notify_json(&payload).ok().expect("payload");
    let actual = parse(&serialized);
    assert_eq!(actual, expected_notification_json());
}
