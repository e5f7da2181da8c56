use serde_json::Value;
use user_notification::changes::ChangeSet;
use user_notification::event::{
    HookApprovalRequest, HookEvent, HookEventAfterAgent, HookEventAfterApprovalRequested,
    HookEventAfterElicitationRequested, HookEventAfterInputRequested, HookEventAfterToolUse,
    HookPayload,
};
use user_notification::hook::{
    command_from_argv, hook_result, notify_hook, notify_hook_with_events, HookResult,
};
use user_notification::json::{integer, quote, JsonEncode};
use user_notification::legacy::{
    default_notify_events, legacy_notify_json, notify_event_name, LegacyNotifyError,
    UserNotification, AGENT_TURN_COMPLETE_EVENT, APPLY_PATCH_APPROVAL_REQUESTED_EVENT,
    ELICITATION_REQUESTED_EVENT, EXEC_APPROVAL_REQUESTED_EVENT, INPUT_REQUESTED_EVENT,
};
use user_notification::notifier::{UserNotification as CoreNotification, UserNotifier};
use user_notification::protocol::{FileChange, ParsedCommand, RequestId};

fn strings(words: &[&str]) -> Vec<String> {
    words.iter().map(|w| w.to_string()).collect()
}

fn turn_complete(client: Option<&str>) -> HookPayload {
    HookPayload {
        cwd: "/work".to_string(),
        client: client.map(|c| c.to_string()),
        hook_event: HookEvent::AfterAgent {
            event: HookEventAfterAgent {
                thread_id: "t-1".to_string(),
                turn_id: "7".to_string(),
                input_messages: strings(&["hello world"]),
                last_assistant_message: Some("Done".to_string()),
            },
        },
    }
}

fn exec_approval() -> HookPayload {
    HookPayload {
        cwd: "/work".to_string(),
        client: None,
        hook_event: HookEvent::AfterApprovalRequested {
            event: HookEventAfterApprovalRequested {
                thread_id: "t-1".to_string(),
                turn_id: "7".to_string(),
                call_id: "call-9".to_string(),
                reason: None,
                input_messages: strings(&["please create the file"]),
                last_assistant_message: None,
                approval: HookApprovalRequest::Exec {
                    command: strings(&["touch", "notify-approval.txt"]),
                    proposed_execpolicy_amendment: None,
                    proposed_network_policy_amendments: None,
                    additional_permissions: None,
                    parsed_cmd: vec![],
                    network_approval_context: None,
                },
            },
        },
    }
}

fn apply_patch() -> HookPayload {
    HookPayload {
        cwd: "/work".to_string(),
        client: None,
        hook_event: HookEvent::AfterApprovalRequested {
            event: HookEventAfterApprovalRequested {
                thread_id: "t-1".to_string(),
                turn_id: "7".to_string(),
                call_id: "call-3".to_string(),
                reason: None,
                input_messages: vec![],
                last_assistant_message: None,
                approval: HookApprovalRequest::ApplyPatch {
                    changes: ChangeSet::new(),
                    grant_root: None,
                },
            },
        },
    }
}

fn input_requested() -> HookPayload {
    HookPayload {
        cwd: "/work".to_string(),
        client: None,
        hook_event: HookEvent::AfterInputRequested {
            event: HookEventAfterInputRequested {
                thread_id: "t-1".to_string(),
                turn_id: "7".to_string(),
                call_id: "notify-request-user-input".to_string(),
                input_messages: strings(&["please confirm"]),
                last_assistant_message: None,
                questions: vec![],
            },
        },
    }
}

fn elicitation(turn_id: Option<&str>, request_id: RequestId) -> HookPayload {
    HookPayload {
        cwd: "/work".to_string(),
        client: None,
        hook_event: HookEvent::AfterElicitationRequested {
            event: HookEventAfterElicitationRequested {
                thread_id: "t-1".to_string(),
                turn_id: turn_id.map(|t| t.to_string()),
                server_name: "calendar".to_string(),
                request_id,
                message: "Open the browser".to_string(),
            },
        },
    }
}

fn tool_use() -> HookPayload {
    HookPayload {
        cwd: "/work".to_string(),
        client: None,
        hook_event: HookEvent::AfterToolUse {
            event: HookEventAfterToolUse {
                thread_id: "t-1".to_string(),
                turn_id: "7".to_string(),
                call_id: "call-1".to_string(),
                tool_name: "shell".to_string(),
            },
        },
    }
}

fn parse(text: &str) -> Value {
    serde_json::from_str(text).expect("valid JSON")
}

#[test]
fn default_events_are_turn_complete_only() {
    assert_eq!(default_notify_events(), vec!["agent-turn-complete".to_string()]);
}

#[test]
fn event_names_follow_the_event() {
    assert_eq!(
        notify_event_name(&turn_complete(None).hook_event),
        Some(AGENT_TURN_COMPLETE_EVENT)
    );
    assert_eq!(
        notify_event_name(&exec_approval().hook_event),
        Some(EXEC_APPROVAL_REQUESTED_EVENT)
    );
    assert_eq!(
        notify_event_name(&apply_patch().hook_event),
        Some(APPLY_PATCH_APPROVAL_REQUESTED_EVENT)
    );
    assert_eq!(
        notify_event_name(&input_requested().hook_event),
        Some(INPUT_REQUESTED_EVENT)
    );
    assert_eq!(
        notify_event_name(&elicitation(None, RequestId::Integer(1)).hook_event),
        Some(ELICITATION_REQUESTED_EVENT)
    );
    assert_eq!(notify_event_name(&tool_use().hook_event), None);
    assert_eq!(APPLY_PATCH_APPROVAL_REQUESTED_EVENT, "apply-patch-approval-requested");
}

#[test]
fn tool_use_has_no_legacy_payload() {
    match legacy_notify_json(&tool_use()) {
        Err(e) => {
            assert!(matches!(e, LegacyNotifyError::UnsupportedEvent));
            assert_eq!(
                e.message(),
                "legacy notify payload is not supported for after_tool_use"
            );
        }
        Ok(_) => panic!("tool use must not produce a payload"),
    }
}

#[test]
fn type_tag_is_the_event_name() {
    for payload in [
        turn_complete(None),
        exec_approval(),
        apply_patch(),
        input_requested(),
        elicitation(None, RequestId::Integer(1)),
    ] {
        let name = notify_event_name(&payload.hook_event).expect("named");
        let text = legacy_notify_json(&payload).ok().expect("payload");
        assert!(text.starts_with(&format!("{{\"type\":\"{}\"", name)));
    }
}

#[test]
fn client_is_left_out_when_absent() {
    let without = legacy_notify_json(&turn_complete(None)).ok().unwrap();
    let with = legacy_notify_json(&turn_complete(Some("codex-tui"))).ok().unwrap();
    assert!(!without.contains("\"client\""));
    assert_eq!(
        with,
        r#"{"type":"agent-turn-complete","thread-id":"t-1","turn-id":"7","cwd":"/work","client":"codex-tui","input-messages":["hello world"],"last-assistant-message":"Done"}"#
    );
    assert_eq!(
        without,
        r#"{"type":"agent-turn-complete","thread-id":"t-1","turn-id":"7","cwd":"/work","input-messages":["hello world"],"last-assistant-message":"Done"}"#
    );
}

#[test]
fn legacy_turn_complete_matches_notifier_text() {
    let legacy = legacy_notify_json(&turn_complete(None)).ok().unwrap();
    let core = CoreNotification::AgentTurnComplete {
        thread_id: "t-1".to_string(),
        turn_id: "7".to_string(),
        cwd: "/work".to_string(),
        input_messages: strings(&["hello world"]),
        last_assistant_message: Some("Done".to_string()),
    }
    .to_json();
    assert_eq!(legacy, core);
}

#[test]
fn exec_approval_payload_lists_nulls_in_order() {
    let text = legacy_notify_json(&exec_approval()).ok().unwrap();
    assert_eq!(
        text,
        r#"{"type":"exec-approval-requested","thread-id":"t-1","turn-id":"7","cwd":"/work","input-messages":["please create the file"],"last-assistant-message":null,"call-id":"call-9","reason":null,"command":["touch","notify-approval.txt"],"proposed-execpolicy-amendment":null,"proposed-network-policy-amendments":null,"additional-permissions":null,"parsed-cmd":[],"network-approval-context":null}"#
    );
    let value = parse(&text);
    assert_eq!(value["command"].as_array().unwrap().last().unwrap(), "notify-approval.txt");
}

#[test]
fn input_requested_payload_puts_call_id_first() {
    let text = legacy_notify_json(&input_requested()).ok().unwrap();
    assert_eq!(
        text,
        r#"{"type":"input-requested","thread-id":"t-1","turn-id":"7","cwd":"/work","call-id":"notify-request-user-input","input-messages":["please confirm"],"last-assistant-message":null,"questions":[]}"#
    );
}

#[test]
fn apply_patch_payload_with_no_changes() {
    let text = legacy_notify_json(&apply_patch()).ok().unwrap();
    assert_eq!(
        text,
        r#"{"type":"apply-patch-approval-requested","thread-id":"t-1","turn-id":"7","cwd":"/work","input-messages":[],"last-assistant-message":null,"call-id":"call-3","reason":null,"changes":{},"grant-root":null}"#
    );
}

#[test]
fn elicitation_payload_without_turn_and_with_string_id() {
    let text = legacy_notify_json(&elicitation(None, RequestId::String("req-1".to_string())))
        .ok()
        .unwrap();
    assert_eq!(
        text,
        r#"{"type":"elicitation-requested","thread-id":"t-1","turn-id":null,"cwd":"/work","server-name":"calendar","request-id":"req-1","message":"Open the browser"}"#
    );
}

#[test]
fn strings_are_escaped() {
    assert_eq!(quote("say \"hi\"\n\\"), r#""say \"hi\"\n\\""#);
    assert_eq!(quote("tab\there"), r#""tab\there""#);
    assert_eq!(quote("\u{1}"), r#""\u0001""#);
    assert_eq!(quote("\u{1f}\u{8}\u{c}\r\u{7f}"), "\"\\u001f\\b\\f\\r\u{7f}\"");
    assert_eq!(quote("黑风雷"), "\"黑风雷\"");
    assert_eq!(quote(""), "\"\"");
}

#[test]
fn integers_are_written_in_decimal() {
    assert_eq!(integer(0), "0");
    assert_eq!(integer(99), "99");
    assert_eq!(integer(-1), "-1");
    assert_eq!(integer(1234567890), "1234567890");
    assert_eq!(integer(i64::MAX), "9223372036854775807");
    assert_eq!(integer(i64::MIN), "-9223372036854775808");
    assert_eq!(RequestId::Integer(-42).to_json(), "-42");
}

#[test]
fn parsed_commands_are_tagged() {
    let read = ParsedCommand::Read {
        cmd: "cat a.rs".to_string(),
        name: "a.rs".to_string(),
        path: "src/a.rs".to_string(),
    };
    assert_eq!(
        read.to_json(),
        r#"{"type":"read","cmd":"cat a.rs","name":"a.rs","path":"src/a.rs"}"#
    );
    let list = ParsedCommand::ListFiles {
        cmd: "ls".to_string(),
        path: None,
    };
    assert_eq!(list.to_json(), r#"{"type":"list_files","cmd":"ls","path":null}"#);
    let search = ParsedCommand::Search {
        cmd: "rg foo".to_string(),
        query: Some("foo".to_string()),
        path: None,
    };
    assert_eq!(
        search.to_json(),
        r#"{"type":"search","cmd":"rg foo","query":"foo","path":null}"#
    );
}

#[test]
fn change_set_keeps_one_entry_per_path() {
    let mut changes = ChangeSet::new();
    assert_eq!(changes.len(), 0);
    changes.insert(
        "a.txt".to_string(),
        FileChange::Add {
            content: "one".to_string(),
        },
    );
    changes.insert(
        "b.txt".to_string(),
        FileChange::Delete {
            content: "two".to_string(),
        },
    );
    changes.insert(
        "a.txt".to_string(),
        FileChange::Add {
            content: "three".to_string(),
        },
    );
    assert_eq!(changes.len(), 2);
    match changes.get(&"a.txt".to_string()) {
        Some(FileChange::Add { content }) => assert_eq!(content, "three"),
        _ => panic!("a.txt must hold the last change"),
    }
    assert!(changes.get(&"c.txt".to_string()).is_none());
    assert_eq!(
        changes.to_json(),
        r#"{"a.txt":{"type":"add","content":"three"},"b.txt":{"type":"delete","content":"two"}}"#
    );
}

#[test]
fn argv_must_name_a_program() {
    assert!(command_from_argv(&vec![]).is_none());
    assert!(command_from_argv(&strings(&["", "x"])).is_none());
    let command = command_from_argv(&strings(&["notify-send", "-a", "codex"])).unwrap();
    assert_eq!(command.program, "notify-send");
    assert_eq!(command.args, strings(&["-a", "codex"]));
}

#[test]
fn default_hook_fires_only_at_turn_end() {
    let hook = notify_hook(strings(&["notify.sh", "--flag"]));
    assert_eq!(hook.name, "legacy_notify");
    assert_eq!(hook.enabled_events, default_notify_events());

    let command = hook.run(&turn_complete(None)).expect("turn end starts the program");
    assert_eq!(command.program, "notify.sh");
    assert_eq!(command.args.len(), 2);
    assert_eq!(command.args[0], "--flag");
    assert_eq!(
        command.args[1],
        legacy_notify_json(&turn_complete(None)).ok().unwrap()
    );

    assert!(hook.run(&exec_approval()).is_none());
    assert!(hook.run(&input_requested()).is_none());
    assert!(hook.run(&tool_use()).is_none());
}

#[test]
fn hook_with_opted_in_events() {
    let hook = notify_hook_with_events(
        strings(&["notify.sh"]),
        strings(&["exec-approval-requested", "input-requested"]),
    );
    assert!(hook.run(&turn_complete(None)).is_none());
    let command = hook.run(&exec_approval()).expect("enabled");
    let payload = parse(command.args.last().unwrap());
    assert_eq!(payload["type"], "exec-approval-requested");
    assert_eq!(payload["call-id"], "call-9");
    let command = hook.run(&input_requested()).expect("enabled");
    let payload = parse(command.args.last().unwrap());
    assert_eq!(payload["type"], "input-requested");
    assert_eq!(payload["call-id"], "notify-request-user-input");
    assert!(hook.run(&tool_use()).is_none());

    let no_program = notify_hook_with_events(vec![], strings(&["exec-approval-requested"]));
    assert!(no_program.run(&exec_approval()).is_none());
}

#[test]
fn hook_results() {
    assert!(matches!(hook_result(None), HookResult::Success));
    match hook_result(Some("no such file".to_string())) {
        HookResult::FailedContinue(message) => assert_eq!(message, "no such file"),
        HookResult::Success => panic!("a failed start is reported"),
    }
}

#[test]
fn notifier_appends_the_payload() {
    let notification = CoreNotification::AgentTurnComplete {
        thread_id: "t-1".to_string(),
        turn_id: "7".to_string(),
        cwd: "/work".to_string(),
        input_messages: vec![],
        last_assistant_message: None,
    };
    assert!(UserNotifier::new(None).notify(&notification).is_none());
    assert!(UserNotifier::default().notify(&notification).is_none());
    assert!(UserNotifier::new(Some(vec![])).notify(&notification).is_none());

    let notifier = UserNotifier::new(Some(strings(&["notify-send", "--urgency=low"])));
    let command = notifier.notify(&notification).expect("configured");
    assert_eq!(command.program, "notify-send");
    assert_eq!(
        command.args,
        vec![
            "--urgency=low".to_string(),
            r#"{"type":"agent-turn-complete","thread-id":"t-1","turn-id":"7","cwd":"/work","input-messages":[],"last-assistant-message":null}"#.to_string(),
        ]
    );
}

#[test]
fn hooks_notification_round_trips_through_a_parser() {
    let notification = UserNotification::InputRequested {
        thread_id: "t\"1".to_string(),
        turn_id: "7".to_string(),
        cwd: "C:\\work".to_string(),
        client: Some("tui".to_string()),
        call_id: "c".to_string(),
        input_messages: strings(&["line one\nline two"]),
        last_assistant_message: None,
        questions: vec![],
    };
    let value = parse(&notification.to_json());
    assert_eq!(value["thread-id"], "t\"1");
    assert_eq!(value["cwd"], "C:\\work");
    assert_eq!(value["input-messages"][0], "line one\nline two");
    assert_eq!(value["client"], "tui");
}
