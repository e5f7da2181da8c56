//! Properties that relate the payload, the event names, the hook and the notifier.
use vstd::prelude::*;

use crate::changes::{change_members, distinct_keys, lemma_change_members_keyed_once};
use crate::event::{HookApprovalRequest, HookEvent, HookEventAfterApprovalRequested, HookPayload};
use crate::hook::{argv_command, hook_command, Hook};
use crate::json::{
    has_member_keyed, json_string_literal, keys_of, lemma_keyed_iff_key, list_text, member_text,
    object_text, opt_list_text, opt_string_text, opt_text, string_array_text, string_views,
    JsonEncode,
};
use crate::legacy::{
    event_name, legacy_fields, legacy_members, legacy_notification, UserNotification,
    AGENT_TURN_COMPLETE_EVENT, APPLY_PATCH_APPROVAL_REQUESTED_EVENT, ELICITATION_REQUESTED_EVENT,
    EXEC_APPROVAL_REQUESTED_EVENT, INPUT_REQUESTED_EVENT,
};
use crate::notifier;

verus! {

/// A payload has a legacy notification exactly when its event has a notify
/// name; the end of a tool call has neither.
pub proof fn lemma_notification_iff_named(payload: HookPayload)
    ensures
        legacy_notification(payload) is Some <==> event_name(payload.hook_event) is Some,
        payload.hook_event is AfterToolUse <==> event_name(payload.hook_event) is None,
{
}

/// The first member of a legacy payload is its `"type"` tag, and the tag is
/// the notify name of the event, the name hooks are enabled by.
pub proof fn lemma_type_tag_is_event_name(payload: HookPayload)
    requires
        event_name(payload.hook_event) is Some,
    ensures
        legacy_notification(payload) is Some,
        legacy_members(legacy_notification(payload)->Some_0).len() > 0,
        legacy_members(legacy_notification(payload)->Some_0)[0] == member_text(
            "type"@,
            json_string_literal(event_name(payload.hook_event)->Some_0),
        ),
{
}

/// Naming the client adds exactly one member, `"client"`, right after the
/// working directory; every other member stays where it was.
pub proof fn lemma_client_member(payload: HookPayload, client: String)
    requires
        legacy_notification(payload) is Some,
        payload.client is None,
    ensures
        ({
            let named = HookPayload {
                cwd: payload.cwd,
                client: Some(client),
                hook_event: payload.hook_event,
            };
            let without = legacy_members(legacy_notification(payload)->Some_0);
            let with = legacy_members(legacy_notification(named)->Some_0);
            with == without.take(4).push(member_text("client"@, json_string_literal(client@)))
                + without.skip(4)
        }),
{
    let named = HookPayload { cwd: payload.cwd, client: Some(client), hook_event: payload.hook_event };
    let without = legacy_members(legacy_notification(payload)->Some_0);
    let with = legacy_members(legacy_notification(named)->Some_0);
    assert(with =~= without.take(4).push(member_text("client"@, json_string_literal(client@)))
        + without.skip(4));
}

/// Without a client, the legacy payload of a finished turn is the text the
/// user notifier writes for the same turn.
pub proof fn lemma_turn_complete_matches_notifier(
    thread_id: String,
    turn_id: String,
    cwd: String,
    input_messages: Vec<String>,
    last_assistant_message: Option<String>,
)
    ensures
        (UserNotification::AgentTurnComplete {
            thread_id,
            turn_id,
            cwd,
            client: None,
            input_messages,
            last_assistant_message,
        }).json_text() == (notifier::UserNotification::AgentTurnComplete {
            thread_id,
            turn_id,
            cwd,
            input_messages,
            last_assistant_message,
        }).json_text(),
{
    reveal_strlit("agent-turn-complete");
    let legacy = UserNotification::AgentTurnComplete {
        thread_id,
        turn_id,
        cwd,
        client: None,
        input_messages,
        last_assistant_message,
    };
    let current = notifier::UserNotification::AgentTurnComplete {
        thread_id,
        turn_id,
        cwd,
        input_messages,
        last_assistant_message,
    };
    assert(legacy_members(legacy) =~= notifier::notification_members(current));
}

/// The five notify names are pairwise different.
proof fn lemma_event_names_distinct()
    ensures
        AGENT_TURN_COMPLETE_EVENT@ != EXEC_APPROVAL_REQUESTED_EVENT@,
        AGENT_TURN_COMPLETE_EVENT@ != APPLY_PATCH_APPROVAL_REQUESTED_EVENT@,
        AGENT_TURN_COMPLETE_EVENT@ != INPUT_REQUESTED_EVENT@,
        AGENT_TURN_COMPLETE_EVENT@ != ELICITATION_REQUESTED_EVENT@,
        EXEC_APPROVAL_REQUESTED_EVENT@ != APPLY_PATCH_APPROVAL_REQUESTED_EVENT@,
        EXEC_APPROVAL_REQUESTED_EVENT@ != INPUT_REQUESTED_EVENT@,
        EXEC_APPROVAL_REQUESTED_EVENT@ != ELICITATION_REQUESTED_EVENT@,
        APPLY_PATCH_APPROVAL_REQUESTED_EVENT@ != INPUT_REQUESTED_EVENT@,
        APPLY_PATCH_APPROVAL_REQUESTED_EVENT@ != ELICITATION_REQUESTED_EVENT@,
        INPUT_REQUESTED_EVENT@ != ELICITATION_REQUESTED_EVENT@,
{
    reveal_strlit("agent-turn-complete");
    reveal_strlit("exec-approval-requested");
    reveal_strlit("apply-patch-approval-requested");
    reveal_strlit("input-requested");
    reveal_strlit("elicitation-requested");
    assert(AGENT_TURN_COMPLETE_EVENT@.len() == 19);
    assert(EXEC_APPROVAL_REQUESTED_EVENT@.len() == 23);
    assert(APPLY_PATCH_APPROVAL_REQUESTED_EVENT@.len() == 30);
    assert(INPUT_REQUESTED_EVENT@.len() == 15);
    assert(ELICITATION_REQUESTED_EVENT@.len() == 21);
}

/// A hook enabled only for the end of a turn starts its program for nothing else.
pub proof fn lemma_default_hook_only_turn_complete(hook: Hook, payload: HookPayload)
    requires
        string_views(hook.enabled_events@) == seq![AGENT_TURN_COMPLETE_EVENT@],
    ensures
        hook_command(hook, payload) is Some ==> payload.hook_event is AfterAgent,
{
    lemma_event_names_distinct();
    if hook_command(hook, payload) is Some {
        let name = event_name(payload.hook_event)->Some_0;
        assert(string_views(hook.enabled_events@).contains(name));
        assert(name == AGENT_TURN_COMPLETE_EVENT@);
    }
}

/// The end of a tool call never starts the notify program.
pub proof fn lemma_tool_use_starts_nothing(hook: Hook, payload: HookPayload)
    requires
        payload.hook_event is AfterToolUse,
    ensures
        hook_command(hook, payload) is None,
{
}

/// An event the hook is not enabled for starts nothing.
pub proof fn lemma_disabled_event_starts_nothing(hook: Hook, payload: HookPayload)
    requires
        event_name(payload.hook_event) is Some,
        !string_views(hook.enabled_events@).contains(event_name(payload.hook_event)->Some_0),
    ensures
        hook_command(hook, payload) is None,
{
}

/// For an enabled event and an argv whose first word is not empty, the hook starts
/// that program with the argv's arguments first and the legacy payload last.
pub proof fn lemma_enabled_event_starts_program(hook: Hook, payload: HookPayload)
    requires
        event_name(payload.hook_event) is Some,
        string_views(hook.enabled_events@).contains(event_name(payload.hook_event)->Some_0),
        hook.argv@.len() > 0,
        hook.argv@[0]@.len() > 0,
    ensures
        hook_command(hook, payload) == Some(
            (
                hook.argv@[0]@,
                string_views(hook.argv@.skip(1)).push(
                    object_text(legacy_members(legacy_notification(payload)->Some_0)),
                ),
            ),
        ),
{
}

/// An argv that is empty, or names an empty program, never starts anything.
pub proof fn lemma_unusable_argv_starts_nothing(hook: Hook, payload: HookPayload)
    requires
        hook.argv@.len() == 0 || hook.argv@[0]@.len() == 0,
    ensures
        hook_command(hook, payload) is None,
{
}

/// Whatever the notification, the notifier starts the same program with
/// the same leading arguments; only the last argument, the JSON, differs.
pub proof fn lemma_notifier_command_fixed(
    command: Option<Vec<String>>,
    n1: notifier::UserNotification,
    n2: notifier::UserNotification,
)
    ensures
        notifier::notifier_command(command, n1) is Some <==> notifier::notifier_command(
            command,
            n2,
        ) is Some,
        notifier::notifier_command(command, n1) is Some ==> {
            let (p1, a1) = notifier::notifier_command(command, n1)->Some_0;
            let (p2, a2) = notifier::notifier_command(command, n2)->Some_0;
            &&& p1 == p2
            &&& a1.drop_last() == a2.drop_last()
            &&& a1.last() == n1.json_text()
            &&& a2.last() == n2.json_text()
        },
{
    if notifier::notifier_command(command, n1) is Some {
        let c = command->Some_0;
        assert(string_views(c@.skip(1)).push(n1.json_text()).drop_last() =~= string_views(
            c@.skip(1),
        ));
        assert(string_views(c@.skip(1)).push(n2.json_text()).drop_last() =~= string_views(
            c@.skip(1),
        ));
    }
}

/// Every payload text is a JSON object: it opens with `{` and closes with `}`.
pub proof fn lemma_payload_is_object(n: UserNotification)
    ensures
        n.json_text().len() >= 2,
        n.json_text()[0] == '{',
        n.json_text().last() == '}',
{
}

/// The thread an event belongs to.
pub open spec fn event_thread_id(e: HookEvent) -> Seq<char> {
    match e {
        HookEvent::AfterAgent { event } => event.thread_id@,
        HookEvent::AfterToolUse { event } => event.thread_id@,
        HookEvent::AfterApprovalRequested { event } => event.thread_id@,
        HookEvent::AfterInputRequested { event } => event.thread_id@,
        HookEvent::AfterElicitationRequested { event } => event.thread_id@,
    }
}

/// The text of the turn an event belongs to: a string, or for an
/// elicitation, which may have no turn, a string or `null`.
pub open spec fn event_turn_text(e: HookEvent) -> Seq<char> {
    match e {
        HookEvent::AfterAgent { event } => json_string_literal(event.turn_id@),
        HookEvent::AfterToolUse { event } => json_string_literal(event.turn_id@),
        HookEvent::AfterApprovalRequested { event } => json_string_literal(event.turn_id@),
        HookEvent::AfterInputRequested { event } => json_string_literal(event.turn_id@),
        HookEvent::AfterElicitationRequested { event } => opt_string_text(event.turn_id),
    }
}

/// A legacy payload names the event's thread second, its turn third and the
/// working directory fourth; it has a member keyed `"client"` exactly when a client
/// is known, and then that member comes fifth and holds the client.
pub proof fn lemma_payload_head(payload: HookPayload)
    requires
        legacy_notification(payload) is Some,
    ensures
        ({
            let m = legacy_members(legacy_notification(payload)->Some_0);
            &&& m.len() > 4
            &&& m[1] == member_text("thread-id"@, json_string_literal(event_thread_id(payload.hook_event)))
            &&& m[2] == member_text("turn-id"@, event_turn_text(payload.hook_event))
            &&& m[3] == member_text("cwd"@, json_string_literal(payload.cwd@))
            &&& has_member_keyed(m, "client"@) <==> payload.client is Some
            &&& payload.client matches Some(c) ==> m[4] == member_text("client"@, json_string_literal(c@))
        }),
{
    let n = legacy_notification(payload)->Some_0;
    let f = legacy_fields(n);
    lemma_keyed_iff_key(f, "client"@);
    reveal_strlit("client");
    reveal_strlit("type");
    reveal_strlit("thread-id");
    reveal_strlit("turn-id");
    reveal_strlit("cwd");
    reveal_strlit("input-messages");
    reveal_strlit("last-assistant-message");
    reveal_strlit("call-id");
    reveal_strlit("reason");
    reveal_strlit("command");
    reveal_strlit("proposed-execpolicy-amendment");
    reveal_strlit("proposed-network-policy-amendments");
    reveal_strlit("additional-permissions");
    reveal_strlit("parsed-cmd");
    reveal_strlit("network-approval-context");
    reveal_strlit("changes");
    reveal_strlit("grant-root");
    reveal_strlit("questions");
    reveal_strlit("server-name");
    reveal_strlit("request-id");
    reveal_strlit("message");
    if payload.client is None {
        assert forall|i: int| 0 <= i < keys_of(f).len() implies keys_of(f)[i] != "client"@ by {
            assert(keys_of(f)[i] == f[i].0);
        }
    } else {
        assert(keys_of(f)[4] == "client"@);
    }
}

/// An apply-patch payload carries the call, the reason, the changes and the
/// grant root, and no `"command"` member; in its changes object each path
/// keys exactly one member, which holds that path's change.
pub proof fn lemma_apply_patch_payload(
    cwd: String,
    client: Option<String>,
    event: HookEventAfterApprovalRequested,
)
    requires
        event.approval is ApplyPatch,
        distinct_keys((event.approval->changes).entries()),
    ensures
        ({
            let payload = HookPayload {
                cwd,
                client,
                hook_event: HookEvent::AfterApprovalRequested { event },
            };
            let m = legacy_members(legacy_notification(payload)->Some_0);
            let changes = event.approval->changes;
            let entries = changes.entries();
            &&& m[0] == member_text("type"@, json_string_literal(APPLY_PATCH_APPROVAL_REQUESTED_EVENT@))
            &&& m.contains(member_text("call-id"@, json_string_literal(event.call_id@)))
            &&& m.contains(member_text("reason"@, opt_string_text(event.reason)))
            &&& m.contains(member_text("changes"@, changes.json_text()))
            &&& m.contains(member_text("grant-root"@, opt_string_text(event.approval->grant_root)))
            &&& !has_member_keyed(m, "command"@)
            &&& changes.json_text() == object_text(change_members(entries))
            &&& change_members(entries).len() == entries.len()
            &&& forall|i: int| 0 <= i < entries.len() ==> #[trigger] change_members(entries)[i] == member_text(entries[i].0, entries[i].1.json_text())
            &&& forall|i: int, j: int, k: Seq<char>, v: Seq<char>, w: Seq<char>|
                #![trigger change_members(entries)[i], change_members(entries)[j], member_text(k, v), member_text(k, w)]
                0 <= i < entries.len() && 0 <= j < entries.len() && change_members(entries)[i] == member_text(k, v)
                    && change_members(entries)[j] == member_text(k, w) ==> i == j
        }),
{
    let payload = HookPayload { cwd, client, hook_event: HookEvent::AfterApprovalRequested { event } };
    let n = legacy_notification(payload)->Some_0;
    let f = legacy_fields(n);
    let m = legacy_members(n);
    let changes = event.approval->changes;
    lemma_change_members_keyed_once(changes.entries());
    lemma_keyed_iff_key(f, "command"@);
    reveal_strlit("command");
    reveal_strlit("client");
    reveal_strlit("type");
    reveal_strlit("thread-id");
    reveal_strlit("turn-id");
    reveal_strlit("cwd");
    reveal_strlit("input-messages");
    reveal_strlit("last-assistant-message");
    reveal_strlit("call-id");
    reveal_strlit("reason");
    reveal_strlit("changes");
    reveal_strlit("grant-root");
    assert forall|i: int| 0 <= i < keys_of(f).len() implies keys_of(f)[i] != "command"@ by {
        assert(keys_of(f)[i] == f[i].0);
        assert(f[i].0 == "type"@ || f[i].0 == "thread-id"@ || f[i].0 == "turn-id"@ || f[i].0 == "cwd"@
            || f[i].0 == "client"@ || f[i].0 == "input-messages"@ || f[i].0 == "last-assistant-message"@
            || f[i].0 == "call-id"@ || f[i].0 == "reason"@ || f[i].0 == "changes"@ || f[i].0 == "grant-root"@);
        assert("command"@ != "changes"@) by {
            assert("command"@[1] != "changes"@[1]);
        }
        assert("command"@ != "call-id"@) by {
            assert("command"@[1] != "call-id"@[1]);
        }
        assert("command"@ != "turn-id"@) by {
            assert("command"@[0] != "turn-id"@[0]);
        }
    }
    let h: int = if client is Some { 5 } else { 4 };
    assert(m[h + 2] == member_text("call-id"@, json_string_literal(event.call_id@)));
    assert(m[h + 3] == member_text("reason"@, opt_string_text(event.reason)));
    assert(m[h + 4] == member_text("changes"@, changes.json_text()));
    assert(m[h + 5] == member_text("grant-root"@, opt_string_text(event.approval->grant_root)));
}

/// The notifier starts the configured program whenever a non-empty command
/// is configured: its first word is the program, its remaining words and then
/// the notification's JSON are the arguments. Without a command, or with an
/// empty one, it starts nothing.
pub proof fn lemma_notifier_starts_configured_program(
    command: Option<Vec<String>>,
    n: notifier::UserNotification,
)
    ensures
        command is Some && command->Some_0@.len() > 0 ==> notifier::notifier_command(command, n)
            == Some(
            (
                command->Some_0@[0]@,
                string_views(command->Some_0@.skip(1)).push(n.json_text()),
            ),
        ),
        notifier::notifier_command(command, n) is None <==> (command is None || command->Some_0@.len()
            == 0),
{
}

/// An argv whose first word is not empty names that word as the program and
/// its remaining words as the arguments.
pub proof fn lemma_argv_names_program(argv: Seq<String>)
    ensures
        argv.len() > 0 && argv[0]@.len() > 0 ==> argv_command(argv) == Some(
            (argv[0]@, string_views(argv.skip(1))),
        ),
        argv_command(argv) is None <==> (argv.len() == 0 || argv[0]@.len() == 0),
{
}

/// A legacy payload carries every field of its event as a member: the
/// messages, the call, the reason, what an approval asks for, the questions,
/// the server, the request and its message.
pub proof fn lemma_payload_carries_event(payload: HookPayload)
    ensures
        ({
            let m = legacy_members(legacy_notification(payload)->Some_0);
            match payload.hook_event {
                HookEvent::AfterAgent { event } => {
                    &&& m.contains(member_text("input-messages"@, string_array_text(event.input_messages@)))
                    &&& m.contains(
                        member_text("last-assistant-message"@, opt_string_text(event.last_assistant_message)),
                    )
                },
                HookEvent::AfterApprovalRequested { event } => {
                    &&& m.contains(member_text("input-messages"@, string_array_text(event.input_messages@)))
                    &&& m.contains(
                        member_text("last-assistant-message"@, opt_string_text(event.last_assistant_message)),
                    )
                    &&& m.contains(member_text("call-id"@, json_string_literal(event.call_id@)))
                    &&& m.contains(member_text("reason"@, opt_string_text(event.reason)))
                    &&& match event.approval {
                        HookApprovalRequest::Exec {
                            command,
                            proposed_execpolicy_amendment,
                            proposed_network_policy_amendments,
                            additional_permissions,
                            parsed_cmd,
                            network_approval_context,
                        } => {
                            &&& m.contains(member_text("command"@, string_array_text(command@)))
                            &&& m.contains(
                                member_text(
                                    "proposed-execpolicy-amendment"@,
                                    opt_text(proposed_execpolicy_amendment),
                                ),
                            )
                            &&& m.contains(
                                member_text(
                                    "proposed-network-policy-amendments"@,
                                    opt_list_text(proposed_network_policy_amendments),
                                ),
                            )
                            &&& m.contains(
                                member_text("additional-permissions"@, opt_text(additional_permissions)),
                            )
                            &&& m.contains(member_text("parsed-cmd"@, list_text(parsed_cmd@)))
                            &&& m.contains(
                                member_text("network-approval-context"@, opt_text(network_approval_context)),
                            )
                        },
                        HookApprovalRequest::ApplyPatch { changes, grant_root } => {
                            &&& m.contains(member_text("changes"@, changes.json_text()))
                            &&& m.contains(member_text("grant-root"@, opt_string_text(grant_root)))
                        },
                    }
                },
                HookEvent::AfterInputRequested { event } => {
                    &&& m.contains(member_text("call-id"@, json_string_literal(event.call_id@)))
                    &&& m.contains(member_text("input-messages"@, string_array_text(event.input_messages@)))
                    &&& m.contains(
                        member_text("last-assistant-message"@, opt_string_text(event.last_assistant_message)),
                    )
                    &&& m.contains(member_text("questions"@, list_text(event.questions@)))
                },
                HookEvent::AfterElicitationRequested { event } => {
                    &&& m.contains(member_text("server-name"@, json_string_literal(event.server_name@)))
                    &&& m.contains(member_text("request-id"@, event.request_id.json_text()))
                    &&& m.contains(member_text("message"@, json_string_literal(event.message@)))
                },
                HookEvent::AfterToolUse { .. } => true,
            }
        }),
{
    let m = legacy_members(legacy_notification(payload)->Some_0);
    let h: int = if payload.client is Some { 5 } else { 4 };
    match payload.hook_event {
        HookEvent::AfterAgent { event } => {
            assert(m[h] == member_text("input-messages"@, string_array_text(event.input_messages@)));
            assert(m[h + 1] == member_text(
                "last-assistant-message"@,
                opt_string_text(event.last_assistant_message),
            ));
        },
        HookEvent::AfterApprovalRequested { event } => {
            assert(m[h] == member_text("input-messages"@, string_array_text(event.input_messages@)));
            assert(m[h + 1] == member_text(
                "last-assistant-message"@,
                opt_string_text(event.last_assistant_message),
            ));
            assert(m[h + 2] == member_text("call-id"@, json_string_literal(event.call_id@)));
            assert(m[h + 3] == member_text("reason"@, opt_string_text(event.reason)));
            match event.approval {
                HookApprovalRequest::Exec {
                    command,
                    proposed_execpolicy_amendment,
                    proposed_network_policy_amendments,
                    additional_permissions,
                    parsed_cmd,
                    network_approval_context,
                } => {
                    assert(m[h + 4] == member_text("command"@, string_array_text(command@)));
                    assert(m[h + 5] == member_text(
                        "proposed-execpolicy-amendment"@,
                        opt_text(proposed_execpolicy_amendment),
                    ));
                    assert(m[h + 6] == member_text(
                        "proposed-network-policy-amendments"@,
                        opt_list_text(proposed_network_policy_amendments),
                    ));
                    assert(m[h + 7] == member_text(
                        "additional-permissions"@,
                        opt_text(additional_permissions),
                    ));
                    assert(m[h + 8] == member_text("parsed-cmd"@, list_text(parsed_cmd@)));
                    assert(m[h + 9] == member_text(
                        "network-approval-context"@,
                        opt_text(network_approval_context),
                    ));
                },
                HookApprovalRequest::ApplyPatch { changes, grant_root } => {
                    assert(m[h + 4] == member_text("changes"@, changes.json_text()));
                    assert(m[h + 5] == member_text("grant-root"@, opt_string_text(grant_root)));
                },
            }
        },
        HookEvent::AfterInputRequested { event } => {
            assert(m[h] == member_text("call-id"@, json_string_literal(event.call_id@)));
            assert(m[h + 1] == member_text("input-messages"@, string_array_text(event.input_messages@)));
            assert(m[h + 2] == member_text(
                "last-assistant-message"@,
                opt_string_text(event.last_assistant_message),
            ));
            assert(m[h + 3] == member_text("questions"@, list_text(event.questions@)));
        },
        HookEvent::AfterElicitationRequested { event } => {
            assert(m[h] == member_text("server-name"@, json_string_literal(event.server_name@)));
            assert(m[h + 1] == member_text("request-id"@, event.request_id.json_text()));
            assert(m[h + 2] == member_text("message"@, json_string_literal(event.message@)));
        },
        HookEvent::AfterToolUse { .. } => {},
    }
}

/// The context of an approval request, whichever its kind.
pub open spec fn approval_context(a: notifier::ApprovalNotification) -> notifier::ApprovalContext {
    match a {
        notifier::ApprovalNotification::Exec { context, .. } => context,
        notifier::ApprovalNotification::ApplyPatch { context, .. } => context,
    }
}

/// An approval notification of either kind starts with its tags and then
/// carries every field of its context, followed by what the approval asks for.
pub proof fn lemma_approval_carries_context(approval: notifier::ApprovalNotification)
    ensures
        ({
            let m = notifier::notification_members(
                notifier::UserNotification::ApprovalRequested { approval },
            );
            let c = approval_context(approval);
            &&& m[0] == member_text("type"@, json_string_literal("approval-requested"@))
            &&& m[2] == member_text("thread-id"@, json_string_literal(c.thread_id@))
            &&& m[3] == member_text("turn-id"@, json_string_literal(c.turn_id@))
            &&& m[4] == member_text("cwd"@, json_string_literal(c.cwd@))
            &&& m[5] == member_text("input-messages"@, string_array_text(c.input_messages@))
            &&& m[6] == member_text(
                "last-assistant-message"@,
                opt_string_text(c.last_assistant_message),
            )
            &&& m[7] == member_text("call-id"@, json_string_literal(c.call_id@))
            &&& m[8] == member_text("reason"@, opt_string_text(c.reason))
            &&& match approval {
                notifier::ApprovalNotification::Exec {
                    command,
                    proposed_execpolicy_amendment,
                    parsed_cmd,
                    ..
                } => {
                    &&& m[1] == member_text("approval-kind"@, json_string_literal("exec"@))
                    &&& m[9] == member_text("command"@, string_array_text(command@))
                    &&& m[10] == member_text(
                        "proposed-execpolicy-amendment"@,
                        opt_text(proposed_execpolicy_amendment),
                    )
                    &&& m[11] == member_text("parsed-cmd"@, list_text(parsed_cmd@))
                    &&& m.len() == 12
                },
                notifier::ApprovalNotification::ApplyPatch { changes, grant_root, .. } => {
                    &&& m[1] == member_text("approval-kind"@, json_string_literal("apply-patch"@))
                    &&& m[9] == member_text("changes"@, changes.json_text())
                    &&& m[10] == member_text("grant-root"@, opt_string_text(grant_root))
                    &&& m.len() == 11
                },
            }
        }),
{
}

} // verus!
