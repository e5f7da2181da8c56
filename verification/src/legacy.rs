//! The legacy notify payload: the JSON object appended as the last argument
//! of the user's notify program, and the names of the events it is sent for.
use vstd::prelude::*;

use crate::changes::ChangeSet;
use crate::event::{HookApprovalRequest, HookEvent, HookPayload};
use crate::json::{
    json_string_literal, list, list_text, members_of, object_text, opt_list_text,
    opt_string_text, opt_text, optional, optional_list, optional_string, quote, string_array,
    string_array_text, JsonEncode, JsonObject,
};
use crate::protocol::{
    ExecPolicyAmendment, NetworkApprovalContext, NetworkPolicyAmendment, ParsedCommand,
    PermissionProfile, RequestId, RequestUserInputQuestion,
};

verus! {

pub const AGENT_TURN_COMPLETE_EVENT: &'static str = "agent-turn-complete";

pub const EXEC_APPROVAL_REQUESTED_EVENT: &'static str = "exec-approval-requested";

pub const APPLY_PATCH_APPROVAL_REQUESTED_EVENT: &'static str = "apply-patch-approval-requested";

pub const INPUT_REQUESTED_EVENT: &'static str = "input-requested";

pub const ELICITATION_REQUESTED_EVENT: &'static str = "elicitation-requested";

/// The events a notify hook is enabled for when none are configured: only
/// the end of an agent turn.
pub fn default_notify_events() -> (r: Vec<String>)
    ensures
        r@.len() == 1,
        r@[0]@ == AGENT_TURN_COMPLETE_EVENT@,
{
    let mut v: Vec<String> = Vec::new();
    v.push(String::from_str(AGENT_TURN_COMPLETE_EVENT));
    v
}

/// The notify name of an event; the end of a tool call has none.
pub open spec fn event_name(e: HookEvent) -> Option<Seq<char>> {
    match e {
        HookEvent::AfterAgent { .. } => Some(AGENT_TURN_COMPLETE_EVENT@),
        HookEvent::AfterApprovalRequested { event } => match event.approval {
            HookApprovalRequest::Exec { .. } => Some(EXEC_APPROVAL_REQUESTED_EVENT@),
            HookApprovalRequest::ApplyPatch { .. } => Some(APPLY_PATCH_APPROVAL_REQUESTED_EVENT@),
        },
        HookEvent::AfterInputRequested { .. } => Some(INPUT_REQUESTED_EVENT@),
        HookEvent::AfterElicitationRequested { .. } => Some(ELICITATION_REQUESTED_EVENT@),
        HookEvent::AfterToolUse { .. } => None,
    }
}

/// The notify name of an event.
pub fn notify_event_name(hook_event: &HookEvent) -> (r: Option<&'static str>)
    ensures
        match r {
            Some(n) => event_name(*hook_event) == Some(n@),
            None => event_name(*hook_event) is None,
        },
{
    match hook_event {
        HookEvent::AfterAgent { .. } => Some(AGENT_TURN_COMPLETE_EVENT),
        HookEvent::AfterApprovalRequested { event } => match &event.approval {
            HookApprovalRequest::Exec { .. } => Some(EXEC_APPROVAL_REQUESTED_EVENT),
            HookApprovalRequest::ApplyPatch { .. } => Some(APPLY_PATCH_APPROVAL_REQUESTED_EVENT),
        },
        HookEvent::AfterInputRequested { .. } => Some(INPUT_REQUESTED_EVENT),
        HookEvent::AfterElicitationRequested { .. } => Some(ELICITATION_REQUESTED_EVENT),
        HookEvent::AfterToolUse { .. } => None,
    }
}

#[allow(inconsistent_fields)]
/// The legacy notification, tagged by `"type"`, its fields written in kebab case.
pub enum UserNotification {
    AgentTurnComplete {
        thread_id: String,
        turn_id: String,
        cwd: String,
        /// Left out of the JSON when absent.
        client: Option<String>,
        /// Messages that the user sent to the agent to initiate the turn.
        input_messages: Vec<String>,
        /// The last message sent by the assistant in the turn.
        last_assistant_message: Option<String>,
    },
    ExecApprovalRequested {
        thread_id: String,
        turn_id: String,
        cwd: String,
        client: Option<String>,
        input_messages: Vec<String>,
        last_assistant_message: Option<String>,
        call_id: String,
        reason: Option<String>,
        command: Vec<String>,
        proposed_execpolicy_amendment: Option<ExecPolicyAmendment>,
        proposed_network_policy_amendments: Option<Vec<NetworkPolicyAmendment>>,
        additional_permissions: Option<PermissionProfile>,
        parsed_cmd: Vec<ParsedCommand>,
        network_approval_context: Option<NetworkApprovalContext>,
    },
    ApplyPatchApprovalRequested {
        thread_id: String,
        turn_id: String,
        cwd: String,
        client: Option<String>,
        input_messages: Vec<String>,
        last_assistant_message: Option<String>,
        call_id: String,
        reason: Option<String>,
        changes: ChangeSet,
        grant_root: Option<String>,
    },
    InputRequested {
        thread_id: String,
        turn_id: String,
        cwd: String,
        client: Option<String>,
        call_id: String,
        input_messages: Vec<String>,
        last_assistant_message: Option<String>,
        questions: Vec<RequestUserInputQuestion>,
    },
    ElicitationRequested {
        thread_id: String,
        turn_id: Option<String>,
        cwd: String,
        client: Option<String>,
        server_name: String,
        request_id: RequestId,
        message: String,
    },
}

/// The fields every legacy notification starts with: the type tag, the
/// thread, the turn, the working directory, and the client when present.
pub open spec fn head_fields(
    tag: Seq<char>,
    thread_id: Seq<char>,
    turn_text: Seq<char>,
    cwd: Seq<char>,
    client: Option<String>,
) -> Seq<(Seq<char>, Seq<char>)> {
    let head = Seq::empty().push(("type"@, json_string_literal(tag))).push(
        ("thread-id"@, json_string_literal(thread_id)),
    ).push(("turn-id"@, turn_text)).push(("cwd"@, json_string_literal(cwd)));
    match client {
        Some(c) => head.push(("client"@, json_string_literal(c@))),
        None => head,
    }
}

/// The fields of an agent-turn-complete notification.
pub open spec fn agent_turn_complete_fields(
    thread_id: String,
    turn_id: String,
    cwd: String,
    client: Option<String>,
    input_messages: Seq<String>,
    last_assistant_message: Option<String>,
) -> Seq<(Seq<char>, Seq<char>)> {
    head_fields(
        AGENT_TURN_COMPLETE_EVENT@,
        thread_id@,
        json_string_literal(turn_id@),
        cwd@,
        client,
    ).push(("input-messages"@, string_array_text(input_messages))).push(
        ("last-assistant-message"@, opt_string_text(last_assistant_message)),
    )
}

/// The fields of an exec-approval notification.
pub open spec fn exec_approval_fields(
    thread_id: String,
    turn_id: String,
    cwd: String,
    client: Option<String>,
    input_messages: Seq<String>,
    last_assistant_message: Option<String>,
    call_id: String,
    reason: Option<String>,
    command: Seq<String>,
    proposed_execpolicy_amendment: Option<ExecPolicyAmendment>,
    proposed_network_policy_amendments: Option<Vec<NetworkPolicyAmendment>>,
    additional_permissions: Option<PermissionProfile>,
    parsed_cmd: Seq<ParsedCommand>,
    network_approval_context: Option<NetworkApprovalContext>,
) -> Seq<(Seq<char>, Seq<char>)> {
    head_fields(
        EXEC_APPROVAL_REQUESTED_EVENT@,
        thread_id@,
        json_string_literal(turn_id@),
        cwd@,
        client,
    ).push(("input-messages"@, string_array_text(input_messages))).push(
        ("last-assistant-message"@, opt_string_text(last_assistant_message)),
    ).push(("call-id"@, json_string_literal(call_id@))).push(
        ("reason"@, opt_string_text(reason)),
    ).push(("command"@, string_array_text(command))).push(
        ("proposed-execpolicy-amendment"@, opt_text(proposed_execpolicy_amendment)),
    ).push(
        (
            "proposed-network-policy-amendments"@,
            opt_list_text(proposed_network_policy_amendments),
        ),
    ).push(("additional-permissions"@, opt_text(additional_permissions))).push(
        ("parsed-cmd"@, list_text(parsed_cmd)),
    ).push(("network-approval-context"@, opt_text(network_approval_context)))
}

/// The fields of an apply-patch-approval notification.
pub open spec fn apply_patch_approval_fields(
    thread_id: String,
    turn_id: String,
    cwd: String,
    client: Option<String>,
    input_messages: Seq<String>,
    last_assistant_message: Option<String>,
    call_id: String,
    reason: Option<String>,
    changes: ChangeSet,
    grant_root: Option<String>,
) -> Seq<(Seq<char>, Seq<char>)> {
    head_fields(
        APPLY_PATCH_APPROVAL_REQUESTED_EVENT@,
        thread_id@,
        json_string_literal(turn_id@),
        cwd@,
        client,
    ).push(("input-messages"@, string_array_text(input_messages))).push(
        ("last-assistant-message"@, opt_string_text(last_assistant_message)),
    ).push(("call-id"@, json_string_literal(call_id@))).push(
        ("reason"@, opt_string_text(reason)),
    ).push(("changes"@, changes.json_text())).push(
        ("grant-root"@, opt_string_text(grant_root)),
    )
}

/// The fields of an input-requested notification.
pub open spec fn input_requested_fields(
    thread_id: String,
    turn_id: String,
    cwd: String,
    client: Option<String>,
    call_id: String,
    input_messages: Seq<String>,
    last_assistant_message: Option<String>,
    questions: Seq<RequestUserInputQuestion>,
) -> Seq<(Seq<char>, Seq<char>)> {
    head_fields(
        INPUT_REQUESTED_EVENT@,
        thread_id@,
        json_string_literal(turn_id@),
        cwd@,
        client,
    ).push(("call-id"@, json_string_literal(call_id@))).push(
        ("input-messages"@, string_array_text(input_messages)),
    ).push(("last-assistant-message"@, opt_string_text(last_assistant_message))).push(
        ("questions"@, list_text(questions)),
    )
}

/// The fields of an elicitation-requested notification.
pub open spec fn elicitation_requested_fields(
    thread_id: String,
    turn_id: Option<String>,
    cwd: String,
    client: Option<String>,
    server_name: String,
    request_id: RequestId,
    message: String,
) -> Seq<(Seq<char>, Seq<char>)> {
    head_fields(
        ELICITATION_REQUESTED_EVENT@,
        thread_id@,
        opt_string_text(turn_id),
        cwd@,
        client,
    ).push(("server-name"@, json_string_literal(server_name@))).push(
        ("request-id"@, request_id.json_text()),
    ).push(("message"@, json_string_literal(message@)))
}

/// Adds the members every notification starts with.
fn add_head(
    o: &mut JsonObject,
    tag: &str,
    thread_id: &String,
    turn_text: String,
    cwd: &String,
    client: &Option<String>,
)
    ensures
        final(o)@ == old(o)@ + members_of(head_fields(tag@, thread_id@, turn_text@, cwd@, *client)),
{
    o.add("type", quote(tag));
    o.add("thread-id", quote(thread_id.as_str()));
    o.add("turn-id", turn_text);
    o.add("cwd", quote(cwd.as_str()));
    match client {
        Some(c) => o.add("client", quote(c.as_str())),
        None => {},
    }
    proof {
        assert(o@ =~= old(o)@ + members_of(head_fields(tag@, thread_id@, turn_text@, cwd@, *client)));
    }
}

/// Writes an agent-turn-complete notification.
fn agent_turn_complete_json(
    thread_id: &String,
    turn_id: &String,
    cwd: &String,
    client: &Option<String>,
    input_messages: &Vec<String>,
    last_assistant_message: &Option<String>,
) -> (r: String)
    ensures
        r@ == object_text(
            members_of(agent_turn_complete_fields(
                *thread_id,
                *turn_id,
                *cwd,
                *client,
                input_messages@,
                *last_assistant_message,
            )),
        ),
{
    let mut o = JsonObject::new();
    add_head(&mut o, AGENT_TURN_COMPLETE_EVENT, thread_id, quote(turn_id.as_str()), cwd, client);
    o.add("input-messages", string_array(input_messages));
    o.add("last-assistant-message", optional_string(last_assistant_message));
    proof {
        assert(o@ =~= members_of(agent_turn_complete_fields(
            *thread_id,
            *turn_id,
            *cwd,
            *client,
            input_messages@,
            *last_assistant_message,
        )));
    }
    o.finish()
}

/// Writes an exec-approval notification.
fn exec_approval_json(
    thread_id: &String,
    turn_id: &String,
    cwd: &String,
    client: &Option<String>,
    input_messages: &Vec<String>,
    last_assistant_message: &Option<String>,
    call_id: &String,
    reason: &Option<String>,
    command: &Vec<String>,
    proposed_execpolicy_amendment: &Option<ExecPolicyAmendment>,
    proposed_network_policy_amendments: &Option<Vec<NetworkPolicyAmendment>>,
    additional_permissions: &Option<PermissionProfile>,
    parsed_cmd: &Vec<ParsedCommand>,
    network_approval_context: &Option<NetworkApprovalContext>,
) -> (r: String)
    ensures
        r@ == object_text(
            members_of(exec_approval_fields(
                *thread_id,
                *turn_id,
                *cwd,
                *client,
                input_messages@,
                *last_assistant_message,
                *call_id,
                *reason,
                command@,
                *proposed_execpolicy_amendment,
                *proposed_network_policy_amendments,
                *additional_permissions,
                parsed_cmd@,
                *network_approval_context,
            )),
        ),
{
    let mut o = JsonObject::new();
    add_head(
        &mut o,
        EXEC_APPROVAL_REQUESTED_EVENT,
        thread_id,
        quote(turn_id.as_str()),
        cwd,
        client,
    );
    o.add("input-messages", string_array(input_messages));
    o.add("last-assistant-message", optional_string(last_assistant_message));
    o.add("call-id", quote(call_id.as_str()));
    o.add("reason", optional_string(reason));
    o.add("command", string_array(command));
    o.add("proposed-execpolicy-amendment", optional(proposed_execpolicy_amendment));
    o.add("proposed-network-policy-amendments", optional_list(proposed_network_policy_amendments));
    o.add("additional-permissions", optional(additional_permissions));
    o.add("parsed-cmd", list(parsed_cmd));
    o.add("network-approval-context", optional(network_approval_context));
    proof {
        assert(o@ =~= members_of(exec_approval_fields(
            *thread_id,
            *turn_id,
            *cwd,
            *client,
            input_messages@,
            *last_assistant_message,
            *call_id,
            *reason,
            command@,
            *proposed_execpolicy_amendment,
            *proposed_network_policy_amendments,
            *additional_permissions,
            parsed_cmd@,
            *network_approval_context,
        )));
    }
    o.finish()
}

/// Writes an apply-patch-approval notification.
fn apply_patch_approval_json(
    thread_id: &String,
    turn_id: &String,
    cwd: &String,
    client: &Option<String>,
    input_messages: &Vec<String>,
    last_assistant_message: &Option<String>,
    call_id: &String,
    reason: &Option<String>,
    changes: &ChangeSet,
    grant_root: &Option<String>,
) -> (r: String)
    ensures
        r@ == object_text(
            members_of(apply_patch_approval_fields(
                *thread_id,
                *turn_id,
                *cwd,
                *client,
                input_messages@,
                *last_assistant_message,
                *call_id,
                *reason,
                *changes,
                *grant_root,
            )),
        ),
{
    let mut o = JsonObject::new();
    add_head(
        &mut o,
        APPLY_PATCH_APPROVAL_REQUESTED_EVENT,
        thread_id,
        quote(turn_id.as_str()),
        cwd,
        client,
    );
    o.add("input-messages", string_array(input_messages));
    o.add("last-assistant-message", optional_string(last_assistant_message));
    o.add("call-id", quote(call_id.as_str()));
    o.add("reason", optional_string(reason));
    o.add("changes", changes.to_json());
    o.add("grant-root", optional_string(grant_root));
    proof {
        assert(o@ =~= members_of(apply_patch_approval_fields(
            *thread_id,
            *turn_id,
            *cwd,
            *client,
            input_messages@,
            *last_assistant_message,
            *call_id,
            *reason,
            *changes,
            *grant_root,
        )));
    }
    o.finish()
}

/// Writes an input-requested notification.
fn input_requested_json(
    thread_id: &String,
    turn_id: &String,
    cwd: &String,
    client: &Option<String>,
    call_id: &String,
    input_messages: &Vec<String>,
    last_assistant_message: &Option<String>,
    questions: &Vec<RequestUserInputQuestion>,
) -> (r: String)
    ensures
        r@ == object_text(
            members_of(input_requested_fields(
                *thread_id,
                *turn_id,
                *cwd,
                *client,
                *call_id,
                input_messages@,
                *last_assistant_message,
                questions@,
            )),
        ),
{
    let mut o = JsonObject::new();
    add_head(&mut o, INPUT_REQUESTED_EVENT, thread_id, quote(turn_id.as_str()), cwd, client);
    o.add("call-id", quote(call_id.as_str()));
    o.add("input-messages", string_array(input_messages));
    o.add("last-assistant-message", optional_string(last_assistant_message));
    o.add("questions", list(questions));
    proof {
        assert(o@ =~= members_of(input_requested_fields(
            *thread_id,
            *turn_id,
            *cwd,
            *client,
            *call_id,
            input_messages@,
            *last_assistant_message,
            questions@,
        )));
    }
    o.finish()
}

/// Writes an elicitation-requested notification.
fn elicitation_requested_json(
    thread_id: &String,
    turn_id: &Option<String>,
    cwd: &String,
    client: &Option<String>,
    server_name: &String,
    request_id: &RequestId,
    message: &String,
) -> (r: String)
    ensures
        r@ == object_text(
            members_of(elicitation_requested_fields(
                *thread_id,
                *turn_id,
                *cwd,
                *client,
                *server_name,
                *request_id,
                *message,
            )),
        ),
{
    let mut o = JsonObject::new();
    add_head(
        &mut o,
        ELICITATION_REQUESTED_EVENT,
        thread_id,
        optional_string(turn_id),
        cwd,
        client,
    );
    o.add("server-name", quote(server_name.as_str()));
    o.add("request-id", request_id.to_json());
    o.add("message", quote(message.as_str()));
    proof {
        assert(o@ =~= members_of(elicitation_requested_fields(
            *thread_id,
            *turn_id,
            *cwd,
            *client,
            *server_name,
            *request_id,
            *message,
        )));
    }
    o.finish()
}

/// The keys and value texts of a legacy notification, in the order they are written.
pub open spec fn legacy_fields(n: UserNotification) -> Seq<(Seq<char>, Seq<char>)> {
    match n {
        UserNotification::AgentTurnComplete {
            thread_id,
            turn_id,
            cwd,
            client,
            input_messages,
            last_assistant_message,
        } => agent_turn_complete_fields(
            thread_id,
            turn_id,
            cwd,
            client,
            input_messages@,
            last_assistant_message,
        ),
        UserNotification::ExecApprovalRequested {
            thread_id,
            turn_id,
            cwd,
            client,
            input_messages,
            last_assistant_message,
            call_id,
            reason,
            command,
            proposed_execpolicy_amendment,
            proposed_network_policy_amendments,
            additional_permissions,
            parsed_cmd,
            network_approval_context,
        } => exec_approval_fields(
            thread_id,
            turn_id,
            cwd,
            client,
            input_messages@,
            last_assistant_message,
            call_id,
            reason,
            command@,
            proposed_execpolicy_amendment,
            proposed_network_policy_amendments,
            additional_permissions,
            parsed_cmd@,
            network_approval_context,
        ),
        UserNotification::ApplyPatchApprovalRequested {
            thread_id,
            turn_id,
            cwd,
            client,
            input_messages,
            last_assistant_message,
            call_id,
            reason,
            changes,
            grant_root,
        } => apply_patch_approval_fields(
            thread_id,
            turn_id,
            cwd,
            client,
            input_messages@,
            last_assistant_message,
            call_id,
            reason,
            changes,
            grant_root,
        ),
        UserNotification::InputRequested {
            thread_id,
            turn_id,
            cwd,
            client,
            call_id,
            input_messages,
            last_assistant_message,
            questions,
        } => input_requested_fields(
            thread_id,
            turn_id,
            cwd,
            client,
            call_id,
            input_messages@,
            last_assistant_message,
            questions@,
        ),
        UserNotification::ElicitationRequested {
            thread_id,
            turn_id,
            cwd,
            client,
            server_name,
            request_id,
            message,
        } => elicitation_requested_fields(
            thread_id,
            turn_id,
            cwd,
            client,
            server_name,
            request_id,
            message,
        ),
    }
}

/// The members of a legacy notification, in the order they are written.
pub open spec fn legacy_members(n: UserNotification) -> Seq<Seq<char>> {
    members_of(legacy_fields(n))
}

impl JsonEncode for UserNotification {
    open spec fn json_text(&self) -> Seq<char> {
        object_text(legacy_members(*self))
    }

    fn to_json(&self) -> (r: String) {
        match self {
            UserNotification::AgentTurnComplete {
                thread_id,
                turn_id,
                cwd,
                client,
                input_messages,
                last_assistant_message,
            } => agent_turn_complete_json(
                thread_id,
                turn_id,
                cwd,
                client,
                input_messages,
                last_assistant_message,
            ),
            UserNotification::ExecApprovalRequested {
                thread_id,
                turn_id,
                cwd,
                client,
                input_messages,
                last_assistant_message,
                call_id,
                reason,
                command,
                proposed_execpolicy_amendment,
                proposed_network_policy_amendments,
                additional_permissions,
                parsed_cmd,
                network_approval_context,
            } => exec_approval_json(
                thread_id,
                turn_id,
                cwd,
                client,
                input_messages,
                last_assistant_message,
                call_id,
                reason,
                command,
                proposed_execpolicy_amendment,
                proposed_network_policy_amendments,
                additional_permissions,
                parsed_cmd,
                network_approval_context,
            ),
            UserNotification::ApplyPatchApprovalRequested {
                thread_id,
                turn_id,
                cwd,
                client,
                input_messages,
                last_assistant_message,
                call_id,
                reason,
                changes,
                grant_root,
            } => apply_patch_approval_json(
                thread_id,
                turn_id,
                cwd,
                client,
                input_messages,
                last_assistant_message,
                call_id,
                reason,
                changes,
                grant_root,
            ),
            UserNotification::InputRequested {
                thread_id,
                turn_id,
                cwd,
                client,
                call_id,
                input_messages,
                last_assistant_message,
                questions,
            } => input_requested_json(
                thread_id,
                turn_id,
                cwd,
                client,
                call_id,
                input_messages,
                last_assistant_message,
                questions,
            ),
            UserNotification::ElicitationRequested {
                thread_id,
                turn_id,
                cwd,
                client,
                server_name,
                request_id,
                message,
            } => elicitation_requested_json(
                thread_id,
                turn_id,
                cwd,
                client,
                server_name,
                request_id,
                message,
            ),
        }
    }
}

/// The legacy notification for a payload; the end of a tool call has none.
pub open spec fn legacy_notification(payload: HookPayload) -> Option<UserNotification> {
    match payload.hook_event {
        HookEvent::AfterAgent { event } => Some(
            UserNotification::AgentTurnComplete {
                thread_id: event.thread_id,
                turn_id: event.turn_id,
                cwd: payload.cwd,
                client: payload.client,
                input_messages: event.input_messages,
                last_assistant_message: event.last_assistant_message,
            },
        ),
        HookEvent::AfterApprovalRequested { event } => match event.approval {
            HookApprovalRequest::Exec {
                command,
                proposed_execpolicy_amendment,
                proposed_network_policy_amendments,
                additional_permissions,
                parsed_cmd,
                network_approval_context,
            } => Some(
                UserNotification::ExecApprovalRequested {
                    thread_id: event.thread_id,
                    turn_id: event.turn_id,
                    cwd: payload.cwd,
                    client: payload.client,
                    input_messages: event.input_messages,
                    last_assistant_message: event.last_assistant_message,
                    call_id: event.call_id,
                    reason: event.reason,
                    command,
                    proposed_execpolicy_amendment,
                    proposed_network_policy_amendments,
                    additional_permissions,
                    parsed_cmd,
                    network_approval_context,
                },
            ),
            HookApprovalRequest::ApplyPatch { changes, grant_root } => Some(
                UserNotification::ApplyPatchApprovalRequested {
                    thread_id: event.thread_id,
                    turn_id: event.turn_id,
                    cwd: payload.cwd,
                    client: payload.client,
                    input_messages: event.input_messages,
                    last_assistant_message: event.last_assistant_message,
                    call_id: event.call_id,
                    reason: event.reason,
                    changes,
                    grant_root,
                },
            ),
        },
        HookEvent::AfterInputRequested { event } => Some(
            UserNotification::InputRequested {
                thread_id: event.thread_id,
                turn_id: event.turn_id,
                cwd: payload.cwd,
                client: payload.client,
                call_id: event.call_id,
                input_messages: event.input_messages,
                last_assistant_message: event.last_assistant_message,
                questions: event.questions,
            },
        ),
        HookEvent::AfterElicitationRequested { event } => Some(
            UserNotification::ElicitationRequested {
                thread_id: event.thread_id,
                turn_id: event.turn_id,
                cwd: payload.cwd,
                client: payload.client,
                server_name: event.server_name,
                request_id: event.request_id,
                message: event.message,
            },
        ),
        HookEvent::AfterToolUse { .. } => None,
    }
}

/// Why no legacy payload could be written.
pub enum LegacyNotifyError {
    /// The end of a tool call has no legacy payload.
    UnsupportedEvent,
}

impl LegacyNotifyError {
    /// The message of the error.
    pub fn message(&self) -> (r: String)
        ensures
            r@ == "legacy notify payload is not supported for after_tool_use"@,
    {
        String::from_str("legacy notify payload is not supported for after_tool_use")
    }
}

/// The legacy JSON payload of a hook payload: the text of its legacy
/// notification, or an error for the end of a tool call.
pub fn legacy_notify_json(payload: &HookPayload) -> (r: Result<String, LegacyNotifyError>)
    ensures
        match legacy_notification(*payload) {
            Some(n) => r matches Ok(s) && s@ == n.json_text(),
            None => r is Err,
        },
{
    match &payload.hook_event {
        HookEvent::AfterAgent { event } => Ok(
            agent_turn_complete_json(
                &event.thread_id,
                &event.turn_id,
                &payload.cwd,
                &payload.client,
                &event.input_messages,
                &event.last_assistant_message,
            ),
        ),
        HookEvent::AfterApprovalRequested { event } => match &event.approval {
            HookApprovalRequest::Exec {
                command,
                proposed_execpolicy_amendment,
                proposed_network_policy_amendments,
                additional_permissions,
                parsed_cmd,
                network_approval_context,
            } => Ok(
                exec_approval_json(
                    &event.thread_id,
                    &event.turn_id,
                    &payload.cwd,
                    &payload.client,
                    &event.input_messages,
                    &event.last_assistant_message,
                    &event.call_id,
                    &event.reason,
                    command,
                    proposed_execpolicy_amendment,
                    proposed_network_policy_amendments,
                    additional_permissions,
                    parsed_cmd,
                    network_approval_context,
                ),
            ),
            HookApprovalRequest::ApplyPatch { changes, grant_root } => Ok(
                apply_patch_approval_json(
                    &event.thread_id,
                    &event.turn_id,
                    &payload.cwd,
                    &payload.client,
                    &event.input_messages,
                    &event.last_assistant_message,
                    &event.call_id,
                    &event.reason,
                    changes,
                    grant_root,
                ),
            ),
        },
        HookEvent::AfterInputRequested { event } => Ok(
            input_requested_json(
                &event.thread_id,
                &event.turn_id,
                &payload.cwd,
                &payload.client,
                &event.call_id,
                &event.input_messages,
                &event.last_assistant_message,
                &event.questions,
            ),
        ),
        HookEvent::AfterElicitationRequested { event } => Ok(
            elicitation_requested_json(
                &event.thread_id,
                &event.turn_id,
                &payload.cwd,
                &payload.client,
                &event.server_name,
                &event.request_id,
                &event.message,
            ),
        ),
        HookEvent::AfterToolUse { .. } => Err(LegacyNotifyError::UnsupportedEvent),
    }
}

} // verus!
