//! The payload handed to hooks: the session's working directory, the client
//! and the event that happened.
use vstd::prelude::*;

use crate::changes::ChangeSet;
use crate::protocol::{
    ExecPolicyAmendment, NetworkApprovalContext, NetworkPolicyAmendment, ParsedCommand,
    PermissionProfile, RequestId, RequestUserInputQuestion,
};

verus! {

/// A turn of the agent has finished.
pub struct HookEventAfterAgent {
    pub thread_id: String,
    pub turn_id: String,
    /// Messages that the user sent to the agent to start the turn.
    pub input_messages: Vec<String>,
    /// The last message the assistant sent in the turn.
    pub last_assistant_message: Option<String>,
}

/// A tool call has finished.
pub struct HookEventAfterToolUse {
    pub thread_id: String,
    pub turn_id: String,
    pub call_id: String,
    pub tool_name: String,
}

/// What an approval request asks to be allowed.
pub enum HookApprovalRequest {
    Exec {
        command: Vec<String>,
        proposed_execpolicy_amendment: Option<ExecPolicyAmendment>,
        proposed_network_policy_amendments: Option<Vec<NetworkPolicyAmendment>>,
        additional_permissions: Option<PermissionProfile>,
        parsed_cmd: Vec<ParsedCommand>,
        network_approval_context: Option<NetworkApprovalContext>,
    },
    ApplyPatch { changes: ChangeSet, grant_root: Option<String> },
}

/// The agent asks the user to approve an action.
pub struct HookEventAfterApprovalRequested {
    pub thread_id: String,
    pub turn_id: String,
    pub call_id: String,
    pub reason: Option<String>,
    pub input_messages: Vec<String>,
    pub last_assistant_message: Option<String>,
    pub approval: HookApprovalRequest,
}

/// The agent asks the user questions.
pub struct HookEventAfterInputRequested {
    pub thread_id: String,
    pub turn_id: String,
    pub call_id: String,
    pub input_messages: Vec<String>,
    pub last_assistant_message: Option<String>,
    pub questions: Vec<RequestUserInputQuestion>,
}

/// A tool server asks the user for input.
pub struct HookEventAfterElicitationRequested {
    pub thread_id: String,
    pub turn_id: Option<String>,
    pub server_name: String,
    pub request_id: RequestId,
    pub message: String,
}

#[allow(inconsistent_fields)]
/// The event a hook is run for.
pub enum HookEvent {
    AfterAgent { event: HookEventAfterAgent },
    AfterToolUse { event: HookEventAfterToolUse },
    AfterApprovalRequested { event: HookEventAfterApprovalRequested },
    AfterInputRequested { event: HookEventAfterInputRequested },
    AfterElicitationRequested { event: HookEventAfterElicitationRequested },
}

/// What a hook is given.
pub struct HookPayload {
    /// The working directory of the session, as displayed.
    pub cwd: String,
    /// The client that drives the session, when known.
    pub client: Option<String>,
    pub hook_event: HookEvent,
}

} // verus!
