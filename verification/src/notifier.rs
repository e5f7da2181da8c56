//! The user notifier: a program the user configures receives each
//! notification as JSON, appended as its last argument.
use vstd::prelude::*;

use crate::changes::ChangeSet;
use crate::hook::{request_view, SpawnRequest};
use crate::json::{
    json_string_literal, list, list_text, member_text, object_text, opt_string_text, opt_text,
    optional, optional_string, quote, string_array, string_array_text, string_views, JsonEncode,
    JsonObject,
};
use crate::protocol::{ExecPolicyAmendment, ParsedCommand};

verus! {

/// What every approval notification says about its turn and call.
pub struct ApprovalContext {
    pub thread_id: String,
    pub turn_id: String,
    pub cwd: String,
    pub input_messages: Vec<String>,
    pub last_assistant_message: Option<String>,
    pub call_id: String,
    pub reason: Option<String>,
}

/// An approval request, tagged by `"approval-kind"`, its context written
/// inline.
pub enum ApprovalNotification {
    Exec {
        context: ApprovalContext,
        command: Vec<String>,
        proposed_execpolicy_amendment: Option<ExecPolicyAmendment>,
        parsed_cmd: Vec<ParsedCommand>,
    },
    ApplyPatch { context: ApprovalContext, changes: ChangeSet, grant_root: Option<String> },
}

/// A notification for the user's program, tagged by `"type"`, its fields
/// written in kebab case.
pub enum UserNotification {
    AgentTurnComplete {
        thread_id: String,
        turn_id: String,
        cwd: String,
        /// Messages that the user sent to the agent to initiate the turn.
        input_messages: Vec<String>,
        /// The last message sent by the assistant in the turn.
        last_assistant_message: Option<String>,
    },
    /// The approval's tag and fields are written inline.
    ApprovalRequested { approval: ApprovalNotification },
}

/// The members of an approval context.
pub open spec fn context_members(c: ApprovalContext) -> Seq<Seq<char>> {
    Seq::empty().push(member_text("thread-id"@, json_string_literal(c.thread_id@))).push(
        member_text("turn-id"@, json_string_literal(c.turn_id@)),
    ).push(member_text("cwd"@, json_string_literal(c.cwd@))).push(
        member_text("input-messages"@, string_array_text(c.input_messages@)),
    ).push(member_text("last-assistant-message"@, opt_string_text(c.last_assistant_message))).push(
        member_text("call-id"@, json_string_literal(c.call_id@)),
    ).push(member_text("reason"@, opt_string_text(c.reason)))
}

/// The members of an approval request, after the notification's own tag.
pub open spec fn approval_members(a: ApprovalNotification) -> Seq<Seq<char>> {
    match a {
        ApprovalNotification::Exec {
            context,
            command,
            proposed_execpolicy_amendment,
            parsed_cmd,
        } => (seq![member_text("approval-kind"@, json_string_literal("exec"@))] + context_members(
            context,
        )).push(member_text("command"@, string_array_text(command@))).push(
            member_text("proposed-execpolicy-amendment"@, opt_text(proposed_execpolicy_amendment)),
        ).push(member_text("parsed-cmd"@, list_text(parsed_cmd@))),
        ApprovalNotification::ApplyPatch { context, changes, grant_root } => (seq![
            member_text("approval-kind"@, json_string_literal("apply-patch"@)),
        ] + context_members(context)).push(member_text("changes"@, changes.json_text())).push(
            member_text("grant-root"@, opt_string_text(grant_root)),
        ),
    }
}

/// The members of a notification.
pub open spec fn notification_members(n: UserNotification) -> Seq<Seq<char>> {
    match n {
        UserNotification::AgentTurnComplete {
            thread_id,
            turn_id,
            cwd,
            input_messages,
            last_assistant_message,
        } => Seq::empty().push(
            member_text("type"@, json_string_literal("agent-turn-complete"@)),
        ).push(member_text("thread-id"@, json_string_literal(thread_id@))).push(
            member_text("turn-id"@, json_string_literal(turn_id@)),
        ).push(member_text("cwd"@, json_string_literal(cwd@))).push(
            member_text("input-messages"@, string_array_text(input_messages@)),
        ).push(member_text("last-assistant-message"@, opt_string_text(last_assistant_message))),
        UserNotification::ApprovalRequested { approval } => seq![
            member_text("type"@, json_string_literal("approval-requested"@)),
        ] + approval_members(approval),
    }
}

/// Adds the members of an approval context.
fn add_context(o: &mut JsonObject, c: &ApprovalContext)
    ensures
        final(o)@ == old(o)@ + context_members(*c),
{
    o.add("thread-id", quote(c.thread_id.as_str()));
    o.add("turn-id", quote(c.turn_id.as_str()));
    o.add("cwd", quote(c.cwd.as_str()));
    o.add("input-messages", string_array(&c.input_messages));
    o.add("last-assistant-message", optional_string(&c.last_assistant_message));
    o.add("call-id", quote(c.call_id.as_str()));
    o.add("reason", optional_string(&c.reason));
    proof {
        assert(o@ =~= old(o)@ + context_members(*c));
    }
}

impl JsonEncode for UserNotification {
    open spec fn json_text(&self) -> Seq<char> {
        object_text(notification_members(*self))
    }

    fn to_json(&self) -> (r: String) {
        let mut o = JsonObject::new();
        match self {
            UserNotification::AgentTurnComplete {
                thread_id,
                turn_id,
                cwd,
                input_messages,
                last_assistant_message,
            } => {
                o.add("type", quote("agent-turn-complete"));
                o.add("thread-id", quote(thread_id.as_str()));
                o.add("turn-id", quote(turn_id.as_str()));
                o.add("cwd", quote(cwd.as_str()));
                o.add("input-messages", string_array(input_messages));
                o.add("last-assistant-message", optional_string(last_assistant_message));
            },
            UserNotification::ApprovalRequested { approval } => {
                o.add("type", quote("approval-requested"));
                match approval {
                    ApprovalNotification::Exec {
                        context,
                        command,
                        proposed_execpolicy_amendment,
                        parsed_cmd,
                    } => {
                        o.add("approval-kind", quote("exec"));
                        add_context(&mut o, context);
                        o.add("command", string_array(command));
                        o.add(
                            "proposed-execpolicy-amendment",
                            optional(proposed_execpolicy_amendment),
                        );
                        o.add("parsed-cmd", list(parsed_cmd));
                    },
                    ApprovalNotification::ApplyPatch { context, changes, grant_root } => {
                        o.add("approval-kind", quote("apply-patch"));
                        add_context(&mut o, context);
                        o.add("changes", changes.to_json());
                        o.add("grant-root", optional_string(grant_root));
                    },
                }
            },
        }
        proof {
            assert(o@ =~= notification_members(*self));
        }
        o.finish()
    }
}

/// What the notifier starts for a notification: nothing without a
/// configured, non-empty command; else its first word as the program, with
/// the remaining words and then the notification's JSON as arguments.
pub open spec fn notifier_command(command: Option<Vec<String>>, n: UserNotification) -> Option<
    (Seq<char>, Seq<Seq<char>>),
> {
    match command {
        Some(c) => if c@.len() > 0 {
            Some((c@[0]@, string_views(c@.skip(1)).push(n.json_text())))
        } else {
            None
        },
        None => None,
    }
}

/// Sends notifications to the program the user configured, if any.
pub struct UserNotifier {
    notify_command: Option<Vec<String>>,
}

impl UserNotifier {
    /// The configured command.
    pub closed spec fn command(self) -> Option<Vec<String>> {
        self.notify_command
    }

    /// A notifier for the given command.
    pub fn new(notify: Option<Vec<String>>) -> (r: UserNotifier)
        ensures
            r.command() == notify,
    {
        UserNotifier { notify_command: notify }
    }

    /// The program to start for `notification`, if a command is configured.
    pub fn notify(&self, notification: &UserNotification) -> (r: Option<SpawnRequest>)
        ensures
            request_view(r) == notifier_command(self.command(), *notification),
            self.command() is Some && self.command()->Some_0@.len() > 0 ==> (r matches Some(req)
                && req.program@ == self.command()->Some_0@[0]@ && string_views(req.args@)
                == string_views(self.command()->Some_0@.skip(1)).push(notification.json_text())),
            r is None <==> (self.command() is None || self.command()->Some_0@.len() == 0),
    {
        match &self.notify_command {
            Some(notify_command) => {
                if notify_command.len() > 0 {
                    Some(self.invoke_notify(notify_command, notification))
                } else {
                    None
                }
            },
            None => None,
        }
    }

    /// The program to start for `notification` with the given command.
    pub fn invoke_notify(&self, notify_command: &Vec<String>, notification: &UserNotification) -> (r:
        SpawnRequest)
        requires
            notify_command@.len() > 0,
        ensures
            r@ == (
                notify_command@[0]@,
                string_views(notify_command@.skip(1)).push(notification.json_text()),
            ),
    {
        let json = notification.to_json();
        let program = notify_command[0].clone();
        let mut args: Vec<String> = Vec::new();
        let mut i: usize = 1;
        while i < notify_command.len()
            invariant
                1 <= i <= notify_command@.len(),
                string_views(args@) == string_views(notify_command@.subrange(1, i as int)),
            decreases notify_command@.len() - i,
        {
            let ghost prev = args@;
            args.push(notify_command[i].clone());
            proof {
                assert(string_views(notify_command@.subrange(1, i + 1)) =~= string_views(
                    notify_command@.subrange(1, i as int),
                ).push(notify_command@[i as int]@));
                assert(string_views(args@) =~= string_views(prev).push(notify_command@[i as int]@));
            }
            i += 1;
        }
        let ghost before = string_views(args@);
        args.push(json);
        proof {
            assert(notify_command@.subrange(1, notify_command@.len() as int) =~= notify_command@.skip(1));
            assert(string_views(args@) =~= before.push(json@));
        }
        SpawnRequest { program, args }
    }
}

impl Default for UserNotifier {
    fn default() -> (r: UserNotifier)
        ensures
            r.command() is None,
    {
        UserNotifier::new(None)
    }
}

} // verus!
