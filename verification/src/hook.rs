//! The notify hook: on each event it decides whether to start the user's
//! notify program, and with which arguments.
use vstd::prelude::*;

use crate::event::HookPayload;
use crate::json::{string_views, JsonEncode};
use crate::legacy::{
    default_notify_events, event_name, legacy_notification, legacy_notify_json, notify_event_name,
    AGENT_TURN_COMPLETE_EVENT,
};

verus! {

/// A program to start: its path and its arguments.
pub struct SpawnRequest {
    pub program: String,
    pub args: Vec<String>,
}

impl View for SpawnRequest {
    type V = (Seq<char>, Seq<Seq<char>>);

    open spec fn view(&self) -> (Seq<char>, Seq<Seq<char>>) {
        (self.program@, string_views(self.args@))
    }
}

/// The program and arguments of an optional request.
pub open spec fn request_view(o: Option<SpawnRequest>) -> Option<(Seq<char>, Seq<Seq<char>>)> {
    match o {
        Some(r) => Some(r@),
        None => None,
    }
}

/// The command that an argv denotes: its first word is the program, which
/// must not be empty; the rest are the arguments.
pub open spec fn argv_command(argv: Seq<String>) -> Option<(Seq<char>, Seq<Seq<char>>)> {
    if argv.len() == 0 || argv[0]@.len() == 0 {
        None
    } else {
        Some((argv[0]@, string_views(argv.skip(1))))
    }
}

/// Copies the strings of `v` from index `from` on.
fn copy_from(v: &Vec<String>, from: usize) -> (r: Vec<String>)
    requires
        from <= v@.len(),
    ensures
        string_views(r@) == string_views(v@.skip(from as int)),
{
    let mut r: Vec<String> = Vec::new();
    let mut i: usize = from;
    while i < v.len()
        invariant
            from <= i <= v@.len(),
            string_views(r@) == string_views(v@.subrange(from as int, i as int)),
        decreases v@.len() - i,
    {
        let ghost prev = r@;
        r.push(v[i].clone());
        proof {
            assert(string_views(v@.subrange(from as int, i + 1)) =~= string_views(
                v@.subrange(from as int, i as int),
            ).push(v@[i as int]@));
            assert(string_views(r@) =~= string_views(prev).push(v@[i as int]@));
        }
        i += 1;
    }
    proof {
        assert(v@.subrange(from as int, v@.len() as int) =~= v@.skip(from as int));
    }
    r
}

/// The command to run for an argv: none when it is empty or names an empty program.
pub fn command_from_argv(argv: &Vec<String>) -> (r: Option<SpawnRequest>)
    ensures
        request_view(r) == argv_command(argv@),
        argv@.len() > 0 && argv@[0]@.len() > 0 ==> (r matches Some(c) && c.program@ == argv@[0]@
            && string_views(c.args@) == string_views(argv@.skip(1))),
        argv@.len() == 0 || argv@[0]@.len() == 0 ==> r is None,
{
    if argv.len() == 0 {
        return None;
    }
    if argv[0].as_str().is_empty() {
        return None;
    }
    let program = argv[0].clone();
    let args = copy_from(argv, 1);
    Some(SpawnRequest { program, args })
}

/// What a hook reports once it has run.
pub enum HookResult {
    Success,
    /// The hook failed; the session goes on.
    FailedContinue(String),
}

/// The result of a hook run: success, unless the program could not be started.
pub fn hook_result(spawn_error: Option<String>) -> (r: HookResult)
    ensures
        match spawn_error {
            None => r is Success,
            Some(e) => r matches HookResult::FailedContinue(m) && m@ == e@,
        },
{
    match spawn_error {
        None => HookResult::Success,
        Some(e) => HookResult::FailedContinue(e),
    }
}

/// A notify hook: the user's argv and the events it is enabled for.
pub struct Hook {
    pub name: String,
    pub argv: Vec<String>,
    pub enabled_events: Vec<String>,
}

/// What a hook starts for a payload: nothing unless the event has a notify
/// name among the enabled events and the argv names a program; then that
/// program, with the argv's arguments followed by the legacy JSON payload.
pub open spec fn hook_command(hook: Hook, payload: HookPayload) -> Option<
    (Seq<char>, Seq<Seq<char>>),
> {
    match event_name(payload.hook_event) {
        None => None,
        Some(name) => if !string_views(hook.enabled_events@).contains(name) {
            None
        } else {
            match argv_command(hook.argv@) {
                None => None,
                Some(command) => match legacy_notification(payload) {
                    None => None,
                    Some(n) => Some((command.0, command.1.push(n.json_text()))),
                },
            }
        },
    }
}

/// Whether `name` is among `events`.
fn contains_event(events: &Vec<String>, name: &str) -> (r: bool)
    ensures
        r == string_views(events@).contains(name@),
{
    let target = String::from_str(name);
    let mut i: usize = 0;
    while i < events.len()
        invariant
            i <= events@.len(),
            target@ == name@,
            forall|j: int| 0 <= j < i ==> events@[j]@ != name@,
        decreases events@.len() - i,
    {
        if events[i] == target {
            proof {
                assert(string_views(events@)[i as int] == name@);
            }
            return true;
        }
        i += 1;
    }
    proof {
        if string_views(events@).contains(name@) {
            let j = choose|j: int| 0 <= j < string_views(events@).len() && string_views(events@)[j] == name@;
            assert(events@[j]@ == name@);
        }
    }
    false
}

/// The name every notify hook carries.
pub open spec fn legacy_hook_name() -> Seq<char> {
    "legacy_notify"@
}

/// A notify hook for `argv`, enabled for the given event names.
pub fn notify_hook_with_events(argv: Vec<String>, enabled_events: Vec<String>) -> (r: Hook)
    ensures
        r.name@ == legacy_hook_name(),
        r.argv == argv,
        r.enabled_events == enabled_events,
{
    Hook { name: String::from_str("legacy_notify"), argv, enabled_events }
}

/// A notify hook for `argv`, enabled for the default events.
pub fn notify_hook(argv: Vec<String>) -> (r: Hook)
    ensures
        r.name@ == legacy_hook_name(),
        r.argv == argv,
        string_views(r.enabled_events@) == seq![AGENT_TURN_COMPLETE_EVENT@],
{
    let events = default_notify_events();
    proof {
        assert(string_views(events@) =~= seq![AGENT_TURN_COMPLETE_EVENT@]);
    }
    notify_hook_with_events(argv, events)
}

impl Hook {
    /// The program this hook starts for `payload`, if any.
    pub fn run(&self, payload: &HookPayload) -> (r: Option<SpawnRequest>)
        ensures
            request_view(r) == hook_command(*self, *payload),
    {
        let event_name = match notify_event_name(&payload.hook_event) {
            Some(n) => n,
            None => return None,
        };
        if !contains_event(&self.enabled_events, event_name) {
            return None;
        }
        let mut command = match command_from_argv(&self.argv) {
            Some(c) => c,
            None => return None,
        };
        let notify_payload = match legacy_notify_json(payload) {
            Ok(s) => s,
            Err(_) => return None,
        };
        let ghost before = command@;
        command.args.push(notify_payload);
        proof {
            assert(string_views(command.args@) =~= before.1.push(notify_payload@));
        }
        Some(command)
    }
}

} // verus!
