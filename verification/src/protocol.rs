//! The protocol values that notification payloads carry, each with the JSON
//! text it is written as.
use vstd::prelude::*;

use crate::json::{
    bool_text, boolean, json_string_literal, member_text, object_text,
    opt_list_text, optional_list, opt_bool_text, opt_string_array_text, opt_string_text, opt_text,
    optional, optional_bool, optional_string, optional_string_array, quote, string_array,
    string_array_text, JsonEncode, JsonObject,
};

verus! {

/// A command prefix proposed for the exec policy; written as the array of its words.
pub struct ExecPolicyAmendment {
    pub command: Vec<String>,
}

impl ExecPolicyAmendment {
    /// An amendment for the given command prefix.
    pub fn new(command: Vec<String>) -> (r: ExecPolicyAmendment)
        ensures
            r.command@ == command@,
    {
        ExecPolicyAmendment { command }
    }
}

impl JsonEncode for ExecPolicyAmendment {
    open spec fn json_text(&self) -> Seq<char> {
        string_array_text(self.command@)
    }

    fn to_json(&self) -> (r: String) {
        string_array(&self.command)
    }
}

/// Whether a network rule allows or denies a host.
pub enum NetworkPolicyRuleAction {
    Allow,
    Deny,
}

impl JsonEncode for NetworkPolicyRuleAction {
    open spec fn json_text(&self) -> Seq<char> {
        match self {
            NetworkPolicyRuleAction::Allow => json_string_literal("allow"@),
            NetworkPolicyRuleAction::Deny => json_string_literal("deny"@),
        }
    }

    fn to_json(&self) -> (r: String) {
        match self {
            NetworkPolicyRuleAction::Allow => quote("allow"),
            NetworkPolicyRuleAction::Deny => quote("deny"),
        }
    }
}

/// A proposed network rule: `{"host":..,"action":..}`.
pub struct NetworkPolicyAmendment {
    pub host: String,
    pub action: NetworkPolicyRuleAction,
}

impl JsonEncode for NetworkPolicyAmendment {
    open spec fn json_text(&self) -> Seq<char> {
        object_text(
            Seq::empty()
                .push(member_text("host"@, json_string_literal(self.host@)))
                .push(member_text("action"@, self.action.json_text())),
        )
    }

    fn to_json(&self) -> (r: String) {
        let mut o = JsonObject::new();
        o.add("host", quote(self.host.as_str()));
        o.add("action", self.action.to_json());
        o.finish()
    }
}

/// The protocol of a network request that needs approval.
pub enum NetworkApprovalProtocol {
    Http,
    Https,
    Socks5Tcp,
    Socks5Udp,
}

impl JsonEncode for NetworkApprovalProtocol {
    open spec fn json_text(&self) -> Seq<char> {
        match self {
            NetworkApprovalProtocol::Http => json_string_literal("http"@),
            NetworkApprovalProtocol::Https => json_string_literal("https"@),
            NetworkApprovalProtocol::Socks5Tcp => json_string_literal("socks5_tcp"@),
            NetworkApprovalProtocol::Socks5Udp => json_string_literal("socks5_udp"@),
        }
    }

    fn to_json(&self) -> (r: String) {
        match self {
            NetworkApprovalProtocol::Http => quote("http"),
            NetworkApprovalProtocol::Https => quote("https"),
            NetworkApprovalProtocol::Socks5Tcp => quote("socks5_tcp"),
            NetworkApprovalProtocol::Socks5Udp => quote("socks5_udp"),
        }
    }
}

/// The host and protocol of a network request that needs approval.
pub struct NetworkApprovalContext {
    pub host: String,
    pub protocol: NetworkApprovalProtocol,
}

impl JsonEncode for NetworkApprovalContext {
    open spec fn json_text(&self) -> Seq<char> {
        object_text(
            Seq::empty()
                .push(member_text("host"@, json_string_literal(self.host@)))
                .push(member_text("protocol"@, self.protocol.json_text())),
        )
    }

    fn to_json(&self) -> (r: String) {
        let mut o = JsonObject::new();
        o.add("host", quote(self.host.as_str()));
        o.add("protocol", self.protocol.to_json());
        o.finish()
    }
}

/// Extra network access asked for by a command.
pub struct NetworkPermissions {
    pub enabled: Option<bool>,
}

impl JsonEncode for NetworkPermissions {
    open spec fn json_text(&self) -> Seq<char> {
        object_text(seq![member_text("enabled"@, opt_bool_text(self.enabled))])
    }

    fn to_json(&self) -> (r: String) {
        let mut o = JsonObject::new();
        o.add("enabled", optional_bool(self.enabled));
        o.finish()
    }
}

/// Extra file-system access asked for by a command.
pub struct FileSystemPermissions {
    pub read: Option<Vec<String>>,
    pub write: Option<Vec<String>>,
}

impl JsonEncode for FileSystemPermissions {
    open spec fn json_text(&self) -> Seq<char> {
        object_text(
            Seq::empty()
                .push(member_text("read"@, opt_string_array_text(self.read)))
                .push(member_text("write"@, opt_string_array_text(self.write))),
        )
    }

    fn to_json(&self) -> (r: String) {
        let mut o = JsonObject::new();
        o.add("read", optional_string_array(&self.read));
        o.add("write", optional_string_array(&self.write));
        o.finish()
    }
}

/// Extra macOS access asked for by a command.
pub struct MacOsPermissions {
    pub accessibility: Option<bool>,
    pub calendar: Option<bool>,
}

impl JsonEncode for MacOsPermissions {
    open spec fn json_text(&self) -> Seq<char> {
        object_text(
            Seq::empty()
                .push(member_text("accessibility"@, opt_bool_text(self.accessibility)))
                .push(member_text("calendar"@, opt_bool_text(self.calendar))),
        )
    }

    fn to_json(&self) -> (r: String) {
        let mut o = JsonObject::new();
        o.add("accessibility", optional_bool(self.accessibility));
        o.add("calendar", optional_bool(self.calendar));
        o.finish()
    }
}

/// Additional permissions requested together with a command.
pub struct PermissionProfile {
    pub network: Option<NetworkPermissions>,
    pub file_system: Option<FileSystemPermissions>,
    pub macos: Option<MacOsPermissions>,
}

impl Default for PermissionProfile {
    /// The profile that asks for nothing.
    fn default() -> (r: PermissionProfile)
        ensures
            r.network is None,
            r.file_system is None,
            r.macos is None,
    {
        PermissionProfile { network: None, file_system: None, macos: None }
    }
}

impl JsonEncode for PermissionProfile {
    open spec fn json_text(&self) -> Seq<char> {
        object_text(
            Seq::empty()
                .push(member_text("network"@, opt_text(self.network)))
                .push(member_text("file_system"@, opt_text(self.file_system)))
                .push(member_text("macos"@, opt_text(self.macos))),
        )
    }

    fn to_json(&self) -> (r: String) {
        let mut o = JsonObject::new();
        o.add("network", optional(&self.network));
        o.add("file_system", optional(&self.file_system));
        o.add("macos", optional(&self.macos));
        o.finish()
    }
}

/// What a shell command was recognised as, tagged by `"type"`.
#[allow(inconsistent_fields)]
pub enum ParsedCommand {
    Read { cmd: String, name: String, path: String },
    ListFiles { cmd: String, path: Option<String> },
    Search { cmd: String, query: Option<String>, path: Option<String> },
    Unknown { cmd: String },
}

impl JsonEncode for ParsedCommand {
    open spec fn json_text(&self) -> Seq<char> {
        match self {
            ParsedCommand::Read { cmd, name, path } => object_text(
                Seq::empty()
                    .push(member_text("type"@, json_string_literal("read"@)))
                    .push(member_text("cmd"@, json_string_literal(cmd@)))
                    .push(member_text("name"@, json_string_literal(name@)))
                    .push(member_text("path"@, json_string_literal(path@))),
            ),
            ParsedCommand::ListFiles { cmd, path } => object_text(
                Seq::empty()
                    .push(member_text("type"@, json_string_literal("list_files"@)))
                    .push(member_text("cmd"@, json_string_literal(cmd@)))
                    .push(member_text("path"@, opt_string_text(*path))),
            ),
            ParsedCommand::Search { cmd, query, path } => object_text(
                Seq::empty()
                    .push(member_text("type"@, json_string_literal("search"@)))
                    .push(member_text("cmd"@, json_string_literal(cmd@)))
                    .push(member_text("query"@, opt_string_text(*query)))
                    .push(member_text("path"@, opt_string_text(*path))),
            ),
            ParsedCommand::Unknown { cmd } => object_text(
                Seq::empty()
                    .push(member_text("type"@, json_string_literal("unknown"@)))
                    .push(member_text("cmd"@, json_string_literal(cmd@))),
            ),
        }
    }

    fn to_json(&self) -> (r: String) {
        let mut o = JsonObject::new();
        match self {
            ParsedCommand::Read { cmd, name, path } => {
                o.add("type", quote("read"));
                o.add("cmd", quote(cmd.as_str()));
                o.add("name", quote(name.as_str()));
                o.add("path", quote(path.as_str()));
            },
            ParsedCommand::ListFiles { cmd, path } => {
                o.add("type", quote("list_files"));
                o.add("cmd", quote(cmd.as_str()));
                o.add("path", optional_string(path));
            },
            ParsedCommand::Search { cmd, query, path } => {
                o.add("type", quote("search"));
                o.add("cmd", quote(cmd.as_str()));
                o.add("query", optional_string(query));
                o.add("path", optional_string(path));
            },
            ParsedCommand::Unknown { cmd } => {
                o.add("type", quote("unknown"));
                o.add("cmd", quote(cmd.as_str()));
            },
        }
        o.finish()
    }
}

/// A change to one file, tagged by `"type"`.
pub enum FileChange {
    Add { content: String },
    Delete { content: String },
    Update { unified_diff: String, move_path: Option<String> },
}

impl JsonEncode for FileChange {
    open spec fn json_text(&self) -> Seq<char> {
        match self {
            FileChange::Add { content } => object_text(
                Seq::empty()
                    .push(member_text("type"@, json_string_literal("add"@)))
                    .push(member_text("content"@, json_string_literal(content@))),
            ),
            FileChange::Delete { content } => object_text(
                Seq::empty()
                    .push(member_text("type"@, json_string_literal("delete"@)))
                    .push(member_text("content"@, json_string_literal(content@))),
            ),
            FileChange::Update { unified_diff, move_path } => object_text(
                Seq::empty()
                    .push(member_text("type"@, json_string_literal("update"@)))
                    .push(member_text("unified_diff"@, json_string_literal(unified_diff@)))
                    .push(member_text("move_path"@, opt_string_text(*move_path))),
            ),
        }
    }

    fn to_json(&self) -> (r: String) {
        let mut o = JsonObject::new();
        match self {
            FileChange::Add { content } => {
                o.add("type", quote("add"));
                o.add("content", quote(content.as_str()));
            },
            FileChange::Delete { content } => {
                o.add("type", quote("delete"));
                o.add("content", quote(content.as_str()));
            },
            FileChange::Update { unified_diff, move_path } => {
                o.add("type", quote("update"));
                o.add("unified_diff", quote(unified_diff.as_str()));
                o.add("move_path", optional_string(move_path));
            },
        }
        o.finish()
    }
}

/// The identifier of a request from a tool server: a string or an integer,
/// written as the bare value.
pub enum RequestId {
    String(String),
    Integer(i64),
}

impl JsonEncode for RequestId {
    open spec fn json_text(&self) -> Seq<char> {
        match self {
            RequestId::String(s) => json_string_literal(s@),
            RequestId::Integer(n) => crate::json::integer_text(*n as int),
        }
    }

    fn to_json(&self) -> (r: String) {
        match self {
            RequestId::String(s) => quote(s.as_str()),
            RequestId::Integer(n) => crate::json::integer(*n),
        }
    }
}

/// One answer offered for a question to the user.
pub struct RequestUserInputQuestionOption {
    pub label: String,
    pub description: String,
}

impl JsonEncode for RequestUserInputQuestionOption {
    open spec fn json_text(&self) -> Seq<char> {
        object_text(
            Seq::empty()
                .push(member_text("label"@, json_string_literal(self.label@)))
                .push(member_text("description"@, json_string_literal(self.description@))),
        )
    }

    fn to_json(&self) -> (r: String) {
        let mut o = JsonObject::new();
        o.add("label", quote(self.label.as_str()));
        o.add("description", quote(self.description.as_str()));
        o.finish()
    }
}

/// A question put to the user.
pub struct RequestUserInputQuestion {
    pub id: String,
    pub header: String,
    pub question: String,
    pub is_other: bool,
    pub is_secret: bool,
    pub options: Option<Vec<RequestUserInputQuestionOption>>,
}

impl JsonEncode for RequestUserInputQuestion {
    open spec fn json_text(&self) -> Seq<char> {
        object_text(
            Seq::empty()
                .push(member_text("id"@, json_string_literal(self.id@)))
                .push(member_text("header"@, json_string_literal(self.header@)))
                .push(member_text("question"@, json_string_literal(self.question@)))
                .push(member_text("isOther"@, bool_text(self.is_other)))
                .push(member_text("isSecret"@, bool_text(self.is_secret)))
                .push(member_text("options"@, opt_list_text(self.options))),
        )
    }

    fn to_json(&self) -> (r: String) {
        let mut o = JsonObject::new();
        o.add("id", quote(self.id.as_str()));
        o.add("header", quote(self.header.as_str()));
        o.add("question", quote(self.question.as_str()));
        o.add("isOther", boolean(self.is_other));
        o.add("isSecret", boolean(self.is_secret));
        o.add("options", optional_list(&self.options));
        o.finish()
    }
}

} // verus!
