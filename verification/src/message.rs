//! The messages of the bridge protocol: what each one is, the JSON object
//! that stands for it, and the text frame that carries it.

use vstd::prelude::*;
use crate::config::{text_of, texts_of};
use crate::json::{
    empty_object, json_text, list_value, null_value, number_value, read_text_member, set_member,
    text_member_of, text_value, value_text, Json, json_of,
};

verus! {

/// A message of the protocol, as a mathematical value.
pub enum WireMessage {
    /// Presents the shared secret.
    Auth { secret: Seq<char> },
    /// Says who the client is and what it can do.
    Hello {
        capabilities: Seq<Seq<char>>,
        platform: Seq<char>,
        project_id: Option<Seq<char>>,
        protocol: u64,
    },
    Ping,
    Pong,
    /// A console event.
    Console { level: Seq<char>, message: Seq<char>, timestamp: u64 },
    /// An error event.
    Error { message: Seq<char>, timestamp: u64 },
}

/// The JSON array of the given strings.
pub open spec fn text_list(names: Seq<Seq<char>>) -> Json {
    Json::List(names.map_values(|t: Seq<char>| Json::Text(t)))
}

/// The JSON string of a text that is there, `null` for one that is not.
pub open spec fn optional_text(name: Option<Seq<char>>) -> Json {
    match name {
        Some(t) => Json::Text(t),
        None => Json::Null,
    }
}

impl WireMessage {
    /// The value of the `type` member, which tells the messages apart.
    pub open spec fn kind(self) -> Seq<char> {
        match self {
            WireMessage::Auth { .. } => "auth"@,
            WireMessage::Hello { .. } => "hello"@,
            WireMessage::Ping => "ping"@,
            WireMessage::Pong => "pong"@,
            WireMessage::Console { .. } => "console"@,
            WireMessage::Error { .. } => "error"@,
        }
    }

    /// The members that a message has besides `type`.
    pub open spec fn payload(self) -> Map<Seq<char>, Json> {
        match self {
            WireMessage::Auth { secret } => Map::empty().insert("secret"@, Json::Text(secret)).insert(
                "role"@,
                Json::Text("bridge"@),
            ),
            WireMessage::Hello { capabilities, platform, project_id, protocol } => Map::empty().insert(
                "capabilities"@,
                text_list(capabilities),
            ).insert("platform"@, Json::Text(platform)).insert(
                "projectId"@,
                optional_text(project_id),
            ).insert("protocol"@, Json::Number(protocol as int)),
            WireMessage::Ping => Map::empty(),
            WireMessage::Pong => Map::empty(),
            WireMessage::Console { level, message, timestamp } => Map::empty().insert(
                "level"@,
                Json::Text(level),
            ).insert("message"@, Json::Text(message)).insert(
                "timestamp"@,
                Json::Number(timestamp as int),
            ),
            WireMessage::Error { message, timestamp } => Map::empty().insert(
                "message"@,
                Json::Text(message),
            ).insert("timestamp"@, Json::Number(timestamp as int)),
        }
    }

    /// The JSON object that stands for the message: its payload, and its kind
    /// under `type`.
    pub open spec fn document(self) -> Json {
        Json::Object(self.payload().insert("type"@, Json::Text(self.kind())))
    }

    /// The text frame that carries the message: its document, printed
    /// compactly.
    pub open spec fn frame(self) -> Seq<char> {
        json_text(self.document())
    }
}

/// Whether a text is the frame of some message of the protocol.
pub open spec fn is_frame(text: Seq<char>) -> bool {
    exists|m: WireMessage| text == #[trigger] m.frame()
}

/// The kind that an inbound text declares: its string member `type`, where it
/// is a JSON object that has one.
pub open spec fn declared_kind(text: Seq<char>) -> Option<Seq<char>> {
    text_member_of(text, "type"@)
}

/// Whether an inbound text is a ping.
pub open spec fn is_ping(text: Seq<char>) -> bool {
    declared_kind(text) == Some("ping"@)
}

/// The frame of `auth` with the given secret.
pub fn auth_frame(secret: &str) -> (frame: String)
    ensures
        frame@ == (WireMessage::Auth { secret: secret@ }).frame(),
{
    let mut doc = empty_object();
    set_member(&mut doc, "secret", text_value(secret));
    set_member(&mut doc, "role", text_value("bridge"));
    set_member(&mut doc, "type", text_value("auth"));
    value_text(&doc)
}

/// The JSON array of the given names.
fn names_value(names: &Vec<String>) -> (v: serde_json::Value)
    ensures
        json_of(v) == text_list(texts_of(names@)),
{
    let mut items: Vec<serde_json::Value> = Vec::new();
    let mut i: usize = 0;
    while i < names.len()
        invariant
            i <= names.len(),
            items@.len() == i,
            forall|j: int| 0 <= j < i ==> json_of(#[trigger] items@[j]) == Json::Text(names@[j]@),
        decreases names.len() - i,
    {
        items.push(text_value(names[i].as_str()));
        i = i + 1;
    }
    assert(items@.map_values(|x: serde_json::Value| json_of(x)) =~= texts_of(names@).map_values(
        |t: Seq<char>| Json::Text(t),
    ));
    list_value(items)
}

/// The frame of `hello` with the given capabilities, platform, project and
/// protocol version.
pub fn hello_frame(
    capabilities: &Vec<String>,
    platform: &str,
    project_id: &Option<String>,
    protocol: u64,
) -> (frame: String)
    ensures
        frame@ == (WireMessage::Hello {
            capabilities: texts_of(capabilities@),
            platform: platform@,
            project_id: text_of(*project_id),
            protocol,
        }).frame(),
{
    let project = match project_id {
        Some(id) => text_value(id.as_str()),
        None => null_value(),
    };
    let mut doc = empty_object();
    set_member(&mut doc, "capabilities", names_value(capabilities));
    set_member(&mut doc, "platform", text_value(platform));
    set_member(&mut doc, "projectId", project);
    set_member(&mut doc, "protocol", number_value(protocol));
    set_member(&mut doc, "type", text_value("hello"));
    value_text(&doc)
}

/// The frame of `ping`.
pub fn ping_frame() -> (frame: String)
    ensures
        frame@ == WireMessage::Ping.frame(),
{
    let mut doc = empty_object();
    set_member(&mut doc, "type", text_value("ping"));
    value_text(&doc)
}

/// The frame of `pong`.
pub fn pong_frame() -> (frame: String)
    ensures
        frame@ == WireMessage::Pong.frame(),
{
    let mut doc = empty_object();
    set_member(&mut doc, "type", text_value("pong"));
    value_text(&doc)
}

/// The frame of a console event.
pub fn console_frame(level: &str, message: &str, timestamp: u64) -> (frame: String)
    ensures
        frame@ == (WireMessage::Console { level: level@, message: message@, timestamp }).frame(),
{
    let mut doc = empty_object();
    set_member(&mut doc, "level", text_value(level));
    set_member(&mut doc, "message", text_value(message));
    set_member(&mut doc, "timestamp", number_value(timestamp));
    set_member(&mut doc, "type", text_value("console"));
    value_text(&doc)
}

/// The frame of an error event.
pub fn error_frame(message: &str, timestamp: u64) -> (frame: String)
    ensures
        frame@ == (WireMessage::Error { message: message@, timestamp }).frame(),
{
    let mut doc = empty_object();
    set_member(&mut doc, "message", text_value(message));
    set_member(&mut doc, "timestamp", number_value(timestamp));
    set_member(&mut doc, "type", text_value("error"));
    value_text(&doc)
}

/// Tells whether an inbound text is a ping: a JSON object whose member `type`
/// is the string `ping`. A text that is no JSON, or has no such member, is
/// none.
pub fn is_ping_frame(text: &str) -> (b: bool)
    ensures
        b == is_ping(text@),
{
    match read_text_member(text, "type") {
        Some(kind) => kind == "ping".to_owned(),
        None => false,
    }
}

/// The names of the members, written out.
proof fn reveal_member_names()
    ensures
        "type"@ == seq!['t', 'y', 'p', 'e'],
        "level"@ == seq!['l', 'e', 'v', 'e', 'l'],
        "message"@ == seq!['m', 'e', 's', 's', 'a', 'g', 'e'],
        "timestamp"@ == seq!['t', 'i', 'm', 'e', 's', 't', 'a', 'm', 'p'],
{
    reveal_strlit("type");
    reveal_strlit("level");
    reveal_strlit("message");
    reveal_strlit("timestamp");
    assert("type"@ =~= seq!['t', 'y', 'p', 'e']);
    assert("level"@ =~= seq!['l', 'e', 'v', 'e', 'l']);
    assert("message"@ =~= seq!['m', 'e', 's', 's', 'a', 'g', 'e']);
    assert("timestamp"@ =~= seq!['t', 'i', 'm', 'e', 's', 't', 'a', 'm', 'p']);
}

/// A console event is a JSON object with exactly the members `type`, `level`,
/// `message` and `timestamp`, and each holds what the event was made of.
pub proof fn lemma_console_document(level: Seq<char>, message: Seq<char>, timestamp: u64)
    ensures
        ({
            let doc = (WireMessage::Console { level, message, timestamp }).document();
            &&& doc is Object
            &&& doc.members().dom() =~= set!["type"@, "level"@, "message"@, "timestamp"@]
            &&& doc.member("type"@) == Some(Json::Text("console"@))
            &&& doc.member("level"@) == Some(Json::Text(level))
            &&& doc.member("message"@) == Some(Json::Text(message))
            &&& doc.member("timestamp"@) == Some(Json::Number(timestamp as int))
        }),
{
    reveal_member_names();
    let doc = (WireMessage::Console { level, message, timestamp }).document();
    assert("type"@.len() == 4 && "level"@.len() == 5 && "message"@.len() == 7 && "timestamp"@.len()
        == 9);
}

/// Every message declares its kind: the member `type` of its document is the
/// kind, as a string.
pub proof fn lemma_document_declares_kind(m: WireMessage)
    ensures
        m.document().text_member("type"@) == Some(m.kind()),
{
}

} // verus!
