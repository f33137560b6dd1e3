//! Encodings used on the wire: base64 text for chunks and JSON documents for payloads.

use vstd::prelude::*;
use vstd::string::StringExecFns;

verus! {

/// What `base64::encode_config_buf` with the standard alphabet and padding
/// appends for `bytes`.
pub uninterp spec fn base64_of(bytes: Seq<u8>) -> Seq<char>;

/// A symbol of the standard base64 alphabet, or the padding symbol.
pub open spec fn is_base64_symbol(c: char) -> bool {
    ('A' <= c && c <= 'Z') || ('a' <= c && c <= 'z') || ('0' <= c && c <= '9') || c == '+'
        || c == '/' || c == '='
}

/// Relies on base64::encode_config_buf with base64::STANDARD: padded output of
/// four symbols for each started group of three bytes, drawn from the standard
/// alphabet.
#[verifier::external_body]
pub(crate) fn encode_base64(bytes: &[u8]) -> (text: String)
    requires
        bytes@.len() <= usize::MAX / 4,
    ensures
        text@ == base64_of(bytes@),
        text@.len() == 4 * ((bytes@.len() + 2) / 3),
        forall|i: int| 0 <= i < text@.len() ==> is_base64_symbol(#[trigger] text@[i]),
{
    let mut text = String::new();
    base64::encode_config_buf(bytes, base64::STANDARD, &mut text);
    text
}

/// What `base64::decode` makes of `text`: the bytes, or nothing where it
/// reports an error.
pub uninterp spec fn base64_decoded(text: Seq<char>) -> Option<Seq<u8>>;

/// Relies on base64::decode (standard alphabet): it gives back the bytes
/// whose encoding `text` is.
#[verifier::external_body]
pub(crate) fn decode_base64(text: &str) -> (bytes: Option<Vec<u8>>)
    requires
        text@.len() <= (usize::MAX - 3) / 4,
    ensures
        bytes is Some <==> base64_decoded(text@) is Some,
        bytes matches Some(b) ==> base64_decoded(text@) == Some(b@),
        forall|source: Seq<u8>|
            #[trigger] base64_of(source) == text@ ==> bytes is Some && bytes->0@ == source,
{
    match base64::decode(text) {
        Ok(bytes) => Some(bytes),
        Err(_) => None,
    }
}

/// The text of the string member `key` of the JSON object in `document`, as
/// serde_json reads it; nothing where the document is not an object or the
/// member is missing or not a string.
pub uninterp spec fn json_member_text(document: Seq<char>, key: Seq<char>) -> Option<Seq<char>>;

/// Text that stands for itself between the quotes of a JSON string: no quote,
/// no backslash, no control character.
pub open spec fn is_plain_json_text(text: Seq<char>) -> bool {
    forall|i: int|
        0 <= i < text.len() ==> {
            let c = #[trigger] text[i];
            c != '"' && c != '\\' && (c as u32) >= 0x20
        }
}

/// The JSON object with the one string member `key` set to `text`, written
/// without spaces.
pub open spec fn json_string_object(key: Seq<char>, text: Seq<char>) -> Seq<char> {
    seq!['{', '"'] + key + seq!['"', ':', '"'] + text + seq!['"', '}']
}

/// Relies on serde_json::from_str into a serde_json::Value and on
/// Value::get: the string member `key` of the parsed object.
#[verifier::external_body]
pub(crate) fn json_string_member(document: &str, key: &str) -> (member: Option<String>)
    ensures
        member is Some <==> json_member_text(document@, key@) is Some,
        member matches Some(m) ==> json_member_text(document@, key@) == Some(m@),
        forall|text: Seq<char>|
            is_plain_json_text(key@) && is_plain_json_text(text) && #[trigger] json_string_object(
                key@,
                text,
            ) == document@ ==> member is Some && member->0@ == text,
{
    let value: serde_json::Value = match serde_json::from_str(document) {
        Ok(value) => value,
        Err(_) => return None,
    };
    match value.get(key) {
        Some(serde_json::Value::String(text)) => Some(text.clone()),
        _ => None,
    }
}

/// An event that this client sends on a stream topic.
#[derive(Debug)]
pub enum Message {
    /// Announces the producer on a freshly joined topic.
    ProducerJoin,
    /// Announces the consumer on a freshly joined topic.
    ConsumerJoin,
    /// One chunk of the stream, as base64 text.
    Bytes(String),
    /// The producer has nothing more to send; `error` tells a failed local read
    /// from the end of the input.
    Done { error: bool },
    /// The consumer asks for the next chunk.
    RequestBytes,
}

/// The mathematical content of a [`Message`].
pub enum MessageView {
    ProducerJoin,
    ConsumerJoin,
    Bytes(Seq<char>),
    Done { error: bool },
    RequestBytes,
}

impl View for Message {
    type V = MessageView;

    open spec fn view(&self) -> MessageView {
        match self {
            Message::ProducerJoin => MessageView::ProducerJoin,
            Message::ConsumerJoin => MessageView::ConsumerJoin,
            Message::Bytes(text) => MessageView::Bytes(text@),
            Message::Done { error } => MessageView::Done { error: *error },
            Message::RequestBytes => MessageView::RequestBytes,
        }
    }
}

/// The event name under which a message goes out.
pub open spec fn kind_of(m: MessageView) -> Seq<char> {
    match m {
        MessageView::ProducerJoin => "producer_join"@,
        MessageView::ConsumerJoin => "consumer_join"@,
        MessageView::Bytes(_) => "bytes"@,
        MessageView::Done { .. } => "done"@,
        MessageView::RequestBytes => "request_bytes"@,
    }
}

/// The JSON payload text that goes out with a message.
pub open spec fn payload_of(m: MessageView) -> Seq<char> {
    match m {
        MessageView::Bytes(text) => json_string_object("data"@, text),
        MessageView::Done { error } => if error {
            "{\"error\":true}"@
        } else {
            "{}"@
        },
        _ => "{}"@,
    }
}

impl Message {
    /// The event name of this message.
    pub fn kind(&self) -> (name: &'static str)
        ensures
            name@ == kind_of(self@),
    {
        match self {
            Message::ProducerJoin => "producer_join",
            Message::ConsumerJoin => "consumer_join",
            Message::Bytes(_) => "bytes",
            Message::Done { .. } => "done",
            Message::RequestBytes => "request_bytes",
        }
    }

    /// The payload of this message as JSON text: `{"data":"<base64>"}` for a
    /// chunk, `{"error":true}` for a failed producer, `{}` otherwise.
    pub fn payload(&self) -> (text: String)
        ensures
            text@ == payload_of(self@),
    {
        match self {
            Message::Bytes(data) => {
                let mut text = String::from_str("{\"data\":\"");
                text.append(data.as_str());
                text.append("\"}");
                proof {
                    reveal_strlit("{\"data\":\"");
                    reveal_strlit("\"}");
                    reveal_strlit("data");
                }
                assert(text@ =~= json_string_object("data"@, data@));
                text
            },
            Message::Done { error: true } => String::from_str("{\"error\":true}"),
            _ => String::from_str("{}"),
        }
    }
}

/// An event received on a stream topic.
#[derive(Debug)]
pub enum StreamEvent {
    /// An application event, with its name and its payload as JSON text.
    Custom { name: String, payload: String },
    /// A system event of the channel (join acknowledgement, error, reply).
    Defined,
}

/// The event is an application event of the given name.
pub open spec fn is_custom(event: StreamEvent, name: Seq<char>) -> bool {
    event matches StreamEvent::Custom { name: n, .. } && n@ == name
}

impl StreamEvent {
    /// An application event with this name and payload.
    pub fn custom(name: &str, payload: &str) -> (event: StreamEvent)
        ensures
            event matches StreamEvent::Custom { name: n, payload: p } && n@ == name@ && p@
                == payload@,
    {
        StreamEvent::Custom { name: name.to_owned(), payload: payload.to_owned() }
    }

    /// Whether this is the application event `name`.
    pub fn is_named(&self, name: &str) -> (r: bool)
        ensures
            r == is_custom(*self, name@),
    {
        match self {
            StreamEvent::Custom { name: n, .. } => {
                let wanted = name.to_owned();
                *n == wanted
            },
            StreamEvent::Defined => false,
        }
    }
}

} // verus!
