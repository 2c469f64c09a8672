//! The Telegram gateway's data model and pure logic: the URLs and bodies of
//! every outbound call, and the interpretation of every response.
//!
//! A response body is text; `json_of_text` gives its JSON model, and the
//! `..._of_json` spec functions below say which models decode into the typed
//! replies (a decode follows the bot API's lenient field rules: a missing or
//! null optional field is absent, a field of the wrong kind is a decode
//! error). Each interpreter's contract runs from the raw body
//! to the final `Result`, so success, each error, and the returned value are
//! pinned for every input.

use vstd::prelude::*;
use crate::json::{
    json_as_array, json_as_bool, json_as_i64, json_as_str, json_get, json_is_null, json_node,
    json_of_text, nodes_of, parse_json, JsonNode,
};
use crate::numfmt::{int_dec, i64_dec};

verus! {

// ---------------------------------------------------------------------------
// Typed replies and their mathematical views
// ---------------------------------------------------------------------------

/// A voice attachment: a remote file identifier and an optional duration.
#[derive(Debug)]
pub struct TelegramVoice {
    pub file_id: String,
    pub duration: Option<i64>,
}

/// The chat a message arrived in.
#[derive(Debug)]
pub struct TelegramChat {
    pub id: i64,
    pub first_name: Option<String>,
    pub last_name: Option<String>,
    pub username: Option<String>,
}

/// One inbound message: its chat, and optional text, timestamp and voice note.
#[derive(Debug)]
pub struct TelegramMessageData {
    pub chat: TelegramChat,
    pub text: Option<String>,
    pub date: Option<i64>,
    pub voice: Option<TelegramVoice>,
}

/// One inbound update: an identifier and an optional message.
#[derive(Debug)]
pub struct TelegramUpdate {
    pub update_id: i64,
    pub message: Option<TelegramMessageData>,
}

/// The view of a voice attachment.
pub struct VoiceV {
    pub file_id: Seq<char>,
    pub duration: Option<i64>,
}

/// The view of a chat descriptor.
pub struct ChatV {
    pub id: i64,
    pub first_name: Option<Seq<char>>,
    pub last_name: Option<Seq<char>>,
    pub username: Option<Seq<char>>,
}

/// The view of an inbound message.
pub struct MessageV {
    pub chat: ChatV,
    pub text: Option<Seq<char>>,
    pub date: Option<i64>,
    pub voice: Option<VoiceV>,
}

/// The view of an inbound update.
pub struct UpdateV {
    pub update_id: i64,
    pub message: Option<MessageV>,
}

/// The view of an acknowledgement reply: the remote `ok` flag and an optional
/// human-readable description.
pub struct ResponseV {
    pub ok: bool,
    pub description: Option<Seq<char>>,
}

/// The view of a reply to an update poll.
pub struct UpdatesReplyV {
    pub ok: bool,
    pub result: Option<Seq<UpdateV>>,
    pub description: Option<Seq<char>>,
}

/// The view of an optional string field.
pub open spec fn str_opt_view(o: Option<String>) -> Option<Seq<char>> {
    match o {
        Some(s) => Some(s@),
        None => None,
    }
}

/// The view of an optional voice attachment.
pub open spec fn voice_opt_view(o: Option<TelegramVoice>) -> Option<VoiceV> {
    match o {
        Some(v) => Some(v@),
        None => None,
    }
}

/// The view of an optional message.
pub open spec fn message_opt_view(o: Option<TelegramMessageData>) -> Option<MessageV> {
    match o {
        Some(m) => Some(m@),
        None => None,
    }
}

impl View for TelegramVoice {
    type V = VoiceV;

    open spec fn view(&self) -> VoiceV {
        VoiceV { file_id: self.file_id@, duration: self.duration }
    }
}

impl View for TelegramChat {
    type V = ChatV;

    open spec fn view(&self) -> ChatV {
        ChatV {
            id: self.id,
            first_name: str_opt_view(self.first_name),
            last_name: str_opt_view(self.last_name),
            username: str_opt_view(self.username),
        }
    }
}

impl View for TelegramMessageData {
    type V = MessageV;

    open spec fn view(&self) -> MessageV {
        MessageV {
            chat: self.chat@,
            text: str_opt_view(self.text),
            date: self.date,
            voice: voice_opt_view(self.voice),
        }
    }
}

impl View for TelegramUpdate {
    type V = UpdateV;

    open spec fn view(&self) -> UpdateV {
        UpdateV { update_id: self.update_id, message: message_opt_view(self.message) }
    }
}

/// The views of a sequence of updates.
pub open spec fn updates_view(s: Seq<TelegramUpdate>) -> Seq<UpdateV> {
    s.map_values(|u: TelegramUpdate| u@)
}

// ---------------------------------------------------------------------------
// Decoding: which JSON models yield which typed replies
// ---------------------------------------------------------------------------

/// A required integer field: present and stored as an integer in `i64` range,
/// else a decode error.
pub open spec fn req_i64_field(m: Map<Seq<char>, JsonNode>, key: Seq<char>) -> Option<i64> {
    if m.dom().contains(key) {
        match m[key] {
            JsonNode::Num { int_val, .. } => int_val,
            _ => None,
        }
    } else {
        None
    }
}

/// A required boolean field.
pub open spec fn req_bool_field(m: Map<Seq<char>, JsonNode>, key: Seq<char>) -> Option<bool> {
    if m.dom().contains(key) {
        match m[key] {
            JsonNode::Bool(b) => Some(b),
            _ => None,
        }
    } else {
        None
    }
}

/// A required string field.
pub open spec fn req_str_field(m: Map<Seq<char>, JsonNode>, key: Seq<char>) -> Option<Seq<char>> {
    if m.dom().contains(key) {
        match m[key] {
            JsonNode::Str(s) => Some(s),
            _ => None,
        }
    } else {
        None
    }
}

/// An optional string field: absent or null decodes to `None`, a string to
/// `Some`, anything else is a decode error (the outer `Option`).
pub open spec fn opt_str_field(m: Map<Seq<char>, JsonNode>, key: Seq<char>) -> Option<
    Option<Seq<char>>,
> {
    if !m.dom().contains(key) {
        Some(None)
    } else {
        match m[key] {
            JsonNode::Null => Some(None),
            JsonNode::Str(s) => Some(Some(s)),
            _ => None,
        }
    }
}

/// An optional integer field, with the same lenient absence rules.
pub open spec fn opt_i64_field(m: Map<Seq<char>, JsonNode>, key: Seq<char>) -> Option<
    Option<i64>,
> {
    if !m.dom().contains(key) {
        Some(None)
    } else {
        match m[key] {
            JsonNode::Null => Some(None),
            JsonNode::Num { int_val, .. } => match int_val {
                Some(i) => Some(Some(i)),
                None => None,
            },
            _ => None,
        }
    }
}

/// The voice attachment a JSON value decodes to, if any.
pub open spec fn voice_of_json(j: JsonNode) -> Option<VoiceV> {
    match j {
        JsonNode::Obj(m) => match (req_str_field(m, "file_id"@), opt_i64_field(m, "duration"@)) {
            (Some(file_id), Some(duration)) => Some(VoiceV { file_id, duration }),
            _ => None,
        },
        _ => None,
    }
}

/// The chat descriptor a JSON value decodes to, if any.
pub open spec fn chat_of_json(j: JsonNode) -> Option<ChatV> {
    match j {
        JsonNode::Obj(m) => match (
            req_i64_field(m, "id"@),
            opt_str_field(m, "first_name"@),
            opt_str_field(m, "last_name"@),
            opt_str_field(m, "username"@),
        ) {
            (Some(id), Some(first_name), Some(last_name), Some(username)) => Some(
                ChatV { id, first_name, last_name, username },
            ),
            _ => None,
        },
        _ => None,
    }
}

/// An optional voice field of a message object.
pub open spec fn opt_voice_field(m: Map<Seq<char>, JsonNode>, key: Seq<char>) -> Option<
    Option<VoiceV>,
> {
    if !m.dom().contains(key) {
        Some(None)
    } else if m[key] is Null {
        Some(None)
    } else {
        match voice_of_json(m[key]) {
            Some(v) => Some(Some(v)),
            None => None,
        }
    }
}

/// The message a JSON value decodes to, if any.
pub open spec fn message_of_json(j: JsonNode) -> Option<MessageV> {
    match j {
        JsonNode::Obj(m) => {
            if !m.dom().contains("chat"@) {
                None
            } else {
                match (
                    chat_of_json(m["chat"@]),
                    opt_str_field(m, "text"@),
                    opt_i64_field(m, "date"@),
                    opt_voice_field(m, "voice"@),
                ) {
                    (Some(chat), Some(text), Some(date), Some(voice)) => Some(
                        MessageV { chat, text, date, voice },
                    ),
                    _ => None,
                }
            }
        },
        _ => None,
    }
}

/// An optional message field of an update object.
pub open spec fn opt_message_field(m: Map<Seq<char>, JsonNode>, key: Seq<char>) -> Option<
    Option<MessageV>,
> {
    if !m.dom().contains(key) {
        Some(None)
    } else if m[key] is Null {
        Some(None)
    } else {
        match message_of_json(m[key]) {
            Some(v) => Some(Some(v)),
            None => None,
        }
    }
}

/// The update a JSON value decodes to, if any.
pub open spec fn update_of_json(j: JsonNode) -> Option<UpdateV> {
    match j {
        JsonNode::Obj(m) => match (
            req_i64_field(m, "update_id"@),
            opt_message_field(m, "message"@),
        ) {
            (Some(update_id), Some(message)) => Some(UpdateV { update_id, message }),
            _ => None,
        },
        _ => None,
    }
}

/// The update list a JSON array decodes to: every element must decode.
pub open spec fn updates_of_json(elems: Seq<JsonNode>) -> Option<Seq<UpdateV>> {
    if forall|i: int| 0 <= i < elems.len() ==> (#[trigger] update_of_json(elems[i])) is Some {
        Some(Seq::new(elems.len(), |i: int| update_of_json(elems[i])->Some_0))
    } else {
        None
    }
}

/// An optional update-list field of a poll reply.
pub open spec fn opt_updates_field(m: Map<Seq<char>, JsonNode>, key: Seq<char>) -> Option<
    Option<Seq<UpdateV>>,
> {
    if !m.dom().contains(key) {
        Some(None)
    } else if m[key] is Null {
        Some(None)
    } else {
        match m[key] {
            JsonNode::Arr(elems) => match updates_of_json(elems) {
                Some(us) => Some(Some(us)),
                None => None,
            },
            _ => None,
        }
    }
}

/// The acknowledgement reply a JSON value decodes to, if any.
pub open spec fn response_of_json(j: JsonNode) -> Option<ResponseV> {
    match j {
        JsonNode::Obj(m) => match (req_bool_field(m, "ok"@), opt_str_field(m, "description"@)) {
            (Some(ok), Some(description)) => Some(ResponseV { ok, description }),
            _ => None,
        },
        _ => None,
    }
}

/// The poll reply a JSON value decodes to, if any.
pub open spec fn updates_reply_of_json(j: JsonNode) -> Option<UpdatesReplyV> {
    match j {
        JsonNode::Obj(m) => match (
            req_bool_field(m, "ok"@),
            opt_updates_field(m, "result"@),
            opt_str_field(m, "description"@),
        ) {
            (Some(ok), Some(result), Some(description)) => Some(
                UpdatesReplyV { ok, result, description },
            ),
            _ => None,
        },
        _ => None,
    }
}

/// The error text a remote-reported failure surfaces: the remote description
/// when one was sent, a fixed fallback otherwise.
pub open spec fn described_error(d: Option<Seq<char>>) -> Seq<char> {
    match d {
        Some(t) => t,
        None => "Неизвестная ошибка"@,
    }
}

/// The update list a poll reply carries: absent means an empty list.
pub open spec fn updates_or_empty(o: Option<Seq<UpdateV>>) -> Seq<UpdateV> {
    match o {
        Some(s) => s,
        None => Seq::empty(),
    }
}

/// The error returned when no update carries a usable message.
pub open spec fn no_messages_text() -> Seq<char> {
    "Не найдено сообщений от бота. Напишите боту любое сообщение."@
}

// ---------------------------------------------------------------------------
// Verified field readers over the trusted accessors
// ---------------------------------------------------------------------------

fn get_req_i64(obj: &serde_json::Value, key: &str) -> (r: Option<i64>)
    ensures
        json_node(*obj) is Obj ==> r == req_i64_field(json_node(*obj)->Obj_0, key@),
        r is Some ==> json_node(*obj) is Obj,
{
    match json_get(obj, key) {
        Some(f) => json_as_i64(f),
        None => None,
    }
}

fn get_req_bool(obj: &serde_json::Value, key: &str) -> (r: Option<bool>)
    ensures
        json_node(*obj) is Obj ==> r == req_bool_field(json_node(*obj)->Obj_0, key@),
        r is Some ==> json_node(*obj) is Obj,
{
    match json_get(obj, key) {
        Some(f) => json_as_bool(f),
        None => None,
    }
}

fn get_req_str(obj: &serde_json::Value, key: &str) -> (r: Option<String>)
    ensures
        json_node(*obj) is Obj ==> match req_str_field(json_node(*obj)->Obj_0, key@) {
            Some(s) => r matches Some(t) && t@ == s,
            None => r is None,
        },
        r is Some ==> json_node(*obj) is Obj,
{
    match json_get(obj, key) {
        Some(f) => match json_as_str(f) {
            Some(s) => Some(s.to_owned()),
            None => None,
        },
        None => None,
    }
}

fn get_opt_str(obj: &serde_json::Value, key: &str) -> (r: Option<Option<String>>)
    requires
        json_node(*obj) is Obj,
    ensures
        match opt_str_field(json_node(*obj)->Obj_0, key@) {
            Some(os) => r matches Some(ro) && str_opt_view(ro) == os,
            None => r is None,
        },
{
    match json_get(obj, key) {
        None => Some(None),
        Some(f) => {
            if json_is_null(f) {
                Some(None)
            } else {
                match json_as_str(f) {
                    Some(s) => Some(Some(s.to_owned())),
                    None => None,
                }
            }
        },
    }
}

fn get_opt_i64(obj: &serde_json::Value, key: &str) -> (r: Option<Option<i64>>)
    requires
        json_node(*obj) is Obj,
    ensures
        r == opt_i64_field(json_node(*obj)->Obj_0, key@),
{
    match json_get(obj, key) {
        None => Some(None),
        Some(f) => {
            if json_is_null(f) {
                Some(None)
            } else {
                match json_as_i64(f) {
                    Some(i) => Some(Some(i)),
                    None => None,
                }
            }
        },
    }
}

// ---------------------------------------------------------------------------
// Verified decoders
// ---------------------------------------------------------------------------

/// Decode a voice attachment from a JSON value.
pub fn parse_voice(v: &serde_json::Value) -> (r: Option<TelegramVoice>)
    ensures
        match voice_of_json(json_node(*v)) {
            Some(w) => r matches Some(rv) && rv@ == w,
            None => r is None,
        },
{
    let file_id = match get_req_str(v, "file_id") {
        Some(s) => s,
        None => {
            return None;
        },
    };
    let duration = match get_opt_i64(v, "duration") {
        Some(d) => d,
        None => {
            return None;
        },
    };
    Some(TelegramVoice { file_id, duration })
}

/// Decode a chat descriptor from a JSON value.
pub fn parse_chat(v: &serde_json::Value) -> (r: Option<TelegramChat>)
    ensures
        match chat_of_json(json_node(*v)) {
            Some(c) => r matches Some(rc) && rc@ == c,
            None => r is None,
        },
{
    let id = match get_req_i64(v, "id") {
        Some(i) => i,
        None => {
            return None;
        },
    };
    let first_name = match get_opt_str(v, "first_name") {
        Some(s) => s,
        None => {
            return None;
        },
    };
    let last_name = match get_opt_str(v, "last_name") {
        Some(s) => s,
        None => {
            return None;
        },
    };
    let username = match get_opt_str(v, "username") {
        Some(s) => s,
        None => {
            return None;
        },
    };
    Some(TelegramChat { id, first_name, last_name, username })
}

/// Decode a message from a JSON value.
pub fn parse_message(v: &serde_json::Value) -> (r: Option<TelegramMessageData>)
    ensures
        match message_of_json(json_node(*v)) {
            Some(m) => r matches Some(rm) && rm@ == m,
            None => r is None,
        },
{
    let chat_v = match json_get(v, "chat") {
        Some(f) => f,
        None => {
            return None;
        },
    };
    let chat = match parse_chat(chat_v) {
        Some(c) => c,
        None => {
            return None;
        },
    };
    let text = match get_opt_str(v, "text") {
        Some(s) => s,
        None => {
            return None;
        },
    };
    let date = match get_opt_i64(v, "date") {
        Some(d) => d,
        None => {
            return None;
        },
    };
    let voice = match json_get(v, "voice") {
        None => None,
        Some(f) => {
            if json_is_null(f) {
                None
            } else {
                match parse_voice(f) {
                    Some(w) => Some(w),
                    None => {
                        return None;
                    },
                }
            }
        },
    };
    Some(TelegramMessageData { chat, text, date, voice })
}

/// Decode an update from a JSON value.
pub fn parse_update(v: &serde_json::Value) -> (r: Option<TelegramUpdate>)
    ensures
        match update_of_json(json_node(*v)) {
            Some(u) => r matches Some(ru) && ru@ == u,
            None => r is None,
        },
{
    let update_id = match get_req_i64(v, "update_id") {
        Some(i) => i,
        None => {
            return None;
        },
    };
    let message = match json_get(v, "message") {
        None => None,
        Some(f) => {
            if json_is_null(f) {
                None
            } else {
                match parse_message(f) {
                    Some(m) => Some(m),
                    None => {
                        return None;
                    },
                }
            }
        },
    };
    Some(TelegramUpdate { update_id, message })
}

fn decode_error() -> String {
    String::from_str("Ошибка парсинга ответа")
}

fn parse_error(detail: String) -> String {
    let mut e = String::from_str("Ошибка парсинга ответа: ");
    e.append(detail.as_str());
    e
}

/// Interpret an acknowledgement reply (sendMessage, sendDocument): `Ok(true)`
/// exactly when the remote `ok` flag is true; a remote-reported failure
/// surfaces its description, or a fixed fallback when none was sent; anything
/// that does not decode is an error.
pub fn interpret_send_response(body: &str) -> (r: Result<bool, String>)
    ensures
        match json_of_text(body@) {
            None => r is Err,
            Some(j) => match response_of_json(j) {
                None => r is Err,
                Some(a) => {
                    if a.ok {
                        r == Ok::<bool, String>(true)
                    } else {
                        r matches Err(e) && e@ == described_error(a.description)
                    }
                },
            },
        },
{
    let v = match parse_json(body) {
        Ok(v) => v,
        Err(detail) => {
            return Err(parse_error(detail));
        },
    };
    let ok = match get_req_bool(&v, "ok") {
        Some(b) => b,
        None => {
            return Err(decode_error());
        },
    };
    let description = match get_opt_str(&v, "description") {
        Some(d) => d,
        None => {
            return Err(decode_error());
        },
    };
    if ok {
        Ok(true)
    } else {
        match description {
            Some(d) => Err(d),
            None => Err(String::from_str("Неизвестная ошибка")),
        }
    }
}

/// Interpret a poll reply: the update list on success (absent means empty),
/// the remote description or the fallback on a remote-reported failure, and an
/// error on anything that does not decode.
#[verifier::loop_isolation(false)]
pub fn parse_updates_response(body: &str) -> (r: Result<Vec<TelegramUpdate>, String>)
    ensures
        match json_of_text(body@) {
            None => r is Err,
            Some(j) => match updates_reply_of_json(j) {
                None => r is Err,
                Some(t) => {
                    if t.ok {
                        r matches Ok(v) && updates_view(v@) == updates_or_empty(t.result)
                    } else {
                        r matches Err(e) && e@ == described_error(t.description)
                    }
                },
            },
        },
{
    let v = match parse_json(body) {
        Ok(v) => v,
        Err(detail) => {
            return Err(parse_error(detail));
        },
    };
    let ok = match get_req_bool(&v, "ok") {
        Some(b) => b,
        None => {
            return Err(decode_error());
        },
    };
    let description = match get_opt_str(&v, "description") {
        Some(d) => d,
        None => {
            return Err(decode_error());
        },
    };
    if !ok {
        return match description {
            Some(d) => Err(d),
            None => Err(String::from_str("Неизвестная ошибка")),
        };
    }
    match json_get(&v, "result") {
        None => {
            let out: Vec<TelegramUpdate> = Vec::new();
            proof {
                assert(updates_view(out@) =~= updates_or_empty(None));
            }
            Ok(out)
        },
        Some(f) => {
            if json_is_null(f) {
                let out: Vec<TelegramUpdate> = Vec::new();
                proof {
                    assert(updates_view(out@) =~= updates_or_empty(None));
                }
                Ok(out)
            } else {
                match json_as_array(f) {
                    None => Err(decode_error()),
                    Some(arr) => {
                        let ghost elems = nodes_of(arr@);
                        let mut out: Vec<TelegramUpdate> = Vec::new();
                        let mut i: usize = 0;
                        while i < arr.len()
                            invariant
                                i <= arr.len(),
                                elems == nodes_of(arr@),
                                elems.len() == arr@.len(),
                                out@.len() == i,
                                forall|j: int|
                                    0 <= j < i ==> (#[trigger] update_of_json(elems[j])) is Some,
                                forall|j: int|
                                    0 <= j < i ==> #[trigger] out@[j]@ == update_of_json(
                                        elems[j],
                                    )->Some_0,
                            decreases arr.len() - i,
                        {
                            assert(elems[i as int] == json_node(arr@[i as int]));
                            let u = match parse_update(&arr[i]) {
                                Some(u) => u,
                                None => {
                                    proof {
                                        assert(update_of_json(elems[i as int]) is None);
                                        assert(updates_of_json(elems) is None);
                                    }
                                    return Err(decode_error());
                                },
                            };
                            out.push(u);
                            i = i + 1;
                        }
                        proof {
                            assert(updates_of_json(elems) matches Some(us) && updates_view(out@)
                                =~= us);
                        }
                        Ok(out)
                    },
                }
            }
        },
    }
}

/// The chat id of the most recent update's message, rendered in decimal; an
/// error when the list is empty or its last update carries no message.
pub fn chat_id_of_latest(updates: &Vec<TelegramUpdate>) -> (r: Result<String, String>)
    ensures
        ({
            let us = updates_view(updates@);
            if us.len() > 0 && us.last().message is Some {
                r matches Ok(s) && s@ == int_dec(us.last().message->Some_0.chat.id as int)
            } else {
                r matches Err(e) && e@ == no_messages_text()
            }
        }),
{
    if updates.len() > 0 {
        let last = &updates[updates.len() - 1];
        match &last.message {
            Some(m) => {
                proof {
                    assert(updates_view(updates@).last() == updates@.last()@);
                }
                return Ok(i64_dec(m.chat.id));
            },
            None => {
                proof {
                    assert(updates_view(updates@).last() == updates@.last()@);
                }
            },
        }
    }
    Err(String::from_str("Не найдено сообщений от бота. Напишите боту любое сообщение."))
}

/// Interpret a chat-discovery reply: on a successful poll, the chat id of the
/// most recent update's message; the no-messages error when the list is empty
/// or its last update has no message; otherwise as a poll reply fails.
pub fn discover_chat_id(body: &str) -> (r: Result<String, String>)
    ensures
        match json_of_text(body@) {
            None => r is Err,
            Some(j) => match updates_reply_of_json(j) {
                None => r is Err,
                Some(t) => {
                    if t.ok {
                        ({
                            let us = updates_or_empty(t.result);
                            if us.len() > 0 && us.last().message is Some {
                                r matches Ok(s) && s@ == int_dec(
                                    us.last().message->Some_0.chat.id as int,
                                )
                            } else {
                                r matches Err(e) && e@ == no_messages_text()
                            }
                        })
                    } else {
                        r matches Err(e) && e@ == described_error(t.description)
                    }
                },
            },
        },
{
    let updates = match parse_updates_response(body) {
        Ok(u) => u,
        Err(e) => {
            return Err(e);
        },
    };
    chat_id_of_latest(&updates)
}

// ---------------------------------------------------------------------------
// Request builders
// ---------------------------------------------------------------------------

/// The URL of the sendMessage endpoint for a bot token.
pub fn send_message_url(token: &str) -> (r: String)
    ensures
        r@ == "https://api.telegram.org/bot"@ + token@ + "/sendMessage"@,
{
    let mut s = String::from_str("https://api.telegram.org/bot");
    s.append(token);
    s.append("/sendMessage");
    s
}

/// The URL of the bare getUpdates endpoint, used for chat-id discovery.
pub fn get_updates_url(token: &str) -> (r: String)
    ensures
        r@ == "https://api.telegram.org/bot"@ + token@ + "/getUpdates"@,
{
    let mut s = String::from_str("https://api.telegram.org/bot");
    s.append(token);
    s.append("/getUpdates");
    s
}

/// The URL of a getUpdates poll from an offset, with the short long-poll
/// timeout the journal uses.
pub fn poll_updates_url(token: &str, offset: i64) -> (r: String)
    ensures
        r@ == "https://api.telegram.org/bot"@ + token@ + "/getUpdates?offset="@ + int_dec(
            offset as int,
        ) + "&timeout=1"@,
{
    let mut s = String::from_str("https://api.telegram.org/bot");
    s.append(token);
    s.append("/getUpdates?offset=");
    let off = i64_dec(offset);
    s.append(off.as_str());
    s.append("&timeout=1");
    s
}

/// The URL that resolves a file identifier to its remote path.
pub fn get_file_url(token: &str, file_id: &str) -> (r: String)
    ensures
        r@ == "https://api.telegram.org/bot"@ + token@ + "/getFile?file_id="@ + file_id@,
{
    let mut s = String::from_str("https://api.telegram.org/bot");
    s.append(token);
    s.append("/getFile?file_id=");
    s.append(file_id);
    s
}

/// The URL a resolved file path is downloaded from.
pub fn file_download_url(token: &str, file_path: &str) -> (r: String)
    ensures
        r@ == "https://api.telegram.org/file/bot"@ + token@ + "/"@ + file_path@,
{
    let mut s = String::from_str("https://api.telegram.org/file/bot");
    s.append(token);
    s.append("/");
    s.append(file_path);
    s
}

/// The URL of the sendDocument endpoint for a bot token.
pub fn send_document_url(token: &str) -> (r: String)
    ensures
        r@ == "https://api.telegram.org/bot"@ + token@ + "/sendDocument"@,
{
    let mut s = String::from_str("https://api.telegram.org/bot");
    s.append(token);
    s.append("/sendDocument");
    s
}

/// The canned text sent to verify the Telegram connection.
pub fn test_connection_text() -> (r: String)
    ensures
        r@
            == "✅ <b>Ежедневник</b>\n\nПодключение к Telegram успешно! Теперь вы будете получать уведомления о записях."@,
{
    String::from_str(
        "✅ <b>Ежедневник</b>\n\nПодключение к Telegram успешно! Теперь вы будете получать уведомления о записях.",
    )
}

// ---------------------------------------------------------------------------
// getFile replies and voice-note naming
// ---------------------------------------------------------------------------

/// Whether the reply's `ok` field is present and literally true; the getFile
/// flow treats anything else, including a malformed reply, as a failure.
pub open spec fn ok_is_true(j: JsonNode) -> bool {
    j matches JsonNode::Obj(m) && m.dom().contains("ok"@) && m["ok"@] == JsonNode::Bool(true)
}

/// The remote path in `result.file_path`, when the reply carries one.
pub open spec fn file_path_of(j: JsonNode) -> Option<Seq<char>> {
    match j {
        JsonNode::Obj(m) => {
            if m.dom().contains("result"@) {
                match m["result"@] {
                    JsonNode::Obj(rm) => {
                        if rm.dom().contains("file_path"@) {
                            match rm["file_path"@] {
                                JsonNode::Str(p) => Some(p),
                                _ => None,
                            }
                        } else {
                            None
                        }
                    },
                    _ => None,
                }
            } else {
                None
            }
        },
        _ => None,
    }
}

/// The description a failed getFile reply surfaces: the `description` string
/// field when there is one, a fixed fallback otherwise.
pub open spec fn description_or_unknown(j: JsonNode) -> Seq<char> {
    match j {
        JsonNode::Obj(m) => {
            if m.dom().contains("description"@) {
                match m["description"@] {
                    JsonNode::Str(d) => d,
                    _ => "Неизвестная ошибка"@,
                }
            } else {
                "Неизвестная ошибка"@
            }
        },
        _ => "Неизвестная ошибка"@,
    }
}

/// Interpret the first getFile reply: the remote file path when the reply is
/// ok and carries one, the file-not-found error when it is ok without one, and
/// the remote description or the fallback otherwise.
pub fn file_path_of_response(body: &str) -> (r: Result<String, String>)
    ensures
        match json_of_text(body@) {
            None => r is Err,
            Some(j) => {
                if ok_is_true(j) {
                    match file_path_of(j) {
                        Some(p) => r matches Ok(s) && s@ == p,
                        None => r matches Err(e) && e@ == "Файл не найден"@,
                    }
                } else {
                    r matches Err(e) && e@ == description_or_unknown(j)
                }
            },
        },
{
    let v = match parse_json(body) {
        Ok(v) => v,
        Err(detail) => {
            return Err(parse_error(detail));
        },
    };
    let ok = match json_get(&v, "ok") {
        Some(f) => match json_as_bool(f) {
            Some(b) => b,
            None => false,
        },
        None => false,
    };
    if ok {
        match json_get(&v, "result") {
            Some(res) => match json_get(res, "file_path") {
                Some(fp) => match json_as_str(fp) {
                    Some(p) => Ok(p.to_owned()),
                    None => Err(String::from_str("Файл не найден")),
                },
                None => Err(String::from_str("Файл не найден")),
            },
            None => Err(String::from_str("Файл не найден")),
        }
    } else {
        match json_get(&v, "description") {
            Some(d) => match json_as_str(d) {
                Some(t) => Err(t.to_owned()),
                None => Err(String::from_str("Неизвестная ошибка")),
            },
            None => Err(String::from_str("Неизвестная ошибка")),
        }
    }
}

/// The file name a voice note is stored under: the journal-entry id with the
/// audio extension, so a repeated save of the same entry overwrites the file.
pub fn voice_file_name(entry_id: &str) -> (r: String)
    ensures
        r@ == entry_id@ + ".ogg"@,
{
    let mut s = String::from_str(entry_id);
    s.append(".ogg");
    s
}

/// The path of a voice note relative to the application data directory.
pub fn voice_relative_path(entry_id: &str) -> (r: String)
    ensures
        r@ == "voices/"@ + entry_id@ + ".ogg"@,
{
    let mut s = String::from_str("voices/");
    s.append(entry_id);
    s.append(".ogg");
    s
}

} // verus!
