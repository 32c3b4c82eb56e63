//! Control frames that the server sends as JSON text.
//!
//! serde_json parses the text; the frames are read from the members of the
//! message.
use serde_json::Value;
use vstd::prelude::*;
use vstd::std_specs::convert::FromSpecImpl;
use crate::utils::frame::listen::{
    law_listen_frame_reads_back, ListenMode, listen_frame_of, listen_mode_name, listen_state_name, ListenFrame,
    ListenFrameView,
};
use crate::utils::frame::tts::{law_tts_frame_reads_back, tts_frame_of, tts_state_name, TtsFrame, TtsFrameView};

pub mod listen;
pub mod tts;

verus! {

/// A JSON value inside a member: its kind, with the text of a string and the
/// truth of a boolean.
#[derive(Clone, Debug)]
pub enum JsonScalar {
    Null,
    Bool(bool),
    Number,
    Str(String),
    Array,
    Object,
}

/// The contents of a value inside a member.
pub enum ScalarView {
    Null,
    Bool(bool),
    Number,
    Str(Seq<char>),
    Array,
    Object,
}

impl View for JsonScalar {
    type V = ScalarView;

    open spec fn view(&self) -> ScalarView {
        match self {
            JsonScalar::Null => ScalarView::Null,
            JsonScalar::Bool(b) => ScalarView::Bool(*b),
            JsonScalar::Number => ScalarView::Number,
            JsonScalar::Str(s) => ScalarView::Str(s@),
            JsonScalar::Array => ScalarView::Array,
            JsonScalar::Object => ScalarView::Object,
        }
    }
}

/// A member of a JSON object, as far as frames read it.
#[derive(Clone, Debug)]
pub enum JsonField {
    /// The object has no such member.
    Absent,
    /// The member is not an object.
    Value(JsonScalar),
    /// The member is an object: its keys, each with its value.
    Object(Vec<(String, JsonScalar)>),
}

/// The contents of a member.
pub enum FieldView {
    Absent,
    Value(ScalarView),
    Object(Seq<(Seq<char>, ScalarView)>),
}

/// The contents of the entries of an object member.
pub open spec fn entries_view(entries: Seq<(String, JsonScalar)>) -> Seq<(Seq<char>, ScalarView)> {
    entries.map_values(|e: (String, JsonScalar)| (e.0@, e.1@))
}

impl View for JsonField {
    type V = FieldView;

    open spec fn view(&self) -> FieldView {
        match self {
            JsonField::Absent => FieldView::Absent,
            JsonField::Value(v) => FieldView::Value(v@),
            JsonField::Object(entries) => FieldView::Object(entries_view(entries@)),
        }
    }
}

/// The text of a string member.
pub open spec fn string_of(f: FieldView) -> Option<Seq<char>> {
    match f {
        FieldView::Value(ScalarView::Str(s)) => Some(s),
        _ => None,
    }
}

/// The variant that a member names, as an enumeration is written in JSON:
/// a string, or an object with one key whose value is `null`.
pub open spec fn variant_name_of(f: FieldView) -> Option<Seq<char>> {
    match f {
        FieldView::Value(ScalarView::Str(s)) => Some(s),
        FieldView::Object(entries) => if entries.len() == 1 && entries[0].1 == ScalarView::Null {
            Some(entries[0].0)
        } else {
            None
        },
        _ => None,
    }
}

/// The texts of an optional text.
pub open spec fn text_view(t: Option<String>) -> Option<Seq<char>> {
    match t {
        Some(s) => Some(s@),
        None => None,
    }
}

/// The variant that a member names, if it names one.
pub fn variant_name(f: &JsonField) -> (r: Option<String>)
    ensures
        text_view(r) == variant_name_of(f@),
{
    match f {
        JsonField::Value(JsonScalar::Str(s)) => Some(s.clone()),
        JsonField::Object(entries) => {
            if entries.len() == 1 {
                match &entries[0].1 {
                    JsonScalar::Null => Some(entries[0].0.clone()),
                    _ => None,
                }
            } else {
                None
            }
        },
        _ => None,
    }
}

/// Whether a member is missing or `null`, which an optional member reads as none.
pub open spec fn is_none_field(f: FieldView) -> bool {
    f == FieldView::Absent || f == FieldView::Value(ScalarView::Null)
}

/// The text that an optional string member gives: missing or null gives
/// none; anything but a string is not accepted (outer `None`).
pub open spec fn text_field(f: FieldView) -> Option<Option<Seq<char>>> {
    if is_none_field(f) {
        Some(None)
    } else {
        match string_of(f) {
            Some(s) => Some(Some(s)),
            None => None,
        }
    }
}

/// Reads an optional string member: `Ok(None)` when missing or null,
/// `Err(())` when it is not a string.
pub fn optional_text(f: &JsonField) -> (r: Result<Option<String>, ()>)
    ensures
        r matches Ok(t) ==> text_field(f@) == Some(text_view(t)),
        r is Err ==> text_field(f@) is None,
{
    match f {
        JsonField::Absent => Ok(None),
        JsonField::Value(JsonScalar::Null) => Ok(None),
        JsonField::Value(JsonScalar::Str(t)) => Ok(Some(t.clone())),
        _ => Err(()),
    }
}

/// Whether a text equals a literal.
pub fn text_equals(text: &String, lit: &str) -> (r: bool)
    ensures
        r == (text@ == lit@),
{
    *text == String::from_str(lit)
}

/// Whether a member is the string `lit`.
pub fn field_is(f: &JsonField, lit: &str) -> (r: bool)
    ensures
        r == (string_of(f@) == Some(lit@)),
{
    match f {
        JsonField::Value(JsonScalar::Str(t)) => text_equals(t, lit),
        _ => false,
    }
}

/// The members of a message from the server that frames are made of.
#[derive(Clone, Debug)]
pub struct MessageFields {
    /// The member `type`.
    pub kind: JsonField,
    /// The member `session_id`.
    pub session_id: JsonField,
    /// The member `state`.
    pub state: JsonField,
    /// The member `mode`.
    pub mode: JsonField,
    /// The member `text`.
    pub text: JsonField,
}

/// The contents of a message.
pub struct MessageView {
    pub kind: FieldView,
    pub session_id: FieldView,
    pub state: FieldView,
    pub mode: FieldView,
    pub text: FieldView,
}

impl View for MessageFields {
    type V = MessageView;

    open spec fn view(&self) -> MessageView {
        MessageView {
            kind: self.kind@,
            session_id: self.session_id@,
            state: self.state@,
            mode: self.mode@,
            text: self.text@,
        }
    }
}

/// What serde_json gives for the member `key` of the JSON text `text`, or
/// nothing when the text is not JSON.
pub uninterp spec fn json_member(text: Seq<char>, key: Seq<char>) -> Option<FieldView>;

/// Parses `text` with `serde_json::from_str` into a `serde_json::Value` and
/// looks up the member `key` with `Value::get`; the member is converted kind
/// for kind (an object entry by entry, each entry's value by its kind). The
/// contract claims that the result is a function of the text and the key
/// (`json_member`) and nothing about which; it gives nothing for a text that
/// is not JSON.
#[verifier::external_body]
fn member(text: &str, key: &str) -> (r: Option<JsonField>)
    ensures
        r matches Some(f) ==> json_member(text@, key@) == Some(f@),
        r is None ==> json_member(text@, key@) is None,
{
    let v: Value = serde_json::from_str(text).ok()?;
    let kind = |e: &Value| match e {
        Value::Null => JsonScalar::Null,
        Value::Bool(b) => JsonScalar::Bool(*b),
        Value::Number(_) => JsonScalar::Number,
        Value::String(s) => JsonScalar::Str(s.clone()),
        Value::Array(_) => JsonScalar::Array,
        Value::Object(_) => JsonScalar::Object,
    };
    Some(match v.get(key) {
        None => JsonField::Absent,
        Some(Value::Object(m)) => JsonField::Object(m.iter().map(|(k, e)| (k.clone(), kind(e))).collect()),
        Some(e) => JsonField::Value(kind(e)),
    })
}

/// The members of a text message that frames are made of, or nothing when
/// the text is not JSON.
pub open spec fn parsed_message(text: Seq<char>) -> Option<MessageView> {
    match (
        json_member(text, "type"@),
        json_member(text, "session_id"@),
        json_member(text, "state"@),
        json_member(text, "mode"@),
        json_member(text, "text"@),
    ) {
        (Some(kind), Some(session_id), Some(state), Some(mode), Some(t)) => Some(
            MessageView { kind, session_id, state, mode, text: t },
        ),
        _ => None,
    }
}

/// Reads the members `type`, `session_id`, `state`, `mode` and `text` of a
/// text message from the server.
pub fn parse_message(text: &str) -> (r: Option<MessageFields>)
    ensures
        r matches Some(m) ==> parsed_message(text@) == Some(m@),
        r is None ==> parsed_message(text@) is None,
{
    let kind = match member(text, "type") {
        Some(f) => f,
        None => {
            return None;
        },
    };
    let session_id = match member(text, "session_id") {
        Some(f) => f,
        None => {
            return None;
        },
    };
    let state = match member(text, "state") {
        Some(f) => f,
        None => {
            return None;
        },
    };
    let mode = match member(text, "mode") {
        Some(f) => f,
        None => {
            return None;
        },
    };
    let t = match member(text, "text") {
        Some(f) => f,
        None => {
            return None;
        },
    };
    Some(MessageFields { kind, session_id, state, mode, text: t })
}

/// A control frame from the server.
#[derive(Clone, Debug)]
pub enum Frame {
    ListenFrame(ListenFrame),
    TtsFrame(TtsFrame),
    /// A message of no known type, or one whose members make no frame.
    Error,
}

/// The contents of a frame.
pub enum FrameView {
    ListenFrame(ListenFrameView),
    TtsFrame(TtsFrameView),
    Error,
}

impl View for Frame {
    type V = FrameView;

    open spec fn view(&self) -> FrameView {
        match self {
            Frame::ListenFrame(f) => FrameView::ListenFrame(f@),
            Frame::TtsFrame(f) => FrameView::TtsFrame(f@),
            Frame::Error => FrameView::Error,
        }
    }
}

/// The type that a message names: its member `type` when that is a string,
/// else the empty text.
pub open spec fn message_type(m: MessageView) -> Seq<char> {
    match string_of(m.kind) {
        Some(t) => t,
        None => Seq::empty(),
    }
}

/// The frame a message makes: `listen` and `tts` messages make frames of
/// their kind when their members allow; everything else is an error frame.
pub open spec fn frame_of(m: MessageView) -> FrameView {
    if message_type(m) == "listen"@ {
        match listen_frame_of(m.state, m.mode, m.text) {
            Some(f) => FrameView::ListenFrame(f),
            None => FrameView::Error,
        }
    } else if message_type(m) == "tts"@ {
        match tts_frame_of(m.state, m.text) {
            Some(f) => FrameView::TtsFrame(f),
            None => FrameView::Error,
        }
    } else {
        FrameView::Error
    }
}

impl Frame {
    /// Reads the frame that a message from the server makes.
    pub fn from_message(m: &MessageFields) -> (r: Frame)
        ensures
            r@ == frame_of(m@),
    {
        let kind = match &m.kind {
            JsonField::Value(JsonScalar::Str(t)) => t.clone(),
            _ => String::new(),
        };
        if text_equals(&kind, "listen") {
            match ListenFrame::from_fields(&m.state, &m.mode, &m.text) {
                Some(f) => Frame::ListenFrame(f),
                None => Frame::Error,
            }
        } else if text_equals(&kind, "tts") {
            match TtsFrame::from_fields(&m.state, &m.text) {
                Some(f) => Frame::TtsFrame(f),
                None => Frame::Error,
            }
        } else {
            Frame::Error
        }
    }
}

impl From<ListenFrame> for Frame {
    /// Wraps a listening frame.
    fn from(listen_frame: ListenFrame) -> (r: Frame) {
        Frame::ListenFrame(listen_frame)
    }
}

impl FromSpecImpl<ListenFrame> for Frame {
    open spec fn obeys_from_spec() -> bool {
        true
    }

    open spec fn from_spec(listen_frame: ListenFrame) -> Frame {
        Frame::ListenFrame(listen_frame)
    }
}

/// The member that carries an optional text: a string, or missing.
pub open spec fn optional_text_field(t: Option<Seq<char>>) -> FieldView {
    match t {
        Some(t) => FieldView::Value(ScalarView::Str(t)),
        None => FieldView::Absent,
    }
}

/// The message that the server sends for a speech frame.
pub open spec fn tts_message(f: TtsFrameView) -> MessageView {
    MessageView {
        kind: FieldView::Value(ScalarView::Str("tts"@)),
        session_id: FieldView::Absent,
        state: FieldView::Value(ScalarView::Str(tts_state_name(f.state))),
        mode: FieldView::Absent,
        text: optional_text_field(f.text),
    }
}

/// The message that the server sends for a listening frame.
pub open spec fn listen_message(f: ListenFrameView) -> MessageView {
    MessageView {
        kind: FieldView::Value(ScalarView::Str("listen"@)),
        session_id: FieldView::Absent,
        state: FieldView::Value(ScalarView::Str(listen_state_name(f.state))),
        mode: match f.mode {
            Some(m) => FieldView::Value(ScalarView::Str(listen_mode_name(m))),
            None => FieldView::Absent,
        },
        text: optional_text_field(f.text),
    }
}

/// Every frame is read back from the message that carries it: each speech
/// state, each listening state and mode, with or without text.
pub proof fn law_frames_read_back(t: TtsFrameView, l: ListenFrameView)
    ensures
        frame_of(tts_message(t)) == FrameView::TtsFrame(t),
        frame_of(listen_message(l)) == FrameView::ListenFrame(l),
{
    reveal_strlit("tts");
    reveal_strlit("listen");
    assert("tts"@.len() == 3);
    assert("listen"@.len() == 6);
    law_tts_frame_reads_back(t.state, match t.text {
        Some(x) => x,
        None => Seq::empty(),
    });
    match l.mode {
        Some(m) => law_listen_frame_reads_back(l.state, m, match l.text {
            Some(x) => x,
            None => Seq::empty(),
        }),
        None => law_listen_frame_reads_back(l.state, ListenMode::Auto, match l.text {
            Some(x) => x,
            None => Seq::empty(),
        }),
    }
}

/// A state or mode written as an object with one key whose value is `null`
/// reads like the key written as a string.
pub proof fn law_variant_as_object(m: MessageView, name: Seq<char>)
    ensures
        frame_of(MessageView { state: FieldView::Object(seq![(name, ScalarView::Null)]), ..m })
            == frame_of(MessageView { state: FieldView::Value(ScalarView::Str(name)), ..m }),
        frame_of(MessageView { mode: FieldView::Object(seq![(name, ScalarView::Null)]), ..m })
            == frame_of(MessageView { mode: FieldView::Value(ScalarView::Str(name)), ..m }),
{
}

/// Only a string, or an object of exactly one key whose value is `null`,
/// names a variant: an object with another value, with no key or with more
/// keys names none, nor does any other kind of value.
pub proof fn law_variant_names(name: Seq<char>, v: ScalarView, entries: Seq<(Seq<char>, ScalarView)>)
    ensures
        variant_name_of(FieldView::Value(ScalarView::Str(name))) == Some(name),
        variant_name_of(FieldView::Object(seq![(name, ScalarView::Null)])) == Some(name),
        v != ScalarView::Null ==> variant_name_of(FieldView::Object(seq![(name, v)])) is None,
        entries.len() != 1 ==> variant_name_of(FieldView::Object(entries)) is None,
        !(v is Str) ==> variant_name_of(FieldView::Value(v)) is None,
        variant_name_of(FieldView::Absent) is None,
{
}

/// A message of any other type makes an error frame, and so does a message
/// whose type is not a string.
pub proof fn law_unknown_type_is_error(m: MessageView)
    ensures
        message_type(m) != "tts"@ && message_type(m) != "listen"@ ==> frame_of(m)
            == FrameView::Error,
        string_of(m.kind) is None ==> frame_of(m) == FrameView::Error,
{
    reveal_strlit("tts");
    reveal_strlit("listen");
    assert("tts"@.len() == 3);
    assert("listen"@.len() == 6);
}

} // verus!
