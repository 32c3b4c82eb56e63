//! Frames about listening to the user.
use vstd::prelude::*;
use crate::utils::frame::{
    ScalarView, is_none_field, optional_text, text_equals, text_field, variant_name, variant_name_of, FieldView,
    JsonField, JsonScalar,
};

verus! {

/// How the server decides when the user has finished speaking.
#[derive(Clone, Copy, Debug, PartialEq, Eq, Structural)]
pub enum ListenMode {
    Auto,
    Manual,
    RealTime,
}

/// Where listening stands.
#[derive(Clone, Copy, Debug, PartialEq, Eq, Structural)]
pub enum ListenState {
    Start,
    Stop,
    Detect,
}

/// The name of a listening mode on the wire.
pub open spec fn listen_mode_name(m: ListenMode) -> Seq<char> {
    match m {
        ListenMode::Auto => "auto"@,
        ListenMode::Manual => "manual"@,
        ListenMode::RealTime => "realtime"@,
    }
}

/// The listening mode that a name on the wire stands for, if any.
pub open spec fn listen_mode_of(name: Seq<char>) -> Option<ListenMode> {
    if name == "auto"@ {
        Some(ListenMode::Auto)
    } else if name == "manual"@ {
        Some(ListenMode::Manual)
    } else if name == "realtime"@ {
        Some(ListenMode::RealTime)
    } else {
        None
    }
}

/// The name of a listening state on the wire.
pub open spec fn listen_state_name(s: ListenState) -> Seq<char> {
    match s {
        ListenState::Start => "start"@,
        ListenState::Stop => "stop"@,
        ListenState::Detect => "detect"@,
    }
}

/// The listening state that a name on the wire stands for, if any.
pub open spec fn listen_state_of(name: Seq<char>) -> Option<ListenState> {
    if name == "start"@ {
        Some(ListenState::Start)
    } else if name == "stop"@ {
        Some(ListenState::Stop)
    } else if name == "detect"@ {
        Some(ListenState::Detect)
    } else {
        None
    }
}

impl ListenMode {
    /// The name of the mode on the wire.
    pub fn to_string(&self) -> (r: String)
        ensures
            r@ == listen_mode_name(*self),
    {
        match self {
            ListenMode::Auto => String::from_str("auto"),
            ListenMode::Manual => String::from_str("manual"),
            ListenMode::RealTime => String::from_str("realtime"),
        }
    }

    /// The mode that a name on the wire stands for; names are matched exactly.
    pub fn from_name(name: &String) -> (r: Option<ListenMode>)
        ensures
            r == listen_mode_of(name@),
    {
        if text_equals(name, "auto") {
            Some(ListenMode::Auto)
        } else if text_equals(name, "manual") {
            Some(ListenMode::Manual)
        } else if text_equals(name, "realtime") {
            Some(ListenMode::RealTime)
        } else {
            None
        }
    }
}

impl ListenState {
    /// The state that a name on the wire stands for; names are matched exactly.
    pub fn from_name(name: &String) -> (r: Option<ListenState>)
        ensures
            r == listen_state_of(name@),
    {
        if text_equals(name, "start") {
            Some(ListenState::Start)
        } else if text_equals(name, "stop") {
            Some(ListenState::Stop)
        } else if text_equals(name, "detect") {
            Some(ListenState::Detect)
        } else {
            None
        }
    }
}

/// Every listening mode and state is read back from its own name.
pub proof fn law_listen_names(m: ListenMode, s: ListenState)
    ensures
        listen_mode_of(listen_mode_name(m)) == Some(m),
        listen_state_of(listen_state_name(s)) == Some(s),
{
    reveal_strlit("auto");
    reveal_strlit("manual");
    reveal_strlit("realtime");
    reveal_strlit("start");
    reveal_strlit("stop");
    reveal_strlit("detect");
    assert("auto"@.len() == 4);
    assert("manual"@.len() == 6);
    assert("realtime"@.len() == 8);
    assert("start"@.len() == 5);
    assert("stop"@.len() == 4);
    assert("detect"@.len() == 6);
}

/// A frame about listening.
#[derive(Clone, Debug)]
pub struct ListenFrame {
    pub state: ListenState,
    pub mode: Option<ListenMode>,
    pub text: Option<String>,
}

/// The contents of a listening frame.
pub struct ListenFrameView {
    pub state: ListenState,
    pub mode: Option<ListenMode>,
    pub text: Option<Seq<char>>,
}

impl View for ListenFrame {
    type V = ListenFrameView;

    open spec fn view(&self) -> ListenFrameView {
        ListenFrameView {
            state: self.state,
            mode: self.mode,
            text: match self.text {
                Some(t) => Some(t@),
                None => None,
            },
        }
    }
}

/// The mode that the member `mode` gives: missing or null gives none; else
/// it must name a mode (as a string, or as an object with that one key and a
/// `null` value); anything else is not accepted (outer `None`).
pub open spec fn mode_field(f: FieldView) -> Option<Option<ListenMode>> {
    if is_none_field(f) {
        Some(None)
    } else {
        match variant_name_of(f) {
            Some(name) => match listen_mode_of(name) {
                Some(m) => Some(Some(m)),
                None => None,
            },
            None => None,
        }
    }
}

/// The listening frame that the members `state`, `mode` and `text` of a
/// message make, if they make one.
pub open spec fn listen_frame_of(state: FieldView, mode: FieldView, text: FieldView) -> Option<
    ListenFrameView,
> {
    match variant_name_of(state) {
        Some(name) => match (listen_state_of(name), mode_field(mode), text_field(text)) {
            (Some(st), Some(m), Some(t)) => Some(ListenFrameView { state: st, mode: m, text: t }),
            _ => None,
        },
        None => None,
    }
}

/// A listening frame is read from its state's name with a mode that is
/// missing or named and a text that is missing or a string; every state and
/// mode reads back, each as itself.
pub proof fn law_listen_frame_reads_back(s: ListenState, m: ListenMode, t: Seq<char>)
    ensures
        listen_frame_of(
            FieldView::Value(ScalarView::Str(listen_state_name(s))),
            FieldView::Absent,
            FieldView::Absent,
        ) == Some(ListenFrameView { state: s, mode: None, text: None }),
        listen_frame_of(
            FieldView::Value(ScalarView::Str(listen_state_name(s))),
            FieldView::Value(ScalarView::Null),
            FieldView::Value(ScalarView::Str(t)),
        ) == Some(ListenFrameView { state: s, mode: None, text: Some(t) }),
        listen_frame_of(
            FieldView::Value(ScalarView::Str(listen_state_name(s))),
            FieldView::Value(ScalarView::Str(listen_mode_name(m))),
            FieldView::Absent,
        ) == Some(ListenFrameView { state: s, mode: Some(m), text: None }),
        listen_frame_of(
            FieldView::Value(ScalarView::Str(listen_state_name(s))),
            FieldView::Value(ScalarView::Str(listen_mode_name(m))),
            FieldView::Value(ScalarView::Str(t)),
        ) == Some(ListenFrameView { state: s, mode: Some(m), text: Some(t) }),
        listen_frame_of(
            FieldView::Object(seq![(listen_state_name(s), ScalarView::Null)]),
            FieldView::Object(seq![(listen_mode_name(m), ScalarView::Null)]),
            FieldView::Absent,
        ) == Some(ListenFrameView { state: s, mode: Some(m), text: None }),
{
    law_listen_names(m, s);
}

impl ListenFrame {
    /// Reads a listening frame from the members `state`, `mode` and `text` of
    /// a message.
    pub fn from_fields(state: &JsonField, mode: &JsonField, text: &JsonField) -> (r: Option<
        ListenFrame,
    >)
        ensures
            r matches Some(f) ==> listen_frame_of(state@, mode@, text@) == Some(f@),
            r is None ==> listen_frame_of(state@, mode@, text@) is None,
    {
        let st = match variant_name(state) {
            Some(name) => ListenState::from_name(&name),
            None => None,
        };
        let st = match st {
            Some(st) => st,
            None => {
                return None;
            },
        };
        let m = match mode {
            JsonField::Absent => None,
            JsonField::Value(JsonScalar::Null) => None,
            _ => match variant_name(mode) {
                Some(name) => match ListenMode::from_name(&name) {
                    Some(m) => Some(m),
                    None => {
                        return None;
                    },
                },
                None => {
                    return None;
                },
            },
        };
        match optional_text(text) {
            Ok(t) => Some(ListenFrame { state: st, mode: m, text: t }),
            Err(()) => None,
        }
    }
}

} // verus!
