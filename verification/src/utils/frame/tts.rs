//! Frames that the server sends about its speech.
use vstd::prelude::*;
use crate::utils::frame::{
    ScalarView, optional_text, text_equals, text_field, variant_name, variant_name_of, FieldView, JsonField,
};

verus! {

/// Where the server stands in speaking its answer.
#[derive(Clone, Copy, Debug, PartialEq, Eq, Structural)]
pub enum TtsState {
    Start,
    Stop,
    SentenceStart,
    SentenceEnd,
}

/// The name of a speech state on the wire.
pub open spec fn tts_state_name(s: TtsState) -> Seq<char> {
    match s {
        TtsState::Start => "start"@,
        TtsState::Stop => "stop"@,
        TtsState::SentenceStart => "sentence_start"@,
        TtsState::SentenceEnd => "sentence_end"@,
    }
}

/// The speech state that a name on the wire stands for, if any.
pub open spec fn tts_state_of(name: Seq<char>) -> Option<TtsState> {
    if name == "start"@ {
        Some(TtsState::Start)
    } else if name == "stop"@ {
        Some(TtsState::Stop)
    } else if name == "sentence_start"@ {
        Some(TtsState::SentenceStart)
    } else if name == "sentence_end"@ {
        Some(TtsState::SentenceEnd)
    } else {
        None
    }
}

impl TtsState {
    /// The name of the state on the wire.
    pub fn to_string(&self) -> (r: String)
        ensures
            r@ == tts_state_name(*self),
    {
        match self {
            TtsState::Start => String::from_str("start"),
            TtsState::Stop => String::from_str("stop"),
            TtsState::SentenceStart => String::from_str("sentence_start"),
            TtsState::SentenceEnd => String::from_str("sentence_end"),
        }
    }

    /// The state that a name on the wire stands for; names are matched exactly.
    pub fn from_name(name: &String) -> (r: Option<TtsState>)
        ensures
            r == tts_state_of(name@),
    {
        if text_equals(name, "start") {
            Some(TtsState::Start)
        } else if text_equals(name, "stop") {
            Some(TtsState::Stop)
        } else if text_equals(name, "sentence_start") {
            Some(TtsState::SentenceStart)
        } else if text_equals(name, "sentence_end") {
            Some(TtsState::SentenceEnd)
        } else {
            None
        }
    }
}

/// Every speech state is read back from its own name.
pub proof fn law_tts_state_names(s: TtsState)
    ensures
        tts_state_of(tts_state_name(s)) == Some(s),
{
    reveal_strlit("start");
    reveal_strlit("stop");
    reveal_strlit("sentence_start");
    reveal_strlit("sentence_end");
    assert("start"@.len() == 5);
    assert("stop"@.len() == 4);
    assert("sentence_start"@.len() == 14);
    assert("sentence_end"@.len() == 12);
}

/// A frame about the server's speech.
#[derive(Clone, Debug)]
pub struct TtsFrame {
    pub state: TtsState,
    pub text: Option<String>,
}

/// The contents of a speech frame.
pub struct TtsFrameView {
    pub state: TtsState,
    pub text: Option<Seq<char>>,
}

impl View for TtsFrame {
    type V = TtsFrameView;

    open spec fn view(&self) -> TtsFrameView {
        TtsFrameView {
            state: self.state,
            text: match self.text {
                Some(t) => Some(t@),
                None => None,
            },
        }
    }
}

/// The speech frame that the members `state` and `text` of a message make,
/// if they make one: `state` must name a state (as a string, or as an
/// object with that one key and a `null` value), `text` must be a string,
/// null or missing.
pub open spec fn tts_frame_of(state: FieldView, text: FieldView) -> Option<TtsFrameView> {
    match variant_name_of(state) {
        Some(name) => match (tts_state_of(name), text_field(text)) {
            (Some(st), Some(t)) => Some(TtsFrameView { state: st, text: t }),
            _ => None,
        },
        None => None,
    }
}

/// A speech frame is read from its state's name, written as a string or as
/// an object with that one key and a `null` value, with a text that is
/// missing, null or a string; every state reads back, each as itself.
pub proof fn law_tts_frame_reads_back(s: TtsState, t: Seq<char>)
    ensures
        tts_frame_of(FieldView::Value(ScalarView::Str(tts_state_name(s))), FieldView::Absent)
            == Some(TtsFrameView { state: s, text: None }),
        tts_frame_of(
            FieldView::Value(ScalarView::Str(tts_state_name(s))),
            FieldView::Value(ScalarView::Null),
        ) == Some(TtsFrameView { state: s, text: None }),
        tts_frame_of(
            FieldView::Value(ScalarView::Str(tts_state_name(s))),
            FieldView::Value(ScalarView::Str(t)),
        ) == Some(TtsFrameView { state: s, text: Some(t) }),
        tts_frame_of(
            FieldView::Object(seq![(tts_state_name(s), ScalarView::Null)]),
            FieldView::Value(ScalarView::Str(t)),
        ) == Some(TtsFrameView { state: s, text: Some(t) }),
        tts_frame_of(FieldView::Value(ScalarView::Str(tts_state_name(s))), FieldView::Value(ScalarView::Number))
            is None,
{
    law_tts_state_names(s);
}

impl TtsFrame {
    /// Reads a speech frame from the members `state` and `text` of a message.
    pub fn from_fields(state: &JsonField, text: &JsonField) -> (r: Option<TtsFrame>)
        ensures
            r matches Some(f) ==> tts_frame_of(state@, text@) == Some(f@),
            r is None ==> tts_frame_of(state@, text@) is None,
    {
        let st = match variant_name(state) {
            Some(name) => TtsState::from_name(&name),
            None => None,
        };
        let st = match st {
            Some(st) => st,
            None => {
                return None;
            },
        };
        match optional_text(text) {
            Ok(t) => Some(TtsFrame { state: st, text: t }),
            Err(()) => None,
        }
    }
}

} // verus!
