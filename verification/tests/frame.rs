use audio_chat::audio::controller::{Controller, ControllerAction};
use audio_chat::utils::frame::listen::{ListenFrame, ListenMode, ListenState};
use audio_chat::utils::frame::tts::{TtsFrame, TtsState};
use audio_chat::utils::frame::{
    parse_message, variant_name, Frame, JsonField, JsonScalar, MessageFields,
};

fn message(json: &str) -> MessageFields {
    parse_message(json).unwrap()
}

#[test]
fn listen_f() {
    let json = r#"
    {
        "session_id": "<会话ID>",
        "type": "listen",
        "state": "start",
        "mode": "auto"
    }
    "#;
    let m = message(json);
    let frame = ListenFrame::from_fields(&m.state, &m.mode, &m.text).unwrap();
    println!("{:#?}", frame);
    assert_eq!(frame.state, ListenState::Start);
    assert_eq!(frame.mode, Some(ListenMode::Auto));
    assert_eq!(frame.text, None);
}

#[test]
fn tts_f() {
    let json = r#"
    {
    "type": "tts",
    "state": "sentence_start",
    "text": "<文本内容>"
    }
    "#;
    let m = message(json);
    let frame = TtsFrame::from_fields(&m.state, &m.text).unwrap();
    println!("{:#?}", frame);
    assert_eq!(frame.state, TtsState::SentenceStart);
    assert_eq!(frame.text.as_deref(), Some("<文本内容>"));
}

#[test]
fn tts_state_names() {
    assert_eq!(TtsState::Start.to_string(), "start");
    assert_eq!(TtsState::Stop.to_string(), "stop");
    assert_eq!(TtsState::SentenceStart.to_string(), "sentence_start");
    assert_eq!(TtsState::SentenceEnd.to_string(), "sentence_end");
    for s in [TtsState::Start, TtsState::Stop, TtsState::SentenceStart, TtsState::SentenceEnd] {
        assert_eq!(TtsState::from_name(&s.to_string()), Some(s));
    }
    assert_eq!(TtsState::from_name(&"Start".to_string()), None);
}

#[test]
fn listen_mode_names() {
    assert_eq!(ListenMode::Auto.to_string(), "auto");
    assert_eq!(ListenMode::Manual.to_string(), "manual");
    assert_eq!(ListenMode::RealTime.to_string(), "realtime");
    for m in [ListenMode::Auto, ListenMode::Manual, ListenMode::RealTime] {
        assert_eq!(ListenMode::from_name(&m.to_string()), Some(m));
    }
    assert_eq!(ListenMode::from_name(&"real_time".to_string()), None);
    assert_eq!(ListenState::from_name(&"detect".to_string()), Some(ListenState::Detect));
}

#[test]
fn frame_from_tts_message() {
    let m = message(r#"{"type":"tts","state":"start","text":"你好"}"#);
    match Frame::from_message(&m) {
        Frame::TtsFrame(f) => {
            assert_eq!(f.state, TtsState::Start);
            assert_eq!(f.text.as_deref(), Some("你好"));
        }
        other => panic!("unexpected {:?}", other),
    }
}

#[test]
fn frame_from_listen_message_with_null_mode() {
    let m = message(r#"{"type":"listen","state":"detect","mode":null,"text":"hi"}"#);
    match Frame::from_message(&m) {
        Frame::ListenFrame(f) => {
            assert_eq!(f.state, ListenState::Detect);
            assert_eq!(f.mode, None);
            assert_eq!(f.text.as_deref(), Some("hi"));
        }
        other => panic!("unexpected {:?}", other),
    }
}

#[test]
fn frame_errors() {
    // unknown type
    assert!(matches!(Frame::from_message(&message(r#"{"type":"hello"}"#)), Frame::Error));
    // type not a string
    assert!(matches!(Frame::from_message(&message(r#"{"type":3,"state":"start"}"#)), Frame::Error));
    // missing state
    assert!(matches!(Frame::from_message(&message(r#"{"type":"tts"}"#)), Frame::Error));
    // unknown state
    assert!(matches!(
        Frame::from_message(&message(r#"{"type":"tts","state":"begin"}"#)),
        Frame::Error
    ));
    // text of the wrong kind
    assert!(matches!(
        Frame::from_message(&message(r#"{"type":"tts","state":"stop","text":5}"#)),
        Frame::Error
    ));
    // unknown mode
    assert!(matches!(
        Frame::from_message(&message(r#"{"type":"listen","state":"start","mode":"push"}"#)),
        Frame::Error
    ));
}

#[test]
fn frame_from_listen_frame() {
    let f = ListenFrame { state: ListenState::Stop, mode: None, text: None };
    assert!(matches!(Frame::from(f), Frame::ListenFrame(ListenFrame { state: ListenState::Stop, .. })));
}

#[test]
fn controller_actions() {
    let tts = |state, text: Option<&str>| {
        Frame::TtsFrame(TtsFrame { state, text: text.map(|t| t.to_string()) })
    };
    match Controller::handle_frame(&tts(TtsState::Start, Some("abc"))) {
        ControllerAction::ShowText(t) => assert_eq!(t, "abc"),
        other => panic!("unexpected {:?}", other),
    }
    assert!(matches!(Controller::handle_frame(&tts(TtsState::Start, None)), ControllerAction::MissingText));
    assert!(matches!(Controller::handle_frame(&tts(TtsState::Stop, None)), ControllerAction::Ignore));
    assert!(matches!(
        Controller::handle_frame(&tts(TtsState::SentenceStart, Some("x"))),
        ControllerAction::RestartSession
    ));
    assert!(matches!(
        Controller::handle_frame(&tts(TtsState::SentenceEnd, None)),
        ControllerAction::SentenceEnd
    ));
    assert!(matches!(Controller::handle_frame(&Frame::Error), ControllerAction::Ignore));
}

#[test]
fn controller_start_close() {
    let mut c = Controller::new();
    assert!(c.stopped());
    assert!(!c.close());
    assert!(c.start());
    assert!(!c.start());
    assert!(!c.stopped());
    assert!(c.close());
    assert!(c.stopped());
}

#[test]
fn enum_written_as_object() {
    // a one-key object whose value is null names the variant, as serde reads it
    let m = message(r#"{"type":"tts","state":{"start":null},"text":"go"}"#);
    match Frame::from_message(&m) {
        Frame::TtsFrame(f) => {
            assert_eq!(f.state, TtsState::Start);
            assert_eq!(f.text.as_deref(), Some("go"));
        }
        other => panic!("unexpected {:?}", other),
    }
    let m = message(r#"{"type":"listen","state":{"detect":null},"mode":{"manual":null}}"#);
    match Frame::from_message(&m) {
        Frame::ListenFrame(f) => {
            assert_eq!(f.state, ListenState::Detect);
            assert_eq!(f.mode, Some(ListenMode::Manual));
        }
        other => panic!("unexpected {:?}", other),
    }
    // a value other than null, two keys, no key: no frame
    for json in [
        r#"{"type":"tts","state":{"start":1}}"#,
        r#"{"type":"tts","state":{"start":null,"stop":null}}"#,
        r#"{"type":"tts","state":{}}"#,
        r#"{"type":"tts","state":{"begin":null}}"#,
        r#"{"type":"listen","state":"start","mode":{"auto":[]}}"#,
    ] {
        assert!(matches!(Frame::from_message(&message(json)), Frame::Error), "{}", json);
    }
}

#[test]
fn members_of_a_message() {
    assert!(parse_message("{").is_none());
    let m = message(r#"{"type":"tts","state":{"stop":null},"mode":[1],"text":true}"#);
    assert!(matches!(&m.kind, JsonField::Value(JsonScalar::Str(t)) if t == "tts"));
    assert!(matches!(m.session_id, JsonField::Absent));
    match &m.state {
        JsonField::Object(entries) => {
            assert_eq!(entries.len(), 1);
            assert_eq!(entries[0].0, "stop");
            assert!(matches!(entries[0].1, JsonScalar::Null));
        }
        other => panic!("unexpected {:?}", other),
    }
    assert!(matches!(m.mode, JsonField::Value(JsonScalar::Array)));
    assert!(matches!(m.text, JsonField::Value(JsonScalar::Bool(true))));
    assert_eq!(variant_name(&m.state).as_deref(), Some("stop"));
    assert_eq!(variant_name(&m.kind).as_deref(), Some("tts"));
    assert_eq!(variant_name(&m.mode), None);
}
