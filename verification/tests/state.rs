use audio_chat::window::{CloseDecision, WindowLabel, WindowPolicy};
use audio_chat::audio::audio::{output_backoff, Audio};
use audio_chat::audio::{AudioState_, StartPlan};
use audio_chat::greet;
use audio_chat::utils::config::{Config, LogCfg, LogLevel, OpusCfg, OpusChannels, WsCfg, DEFAULT_CONFIG};
use audio_chat::utils::controller::Controller as FrameQueue;
use audio_chat::utils::device::{DeviceConfig, DeviceType};
use audio_chat::utils::frame::tts::{TtsFrame, TtsState};
use audio_chat::utils::frame::{Frame, JsonField, JsonScalar, MessageFields};
use audio_chat::utils::ws::{WebsocketProtocol, HELLO_MESSAGE};
use audio_chat::audio::controller::ControllerAction;

fn msg(kind: &str, session: Option<&str>) -> MessageFields {
    MessageFields {
        kind: JsonField::Value(JsonScalar::Str(kind.to_string())),
        session_id: match session {
            Some(s) => JsonField::Value(JsonScalar::Str(s.to_string())),
            None => JsonField::Absent,
        },
        state: JsonField::Absent,
        mode: JsonField::Absent,
        text: JsonField::Absent,
    }
}

#[test]
fn greet_answers_name() {
    assert_eq!(greet("Tauri".to_string()), "Tauri");
}

#[test]
fn first_hello_connects() {
    let mut ws = WebsocketProtocol::new("ws://localhost:8080".to_string());
    assert_eq!(ws.websocket_url(), "ws://localhost:8080");
    assert!(!ws.is_connected());
    assert!(ws.connected_reply().is_none());
    let out = ws.on_text(&msg("hello", Some("abc")));
    assert!(out.hello_received);
    assert!(matches!(out.frame, Frame::Error));
    assert!(ws.is_connected());
    assert_eq!(ws.get_session_id().as_deref(), Some("abc"));
    assert_eq!(ws.hello_reply(), "abc");
    assert_eq!(ws.connected_reply(), Some(Ok("abc".to_string())));
    // a later hello changes nothing
    let out = ws.on_text(&msg("hello", Some("other")));
    assert!(!out.hello_received);
    assert_eq!(ws.get_session_id().as_deref(), Some("abc"));
}

#[test]
fn hello_without_session_id() {
    let mut ws = WebsocketProtocol::new("ws://x".to_string());
    assert!(!ws.on_text(&msg("tts", None)).hello_received);
    assert!(!ws.is_connected());
    assert!(ws.on_text(&msg("hello", None)).hello_received);
    assert_eq!(ws.hello_reply(), "None");
    assert_eq!(ws.connected_reply(), Some(Err("未查询到 session_id".to_string())));
    assert_eq!(ws.close(), Ok(true));
    assert!(!ws.is_connected());
    assert_eq!(ws.close(), Ok(false));
}

#[test]
fn conversation_start_stop() {
    let mut s = AudioState_::new();
    assert!(s.stopped());
    assert!(!s.stop());
    assert_eq!(s.start(false), StartPlan::Connect);
    assert_eq!(s.start(true), StartPlan::Launch);
    assert_eq!(s.connected(Ok("id".to_string())), Ok(StartPlan::Launch));
    assert_eq!(s.connected(Err("down".to_string())), Err("down".to_string()));
    s.launched();
    assert_eq!(s.start(false), StartPlan::AlreadyRunning);
    assert!(s.stop());
    assert_eq!(s.closed(Err("busy".to_string())), Err("busy".to_string()));
    assert!(!s.stopped());
    assert_eq!(s.closed(Ok(())), Ok(()));
    assert!(s.stopped());
    s.launched();
    s.on_disconnect();
    assert!(s.stopped());
}

#[test]
fn audio_switch() {
    let mut a = Audio::new();
    assert!(a.is_audio_stoped());
    assert!(!a.close());
    assert!(a.start());
    assert!(!a.start());
    assert!(a.close());
    assert!(a.is_audio_stoped());
}

#[test]
fn backoff_pauses_after_eager_retries() {
    assert_eq!(output_backoff(0), (1, false));
    assert_eq!(output_backoff(12), (13, false));
    assert_eq!(output_backoff(13), (13, true));
}

#[test]
fn frame_queue_is_fifo() {
    let mut q = FrameQueue::new();
    assert!(q.next_action().is_none());
    q.push_frame(Frame::TtsFrame(TtsFrame { state: TtsState::SentenceStart, text: None }));
    q.push_frame(Frame::Error);
    q.push_frame(Frame::TtsFrame(TtsFrame { state: TtsState::Start, text: Some("t".into()) }));
    assert_eq!(q.frame_buffer.len(), 3);
    assert!(matches!(q.next_action(), Some(ControllerAction::RestartSession)));
    assert!(matches!(q.next_action(), Some(ControllerAction::ErrorFrame)));
    assert!(matches!(q.next_action(), Some(ControllerAction::Ignore)));
    assert!(q.next_action().is_none());
    assert!(!q.is_stopped());
    q.stop();
    assert!(q.is_stopped());
}

#[test]
fn log_levels() {
    let level = |s: &str| LogLevel::from(LogCfg { level: s.to_string() });
    assert_eq!(level("trace"), LogLevel::Trace);
    assert_eq!(level("DEBUG"), LogLevel::Debug);
    assert_eq!(level("Info"), LogLevel::Info);
    assert_eq!(level("wArN"), LogLevel::Warn);
    assert_eq!(level("ERROR"), LogLevel::Error);
    assert_eq!(level("verbose"), LogLevel::Info);
    assert_eq!(LogLevel::from_lowercase_name(&"warn".to_string()), LogLevel::Warn);
    assert_eq!(LogLevel::from_lowercase_name(&"WARN".to_string()), LogLevel::Info);
}

#[test]
fn opus_channels() {
    let ch = |n: usize| -> OpusChannels { OpusCfg { sample_rate: 16000, channels: n }.into() };
    assert_eq!(ch(1), OpusChannels::Mono);
    assert_eq!(ch(2), OpusChannels::Stereo);
    assert_eq!(ch(0), OpusChannels::Stereo);
    assert_eq!(ch(6), OpusChannels::Stereo);
}

fn config(frame_size: usize, channels: usize) -> Config {
    Config {
        websocket: WsCfg { url: "ws://localhost:8080".to_string(), frame_size },
        opus: OpusCfg { sample_rate: 16000, channels: 1 },
        logger: LogCfg { level: "debug".to_string() },
        input_device: DeviceConfig::from_stream_config(48000, channels as u16),
        output_device: DeviceConfig::default(),
    }
}

#[test]
fn config_checks_and_sources() {
    assert!(config(960, 2).check_audio());
    assert!(!config(0, 2).check_audio());
    assert!(!config(960, 0).check_audio());
    assert!(!config(usize::MAX, 2).check_audio());
    assert_eq!(Config::source_text(Some("x".to_string())), "x");
    assert_eq!(Config::source_text(None), DEFAULT_CONFIG);
    assert!(DEFAULT_CONFIG.contains("frame_size = 960"));
    let c = audio_chat::audio::cache::AudioCache::<f32>::from_config(&config(960, 2));
    assert_eq!(c.input_rate(), 48000);
    assert_eq!(c.output_rate(), 0);
    assert_eq!(c.input_channels(), 2);
}

#[test]
fn device_configs() {
    let d = DeviceConfig::default();
    assert_eq!((d.sample_rate, d.channels), (0, 0));
    let d = DeviceConfig::from_stream_config(44100, 2);
    assert_eq!((d.sample_rate, d.channels), (44100, 2));
    assert_ne!(DeviceType::Input, DeviceType::Output);
}

#[test]
fn text_messages_from_the_server() {
    let mut ws = WebsocketProtocol::new("ws://x".to_string());
    assert!(ws.on_text_message("not json").is_none());
    assert!(!ws.is_connected());
    let out = ws
        .on_text_message(r#"{"type":"hello","session_id":"s-1","transport":"websocket"}"#)
        .unwrap();
    assert!(out.hello_received);
    assert_eq!(ws.get_session_id().as_deref(), Some("s-1"));
    let out = ws.on_text_message(r#"{"type":"tts","state":"sentence_end"}"#).unwrap();
    assert!(!out.hello_received);
    assert!(matches!(out.frame, Frame::TtsFrame(TtsFrame { state: TtsState::SentenceEnd, text: None })));
    // a session id that is not a string gives none
    let mut ws = WebsocketProtocol::new("ws://x".to_string());
    assert!(ws.on_text_message(r#"{"type":"hello","session_id":7}"#).unwrap().hello_received);
    assert_eq!(ws.get_session_id(), None);
}

#[test]
fn settings_window_hides_until_exit() {
    let mut w = WindowPolicy::new();
    assert!(!w.is_exiting());
    assert_eq!(w.on_close_requested(WindowLabel::Settings), CloseDecision::PreventAndHide);
    assert_eq!(w.on_close_requested(WindowLabel::Settings), CloseDecision::PreventAndHide);
    assert!(!w.is_exiting());
    assert_eq!(w.on_close_requested(WindowLabel::Main), CloseDecision::AllowAndCloseSettings);
    assert!(w.is_exiting());
    assert_eq!(w.on_close_requested(WindowLabel::Settings), CloseDecision::Allow);
}

#[test]
fn sending_needs_a_socket() {
    let mut ws = WebsocketProtocol::new("ws://x".to_string());
    assert_eq!(ws.send_audio(vec![1, 2]), Err("WebSocket未连接".to_string()));
    assert_eq!(ws.send_text("hi".to_string()), Err("WebSocket未连接".to_string()));
    let (tx, mut rx) = tokio::sync::mpsc::unbounded_channel();
    ws.set_sender(tx);
    assert_eq!(ws.send_audio(vec![1, 2]), Ok(()));
    assert_eq!(ws.send_text("hi".to_string()), Ok(()));
    assert_eq!(
        rx.try_recv().unwrap(),
        tokio_tungstenite::tungstenite::Message::Binary(vec![1u8, 2].into())
    );
    assert_eq!(
        rx.try_recv().unwrap(),
        tokio_tungstenite::tungstenite::Message::Text("hi".into())
    );
    // connect, then close: the closing handshake goes out
    ws.on_text_message(r#"{"type":"hello"}"#).unwrap();
    assert_eq!(ws.close(), Ok(true));
    assert_eq!(rx.try_recv().unwrap(), tokio_tungstenite::tungstenite::Message::Close(None));
    assert_eq!(ws.send_audio(vec![3]), Err("WebSocket未连接".to_string()));
}

#[test]
fn sending_after_the_writer_is_gone() {
    let mut ws = WebsocketProtocol::new("ws://x".to_string());
    let (tx, rx) = tokio::sync::mpsc::unbounded_channel();
    ws.set_sender(tx);
    drop(rx);
    assert_eq!(ws.send_audio(vec![1]), Err("发送音频数据失败".to_string()));
    assert_eq!(ws.send_text("x".to_string()), Err("发送文本消息失败".to_string()));
    ws.on_text_message(r#"{"type":"hello","session_id":"a"}"#).unwrap();
    assert_eq!(ws.close(), Err("关闭WebSocket连接失败".to_string()));
    assert!(!ws.is_connected());
}

#[test]
fn hello_message_content() {
    let v: serde_json::Value = serde_json::from_str(HELLO_MESSAGE).unwrap();
    assert_eq!(v["type"], "hello");
    assert_eq!(v["version"], 1);
    assert_eq!(v["transport"], "websocket");
    assert_eq!(v["audio_params"]["format"], "opus");
    assert_eq!(v["audio_params"]["sample_rate"], 16000);
    assert_eq!(v["audio_params"]["channels"], 1);
    assert_eq!(v["audio_params"]["frame_duration"], 60);
    // the text is serde_json's own rendering of it
    assert_eq!(serde_json::to_string(&v).unwrap(), HELLO_MESSAGE);
    let mut ws = WebsocketProtocol::new("ws://x".to_string());
    assert_eq!(ws.send_hello(), Err("WebSocket未连接".to_string()));
    let (tx, mut rx) = tokio::sync::mpsc::unbounded_channel();
    ws.set_sender(tx);
    ws.send_audio(vec![9]).unwrap();
    assert_eq!(ws.send_hello(), Ok(()));
    assert_eq!(rx.try_recv().unwrap(), tokio_tungstenite::tungstenite::Message::Binary(vec![9u8].into()));
    assert_eq!(
        rx.try_recv().unwrap(),
        tokio_tungstenite::tungstenite::Message::Text(HELLO_MESSAGE.into())
    );
}

#[test]
fn close_without_connection_sends_nothing() {
    let mut ws = WebsocketProtocol::new("ws://x".to_string());
    let (tx, mut rx) = tokio::sync::mpsc::unbounded_channel();
    ws.set_sender(tx);
    assert_eq!(ws.close(), Ok(false));
    assert!(rx.try_recv().is_err());
    // the channel stays: sending still works
    assert_eq!(ws.send_text("x".to_string()), Ok(()));
}
