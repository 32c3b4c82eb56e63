//! The state of the connection to the server, as the protocol sees it.
//!
//! The socket and its tasks live outside; they report the messages they
//! receive here and ask what to do.
use vstd::prelude::*;
use crate::utils::outbox::{Outbox, Outgoing, OutgoingView};
use crate::utils::frame::{
    field_is, frame_of, parse_message, parsed_message, string_of, Frame, JsonField, JsonScalar,
    MessageFields, MessageView, FieldView, ScalarView,
};

verus! {

/// The hello that opens a session: the client speaks the first version of
/// the protocol over a WebSocket and sends Opus audio at 16 kHz, one channel,
/// in frames of 60 ms.
pub const HELLO_MESSAGE: &'static str = "{\"audio_params\":{\"channels\":1,\"format\":\"opus\",\"frame_duration\":60,\"sample_rate\":16000},\"transport\":\"websocket\",\"type\":\"hello\",\"version\":1}";

/// What a text message from the server brings.
pub struct TextOutcome {
    /// The message was the server's first hello: whoever waits for it is woken.
    pub hello_received: bool,
    /// The frame the message makes, for the conversation worker.
    pub frame: Frame,
}

/// The protocol state of the connection.
pub struct WebsocketProtocol {
    websocket_url: String,
    is_connected: bool,
    session_id: Option<String>,
    msg_sender: Option<Outbox>,
    /// What was handed to, and taken by, the channels of earlier sockets.
    earlier_handed: Ghost<Seq<OutgoingView>>,
    earlier_sent: Ghost<Seq<OutgoingView>>,
}

/// The contents of the protocol state.
pub struct WsView {
    pub websocket_url: Seq<char>,
    pub is_connected: bool,
    pub session_id: Option<Seq<char>>,
    /// Whether a channel to the writer task is open.
    pub has_sender: bool,
    /// Every message handed to a writer channel, oldest first.
    pub handed: Seq<OutgoingView>,
    /// The messages a writer channel took for its task, oldest first.
    pub sent: Seq<OutgoingView>,
}

impl View for WebsocketProtocol {
    type V = WsView;

    closed spec fn view(&self) -> WsView {
        WsView {
            websocket_url: self.websocket_url@,
            is_connected: self.is_connected,
            session_id: match self.session_id {
                Some(s) => Some(s@),
                None => None,
            },
            has_sender: self.msg_sender is Some,
            handed: self.earlier_handed@ + match self.msg_sender {
                Some(o) => o.handed(),
                None => Seq::empty(),
            },
            sent: self.earlier_sent@ + match self.msg_sender {
                Some(o) => o.queued(),
                None => Seq::empty(),
            },
        }
    }
}

/// The texts of a reply.
pub open spec fn reply_view(r: Result<String, String>) -> Result<Seq<char>, Seq<char>> {
    match r {
        Ok(a) => Ok(a@),
        Err(e) => Err(e@),
    }
}

/// Whether a message is the server's hello.
pub open spec fn is_hello(m: MessageView) -> bool {
    string_of(m.kind) == Some("hello"@)
}

/// The session id that a message carries: its member `session_id` when that is a string.
pub open spec fn session_id_of(m: MessageView) -> Option<Seq<char>> {
    string_of(m.session_id)
}

impl WsView {
    /// A text message arrives: the first hello while not connected connects
    /// the session and sets its id; nothing else changes the state.
    pub open spec fn on_text(self, m: MessageView) -> (WsView, bool) {
        if is_hello(m) && !self.is_connected {
            (WsView { is_connected: true, session_id: session_id_of(m), ..self }, true)
        } else {
            (self, false)
        }
    }

    /// The answer to a connect while connected: the session id, or an error
    /// when the server gave none.
    pub open spec fn connected_reply(self) -> Result<Seq<char>, Seq<char>> {
        match self.session_id {
            Some(id) => Ok(id),
            None => Err("未查询到 session_id"@),
        }
    }

    /// The answer to a connect once the hello came: the session id, or the
    /// text `None` when the server gave none.
    pub open spec fn hello_reply(self) -> Seq<char> {
        match self.session_id {
            Some(id) => id,
            None => "None"@,
        }
    }
}

impl WebsocketProtocol {
    /// A connection to `websocket_url` that is not made yet.
    pub fn new(websocket_url: String) -> (res: Self)
        ensures
            res@.websocket_url == websocket_url@,
            !res@.is_connected,
            res@.session_id is None,
            !res@.has_sender,
            res@.handed == Seq::<OutgoingView>::empty(),
            res@.sent == Seq::<OutgoingView>::empty(),
    {
        WebsocketProtocol {
            websocket_url,
            is_connected: false,
            session_id: None,
            msg_sender: None,
            earlier_handed: Ghost(Seq::empty()),
            earlier_sent: Ghost(Seq::empty()),
        }
    }

    /// The address of the server.
    pub fn websocket_url(&self) -> (r: &String)
        ensures
            r@ == self@.websocket_url,
    {
        &self.websocket_url
    }

    /// Whether the server's hello has come and the connection is not closed.
    pub fn is_connected(&self) -> (r: bool)
        ensures
            r == self@.is_connected,
    {
        self.is_connected
    }

    /// The id the server gave the session, if any.
    pub fn get_session_id(&self) -> (r: Option<String>)
        ensures
            r matches Some(s) ==> self@.session_id == Some(s@),
            r is None ==> self@.session_id is None,
    {
        match &self.session_id {
            Some(s) => Some(s.clone()),
            None => None,
        }
    }

    /// A connect while connected is not repeated: it answers with the
    /// session id. Gives `None` when a connection is to be made.
    pub fn connected_reply(&self) -> (r: Option<Result<String, String>>)
        ensures
            !self@.is_connected ==> r is None,
            self@.is_connected ==> (r matches Some(res) && reply_view(res)
                == self@.connected_reply()),
    {
        if !self.is_connected {
            return None;
        }
        match &self.session_id {
            Some(id) => Some(Ok(id.clone())),
            None => Some(Err(String::from_str("未查询到 session_id"))),
        }
    }

    /// The answer of a connect once the server's hello came.
    pub fn hello_reply(&self) -> (r: String)
        ensures
            r@ == self@.hello_reply(),
    {
        match &self.session_id {
            Some(id) => id.clone(),
            None => String::from_str("None"),
        }
    }

    /// Takes a text message from the server.
    pub fn on_text(&mut self, m: &MessageFields) -> (out: TextOutcome)
        ensures
            (final(self)@, out.hello_received) == old(self)@.on_text(m@),
            out.frame@ == frame_of(m@),
    {
        let hello = field_is(&m.kind, "hello");
        let mut hello_received = false;
        if hello && !self.is_connected {
            hello_received = true;
            self.is_connected = true;
            self.session_id = match &m.session_id {
                JsonField::Value(JsonScalar::Str(s)) => Some(s.clone()),
                _ => None,
            };
        }
        let frame = Frame::from_message(m);
        TextOutcome { hello_received, frame }
    }

    /// Takes a text message as it came from the server: a text that is not
    /// JSON is dropped and changes nothing.
    pub fn on_text_message(&mut self, text: &str) -> (out: Option<TextOutcome>)
        ensures
            parsed_message(text@) is None ==> out is None && final(self)@ == old(self)@,
            parsed_message(text@) matches Some(m) ==> (out matches Some(o) && (
            final(self)@,
            o.hello_received,
            ) == old(self)@.on_text(m) && o.frame@ == frame_of(m)),
    {
        match parse_message(text) {
            Some(m) => Some(self.on_text(&m)),
            None => None,
        }
    }

    /// Keeps the channel to the writer task of a new socket.
    pub fn set_sender(
        &mut self,
        sender: tokio::sync::mpsc::UnboundedSender<tokio_tungstenite::tungstenite::Message>,
    )
        ensures
            final(self)@ == (WsView { has_sender: true, ..old(self)@ }),
    {
        let previous = self.msg_sender.take();
        proof {
            if let Some(o) = previous {
                self.earlier_handed@ = self.earlier_handed@ + o.handed();
                self.earlier_sent@ = self.earlier_sent@ + o.queued();
            }
        }
        self.msg_sender = Some(Outbox::new(sender));
        proof {
            assert(self@.handed =~= old(self)@.handed);
            assert(self@.sent =~= old(self)@.sent);
        }
    }

    /// Hands a message to the writer channel; without a channel the send
    /// fails with `WebSocket未连接` and nothing is handed on, a channel whose
    /// task is gone takes nothing and the send fails with `failure`.
    fn send(&mut self, msg: Outgoing, failure: &str) -> (r: Result<(), String>)
        ensures
            !old(self)@.has_sender ==> (r matches Err(e) && e@ == "WebSocket未连接"@) && final(self)@ == old(self)@,
            old(self)@.has_sender ==> final(self)@.handed == old(self)@.handed.push(msg@),
            old(self)@.has_sender ==> (r is Ok && final(self)@ == (WsView {
                handed: old(self)@.handed.push(msg@),
                sent: old(self)@.sent.push(msg@),
                ..old(self)@
            })) || (r matches Err(e) && e@ == failure@ && final(self)@ == (WsView {
                handed: old(self)@.handed.push(msg@),
                ..old(self)@
            })),
    {
        let ghost m = msg@;
        match self.msg_sender.take() {
            Some(mut outbox) => {
                let sent = outbox.send(msg);
                self.msg_sender = Some(outbox);
                proof {
                    assert(self@.handed =~= old(self)@.handed.push(m));
                    if sent is Ok {
                        assert(self@.sent =~= old(self)@.sent.push(m));
                    } else {
                        assert(self@.sent =~= old(self)@.sent);
                    }
                }
                match sent {
                    Ok(()) => Ok(()),
                    Err(()) => Err(String::from_str(failure)),
                }
            },
            None => Err(String::from_str("WebSocket未连接")),
        }
    }

    /// Sends encoded audio: the bytes go to the writer channel as one binary
    /// message, queued behind the earlier ones. Fails with `WebSocket未连接`
    /// without a socket and with `发送音频数据失败`, queuing nothing, when the
    /// writer task is gone.
    pub fn send_audio(&mut self, data: Vec<u8>) -> (r: Result<(), String>)
        ensures
            !old(self)@.has_sender ==> (r matches Err(e) && e@ == "WebSocket未连接"@) && final(self)@ == old(self)@,
            old(self)@.has_sender ==> (r is Ok && final(self)@ == (WsView {
                handed: old(self)@.handed.push(OutgoingView::Binary(data@)),
                sent: old(self)@.sent.push(OutgoingView::Binary(data@)),
                ..old(self)@
            })) || (r matches Err(e) && e@ == "发送音频数据失败"@ && final(self)@ == (WsView {
                handed: old(self)@.handed.push(OutgoingView::Binary(data@)),
                ..old(self)@
            })),
    {
        self.send(Outgoing::Binary(data), "发送音频数据失败")
    }

    /// Sends a text message: the text goes to the writer channel as one text
    /// message, queued behind the earlier ones. Fails with `WebSocket未连接`
    /// without a socket and with `发送文本消息失败`, queuing nothing, when the
    /// writer task is gone.
    pub fn send_text(&mut self, message: String) -> (r: Result<(), String>)
        ensures
            !old(self)@.has_sender ==> (r matches Err(e) && e@ == "WebSocket未连接"@) && final(self)@ == old(self)@,
            old(self)@.has_sender ==> (r is Ok && final(self)@ == (WsView {
                handed: old(self)@.handed.push(OutgoingView::Text(message@)),
                sent: old(self)@.sent.push(OutgoingView::Text(message@)),
                ..old(self)@
            })) || (r matches Err(e) && e@ == "发送文本消息失败"@ && final(self)@ == (WsView {
                handed: old(self)@.handed.push(OutgoingView::Text(message@)),
                ..old(self)@
            })),
    {
        self.send(Outgoing::Text(message), "发送文本消息失败")
    }

    /// Sends the hello that opens a session (`HELLO_MESSAGE`) as a text
    /// message; fails as `send_text` does.
    pub fn send_hello(&mut self) -> (r: Result<(), String>)
        ensures
            !old(self)@.has_sender ==> (r matches Err(e) && e@ == "WebSocket未连接"@) && final(self)@ == old(self)@,
            old(self)@.has_sender ==> (r is Ok && final(self)@ == (WsView {
                handed: old(self)@.handed.push(OutgoingView::Text(HELLO_MESSAGE@)),
                sent: old(self)@.sent.push(OutgoingView::Text(HELLO_MESSAGE@)),
                ..old(self)@
            })) || (r matches Err(e) && e@ == "发送文本消息失败"@ && final(self)@ == (WsView {
                handed: old(self)@.handed.push(OutgoingView::Text(HELLO_MESSAGE@)),
                ..old(self)@
            })),
    {
        self.send_text(String::from_str(HELLO_MESSAGE))
    }

    /// Closes the session. Closing what is not connected changes nothing,
    /// hands nothing on and succeeds with `false`. Otherwise the session
    /// counts as closed, the closing handshake is handed to the writer
    /// channel behind everything sent before, and the channel is dropped;
    /// gives `true` (the tasks are to be joined), or `关闭WebSocket连接失败`,
    /// queuing nothing, when the writer task is gone.
    pub fn close(&mut self) -> (r: Result<bool, String>)
        ensures
            !old(self)@.is_connected ==> r == Ok::<bool, String>(false) && final(self)@ == old(self)@,
            old(self)@.is_connected && old(self)@.has_sender ==> (r == Ok::<bool, String>(true)
                && final(self)@ == (WsView {
                is_connected: false,
                has_sender: false,
                handed: old(self)@.handed.push(OutgoingView::Close),
                sent: old(self)@.sent.push(OutgoingView::Close),
                ..old(self)@
            })) || (r matches Err(e) && e@ == "关闭WebSocket连接失败"@ && final(self)@ == (WsView {
                is_connected: false,
                has_sender: false,
                handed: old(self)@.handed.push(OutgoingView::Close),
                ..old(self)@
            })),
            old(self)@.is_connected && !old(self)@.has_sender ==> {
                &&& final(self)@ == (WsView { is_connected: false, ..old(self)@ })
                &&& r == Ok::<bool, String>(true)
            },
    {
        if !self.is_connected {
            return Ok(false);
        }
        self.is_connected = false;
        match self.msg_sender.take() {
            Some(mut outbox) => {
                let sent = outbox.send(Outgoing::Close);
                proof {
                    self.earlier_handed@ = self.earlier_handed@ + outbox.handed();
                    self.earlier_sent@ = self.earlier_sent@ + outbox.queued();
                    assert(self@.handed =~= old(self)@.handed.push(OutgoingView::Close));
                    if sent is Ok {
                        assert(self@.sent =~= old(self)@.sent.push(OutgoingView::Close));
                    } else {
                        assert(self@.sent =~= old(self)@.sent);
                    }
                }
                match sent {
                    Ok(()) => Ok(true),
                    Err(()) => Err(String::from_str("关闭WebSocket连接失败")),
                }
            },
            None => Ok(true),
        }
    }
}

/// A hello to an unconnected session connects it, and the session id is the
/// hello's member `session_id` when that is a string, else there is none.
pub proof fn law_hello_sets_session_id(s: WsView, first: MessageView, id: Seq<char>)
    requires
        first.kind == FieldView::Value(ScalarView::Str("hello"@)),
        !s.is_connected,
    ensures
        s.on_text(first).0.is_connected,
        s.on_text(first).1,
        first.session_id == FieldView::Value(ScalarView::Str(id)) ==> s.on_text(first).0.session_id
            == Some(id) && s.on_text(first).0.connected_reply() == Ok::<Seq<char>, Seq<char>>(id)
            && s.on_text(first).0.hello_reply() == id,
        !(first.session_id is Value && first.session_id->Value_0 is Str) ==> s.on_text(
            first,
        ).0.session_id is None && s.on_text(first).0.hello_reply() == "None"@,
        s.on_text(first).0.websocket_url == s.websocket_url,
        s.on_text(first).0.sent == s.sent,
{
}

/// Only the first hello counts: once connected, later messages, hellos among
/// them, leave the session id as it is.
pub proof fn law_first_hello_counts(s: WsView, first: MessageView, later: MessageView)
    requires
        is_hello(first),
        !s.is_connected,
    ensures
        s.on_text(first).1,
        s.on_text(first).0.is_connected,
        s.on_text(first).0.on_text(later).0 == s.on_text(first).0,
        !s.on_text(first).0.on_text(later).1,
        s.on_text(first).0.connected_reply() == (match session_id_of(first) {
            Some(id) => Ok(id),
            None => Err("未查询到 session_id"@),
        }),
{
}

} // verus!
