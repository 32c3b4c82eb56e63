//! The channel to the task that writes to the socket, with a record of what
//! was handed to it and what it took.
use vstd::prelude::*;

verus! {

#[verifier::external_type_specification]
#[verifier::external_body]
#[verifier::reject_recursive_types(T)]
pub struct ExUnboundedSender<T>(tokio::sync::mpsc::UnboundedSender<T>);

#[verifier::external_type_specification]
#[verifier::external_body]
pub struct ExMessage(tokio_tungstenite::tungstenite::Message);

/// A message for the server, before it becomes a WebSocket message.
pub enum Outgoing {
    /// Encoded audio.
    Binary(Vec<u8>),
    /// JSON text.
    Text(String),
    /// The closing handshake.
    Close,
}

/// The contents of a message for the server.
pub enum OutgoingView {
    Binary(Seq<u8>),
    Text(Seq<char>),
    Close,
}

impl View for Outgoing {
    type V = OutgoingView;

    open spec fn view(&self) -> OutgoingView {
        match self {
            Outgoing::Binary(d) => OutgoingView::Binary(d@),
            Outgoing::Text(t) => OutgoingView::Text(t@),
            Outgoing::Close => OutgoingView::Close,
        }
    }
}

/// The sending end of the channel to the socket's writer task.
pub struct Outbox {
    sender: tokio::sync::mpsc::UnboundedSender<tokio_tungstenite::tungstenite::Message>,
    handed: Ghost<Seq<OutgoingView>>,
    queued: Ghost<Seq<OutgoingView>>,
}

impl Outbox {
    /// The sending end of a new channel: nothing handed to it yet.
    pub fn new(
        sender: tokio::sync::mpsc::UnboundedSender<tokio_tungstenite::tungstenite::Message>,
    ) -> (res: Self)
        ensures
            res.handed() == Seq::<OutgoingView>::empty(),
            res.queued() == Seq::<OutgoingView>::empty(),
    {
        Outbox { sender, handed: Ghost(Seq::empty()), queued: Ghost(Seq::empty()) }
    }

    /// Every message handed to the channel, oldest first.
    pub closed spec fn handed(&self) -> Seq<OutgoingView> {
        self.handed@
    }

    /// The messages the channel took for the writer task, oldest first.
    pub closed spec fn queued(&self) -> Seq<OutgoingView> {
        self.queued@
    }

    /// Hands `msg` to `UnboundedSender::send` as the WebSocket message it
    /// stands for (`Message::Binary` with the bytes, `Message::Text` with the
    /// text, `Message::Close(None)`), once. tokio's `send` queues the message
    /// behind the earlier ones and gives `Ok` while the writer task holds the
    /// receiving end; once it has dropped it, `send` gives the message back
    /// in an `Err` and queues nothing. The contract records this in the two
    /// logs; whether the writer task still holds the channel is not stated.
    #[verifier::external_body]
    pub(crate) fn send(&mut self, msg: Outgoing) -> (r: Result<(), ()>)
        ensures
            final(self).handed() == old(self).handed().push(msg@),
            r is Ok ==> final(self).queued() == old(self).queued().push(msg@),
            r is Err ==> final(self).queued() == old(self).queued(),
    {
        let message = match msg {
            Outgoing::Binary(data) => tokio_tungstenite::tungstenite::Message::Binary(data.into()),
            Outgoing::Text(text) => tokio_tungstenite::tungstenite::Message::Text(text.into()),
            Outgoing::Close => tokio_tungstenite::tungstenite::Message::Close(None),
        };
        self.sender.send(message).map_err(|_| ())
    }
}

} // verus!
