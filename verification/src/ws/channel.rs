use futures_channel::mpsc::{unbounded, UnboundedReceiver, UnboundedSender};
use tokio_tungstenite::tungstenite::protocol::Message;
use vstd::prelude::*;

verus! {

/// The sending half of an unbounded channel, as `futures_channel` defines it.
/// Nothing inside it is visible to the verifier.
#[verifier::external_type_specification]
#[verifier::external_body]
#[verifier::reject_recursive_types(T)]
pub struct ExUnboundedSender<T>(UnboundedSender<T>);

/// A websocket message, as `tungstenite` defines it. Nothing inside it is
/// visible to the verifier.
#[verifier::external_type_specification]
#[verifier::external_body]
pub struct ExMessage(Message);

/// The receiving half of an unbounded channel, as `futures_channel` defines
/// it. Nothing inside it is visible to the verifier.
#[verifier::external_type_specification]
#[verifier::external_body]
#[verifier::reject_recursive_types(T)]
pub struct ExUnboundedReceiver<T>(UnboundedReceiver<T>);

/// The handle through which messages reach one connection's outbound queue.
pub type Tx = UnboundedSender<Message>;

/// The end of a connection's outbound queue from which its pump takes the
/// messages, in the order in which the queue took them.
pub type Rx = UnboundedReceiver<Message>;

/// What a message holds that this library reads: the characters of a
/// `Message::Text`, `None` for every other variant.
pub uninterp spec fn message_text(msg: Message) -> Option<Seq<char>>;

/// Calls `futures_channel::mpsc::unbounded`, which makes a new channel and
/// gives its two halves.
#[verifier::external_body]
pub(crate) fn open_queue() -> (ends: (Tx, Rx)) {
    unbounded()
}

/// Calls `UnboundedSender::unbounded_send` with a copy of `msg`. The call never
/// waits. Whether the channel took the message depends on whether its
/// receiving half is still open, so nothing is claimed of the answer: `true`
/// stands for `Ok`, `false` for the error. (The channel gives up, by a panic,
/// only when it already holds as many messages as it can count.)
#[verifier::external_body]
pub(crate) fn offer(tx: &Tx, msg: &Message) -> (taken: bool) {
    tx.unbounded_send(msg.clone()).is_ok()
}

/// Tells `Message::Text` from the other variants and lends out its text.
#[verifier::external_body]
pub(crate) fn text_of<'a>(msg: &'a Message) -> (text: Option<&'a str>)
    ensures
        text.is_some() == message_text(*msg).is_some(),
        text matches Some(t) ==> message_text(*msg) == Some(t@),
{
    match msg {
        Message::Text(text) => Some(text.as_str()),
        _ => None,
    }
}

/// Calls `Message::text`, which makes the `Message::Text` that holds the
/// given characters.
#[verifier::external_body]
pub(crate) fn text_message(text: String) -> (msg: Message)
    ensures
        message_text(msg) == Some(text@),
{
    Message::text(text)
}

} // verus!
