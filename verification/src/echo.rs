use crate::ws::channel::{message_text, text_message};
use crate::ws::registry::Registry;
use crate::ws::socket::{broadcast_outcome, Socket, To};
use crate::ws::ws_error::WsError;
use tokio_tungstenite::tungstenite::protocol::Message;
use vstd::prelude::*;

verus! {

/// handle_message: Our echo message handler. Sends the payload it receives, as
/// it is, to everyone connected to the server, the sender included.
pub fn handle_message(socket: &Socket, clients: &mut Registry, message: String) -> (res: Result<
    (),
    WsError,
>)
    ensures
        exists|reply: Message|
            message_text(reply) == Some(message@) && #[trigger] broadcast_outcome(
                old(clients)@,
                final(clients)@,
                None,
                reply,
                res,
            ),
{
    socket.send(clients, text_message(message), To::All)
}

} // verus!
