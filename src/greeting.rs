use vstd::prelude::*;

verus! {

/// The request of the daemon's minimal socket protocol.
#[derive(Clone, Copy, Debug, PartialEq, Eq, Structural)]
pub enum SocketRequest {
    Greeting,
}

/// The response of the daemon's minimal socket protocol.
#[derive(Clone, Copy, Debug, PartialEq, Eq, Structural)]
pub enum SocketResponse {
    Okay,
}

/// A request and the id that its reply carries back.
#[derive(Clone, Copy, Debug, PartialEq, Eq, Structural)]
pub struct SocketMessage {
    pub id: u8,
    pub request: SocketRequest,
}

/// A response and the id of the message it answers.
#[derive(Clone, Copy, Debug, PartialEq, Eq, Structural)]
pub struct SocketReply {
    pub regarding: u8,
    pub response: SocketResponse,
}

/// The response to `request`.
pub open spec fn socket_answer(request: SocketRequest) -> SocketResponse {
    match request {
        SocketRequest::Greeting => SocketResponse::Okay,
    }
}

/// A greeting is answered with `Okay`.
pub fn handle_socket_request(request: SocketRequest) -> (r: SocketResponse)
    ensures
        r == socket_answer(request),
{
    match request {
        SocketRequest::Greeting => SocketResponse::Okay,
    }
}

/// The reply to `message`: its response, under its id.
pub fn reply_to_socket_message(message: SocketMessage) -> (r: SocketReply)
    ensures
        r.regarding == message.id,
        r.response == socket_answer(message.request),
{
    SocketReply { regarding: message.id, response: handle_socket_request(message.request) }
}

} // verus!
