use vstd::prelude::*;
use crate::addr::SockAddr;

verus! {

/// Capacity of the channel from a public listener to its session.
pub const LISTENER_CHANNEL_CAPACITY: usize = 4;

/// How long a public listener waits to hand over an accepted socket, in
/// milliseconds, before it drops the socket.
pub const DELIVERY_TIMEOUT_MS: u64 = 3000;

/// A stream to tunnel and, when known, where it should go.
pub struct StreamRequest<S> {
    pub stream: S,
    pub dst_addr: Option<SockAddr>,
}

/// What a listener hands to the task that tunnels its streams.
pub enum StreamMessage<S> {
    Request(StreamRequest<S>),
    Quit,
}

/// What a session loop does next.
#[derive(Clone, Copy, Debug, PartialEq, Eq, Structural)]
pub enum SessionStep {
    /// Tunnel the stream or socket just obtained and go on.
    Forward,
    /// End the session normally.
    Finish,
    /// End the session with an error.
    Fail,
}

/// What waiting for the client's next stream gave in Out mode.
#[derive(Clone, Copy, Debug, PartialEq, Eq, Structural)]
pub enum StreamAccept {
    Opened,
    TimedOut,
    ApplicationClosed,
    Failed,
}

/// The Out-mode session loop: a new stream is dialled and tunnelled; an idle
/// timeout or the client closing ends the session normally; any other
/// connection error ends it with an error.
pub fn out_session_step(event: StreamAccept) -> (r: SessionStep)
    ensures
        event == StreamAccept::Opened <==> r == SessionStep::Forward,
        event == StreamAccept::TimedOut || event == StreamAccept::ApplicationClosed
            <==> r == SessionStep::Finish,
        event == StreamAccept::Failed <==> r == SessionStep::Fail,
{
    match event {
        StreamAccept::Opened => SessionStep::Forward,
        StreamAccept::TimedOut => SessionStep::Finish,
        StreamAccept::ApplicationClosed => SessionStep::Finish,
        StreamAccept::Failed => SessionStep::Fail,
    }
}

/// What the forwarder of an In-mode session met.
#[derive(Clone, Copy, Debug, PartialEq, Eq, Structural)]
pub enum ForwarderEvent {
    /// The listener delivered a socket and a stream to the client was opened.
    Accepted,
    /// The control watcher asked to stop.
    Quit,
    /// The listener channel closed.
    ChannelClosed,
    /// The listener delivered a socket but no stream to the client could be opened.
    OpenFailed,
}

/// The In-mode forwarder loop: an accepted socket with its stream is
/// tunnelled; a stop request or a closed channel ends the session normally;
/// a stream that cannot be opened ends it with an error.
pub fn in_session_step(event: ForwarderEvent) -> (r: SessionStep)
    ensures
        event == ForwarderEvent::Accepted <==> r == SessionStep::Forward,
        event == ForwarderEvent::Quit || event == ForwarderEvent::ChannelClosed
            <==> r == SessionStep::Finish,
        event == ForwarderEvent::OpenFailed <==> r == SessionStep::Fail,
{
    match event {
        ForwarderEvent::Accepted => SessionStep::Forward,
        ForwarderEvent::Quit => SessionStep::Finish,
        ForwarderEvent::ChannelClosed => SessionStep::Finish,
        ForwarderEvent::OpenFailed => SessionStep::Fail,
    }
}

/// What a public listener does with a socket it accepted.
#[derive(Clone, Copy, Debug, PartialEq, Eq, Structural)]
pub enum AcceptAction {
    DropSocket,
    Deliver,
}

/// A listener that is not active yet closes every socket it accepts.
pub fn accept_action(active: bool) -> (r: AcceptAction)
    ensures
        r == (if active { AcceptAction::Deliver } else { AcceptAction::DropSocket }),
{
    if active {
        AcceptAction::Deliver
    } else {
        AcceptAction::DropSocket
    }
}

/// How handing an accepted socket to the session went.
#[derive(Clone, Copy, Debug, PartialEq, Eq, Structural)]
pub enum Delivery {
    Sent,
    /// The channel stayed full past the timeout; the socket was dropped.
    TimedOut,
    /// The session dropped its end of the channel.
    Closed,
}

/// Whether a public listener keeps accepting.
#[derive(Clone, Copy, Debug, PartialEq, Eq, Structural)]
pub enum ListenerLoop {
    Continue,
    Stop,
}

/// The listener's accept task stops exactly when its session is gone.
pub fn after_delivery(outcome: Delivery) -> (r: ListenerLoop)
    ensures
        r == ListenerLoop::Stop <==> outcome == Delivery::Closed,
{
    match outcome {
        Delivery::Sent => ListenerLoop::Continue,
        Delivery::TimedOut => ListenerLoop::Continue,
        Delivery::Closed => ListenerLoop::Stop,
    }
}

} // verus!
