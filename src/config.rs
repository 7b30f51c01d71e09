use vstd::prelude::*;
use crate::addr::SockAddr;

verus! {

/// Settings of the server, fixed for the lifetime of the process.
pub struct ServerConfig {
    /// UDP address the QUIC endpoint binds, in text.
    pub addr: String,
    /// Certificate file; empty together with `key_path` for a generated one.
    pub cert_path: String,
    /// Private key file; empty together with `cert_path` for a generated one.
    pub key_path: String,
    /// The shared secret every client must present.
    pub password: String,
    /// Destinations Out-mode clients may reach; empty means any.
    pub downstreams: Vec<SockAddr>,
    /// Idle timeout of a connection in milliseconds; 0 disables it.
    pub max_idle_timeout_ms: u64,
}

/// Receive window of a connection, in bytes.
pub const RECEIVE_WINDOW: u32 = 1048576;

/// Send window of a connection, in bytes.
pub const SEND_WINDOW: u64 = 1048576;

/// Most bidirectional streams a client may have open at once.
pub const MAX_CONCURRENT_BIDI_STREAMS: u32 = 1024;

/// Transport parameters of every accepted connection (BBR congestion control).
#[derive(Clone, Copy, Debug, PartialEq, Eq, Structural)]
pub struct TransportParams {
    pub receive_window: u32,
    pub send_window: u64,
    pub max_concurrent_bidi_streams: u32,
    /// Idle timeout in milliseconds, when one is set.
    pub idle_timeout_ms: Option<u64>,
    /// Keep-alive interval in milliseconds, when one is set.
    pub keep_alive_ms: Option<u64>,
}

/// The transport parameters for an idle timeout of `max_idle_timeout_ms`:
/// 1 MiB windows, 1024 streams, and, for a positive timeout, that timeout with
/// a keep-alive of half of it.
pub fn transport_params(max_idle_timeout_ms: u64) -> (r: TransportParams)
    ensures
        r.receive_window == 1048576,
        r.send_window == 1048576,
        r.max_concurrent_bidi_streams == 1024,
        max_idle_timeout_ms == 0 ==> r.idle_timeout_ms is None && r.keep_alive_ms is None,
        max_idle_timeout_ms > 0 ==> r.idle_timeout_ms == Some(max_idle_timeout_ms)
            && r.keep_alive_ms == Some(max_idle_timeout_ms / 2),
{
    let (idle_timeout_ms, keep_alive_ms) = if max_idle_timeout_ms > 0 {
        (Some(max_idle_timeout_ms), Some(max_idle_timeout_ms / 2))
    } else {
        (None, None)
    };
    TransportParams {
        receive_window: RECEIVE_WINDOW,
        send_window: SEND_WINDOW,
        max_concurrent_bidi_streams: MAX_CONCURRENT_BIDI_STREAMS,
        idle_timeout_ms,
        keep_alive_ms,
    }
}

} // verus!
