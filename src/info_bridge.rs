//! Reporting of tunnel state, log lines and traffic to an optional listener.
use vstd::prelude::*;

verus! {

/// Traffic counters aggregated over time.
#[derive(Clone, Copy, Debug, PartialEq, Eq, Structural)]
pub struct TunnelTraffic {
    pub rx_bytes: u64,
    pub tx_bytes: u64,
    pub tx_dgrams: u64,
    pub rx_dgrams: u64,
}

impl Default for TunnelTraffic {
    fn default() -> (r: Self)
        ensures
            r == (TunnelTraffic { rx_bytes: 0, tx_bytes: 0, tx_dgrams: 0, rx_dgrams: 0 }),
    {
        TunnelTraffic { rx_bytes: 0, tx_bytes: 0, tx_dgrams: 0, rx_dgrams: 0 }
    }
}

/// What kind of information a `TunnelInfo` carries.
#[derive(Clone, Copy, Debug, PartialEq, Eq, Structural)]
pub enum TunnelInfoType {
    TunnelState,
    TunnelLog,
    TunnelTraffic,
}

/// A typed payload to report.
pub struct TunnelInfo<T: ?Sized> {
    pub info_type: TunnelInfoType,
    pub data: Box<T>,
}

impl<T: ?Sized> TunnelInfo<T> {
    /// An item of kind `info_type` carrying `data`.
    pub fn new(info_type: TunnelInfoType, data: Box<T>) -> (r: Self)
        ensures
            r.info_type == info_type,
            r.data == data,
    {
        TunnelInfo { info_type, data }
    }
}

/// Holds the listener that receives serialized tunnel information, if one
/// was installed.
#[derive(Clone)]
pub struct TunnelInfoBridge<L> {
    listener: Option<L>,
}

impl<L> TunnelInfoBridge<L> {
    pub closed spec fn listener_spec(&self) -> Option<L> {
        self.listener
    }

    /// A bridge without a listener.
    pub fn new() -> (r: Self)
        ensures
            r.listener_spec() is None,
    {
        TunnelInfoBridge { listener: None }
    }

    /// Installs `listener`, replacing any earlier one.
    pub fn set_listener(&mut self, listener: L)
        ensures
            final(self).listener_spec() == Some(listener),
    {
        self.listener = Some(listener);
    }

    /// Whether a listener is installed.
    pub fn has_listener(&self) -> (r: bool)
        ensures
            r == self.listener_spec() is Some,
    {
        self.listener.is_some()
    }

    /// The installed listener, if any.
    pub fn listener(&self) -> (r: Option<&L>)
        ensures
            r == match self.listener_spec() {
                Some(l) => Some(&l),
                None => None::<&L>,
            },
    {
        match &self.listener {
            Some(l) => Some(l),
            None => None,
        }
    }
}

} // verus!
