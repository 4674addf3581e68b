//! The SIM7600 modem handle: it owns nothing but the communication-mode
//! flag. The handle is created in Command mode; only the successful
//! completion of a negotiation run moves it to Data mode, and nothing
//! moves it back short of constructing a new handle.

use vstd::prelude::*;

use crate::CommunicationMode;

verus! {

/// Handle for a SIM7600-series modem, carrying its current
/// [`CommunicationMode`].
pub struct SIM7600(CommunicationMode);

impl SIM7600 {
    /// The current communication mode.
    pub closed spec fn mode(self) -> CommunicationMode {
        self.0
    }

    /// A fresh handle, in Command mode.
    pub fn new() -> (r: Self)
        ensures
            r.mode() == CommunicationMode::Command,
    {
        Self(CommunicationMode::Command)
    }

    /// The one-way switch the final negotiation step throws: from here
    /// on the channel carries PPP frames.
    pub(crate) fn enter_data_mode(&mut self)
        ensures
            final(self).mode() == CommunicationMode::Data,
    {
        self.0 = CommunicationMode::Data;
    }

    /// Read the current mode. No side effect: repeated calls without an
    /// intervening mode change return the same value.
    pub fn get_mode(&self) -> (r: &CommunicationMode)
        ensures
            *r == self.mode(),
    {
        &self.0
    }
}

impl Default for SIM7600 {
    fn default() -> (r: Self)
        ensures
            r.mode() == CommunicationMode::Command,
    {
        Self::new()
    }
}

} // verus!
