//! Driver core for bringing a SIM7600 cellular modem from AT-command mode
//! into data (PPP-over-serial) mode, plus decoding of its signal-quality
//! telemetry. The crate is allocation-conscious: response bytes accumulate
//! in a caller-sized buffer with explicit overflow reporting, and the
//! negotiation is a step-by-step state machine that a thin I/O driver pumps.

use vstd::prelude::*;

mod atcmd;
mod error;
mod digest;
mod negotiate;
mod response;
mod sim7600;
mod signal;

pub use digest::{Completion, DigestError, Digester};
pub use error::ModemError;
pub use negotiate::{error_of_digest, Negotiation, Step, StepReport, REG_RETRY_BUDGET};
pub use sim7600::SIM7600;
pub use signal::BitErrorRate;
pub use signal::RSSI;

verus! {

/// State of the modem.
///
/// In [`CommunicationMode::Command`] mode, AT commands will function,
/// serving to put the modem into [`CommunicationMode::Data`].
///
/// In [`CommunicationMode::Data`] the modem device will act as a
/// Point-To-Point over Serial (PPPoS) server.
#[derive(Clone, Copy, Debug, PartialEq, Eq, Structural)]
pub enum CommunicationMode {
    Command,
    Data,
}

} // verus!
