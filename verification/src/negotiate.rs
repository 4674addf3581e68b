//! The negotiation state machine.
//!
//! Negotiation is a fixed ordered series of AT exchanges: reset, disable
//! echo, query signal quality, query SIM identity, check packet-domain
//! registration, configure the packet context, enter data mode. The
//! machine holds only the current step, the registration retry budget
//! and the caller's APN; a thin driver pumps it by sending
//! [`Negotiation::next_command`] over its transport, digesting the reply
//! with a [`crate::Digester`], and handing the completed frame to
//! [`Negotiation::process`]. Any error aborts the whole run and leaves
//! the modem's mode untouched: negotiation is all-or-nothing.
//!
//! Registration policy: a report of "not registered, not searching"
//! fails the run at once; any other not-yet-registered state is retried
//! by resending the query, at most [`REG_RETRY_BUDGET`] times, with any
//! pacing between retries left to the driver.

use vstd::prelude::*;

use crate::CommunicationMode;
use crate::atcmd;
use crate::digest::DigestError;
use crate::error::ModemError;
use crate::response;
use crate::response::parse_payload_frame;
use crate::response::parse_two_int_frame;
use crate::signal::BitErrorRate;
use crate::signal::RSSI;
use crate::signal::ber_spec;
use crate::signal::rssi_spec;
use crate::sim7600::SIM7600;

verus! {

/// How many times a not-yet-registered (but not hopeless) packet-domain
/// registration report is retried before the run aborts.
pub const REG_RETRY_BUDGET: u8 = 5;

/// The steps of a negotiation run, in their fixed order, plus the two
/// terminal states.
#[derive(Clone, Copy, Debug, PartialEq, Eq, Structural)]
pub enum Step {
    Reset,
    DisableEcho,
    QuerySignalQuality,
    QuerySimIdentity,
    CheckPacketRegistration,
    ConfigurePacketContext,
    EnterDataMode,
    Done,
    Aborted,
}

/// The successor of each step when its exchange succeeds.
pub open spec fn next_step(s: Step) -> Step {
    match s {
        Step::Reset => Step::DisableEcho,
        Step::DisableEcho => Step::QuerySignalQuality,
        Step::QuerySignalQuality => Step::QuerySimIdentity,
        Step::QuerySimIdentity => Step::CheckPacketRegistration,
        Step::CheckPacketRegistration => Step::ConfigurePacketContext,
        Step::ConfigurePacketContext => Step::EnterDataMode,
        Step::EnterDataMode => Step::Done,
        Step::Done => Step::Done,
        Step::Aborted => Step::Aborted,
    }
}

/// What a successfully processed step reports back to the driver.
#[derive(Debug, PartialEq, Eq)]
pub enum StepReport {
    /// The step succeeded; nothing to report.
    Plain,
    /// Decoded signal quality, informational only.
    Signal(RSSI, BitErrorRate),
    /// The SIM's ICCID, informational only.
    SimIdentity(Vec<u8>),
    /// Registration is not complete yet: resend the same query.
    Repeat,
    /// Negotiation finished; the modem is in Data mode now.
    Finished,
}

/// `"ATZ0"`.
pub open spec fn reset_name() -> Seq<u8> {
    seq![65u8, 84u8, 90u8, 48u8]
}

/// `"ATE0"`.
pub open spec fn echo_off_name() -> Seq<u8> {
    seq![65u8, 84u8, 69u8, 48u8]
}

/// `"AT+CSQ"`.
pub open spec fn csq_name() -> Seq<u8> {
    seq![65u8, 84u8, 43u8, 67u8, 83u8, 81u8]
}

/// `"AT+CICCID"`.
pub open spec fn ciccid_name() -> Seq<u8> {
    seq![65u8, 84u8, 43u8, 67u8, 73u8, 67u8, 67u8, 73u8, 68u8]
}

/// `"+CGREG"`.
pub open spec fn creg_name() -> Seq<u8> {
    seq![43u8, 67u8, 71u8, 82u8, 69u8, 71u8]
}

/// `"+CGDCONT"`.
pub open spec fn cgdcont_name() -> Seq<u8> {
    seq![43u8, 67u8, 71u8, 68u8, 67u8, 79u8, 78u8, 84u8]
}

/// `"ATD*99#"`.
pub open spec fn dial_name() -> Seq<u8> {
    seq![65u8, 84u8, 68u8, 42u8, 57u8, 57u8, 35u8]
}

/// `"IP"`, the packet-context type parameter.
pub open spec fn ip_type() -> Seq<u8> {
    seq![73u8, 80u8]
}

/// The exact reply the reset step expects: the identifier echo
/// `"ATZ0\r"` followed by the OK terminator `"\r\nOK\r\n"`.
pub open spec fn reset_frame() -> Seq<u8> {
    seq![65u8, 84u8, 90u8, 48u8, 13u8, 13u8, 10u8, 79u8, 75u8, 13u8, 10u8]
}

/// `"\r\n+CSQ: "`, the signal-quality information prefix.
pub open spec fn csq_prefix() -> Seq<u8> {
    seq![13u8, 10u8, 43u8, 67u8, 83u8, 81u8, 58u8, 32u8]
}

/// `"\r\n+CGREG: "`, the registration-status information prefix.
pub open spec fn creg_prefix() -> Seq<u8> {
    seq![13u8, 10u8, 43u8, 67u8, 71u8, 82u8, 69u8, 71u8, 58u8, 32u8]
}

/// `"\r\n+ICCID: "`, the SIM-identity information prefix.
pub open spec fn iccid_prefix() -> Seq<u8> {
    seq![13u8, 10u8, 43u8, 73u8, 67u8, 67u8, 73u8, 68u8, 58u8, 32u8]
}

/// The exact bytes each step puts on the wire, APN included.
pub open spec fn command_bytes(s: Step, apn: Seq<u8>) -> Seq<u8> {
    match s {
        Step::Reset => reset_name() + atcmd::crlf(),
        Step::DisableEcho => echo_off_name() + atcmd::crlf(),
        Step::QuerySignalQuality => csq_name() + atcmd::crlf(),
        Step::QuerySimIdentity => ciccid_name() + atcmd::crlf(),
        Step::CheckPacketRegistration => atcmd::at_prefix() + creg_name() + seq![63u8]
            + atcmd::crlf(),
        Step::ConfigurePacketContext => atcmd::at_prefix() + cgdcont_name() + seq![61u8]
            + seq![49u8] + seq![44u8] + atcmd::quoted(ip_type()) + seq![44u8] + atcmd::quoted(apn)
            + atcmd::crlf(),
        Step::EnterDataMode => dial_name() + atcmd::crlf(),
        Step::Done => Seq::empty(),
        Step::Aborted => Seq::empty(),
    }
}

/// One negotiation run: the current step, the registration retry budget
/// left, and the caller-supplied APN for the packet context.
pub struct Negotiation {
    step: Step,
    retries: u8,
    apn: Vec<u8>,
}

impl Negotiation {
    /// The step the run is at.
    pub closed spec fn step(self) -> Step {
        self.step
    }

    /// How many registration retries are left.
    pub closed spec fn retries_left(self) -> int {
        self.retries as int
    }

    /// The APN the packet context will be configured with.
    pub closed spec fn apn(self) -> Seq<u8> {
        self.apn@
    }

    /// The run is at a working step, not finished and not aborted.
    pub open spec fn in_progress(self) -> bool {
        self.step() != Step::Done && self.step() != Step::Aborted
    }

    /// A fresh run, at the reset step, with a full retry budget.
    pub fn begin(apn: Vec<u8>) -> (r: Negotiation)
        ensures
            r.step() == Step::Reset,
            r.retries_left() == REG_RETRY_BUDGET as int,
            r.apn() == apn@,
    {
        Negotiation { step: Step::Reset, retries: REG_RETRY_BUDGET, apn }
    }

    /// The step the run is at.
    pub fn current_step(&self) -> (r: Step)
        ensures
            r == self.step(),
    {
        self.step
    }

    /// Abandon the run; the driver calls this when the transport or the
    /// digester failed, so the terminal state is recorded either way.
    pub fn abort(&mut self)
        ensures
            final(self).step() == Step::Aborted,
            final(self).apn() == old(self).apn(),
            final(self).retries_left() == old(self).retries_left(),
    {
        self.step = Step::Aborted;
    }

    /// The bytes to put on the wire for the current step: exactly
    /// [`command_bytes`]. Encoding fails — with
    /// [`ModemError::CommandEncodingFailed`], at the packet-context step
    /// only — exactly when the APN pushes the command past the encoder's
    /// 256-byte buffer.
    pub fn next_command(&self) -> (r: Result<Vec<u8>, ModemError>)
        requires
            self.in_progress(),
        ensures
            r matches Ok(v) ==> v@ == command_bytes(self.step(), self.apn()),
            self.step() != Step::ConfigurePacketContext ==> r is Ok,
            self.step() == Step::ConfigurePacketContext ==> (self.apn().len() + 22 <= 256 <==> r
                is Ok),
            r is Err ==> r == Err::<Vec<u8>, ModemError>(ModemError::CommandEncodingFailed),
    {
        match self.step {
            Step::Reset => {
                let mut name: Vec<u8> = Vec::new();
                name.push(65);
                name.push(84);
                name.push(90);
                name.push(48);
                proof {
                    assert(name@ =~= reset_name());
                }
                atcmd::encode_execute(&name)
            },
            Step::DisableEcho => {
                let mut name: Vec<u8> = Vec::new();
                name.push(65);
                name.push(84);
                name.push(69);
                name.push(48);
                proof {
                    assert(name@ =~= echo_off_name());
                }
                atcmd::encode_execute(&name)
            },
            Step::QuerySignalQuality => {
                let mut name: Vec<u8> = Vec::new();
                name.push(65);
                name.push(84);
                name.push(43);
                name.push(67);
                name.push(83);
                name.push(81);
                proof {
                    assert(name@ =~= csq_name());
                }
                atcmd::encode_execute(&name)
            },
            Step::QuerySimIdentity => {
                let mut name: Vec<u8> = Vec::new();
                name.push(65);
                name.push(84);
                name.push(43);
                name.push(67);
                name.push(73);
                name.push(67);
                name.push(67);
                name.push(73);
                name.push(68);
                proof {
                    assert(name@ =~= ciccid_name());
                }
                atcmd::encode_execute(&name)
            },
            Step::CheckPacketRegistration => {
                let mut name: Vec<u8> = Vec::new();
                name.push(43);
                name.push(67);
                name.push(71);
                name.push(82);
                name.push(69);
                name.push(71);
                proof {
                    assert(name@ =~= creg_name());
                }
                atcmd::encode_query(&name)
            },
            Step::ConfigurePacketContext => {
                let mut name: Vec<u8> = Vec::new();
                name.push(43);
                name.push(67);
                name.push(71);
                name.push(68);
                name.push(67);
                name.push(79);
                name.push(78);
                name.push(84);
                let mut ip: Vec<u8> = Vec::new();
                ip.push(73);
                ip.push(80);
                proof {
                    assert(name@ =~= cgdcont_name());
                    assert(ip@ =~= ip_type());
                }
                atcmd::encode_set_int_str_str(&name, 1, &ip, &self.apn)
            },
            Step::EnterDataMode => {
                let mut name: Vec<u8> = Vec::new();
                name.push(65);
                name.push(84);
                name.push(68);
                name.push(42);
                name.push(57);
                name.push(57);
                name.push(35);
                proof {
                    assert(name@ =~= dial_name());
                }
                atcmd::encode_execute(&name)
            },
            Step::Done | Step::Aborted => {
                proof {
                    assert(false);
                }
                Err(ModemError::CommandEncodingFailed)
            },
        }
    }

    /// Interpret the completed response frame for the current step and
    /// advance. On success the run moves to the next step (or stays put
    /// for a registration retry); on any error it aborts, and the
    /// modem's mode is left untouched. Only the final step, entering
    /// data mode, moves the handle to Data — the point of no return.
    pub fn process(&mut self, modem: &mut SIM7600, resp: &[u8]) -> (r: Result<
        StepReport,
        ModemError,
    >)
        requires
            old(self).in_progress(),
        ensures
            final(self).apn() == old(self).apn(),
            final(self).retries_left() <= old(self).retries_left(),
            r is Err ==> final(self).step() == Step::Aborted && *final(modem) == *old(modem),
            r is Ok && r != Ok::<StepReport, ModemError>(StepReport::Repeat) ==> final(self).step()
                == next_step(old(self).step()),
            r == Ok::<StepReport, ModemError>(StepReport::Repeat) ==> final(self).step() == old(
                self,
            ).step() && final(self).retries_left() == old(self).retries_left() - 1,
            final(modem).mode() == (if final(self).step() == Step::Done {
                CommunicationMode::Data
            } else {
                old(modem).mode()
            }),
            old(self).step() == Step::Reset && resp@ == reset_frame() ==> r == Ok::<
                StepReport,
                ModemError,
            >(StepReport::Plain),
            old(self).step() == Step::Reset && resp@ != reset_frame() ==> r == Err::<
                StepReport,
                ModemError,
            >(ModemError::ResponseParseFailed),
            old(self).step() == Step::DisableEcho ==> r == Ok::<StepReport, ModemError>(
                StepReport::Plain,
            ),
            old(self).step() == Step::QuerySignalQuality ==> (parse_two_int_frame(
                resp@,
                csq_prefix(),
            ) matches Some(q) ==> r == Ok::<StepReport, ModemError>(
                StepReport::Signal(rssi_spec(q.0), ber_spec(q.1)),
            )),
            old(self).step() == Step::QuerySignalQuality && parse_two_int_frame(
                resp@,
                csq_prefix(),
            ) is None ==> r == Err::<StepReport, ModemError>(ModemError::ResponseParseFailed),
            old(self).step() == Step::QuerySimIdentity ==> (parse_payload_frame(
                resp@,
                iccid_prefix(),
            ) matches Some(p) ==> r matches Ok(rep) && rep matches StepReport::SimIdentity(id)
                && id@ == p),
            old(self).step() == Step::QuerySimIdentity && parse_payload_frame(
                resp@,
                iccid_prefix(),
            ) is None ==> r == Err::<StepReport, ModemError>(ModemError::ResponseParseFailed),
            old(self).step() == Step::CheckPacketRegistration && parse_two_int_frame(
                resp@,
                creg_prefix(),
            ) is None ==> r == Err::<StepReport, ModemError>(ModemError::ResponseParseFailed),
            old(self).step() == Step::CheckPacketRegistration ==> (parse_two_int_frame(
                resp@,
                creg_prefix(),
            ) matches Some(q) ==> {
                if q.1 == 1 || q.1 == 5 {
                    r == Ok::<StepReport, ModemError>(StepReport::Plain)
                } else if q.1 == 0 {
                    r == Err::<StepReport, ModemError>(ModemError::ResponseIndicatesFailure)
                } else if old(self).retries_left() > 0 {
                    r == Ok::<StepReport, ModemError>(StepReport::Repeat)
                } else {
                    r == Err::<StepReport, ModemError>(ModemError::ResponseIndicatesFailure)
                }
            }),
            old(self).step() == Step::ConfigurePacketContext ==> r == Ok::<StepReport, ModemError>(
                StepReport::Plain,
            ),
            old(self).step() == Step::EnterDataMode ==> r == Ok::<StepReport, ModemError>(
                StepReport::Finished,
            ),
    {
        match self.step {
            Step::Reset => {
                let mut expected: Vec<u8> = Vec::new();
                expected.push(65);
                expected.push(84);
                expected.push(90);
                expected.push(48);
                expected.push(13);
                expected.push(13);
                expected.push(10);
                expected.push(79);
                expected.push(75);
                expected.push(13);
                expected.push(10);
                proof {
                    assert(expected@ =~= reset_frame());
                }
                if response::frame_equals(resp, expected.as_slice()) {
                    self.step = Step::DisableEcho;
                    Ok(StepReport::Plain)
                } else {
                    self.step = Step::Aborted;
                    Err(ModemError::ResponseParseFailed)
                }
            },
            Step::DisableEcho => {
                self.step = Step::QuerySignalQuality;
                Ok(StepReport::Plain)
            },
            Step::QuerySignalQuality => {
                let mut prefix: Vec<u8> = Vec::new();
                prefix.push(13);
                prefix.push(10);
                prefix.push(43);
                prefix.push(67);
                prefix.push(83);
                prefix.push(81);
                prefix.push(58);
                prefix.push(32);
                proof {
                    assert(prefix@ =~= csq_prefix());
                }
                match response::parse_two_ints(resp, prefix.as_slice()) {
                    Some((raw_rssi, raw_ber)) => {
                        self.step = Step::QuerySimIdentity;
                        Ok(StepReport::Signal(RSSI::parse(raw_rssi), BitErrorRate::from(raw_ber)))
                    },
                    None => {
                        self.step = Step::Aborted;
                        Err(ModemError::ResponseParseFailed)
                    },
                }
            },
            Step::QuerySimIdentity => {
                let mut prefix: Vec<u8> = Vec::new();
                prefix.push(13);
                prefix.push(10);
                prefix.push(43);
                prefix.push(73);
                prefix.push(67);
                prefix.push(67);
                prefix.push(73);
                prefix.push(68);
                prefix.push(58);
                prefix.push(32);
                proof {
                    assert(prefix@ =~= iccid_prefix());
                }
                match response::parse_payload(resp, prefix.as_slice()) {
                    Some(id) => {
                        self.step = Step::CheckPacketRegistration;
                        Ok(StepReport::SimIdentity(id))
                    },
                    None => {
                        self.step = Step::Aborted;
                        Err(ModemError::ResponseParseFailed)
                    },
                }
            },
            Step::CheckPacketRegistration => {
                let mut prefix: Vec<u8> = Vec::new();
                prefix.push(13);
                prefix.push(10);
                prefix.push(43);
                prefix.push(67);
                prefix.push(71);
                prefix.push(82);
                prefix.push(69);
                prefix.push(71);
                prefix.push(58);
                prefix.push(32);
                proof {
                    assert(prefix@ =~= creg_prefix());
                }
                match response::parse_two_ints(resp, prefix.as_slice()) {
                    Some((_mode, stat)) => {
                        if stat == 1 || stat == 5 {
                            self.step = Step::ConfigurePacketContext;
                            Ok(StepReport::Plain)
                        } else if stat == 0 {
                            self.step = Step::Aborted;
                            Err(ModemError::ResponseIndicatesFailure)
                        } else if self.retries > 0 {
                            self.retries = self.retries - 1;
                            Ok(StepReport::Repeat)
                        } else {
                            self.step = Step::Aborted;
                            Err(ModemError::ResponseIndicatesFailure)
                        }
                    },
                    None => {
                        self.step = Step::Aborted;
                        Err(ModemError::ResponseParseFailed)
                    },
                }
            },
            Step::ConfigurePacketContext => {
                self.step = Step::EnterDataMode;
                Ok(StepReport::Plain)
            },
            Step::EnterDataMode => {
                modem.enter_data_mode();
                self.step = Step::Done;
                Ok(StepReport::Finished)
            },
            Step::Done | Step::Aborted => {
                proof {
                    assert(false);
                }
                Err(ModemError::ResponseParseFailed)
            },
        }
    }
}

/// The modem-level error a digestion failure surfaces as: a full buffer
/// is [`ModemError::DigestOverflow`], an ERROR frame is
/// [`ModemError::ResponseIndicatesFailure`].
pub fn error_of_digest(e: DigestError) -> (r: ModemError)
    ensures
        e == DigestError::Overflow ==> r == ModemError::DigestOverflow,
        e == DigestError::Failure ==> r == ModemError::ResponseIndicatesFailure,
{
    match e {
        DigestError::Overflow => ModemError::DigestOverflow,
        DigestError::Failure => ModemError::ResponseIndicatesFailure,
    }
}

} // verus!
