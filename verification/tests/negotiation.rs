use sim_modem::error_of_digest;
use sim_modem::BitErrorRate;
use sim_modem::CommunicationMode;
use sim_modem::Completion;
use sim_modem::Digester;
use sim_modem::ModemError;
use sim_modem::Negotiation;
use sim_modem::Step;
use sim_modem::StepReport;
use sim_modem::RSSI;
use sim_modem::SIM7600;

/// The scripted modem of the happy path: the reply each command gets.
fn scripted_reply(cmd: &[u8]) -> Vec<u8> {
    match cmd {
        b"ATZ0\r\n" => b"ATZ0\r\r\nOK\r\n".to_vec(),
        b"ATE0\r\n" => b"ATE0\r\r\nOK\r\n".to_vec(),
        b"AT+CSQ\r\n" => b"\r\n+CSQ: 22,0\r\n\r\nOK\r\n".to_vec(),
        b"AT+CICCID\r\n" => b"\r\n+ICCID: 89883011539574191591\r\n\r\nOK\r\n".to_vec(),
        b"AT+CGREG?\r\n" => b"\r\n+CGREG: 0,1\r\n\r\nOK\r\n".to_vec(),
        b"AT+CGDCONT=1,\"IP\",\"internet\"\r\n" => b"\r\nOK\r\n".to_vec(),
        b"ATD*99#\r\n" => b"\r\nCONNECT\r\n\r\nOK\r\n".to_vec(),
        other => panic!("unexpected command: {:?}", other),
    }
}

/// Drive one step: encode the command, look up the scripted reply, digest
/// it in small fragments, and hand the completed frame to the machine.
fn drive_step(
    neg: &mut Negotiation,
    modem: &mut SIM7600,
    reply_to: fn(&[u8]) -> Vec<u8>,
) -> Result<StepReport, ModemError> {
    let cmd = neg.next_command()?;
    let reply = reply_to(&cmd);
    let mut digester = Digester::new(256);
    for fragment in reply.chunks(3) {
        match digester.digest(fragment) {
            Ok(Completion::Complete) => break,
            Ok(Completion::Continue) => continue,
            Err(e) => {
                neg.abort();
                return Err(error_of_digest(e));
            }
        }
    }
    neg.process(modem, digester.contents())
}

#[test]
fn reset_step_completes_and_mode_stays_command() {
    let mut modem = SIM7600::new();
    let mut neg = Negotiation::begin(b"internet".to_vec());
    assert_eq!(neg.current_step(), Step::Reset);
    let report = drive_step(&mut neg, &mut modem, scripted_reply);
    assert_eq!(report, Ok(StepReport::Plain));
    assert_eq!(neg.current_step(), Step::DisableEcho);
    assert_eq!(*modem.get_mode(), CommunicationMode::Command);
}

#[test]
fn full_negotiation_reaches_data_mode() {
    let mut modem = SIM7600::new();
    let mut neg = Negotiation::begin(b"internet".to_vec());
    let mut reports = Vec::new();
    while neg.current_step() != Step::Done {
        // mode must stay Command until the final step succeeds
        assert_eq!(*modem.get_mode(), CommunicationMode::Command);
        let report = drive_step(&mut neg, &mut modem, scripted_reply).expect("step failed");
        reports.push(report);
    }
    assert_eq!(*modem.get_mode(), CommunicationMode::Data);
    assert_eq!(reports.len(), 7);
    assert_eq!(reports[0], StepReport::Plain);
    assert_eq!(
        reports[2],
        StepReport::Signal(RSSI::DBM109_53(-69), BitErrorRate::LT001)
    );
    assert_eq!(
        reports[3],
        StepReport::SimIdentity(b"89883011539574191591".to_vec())
    );
    assert_eq!(reports[6], StepReport::Finished);
}

#[test]
fn error_reply_aborts_at_the_first_step() {
    let mut modem = SIM7600::new();
    let mut neg = Negotiation::begin(b"internet".to_vec());
    let result = drive_step(&mut neg, &mut modem, |_| b"\r\nERROR\r\n".to_vec());
    assert_eq!(result, Err(ModemError::ResponseIndicatesFailure));
    assert_eq!(neg.current_step(), Step::Aborted);
    assert_eq!(*modem.get_mode(), CommunicationMode::Command);
}

#[test]
fn malformed_reset_echo_is_a_parse_failure() {
    let mut modem = SIM7600::new();
    let mut neg = Negotiation::begin(b"internet".to_vec());
    let result = drive_step(&mut neg, &mut modem, |_| b"ATZ1\r\r\nOK\r\n".to_vec());
    assert_eq!(result, Err(ModemError::ResponseParseFailed));
    assert_eq!(neg.current_step(), Step::Aborted);
    assert_eq!(*modem.get_mode(), CommunicationMode::Command);
}

#[test]
fn malformed_signal_report_is_a_parse_failure() {
    let mut modem = SIM7600::new();
    let mut neg = Negotiation::begin(b"internet".to_vec());
    assert!(drive_step(&mut neg, &mut modem, scripted_reply).is_ok());
    assert!(drive_step(&mut neg, &mut modem, scripted_reply).is_ok());
    assert_eq!(neg.current_step(), Step::QuerySignalQuality);
    let result = drive_step(&mut neg, &mut modem, |_| b"\r\n+CSQ: 22,\r\n\r\nOK\r\n".to_vec());
    assert_eq!(result, Err(ModemError::ResponseParseFailed));
    assert_eq!(neg.current_step(), Step::Aborted);
}

#[test]
fn unknown_signal_codes_decode_to_unknown_not_error() {
    let mut modem = SIM7600::new();
    let mut neg = Negotiation::begin(b"internet".to_vec());
    assert!(drive_step(&mut neg, &mut modem, scripted_reply).is_ok());
    assert!(drive_step(&mut neg, &mut modem, scripted_reply).is_ok());
    let result = drive_step(&mut neg, &mut modem, |_| {
        b"\r\n+CSQ: 99,8\r\n\r\nOK\r\n".to_vec()
    });
    assert_eq!(
        result,
        Ok(StepReport::Signal(RSSI::Unknown, BitErrorRate::Unknown))
    );
    assert_eq!(neg.current_step(), Step::QuerySimIdentity);
}

fn advance_to_registration(neg: &mut Negotiation, modem: &mut SIM7600) {
    while neg.current_step() != Step::CheckPacketRegistration {
        drive_step(neg, modem, scripted_reply).expect("step failed");
    }
}

#[test]
fn searching_registration_is_retried_then_succeeds() {
    let mut modem = SIM7600::new();
    let mut neg = Negotiation::begin(b"internet".to_vec());
    advance_to_registration(&mut neg, &mut modem);
    // still searching: the machine asks for the same query again
    let result = drive_step(&mut neg, &mut modem, |_| {
        b"\r\n+CGREG: 0,2\r\n\r\nOK\r\n".to_vec()
    });
    assert_eq!(result, Ok(StepReport::Repeat));
    assert_eq!(neg.current_step(), Step::CheckPacketRegistration);
    // now registered (roaming counts)
    let result = drive_step(&mut neg, &mut modem, |_| {
        b"\r\n+CGREG: 0,5\r\n\r\nOK\r\n".to_vec()
    });
    assert_eq!(result, Ok(StepReport::Plain));
    assert_eq!(neg.current_step(), Step::ConfigurePacketContext);
}

#[test]
fn not_registered_not_searching_fails_at_once() {
    let mut modem = SIM7600::new();
    let mut neg = Negotiation::begin(b"internet".to_vec());
    advance_to_registration(&mut neg, &mut modem);
    let result = drive_step(&mut neg, &mut modem, |_| {
        b"\r\n+CGREG: 0,0\r\n\r\nOK\r\n".to_vec()
    });
    assert_eq!(result, Err(ModemError::ResponseIndicatesFailure));
    assert_eq!(neg.current_step(), Step::Aborted);
    assert_eq!(*modem.get_mode(), CommunicationMode::Command);
}

#[test]
fn registration_retry_budget_is_bounded() {
    let mut modem = SIM7600::new();
    let mut neg = Negotiation::begin(b"internet".to_vec());
    advance_to_registration(&mut neg, &mut modem);
    let mut repeats = 0;
    loop {
        match drive_step(&mut neg, &mut modem, |_| {
            b"\r\n+CGREG: 0,2\r\n\r\nOK\r\n".to_vec()
        }) {
            Ok(StepReport::Repeat) => repeats += 1,
            Err(e) => {
                assert_eq!(e, ModemError::ResponseIndicatesFailure);
                break;
            }
            other => panic!("unexpected report: {:?}", other),
        }
        assert!(repeats <= 64, "retries must be bounded");
    }
    assert_eq!(repeats, usize::from(sim_modem::REG_RETRY_BUDGET));
    assert_eq!(neg.current_step(), Step::Aborted);
}

#[test]
fn oversized_apn_fails_command_encoding() {
    let modem = SIM7600::new();
    let apn = vec![b'a'; 300];
    let neg = Negotiation::begin(apn);
    // walk the machine to the packet-context step is not needed: the
    // command for every other step encodes fine, so check that first
    assert!(neg.next_command().is_ok());
    drop(modem);

    let mut modem = SIM7600::new();
    let mut neg = Negotiation::begin(vec![b'a'; 300]);
    while neg.current_step() != Step::ConfigurePacketContext {
        drive_step(&mut neg, &mut modem, scripted_reply).expect("step failed");
    }
    assert_eq!(neg.next_command(), Err(ModemError::CommandEncodingFailed));
}

#[test]
fn commands_are_rendered_with_terminators() {
    let neg = Negotiation::begin(b"internet".to_vec());
    // the encoder appends the terminator: the name alone is not a command
    assert_eq!(neg.next_command().unwrap(), b"ATZ0\r\n".to_vec());

    let mut modem = SIM7600::new();
    let mut neg = Negotiation::begin(b"internet".to_vec());
    let mut seen = Vec::new();
    while neg.current_step() != Step::Done {
        seen.push(neg.next_command().unwrap());
        drive_step(&mut neg, &mut modem, scripted_reply).expect("step failed");
    }
    let expected: Vec<&[u8]> = vec![
        b"ATZ0\r\n",
        b"ATE0\r\n",
        b"AT+CSQ\r\n",
        b"AT+CICCID\r\n",
        b"AT+CGREG?\r\n",
        b"AT+CGDCONT=1,\"IP\",\"internet\"\r\n",
        b"ATD*99#\r\n",
    ];
    assert_eq!(seen.len(), expected.len());
    for (got, want) in seen.iter().zip(expected.iter()) {
        assert_eq!(got.as_slice(), *want);
    }
}

#[test]
fn get_mode_is_idempotent() {
    let modem = SIM7600::new();
    let first = *modem.get_mode();
    for _ in 0..10 {
        assert_eq!(*modem.get_mode(), first);
    }
    assert_eq!(first, CommunicationMode::Command);

    let mut modem = SIM7600::new();
    let mut neg = Negotiation::begin(b"internet".to_vec());
    while neg.current_step() != Step::Done {
        drive_step(&mut neg, &mut modem, scripted_reply).expect("step failed");
    }
    let after = *modem.get_mode();
    for _ in 0..10 {
        assert_eq!(*modem.get_mode(), after);
    }
    assert_eq!(after, CommunicationMode::Data);
}

#[test]
fn overflow_maps_to_digest_overflow_error() {
    let mut modem = SIM7600::new();
    let mut neg = Negotiation::begin(b"internet".to_vec());
    let cmd = neg.next_command().unwrap();
    let reply = scripted_reply(&cmd);
    let mut digester = Digester::new(4); // deliberately too small
    let mut result = Ok(StepReport::Plain);
    for fragment in reply.chunks(3) {
        match digester.digest(fragment) {
            Ok(Completion::Complete) => break,
            Ok(Completion::Continue) => continue,
            Err(e) => {
                neg.abort();
                result = Err(error_of_digest(e));
                break;
            }
        }
    }
    assert_eq!(result, Err(ModemError::DigestOverflow));
    assert_eq!(neg.current_step(), Step::Aborted);
    assert_eq!(*modem.get_mode(), CommunicationMode::Command);
}
