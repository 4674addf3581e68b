use sim_modem::Completion;
use sim_modem::DigestError;
use sim_modem::Digester;

#[test]
fn whole_frame_in_one_call_completes() {
    let mut d = Digester::new(64);
    assert_eq!(d.digest(b"ATZ0\r\r\nOK\r\n"), Ok(Completion::Complete));
    assert_eq!(d.contents(), b"ATZ0\r\r\nOK\r\n");
}

#[test]
fn chunking_is_transparent() {
    // one-shot digestion of the full stream
    let stream: &[u8] = b"\r\n+CSQ: 22,0\r\n\r\nOK\r\n";
    let mut whole = Digester::new(64);
    assert_eq!(whole.digest(stream), Ok(Completion::Complete));

    // the same stream, delivered byte by byte
    let mut chunked = Digester::new(64);
    for (i, b) in stream.iter().enumerate() {
        let r = chunked.digest(&[*b]);
        if i + 1 < stream.len() {
            assert_eq!(r, Ok(Completion::Continue));
        } else {
            assert_eq!(r, Ok(Completion::Complete));
        }
    }
    assert_eq!(whole.contents(), chunked.contents());

    // and in uneven fragments
    let mut ragged = Digester::new(64);
    assert_eq!(ragged.digest(b"\r\n+CSQ"), Ok(Completion::Continue));
    assert_eq!(ragged.digest(b": 22,0\r\n\r\nOK"), Ok(Completion::Continue));
    assert_eq!(ragged.digest(b"\r\n"), Ok(Completion::Complete));
    assert_eq!(ragged.contents(), stream);
}

#[test]
fn zero_length_read_is_not_end_of_stream() {
    let mut d = Digester::new(16);
    assert_eq!(d.digest(b""), Ok(Completion::Continue));
    assert_eq!(d.digest(b"AT"), Ok(Completion::Continue));
    assert_eq!(d.digest(b""), Ok(Completion::Continue));
    assert_eq!(d.len(), 2);
}

#[test]
fn overflow_is_reported_and_nothing_is_written() {
    let mut d = Digester::new(8);
    assert_eq!(d.digest(b"ABCDEF"), Ok(Completion::Continue));
    assert_eq!(d.digest(b"GHI"), Err(DigestError::Overflow));
    // the overfull append was refused whole, not truncated
    assert_eq!(d.contents(), b"ABCDEF");
    // a fitting append still works afterwards
    assert_eq!(d.digest(b"GH"), Ok(Completion::Continue));
    assert_eq!(d.len(), 8);
}

#[test]
fn error_terminator_wins_even_after_ok_substring() {
    // the OK terminator appears in the middle; only the tail counts
    let mut d = Digester::new(64);
    let stream: &[u8] = b"x\r\nOK\r\ny\r\nERROR\r\n";
    assert_eq!(d.digest(stream), Err(DigestError::Failure));
}

#[test]
fn ok_in_the_middle_alone_is_not_complete() {
    let mut d = Digester::new(64);
    assert_eq!(d.digest(b"\r\nOK\r\nmore"), Ok(Completion::Continue));
}

#[test]
fn error_frame_yields_failure() {
    let mut d = Digester::new(64);
    assert_eq!(d.digest(b"\r\nERROR\r\n"), Err(DigestError::Failure));
}

#[test]
fn reset_clears_the_buffer_between_steps() {
    let mut d = Digester::new(32);
    assert_eq!(d.digest(b"\r\nOK\r\n"), Ok(Completion::Complete));
    d.reset();
    assert_eq!(d.len(), 0);
    assert_eq!(d.digest(b"\r\nOK\r\n"), Ok(Completion::Complete));
}

#[test]
fn degraded_profile_uses_short_error_terminator() {
    let ok = b"\r\nOK\r\n".to_vec();
    let err = b"\r\nERR\r\n".to_vec();
    let mut d = Digester::with_terminators(64, ok, err);
    assert_eq!(d.digest(b"\r\nERR\r\n"), Err(DigestError::Failure));

    let ok2 = b"\r\nOK\r\n".to_vec();
    let err2 = b"\r\nERR\r\n".to_vec();
    let mut d2 = Digester::with_terminators(64, ok2, err2);
    // "\r\nERROR\r\n" does not end in "\r\nERR\r\n", so under the
    // degraded profile digestion just continues
    assert_eq!(d2.digest(b"\r\nERROR\r\n"), Ok(Completion::Continue));
}
