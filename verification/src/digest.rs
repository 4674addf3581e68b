//! Incremental, allocation-free response digestion.
//!
//! A [`Digester`] accumulates transport bytes into a fixed-capacity buffer
//! and, after every append, checks whether the buffer now *ends* in the
//! configured OK or ERROR terminator sequence. The match is evaluated only
//! against the trailing window, never scanned globally, so a terminator
//! appearing earlier as a substring is ignored. The ERROR check runs before
//! the OK check: registering success on a truncated error frame is the
//! unsafe outcome, so ERROR wins if both would ever match.
//!
//! The digester keeps no hidden state beyond the buffer contents and fill
//! position, so it is restartable and inspectable between calls, and a
//! zero-length append is a plain `Continue`, never end-of-stream.

use vstd::prelude::*;

verus! {

/// A digestion verdict that lets the step go on: the response is
/// complete, or more bytes are needed.
#[derive(Clone, Copy, Debug, PartialEq, Eq, Structural)]
pub enum Completion {
    /// The buffer ends in the OK terminator: the response frame is whole.
    Complete,
    /// No terminator yet: read more bytes and digest again.
    Continue,
}

/// A fatal digestion verdict for the current step.
#[derive(Clone, Copy, Debug, PartialEq, Eq, Structural)]
pub enum DigestError {
    /// The append would exceed the buffer's capacity; nothing was written.
    Overflow,
    /// The buffer ends in the ERROR terminator: the modem reported failure.
    Failure,
}

/// `s` ends with `t`.
pub open spec fn ends_with(s: Seq<u8>, t: Seq<u8>) -> bool {
    t.len() <= s.len() && s.skip(s.len() - t.len()) == t
}

/// The digestion verdict for appending `inc` to a buffer holding `buf`,
/// under capacity `cap` and the given terminator pair. This is the whole
/// behaviour of one [`Digester::digest`] call.
pub open spec fn outcome_spec(
    buf: Seq<u8>,
    inc: Seq<u8>,
    cap: int,
    ok: Seq<u8>,
    err: Seq<u8>,
) -> Result<Completion, DigestError> {
    if buf.len() + inc.len() > cap {
        Err(DigestError::Overflow)
    } else if ends_with(buf + inc, err) {
        Err(DigestError::Failure)
    } else if ends_with(buf + inc, ok) {
        Ok(Completion::Complete)
    } else {
        Ok(Completion::Continue)
    }
}

/// The standard OK terminator, `"\r\nOK\r\n"`.
pub open spec fn ok_term_bytes() -> Seq<u8> {
    seq![13u8, 10u8, 79u8, 75u8, 13u8, 10u8]
}

/// The standard ERROR terminator, `"\r\nERROR\r\n"`.
pub open spec fn err_term_bytes() -> Seq<u8> {
    seq![13u8, 10u8, 69u8, 82u8, 82u8, 79u8, 82u8, 13u8, 10u8]
}

/// Accumulates response bytes up to a fixed capacity and watches the
/// trailing window for a terminator. The terminator pair is configurable
/// per modem profile; [`Digester::new`] installs the standard
/// `"\r\nOK\r\n"` / `"\r\nERROR\r\n"` pair.
pub struct Digester {
    buf: Vec<u8>,
    cap: usize,
    ok_term: Vec<u8>,
    err_term: Vec<u8>,
}

impl Digester {
    /// The accumulated response bytes.
    pub closed spec fn bytes(self) -> Seq<u8> {
        self.buf@
    }

    /// The fixed capacity the fill position may never exceed.
    pub closed spec fn capacity(self) -> int {
        self.cap as int
    }

    /// The OK terminator this profile watches for.
    pub closed spec fn ok_term(self) -> Seq<u8> {
        self.ok_term@
    }

    /// The ERROR terminator this profile watches for.
    pub closed spec fn err_term(self) -> Seq<u8> {
        self.err_term@
    }

    /// Well-formedness: the fill position never exceeds capacity, and both
    /// terminators are non-empty.
    pub open spec fn wf(self) -> bool {
        &&& self.bytes().len() <= self.capacity()
        &&& self.ok_term().len() >= 1
        &&& self.err_term().len() >= 1
    }

    /// An empty digester for the standard SIM7600 profile.
    pub fn new(capacity: usize) -> (r: Digester)
        ensures
            r.wf(),
            r.bytes() == Seq::<u8>::empty(),
            r.capacity() == capacity,
            r.ok_term() == ok_term_bytes(),
            r.err_term() == err_term_bytes(),
    {
        let mut ok: Vec<u8> = Vec::new();
        ok.push(13);
        ok.push(10);
        ok.push(79);
        ok.push(75);
        ok.push(13);
        ok.push(10);
        let mut err: Vec<u8> = Vec::new();
        err.push(13);
        err.push(10);
        err.push(69);
        err.push(82);
        err.push(82);
        err.push(79);
        err.push(82);
        err.push(13);
        err.push(10);
        proof {
            assert(ok@ =~= ok_term_bytes());
            assert(err@ =~= err_term_bytes());
        }
        Digester { buf: Vec::new(), cap: capacity, ok_term: ok, err_term: err }
    }

    /// An empty digester for another modem profile, e.g. the degraded
    /// `"\r\nERR\r\n"` ERROR terminator.
    pub fn with_terminators(capacity: usize, ok_term: Vec<u8>, err_term: Vec<u8>) -> (r: Digester)
        requires
            ok_term@.len() >= 1,
            err_term@.len() >= 1,
        ensures
            r.wf(),
            r.bytes() == Seq::<u8>::empty(),
            r.capacity() == capacity,
            r.ok_term() == ok_term@,
            r.err_term() == err_term@,
    {
        Digester { buf: Vec::new(), cap: capacity, ok_term, err_term }
    }

    /// Forget the accumulated bytes; each negotiation step starts from an
    /// empty buffer.
    pub fn reset(&mut self)
        requires
            old(self).wf(),
        ensures
            final(self).wf(),
            final(self).bytes() == Seq::<u8>::empty(),
            final(self).capacity() == old(self).capacity(),
            final(self).ok_term() == old(self).ok_term(),
            final(self).err_term() == old(self).err_term(),
    {
        self.buf = Vec::new();
    }

    /// The accumulated response bytes, for interpreting a completed frame.
    pub fn contents(&self) -> (r: &[u8])
        ensures
            r@ == self.bytes(),
    {
        self.buf.as_slice()
    }

    /// How many bytes have accumulated so far.
    pub fn len(&self) -> (r: usize)
        ensures
            r == self.bytes().len(),
    {
        self.buf.len()
    }

    /// Append `incoming` and report the verdict, exactly as
    /// [`outcome_spec`] says: `Overflow` (buffer untouched) if the bytes
    /// would not fit, else `Failure` if the buffer now ends in the ERROR
    /// terminator, else `Complete` if it ends in the OK terminator, else
    /// `Continue`.
    pub fn digest(&mut self, incoming: &[u8]) -> (r: Result<Completion, DigestError>)
        requires
            old(self).wf(),
        ensures
            final(self).wf(),
            final(self).capacity() == old(self).capacity(),
            final(self).ok_term() == old(self).ok_term(),
            final(self).err_term() == old(self).err_term(),
            r == outcome_spec(
                old(self).bytes(),
                incoming@,
                old(self).capacity(),
                old(self).ok_term(),
                old(self).err_term(),
            ),
            r == Err::<Completion, DigestError>(DigestError::Overflow) ==> final(self).bytes()
                == old(self).bytes(),
            r != Err::<Completion, DigestError>(DigestError::Overflow) ==> final(self).bytes()
                == old(self).bytes() + incoming@,
    {
        if incoming.len() > self.cap - self.buf.len() {
            return Err(DigestError::Overflow);
        }
        let ghost pre = self.buf@;
        let mut i: usize = 0;
        while i < incoming.len()
            invariant
                i <= incoming@.len(),
                self.buf@ == pre + incoming@.take(i as int),
                self.cap == old(self).cap,
                self.ok_term == old(self).ok_term,
                self.err_term == old(self).err_term,
                pre.len() + incoming@.len() <= self.cap,
            decreases incoming@.len() - i,
        {
            self.buf.push(incoming[i]);
            proof {
                assert(pre + incoming@.take(i as int) + seq![incoming@[i as int]] =~= pre
                    + incoming@.take(i as int + 1));
            }
            i += 1;
        }
        proof {
            assert(incoming@.take(incoming@.len() as int) =~= incoming@);
        }
        if tail_matches(&self.buf, &self.err_term) {
            Err(DigestError::Failure)
        } else if tail_matches(&self.buf, &self.ok_term) {
            Ok(Completion::Complete)
        } else {
            Ok(Completion::Continue)
        }
    }
}

/// Whether `buf` ends with `pat`, compared only over the trailing window.
fn tail_matches(buf: &Vec<u8>, pat: &Vec<u8>) -> (b: bool)
    ensures
        b == ends_with(buf@, pat@),
{
    let blen: usize = buf.len();
    let plen: usize = pat.len();
    if plen > blen {
        return false;
    }
    let start: usize = blen - plen;
    let mut i: usize = 0;
    while i < plen
        invariant
            i <= plen,
            plen == pat@.len(),
            blen == buf@.len(),
            plen <= blen,
            start == blen - plen,
            forall|k: int| 0 <= k < i ==> buf@[start + k] == pat@[k],
        decreases plen - i,
    {
        if buf[start + i] != pat[i] {
            proof {
                assert(!ends_with(buf@, pat@)) by {
                    if ends_with(buf@, pat@) {
                        assert(buf@.skip(buf@.len() - pat@.len())[i as int] == pat@[i as int]);
                    }
                }
            }
            return false;
        }
        i += 1;
    }
    proof {
        assert(buf@.skip(buf@.len() - pat@.len()) =~= pat@);
    }
    true
}

/// All the chunks of a delivery, in order, as one stream.
pub open spec fn concat_of(chunks: Seq<Seq<u8>>) -> Seq<u8>
    decreases chunks.len(),
{
    if chunks.len() == 0 {
        Seq::empty()
    } else {
        concat_of(chunks.drop_last()) + chunks.last()
    }
}

proof fn lemma_concat_take_succ(chunks: Seq<Seq<u8>>, i: int)
    requires
        0 <= i < chunks.len(),
    ensures
        concat_of(chunks.take(i + 1)) == concat_of(chunks.take(i)) + chunks[i],
{
    assert(chunks.take(i + 1).drop_last() =~= chunks.take(i));
    assert(chunks.take(i + 1).last() == chunks[i]);
}

proof fn lemma_concat_take_len_monotone(chunks: Seq<Seq<u8>>, i: int, j: int)
    requires
        0 <= i <= j <= chunks.len(),
    ensures
        concat_of(chunks.take(i)).len() <= concat_of(chunks.take(j)).len(),
    decreases j - i,
{
    if i < j {
        lemma_concat_take_len_monotone(chunks, i, j - 1);
        lemma_concat_take_succ(chunks, j - 1);
    }
}

/// Chunking is transparent. Take a byte stream that fits the buffer, ends
/// in the OK terminator, and reaches no terminator at any earlier chunk
/// boundary. However it is cut into chunks, digesting them one by one
/// from an empty buffer yields `Continue` at every chunk but the last,
/// `Complete` at the last — the same verdict, over the same accumulated
/// bytes, as digesting the whole stream in one call.
pub proof fn lemma_chunking_transparent(chunks: Seq<Seq<u8>>, cap: int, ok: Seq<u8>, err: Seq<u8>)
    requires
        chunks.len() >= 1,
        ok.len() >= 1,
        err.len() >= 1,
        concat_of(chunks).len() <= cap,
        ends_with(concat_of(chunks), ok),
        !ends_with(concat_of(chunks), err),
        forall|i: int|
            1 <= i < chunks.len() ==> !ends_with(concat_of(#[trigger] chunks.take(i)), ok)
                && !ends_with(concat_of(chunks.take(i)), err),
    ensures
        outcome_spec(Seq::<u8>::empty(), concat_of(chunks), cap, ok, err) == Ok::<
            Completion,
            DigestError,
        >(Completion::Complete),
        forall|i: int|
            0 <= i < chunks.len() - 1 ==> outcome_spec(
                concat_of(#[trigger] chunks.take(i)),
                chunks[i],
                cap,
                ok,
                err,
            ) == Ok::<Completion, DigestError>(Completion::Continue),
        outcome_spec(
            concat_of(chunks.take(chunks.len() - 1)),
            chunks[chunks.len() - 1],
            cap,
            ok,
            err,
        ) == Ok::<Completion, DigestError>(Completion::Complete),
        concat_of(chunks.take(chunks.len() - 1)) + chunks[chunks.len() - 1] == concat_of(chunks),
{
    let n: int = chunks.len() as int;
    let whole = concat_of(chunks);
    assert(chunks.take(n) =~= chunks);
    assert(Seq::<u8>::empty() + whole =~= whole);
    assert forall|i: int| 0 <= i < n - 1 implies outcome_spec(
        concat_of(#[trigger] chunks.take(i)),
        chunks[i],
        cap,
        ok,
        err,
    ) == Ok::<Completion, DigestError>(Completion::Continue) by {
        lemma_concat_take_succ(chunks, i);
        lemma_concat_take_len_monotone(chunks, i + 1, n);
    }
    lemma_concat_take_succ(chunks, n - 1);
}

/// Overflow is reported, not papered over. Take a chunked delivery whose
/// total length first exceeds the capacity at chunk `j`, with no
/// terminator reached at any boundary up to there: every chunk before `j`
/// digests to `Continue`, and chunk `j` itself yields `Overflow`.
pub proof fn lemma_overflow_guaranteed(
    chunks: Seq<Seq<u8>>,
    cap: int,
    ok: Seq<u8>,
    err: Seq<u8>,
    j: int,
)
    requires
        0 <= j < chunks.len(),
        ok.len() >= 1,
        err.len() >= 1,
        concat_of(chunks.take(j)).len() <= cap,
        concat_of(chunks.take(j + 1)).len() > cap,
        forall|i: int|
            1 <= i <= j ==> !ends_with(concat_of(#[trigger] chunks.take(i)), ok) && !ends_with(
                concat_of(chunks.take(i)),
                err,
            ),
    ensures
        forall|i: int|
            0 <= i < j ==> outcome_spec(
                concat_of(#[trigger] chunks.take(i)),
                chunks[i],
                cap,
                ok,
                err,
            ) == Ok::<Completion, DigestError>(Completion::Continue),
        outcome_spec(concat_of(chunks.take(j)), chunks[j], cap, ok, err) == Err::<
            Completion,
            DigestError,
        >(DigestError::Overflow),
{
    assert forall|i: int| 0 <= i < j implies outcome_spec(
        concat_of(#[trigger] chunks.take(i)),
        chunks[i],
        cap,
        ok,
        err,
    ) == Ok::<Completion, DigestError>(Completion::Continue) by {
        lemma_concat_take_succ(chunks, i);
        lemma_concat_take_len_monotone(chunks, i + 1, j);
    }
    lemma_concat_take_succ(chunks, j);
}

/// ERROR takes precedence and only the trailing window counts: a stream
/// that fits the buffer and ends in the ERROR terminator digests to
/// `Failure`, whatever appears earlier in the stream — even the OK
/// terminator as a false-positive substring.
pub proof fn lemma_error_takes_precedence(stream: Seq<u8>, cap: int, ok: Seq<u8>, err: Seq<u8>)
    requires
        stream.len() <= cap,
        ends_with(stream, err),
    ensures
        outcome_spec(Seq::<u8>::empty(), stream, cap, ok, err) == Err::<Completion, DigestError>(
            DigestError::Failure,
        ),
{
    assert(Seq::<u8>::empty() + stream =~= stream);
}

} // verus!
