use vstd::prelude::*;
use crate::config::BUF_SIZE;
use crate::errors::{classify, spec_classify, EchoError, FailureKind};
use crate::stream::{Connection, Ending};

verus! {

/// Everything the output side carries once the connection is fully echoed:
/// what was already sent, followed by every input byte still to come.
pub open spec fn echo_output(c: Connection) -> Seq<u8> {
    c.sent() + c.remaining()
}

/// The verdict the echo loop owes for connection `c`: success with the number
/// of input bytes when the input side half-closes cleanly, and the classified
/// failure otherwise.
pub open spec fn echo_outcome(c: Connection, r: Result<usize, EchoError>) -> bool {
    match c.closing() {
        Ending::Clean => r == Ok::<usize, EchoError>(c.remaining().len() as usize),
        Ending::Fail(k) => r == Err::<usize, EchoError>(spec_classify(k)),
    }
}

/// The echo loop: reads up to `BUF_SIZE` bytes at a time and writes each chunk
/// back in full before reading again, until a zero-length read ends the
/// connection cleanly — returning the total byte count — or a failure is
/// classified and reported.  Every byte read, even right before a failure, has
/// been written back.
pub fn echo(conn: &mut Connection) -> (r: Result<usize, EchoError>)
    requires
        old(conn).well_formed(),
        old(conn).remaining().len() <= usize::MAX,
    ensures
        final(conn).well_formed(),
        final(conn).closing() == old(conn).closing(),
        final(conn).remaining().len() == 0,
        final(conn).sent() == echo_output(*old(conn)),
        echo_outcome(*old(conn), r),
{
    let ghost pre = *conn;
    let mut written: usize = 0;
    loop
        invariant
            pre == *old(conn),
            conn.well_formed(),
            conn.closing() == pre.closing(),
            written <= pre.remaining().len() <= usize::MAX,
            conn.remaining() == pre.remaining().skip(written as int),
            conn.sent() == pre.sent() + pre.remaining().take(written as int),
        decreases conn.remaining().len(),
    {
        match conn.read_chunk(BUF_SIZE) {
            Err(k) => {
                proof {
                    assert(written == pre.remaining().len());
                    assert(pre.remaining().take(written as int) =~= pre.remaining());
                }
                return Err(classify(k));
            },
            Ok(data) => {
                if data.len() == 0 {
                    proof {
                        assert(written == pre.remaining().len());
                        assert(pre.remaining().take(written as int) =~= pre.remaining());
                    }
                    return Ok(written);
                }
                conn.write_all_back(&data);
                proof {
                    assert(conn.remaining() =~= pre.remaining().skip(written + data@.len()));
                    assert(pre.sent() + pre.remaining().take(written as int) + data@ =~= pre.sent()
                        + pre.remaining().take(written + data@.len()));
                }
                written = written + data.len();
            },
        }
    }
}

/// The outcome of one raw read on a transport, as a driver that owns the
/// socket reports it to the echo loop's decision step: some bytes, a clean
/// half-close (a zero-length read), or a failure of a given kind.
#[derive(Debug)]
pub enum ReadEvent {
    /// The read delivered these bytes.
    Data(Vec<u8>),
    /// The read returned zero bytes: the peer half-closed.
    Closed,
    /// The read failed with this kind.
    Failed(FailureKind),
}

/// What the echo loop does next after a read: write the chunk back in full,
/// finish successfully with the total byte count, or give up with an error.
#[derive(Debug)]
pub enum EchoStep {
    /// Write exactly these bytes back before reading again.
    WriteBack(Vec<u8>),
    /// The connection is done; this many bytes were echoed.
    Done(usize),
    /// The connection failed; report this error and close.
    Fail(EchoError),
}

/// One decision of the echo loop, for a driver that owns the transport: given
/// the running total of echoed bytes and the latest read outcome, what to do
/// next.  Data is always echoed before the next read, a half-close ends the
/// connection successfully, and a failure is classified and terminal.
pub fn echo_step(written: usize, ev: ReadEvent) -> (step: EchoStep)
    ensures
        ev matches ReadEvent::Data(d) ==> step == EchoStep::WriteBack(d),
        ev matches ReadEvent::Closed ==> step == EchoStep::Done(written),
        ev matches ReadEvent::Failed(k) ==> step == EchoStep::Fail(spec_classify(k)),
{
    match ev {
        ReadEvent::Data(d) => EchoStep::WriteBack(d),
        ReadEvent::Closed => EchoStep::Done(written),
        ReadEvent::Failed(k) => EchoStep::Fail(classify(k)),
    }
}

/// The running total after one more chunk of `n` bytes was flushed, or `None`
/// when the counter no longer fits in the machine word.
pub fn checked_total(written: usize, n: usize) -> (r: Option<usize>)
    ensures
        written + n <= usize::MAX ==> r == Some((written + n) as usize),
        written + n > usize::MAX ==> r is None,
{
    if n <= usize::MAX - written {
        Some(written + n)
    } else {
        None
    }
}

/// Echo correctness: a fresh connection that will deliver exactly the bytes of
/// `c.remaining()` and then half-close cleanly is echoed byte for byte — the
/// output side carries exactly those bytes, in order, and the verdict is
/// success with their count.
pub proof fn lemma_echo_correctness(c: Connection, r: Result<usize, EchoError>)
    requires
        c.sent() == Seq::<u8>::empty(),
        c.closing() == Ending::Clean,
        c.remaining().len() <= usize::MAX,
        echo_outcome(c, r),
    ensures
        echo_output(c) == c.remaining(),
        r == Ok::<usize, EchoError>(c.remaining().len() as usize),
{
    assert(echo_output(c) =~= c.remaining());
}

/// Chunking independence: two connections that deliver the same bytes and end
/// the same way — however differently those bytes are fragmented across raw
/// reads — produce the same echoed output and the same verdict.
pub proof fn lemma_chunking_independence(
    a: Connection,
    b: Connection,
    ra: Result<usize, EchoError>,
    rb: Result<usize, EchoError>,
)
    requires
        a.remaining() == b.remaining(),
        a.sent() == b.sent(),
        a.closing() == b.closing(),
        echo_outcome(a, ra),
        echo_outcome(b, rb),
    ensures
        echo_output(a) == echo_output(b),
        ra == rb,
{
}

/// Idempotence across invocations: running the echo loop over two independent,
/// fresh connections that carry the same input yields the same output and the
/// same count each time — no state leaks from one connection to another.
pub proof fn lemma_echo_idempotent(
    a: Connection,
    b: Connection,
    ra: Result<usize, EchoError>,
    rb: Result<usize, EchoError>,
)
    requires
        a.sent() == Seq::<u8>::empty(),
        b.sent() == Seq::<u8>::empty(),
        a.remaining() == b.remaining(),
        a.closing() == Ending::Clean,
        b.closing() == Ending::Clean,
        echo_outcome(a, ra),
        echo_outcome(b, rb),
    ensures
        echo_output(a) == echo_output(b),
        ra == rb,
{
}

/// Timeout boundary: a connection that never half-closes but runs out of its
/// idle window — whichever way the platform reports that — is reported as a
/// `Timeout` failure, never as success.
pub proof fn lemma_timeout_is_failure(c: Connection, r: Result<usize, EchoError>)
    requires
        c.closing() == Ending::Fail(FailureKind::TimedOut) || c.closing() == Ending::Fail(
            FailureKind::WouldBlock,
        ),
        echo_outcome(c, r),
    ensures
        r == Err::<usize, EchoError>(EchoError::Timeout),
{
}

} // verus!
