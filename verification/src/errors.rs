use vstd::prelude::*;

verus! {

/// The transport-level failure classes the server tells apart.  A driver that
/// owns a real socket maps the error it observed onto one of these before
/// handing it to the library.
#[derive(Clone, Copy, Debug, PartialEq, Eq, Structural)]
pub enum FailureKind {
    /// The platform reported that the idle window elapsed.
    TimedOut,
    /// Some platforms report an elapsed idle window this way instead.
    WouldBlock,
    /// The peer aborted the connection.
    ConnectionReset,
    /// The peer went away between a read and a write.
    BrokenPipe,
    /// Any other transport failure.
    Other,
}

/// How a connection ends when it does not end cleanly: the idle window
/// elapsed without progress, or the transport failed.
#[derive(Clone, Copy, Debug, PartialEq, Eq, Structural)]
pub enum EchoError {
    /// No read or write progress within the idle window.
    Timeout,
    /// The transport failed; the kind says how.
    Io(FailureKind),
}

/// The error the echo loop reports for a raw failure of kind `k`: both ways a
/// platform reports an elapsed idle window become `Timeout`, everything else
/// stays a transport failure of its kind.
pub open spec fn spec_classify(k: FailureKind) -> EchoError {
    match k {
        FailureKind::TimedOut => EchoError::Timeout,
        FailureKind::WouldBlock => EchoError::Timeout,
        FailureKind::ConnectionReset => EchoError::Io(FailureKind::ConnectionReset),
        FailureKind::BrokenPipe => EchoError::Io(FailureKind::BrokenPipe),
        FailureKind::Other => EchoError::Io(FailureKind::Other),
    }
}

/// Classifies a raw transport failure into the error the connection reports.
pub fn classify(k: FailureKind) -> (e: EchoError)
    ensures
        e == spec_classify(k),
{
    match k {
        FailureKind::TimedOut => EchoError::Timeout,
        FailureKind::WouldBlock => EchoError::Timeout,
        FailureKind::ConnectionReset => EchoError::Io(FailureKind::ConnectionReset),
        FailureKind::BrokenPipe => EchoError::Io(FailureKind::BrokenPipe),
        FailureKind::Other => EchoError::Io(FailureKind::Other),
    }
}

} // verus!
