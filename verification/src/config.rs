use vstd::prelude::*;

verus! {

/// Number of bytes the echo loop asks for in a single read: large enough to
/// keep the per-chunk overhead low, small enough to bound memory per
/// connection.
pub const BUF_SIZE: usize = 8 * 1024;

/// Idle window, in seconds, applied independently to each read and each write
/// on a connection.
pub const TIMEOUT_SECS: u64 = 15;

/// Port the server binds to when none is given.
pub const DEFAULT_PORT: u16 = 8080;

/// Settings the server starts with.  Nothing here changes after startup.
pub struct Config {
    /// IPv4 address to bind to, as its four octets.
    pub addr: (u8, u8, u8, u8),
    /// Port to bind to.
    pub port: u16,
    /// Size of the working buffer of the echo loop.
    pub buf_size: usize,
    /// Idle timeout, in seconds, for reads and writes; zero disables it.
    pub timeout_secs: u64,
}

impl Config {
    /// The documented defaults: loopback address, port 8080, an 8 KiB working
    /// buffer and a 15 second idle timeout.
    pub fn new() -> (c: Config)
        ensures
            c.addr == (127u8, 0u8, 0u8, 1u8),
            c.port == DEFAULT_PORT,
            c.buf_size == BUF_SIZE,
            c.timeout_secs == TIMEOUT_SECS,
    {
        Config { addr: (127, 0, 0, 1), port: DEFAULT_PORT, buf_size: BUF_SIZE, timeout_secs: TIMEOUT_SECS }
    }
}

/// The per-direction timeout setting derived from a window in seconds: a zero
/// window means no timeout at all, any other is applied as given.  Keeping the
/// zero case out matters because a transport refuses a zero-length timeout.
pub fn timeout_setting(secs: u64) -> (r: Option<u64>)
    ensures
        secs == 0 ==> r is None,
        secs != 0 ==> r == Some(secs),
{
    if secs == 0 {
        None
    } else {
        Some(secs)
    }
}

} // verus!
