use vstd::prelude::*;
use crate::errors::FailureKind;

verus! {

/// What the input side of a connection reports once every queued fragment has
/// been read: a clean half-close (seen as a zero-length read), or a failure.
#[derive(Clone, Copy, Debug, PartialEq, Eq, Structural)]
pub enum Ending {
    /// The peer half-closed its send side.
    Clean,
    /// A raw read fails with this kind instead of reaching end-of-input.
    Fail(FailureKind),
}

/// The bytes that the fragments of `frags` deliver from index `i` on, in
/// arrival order.
pub open spec fn bytes_from(frags: Seq<Vec<u8>>, i: int) -> Seq<u8>
    decreases frags.len() - i,
{
    if i < 0 || i >= frags.len() {
        Seq::empty()
    } else {
        frags[i]@ + bytes_from(frags, i + 1)
    }
}

/// One client connection, modelled from the server's side of the transport.
///
/// The input side is the data the peer will deliver — already cut into the
/// fragments in which raw reads will hand it over — followed by an `Ending`.
/// The output side records every byte written back.  A raw write may accept
/// fewer bytes than offered (a short write), which `write_cap` bounds.
pub struct Connection {
    frags: Vec<Vec<u8>>,
    ending: Ending,
    next: usize,
    pos: usize,
    out: Vec<u8>,
    write_cap: usize,
}

impl Connection {
    /// The input bytes not yet read, in arrival order.
    pub closed spec fn remaining(&self) -> Seq<u8> {
        bytes_from(self.frags@, self.next as int).skip(self.pos as int)
    }

    /// The bytes written back so far, in order.
    pub closed spec fn sent(&self) -> Seq<u8> {
        self.out@
    }

    /// What the input side reports once it is drained.
    pub closed spec fn closing(&self) -> Ending {
        self.ending
    }

    /// Internal consistency: the read cursor sits inside an undelivered,
    /// non-empty fragment or just past the last one, and a raw write accepts
    /// at least one byte.
    pub closed spec fn well_formed(&self) -> bool {
        &&& self.next <= self.frags@.len()
        &&& (self.next < self.frags@.len() ==> self.pos < self.frags@[self.next as int]@.len())
        &&& (self.next == self.frags@.len() ==> self.pos == 0)
        &&& (forall|i: int|
            self.next <= i < self.frags@.len() ==> (#[trigger] self.frags@[i])@.len() > 0)
        &&& self.write_cap >= 1
    }

    /// A connection whose raw reads will deliver exactly `fragments`, one
    /// fragment per read, and then report `ending`.
    pub fn from_fragments(fragments: Vec<Vec<u8>>, ending: Ending) -> (c: Connection)
        requires
            forall|i: int| 0 <= i < fragments@.len() ==> (#[trigger] fragments@[i])@.len() > 0,
        ensures
            c.well_formed(),
            c.remaining() == bytes_from(fragments@, 0),
            c.sent() == Seq::<u8>::empty(),
            c.closing() == ending,
    {
        let c = Connection {
            frags: fragments,
            ending,
            next: 0,
            pos: 0,
            out: Vec::new(),
            write_cap: usize::MAX,
        };
        proof {
            assert(c.remaining() =~= bytes_from(fragments@, 0));
        }
        c
    }

    /// A connection that will deliver `input` — possibly over several raw
    /// reads — and then report `ending`.
    pub fn new(input: Vec<u8>, ending: Ending) -> (c: Connection)
        ensures
            c.well_formed(),
            c.remaining() == input@,
            c.sent() == Seq::<u8>::empty(),
            c.closing() == ending,
    {
        if input.len() == 0 {
            let c = Connection::from_fragments(Vec::new(), ending);
            proof {
                assert(c.remaining() =~= input@);
            }
            c
        } else {
            let mut fragments: Vec<Vec<u8>> = Vec::new();
            let ghost input_bytes = input@;
            fragments.push(input);
            let c = Connection::from_fragments(fragments, ending);
            proof {
                assert(bytes_from(fragments@, 1) =~= Seq::<u8>::empty());
                assert(c.remaining() =~= input_bytes);
            }
            c
        }
    }

    /// Caps how many bytes a single raw write accepts, to model transports
    /// that perform short writes.  A fresh connection is uncapped.
    pub fn set_write_cap(&mut self, cap: usize)
        requires
            old(self).well_formed(),
            cap >= 1,
        ensures
            final(self).well_formed(),
            final(self).remaining() == old(self).remaining(),
            final(self).sent() == old(self).sent(),
            final(self).closing() == old(self).closing(),
    {
        self.write_cap = cap;
    }

    /// The bytes written back so far.
    pub fn output_bytes(&self) -> (r: &Vec<u8>)
        ensures
            r@ == self.sent(),
    {
        &self.out
    }

    /// One raw read of at most `max` bytes.  While input is pending it hands
    /// over a non-empty prefix of it; a zero-length result is exactly the
    /// clean half-close; once the input is drained a failing ending surfaces
    /// as the error of its kind.
    pub fn read_chunk(&mut self, max: usize) -> (r: Result<Vec<u8>, FailureKind>)
        requires
            old(self).well_formed(),
            max >= 1,
        ensures
            final(self).well_formed(),
            final(self).sent() == old(self).sent(),
            final(self).closing() == old(self).closing(),
            match r {
                Ok(data) => {
                    &&& data@.len() <= max
                    &&& data@.len() <= old(self).remaining().len()
                    &&& data@ == old(self).remaining().take(data@.len() as int)
                    &&& final(self).remaining() == old(self).remaining().skip(data@.len() as int)
                    &&& (data@.len() == 0 <==> (old(self).remaining().len() == 0
                        && old(self).closing() == Ending::Clean))
                },
                Err(k) => {
                    &&& old(self).remaining().len() == 0
                    &&& old(self).closing() == Ending::Fail(k)
                    &&& final(self).remaining() == old(self).remaining()
                },
            },
    {
        if self.next == self.frags.len() {
            proof {
                assert(old(self).remaining() =~= Seq::<u8>::empty());
            }
            match self.ending {
                Ending::Clean => {
                    let data: Vec<u8> = Vec::new();
                    proof {
                        assert(data@ =~= old(self).remaining().take(0));
                        assert(self.remaining() =~= old(self).remaining().skip(0));
                    }
                    Ok(data)
                },
                Ending::Fail(k) => Err(k),
            }
        } else {
            let ghost fv = self.frags@;
            let ghost n0 = self.next as int;
            let ghost p0 = self.pos as int;
            let frag_len = self.frags[self.next].len();
            let avail = frag_len - self.pos;
            let take_n = if max < avail {
                max
            } else {
                avail
            };
            proof {
                assert(bytes_from(fv, n0) == fv[n0]@ + bytes_from(fv, n0 + 1));
            }
            let mut data: Vec<u8> = Vec::new();
            let mut i: usize = 0;
            while i < take_n
                invariant
                    i <= take_n,
                    self.next < self.frags@.len(),
                    self.frags@ == fv,
                    self.next as int == n0,
                    self.pos as int == p0,
                    frag_len == fv[n0]@.len(),
                    take_n <= frag_len - p0,
                    data@ == fv[n0]@.subrange(p0, p0 + i),
                decreases take_n - i,
            {
                let b = self.frags[self.next][self.pos + i];
                data.push(b);
                proof {
                    assert(data@ =~= fv[n0]@.subrange(p0, p0 + i + 1));
                }
                i = i + 1;
            }
            proof {
                assert(data@ =~= old(self).remaining().take(take_n as int));
            }
            if take_n == avail {
                self.next = self.next + 1;
                self.pos = 0;
                proof {
                    if self.next < self.frags@.len() {
                        assert(fv[self.next as int]@.len() > 0);
                    }
                    assert(self.remaining() =~= old(self).remaining().skip(take_n as int));
                }
            } else {
                self.pos = self.pos + take_n;
                proof {
                    assert(self.remaining() =~= old(self).remaining().skip(take_n as int));
                }
            }
            Ok(data)
        }
    }

    /// One raw write: appends at least one byte of `data[start..]` to the
    /// output side and reports how many it accepted — possibly fewer than
    /// offered, as a transport is allowed to cut a write short.
    pub fn write_once(&mut self, data: &Vec<u8>, start: usize) -> (n: usize)
        requires
            old(self).well_formed(),
            start < data@.len(),
        ensures
            final(self).well_formed(),
            1 <= n <= data@.len() - start,
            final(self).sent() == old(self).sent() + data@.subrange(start as int, start + n),
            final(self).remaining() == old(self).remaining(),
            final(self).closing() == old(self).closing(),
    {
        let ghost pre = *self;
        let rest = data.len() - start;
        let n = if self.write_cap < rest {
            self.write_cap
        } else {
            rest
        };
        let mut i: usize = 0;
        while i < n
            invariant
                i <= n,
                1 <= n <= data@.len() - start,
                start + n <= usize::MAX,
                self.frags@ == pre.frags@,
                self.next == pre.next,
                self.pos == pre.pos,
                self.ending == pre.ending,
                self.write_cap == pre.write_cap,
                self.out@ == pre.out@ + data@.subrange(start as int, start as int + i),
            decreases n - i,
        {
            let b = data[start + i];
            self.out.push(b);
            proof {
                assert(self.out@ =~= pre.out@ + data@.subrange(start as int, start as int + i + 1));
            }
            i = i + 1;
        }
        n
    }

    /// Writes all of `data` back to the client before anything else happens:
    /// short writes are retried until the whole chunk is flushed, so a chunk
    /// is never silently truncated.
    pub fn write_all_back(&mut self, data: &Vec<u8>)
        requires
            old(self).well_formed(),
        ensures
            final(self).well_formed(),
            final(self).sent() == old(self).sent() + data@,
            final(self).remaining() == old(self).remaining(),
            final(self).closing() == old(self).closing(),
    {
        let ghost pre = *self;
        let mut done: usize = 0;
        while done < data.len()
            invariant
                done <= data@.len(),
                self.well_formed(),
                self.sent() == pre.sent() + data@.take(done as int),
                self.remaining() == pre.remaining(),
                self.closing() == pre.closing(),
            decreases data@.len() - done,
        {
            let n = self.write_once(data, done);
            proof {
                assert(pre.sent() + data@.take(done as int) + data@.subrange(
                    done as int,
                    done + n,
                ) =~= pre.sent() + data@.take(done + n));
            }
            done = done + n;
        }
        proof {
            assert(pre.sent() + data@.take(done as int) =~= pre.sent() + data@);
        }
    }
}

} // verus!
