//! The client side of a session: where the device is, when the dump it sends
//! on connect is complete, and what it decodes to. The socket work itself
//! belongs to the caller, which hands every chunk it reads to a
//! `PreludeReader`.
use crate::de::{decode_text, from_str};
use crate::error::Error as DecodeError;
use crate::model::HubInfo;
use vstd::prelude::*;
use vstd::utf8::{decode_utf8, valid_utf8};

verus! {

/// Why a session with a device failed.
#[derive(Clone, Debug, PartialEq, Eq)]
pub enum Error {
    /// The connection failed, closed before the dump was complete, or
    /// carried something other than UTF-8 text.
    Connection,
    /// The dump was complete but could not be decoded.
    Decode(DecodeError),
    /// Writing a block to the device failed.
    Io,
}

/// The address of a device: IPv4 octets and TCP port.
#[derive(Clone, Copy, Debug, PartialEq, Eq)]
pub struct Hub {
    pub ip: [u8; 4],
    pub port: u16,
}

impl Hub {
    pub fn new(ip: [u8; 4], port: u16) -> (r: Hub)
        ensures
            r.ip == ip,
            r.port == port,
    {
        Hub { ip, port }
    }
}

/// The bytes of `END PRELUDE`, the header text that ends the dump.
pub open spec fn sentinel() -> Seq<u8> {
    seq![69u8, 78u8, 68u8, 32u8, 80u8, 82u8, 69u8, 76u8, 85u8, 68u8, 69u8]
}

pub open spec fn sentinel_at(b: Seq<u8>, i: int) -> bool {
    0 <= i && i + 11 <= b.len() && b.subrange(i, i + 11) == sentinel()
}

pub open spec fn contains_sentinel(b: Seq<u8>) -> bool {
    exists|i: int| sentinel_at(b, i)
}

/// The most a dump may weigh before the reader gives up on it.
pub const MAX_PRELUDE_BYTES: usize = 1048576;

/// Relies on `String::from_utf8`: it accepts exactly the byte strings that
/// are valid UTF-8, and the string it returns holds the characters they
/// encode.
#[verifier::external_body]
fn utf8_to_string(b: Vec<u8>) -> (r: Option<String>)
    ensures
        r is Some <==> valid_utf8(b@),
        r is Some ==> r->Some_0@ == decode_utf8(b@),
{
    match String::from_utf8(b) {
        Ok(s) => Some(s),
        Err(_) => None,
    }
}

/// Collects what a device sends on connect until `END PRELUDE` has arrived,
/// wherever the reads split the stream.
pub struct PreludeReader {
    buffer: Vec<u8>,
    complete: bool,
}

impl View for PreludeReader {
    type V = Seq<u8>;

    closed spec fn view(&self) -> Seq<u8> {
        self.buffer@
    }
}

impl PreludeReader {
    pub closed spec fn wf(&self) -> bool {
        &&& self.complete == contains_sentinel(self.buffer@)
        &&& self.buffer@.len() <= MAX_PRELUDE_BYTES
    }

    pub fn new() -> (r: Self)
        ensures
            r.wf(),
            r@ == Seq::<u8>::empty(),
    {
        PreludeReader { buffer: Vec::new(), complete: false }
    }

    /// Whether the bytes read so far hold `END PRELUDE`.
    pub fn is_complete(&self) -> (r: bool)
        requires
            self.wf(),
        ensures
            r == contains_sentinel(self@),
    {
        self.complete
    }

    /// Takes the next chunk read from the connection; an empty chunk means
    /// the device closed it. Returns whether the dump is now complete.
    /// Fails when the connection closed first, or when the dump outgrows
    /// `MAX_PRELUDE_BYTES`.
    pub fn feed(&mut self, chunk: &[u8]) -> (r: Result<bool, Error>)
        requires
            old(self).wf(),
            !contains_sentinel(old(self)@),
        ensures
            chunk@.len() == 0 ==> r == Err::<bool, Error>(Error::Connection) && final(self)@ == old(
                self,
            )@,
            chunk@.len() > 0 && old(self)@.len() + chunk@.len() > MAX_PRELUDE_BYTES ==> r == Err::<
                bool,
                Error,
            >(Error::Connection) && final(self)@ == old(self)@,
            chunk@.len() > 0 && old(self)@.len() + chunk@.len() <= MAX_PRELUDE_BYTES ==> r == Ok::<
                bool,
                Error,
            >(contains_sentinel(final(self)@)) && final(self)@ == old(self)@ + chunk@,
            final(self).wf(),
    {
        if chunk.len() == 0 || chunk.len() > MAX_PRELUDE_BYTES - self.buffer.len() {
            return Err(Error::Connection);
        }
        let old_len = self.buffer.len();
        self.buffer.extend_from_slice(chunk);
        let ghost b = self.buffer@;
        let from: usize = if old_len >= 10 {
            old_len - 10
        } else {
            0
        };
        proof {
            assert forall|j: int| 0 <= j < from implies !sentinel_at(b, j) by {
                if sentinel_at(b, j) {
                    assert(b.subrange(j, j + 11) =~= old(self)@.subrange(j, j + 11));
                    assert(sentinel_at(old(self)@, j));
                }
            }
        }
        let mut i = from;
        let mut found = false;
        while !found && i + 11 <= self.buffer.len()
            invariant
                b == self.buffer@,
                b.len() <= MAX_PRELUDE_BYTES,
                i <= b.len(),
                found ==> contains_sentinel(b),
                !found ==> forall|j: int| 0 <= j < i ==> !sentinel_at(b, j),
            decreases b.len() - i,
        {
            let v = &self.buffer;
            if v[i] == 69 && v[i + 1] == 78 && v[i + 2] == 68 && v[i + 3] == 32 && v[i + 4] == 80
                && v[i + 5] == 82 && v[i + 6] == 69 && v[i + 7] == 76 && v[i + 8] == 85 && v[i + 9]
                == 68 && v[i + 10] == 69 {
                assert(b.subrange(i as int, i + 11) =~= sentinel());
                assert(sentinel_at(b, i as int));
                found = true;
            } else {
                assert(!sentinel_at(b, i as int)) by {
                    if sentinel_at(b, i as int) {
                        assert(b.subrange(i as int, i + 11)[0] == sentinel()[0]);
                        assert(b.subrange(i as int, i + 11)[1] == sentinel()[1]);
                        assert(b.subrange(i as int, i + 11)[2] == sentinel()[2]);
                        assert(b.subrange(i as int, i + 11)[3] == sentinel()[3]);
                        assert(b.subrange(i as int, i + 11)[4] == sentinel()[4]);
                        assert(b.subrange(i as int, i + 11)[5] == sentinel()[5]);
                        assert(b.subrange(i as int, i + 11)[6] == sentinel()[6]);
                        assert(b.subrange(i as int, i + 11)[7] == sentinel()[7]);
                        assert(b.subrange(i as int, i + 11)[8] == sentinel()[8]);
                        assert(b.subrange(i as int, i + 11)[9] == sentinel()[9]);
                        assert(b.subrange(i as int, i + 11)[10] == sentinel()[10]);
                    }
                }
            }
            i = i + 1;
        }
        self.complete = found;
        Ok(found)
    }

    /// Decodes the complete dump. Bytes that are not UTF-8 count as a failed
    /// connection.
    pub fn finish(self) -> (r: Result<HubInfo, Error>)
        requires
            self.wf(),
            contains_sentinel(self@),
        ensures
            !valid_utf8(self@) ==> r == Err::<HubInfo, Error>(Error::Connection),
            valid_utf8(self@) ==> match decode_text(decode_utf8(self@)) {
                Ok(h) => r is Ok && r->Ok_0@ == h,
                Err(e) => r is Err && r->Err_0 is Decode && r->Err_0->Decode_0@ == e,
            },
    {
        match utf8_to_string(self.buffer) {
            None => Err(Error::Connection),
            Some(text) => match from_str(text.as_str()) {
                Ok(h) => Ok(h),
                Err(e) => Err(Error::Decode(e)),
            },
        }
    }
}

/// Where `END PRELUDE` is split between two reads, the bytes read so far
/// hold it once the second read is in: the check runs on everything read,
/// not on each chunk.
pub proof fn lemma_sentinel_across_reads(a: Seq<u8>, b: Seq<u8>, k: int)
    requires
        0 <= k <= 11,
        k <= a.len(),
        11 - k <= b.len(),
        a.subrange(a.len() - k, a.len() as int) == sentinel().subrange(0, k),
        b.subrange(0, 11 - k) == sentinel().subrange(k, 11),
    ensures
        contains_sentinel(a + b),
{
    let ab = a + b;
    let i = a.len() - k;
    assert(ab.subrange(i, i + 11) =~= sentinel()) by {
        assert forall|j: int| 0 <= j < 11 implies ab.subrange(i, i + 11)[j] == sentinel()[j] by {
            assert(ab.subrange(i, i + 11)[j] == ab[i + j]);
            if j < k {
                assert(ab[i + j] == a[i + j]);
                assert(a.subrange(a.len() - k, a.len() as int)[j] == a[i + j]);
                assert(sentinel().subrange(0, k)[j] == sentinel()[j]);
            } else {
                assert(ab[i + j] == b[j - k]);
                assert(b.subrange(0, 11 - k)[j - k] == b[j - k]);
                assert(sentinel().subrange(k, 11)[j - k] == sentinel()[j]);
            }
        }
    }
    assert(sentinel_at(ab, i));
}

} // verus!
