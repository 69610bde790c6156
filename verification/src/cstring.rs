//! Reading a NUL-terminated byte string out of another process, one chunk of
//! memory at a time.
//!
//! The reader never touches memory itself. It names the address of the next
//! chunk, is handed the bytes found there, and stops at the first zero byte.
//! What it collects depends on the bytes alone, not on how they were cut into
//! chunks.

use vstd::prelude::*;

verus! {

/// Number of bytes that precede the first zero byte of `bytes`; its whole
/// length when it holds none.
pub open spec fn nul_position(bytes: Seq<u8>) -> int
    decreases bytes.len(),
{
    if bytes.len() == 0 || bytes[0] == 0 {
        0
    } else {
        1 + nul_position(bytes.drop_first())
    }
}

/// Whether `bytes` holds a zero byte.
pub open spec fn has_nul(bytes: Seq<u8>) -> bool {
    nul_position(bytes) < bytes.len()
}

/// The bytes of `bytes` before its first zero byte; all of them when it holds
/// none.
pub open spec fn c_string(bytes: Seq<u8>) -> Seq<u8> {
    bytes.take(nul_position(bytes))
}

/// `nul_position` is the index of the first zero byte.
pub proof fn lemma_nul_position(bytes: Seq<u8>)
    ensures
        0 <= nul_position(bytes) <= bytes.len(),
        forall|i: int| 0 <= i < nul_position(bytes) ==> bytes[i] != 0,
        nul_position(bytes) < bytes.len() ==> bytes[nul_position(bytes)] == 0,
        has_nul(bytes) <==> bytes.contains(0u8),
    decreases bytes.len(),
{
    if bytes.len() == 0 || bytes[0] == 0 {
    } else {
        let rest = bytes.drop_first();
        lemma_nul_position(rest);
        assert forall|i: int| 0 <= i < nul_position(bytes) implies bytes[i] != 0 by {
            if i > 0 {
                assert(bytes[i] == rest[i - 1]);
            }
        }
    }
}

/// A position with a zero byte, or the end, before which no byte is zero is
/// `nul_position`.
pub proof fn lemma_nul_position_unique(bytes: Seq<u8>, at: int)
    requires
        0 <= at <= bytes.len(),
        forall|i: int| 0 <= i < at ==> bytes[i] != 0,
        at < bytes.len() ==> bytes[at] == 0,
    ensures
        nul_position(bytes) == at,
{
    lemma_nul_position(bytes);
}

/// What was collected never holds a zero byte, and a string that is followed
/// by its terminator is read back byte for byte.
pub proof fn lemma_c_string_exact(text: Seq<u8>, rest: Seq<u8>)
    requires
        !text.contains(0u8),
    ensures
        c_string(text + seq![0u8] + rest) == text,
        has_nul(text + seq![0u8] + rest),
        !c_string(text + seq![0u8] + rest).contains(0u8),
{
    let all = text + seq![0u8] + rest;
    assert(forall|i: int| 0 <= i < text.len() ==> all[i] == text[i]);
    lemma_nul_position_unique(all, text.len() as int);
}

/// Chunk independence: the string found in two chunks laid end to end is the
/// string found in the first, continued in the second only where the first
/// holds no terminator.
pub proof fn lemma_c_string_concat(first: Seq<u8>, second: Seq<u8>)
    ensures
        has_nul(first + second) == (has_nul(first) || has_nul(second)),
        nul_position(first + second) == if has_nul(first) {
            nul_position(first)
        } else {
            first.len() + nul_position(second)
        },
        c_string(first + second) == if has_nul(first) {
            c_string(first)
        } else {
            first + c_string(second)
        },
{
    let both = first + second;
    lemma_nul_position(first);
    lemma_nul_position(second);
    let at = if has_nul(first) {
        nul_position(first)
    } else {
        first.len() + nul_position(second)
    };
    assert(forall|i: int| 0 <= i < at ==> both[i] != 0);
    lemma_nul_position_unique(both, at);
}

/// Where a read stands: what has been collected, the address the next byte
/// comes from, and whether the terminator has been seen.
pub struct ReaderView {
    pub bytes: Seq<u8>,
    pub address: u64,
    pub complete: bool,
}

/// The state after the bytes at the current address turned out to be `chunk`.
///
/// A complete read takes nothing more. Otherwise the bytes before the chunk's
/// first zero byte are appended and the address moves past them, so that it
/// ends at the terminator or, where the chunk holds none, at the chunk's end.
pub open spec fn fed(reader: ReaderView, chunk: Seq<u8>) -> ReaderView {
    if reader.complete {
        reader
    } else {
        ReaderView {
            bytes: reader.bytes + c_string(chunk),
            address: (reader.address + nul_position(chunk)) as u64,
            complete: has_nul(chunk),
        }
    }
}

/// Feeding two chunks one after the other is feeding them joined: the size of
/// the chunks does not matter.
pub proof fn lemma_fed_concat(reader: ReaderView, first: Seq<u8>, second: Seq<u8>)
    requires
        reader.address + nul_position(first + second) <= u64::MAX,
    ensures
        fed(fed(reader, first), second) == fed(reader, first + second),
{
    lemma_c_string_concat(first, second);
    lemma_nul_position(first);
    lemma_nul_position(second);
    if !reader.complete && !has_nul(first) {
        assert(c_string(first) =~= first);
        assert((reader.bytes + first) + c_string(second) =~= reader.bytes + (first + c_string(
            second,
        )));
    }
}

/// Finds the first zero byte of `chunk`, or its end.
fn nul_offset(chunk: &[u8]) -> (at: usize)
    ensures
        at == nul_position(chunk@),
{
    let mut i: usize = 0;
    while i < chunk.len() && chunk[i] != 0
        invariant
            0 <= i <= chunk.len(),
            forall|j: int| 0 <= j < i ==> chunk@[j] != 0,
        decreases chunk.len() - i,
    {
        i = i + 1;
    }
    proof {
        lemma_nul_position_unique(chunk@, i as int);
    }
    i
}

/// Reads one NUL-terminated string that starts at a given address of a traced
/// process.
pub struct CStringReader {
    bytes: Vec<u8>,
    address: u64,
    complete: bool,
}

impl View for CStringReader {
    type V = ReaderView;

    closed spec fn view(&self) -> ReaderView {
        ReaderView { bytes: self.bytes@, address: self.address, complete: self.complete }
    }
}

impl CStringReader {
    /// A read that starts at `address` with nothing collected.
    pub fn new(address: u64) -> (reader: Self)
        ensures
            reader@ == (ReaderView { bytes: Seq::<u8>::empty(), address, complete: false }),
    {
        CStringReader { bytes: Vec::new(), address, complete: false }
    }

    /// The address to read the next chunk from; `None` once the terminator has
    /// been seen.
    pub fn next_address(&self) -> (address: Option<u64>)
        ensures
            address == if self@.complete {
                None
            } else {
                Some(self@.address)
            },
    {
        if self.complete {
            None
        } else {
            Some(self.address)
        }
    }

    /// Takes the bytes found at the current address, in memory order.
    ///
    /// The address must not run past the end of the address space before the
    /// terminator is found.
    pub fn feed(&mut self, chunk: &[u8])
        requires
            !old(self)@.complete ==> old(self)@.address + nul_position(chunk@) <= u64::MAX,
        ensures
            final(self)@ == fed(old(self)@, chunk@),
    {
        if self.complete {
            return ;
        }
        let ghost before = self@;
        let end: usize = nul_offset(chunk);
        proof {
            lemma_nul_position(chunk@);
        }
        let mut i: usize = 0;
        while i < end
            invariant
                0 <= i <= end <= chunk.len(),
                end == nul_position(chunk@),
                self.bytes@ == before.bytes + chunk@.take(i as int),
                self.address == before.address,
                !self.complete,
                before.address + end <= u64::MAX,
            decreases end - i,
        {
            self.bytes.push(chunk[i]);
            assert(chunk@.take(i as int).push(chunk@[i as int]) =~= chunk@.take(i + 1));
            i = i + 1;
        }
        self.address = self.address + end as u64;
        self.complete = end < chunk.len();
    }

    /// Takes the bytes found at the current address where the address stays
    /// within the address space, and says whether it did; where it does not,
    /// the read is left as it was.
    pub fn try_feed(&mut self, chunk: &[u8]) -> (taken: bool)
        ensures
            taken == (old(self)@.complete || old(self)@.address + nul_position(chunk@)
                <= u64::MAX),
            final(self)@ == if taken {
                fed(old(self)@, chunk@)
            } else {
                old(self)@
            },
    {
        if !self.complete && nul_offset(chunk) as u64 > u64::MAX - self.address {
            return false;
        }
        self.feed(chunk);
        true
    }

    /// The collected string, once its terminator has been seen.
    pub fn finish(self) -> (bytes: Option<Vec<u8>>)
        ensures
            bytes is Some == self@.complete,
            bytes matches Some(b) ==> b@ == self@.bytes,
    {
        if self.complete {
            Some(self.bytes)
        } else {
            None
        }
    }
}

} // verus!
