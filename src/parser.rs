//! The response parser: a streaming state machine that finds a slave's reply
//! (sync byte, identifier, data bytes, checksum) in the bytes that the UART
//! hands back after a read header, and classifies how far the reply got.
use vstd::prelude::*;

use crate::error::Mcp2003aError;

verus! {

/// The byte that leads every LIN frame: `0b0101_0101`.
pub const LIN_SYNC_BYTE: u8 = 0x55;

/// How far the parser has come through a reply.
#[derive(Clone, Copy, Debug, PartialEq, Eq, Structural)]
pub enum ParsePhase {
    /// Skipping bytes until a sync byte.
    AwaitSync,
    /// A sync byte was seen; the next byte must be the identifier.
    AwaitId,
    /// Copying data bytes until the expected count is reached.
    ReadData,
    /// All data bytes are in; the next byte is the checksum.
    AwaitChecksum,
    /// The whole reply is in.
    Done,
}

/// What a parser knows after some bytes: its phase, whether a sync byte was
/// ever matched, the data bytes copied so far and the checksum byte.
pub struct ResponseState {
    pub phase: ParsePhase,
    pub sync_seen: bool,
    pub data: Seq<u8>,
    pub checksum: u8,
}

/// The state before any byte.
pub open spec fn initial_state() -> ResponseState {
    ResponseState { phase: ParsePhase::AwaitSync, sync_seen: false, data: Seq::empty(), checksum: 0 }
}

/// One byte through the parser that waits for identifier `id` and `len` data
/// bytes. An identifier mismatch goes back to waiting for a sync byte, and the
/// mismatched byte is not taken as a new sync candidate.
pub open spec fn step(id: u8, len: nat, s: ResponseState, b: u8) -> ResponseState {
    match s.phase {
        ParsePhase::AwaitSync => if b == LIN_SYNC_BYTE {
            ResponseState { phase: ParsePhase::AwaitId, sync_seen: true, ..s }
        } else {
            s
        },
        ParsePhase::AwaitId => if b == id {
            ResponseState {
                phase: if len == 0 { ParsePhase::AwaitChecksum } else { ParsePhase::ReadData },
                ..s
            }
        } else {
            ResponseState { phase: ParsePhase::AwaitSync, ..s }
        },
        ParsePhase::ReadData => ResponseState {
            phase: if s.data.len() + 1 >= len { ParsePhase::AwaitChecksum } else { ParsePhase::ReadData },
            data: s.data.push(b),
            ..s
        },
        ParsePhase::AwaitChecksum => ResponseState { phase: ParsePhase::Done, checksum: b, ..s },
        ParsePhase::Done => s,
    }
}

/// The state after the parser has taken `bytes` in order.
pub open spec fn scan(id: u8, len: nat, bytes: Seq<u8>) -> ResponseState
    decreases bytes.len(),
{
    if bytes.len() == 0 {
        initial_state()
    } else {
        step(id, len, scan(id, len, bytes.drop_last()), bytes.last())
    }
}

/// How a read ends once the parser stopped in state `s`: the first match wins.
pub open spec fn outcome<E>(len: nat, s: ResponseState) -> Result<u8, Mcp2003aError<E>> {
    if !s.sync_seen {
        Err(Mcp2003aError::SyncByteNotReceivedBack)
    } else if s.phase == ParsePhase::AwaitSync || s.phase == ParsePhase::AwaitId {
        Err(Mcp2003aError::IdByteNotReceivedBack)
    } else if s.data.len() == 0 {
        Err(Mcp2003aError::LinReadDeviceTimeoutNoResponse)
    } else if s.data.len() < len {
        Err(Mcp2003aError::LinReadOnlyPartialResponse(s.data.len() as usize))
    } else if s.phase != ParsePhase::Done {
        Err(Mcp2003aError::LinReadNoChecksumReceived)
    } else {
        Ok(s.checksum)
    }
}

/// What a read leaves in a buffer that held `old`: the copied data bytes in
/// front, the rest untouched.
pub open spec fn filled_buffer(old: Seq<u8>, s: ResponseState) -> Seq<u8> {
    s.data + old.skip(s.data.len() as int)
}

/// The streaming parser of one reply. It lives for one read and holds no
/// state across reads.
pub struct ResponseParser {
    id: u8,
    data_len: usize,
    phase: ParsePhase,
    sync_seen: bool,
    data: Vec<u8>,
    checksum: u8,
}

impl View for ResponseParser {
    type V = ResponseState;

    closed spec fn view(&self) -> ResponseState {
        ResponseState {
            phase: self.phase,
            sync_seen: self.sync_seen,
            data: self.data@,
            checksum: self.checksum,
        }
    }
}

impl ResponseParser {
    /// The identifier byte the parser waits for.
    pub closed spec fn expected_id(&self) -> u8 {
        self.id
    }

    /// The number of data bytes the parser waits for.
    pub closed spec fn expected_len(&self) -> nat {
        self.data_len as nat
    }

    /// The data bytes never outrun the expected count.
    pub closed spec fn wf(&self) -> bool {
        &&& self.data@.len() <= self.data_len
        &&& self.phase == ParsePhase::ReadData ==> self.data@.len() < self.data_len
        &&& (self.phase == ParsePhase::AwaitSync || self.phase == ParsePhase::AwaitId)
            ==> self.data@.len() == 0
    }

    /// A parser that waits for a reply to identifier `id` with `data_len` data bytes.
    pub fn new(id: u8, data_len: usize) -> (r: Self)
        ensures
            r.wf(),
            r@ == initial_state(),
            r.expected_id() == id,
            r.expected_len() == data_len,
    {
        ResponseParser {
            id,
            data_len,
            phase: ParsePhase::AwaitSync,
            sync_seen: false,
            data: Vec::new(),
            checksum: 0,
        }
    }

    /// Whether the whole reply is in: no further byte changes the state.
    pub fn is_done(&self) -> (r: bool)
        ensures
            r == (self@.phase == ParsePhase::Done),
    {
        self.phase == ParsePhase::Done
    }

    /// Takes one byte from the UART. Returns whether the parser wants more.
    pub fn feed(&mut self, byte: u8) -> (more: bool)
        requires
            old(self).wf(),
        ensures
            final(self).wf(),
            final(self)@ == step(old(self).expected_id(), old(self).expected_len(), old(self)@, byte),
            final(self).expected_id() == old(self).expected_id(),
            final(self).expected_len() == old(self).expected_len(),
            more == (final(self)@.phase != ParsePhase::Done),
    {
        match self.phase {
            ParsePhase::AwaitSync => {
                if byte == LIN_SYNC_BYTE {
                    self.phase = ParsePhase::AwaitId;
                    self.sync_seen = true;
                }
            },
            ParsePhase::AwaitId => {
                if byte == self.id {
                    if self.data_len == 0 {
                        self.phase = ParsePhase::AwaitChecksum;
                    } else {
                        self.phase = ParsePhase::ReadData;
                    }
                } else {
                    self.phase = ParsePhase::AwaitSync;
                }
            },
            ParsePhase::ReadData => {
                self.data.push(byte);
                if self.data.len() >= self.data_len {
                    self.phase = ParsePhase::AwaitChecksum;
                }
            },
            ParsePhase::AwaitChecksum => {
                self.checksum = byte;
                self.phase = ParsePhase::Done;
            },
            ParsePhase::Done => {},
        }
        self.phase != ParsePhase::Done
    }

    /// Copies the data bytes received so far to the front of `buffer` and
    /// classifies the reply.
    pub fn finish<E>(&self, buffer: &mut [u8]) -> (r: Result<u8, Mcp2003aError<E>>)
        requires
            self.wf(),
            old(buffer)@.len() == self.expected_len(),
        ensures
            r == outcome::<E>(self.expected_len(), self@),
            final(buffer)@ == filled_buffer(old(buffer)@, self@),
    {
        let n = self.data.len();
        let mut i: usize = 0;
        while i < n
            invariant
                n == self.data@.len(),
                n <= buffer@.len(),
                i <= n,
                buffer@.len() == old(buffer)@.len(),
                forall|k: int| 0 <= k < i ==> buffer@[k] == self.data@[k],
                forall|k: int| i <= k < buffer@.len() ==> buffer@[k] == old(buffer)@[k],
            decreases n - i,
        {
            buffer[i] = self.data[i];
            i = i + 1;
        }
        assert(buffer@ =~= filled_buffer(old(buffer)@, self@));
        if !self.sync_seen {
            Err(Mcp2003aError::SyncByteNotReceivedBack)
        } else if self.phase == ParsePhase::AwaitSync || self.phase == ParsePhase::AwaitId {
            Err(Mcp2003aError::IdByteNotReceivedBack)
        } else if n == 0 {
            Err(Mcp2003aError::LinReadDeviceTimeoutNoResponse)
        } else if n < self.data_len {
            Err(Mcp2003aError::LinReadOnlyPartialResponse(n))
        } else if self.phase != ParsePhase::Done {
            Err(Mcp2003aError::LinReadNoChecksumReceived)
        } else {
            Ok(self.checksum)
        }
    }
}

/// Taking one more byte is one more step.
proof fn lemma_scan_take_next(id: u8, len: nat, bytes: Seq<u8>, i: int)
    requires
        0 <= i < bytes.len(),
    ensures
        scan(id, len, bytes.take(i + 1)) == step(id, len, scan(id, len, bytes.take(i)), bytes[i]),
{
    assert(bytes.take(i + 1).drop_last() =~= bytes.take(i));
}

/// Once the reply is complete, later bytes change nothing: the parser stops there.
pub proof fn lemma_scan_done_absorbs(id: u8, len: nat, bytes: Seq<u8>, rest: Seq<u8>)
    requires
        scan(id, len, bytes).phase == ParsePhase::Done,
    ensures
        scan(id, len, bytes + rest) == scan(id, len, bytes),
    decreases rest.len(),
{
    if rest.len() == 0 {
        assert(bytes + rest =~= bytes);
    } else {
        lemma_scan_done_absorbs(id, len, bytes, rest.drop_last());
        assert((bytes + rest).drop_last() =~= bytes + rest.drop_last());
    }
}

/// The parser never copies more data bytes than it waits for.
proof fn lemma_scan_data_bounded(id: u8, len: nat, bytes: Seq<u8>)
    ensures
        scan(id, len, bytes).data.len() <= len,
        scan(id, len, bytes).phase == ParsePhase::ReadData ==> scan(id, len, bytes).data.len()
            < len,
        (scan(id, len, bytes).phase == ParsePhase::AwaitSync || scan(id, len, bytes).phase
            == ParsePhase::AwaitId) ==> scan(id, len, bytes).data.len() == 0,
    decreases bytes.len(),
{
    if bytes.len() > 0 {
        lemma_scan_data_bounded(id, len, bytes.drop_last());
    }
}

/// A read keeps nothing from one call to the next: reading the same bytes
/// again gives the same result, and leaves the buffer as the first read left it.
pub proof fn lemma_read_repeatable<E>(id: u8, stream: Seq<u8>, buffer: Seq<u8>)
    ensures
        ({
            let once = filled_buffer(buffer, scan(id, buffer.len(), stream));
            &&& once.len() == buffer.len()
            &&& outcome::<E>(once.len(), scan(id, once.len(), stream)) == outcome::<E>(
                buffer.len(),
                scan(id, buffer.len(), stream),
            )
            &&& filled_buffer(once, scan(id, once.len(), stream)) == once
        }),
{
    let s = scan(id, buffer.len(), stream);
    lemma_scan_data_bounded(id, buffer.len(), stream);
    let once = filled_buffer(buffer, s);
    assert(once.len() == buffer.len());
    assert(filled_buffer(once, s) =~= once);
}

/// Reads a reply to identifier `id` out of `stream`, the bytes that one drain
/// of the UART gave after the read header, into `buffer`, whose length is the
/// number of data bytes expected. Returns the checksum byte, unchecked, or
/// the classification of how far the reply got.
pub fn parse_response<E>(id: u8, stream: &[u8], buffer: &mut [u8]) -> (r: Result<
    u8,
    Mcp2003aError<E>,
>)
    ensures
        r == outcome::<E>(old(buffer)@.len(), scan(id, old(buffer)@.len(), stream@)),
        final(buffer)@ == filled_buffer(old(buffer)@, scan(id, old(buffer)@.len(), stream@)),
{
    let ghost len = buffer@.len();
    let mut parser = ResponseParser::new(id, buffer.len());
    let mut i: usize = 0;
    assert(stream@.take(stream@.len() as int) =~= stream@);
    while i < stream.len()
        invariant
            i <= stream@.len(),
            stream@.take(stream@.len() as int) == stream@,
            parser.wf(),
            parser.expected_id() == id,
            parser.expected_len() == len,
            parser@ == scan(id, len, stream@.take(i as int)),
        ensures
            parser.wf(),
            parser.expected_len() == len,
            parser@ == scan(id, len, stream@),
        decreases stream@.len() - i,
    {
        proof {
            lemma_scan_take_next(id, len, stream@, i as int);
        }
        let more = parser.feed(stream[i]);
        i = i + 1;
        if !more {
            proof {
                lemma_scan_done_absorbs(id, len, stream@.take(i as int), stream@.skip(i as int));
                assert(stream@.take(i as int) + stream@.skip(i as int) =~= stream@);
            }
            break;
        }
    }
    parser.finish(buffer)
}

} // verus!
