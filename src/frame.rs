//! LIN frames as they go on the wire: sync byte, identifier, one to eight data
//! bytes, checksum.
use vstd::prelude::*;

use crate::error::Mcp2003aError;
use crate::parser::{
    filled_buffer, initial_state, lemma_scan_done_absorbs, outcome, scan, step, ParsePhase,
    ResponseState, LIN_SYNC_BYTE,
};

verus! {

/// Size of the fixed frame buffer: sync, identifier, eight data bytes, checksum.
pub const LIN_MAX_FRAME_LEN: usize = 11;

/// Most data bytes a LIN frame carries.
pub const LIN_MAX_DATA_LEN: usize = 8;

/// The bytes of a frame with identifier `id`, data `data` and checksum `checksum`.
pub open spec fn frame_bytes(id: u8, data: Seq<u8>, checksum: u8) -> Seq<u8> {
    seq![LIN_SYNC_BYTE, id] + data + seq![checksum]
}

/// A data length that a frame can carry.
pub open spec fn valid_data_len(n: nat) -> bool {
    1 <= n <= LIN_MAX_DATA_LEN
}

/// Builds the fixed frame buffer for identifier `id`, `data` and `checksum`:
/// the frame's `3 + data.len()` bytes in front, zeros after them.
pub fn build_frame(id: u8, data: &[u8], checksum: u8) -> (frame: [u8; 11])
    requires
        valid_data_len(data@.len()),
    ensures
        frame@.take(data@.len() + 3int) == frame_bytes(id, data@, checksum),
        forall|k: int| data@.len() + 3 <= k < LIN_MAX_FRAME_LEN ==> frame@[k] == 0,
{
    let n = data.len();
    let mut frame = [0u8; 11];
    frame[0] = LIN_SYNC_BYTE;
    frame[1] = id;
    let mut i: usize = 0;
    while i < n
        invariant
            n == data@.len(),
            valid_data_len(n as nat),
            i <= n,
            frame@.len() == LIN_MAX_FRAME_LEN,
            frame@[0] == LIN_SYNC_BYTE,
            frame@[1] == id,
            forall|k: int| 0 <= k < i ==> frame@[k + 2] == data@[k],
            forall|k: int| i + 2 <= k < LIN_MAX_FRAME_LEN ==> frame@[k] == 0,
        decreases n - i,
    {
        frame[i + 2] = data[i];
        i = i + 1;
    }
    frame[n + 2] = checksum;
    assert(frame@.take(n + 3) =~= frame_bytes(id, data@, checksum));
    frame
}

/// The state of a parser that waits for `data.len()` data bytes after it has
/// read a sync byte, identifier `id` and the first `k` data bytes.
proof fn lemma_scan_header_and_data(id: u8, data: Seq<u8>, k: int)
    requires
        data.len() >= 1,
        0 <= k <= data.len(),
    ensures
        scan(id, data.len(), seq![LIN_SYNC_BYTE, id] + data.take(k)) == (ResponseState {
            phase: if k < data.len() { ParsePhase::ReadData } else { ParsePhase::AwaitChecksum },
            sync_seen: true,
            data: data.take(k),
            checksum: 0,
        }),
    decreases k,
{
    let len = data.len();
    let header = seq![LIN_SYNC_BYTE, id];
    if k == 0 {
        let sync = seq![LIN_SYNC_BYTE];
        assert(header + data.take(0) =~= header);
        assert(sync.drop_last() =~= Seq::<u8>::empty());
        assert(sync.last() == LIN_SYNC_BYTE);
        assert(scan(id, len, sync.drop_last()) == initial_state());
        assert(scan(id, len, sync) == step(id, len, initial_state(), LIN_SYNC_BYTE));
        assert(header.drop_last() =~= sync);
        assert(header.last() == id);
        assert(scan(id, len, header) == step(id, len, scan(id, len, sync), id));
        assert(data.take(0) =~= Seq::<u8>::empty());
    } else {
        lemma_scan_header_and_data(id, data, k - 1);
        assert((header + data.take(k)).drop_last() =~= header + data.take(k - 1));
        assert((header + data.take(k)).last() == data[k - 1]);
        assert(data.take(k - 1).push(data[k - 1]) =~= data.take(k));
    }
}

/// A frame read back as a reply is parsed into its own data and checksum,
/// whatever bytes follow it: the parser stops at the checksum.
pub proof fn lemma_frame_round_trip(id: u8, data: Seq<u8>, checksum: u8, rest: Seq<u8>)
    requires
        valid_data_len(data.len()),
    ensures
        scan(id, data.len(), frame_bytes(id, data, checksum) + rest) == (ResponseState {
            phase: ParsePhase::Done,
            sync_seen: true,
            data,
            checksum,
        }),
{
    let len = data.len();
    let frame = frame_bytes(id, data, checksum);
    lemma_scan_header_and_data(id, data, len as int);
    assert(data.take(len as int) =~= data);
    assert(frame.drop_last() =~= seq![LIN_SYNC_BYTE, id] + data.take(len as int));
    lemma_scan_done_absorbs(id, len, frame, rest);
}

/// Reading back a sent frame gives the checksum that was sent and leaves the
/// sent data in a buffer of the data's length.
pub proof fn lemma_read_back_sent_frame<E>(
    id: u8,
    data: Seq<u8>,
    checksum: u8,
    rest: Seq<u8>,
    buffer: Seq<u8>,
)
    requires
        valid_data_len(data.len()),
        buffer.len() == data.len(),
    ensures
        outcome::<E>(buffer.len(), scan(id, buffer.len(), frame_bytes(id, data, checksum) + rest))
            == Ok::<u8, Mcp2003aError<E>>(checksum),
        filled_buffer(buffer, scan(id, buffer.len(), frame_bytes(id, data, checksum) + rest))
            == data,
{
    lemma_frame_round_trip(id, data, checksum, rest);
    assert(data + buffer.skip(data.len() as int) =~= data);
}

} // verus!
