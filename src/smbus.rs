use vstd::math::min;
use vstd::prelude::*;
use crate::block::{block_contents, block_len, resized, truncate_block, BLOCK_MAX};
use crate::transfer::{Segment, SegmentView, Transfer, TransferView};

verus! {

/// The low-order byte of a word: the first byte on the wire.
pub open spec fn low_byte(word: u16) -> u8 {
    (word % 256) as u8
}

/// The high-order byte of a word: the second byte on the wire.
pub open spec fn high_byte(word: u16) -> u8 {
    (word / 256) as u8
}

/// The word whose little-endian bytes are `lo`, then `hi`.
pub open spec fn le_word(lo: u8, hi: u8) -> u16 {
    (lo + 256 * hi) as u16
}

/// The transfer that carries a Write Word: the register, then the word in
/// little-endian order.
pub open spec fn write_word_transfer(address: u8, register: u8, word: u16) -> TransferView {
    TransferView::Write { address, bytes: seq![register, low_byte(word), high_byte(word)] }
}

/// The transfer that carries a Read Word: the register, then two bytes back.
pub open spec fn read_word_transfer(address: u8, register: u8) -> TransferView {
    TransferView::WriteRead { address, bytes: seq![register], len: 2 }
}

/// The first segment of a block request: the register and the data's length.
pub open spec fn block_header(register: u8, data: Seq<u8>) -> SegmentView {
    SegmentView::Write(seq![register, data.len() as u8])
}

fn split_word(word: u16) -> (r: (u8, u8))
    ensures
        r.0 == low_byte(word),
        r.1 == high_byte(word),
{
    ((word % 256) as u8, (word / 256) as u8)
}

/// Quick Command: the flag travels as the direction alone, a read of nothing
/// when it is set, a write of nothing when it is clear.
pub fn quick_command(address: u8, bit: bool) -> (r: Transfer)
    ensures
        r@ == (if bit {
            TransferView::Read { address, len: 0 }
        } else {
            TransferView::Write { address, bytes: Seq::empty() }
        }),
{
    if bit {
        Transfer::Read { address, len: 0 }
    } else {
        let bytes: Vec<u8> = Vec::new();
        assert(bytes@ =~= Seq::<u8>::empty());
        Transfer::Write { address, bytes }
    }
}

/// Block Read Process Call: one transaction that writes the register and the
/// data's length, then the data, then reads a full block.
pub fn block_read_process_call(address: u8, register: u8, data: &[u8]) -> (r: Transfer)
    requires
        data@.len() <= BLOCK_MAX,
    ensures
        r@ == (TransferView::Transaction {
            address,
            segments: seq![
                block_header(register, data@),
                SegmentView::Write(data@),
                SegmentView::Read(BLOCK_MAX as nat),
            ],
        }),
{
    let header = Segment::Write(vec![register, data.len() as u8]);
    let body = Segment::Write(vstd::slice::slice_to_vec(data));
    let segments = vec![header, body, Segment::Read(BLOCK_MAX)];
    let r = Transfer::Transaction { address, segments };
    assert(r@->segments =~= seq![
        block_header(register, data@),
        SegmentView::Write(data@),
        SegmentView::Read(BLOCK_MAX as nat),
    ]);
    r
}

/// Block Read: the register, then a full block read into the staging buffer.
pub fn block_read(address: u8, register: u8) -> (r: Transfer)
    ensures
        r@ == (TransferView::WriteRead { address, bytes: seq![register], len: BLOCK_MAX as nat }),
{
    let bytes = vec![register];
    assert(bytes@ =~= seq![register]);
    Transfer::WriteRead { address, bytes, len: BLOCK_MAX }
}

/// Process Call: one transaction that writes the register and the word, then
/// reads the two bytes of the answer.
pub fn process_call(address: u8, register: u8, word: u16) -> (r: Transfer)
    ensures
        r@ == (TransferView::Transaction {
            address,
            segments: seq![
                SegmentView::Write(seq![register, low_byte(word), high_byte(word)]),
                SegmentView::Read(2),
            ],
        }),
{
    let (lo, hi) = split_word(word);
    let segments = vec![Segment::Write(vec![register, lo, hi]), Segment::Read(2)];
    let r = Transfer::Transaction { address, segments };
    assert(r@->segments =~= seq![
        SegmentView::Write(seq![register, low_byte(word), high_byte(word)]),
        SegmentView::Read(2),
    ]);
    r
}

/// Block Write: one transaction that writes the register and the data's
/// length, then the data.
pub fn block_write(address: u8, register: u8, data: &[u8]) -> (r: Transfer)
    requires
        data@.len() <= BLOCK_MAX,
    ensures
        r@ == (TransferView::Transaction {
            address,
            segments: seq![block_header(register, data@), SegmentView::Write(data@)],
        }),
{
    let header = Segment::Write(vec![register, data.len() as u8]);
    let body = Segment::Write(vstd::slice::slice_to_vec(data));
    let segments = vec![header, body];
    let r = Transfer::Transaction { address, segments };
    assert(r@->segments =~= seq![block_header(register, data@), SegmentView::Write(data@)]);
    r
}

/// The result of a block operation, from what the transport left in the
/// staging buffer: the buffer cut to its length prefix and the data bytes that
/// the prefix announces, never more than [`BLOCK_MAX`] bytes in all; or the
/// transport's error as it came.
pub fn block_reply<E>(outcome: Result<heapless::Vec<u8, 32>, E>) -> (r: Result<heapless::Vec<u8, 32>, E>)
    ensures
        match outcome {
            Ok(v) => r is Ok && block_contents(r->Ok_0) == (if block_contents(v).len() == 0 {
                block_contents(v)
            } else {
                resized(block_contents(v), block_len(block_contents(v)[0]) as nat)
            }),
            Err(e) => r == Err::<heapless::Vec<u8, 32>, E>(e),
        },
{
    match outcome {
        Ok(v) => {
            let mut v = v;
            truncate_block(&mut v);
            Ok(v)
        },
        Err(e) => Err(e),
    }
}

/// Receive Byte: one byte read from the device.
pub fn receive_byte(address: u8) -> (r: Transfer)
    ensures
        r@ == (TransferView::Read { address, len: 1 }),
{
    Transfer::Read { address, len: 1 }
}

/// Send Byte: one byte written to the device.
pub fn send_byte(address: u8, byte: u8) -> (r: Transfer)
    ensures
        r@ == (TransferView::Write { address, bytes: seq![byte] }),
{
    let bytes = vec![byte];
    assert(bytes@ =~= seq![byte]);
    Transfer::Write { address, bytes }
}

/// Read Byte: the register, then one byte back.
pub fn read_byte(address: u8, register: u8) -> (r: Transfer)
    ensures
        r@ == (TransferView::WriteRead { address, bytes: seq![register], len: 1 }),
{
    let bytes = vec![register];
    assert(bytes@ =~= seq![register]);
    Transfer::WriteRead { address, bytes, len: 1 }
}

/// Read Word: the register, then two bytes back.
pub fn read_word(address: u8, register: u8) -> (r: Transfer)
    ensures
        r@ == read_word_transfer(address, register),
{
    let bytes = vec![register];
    assert(bytes@ =~= seq![register]);
    Transfer::WriteRead { address, bytes, len: 2 }
}

/// Write Byte: the register, then the byte.
pub fn write_byte(address: u8, register: u8, byte: u8) -> (r: Transfer)
    ensures
        r@ == (TransferView::Write { address, bytes: seq![register, byte] }),
{
    let bytes = vec![register, byte];
    assert(bytes@ =~= seq![register, byte]);
    Transfer::Write { address, bytes }
}

/// Write Word: the register, then the word in little-endian order.
pub fn write_word(address: u8, register: u8, word: u16) -> (r: Transfer)
    ensures
        r@ == write_word_transfer(address, register, word),
{
    let (lo, hi) = split_word(word);
    let bytes = vec![register, lo, hi];
    assert(bytes@ =~= seq![register, low_byte(word), high_byte(word)]);
    Transfer::Write { address, bytes }
}

/// The result of a one-byte read: the byte, or the transport's error as it
/// came.
pub fn byte_reply<E>(outcome: Result<[u8; 1], E>) -> (r: Result<u8, E>)
    ensures
        match outcome {
            Ok(buf) => r == Ok::<u8, E>(buf@[0]),
            Err(e) => r == Err::<u8, E>(e),
        },
{
    match outcome {
        Ok(buf) => Ok(buf[0]),
        Err(e) => Err(e),
    }
}

/// The result of a two-byte read: the word they spell in little-endian order,
/// or the transport's error as it came.
pub fn word_reply<E>(outcome: Result<[u8; 2], E>) -> (r: Result<u16, E>)
    ensures
        match outcome {
            Ok(buf) => r == Ok::<u16, E>(le_word(buf@[0], buf@[1])),
            Err(e) => r == Err::<u16, E>(e),
        },
{
    match outcome {
        Ok(buf) => Ok(buf[0] as u16 + 256 * buf[1] as u16),
        Err(e) => Err(e),
    }
}

/// A word written with Write Word and read back with Read Word from a device
/// that keeps the written bytes under the register comes back unchanged: the
/// two bytes after the register, read in order, spell the word again.
pub proof fn word_round_trip(address: u8, register: u8, word: u16)
    ensures
        ({
            let written = write_word_transfer(address, register, word)->Write_bytes;
            &&& written[0] == register
            &&& read_word_transfer(address, register)->WriteRead_bytes == seq![register]
            &&& read_word_transfer(address, register)->WriteRead_len == 2
            &&& le_word(written[1], written[2]) == word
        }),
{
}

/// A block response staged at full capacity keeps exactly its first
/// `min(N + 1, 32)` bytes, where `N` is its first byte: the length prefix stays
/// in front, and a prefix of 31 or more keeps the whole block.
pub proof fn staged_block_length(staged: Seq<u8>)
    requires
        staged.len() == BLOCK_MAX,
    ensures
        resized(staged, block_len(staged[0]) as nat) == staged.take(block_len(staged[0])),
        resized(staged, block_len(staged[0]) as nat).len() == min(staged[0] + 1, 32),
        resized(staged, block_len(staged[0]) as nat)[0] == staged[0],
{
}

} // verus!
