use vstd::math::min;
use vstd::prelude::*;

verus! {

/// The most bytes that an SMBus block transfer may carry.
pub const BLOCK_MAX: usize = 32;

/// heapless's fixed-capacity vector, which holds block responses. Proofs see
/// nothing inside it: what it holds is named by [`block_contents`].
#[verifier::external_type_specification]
#[verifier::external_body]
#[verifier::reject_recursive_types(T)]
pub struct ExHeaplessVec<T, const N: usize>(heapless::Vec<T, N>);

/// The bytes that a block buffer holds, in order.
pub uninterp spec fn block_contents(v: heapless::Vec<u8, 32>) -> Seq<u8>;

/// Relies on heapless::Vec::new: a new vector is empty.
#[verifier::external_body]
fn empty_block() -> (r: heapless::Vec<u8, 32>)
    ensures
        block_contents(r) == Seq::<u8>::empty(),
{
    heapless::Vec::new()
}

/// `s` cut to `n` bytes, or grown to `n` with zero bytes.
pub open spec fn resized(s: Seq<u8>, n: nat) -> Seq<u8> {
    if n <= s.len() {
        s.take(n as int)
    } else {
        s + Seq::new((n - s.len()) as nat, |i: int| 0u8)
    }
}

/// Relies on heapless::Vec::resize_default: within the capacity the vector is
/// cut to `n` bytes, or grown to `n` with zero bytes, and `Ok` comes back.
#[verifier::external_body]
fn resize_block(v: &mut heapless::Vec<u8, 32>, n: usize) -> (r: Result<(), ()>)
    requires
        n <= 32,
    ensures
        r is Ok,
        block_contents(*final(v)) == resized(block_contents(*old(v)), n as nat),
{
    v.resize_default(n)
}

/// Relies on heapless::Vec::as_slice: the slice holds the vector's bytes.
#[verifier::external_body]
fn block_bytes(v: &heapless::Vec<u8, 32>) -> (r: &[u8])
    ensures
        r@ == block_contents(*v),
{
    v.as_slice()
}

/// How many bytes of a staged block response are kept when its first byte
/// (the length prefix) is `n`: the prefix itself and `n` data bytes, never
/// more than the block ceiling.
pub open spec fn block_len(n: u8) -> int {
    min(n + 1, BLOCK_MAX as int)
}

/// Cuts a staged block response down to its length prefix and the data bytes
/// that the prefix announces, clamped to the block ceiling. A prefix too large
/// is not an error. A staged response shorter than the prefix announces is
/// grown with zero bytes; an empty one has no prefix and stays empty.
pub(crate) fn truncate_block(v: &mut heapless::Vec<u8, 32>)
    ensures
        block_contents(*final(v)) == (if block_contents(*old(v)).len() == 0 {
            block_contents(*old(v))
        } else {
            resized(block_contents(*old(v)), block_len(block_contents(*old(v))[0]) as nat)
        }),
{
    let staged = block_bytes(v);
    if staged.len() == 0 {
        return;
    }
    let first = staged[0];
    let len: usize = if first < 31 { first as usize + 1 } else { BLOCK_MAX };
    let _ = resize_block(v, len);
}

/// A block buffer at full capacity, all zero: the target that a block read
/// fills.
pub fn staging_buffer() -> (r: heapless::Vec<u8, 32>)
    ensures
        block_contents(r) == Seq::new(32, |i: int| 0u8),
{
    let mut v = empty_block();
    let _ = resize_block(&mut v, BLOCK_MAX);
    assert(resized(Seq::<u8>::empty(), 32) =~= Seq::new(32, |i: int| 0u8));
    v
}

} // verus!
