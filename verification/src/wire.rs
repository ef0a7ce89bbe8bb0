//! The buffer that a Coyote 3 command is written to.

use arrayvec::ArrayVec;
use binrw::BinWrite;
use vstd::prelude::*;

verus! {

/// The fixed-capacity vector of the `arrayvec` crate. Verus sees nothing inside it.
#[verifier::external_type_specification]
#[verifier::external_body]
#[verifier::reject_recursive_types(T)]
pub struct ExArrayVec<T, const CAP: usize>(ArrayVec<T, CAP>);

/// The bytes that a buffer holds, in order.
pub uninterp spec fn wire_bytes(buffer: ArrayVec<u8, 20>) -> Seq<u8>;

/// `ArrayVec::new_const` of `arrayvec` makes a vector without elements.
#[verifier::external_body]
pub(crate) fn empty_buffer() -> (buffer: ArrayVec<u8, 20>)
    ensures
        wire_bytes(buffer) == Seq::<u8>::empty(),
{
    ArrayVec::<u8, 20>::new_const()
}

/// `BinWrite::write_be` of `binrw`, on a `u8` and through `NoSeek` on the vector of `arrayvec`,
/// appends the byte; it cannot fail as long as the vector has room for it.
#[verifier::external_body]
pub(crate) fn write_byte(buffer: &mut ArrayVec<u8, 20>, byte: u8)
    requires
        wire_bytes(*old(buffer)).len() < 20,
    ensures
        wire_bytes(*final(buffer)) == wire_bytes(*old(buffer)).push(byte),
{
    byte.write_be(&mut binrw::io::NoSeek::new(buffer)).expect("writing must not fail")
}

/// Append four bytes.
pub(crate) fn write_row(buffer: &mut ArrayVec<u8, 20>, row: [u8; 4])
    requires
        wire_bytes(*old(buffer)).len() + 4 <= 20,
    ensures
        wire_bytes(*final(buffer)) == wire_bytes(*old(buffer)) + row@,
{
    write_byte(buffer, row[0]);
    write_byte(buffer, row[1]);
    write_byte(buffer, row[2]);
    write_byte(buffer, row[3]);
    assert(wire_bytes(*buffer) =~= wire_bytes(*old(buffer)) + row@);
}

} // verus!
