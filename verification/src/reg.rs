//! Read-modify-write primitives for 32-bit peripheral registers.
//!
//! Every hardware register in this crate is modelled as a plain `u32`.  All
//! field updates go through the functions here, whose contracts state the one
//! property the whole layer depends on: a write touches exactly the targeted
//! bits and preserves every other bit of the register.

use vstd::prelude::*;

verus! {

/// Mask with the low `width` bits set.
pub open spec fn low_mask(width: u32) -> u32 {
    if width < 32 {
        ((1u32 << width) - 1) as u32
    } else {
        0xffff_ffffu32
    }
}

/// Mask covering the `width`-bit field that starts at bit `shift`.
pub open spec fn field_mask(shift: u32, width: u32) -> u32 {
    low_mask(width) << shift
}

/// The value of `reg` with the `width`-bit field at `shift` replaced by
/// `value` (excess high bits of `value` are ignored).
pub open spec fn with_field(reg: u32, shift: u32, width: u32, value: u32) -> u32 {
    (reg & !field_mask(shift, width)) | ((value & low_mask(width)) << shift)
}

/// The `width`-bit field of `reg` that starts at bit `shift`.
pub open spec fn get_field(reg: u32, shift: u32, width: u32) -> u32 {
    (reg >> shift) & low_mask(width)
}

/// Whether bit `bit` of `reg` is set.
pub open spec fn get_bit(reg: u32, bit: u32) -> bool {
    (reg >> bit) & 1 == 1
}

/// The value of `reg` with bit `bit` set or cleared.
pub open spec fn with_bit(reg: u32, bit: u32, on: bool) -> u32 {
    if on {
        reg | (1u32 << bit)
    } else {
        reg & !(1u32 << bit)
    }
}

/// Read-modify-write of a whole register: read the current value, apply
/// `f`, write the result back, in one logical step with no intervening
/// access from this execution context.  There is no error path at this
/// layer; what `f` must keep of the register is the caller's obligation,
/// carried by `f`'s own contract.
pub fn modify<F: FnOnce(u32) -> u32>(reg: &mut u32, f: F)
    requires
        f.requires((*old(reg),)),
    ensures
        f.ensures((*old(reg),), *final(reg)),
{
    *reg = f(*reg);
}

/// Mask with the low `width` bits set, as an executable value.
pub fn mask_value(width: u32) -> (m: u32)
    ensures
        m == low_mask(width),
{
    if width < 32 {
        proof {
            assert(1u32 << width >= 1) by (bit_vector)
                requires
                    width < 32,
            ;
        }
        (1u32 << width) - 1
    } else {
        0xffff_ffffu32
    }
}

/// Read-modify-write of one bit field: the targeted bits take `value`, all
/// bits outside the field keep their previous value.
pub fn modify_field(reg: &mut u32, shift: u32, width: u32, value: u32)
    requires
        shift < 32,
        0 < width,
        shift + width <= 32,
    ensures
        *final(reg) == with_field(*old(reg), shift, width, value),
{
    let m: u32 = mask_value(width);
    *reg = (*reg & !(m << shift)) | ((value & m) << shift);
}

/// Set (`on == true`) or clear one bit, leaving the rest of the register
/// unchanged.
pub fn modify_bit(reg: &mut u32, bit: u32, on: bool)
    requires
        bit < 32,
    ensures
        *final(reg) == with_bit(*old(reg), bit, on),
{
    if on {
        *reg = *reg | (1u32 << bit);
    } else {
        *reg = *reg & !(1u32 << bit);
    }
}

/// Set every bit of `mask_bits`, leaving the rest of the register unchanged.
pub fn set_mask(reg: &mut u32, mask_bits: u32)
    ensures
        *final(reg) == (*old(reg) | mask_bits),
{
    *reg = *reg | mask_bits;
}

/// Clear every bit of `mask_bits`, leaving the rest of the register unchanged.
pub fn clear_mask(reg: &mut u32, mask_bits: u32)
    ensures
        *final(reg) == (*old(reg) & !mask_bits),
{
    *reg = *reg & !mask_bits;
}

/// Read one bit field of a register value.
pub fn read_field(reg: u32, shift: u32, width: u32) -> (v: u32)
    requires
        shift < 32,
    ensures
        v == get_field(reg, shift, width),
{
    (reg >> shift) & mask_value(width)
}

/// Read one bit of a register value.
pub fn read_bit(reg: u32, bit: u32) -> (b: bool)
    requires
        bit < 32,
    ensures
        b == get_bit(reg, bit),
{
    ((reg >> bit) & 1) == 1
}

/// A field update stores exactly the intended value in the targeted bits and
/// preserves every bit outside the field: the XOR of the register before and
/// after, masked to the untouched positions, is zero.
pub proof fn lemma_field_update(reg: u32, shift: u32, width: u32, value: u32)
    requires
        shift < 32,
        0 < width,
        shift + width <= 32,
    ensures
        get_field(with_field(reg, shift, width, value), shift, width) == (value & low_mask(
            width,
        )),
        with_field(reg, shift, width, value) & !field_mask(shift, width) == reg & !field_mask(
            shift,
            width,
        ),
        (with_field(reg, shift, width, value) ^ reg) & !field_mask(shift, width) == 0,
{
    assert((get_field(with_field(reg, shift, width, value), shift, width) == (value & low_mask(
        width,
    ))) && (with_field(reg, shift, width, value) & !field_mask(shift, width) == reg & !field_mask(
        shift,
        width,
    )) && ((with_field(reg, shift, width, value) ^ reg) & !field_mask(shift, width) == 0))
        by (bit_vector)
        requires
            shift < 32,
            0 < width,
            shift + width <= 32,
    ;
}

/// Concrete values of the field masks used across the crate.
pub proof fn lemma_mask_values()
    ensures
        low_mask(1) == 0x1,
        low_mask(2) == 0x3,
        low_mask(3) == 0x7,
        low_mask(4) == 0xf,
        low_mask(5) == 0x1f,
        low_mask(6) == 0x3f,
        low_mask(8) == 0xff,
        low_mask(9) == 0x1ff,
        low_mask(10) == 0x3ff,
        low_mask(11) == 0x7ff,
        low_mask(12) == 0xfff,
        low_mask(13) == 0x1fff,
        low_mask(15) == 0x7fff,
        low_mask(16) == 0xffff,
{
    assert(low_mask(1) == 0x1 && low_mask(2) == 0x3 && low_mask(3) == 0x7 && low_mask(4) == 0xf
        && low_mask(5) == 0x1f && low_mask(6) == 0x3f && low_mask(8) == 0xff && low_mask(9)
        == 0x1ff && low_mask(10) == 0x3ff && low_mask(11) == 0x7ff && low_mask(12) == 0xfff
        && low_mask(13) == 0x1fff && low_mask(15) == 0x7fff && low_mask(16) == 0xffff)
        by (bit_vector);
}

/// A value no larger than the field mask passes through the mask intact.
pub proof fn lemma_masked_identity(value: u32, width: u32)
    requires
        value <= low_mask(width),
    ensures
        value & low_mask(width) == value,
{
    assert(value <= low_mask(width) ==> value & low_mask(width) == value) by (bit_vector);
}

/// A field update leaves any field at disjoint bit positions unchanged.
pub proof fn lemma_field_disjoint(
    reg: u32,
    shift: u32,
    width: u32,
    value: u32,
    shift2: u32,
    width2: u32,
)
    requires
        shift < 32,
        0 < width,
        shift + width <= 32,
        shift2 < 32,
        0 < width2,
        shift2 + width2 <= 32,
        shift2 + width2 <= shift || shift + width <= shift2,
    ensures
        get_field(with_field(reg, shift, width, value), shift2, width2) == get_field(
            reg,
            shift2,
            width2,
        ),
{
    assert(get_field(with_field(reg, shift, width, value), shift2, width2) == get_field(
        reg,
        shift2,
        width2,
    )) by (bit_vector)
        requires
            shift < 32,
            0 < width,
            shift + width <= 32,
            shift2 < 32,
            0 < width2,
            shift2 + width2 <= 32,
            shift2 + width2 <= shift || shift + width <= shift2,
    ;
}

/// Setting bits never clears a flag that was already observed through a mask.
pub proof fn lemma_or_keeps_mask(x: u32, m: u32, c: u32)
    requires
        x & c != 0,
    ensures
        (x | m) & c != 0,
{
    assert(x & c != 0 ==> (x | m) & c != 0) by (bit_vector);
}

/// A field never reads above its mask.
pub proof fn lemma_get_field_le(reg: u32, shift: u32, width: u32)
    ensures
        get_field(reg, shift, width) <= low_mask(width),
{
    assert(get_field(reg, shift, width) <= low_mask(width)) by (bit_vector);
}

/// A bit update sets exactly the targeted bit and preserves every other bit.
pub proof fn lemma_bit_update(reg: u32, bit: u32, on: bool)
    requires
        bit < 32,
    ensures
        get_bit(with_bit(reg, bit, on), bit) == on,
        forall|j: u32|
            j < 32 && j != bit ==> get_bit(with_bit(reg, bit, on), j) == get_bit(reg, j),
{
    assert(get_bit(with_bit(reg, bit, on), bit) == on) by (bit_vector)
        requires
            bit < 32,
    ;
    assert(forall|j: u32|
        j < 32 && j != bit ==> #[trigger] get_bit(with_bit(reg, bit, on), j) == get_bit(reg, j))
        by (bit_vector)
        requires
            bit < 32,
    ;
}

} // verus!
