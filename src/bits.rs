use vstd::prelude::*;

verus! {

/// The `w` low bits set, for `1 <= w <= 16`.
pub open spec fn low_mask(w: u16) -> u16 {
    0xFFFFu16 >> ((16 - w) as u16)
}

/// Bit `w - 1` of `x`, the sign bit of a `w`-bit field.
pub open spec fn sign_bit(x: u16, w: u16) -> bool {
    (x >> ((w - 1) as u16)) & 1u16 == 1u16
}

/// `x` with every bit from `w` upwards set when its sign bit is set,
/// and `x` itself otherwise.
pub open spec fn sign_extended(x: u16, w: u16) -> u16 {
    if sign_bit(x, w) {
        x | !low_mask(w)
    } else {
        x
    }
}

/// The two's-complement value of the `w`-bit field `x`, as an integer.
pub open spec fn field_value(x: u16, w: u16) -> int {
    if sign_bit(x, w) {
        x - pow2_16(w)
    } else {
        x as int
    }
}

/// `2^w` for `w <= 16`.
pub open spec fn pow2_16(w: u16) -> int {
    (1u32 << w) as int
}

/// Sign-extends the `width`-bit field `bits` to the full 16 bits.
pub fn extend(bits: u16, width: u8) -> (r: u16)
    requires
        1 <= width <= 16,
    ensures
        r == sign_extended(bits, width as u16),
{
    let w: u16 = width as u16;
    if (bits >> (w - 1)) & 1 == 1 {
        bits | !(0xFFFFu16 >> (16 - w))
    } else {
        bits
    }
}

/// Sign extension of a `w`-bit field keeps the field's `w` bits and fills
/// every bit above them with the field's sign bit.
pub proof fn lemma_extend_keeps_field(v: u16, w: u16)
    requires
        1 <= w <= 16,
    ensures
        sign_extended(v & low_mask(w), w) & low_mask(w) == v & low_mask(w),
        sign_extended(v & low_mask(w), w) & !low_mask(w) == (if sign_bit(v & low_mask(w), w) {
            !low_mask(w)
        } else {
            0u16
        }),
{
    assert(sign_extended(v & low_mask(w), w) & low_mask(w) == v & low_mask(w)) by (bit_vector)
        requires
            1 <= w <= 16,
    ;
    assert(sign_extended(v & low_mask(w), w) & !low_mask(w) == (if sign_bit(v & low_mask(w), w) {
        !low_mask(w)
    } else {
        0u16
    })) by (bit_vector)
        requires
            1 <= w <= 16,
    ;
}

/// Read as a 16-bit two's-complement number, the sign extension of a
/// `w`-bit field has the field's own signed value.
pub proof fn lemma_extend_value(v: u16, w: u16)
    requires
        1 <= w <= 16,
    ensures
        sign_extended(v & low_mask(w), w) as int == (if field_value(v & low_mask(w), w) < 0 {
            field_value(v & low_mask(w), w) + 0x10000
        } else {
            field_value(v & low_mask(w), w)
        }),
{
    let x = v & low_mask(w);
    assert(x < (1u32 << w)) by (bit_vector)
        requires
            1 <= w <= 16,
            x == v & low_mask(w),
    ;
    if sign_bit(x, w) {
        assert((x | !low_mask(w)) as int == x as int + 0x10000 - (1u32 << w) as int) by (bit_vector)
            requires
                1 <= w <= 16,
                x == v & low_mask(w),
                sign_bit(x, w),
        ;
        assert(x as int >= (1u32 << ((w - 1) as u16)) as int) by (bit_vector)
            requires
                1 <= w <= 16,
                sign_bit(x, w),
        ;
    }
}

} // verus!
