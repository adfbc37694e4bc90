//! Bit fields inside an 8-bit register, and the cached register byte.
use vstd::prelude::*;

use crate::registers::Register;

verus! {

/// Facts about one field placement that hold for any register byte `b`:
/// a code `c` no larger than the all-ones low mask `l`, shifted to offset `o`.
pub proof fn lemma_field_bits(c: u8, l: u8, o: u8, b: u8)
    by (bit_vector)
    requires
        (l == 1 && o <= 7) || (l == 3 && o <= 6) || (l == 7 && o <= 5) || (l == 15 && o <= 4),
        c <= l,
    ensures
        (c << o) & !(l << o) == 0,
        (c << o) & (l << o) == c << o,
        (c << o) >> o == c,
        (((b & !(l << o)) | (c << o)) & (l << o)) >> o == c,
        ((b & !(l << o)) | (c << o)) & !(l << o) == b & !(l << o),
        ((((b & !(l << o)) | (c << o)) & !(l << o)) | (c << o)) == (b & !(l << o)) | (c << o),
{
}

/// Whether `l` is the all-ones mask of a field of width 1 to 4 that fits in
/// a byte when shifted left by `o`.
pub open spec fn layout_ok(l: u8, o: u8) -> bool {
    (l == 1 && o <= 7) || (l == 3 && o <= 6) || (l == 7 && o <= 5) || (l == 15 && o <= 4)
}

/// A configurable attribute of the converter: a closed set of values, each
/// with a raw code that sits in a fixed bit field of one register.
pub trait Field: Sized + Copy {
    /// The raw code of the value.
    spec fn spec_code(self) -> u8;

    /// The value whose raw code is `code`, if any.
    spec fn spec_from_code(code: u8) -> Option<Self>;

    /// The register that holds the field.
    spec fn spec_register() -> Register;

    /// Position of the field's lowest bit.
    spec fn spec_offset() -> u8;

    /// All-ones mask of the field's width, before shifting.
    spec fn spec_low_mask() -> u8;

    /// The field is 1 to 4 bits wide and lies inside the byte.
    proof fn lemma_layout()
        ensures
            layout_ok(Self::spec_low_mask(), Self::spec_offset()),
    ;

    /// Every value's code fits the field and names that value again.
    proof fn lemma_code(self)
        ensures
            self.spec_code() <= Self::spec_low_mask(),
            Self::spec_from_code(self.spec_code()) == Some(self),
    ;

    fn register() -> (r: Register)
        ensures
            r == Self::spec_register(),
    ;

    fn offset() -> (r: u8)
        ensures
            r == Self::spec_offset(),
    ;

    fn low_mask() -> (r: u8)
        ensures
            r == Self::spec_low_mask(),
    ;

    fn code(self) -> (r: u8)
        ensures
            r == self.spec_code(),
    ;

    fn from_code(code: u8) -> (r: Option<Self>)
        ensures
            r == Self::spec_from_code(code),
    ;
}

/// The field's mask at its position in the register.
pub open spec fn mask_of<F: Field>() -> u8 {
    F::spec_low_mask() << F::spec_offset()
}

/// The value's code shifted to the field's position.
pub open spec fn encoded_of<F: Field>(v: F) -> u8 {
    v.spec_code() << F::spec_offset()
}

/// A register byte with the bits of `mask` cleared and those of `bits` set.
pub open spec fn apply_spec(byte: u8, mask: u8, bits: u8) -> u8 {
    (byte & !mask) | bits
}

/// A register byte after writing `v` into its field.
pub open spec fn with_value<F: Field>(byte: u8, v: F) -> u8 {
    apply_spec(byte, mask_of::<F>(), encoded_of(v))
}

/// The value that the field of `F` holds in `byte`, if its code is a known one.
pub open spec fn decode_spec<F: Field>(byte: u8) -> Option<F> {
    F::spec_from_code((byte & mask_of::<F>()) >> F::spec_offset())
}

/// The field's mask at its position in the register.
pub fn field_mask<F: Field>() -> (r: u8)
    ensures
        r == mask_of::<F>(),
{
    proof {
        F::lemma_layout();
    }
    F::low_mask() << F::offset()
}

/// The value's raw code shifted into the field's position.
pub fn encoded_bits<F: Field>(v: F) -> (r: u8)
    ensures
        r == encoded_of(v),
{
    proof {
        F::lemma_layout();
    }
    v.code() << F::offset()
}

/// Reads the field of `F` out of a register byte.
pub fn decode<F: Field>(byte: u8) -> (r: Option<F>)
    ensures
        r == decode_spec::<F>(byte),
{
    proof {
        F::lemma_layout();
    }
    let m = field_mask::<F>();
    F::from_code((byte & m) >> F::offset())
}

/// Writing a value changes only the bits of its field, and the field then
/// holds exactly the value's encoded bits.
pub proof fn law_write_keeps_other_bits<F: Field>(byte: u8, v: F)
    ensures
        with_value(byte, v) == (byte & !mask_of::<F>()) | (encoded_of(v) & mask_of::<F>()),
        with_value(byte, v) & !mask_of::<F>() == byte & !mask_of::<F>(),
{
    F::lemma_layout();
    v.lemma_code();
    lemma_field_bits(v.spec_code(), F::spec_low_mask(), F::spec_offset(), byte);
}

/// Writing the same value twice gives the byte that writing it once gives.
pub proof fn law_write_idempotent<F: Field>(byte: u8, v: F)
    ensures
        with_value(with_value(byte, v), v) == with_value(byte, v),
{
    F::lemma_layout();
    v.lemma_code();
    lemma_field_bits(v.spec_code(), F::spec_low_mask(), F::spec_offset(), byte);
}

/// Reading a field back after writing a value into it yields that value,
/// whatever the rest of the byte holds; in particular decoding the bare
/// encoded bits yields the value.
pub proof fn law_decode_encode<F: Field>(byte: u8, v: F)
    ensures
        decode_spec::<F>(with_value(byte, v)) == Some(v),
        decode_spec::<F>(encoded_of(v)) == Some(v),
{
    F::lemma_layout();
    v.lemma_code();
    lemma_field_bits(v.spec_code(), F::spec_low_mask(), F::spec_offset(), byte);
    lemma_field_bits(v.spec_code(), F::spec_low_mask(), F::spec_offset(), 0);
    assert(0u8 & !mask_of::<F>() == 0) by (bit_vector);
    assert((0u8 | encoded_of(v)) == encoded_of(v)) by (bit_vector);
}

/// One cached configuration register of the converter.
#[derive(Debug, Copy, Clone, PartialEq, Eq, Structural)]
pub struct Config {
    pub bits: u8,
}

impl Default for Config {
    /// The power-up value of a register: all bits clear.
    fn default() -> (r: Config)
        ensures
            r.bits == 0,
    {
        Config { bits: 0 }
    }
}

impl Config {
    /// Sets every bit of `mask`.
    pub fn with_high(&self, mask: u8) -> (r: Config)
        ensures
            r.bits == self.bits | mask,
    {
        Config { bits: self.bits | mask }
    }

    /// Clears every bit of `mask`.
    pub fn with_low(&self, mask: u8) -> (r: Config)
        ensures
            r.bits == self.bits & !mask,
    {
        Config { bits: self.bits & !mask }
    }

    /// Clears the bits of `mask`, then sets those of `bits`.
    pub fn apply_field(&self, mask: u8, bits: u8) -> (r: Config)
        ensures
            r.bits == apply_spec(self.bits, mask, bits),
    {
        self.with_low(mask).with_high(bits)
    }

    /// Writes `v` into its field, leaving the other bits as they are.
    pub fn with_field<F: Field>(&self, v: F) -> (r: Config)
        ensures
            r.bits == with_value(self.bits, v),
    {
        self.apply_field(field_mask::<F>(), encoded_bits(v))
    }
}

} // verus!
