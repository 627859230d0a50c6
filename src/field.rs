//! Register field model: named bit ranges of a 32-bit register word and the
//! words that reading, writing and modifying them produce.

use vstd::prelude::*;

verus! {

/// A bit range of a register: an unshifted mask whose lowest bit is set,
/// and the position of that bit in the word.
#[derive(Clone, Copy, Debug, PartialEq, Eq, Structural)]
pub struct Field {
    pub mask: u32,
    pub shift: u32,
}

/// One or more fields with the values they are to take, already shifted
/// into place: `mask` covers the fields, `value` holds their new bits.
#[derive(Clone, Copy, Debug, PartialEq, Eq, Structural)]
pub struct FieldValue {
    pub mask: u32,
    pub value: u32,
}

impl Field {
    /// The field lies inside the word: no bit of the mask is shifted out.
    pub open spec fn wf(self) -> bool {
        &&& self.shift < 32
        &&& (self.mask << self.shift) >> self.shift == self.mask
    }

    /// The bits that the field occupies in the word.
    pub open spec fn placed(self) -> u32 {
        self.mask << self.shift
    }

    /// The field value that sets this field to `v`, cut to the field's width.
    pub open spec fn spec_val(self, v: u32) -> FieldValue {
        FieldValue { mask: self.placed(), value: (v & self.mask) << self.shift }
    }

    /// The field value that sets this field to `v`, cut to the field's width.
    pub fn val(self, v: u32) -> (r: FieldValue)
        requires
            self.wf(),
        ensures
            r == self.spec_val(v),
            r.wf(),
    {
        let r = field_val(self, v);
        let (m, s) = (self.mask, self.shift);
        assert(((v & m) << s) & !(m << s) == 0) by (bit_vector)
            requires
                s < 32,
        ;
        r
    }
}

impl FieldValue {
    /// No bit is set outside the fields that the value covers.
    pub open spec fn wf(self) -> bool {
        self.value & !self.mask == 0
    }

    /// The word a read-modify-write stores over `word`.
    pub open spec fn modified(self, word: u32) -> u32 {
        (word & !self.mask) | self.value
    }

    /// Two field values joined into one write.
    pub open spec fn plus(self, other: FieldValue) -> FieldValue {
        FieldValue { mask: self.mask | other.mask, value: self.value | other.value }
    }
}

/// Relies on tock_registers' `Field::val` (through `FieldValue::new`): the
/// mask and the masked value, both shifted left by the field's position.
#[verifier::external_body]
fn field_val(f: Field, v: u32) -> (r: FieldValue)
    requires
        f.shift < 32,
    ensures
        r.mask == f.mask << f.shift,
        r.value == (v & f.mask) << f.shift,
{
    let fv = tock_registers::fields::Field::<u32, ()>::new(f.mask, f.shift as usize).val(v);
    FieldValue { mask: fv.mask(), value: fv.value }
}

/// Relies on tock_registers' `FieldValue::add`: masks and values are
/// joined bit by bit.
#[verifier::external_body]
fn field_value_add(a: FieldValue, b: FieldValue) -> (r: FieldValue)
    ensures
        r.mask == a.mask | b.mask,
        r.value == (a.value & a.mask) | (b.value & b.mask),
{
    let x = tock_registers::fields::FieldValue::<u32, ()>::new(a.mask, 0, a.value);
    let y = tock_registers::fields::FieldValue::<u32, ()>::new(b.mask, 0, b.value);
    let z = x + y;
    FieldValue { mask: z.mask(), value: z.value }
}

/// Relies on tock_registers' `FieldValue::modify`: the bits under the mask
/// are replaced by the value, the others kept.
#[verifier::external_body]
fn field_value_modify(fv: FieldValue, word: u32) -> (r: u32)
    ensures
        r == (word & !fv.mask) | (fv.value & fv.mask),
{
    tock_registers::fields::FieldValue::<u32, ()>::new(fv.mask, 0, fv.value).modify(word)
}

/// Relies on tock_registers' `Field::is_set`: some bit of the field is one.
#[verifier::external_body]
fn field_is_set(f: Field, word: u32) -> (r: bool)
    requires
        f.shift < 32,
    ensures
        r == (word & (f.mask << f.shift) != 0),
{
    tock_registers::fields::Field::<u32, ()>::new(f.mask, f.shift as usize).is_set(word)
}

/// Two field values combined, as `a + b` in a register write.
pub fn combine(a: FieldValue, b: FieldValue) -> (r: FieldValue)
    requires
        a.wf(),
        b.wf(),
    ensures
        r == a.plus(b),
        r.wf(),
{
    let r = field_value_add(a, b);
    let (am, av, bm, bv) = (a.mask, a.value, b.mask, b.value);
    assert((av & am) | (bv & bm) == av | bv && (av | bv) & !(am | bm) == 0) by (bit_vector)
        requires
            av & !am == 0,
            bv & !bm == 0,
    ;
    r
}

/// The word that a full-register write of `fv` stores: the named fields
/// hold their values and every other bit is zero.
pub fn write_word(fv: FieldValue) -> (r: u32)
    requires
        fv.wf(),
    ensures
        r == fv.value,
{
    fv.value
}

/// The word that a read-modify-write of `fv` stores over `word`.
pub fn modify_word(word: u32, fv: FieldValue) -> (r: u32)
    requires
        fv.wf(),
    ensures
        r == fv.modified(word),
{
    let r = field_value_modify(fv, word);
    let (m, v) = (fv.mask, fv.value);
    assert(v & m == v) by (bit_vector)
        requires
            v & !m == 0,
    ;
    r
}

/// Whether the single-bit (or wider) field `f` reads as non-zero in `word`.
pub fn is_set(word: u32, f: Field) -> (r: bool)
    requires
        f.wf(),
    ensures
        r == (word & f.placed() != 0),
{
    field_is_set(f, word)
}

/// Modifying one field of a register leaves every bit of another field of
/// the same register as it was, whatever the word and the value; the
/// modified field then holds the value, cut to its width.
pub proof fn lemma_modify_keeps_other_field(word: u32, f: Field, g: Field, v: u32)
    requires
        f.wf(),
        g.wf(),
        f.placed() & g.placed() == 0,
    ensures
        f.spec_val(v).modified(word) & g.placed() == word & g.placed(),
        f.spec_val(v).modified(word) & f.placed() == (v & f.mask) << f.shift,
{
    let (fm, fs, gp) = (f.mask, f.shift, g.placed());
    assert((((word & !(fm << fs)) | ((v & fm) << fs)) & gp == word & gp) && (((word & !(fm
        << fs)) | ((v & fm) << fs)) & (fm << fs) == (v & fm) << fs)) by (bit_vector)
        requires
            fs < 32,
            (fm << fs) & gp == 0,
    ;
}

/// Writing two fields of a register stores a word in which exactly those
/// fields hold their values and every other bit is zero.
pub proof fn lemma_write_sets_only_named_fields(f: Field, g: Field, x: u32, y: u32)
    requires
        f.wf(),
        g.wf(),
        f.placed() & g.placed() == 0,
    ensures
        f.spec_val(x).plus(g.spec_val(y)).value & f.placed() == (x & f.mask) << f.shift,
        f.spec_val(x).plus(g.spec_val(y)).value & g.placed() == (y & g.mask) << g.shift,
        f.spec_val(x).plus(g.spec_val(y)).value & !(f.placed() | g.placed()) == 0,
{
    let (fm, fs, gm, gs) = (f.mask, f.shift, g.mask, g.shift);
    assert({
        let w = ((x & fm) << fs) | ((y & gm) << gs);
        &&& w & (fm << fs) == (x & fm) << fs
        &&& w & (gm << gs) == (y & gm) << gs
        &&& w & !((fm << fs) | (gm << gs)) == 0
    }) by (bit_vector)
        requires
            fs < 32,
            gs < 32,
            (fm << fs) & (gm << gs) == 0,
    ;
}

} // verus!
