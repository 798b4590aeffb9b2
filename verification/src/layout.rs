//! The layout of the uniform block: which field stands at which byte.
//!
//! The shader declares the same block on its side, so the order of the fields,
//! their sizes and the padding between them are a contract with it. The table
//! here is written out by hand and proved to be what the uniform layout rules
//! give for the declared order: a float or an unsigned integer takes 4 bytes
//! at a multiple of 4, a vector of three floats takes 12 bytes at a multiple
//! of 16, each field starts at the first admissible byte after the one before
//! it, and the block's size is a multiple of 16.

use vstd::prelude::*;
use vstd::arithmetic::div_mod::{
    lemma_fundamental_div_mod, lemma_mod_bound, lemma_mod_multiples_basic,
};

verus! {

/// How many fields the block has.
pub const FIELD_COUNT: usize = 12;

/// The alignment of the block as a whole.
pub const BLOCK_ALIGN: usize = 16;

/// The size of the block in bytes, trailing padding included.
pub const BLOCK_SIZE: usize = 96;

/// The binding slot at which the material declares the block.
pub const UNIFORM_BINDING: u32 = 0;

/// What a field holds.
#[derive(Clone, Copy, Debug, PartialEq, Eq, Structural)]
pub enum FieldKind {
    /// Three 32-bit floats.
    Vector,
    /// One 32-bit float.
    Float,
    /// One 32-bit unsigned integer.
    Unsigned,
}

impl FieldKind {
    /// The bytes a value of this kind takes.
    pub open spec fn spec_size(self) -> nat {
        match self {
            FieldKind::Vector => 12,
            FieldKind::Float => 4,
            FieldKind::Unsigned => 4,
        }
    }

    /// The alignment a value of this kind needs.
    pub open spec fn spec_align(self) -> nat {
        match self {
            FieldKind::Vector => 16,
            FieldKind::Float => 4,
            FieldKind::Unsigned => 4,
        }
    }

    /// The bytes a value of this kind takes.
    pub fn size(self) -> (n: usize)
        ensures
            n == self.spec_size(),
    {
        match self {
            FieldKind::Vector => 12,
            FieldKind::Float => 4,
            FieldKind::Unsigned => 4,
        }
    }

    /// The alignment a value of this kind needs.
    pub fn align(self) -> (n: usize)
        ensures
            n == self.spec_align(),
    {
        match self {
            FieldKind::Vector => 16,
            FieldKind::Float => 4,
            FieldKind::Unsigned => 4,
        }
    }
}

/// The fields of the block, in declared order.
#[derive(Clone, Copy, Debug, PartialEq, Eq, Structural)]
pub enum Field {
    CameraPosition,
    CameraForward,
    CameraHorizontal,
    CameraVertical,
    AspectRatio,
    Power,
    MaxIterations,
    Bailout,
    NumSteps,
    MinDist,
    MaxDist,
    Zoom,
}

/// One row of the layout table.
#[derive(Clone, Copy, Debug, PartialEq, Eq, Structural)]
pub struct FieldLayout {
    pub field: Field,
    pub offset: usize,
    pub size: usize,
    pub align: usize,
}

impl Field {
    /// The field's place in the declared order, from 0.
    pub open spec fn spec_index(self) -> nat {
        match self {
            Field::CameraPosition => 0,
            Field::CameraForward => 1,
            Field::CameraHorizontal => 2,
            Field::CameraVertical => 3,
            Field::AspectRatio => 4,
            Field::Power => 5,
            Field::MaxIterations => 6,
            Field::Bailout => 7,
            Field::NumSteps => 8,
            Field::MinDist => 9,
            Field::MaxDist => 10,
            Field::Zoom => 11,
        }
    }

    /// The field at a place of the declared order; past the end, the last.
    pub open spec fn spec_at(index: nat) -> Field {
        if index == 0 {
            Field::CameraPosition
        } else if index == 1 {
            Field::CameraForward
        } else if index == 2 {
            Field::CameraHorizontal
        } else if index == 3 {
            Field::CameraVertical
        } else if index == 4 {
            Field::AspectRatio
        } else if index == 5 {
            Field::Power
        } else if index == 6 {
            Field::MaxIterations
        } else if index == 7 {
            Field::Bailout
        } else if index == 8 {
            Field::NumSteps
        } else if index == 9 {
            Field::MinDist
        } else if index == 10 {
            Field::MaxDist
        } else {
            Field::Zoom
        }
    }

    /// What the field holds.
    pub open spec fn spec_kind(self) -> FieldKind {
        match self {
            Field::CameraPosition => FieldKind::Vector,
            Field::CameraForward => FieldKind::Vector,
            Field::CameraHorizontal => FieldKind::Vector,
            Field::CameraVertical => FieldKind::Vector,
            Field::AspectRatio => FieldKind::Float,
            Field::Power => FieldKind::Float,
            Field::MaxIterations => FieldKind::Unsigned,
            Field::Bailout => FieldKind::Float,
            Field::NumSteps => FieldKind::Unsigned,
            Field::MinDist => FieldKind::Float,
            Field::MaxDist => FieldKind::Float,
            Field::Zoom => FieldKind::Float,
        }
    }

    /// The bytes the field takes.
    pub open spec fn spec_size(self) -> nat {
        self.spec_kind().spec_size()
    }

    /// The alignment the field needs.
    pub open spec fn spec_align(self) -> nat {
        self.spec_kind().spec_align()
    }

    /// The byte at which the field starts: the table.
    pub open spec fn spec_offset(self) -> nat {
        match self {
            Field::CameraPosition => 0,
            Field::CameraForward => 16,
            Field::CameraHorizontal => 32,
            Field::CameraVertical => 48,
            Field::AspectRatio => 60,
            Field::Power => 64,
            Field::MaxIterations => 68,
            Field::Bailout => 72,
            Field::NumSteps => 76,
            Field::MinDist => 80,
            Field::MaxDist => 84,
            Field::Zoom => 88,
        }
    }

    /// The first byte after the field.
    pub open spec fn spec_end(self) -> nat {
        self.spec_offset() + self.spec_size()
    }

    /// Whether the byte at `byte` belongs to the field.
    pub open spec fn covers(self, byte: int) -> bool {
        self.spec_offset() <= byte < self.spec_end()
    }

    /// The field's row of the table.
    pub open spec fn spec_layout(self) -> FieldLayout {
        FieldLayout {
            field: self,
            offset: self.spec_offset() as usize,
            size: self.spec_size() as usize,
            align: self.spec_align() as usize,
        }
    }

    /// The field's place in the declared order, from 0.
    pub fn index(self) -> (i: usize)
        ensures
            i == self.spec_index(),
            i < FIELD_COUNT,
    {
        match self {
            Field::CameraPosition => 0,
            Field::CameraForward => 1,
            Field::CameraHorizontal => 2,
            Field::CameraVertical => 3,
            Field::AspectRatio => 4,
            Field::Power => 5,
            Field::MaxIterations => 6,
            Field::Bailout => 7,
            Field::NumSteps => 8,
            Field::MinDist => 9,
            Field::MaxDist => 10,
            Field::Zoom => 11,
        }
    }

    /// The field at a place of the declared order, if there is one.
    pub fn from_index(index: usize) -> (found: Option<Field>)
        ensures
            index < FIELD_COUNT ==> found == Some(Field::spec_at(index as nat)),
            index >= FIELD_COUNT ==> found.is_none(),
            found matches Some(f) ==> f.spec_index() == index,
    {
        match index {
            0 => Some(Field::CameraPosition),
            1 => Some(Field::CameraForward),
            2 => Some(Field::CameraHorizontal),
            3 => Some(Field::CameraVertical),
            4 => Some(Field::AspectRatio),
            5 => Some(Field::Power),
            6 => Some(Field::MaxIterations),
            7 => Some(Field::Bailout),
            8 => Some(Field::NumSteps),
            9 => Some(Field::MinDist),
            10 => Some(Field::MaxDist),
            11 => Some(Field::Zoom),
            _ => None,
        }
    }

    /// What the field holds.
    pub fn kind(self) -> (k: FieldKind)
        ensures
            k == self.spec_kind(),
    {
        match self {
            Field::CameraPosition => FieldKind::Vector,
            Field::CameraForward => FieldKind::Vector,
            Field::CameraHorizontal => FieldKind::Vector,
            Field::CameraVertical => FieldKind::Vector,
            Field::AspectRatio => FieldKind::Float,
            Field::Power => FieldKind::Float,
            Field::MaxIterations => FieldKind::Unsigned,
            Field::Bailout => FieldKind::Float,
            Field::NumSteps => FieldKind::Unsigned,
            Field::MinDist => FieldKind::Float,
            Field::MaxDist => FieldKind::Float,
            Field::Zoom => FieldKind::Float,
        }
    }

    /// The bytes the field takes.
    pub fn size(self) -> (n: usize)
        ensures
            n == self.spec_size(),
    {
        self.kind().size()
    }

    /// The alignment the field needs.
    pub fn align(self) -> (n: usize)
        ensures
            n == self.spec_align(),
    {
        self.kind().align()
    }

    /// The byte at which the field starts.
    pub fn offset(self) -> (n: usize)
        ensures
            n == self.spec_offset(),
            n + self.spec_size() <= BLOCK_SIZE,
    {
        match self {
            Field::CameraPosition => 0,
            Field::CameraForward => 16,
            Field::CameraHorizontal => 32,
            Field::CameraVertical => 48,
            Field::AspectRatio => 60,
            Field::Power => 64,
            Field::MaxIterations => 68,
            Field::Bailout => 72,
            Field::NumSteps => 76,
            Field::MinDist => 80,
            Field::MaxDist => 84,
            Field::Zoom => 88,
        }
    }

    /// The field's row of the table.
    pub fn layout(self) -> (row: FieldLayout)
        ensures
            row == self.spec_layout(),
    {
        FieldLayout { field: self, offset: self.offset(), size: self.size(), align: self.align() }
    }

    /// The name under which the shader declares the field.
    pub fn name(self) -> (n: &'static str)
        ensures
            n@ == self.spec_name(),
    {
        match self {
            Field::CameraPosition => "camera_position",
            Field::CameraForward => "camera_forward",
            Field::CameraHorizontal => "camera_horizontal",
            Field::CameraVertical => "camera_vertical",
            Field::AspectRatio => "aspect_ratio",
            Field::Power => "power",
            Field::MaxIterations => "max_iterations",
            Field::Bailout => "bailout",
            Field::NumSteps => "num_steps",
            Field::MinDist => "min_dist",
            Field::MaxDist => "max_dist",
            Field::Zoom => "zoom",
        }
    }

    /// The name under which the shader declares the field.
    pub open spec fn spec_name(self) -> Seq<char> {
        match self {
            Field::CameraPosition => "camera_position"@,
            Field::CameraForward => "camera_forward"@,
            Field::CameraHorizontal => "camera_horizontal"@,
            Field::CameraVertical => "camera_vertical"@,
            Field::AspectRatio => "aspect_ratio"@,
            Field::Power => "power"@,
            Field::MaxIterations => "max_iterations"@,
            Field::Bailout => "bailout"@,
            Field::NumSteps => "num_steps"@,
            Field::MinDist => "min_dist"@,
            Field::MaxDist => "max_dist"@,
            Field::Zoom => "zoom"@,
        }
    }
}

/// The least multiple of `align` that is not below `n`.
pub open spec fn round_up(n: nat, align: nat) -> nat
    recommends
        align > 0,
{
    if n % align == 0 {
        n
    } else {
        (n + align - n % align) as nat
    }
}

/// Where the uniform layout rules put the field at a place of the declared
/// order: the first one at 0, each later one at the first byte after its
/// predecessor that its alignment admits.
pub open spec fn rule_offset(index: nat) -> nat
    decreases index,
{
    if index == 0 {
        0
    } else {
        let before = Field::spec_at((index - 1) as nat);
        round_up(
            rule_offset((index - 1) as nat) + before.spec_size(),
            Field::spec_at(index).spec_align(),
        )
    }
}

/// The size that the rules give the block: the end of the last field, rounded
/// up to the block's alignment.
pub open spec fn rule_block_size() -> nat {
    round_up(rule_offset(11) + Field::spec_at(11).spec_size(), BLOCK_ALIGN as nat)
}

/// The field to which a byte of the block belongs; `None` for padding and for
/// a position outside the block.
pub open spec fn field_at(byte: int) -> Option<Field> {
    if Field::CameraPosition.covers(byte) {
        Some(Field::CameraPosition)
    } else if Field::CameraForward.covers(byte) {
        Some(Field::CameraForward)
    } else if Field::CameraHorizontal.covers(byte) {
        Some(Field::CameraHorizontal)
    } else if Field::CameraVertical.covers(byte) {
        Some(Field::CameraVertical)
    } else if Field::AspectRatio.covers(byte) {
        Some(Field::AspectRatio)
    } else if Field::Power.covers(byte) {
        Some(Field::Power)
    } else if Field::MaxIterations.covers(byte) {
        Some(Field::MaxIterations)
    } else if Field::Bailout.covers(byte) {
        Some(Field::Bailout)
    } else if Field::NumSteps.covers(byte) {
        Some(Field::NumSteps)
    } else if Field::MinDist.covers(byte) {
        Some(Field::MinDist)
    } else if Field::MaxDist.covers(byte) {
        Some(Field::MaxDist)
    } else if Field::Zoom.covers(byte) {
        Some(Field::Zoom)
    } else {
        None
    }
}

/// The whole table, in declared order.
pub fn schema() -> (rows: Vec<FieldLayout>)
    ensures
        rows@.len() == FIELD_COUNT,
        forall|i: int| 0 <= i < FIELD_COUNT ==> rows@[i] == Field::spec_at(i as nat).spec_layout(),
{
    let mut rows: Vec<FieldLayout> = Vec::new();
    let mut i: usize = 0;
    while i < FIELD_COUNT
        invariant
            i <= FIELD_COUNT,
            rows@.len() == i,
            forall|k: int| 0 <= k < i ==> rows@[k] == Field::spec_at(k as nat).spec_layout(),
        decreases FIELD_COUNT - i,
    {
        match Field::from_index(i) {
            Some(field) => {
                rows.push(field.layout());
            },
            None => {},
        }
        i = i + 1;
    }
    rows
}

/// `round_up` gives the least multiple of `align` that is not below `n`: it
/// is such a multiple, and no other such multiple is below it.
pub proof fn lemma_round_up(n: nat, align: nat, other: nat)
    requires
        align > 0,
    ensures
        round_up(n, align) % align == 0,
        n <= round_up(n, align) < n + align,
        n <= other && other % align == 0 ==> round_up(n, align) <= other,
{
    let r = round_up(n, align);
    let a = align as int;
    lemma_fundamental_div_mod(n as int, a);
    lemma_mod_bound(n as int, a);
    if n % align != 0 {
        assert(r == a * (n as int / a + 1)) by (nonlinear_arith)
            requires
                r == n + a - (n as int % a),
                n == a * (n as int / a) + (n as int % a),
        ;
        lemma_mod_multiples_basic(n as int / a + 1, a);
        assert(((n as int / a + 1) * a) == a * (n as int / a + 1)) by (nonlinear_arith);
    }
    if n <= other && other % align == 0 && other < r {
        lemma_fundamental_div_mod(other as int, a);
        lemma_fundamental_div_mod(r as int, a);
        let qo = other as int / a;
        let qr = r as int / a;
        assert(other == a * qo);
        assert(r == a * qr);
        assert(qo < qr) by (nonlinear_arith)
            requires
                a * qo < a * qr,
                a > 0,
        ;
        assert(a * qo <= a * (qr - 1)) by (nonlinear_arith)
            requires
                qo <= qr - 1,
                a > 0,
        ;
        assert(a * (qr - 1) == r - a) by (nonlinear_arith)
            requires
                r == a * qr,
        ;
    }
}

/// The table is what the layout rules give: every offset is the rule's, and
/// so is the block's size.
pub proof fn lemma_table_follows_rules(field: Field)
    ensures
        field.spec_offset() == rule_offset(field.spec_index()),
        BLOCK_SIZE == rule_block_size(),
{
    reveal_with_fuel(rule_offset, 13);
    assert(round_up(12, 16) == 16);
    assert(round_up(28, 16) == 32);
    assert(round_up(44, 16) == 48);
    assert(round_up(60, 4) == 60);
    assert(round_up(64, 4) == 64);
    assert(round_up(68, 4) == 68);
    assert(round_up(72, 4) == 72);
    assert(round_up(76, 4) == 76);
    assert(round_up(80, 4) == 80);
    assert(round_up(84, 4) == 84);
    assert(round_up(88, 4) == 88);
    assert(round_up(92, 16) == 96);
    assert(rule_offset(0) == 0);
    assert(rule_offset(1) == 16);
    assert(rule_offset(2) == 32);
    assert(rule_offset(3) == 48);
    assert(rule_offset(4) == 60);
    assert(rule_offset(5) == 64);
    assert(rule_offset(6) == 68);
    assert(rule_offset(7) == 72);
    assert(rule_offset(8) == 76);
    assert(rule_offset(9) == 80);
    assert(rule_offset(10) == 84);
    assert(rule_offset(11) == 88);
}

/// Every field starts at a multiple of its alignment and ends inside the
/// block, and the block's size is a multiple of the block's alignment.
pub proof fn lemma_fields_aligned_and_inside(field: Field)
    ensures
        field.spec_offset() % field.spec_align() == 0,
        field.spec_end() <= BLOCK_SIZE,
        BLOCK_SIZE % BLOCK_ALIGN == 0,
{
}

/// The fields follow each other in declared order without overlap.
pub proof fn lemma_fields_in_order(first: Field, second: Field)
    requires
        first.spec_index() < second.spec_index(),
    ensures
        first.spec_end() <= second.spec_offset(),
{
}

/// `field_at` names a field exactly for the bytes that the field covers.
pub proof fn lemma_field_at(byte: int, field: Field)
    ensures
        field_at(byte) == Some(field) <==> field.covers(byte),
{
}

/// The padding: the four bytes after each of the first three vectors, and the
/// last four bytes of the block.
pub proof fn lemma_padding(byte: int)
    requires
        0 <= byte < BLOCK_SIZE,
    ensures
        field_at(byte).is_none() <==> (12 <= byte < 16 || 28 <= byte < 32 || 44 <= byte < 48 || 92
            <= byte < 96),
{
}

/// No byte belongs to two fields.
pub proof fn lemma_fields_disjoint(a: Field, b: Field, byte: nat)
    requires
        a.spec_offset() <= byte < a.spec_end(),
        b.spec_offset() <= byte < b.spec_end(),
    ensures
        a == b,
{
}

} // verus!
