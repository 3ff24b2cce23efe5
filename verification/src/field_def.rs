//! What a field's Rust type is, read once into plain values every emitter renders from: the
//! scalar or composite it names, how many `Vec` levels wrap it, and which of those levels (and the
//! field itself) are nullable.

use crate::text::same_text;
use vstd::prelude::*;

verus! {

/// The type a field holds under all of its `Vec` levels.
#[derive(Debug)]
pub enum FieldDefType {
    /// A type the walk could not read.
    Unknown,
    /// One of the declaring item's own type parameters.
    TypeParam(String),
    /// A tuple, one field per slot; the empty tuple is `()`.
    Tuple(Vec<FieldDef>),
    /// Another declared type, by its Rust ident, with its type arguments.
    SiblingType(String, Vec<FieldDef>),
    /// A map from key to value.
    MapOf(Box<FieldDef>, Box<FieldDef>),
    Boolean,
    BooleanLiteral(bool),
    Char,
    String,
    StringLiteral(String),
    /// A number literal type, by its literal text.
    NumberLiteral(String),
    F32,
    F64,
    U8,
    U16,
    U32,
    U64,
    I8,
    I16,
    I32,
    I64,
    Usize,
    Isize,
    ObjectId,
    NaiveDate,
    NaiveTime,
    NaiveDateTime,
    DateTime,
}

/// One field's type as the emitters read it.
#[derive(Debug)]
pub struct FieldDef {
    pub field_type: FieldDefType,
    /// How many `Vec` levels wrap `field_type`.
    pub array_depth: usize,
    /// The levels that are `Option`: level `l < array_depth` makes the item of the `l`-th list
    /// (counted from the innermost) nullable; level `array_depth` makes the field itself nullable.
    pub nullable_levels: Vec<usize>,
    /// `#[model_schema_prop(nullable)]`: the key is always written, `null` included.
    pub nullable: bool,
    /// `#[model_schema_prop(as_number)]`: a date-time travels as epoch milliseconds.
    pub as_number: bool,
}

/// Whether the item at level `level` is nullable.
pub open spec fn nullable_at(f: FieldDef, level: int) -> bool {
    f.nullable_levels@.contains(level as usize) && 0 <= level
}

/// Whether the field itself is nullable (an outer `Option`).
pub open spec fn optional(f: FieldDef) -> bool {
    f.nullable_levels@.contains(f.array_depth)
}

/// For each of the field's `Vec` levels, innermost first, whether its item is nullable.
pub open spec fn levels_of(f: FieldDef) -> Seq<bool> {
    Seq::new(f.array_depth as nat, |l: int| nullable_at(f, l))
}

/// Whether `name` is a collection that travels as a plain JSON array of its one type argument.
pub open spec fn sequence_wrapper_name(name: Seq<char>) -> bool {
    ||| name == "HashSet"@
    ||| name == "BTreeSet"@
    ||| name == "IndexSet"@
    ||| name == "VecDeque"@
    ||| name == "LinkedList"@
    ||| name == "BinaryHeap"@
}

/// The element-side levels a sequence wrapper's element `e` contributes under the wrapper's own
/// `outer` levels: the element's own list levels, then the element itself as the wrapper's item,
/// then the wrapper's levels.
pub open spec fn element_levels(e: FieldDef, outer: Seq<bool>) -> Seq<bool> {
    levels_of(e).push(optional(e)) + outer
}

/// Whether the type is the unit type `()`.
pub open spec fn unit_type(f: FieldDef) -> bool {
    &&& f.field_type is Tuple
    &&& f.field_type->Tuple_0@.len() == 0
    &&& f.array_depth == 0
    &&& !optional(f)
}

pub fn is_sequence_wrapper(name: &str) -> (r: bool)
    ensures
        r == sequence_wrapper_name(name@),
{
    same_text(name, "HashSet") || same_text(name, "BTreeSet") || same_text(name, "IndexSet")
        || same_text(name, "VecDeque") || same_text(name, "LinkedList") || same_text(
        name,
        "BinaryHeap",
    )
}

impl FieldDef {
    pub fn is_nullable_at(&self, level: usize) -> (r: bool)
        ensures
            r == nullable_at(*self, level as int),
    {
        let mut i: usize = 0;
        while i < self.nullable_levels.len()
            invariant
                i <= self.nullable_levels.len(),
                forall|j: int| 0 <= j < i ==> self.nullable_levels@[j] != level,
            decreases self.nullable_levels.len() - i,
        {
            if self.nullable_levels[i] == level {
                return true;
            }
            i = i + 1;
        }
        false
    }

    pub fn is_optional(&self) -> (r: bool)
        ensures
            r == optional(*self),
    {
        self.is_nullable_at(self.array_depth)
    }

    /// One flag per `Vec` level, innermost first: whether that level's item is nullable.
    pub fn levels(&self) -> (r: Vec<bool>)
        ensures
            r@ == levels_of(*self),
    {
        let mut r: Vec<bool> = Vec::new();
        let mut l: usize = 0;
        while l < self.array_depth
            invariant
                l <= self.array_depth,
                r@ =~= levels_of(*self).take(l as int),
            decreases self.array_depth - l,
        {
            let flag = self.is_nullable_at(l);
            r.push(flag);
            l = l + 1;
        }
        r
    }

    pub fn is_unit_type(&self) -> (r: bool)
        ensures
            r == unit_type(*self),
    {
        match &self.field_type {
            FieldDefType::Tuple(slots) => slots.len() == 0 && self.array_depth == 0
                && !self.is_optional(),
            _ => false,
        }
    }
}

/// The levels a sequence wrapper's element renders under: see [`element_levels`].
pub fn element_levels_of(e: &FieldDef, outer: &Vec<bool>) -> (r: Vec<bool>)
    ensures
        r@ == element_levels(*e, outer@),
{
    let mut r = e.levels();
    r.push(e.is_optional());
    let mut i: usize = 0;
    let ghost front = r@;
    while i < outer.len()
        invariant
            i <= outer.len(),
            r@ =~= front + outer@.take(i as int),
        decreases outer.len() - i,
    {
        r.push(outer[i]);
        i = i + 1;
    }
    assert(outer@.take(outer.len() as int) =~= outer@);
    r
}

} // verus!
