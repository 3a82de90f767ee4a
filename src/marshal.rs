use vstd::prelude::*;

use crate::error::LumolError;
use crate::text::decimal;
use crate::text::decimal_string;

verus! {

/// The three-component fields that are set from a host sequence.
#[derive(PartialEq, Eq, Structural, Clone, Copy, Debug)]
pub enum VectorField {
    Position,
    Velocity,
}

impl VectorField {
    /// The field's name inside a sentence.
    pub open spec fn spec_name(self) -> Seq<char> {
        match self {
            VectorField::Position => "position"@,
            VectorField::Velocity => "velocity"@,
        }
    }

    /// The field's name at the start of a sentence.
    pub open spec fn spec_title(self) -> Seq<char> {
        match self {
            VectorField::Position => "Position"@,
            VectorField::Velocity => "Velocity"@,
        }
    }

    pub fn name(&self) -> (r: &'static str)
        ensures
            r@ == self.spec_name(),
    {
        match self {
            VectorField::Position => "position",
            VectorField::Velocity => "velocity",
        }
    }

    pub fn title(&self) -> (r: &'static str)
        ensures
            r@ == self.spec_title(),
    {
        match self {
            VectorField::Position => "Position",
            VectorField::Velocity => "Velocity",
        }
    }
}

/// The message for a sequence of `found` elements given for `field`.
pub open spec fn wrong_size_text(field: VectorField, found: nat) -> Seq<char> {
    "Wrong size for the "@ + field.spec_name() + ": should be a 3-dimmensional tuple, but contains "@
        + decimal(found) + " elements"@
}

/// The message for an element of `field` that is not a number.
pub open spec fn not_numbers_text(field: VectorField) -> Seq<char> {
    field.spec_title() + " elements should be numbers"@
}

/// Whether every element of a host sequence converted to a number.
pub open spec fn all_numbers<S>(items: Seq<Option<S>>) -> bool {
    forall|i: int| 0 <= i < items.len() ==> (#[trigger] items[i]) is Some
}

/// What converting a host sequence to a three-component vector gives:
/// first the length is checked, then that every element is a number.
pub open spec fn vector3_outcome<S>(items: Seq<Option<S>>, field: VectorField) -> Result<Seq<S>, Seq<char>> {
    if items.len() != 3 {
        Err(wrong_size_text(field, items.len()))
    } else if !all_numbers(items) {
        Err(not_numbers_text(field))
    } else {
        Ok(seq![items[0]->Some_0, items[1]->Some_0, items[2]->Some_0])
    }
}

/// The message of an error, or the components of a vector.
pub open spec fn vector3_view<S>(r: Result<[S; 3], LumolError>) -> Result<Seq<S>, Seq<char>> {
    match r {
        Ok(v) => Ok(v@),
        Err(e) => Err(e.message@),
    }
}

fn wrong_size_error(field: VectorField, found: usize) -> (r: LumolError)
    ensures
        r.message@ == wrong_size_text(field, found as nat),
{
    let mut message = "Wrong size for the ".to_owned();
    message.push_str(field.name());
    message.push_str(": should be a 3-dimmensional tuple, but contains ");
    let count = decimal_string(found);
    message.push_str(count.as_str());
    message.push_str(" elements");
    proof {
        assert(message@ =~= wrong_size_text(field, found as nat));
    }
    LumolError::new(message)
}

fn not_numbers_error(field: VectorField) -> (r: LumolError)
    ensures
        r.message@ == not_numbers_text(field),
{
    let mut message = field.title().to_owned();
    message.push_str(" elements should be numbers");
    LumolError::new(message)
}

/// Converts the elements of a host sequence, each already read as a number
/// (`Some`) or found not to be one (`None`), into a three-component vector.
/// A wrong length is reported before a wrong element.
pub fn extract_vector3<S>(items: Vec<Option<S>>, field: VectorField) -> (r: Result<[S; 3], LumolError>)
    ensures
        vector3_view(r) == vector3_outcome(items@, field),
{
    let n = items.len();
    if n != 3 {
        return Err(wrong_size_error(field, n));
    }
    let ghost original = items@;
    let mut items = items;
    let z = items.pop().unwrap();
    let y = items.pop().unwrap();
    let x = items.pop().unwrap();
    assert(original[0] == x && original[1] == y && original[2] == z);
    match (x, y, z) {
        (Some(x), Some(y), Some(z)) => {
            let v = [x, y, z];
            assert(v@ =~= seq![original[0]->Some_0, original[1]->Some_0, original[2]->Some_0]);
            Ok(v)
        },
        _ => {
            assert(!all_numbers(original));
            Err(not_numbers_error(field))
        },
    }
}

} // verus!
