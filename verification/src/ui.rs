//! The texts that the screens are built from.

use vstd::prelude::*;

use crate::entities::pawn::Pawn;
use crate::text::decimal;
use crate::text::number_text;

verus! {

/// The picture of a field with `middle` in its centre.
pub open spec fn spec_get_field(middle: Seq<char>) -> Seq<char> {
    "  ███\n██"@ + middle + "██\n  ███"@
}

/// The picture of a field with `middle` in its centre.
pub fn get_field(middle: &str) -> (picture: String)
    ensures
        picture@ == spec_get_field(middle@),
{
    let mut picture = String::from_str("  ███\n██");
    picture.append(middle);
    picture.append("██\n  ███");
    picture
}

/// The picture of a field on which `pawn` stands: the pawn's number, from one, between
/// two blanks.
pub fn pawn_label(pawn: &Pawn) -> (picture: String)
    requires
        pawn.id < usize::MAX,
    ensures
        picture@ == spec_get_field(" "@ + decimal((pawn.id + 1) as nat) + " "@),
{
    let mut middle = String::from_str(" ");
    let number = number_text(pawn.id + 1);
    middle.append(number.as_str());
    middle.append(" ");
    get_field(middle.as_str())
}

} // verus!
