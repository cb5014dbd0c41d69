//! The fixed list of supplemental rules: rulings on tricks that are not
//! catalogue techniques and are never templated or re-rolled.

use vstd::prelude::*;
use vstd::string::StringExecFns;
use crate::legality::IsAllowed;

verus! {

/// The supplemental rulings, in display order.
pub open spec fn supplemental_rules_spec() -> Seq<(Seq<char>, IsAllowed)> {
    seq![
        ("Spooky Action"@, IsAllowed::ALLOWED),
        ("Torch Glitch"@, IsAllowed::ALLOWED),
        ("Block Clips"@, IsAllowed::ALLOWED),
        ("Big Bomb Dupe"@, IsAllowed::ALLOWED),
        ("Water Walk"@, IsAllowed::ALLOWED),
        ("Houlihan"@, IsAllowed::ALLOWED),
        ("Medallion Cancel"@, IsAllowed::ALLOWED),
        ("Super Bunny"@, IsAllowed::ALLOWED),
        ("Dungeon Revival"@, IsAllowed::ALLOWED),
        ("Surfing Bunny"@, IsAllowed::ALLOWED),
        ("Bunny Pocket"@, IsAllowed::ALLOWED),
        ("UnBunnyBeam"@, IsAllowed::ALLOWED),
        ("Arbitrary Code Execution"@, IsAllowed::DISALLOWED),
    ]
}

/// The supplemental rulings, in display order, as executable values.
pub fn supplemental_rules() -> (r: Vec<(String, IsAllowed)>)
    ensures
        r@.len() == supplemental_rules_spec().len(),
        forall|i: int|
            0 <= i < r@.len() ==> ((#[trigger] r@[i]).0@, r@[i].1) == supplemental_rules_spec()[i],
{
    let r: Vec<(String, IsAllowed)> = vec![
        (String::from_str("Spooky Action"), IsAllowed::ALLOWED),
        (String::from_str("Torch Glitch"), IsAllowed::ALLOWED),
        (String::from_str("Block Clips"), IsAllowed::ALLOWED),
        (String::from_str("Big Bomb Dupe"), IsAllowed::ALLOWED),
        (String::from_str("Water Walk"), IsAllowed::ALLOWED),
        (String::from_str("Houlihan"), IsAllowed::ALLOWED),
        (String::from_str("Medallion Cancel"), IsAllowed::ALLOWED),
        (String::from_str("Super Bunny"), IsAllowed::ALLOWED),
        (String::from_str("Dungeon Revival"), IsAllowed::ALLOWED),
        (String::from_str("Surfing Bunny"), IsAllowed::ALLOWED),
        (String::from_str("Bunny Pocket"), IsAllowed::ALLOWED),
        (String::from_str("UnBunnyBeam"), IsAllowed::ALLOWED),
        (String::from_str("Arbitrary Code Execution"), IsAllowed::DISALLOWED),
    ];
    r
}

} // verus!
