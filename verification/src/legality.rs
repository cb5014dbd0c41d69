//! The three-valued legality ruling on a single technique.

use vstd::prelude::*;

verus! {

/// The community's ruling on one technique. `UNSPECIFIED` records that no
/// ruling has been made; it is distinct from `DISALLOWED`.
#[allow(non_camel_case_types)]
#[derive(Copy, Clone, PartialEq, Eq, Structural, Debug)]
pub enum IsAllowed {
    ALLOWED,
    DISALLOWED,
    UNSPECIFIED,
}

/// The stable textual form of each legality value.
pub open spec fn legality_text(v: IsAllowed) -> Seq<char> {
    match v {
        IsAllowed::ALLOWED => "ALLOWED"@,
        IsAllowed::DISALLOWED => "DISALLOWED"@,
        IsAllowed::UNSPECIFIED => "UNSPECIFIED"@,
    }
}

/// The legality value a text denotes, if any.
pub open spec fn legality_of_text(s: Seq<char>) -> Option<IsAllowed> {
    if s == "ALLOWED"@ {
        Some(IsAllowed::ALLOWED)
    } else if s == "DISALLOWED"@ {
        Some(IsAllowed::DISALLOWED)
    } else if s == "UNSPECIFIED"@ {
        Some(IsAllowed::UNSPECIFIED)
    } else {
        None
    }
}

impl IsAllowed {
    /// The stable textual form of this value.
    pub fn as_text(&self) -> (r: &'static str)
        ensures
            r@ == legality_text(*self),
    {
        match self {
            IsAllowed::ALLOWED => "ALLOWED",
            IsAllowed::DISALLOWED => "DISALLOWED",
            IsAllowed::UNSPECIFIED => "UNSPECIFIED",
        }
    }
}

/// Serialization round trip: reading back the textual form of any legality
/// value yields that value.
pub proof fn lemma_legality_text_round_trip(v: IsAllowed)
    ensures
        legality_of_text(legality_text(v)) == Some(v),
{
    broadcast use vstd::string::group_string_axioms;

    reveal_strlit("ALLOWED");
    reveal_strlit("DISALLOWED");
    reveal_strlit("UNSPECIFIED");
    assert("ALLOWED"@.len() == 7);
    assert("DISALLOWED"@.len() == 10);
    assert("UNSPECIFIED"@.len() == 11);
}

} // verus!
