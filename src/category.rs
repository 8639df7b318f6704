use vstd::prelude::*;

verus! {

/// A parcel is bulky when its volume, in cubic centimeters, reaches this value.
pub const VOLUME_THRESHOLD_CM3: u64 = 1_000_000;

/// A parcel is bulky when its width, height or length, in centimeters,
/// reaches this value.
pub const DIMENSION_THRESHOLD_CM: u64 = 150;

/// A parcel is heavy when its mass, in kilograms, reaches this value.
pub const MASS_THRESHOLD_KG: u64 = 20;

/// How a parcel is to be handled.
#[derive(Debug, Clone, Copy, PartialEq, Eq, Structural)]
pub enum SortCategory {
    /// Neither bulky nor heavy: handled normally.
    Standard,
    /// Bulky or heavy, but not both: needs special handling.
    Special,
    /// Both bulky and heavy: cannot be processed.
    Rejected,
}

/// The category that the decision table gives to a parcel.
pub open spec fn category_of(bulky: bool, heavy: bool) -> SortCategory {
    if bulky && heavy {
        SortCategory::Rejected
    } else if bulky || heavy {
        SortCategory::Special
    } else {
        SortCategory::Standard
    }
}

/// The canonical text of a category.
pub open spec fn label_of(c: SortCategory) -> Seq<char> {
    match c {
        SortCategory::Standard => "STANDARD"@,
        SortCategory::Special => "SPECIAL"@,
        SortCategory::Rejected => "REJECTED"@,
    }
}

/// How restrictive a category is: Standard < Special < Rejected.
pub open spec fn restrictiveness(c: SortCategory) -> nat {
    match c {
        SortCategory::Standard => 0,
        SortCategory::Special => 1,
        SortCategory::Rejected => 2,
    }
}

impl SortCategory {
    /// The category of a parcel that is bulky or not, and heavy or not.
    pub fn from_flags(is_bulky: bool, is_heavy: bool) -> (r: SortCategory)
        ensures
            r == category_of(is_bulky, is_heavy),
    {
        match (is_bulky, is_heavy) {
            (true, true) => SortCategory::Rejected,
            (true, false) | (false, true) => SortCategory::Special,
            (false, false) => SortCategory::Standard,
        }
    }

    /// The canonical text of the category: "STANDARD", "SPECIAL" or "REJECTED".
    pub fn as_str(&self) -> (r: &'static str)
        ensures
            r@ == label_of(*self),
    {
        match self {
            SortCategory::Standard => "STANDARD",
            SortCategory::Special => "SPECIAL",
            SortCategory::Rejected => "REJECTED",
        }
    }
}

/// Becoming bulky or becoming heavy never makes a parcel's category less
/// restrictive: if every flag that holds of the first parcel also holds of
/// the second, the second's category is at least as restrictive.
pub proof fn lemma_category_monotone(bulky1: bool, heavy1: bool, bulky2: bool, heavy2: bool)
    requires
        bulky1 ==> bulky2,
        heavy1 ==> heavy2,
    ensures
        restrictiveness(category_of(bulky1, heavy1)) <= restrictiveness(
            category_of(bulky2, heavy2),
        ),
{
}

} // verus!
