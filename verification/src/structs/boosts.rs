//! Sets of enhancements.

use super::namekey::NameKey;
use vstd::prelude::*;

verus! {

/// A list of boosts (enhancements) included in a `BoostSet`.
#[derive(Debug)]
pub struct BoostList {
    pub ppch_boosts: Vec<NameKey>,
}

impl BoostList {
    /// Whether every field has the value that it has in a new `BoostList`:
    /// numbers are zero, flags are off, texts and names are absent, lists are
    /// empty, and enumerations have their fallback value.
    pub open spec fn is_new(&self) -> bool {
        &&& self.ppch_boosts@.len() == 0
    }

    /// Creates a new `BoostList`.
    pub fn new() -> (value: Self)
        ensures
            value.is_new(),
    {
        BoostList {
            ppch_boosts: Vec::new(),
        }
    }
}

/// Bonus granted by a `BoostSet`.
#[derive(Debug)]
pub struct BoostSetBonus {
    /// The display name of the bonus.
    pub pch_display_name: Option<String>,
    /// The number of distinct boosts required to activate this bonus.
    pub i_min_boosts: i32,
    /// The max number of distinct boosts required to keep this bonus. 0 means no max.
    pub i_max_boosts: i32,
    /// A power eval statement that may limit the availability of this bonus. If empty, it
    /// is not evaluated.
    pub ppch_requires: Vec<String>,
    /// The auto powers granted by this bonus.
    pub ppch_auto_powers: Vec<NameKey>,
    /// The general power granted by this bonus (may be a mix of boost attribs and
    /// additional attribs).
    pub pch_bonus_power: Option<NameKey>,
}

impl BoostSetBonus {
    /// Whether every field has the value that it has in a new `BoostSetBonus`:
    /// numbers are zero, flags are off, texts and names are absent, lists are
    /// empty, and enumerations have their fallback value.
    pub open spec fn is_new(&self) -> bool {
        &&& self.pch_display_name is None
        &&& self.i_min_boosts == 0
        &&& self.i_max_boosts == 0
        &&& self.ppch_requires@.len() == 0
        &&& self.ppch_auto_powers@.len() == 0
        &&& self.pch_bonus_power is None
    }

    /// Creates a new `BoostSetBonus`.
    pub fn new() -> (value: Self)
        ensures
            value.is_new(),
    {
        BoostSetBonus {
            pch_display_name: None,
            i_min_boosts: 0,
            i_max_boosts: 0,
            ppch_requires: Vec::new(),
            ppch_auto_powers: Vec::new(),
            pch_bonus_power: None,
        }
    }
}

/// Structure for boost (enhancement) sets.
#[derive(Debug)]
pub struct BoostSet {
    /// The internal name of the set.
    pub pch_name: Option<NameKey>,
    /// The display name of the set.
    pub pch_display_name: Option<String>,
    /// The display name of the set group.
    pub pch_group_name: Option<String>,
    /// The names of the conversion groups this boost set belongs to.
    pub ppch_conversion_groups: Vec<String>,
    /// The powers that can use this set.
    pub ppch_powers: Vec<NameKey>,
    /// The boosts that make up this set.
    pub pp_boost_lists: Vec<BoostList>,
    /// The bonuses granted by this set.
    pub pp_bonuses: Vec<BoostSetBonus>,
    /// Minimum level for this boost set.
    pub i_min_level: i32,
    /// Maximum level for this boost set.
    pub i_max_level: i32,
    /// Product code that must be available for this boost set to be a valid conversion.
    pub pch_store_product: Option<String>,
}

impl BoostSet {
    /// Whether every field has the value that it has in a new `BoostSet`:
    /// numbers are zero, flags are off, texts and names are absent, lists are
    /// empty, and enumerations have their fallback value.
    pub open spec fn is_new(&self) -> bool {
        &&& self.pch_name is None
        &&& self.pch_display_name is None
        &&& self.pch_group_name is None
        &&& self.ppch_conversion_groups@.len() == 0
        &&& self.ppch_powers@.len() == 0
        &&& self.pp_boost_lists@.len() == 0
        &&& self.pp_bonuses@.len() == 0
        &&& self.i_min_level == 0
        &&& self.i_max_level == 0
        &&& self.pch_store_product is None
    }

    /// Creates a new `BoostSet`.
    pub fn new() -> (value: Self)
        ensures
            value.is_new(),
    {
        BoostSet {
            pch_name: None,
            pch_display_name: None,
            pch_group_name: None,
            ppch_conversion_groups: Vec::new(),
            ppch_powers: Vec::new(),
            pp_boost_lists: Vec::new(),
            pp_bonuses: Vec::new(),
            i_min_level: 0,
            i_max_level: 0,
            pch_store_product: None,
        }
    }
}

} // verus!
