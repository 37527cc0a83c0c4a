//! Archetypes: the classes of characters.
#![allow(non_upper_case_globals)]

use super::namekey::NameKey;
use super::attribs::{CharacterAttributes, CharacterAttributesTable, NamedTable};
use super::{Float32};
use vstd::prelude::*;

verus! {

/// Defines the character class (archetype), which sets up the allowable powers and
/// default hit points and defense for the character.
#[derive(Debug)]
pub struct Archetype {
    pub pch_name: Option<String>,
    pub pch_display_name: Option<String>,
    pub pch_display_help: Option<String>,
    /// This determines what origins can be picked by the player.
    pub ppch_allowed_origin_names: Vec<String>,
    /// This is a string array of special restrictions (e.g. Kheldian, Avian, etc).
    pub ppch_special_restrictions: Vec<String>,
    /// This is a string of store restrictions.
    pub pch_store_restrictions: Option<String>,
    /// This message is displayed to the user if this AT is locked describing what they
    /// can do to unlock it.
    pub pch_locked_tooltip: Option<String>,
    /// Product code that will be used for the purchase option if this AT is locked.
    pub pch_product_code: Option<String>,
    /// Class that is used for mission difficulty reduction purposes.
    pub pch_reduction_class: Option<String>,
    /// Class uses AV flag for mission difficulty reduction purposes
    pub b_reduce_as_av: bool,
    /// This is an int array of levels at which the character respecs instead of just
    /// picking the new power/slots.
    pub pi_level_up_respecs: Vec<i32>,
    pub pch_display_short_help: Option<String>,
    /// The icon for this archetype.
    pub pch_icon: Option<String>,
    /// Names for the various categories and power sets available to this class.
    pub pch_primary_category: Option<NameKey>,
    /// Names for the various categories and power sets available to this class.
    pub pch_secondary_category: Option<NameKey>,
    /// Names for the various categories and power sets available to this class.
    pub pch_power_pool_category: Option<NameKey>,
    /// Names for the various categories and power sets available to this class.
    pub pch_epic_pool_category: Option<NameKey>,
    /// The minimum values allowed for each attribute.
    pub pp_attrib_min: Vec<CharacterAttributes>,
    /// The base values for each attribute.
    pub pp_attrib_base: Vec<CharacterAttributes>,
    /// The minimum values allowed for an attribute's strength.
    pub pp_attrib_strength_min: Vec<CharacterAttributes>,
    /// The minimum values allowed for an attribute's resistance.
    pub pp_attrib_resistance_min: Vec<CharacterAttributes>,
    /// Table for diminishing returns.
    pub pp_attrib_diminishing_str: Vec<Vec<CharacterAttributes>>,
    /// Table for diminishing returns.
    pub pp_attrib_diminishing_cur: Vec<Vec<CharacterAttributes>>,
    /// Table for diminishing returns.
    pub pp_attrib_diminishing_res: Vec<Vec<CharacterAttributes>>,
    pub pp_attrib_temp_max: Vec<CharacterAttributesTable>,
    pub pp_attrib_temp_max_max: Vec<CharacterAttributesTable>,
    pub pp_attrib_temp_strength_max: Vec<CharacterAttributesTable>,
    pub pp_attrib_temp_resistance_max: Vec<CharacterAttributesTable>,
    /// The named tables of the archetype, in the order of the file. A table is
    /// found by its name in lower case; of two tables with one name the later
    /// counts.
    pub pp_named_tables: Vec<NamedTable>,
    /// Gang together hit points and status points. Modifications to hit points will
    /// affect status points and vice-versa. Hit points
    /// are are set to be the same as status points.
    pub b_connect_hp_and_status: bool,
    /// Byte offset to the attribute in the `CharacterAttributes` struct.
    /// If non-zero, points to the attrib which is used as hit points after the character
    /// has been defeated.
    /// Once the actual hit point attrib has reached zero, this attrib is then used to
    /// determine if the character
    /// has actually been defeated.
    pub off_defiant_hit_points_attrib: u32,
    /// Scale applied to damage before it's remove from the
    /// `off_defiant_hit_points_attrib`.
    pub f_defiant_scale: Float32,
    /// Used for lookup table purposes.
    pub class_key: Option<NameKey>,
}

impl Archetype {
    /// Whether every field has the value that it has in a new `Archetype`:
    /// numbers are zero, flags are off, texts and names are absent, lists are
    /// empty, and enumerations have their fallback value.
    pub open spec fn is_new(&self) -> bool {
        &&& self.pch_name is None
        &&& self.pch_display_name is None
        &&& self.pch_display_help is None
        &&& self.ppch_allowed_origin_names@.len() == 0
        &&& self.ppch_special_restrictions@.len() == 0
        &&& self.pch_store_restrictions is None
        &&& self.pch_locked_tooltip is None
        &&& self.pch_product_code is None
        &&& self.pch_reduction_class is None
        &&& !self.b_reduce_as_av
        &&& self.pi_level_up_respecs@.len() == 0
        &&& self.pch_display_short_help is None
        &&& self.pch_icon is None
        &&& self.pch_primary_category is None
        &&& self.pch_secondary_category is None
        &&& self.pch_power_pool_category is None
        &&& self.pch_epic_pool_category is None
        &&& self.pp_attrib_min@.len() == 0
        &&& self.pp_attrib_base@.len() == 0
        &&& self.pp_attrib_strength_min@.len() == 0
        &&& self.pp_attrib_resistance_min@.len() == 0
        &&& self.pp_attrib_diminishing_str@.len() == 0
        &&& self.pp_attrib_diminishing_cur@.len() == 0
        &&& self.pp_attrib_diminishing_res@.len() == 0
        &&& self.pp_attrib_temp_max@.len() == 0
        &&& self.pp_attrib_temp_max_max@.len() == 0
        &&& self.pp_attrib_temp_strength_max@.len() == 0
        &&& self.pp_attrib_temp_resistance_max@.len() == 0
        &&& self.pp_named_tables@.len() == 0
        &&& !self.b_connect_hp_and_status
        &&& self.off_defiant_hit_points_attrib == 0
        &&& self.f_defiant_scale.bits == 0
        &&& self.class_key is None
    }

    /// Creates a new `Archetype`.
    pub fn new() -> (value: Self)
        ensures
            value.is_new(),
    {
        Archetype {
            pch_name: None,
            pch_display_name: None,
            pch_display_help: None,
            ppch_allowed_origin_names: Vec::new(),
            ppch_special_restrictions: Vec::new(),
            pch_store_restrictions: None,
            pch_locked_tooltip: None,
            pch_product_code: None,
            pch_reduction_class: None,
            b_reduce_as_av: false,
            pi_level_up_respecs: Vec::new(),
            pch_display_short_help: None,
            pch_icon: None,
            pch_primary_category: None,
            pch_secondary_category: None,
            pch_power_pool_category: None,
            pch_epic_pool_category: None,
            pp_attrib_min: Vec::new(),
            pp_attrib_base: Vec::new(),
            pp_attrib_strength_min: Vec::new(),
            pp_attrib_resistance_min: Vec::new(),
            pp_attrib_diminishing_str: Vec::new(),
            pp_attrib_diminishing_cur: Vec::new(),
            pp_attrib_diminishing_res: Vec::new(),
            pp_attrib_temp_max: Vec::new(),
            pp_attrib_temp_max_max: Vec::new(),
            pp_attrib_temp_strength_max: Vec::new(),
            pp_attrib_temp_resistance_max: Vec::new(),
            pp_named_tables: Vec::new(),
            b_connect_hp_and_status: false,
            off_defiant_hit_points_attrib: 0,
            f_defiant_scale: Float32::zero(),
            class_key: None,
        }
    }
}

impl Archetype {
    /// The index of the inner table of diminishing returns.
    pub const kClassesDiminish_Inner: usize = 0;

    /// The index of the outer table of diminishing returns.
    pub const kClassesDiminish_Outer: usize = 1;
}

} // verus!
