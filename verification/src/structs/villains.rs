//! Definitions of villains and pets.

use crate::bin_parse::reader::WireEnum;
use super::enums::{Gender, VillainRank};
use super::flags::{VillainDefFlags, VillainExclusion};
use super::namekey::NameKey;
use super::{Float32};
use vstd::prelude::*;

verus! {

///
#[derive(Debug)]
pub struct PowerNameRef {
    pub power_category: Option<NameKey>,
    pub power_set: Option<NameKey>,
    pub power: Option<NameKey>,
    pub level: i32,
    /// Used for rewarding only: sets the level delta or the actual level depending on
    /// `fixed_level`.
    pub def_level: i32,
    /// Used for rewarding only: if `true`, removes the named power.
    pub remove: i32,
    /// Used for rewarding only: if `true`, `def_level` is a fixed reward level to give.
    pub fixed_level: i32,
    pub dont_set_stance: i32,
}

impl PowerNameRef {
    /// Whether every field has the value that it has in a new `PowerNameRef`:
    /// numbers are zero, flags are off, texts and names are absent, lists are
    /// empty, and enumerations have their fallback value.
    pub open spec fn is_new(&self) -> bool {
        &&& self.power_category is None
        &&& self.power_set is None
        &&& self.power is None
        &&& self.level == 0
        &&& self.def_level == 0
        &&& self.remove == 0
        &&& self.fixed_level == 0
        &&& self.dont_set_stance == 0
    }

    /// Creates a new `PowerNameRef`.
    pub fn new() -> (value: Self)
        ensures
            value.is_new(),
    {
        PowerNameRef {
            power_category: None,
            power_set: None,
            power: None,
            level: 0,
            def_level: 0,
            remove: 0,
            fixed_level: 0,
            dont_set_stance: 0,
        }
    }
}

///
#[derive(Debug)]
pub struct VillainLevelDef {
    /// What is the villain level is this definition for?
    pub level: i32,
    pub experience: i32,
    /// What are the possible display names for the villain at this level?
    pub display_names: Vec<String>,
    /// Costume names, which references entries in NPC definitions.
    pub costumes: Vec<String>,
}

impl VillainLevelDef {
    /// Whether every field has the value that it has in a new `VillainLevelDef`:
    /// numbers are zero, flags are off, texts and names are absent, lists are
    /// empty, and enumerations have their fallback value.
    pub open spec fn is_new(&self) -> bool {
        &&& self.level == 0
        &&& self.experience == 0
        &&& self.display_names@.len() == 0
        &&& self.costumes@.len() == 0
    }

    /// Creates a new `VillainLevelDef`.
    pub fn new() -> (value: Self)
        ensures
            value.is_new(),
    {
        VillainLevelDef {
            level: 0,
            experience: 0,
            display_names: Vec::new(),
            costumes: Vec::new(),
        }
    }
}

///
#[derive(Debug)]
pub struct PetCommandStrings {
    pub ppch_passive: Vec<String>,
    pub ppch_defensive: Vec<String>,
    pub ppch_aggressive: Vec<String>,
    pub ppch_attack_target: Vec<String>,
    pub ppch_attack_no_target: Vec<String>,
    pub ppch_stay_here: Vec<String>,
    pub ppch_use_power: Vec<String>,
    pub ppch_use_power_none: Vec<String>,
    pub ppch_follow_me: Vec<String>,
    pub ppch_goto_spot: Vec<String>,
    pub ppch_dismiss: Vec<String>,
}

impl PetCommandStrings {
    /// Whether every field has the value that it has in a new `PetCommandStrings`:
    /// numbers are zero, flags are off, texts and names are absent, lists are
    /// empty, and enumerations have their fallback value.
    pub open spec fn is_new(&self) -> bool {
        &&& self.ppch_passive@.len() == 0
        &&& self.ppch_defensive@.len() == 0
        &&& self.ppch_aggressive@.len() == 0
        &&& self.ppch_attack_target@.len() == 0
        &&& self.ppch_attack_no_target@.len() == 0
        &&& self.ppch_stay_here@.len() == 0
        &&& self.ppch_use_power@.len() == 0
        &&& self.ppch_use_power_none@.len() == 0
        &&& self.ppch_follow_me@.len() == 0
        &&& self.ppch_goto_spot@.len() == 0
        &&& self.ppch_dismiss@.len() == 0
    }

    /// Creates a new `PetCommandStrings`.
    pub fn new() -> (value: Self)
        ensures
            value.is_new(),
    {
        PetCommandStrings {
            ppch_passive: Vec::new(),
            ppch_defensive: Vec::new(),
            ppch_aggressive: Vec::new(),
            ppch_attack_target: Vec::new(),
            ppch_attack_no_target: Vec::new(),
            ppch_stay_here: Vec::new(),
            ppch_use_power: Vec::new(),
            ppch_use_power_none: Vec::new(),
            ppch_follow_me: Vec::new(),
            ppch_goto_spot: Vec::new(),
            ppch_dismiss: Vec::new(),
        }
    }
}

/// Defines different villain (NPC) templates. This is used to look up the definition
/// of entities (such as pets and pseudopets) created by powers.
#[derive(Debug)]
pub struct VillainDef {
    /// Internal name.  NPCs should be referenced by this name.
    pub name: Option<NameKey>,
    pub gender: Gender,
    pub character_class_name: Option<NameKey>,
    /// Villain description.
    pub description: Option<String>,
    /// An override for the villain group description.
    pub group_description: Option<String>,
    /// An override for the class display name.
    pub display_class_name: Option<String>,
    pub ai_config: Option<String>,
    /// Tags which can be checked in powers for special effects.
    pub power_tags: Vec<String>,
    pub additional_rewards: Vec<String>,
    pub skill_hp_rewards: Vec<String>,
    pub skill_status_rewards: Vec<String>,
    pub ally: Option<String>,
    pub gang: Option<String>,
    /// Scale XP and influence given out by this value.
    pub reward_scale: Float32,
    /// Villain should only appear in this version of the game.
    pub exclusion: VillainExclusion,
    /// Weapon to use in encounter inactive state when you carry a weapon (linked to
    /// animation).
    pub favorite_weapon: Option<String>,
    /// If `true`, this villain's attacks and defenses will ignore combat modifiers.
    pub ignore_combat_mods: bool,
    /// If `true`, when spawned as a pet this villain gets a copy of its creator's
    /// attribute modifiers.
    pub copy_creator_mods: bool,
    /// The maximum number of this villain that will be put in one spawn in non-mission
    /// maps (`-1` = no limit).
    pub spawn_limit: i32,
    /// The maximum number of this villain that will be put in one spawn in mission maps
    /// (`-1` = no limit, defaults to `spawn_limit`).
    pub spawn_limit_mission: i32,
    /// If `true`, this villain will not be reduced from an arch-villain to an elite boss.
    pub ignore_reduction: bool,
    /// If `true`, this villain can follow its creator across zone boundaries.
    pub can_zone: bool,
    /// Increment this badge stat on a kill of this villain.
    pub custom_badge_stat: Option<String>,
    pub flags: VillainDefFlags,
    pub rank: VillainRank,
    pub group: i32,
    pub powers: Vec<PowerNameRef>,
    pub levels: Vec<VillainLevelDef>,
    pub special_pet_power: Option<String>,
    /// For pets, responses for when they are commanded.
    pub pet_command_strings: Vec<PetCommandStrings>,
    /// For pets, whether or not to display in pet window.
    pub pet_visibility: i32,
    /// For pets, can they be commanded?
    pub pet_commandability: i32,
    /// For debugging.
    pub file_name: Option<String>,
    /// File modification time.
    pub file_age: u32,
    /// Entry proccess time.
    pub process_age: u32,
}

impl VillainDef {
    /// Whether every field has the value that it has in a new `VillainDef`:
    /// numbers are zero, flags are off, texts and names are absent, lists are
    /// empty, and enumerations have their fallback value.
    pub open spec fn is_new(&self) -> bool {
        &&& self.name is None
        &&& self.gender == Gender::fallback()
        &&& self.character_class_name is None
        &&& self.description is None
        &&& self.group_description is None
        &&& self.display_class_name is None
        &&& self.ai_config is None
        &&& self.power_tags@.len() == 0
        &&& self.additional_rewards@.len() == 0
        &&& self.skill_hp_rewards@.len() == 0
        &&& self.skill_status_rewards@.len() == 0
        &&& self.ally is None
        &&& self.gang is None
        &&& self.reward_scale.bits == 0
        &&& self.exclusion.bits == 0
        &&& self.favorite_weapon is None
        &&& !self.ignore_combat_mods
        &&& !self.copy_creator_mods
        &&& self.spawn_limit == 0
        &&& self.spawn_limit_mission == 0
        &&& !self.ignore_reduction
        &&& !self.can_zone
        &&& self.custom_badge_stat is None
        &&& self.flags.bits == 0
        &&& self.rank == VillainRank::fallback()
        &&& self.group == 0
        &&& self.powers@.len() == 0
        &&& self.levels@.len() == 0
        &&& self.special_pet_power is None
        &&& self.pet_command_strings@.len() == 0
        &&& self.pet_visibility == 0
        &&& self.pet_commandability == 0
        &&& self.file_name is None
        &&& self.file_age == 0
        &&& self.process_age == 0
    }

    /// Creates a new `VillainDef`.
    pub fn new() -> (value: Self)
        ensures
            value.is_new(),
    {
        VillainDef {
            name: None,
            gender: Gender::new(),
            character_class_name: None,
            description: None,
            group_description: None,
            display_class_name: None,
            ai_config: None,
            power_tags: Vec::new(),
            additional_rewards: Vec::new(),
            skill_hp_rewards: Vec::new(),
            skill_status_rewards: Vec::new(),
            ally: None,
            gang: None,
            reward_scale: Float32::zero(),
            exclusion: VillainExclusion::new(),
            favorite_weapon: None,
            ignore_combat_mods: false,
            copy_creator_mods: false,
            spawn_limit: 0,
            spawn_limit_mission: 0,
            ignore_reduction: false,
            can_zone: false,
            custom_badge_stat: None,
            flags: VillainDefFlags::new(),
            rank: VillainRank::new(),
            group: 0,
            powers: Vec::new(),
            levels: Vec::new(),
            special_pet_power: None,
            pet_command_strings: Vec::new(),
            pet_visibility: 0,
            pet_commandability: 0,
            file_name: None,
            file_age: 0,
            process_age: 0,
        }
    }
}

} // verus!
