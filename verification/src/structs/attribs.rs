//! The attributes of characters, and their names.
#![allow(non_upper_case_globals)]

use super::{Float32};
use std::collections::HashMap;
use vstd::prelude::*;

verus! {

broadcast use vstd::std_specs::hash::group_hash_axioms;

/// The names of one attribute.
#[derive(Debug)]
pub struct AttribName {
    pub pch_name: Option<String>,
    pub pch_display_name: Option<String>,
    pub pch_icon_name: Option<String>,
}

impl AttribName {
    /// Whether every field has the value that it has in a new `AttribName`:
    /// numbers are zero, flags are off, texts and names are absent, lists are
    /// empty, and enumerations have their fallback value.
    pub open spec fn is_new(&self) -> bool {
        &&& self.pch_name is None
        &&& self.pch_display_name is None
        &&& self.pch_icon_name is None
    }

    /// Creates a new `AttribName`.
    pub fn new() -> (value: Self)
        ensures
            value.is_new(),
    {
        AttribName {
            pch_name: None,
            pch_display_name: None,
            pch_icon_name: None,
        }
    }
}

/// The names of all attributes: by kind, in the order of the file, and for the attributes
/// of a character by the offset of the attribute.
#[derive(Debug)]
pub struct AttribNames {
    pub pp_defense: Vec<AttribName>,
    pub pp_damage: Vec<AttribName>,
    pub pp_boost: Vec<AttribName>,
    pub pp_group: Vec<AttribName>,
    pub pp_mode: Vec<AttribName>,
    pub pp_elusivity: Vec<AttribName>,
    pub pp_stack_key: Vec<AttribName>,
    /// The display name of each attribute of a character, by the offset of
    /// the attribute; absent where the message store has no text for it.
    pub attr_names: HashMap<usize, Option<String>>,
}

impl AttribNames {
    /// Whether every field has the value that it has in a new `AttribNames`:
    /// numbers are zero, flags are off, texts and names are absent, lists are
    /// empty, and enumerations have their fallback value.
    pub open spec fn is_new(&self) -> bool {
        &&& self.pp_defense@.len() == 0
        &&& self.pp_damage@.len() == 0
        &&& self.pp_boost@.len() == 0
        &&& self.pp_group@.len() == 0
        &&& self.pp_mode@.len() == 0
        &&& self.pp_elusivity@.len() == 0
        &&& self.pp_stack_key@.len() == 0
        &&& self.attr_names@ == Map::<usize, Option<String>>::empty()
    }

    /// Creates a new `AttribNames`.
    pub fn new() -> (value: Self)
        ensures
            value.is_new(),
    {
        AttribNames {
            pp_defense: Vec::new(),
            pp_damage: Vec::new(),
            pp_boost: Vec::new(),
            pp_group: Vec::new(),
            pp_mode: Vec::new(),
            pp_elusivity: Vec::new(),
            pp_stack_key: Vec::new(),
            attr_names: HashMap::new(),
        }
    }
}

/// Defines the attributes which can be modified by effects.
#[derive(Debug)]
pub struct CharacterAttributes {
    /// Mod: The number of points to add or remove from current hit points.
    /// ModBase: 0.0, Add, TimesMax, Absolute, HitPoints, DumpAttribs: NO_CUR
    pub f_damage_type: Vec<Float32>,
    /// Cur: Number of hitpoints the player currently has. Running tally.
    /// Mod: How many hitpoints to add or remove from the tally.
    /// ModBase: 0.0, Add, TimesMax, Absolute, HitPoints, DumpAttribs: ALWAYS
    pub f_hit_points: Float32,
    /// Max: Number of absorb points the player currently has. Running tally.
    /// ModBase: 0.0, Add, TimesMax, Absolute, HitPoints, DumpAttribs: ALWAYS
    pub f_absorb: Float32,
    /// Cur: Measure of endurance the player currently has. Running tally.
    /// Mod: How many points to add or remove from the tally.
    /// ModBase: 0.0, Add, TimesMax, Absolute, DumpAttribs: ALWAYS
    pub f_endurance: Float32,
    /// Cur: Measure of Insight the player currently has. Running tally.
    /// Mod: How many points to add or remove from the tally.
    /// ModBase: 0.0, Add, TimesMax, Absolute, DumpAttribs: ALWAYS, Synonym: Idea
    pub f_insight: Float32,
    /// Cur: Measure of Rage the player currently has. Running tally.
    /// Mod: How many points to add or remove from the tally.
    /// ModBase: 0.0, Add, TimesMax, Absolute, DumpAttribs: ALWAYS
    pub f_rage: Float32,
    /// Cur: The change to hit a target. .75==75%, min 5%, max 95%
    /// Mod: This is a percentage to be added to the base percentage value.
    /// ModBase: 0.0, Add, CLAMP_CUR: No
    pub f_to_hit: Float32,
    /// Cur: The chance to avoid being hit by a certain kind of attack. Opposes ToHit.
    /// Mod: This is a percentage added to the base percentage value.
    /// ModBase: 0.0, Add
    pub f_defense_type: Vec<Float32>,
    /// Cur: The chance of avoiding being hit by a direct attack.
    /// Mod: This is a percentage to be added to the base percentage value.
    /// ModBase: 0.0, Add
    pub f_defense: Float32,
    /// Cur: How fast the character travels as a percentage of basic character speed.
    /// Defaults to 1.0 (100%) (30ft/s).
    /// Mod: A percentage to be multiplied with the base speed value.
    /// ModBase: 1.0, Multiply
    pub f_speed_running: Float32,
    /// Cur: How fast the character travels as a percentage of basic character speed.
    /// Defaults to 1.0 (100%) (30ft/s).
    /// Mod: A percentage to be multiplied with the base speed value.
    /// ModBase: 1.0, Multiply
    pub f_speed_flying: Float32,
    /// Cur: How fast the character travels as a percentage of basic character speed.
    /// Defaults to 1.0 (100%) (30ft/s).
    /// Mod: A percentage to be multiplied with the base speed value.
    /// ModBase: 1.0, Multiply
    pub f_speed_swimming: Float32,
    /// Cur: How fast the character travels as a percentage of basic character speed.
    /// Defaults to 1.0 (100%) (30ft/s).
    /// Mod: A percentage to be multiplied with the base speed value.
    /// ModBase: 1.0, Multiply
    pub f_speed_jumping: Float32,
    /// Cur: How well the character jumps as a percentage of basic character jump
    /// velocity. Defaults to 1.0 (100%) (12ft).
    /// Mod: A percentage to be multiplied with the base value.
    /// ModBase: 1.0, Multiply
    pub f_jump_height: Float32,
    /// Cur: Controls the character's ability to move. Default is 0.0 (use built-ins),
    /// running is 1.0, jumping is 0.03.
    /// Mod: This is a percentage to be multiplied with the base value.
    /// ModBase: 1.0, Multiply
    pub f_movement_control: Float32,
    /// Cur: Controls the character's ability to move. Default is 0.0 (use built-ins),
    /// running is 0.3, jumping is 0.
    /// Mod: This is a percentage to be multiplied with the base value.
    /// ModBase: 1.0, Multiply
    pub f_movement_friction: Float32,
    /// Cur: The chance of avoiding being seen when in eyeshot of an enemy.
    /// Mod: This is a percentage to be added to the base percentage value.
    /// ModBase: 0.0, Add
    pub f_stealth: Float32,
    /// Cur: This is the distance subtracted from an enemy's perception distance.
    /// Mod: This is a distance to be added to the base distance value.
    /// ModBase: 0.0, Add
    pub f_stealth_radius: Float32,
    /// Cur: This is the distance subtracted from an enemy player's perception distance.
    /// Mod: This is a distance to be added to the base distance value.
    /// ModBase: 0.0, Add
    pub f_stealth_radius_player: Float32,
    /// Cur: This is the distance the character can see.
    /// Mod: This is a percentage improvement over the base.
    /// ModBase: 1.0, Mutliply, PlusAbsolute
    pub f_perception_radius: Float32,
    /// Cur: This is the rate at which hit points are regenerated. (1.0 = 100% max HP per
    /// minute.)
    /// Mod: This is a rate which will be multiplied by the base rate.
    /// ModBase: 1.0, Multiply
    pub f_regeneration: Float32,
    /// Cur: This is the rate at which endurance is recovered. (1.0 = 100% max endurance
    /// per minute.)
    /// Mod: This is a rate which will be multiplied by the base rate.
    /// ModBase: 1.0, Multiply
    pub f_recovery: Float32,
    /// Cur: This is the rate at which insight will recover. (1.0 = 100% max insight per
    /// minute.)
    /// Mod: This is a rate which will be multiplied by the base rate.
    /// ModBase: 1.0, Multiply
    pub f_insight_recovery: Float32,
    /// Cur: The general threat level of the character, used by AI.
    /// Mod: N/A
    /// ModBase: 0.0, Add
    pub f_threat_level: Float32,
    /// Cur: This is how much the character is taunting a target. (Not really useful,
    /// modifying makes the AI more belligerent to you.)
    /// Mod: N/A
    /// ModBase: 1.0, Add
    pub f_taunt: Float32,
    /// Cur: This is how much the character is being placated. (Not really useful,
    /// modifying makes the AI less belligerent to you.)
    /// Mod: N/A
    /// ModBase: 1.0, Add
    pub f_placate: Float32,
    /// Cur: Wanders around. Boolean.
    /// ModBase: 0.0, Add
    pub f_confused: Float32,
    /// Cur: Wants to run away. Boolean.
    /// ModBase: 0.0, Add
    pub f_afraid: Float32,
    /// Cur: Cowers. Boolean.
    /// ModBase: 0.0, Add
    pub f_terrorized: Float32,
    /// Cur: Cannot move or execute powers. Boolean.
    /// ModBase: 0.0, Add
    pub f_held: Float32,
    /// Cur: Cannot move. Boolean.
    /// ModBase: 0.0, Add
    pub f_immobilized: Float32,
    /// Cur: Cannot execute powers. Boolean.
    /// ModBase: 0.0, Add
    pub f_stunned: Float32,
    /// Cur: Immobilize + stun unless awoken. Boolean.
    /// ModBase: 0.0, Add
    pub f_sleep: Float32,
    /// Cur: Can fly. Boolean.
    /// ModBase: 0.0, Add
    pub f_fly: Float32,
    /// Cur: Can use jump pack. Boolean.
    /// ModBase: 0.0, Add
    pub f_jump_pack: Float32,
    /// Cur: Initiates a teleport. Boolean.
    /// ModBase: 0.0, Add
    pub f_teleport: Float32,
    /// Cur: Only caster can hit themself. Boolean.
    /// ModBase: 0.0, Add
    pub f_untouchable: Float32,
    /// Cur: Doesn't collide with others. Boolean.
    /// ModBase: 0.0, Add
    pub f_intangible: Float32,
    /// Cur: Powers only affect self. Boolean.
    /// ModBase: 0.0, Add
    pub f_only_affects_self: Float32,
    /// Cur: XP gain factor.
    /// ModBase: 0.0, Add
    pub f_experience_gain: Float32,
    /// Cur: Influence gain factor.
    /// ModBase: 0.0, Add
    pub f_influence_gain: Float32,
    /// Cur: Prestige gain factor.
    /// ModBase: 0.0, Add
    pub f_prestige_gain: Float32,
    /// Cur: Doesn't do anything.
    /// ModBase: 0.0, Add
    pub f_null_bool: Float32,
    /// Cur: How hard the character knocks enemies up as a percentage of base. Default to
    /// 1.0 (100%).
    /// Mod: A percentage to be multiplied with the base value.
    /// ModBase: 0.0, Multiply
    pub f_knock_up: Float32,
    /// Cur: How hard the character knocks enemies back as a percentage of base. Default
    /// to 1.0 (100%).
    /// Mod: A percentage to be multiplied with the base value.
    /// ModBase: 0.0, Multiply
    pub f_knock_back: Float32,
    /// Cur: How hard the character repels enemies as a percentage of base. Default to 1.0
    /// (100%).
    /// Mod: A percentage to be multiplied with the base value.
    /// ModBase: 0.0, Multiply
    pub f_repel: Float32,
    /// Cur: Unused.
    /// Mod: Unused.
    /// Str: A percentage which is multiplied with a power's facets.
    /// ModBase: 1.0, Multiply, DumpAttribs: STR_RES
    pub f_accuracy: Float32,
    /// Cur: Unused.
    /// Mod: Unused.
    /// Str: A percentage which is multiplied with a power's facets.
    /// ModBase: 1.0, Multiply, DumpAttribs: STR_RES
    pub f_radius: Float32,
    /// Cur: Unused.
    /// Mod: Unused.
    /// Str: A percentage which is multiplied with a power's facets.
    /// ModBase: 1.0, Multiply, DumpAttribs: STR_RES
    pub f_arc: Float32,
    /// Cur: Unused.
    /// Mod: Unused.
    /// Str: A percentage which is multiplied with a power's facets.
    /// ModBase: 1.0, Multiply, DumpAttribs: STR_RES
    pub f_range: Float32,
    /// Cur: Unused.
    /// Mod: Unused.
    /// Str: A rate which will be multiplied by the base (hard-coded) rate.
    /// ModBase: 1.0, Multiply, DumpAttribs: STR_RES
    pub f_time_to_activate: Float32,
    /// Cur: Unused.
    /// Mod: Unused.
    /// Str: A rate which will be multiplied by the base (hard-coded) rate.
    /// ModBase: 1.0, Multiply, DumpAttribs: STR_RES
    pub f_recharge_time: Float32,
    /// Cur: Unused.
    /// Mod: Unused.
    /// Str: A rate which will be multiplied by the base (hard-coded) rate.
    /// ModBase: 1.0, Multiply, DumpAttribs: STR_RES
    pub f_interrupt_time: Float32,
    /// Cur: Unused.
    /// Mod: Unused.
    /// Str: This is a magnitude which will divide into the cost.
    /// ModBase: 1.0, Multiply, DumpAttribs: STR_RES
    pub f_endurance_discount: Float32,
    /// Cur: Unused.
    /// Mod: Unused.
    /// Str: This is a magnitude which will divide into the cost.
    /// ModBase: 1.0, Multiply, DumpAttribs: STR_RES, NoDump
    pub f_insight_discount: Float32,
    /// Cur: A "fake" attribute which shows up as a meter in the UI.
    /// Mod: Amount to increase or decrease the meter.
    /// ModBase: 0.0, Add, PlusAbsolute
    pub f_meter: Float32,
    /// Cur: The chance to avoid being hit by a certain kind of attack. Opposes Accuracy.
    /// PvP only.
    /// Mod: This is a percentage added to the base percentage value.
    /// Str: Anti-accuracy.
    /// ModBase: 0.0, Add
    pub f_elusivity: Vec<Float32>,
    pub f_elusivity_base: Float32,
}

impl CharacterAttributes {
    /// Whether every field has the value that it has in a new `CharacterAttributes`:
    /// numbers are zero, flags are off, texts and names are absent, lists are
    /// empty, and enumerations have their fallback value.
    pub open spec fn is_new(&self) -> bool {
        &&& self.f_damage_type@.len() == 0
        &&& self.f_hit_points.bits == 0
        &&& self.f_absorb.bits == 0
        &&& self.f_endurance.bits == 0
        &&& self.f_insight.bits == 0
        &&& self.f_rage.bits == 0
        &&& self.f_to_hit.bits == 0
        &&& self.f_defense_type@.len() == 0
        &&& self.f_defense.bits == 0
        &&& self.f_speed_running.bits == 0
        &&& self.f_speed_flying.bits == 0
        &&& self.f_speed_swimming.bits == 0
        &&& self.f_speed_jumping.bits == 0
        &&& self.f_jump_height.bits == 0
        &&& self.f_movement_control.bits == 0
        &&& self.f_movement_friction.bits == 0
        &&& self.f_stealth.bits == 0
        &&& self.f_stealth_radius.bits == 0
        &&& self.f_stealth_radius_player.bits == 0
        &&& self.f_perception_radius.bits == 0
        &&& self.f_regeneration.bits == 0
        &&& self.f_recovery.bits == 0
        &&& self.f_insight_recovery.bits == 0
        &&& self.f_threat_level.bits == 0
        &&& self.f_taunt.bits == 0
        &&& self.f_placate.bits == 0
        &&& self.f_confused.bits == 0
        &&& self.f_afraid.bits == 0
        &&& self.f_terrorized.bits == 0
        &&& self.f_held.bits == 0
        &&& self.f_immobilized.bits == 0
        &&& self.f_stunned.bits == 0
        &&& self.f_sleep.bits == 0
        &&& self.f_fly.bits == 0
        &&& self.f_jump_pack.bits == 0
        &&& self.f_teleport.bits == 0
        &&& self.f_untouchable.bits == 0
        &&& self.f_intangible.bits == 0
        &&& self.f_only_affects_self.bits == 0
        &&& self.f_experience_gain.bits == 0
        &&& self.f_influence_gain.bits == 0
        &&& self.f_prestige_gain.bits == 0
        &&& self.f_null_bool.bits == 0
        &&& self.f_knock_up.bits == 0
        &&& self.f_knock_back.bits == 0
        &&& self.f_repel.bits == 0
        &&& self.f_accuracy.bits == 0
        &&& self.f_radius.bits == 0
        &&& self.f_arc.bits == 0
        &&& self.f_range.bits == 0
        &&& self.f_time_to_activate.bits == 0
        &&& self.f_recharge_time.bits == 0
        &&& self.f_interrupt_time.bits == 0
        &&& self.f_endurance_discount.bits == 0
        &&& self.f_insight_discount.bits == 0
        &&& self.f_meter.bits == 0
        &&& self.f_elusivity@.len() == 0
        &&& self.f_elusivity_base.bits == 0
    }

    /// Creates a new `CharacterAttributes`.
    pub fn new() -> (value: Self)
        ensures
            value.is_new(),
    {
        CharacterAttributes {
            f_damage_type: Vec::new(),
            f_hit_points: Float32::zero(),
            f_absorb: Float32::zero(),
            f_endurance: Float32::zero(),
            f_insight: Float32::zero(),
            f_rage: Float32::zero(),
            f_to_hit: Float32::zero(),
            f_defense_type: Vec::new(),
            f_defense: Float32::zero(),
            f_speed_running: Float32::zero(),
            f_speed_flying: Float32::zero(),
            f_speed_swimming: Float32::zero(),
            f_speed_jumping: Float32::zero(),
            f_jump_height: Float32::zero(),
            f_movement_control: Float32::zero(),
            f_movement_friction: Float32::zero(),
            f_stealth: Float32::zero(),
            f_stealth_radius: Float32::zero(),
            f_stealth_radius_player: Float32::zero(),
            f_perception_radius: Float32::zero(),
            f_regeneration: Float32::zero(),
            f_recovery: Float32::zero(),
            f_insight_recovery: Float32::zero(),
            f_threat_level: Float32::zero(),
            f_taunt: Float32::zero(),
            f_placate: Float32::zero(),
            f_confused: Float32::zero(),
            f_afraid: Float32::zero(),
            f_terrorized: Float32::zero(),
            f_held: Float32::zero(),
            f_immobilized: Float32::zero(),
            f_stunned: Float32::zero(),
            f_sleep: Float32::zero(),
            f_fly: Float32::zero(),
            f_jump_pack: Float32::zero(),
            f_teleport: Float32::zero(),
            f_untouchable: Float32::zero(),
            f_intangible: Float32::zero(),
            f_only_affects_self: Float32::zero(),
            f_experience_gain: Float32::zero(),
            f_influence_gain: Float32::zero(),
            f_prestige_gain: Float32::zero(),
            f_null_bool: Float32::zero(),
            f_knock_up: Float32::zero(),
            f_knock_back: Float32::zero(),
            f_repel: Float32::zero(),
            f_accuracy: Float32::zero(),
            f_radius: Float32::zero(),
            f_arc: Float32::zero(),
            f_range: Float32::zero(),
            f_time_to_activate: Float32::zero(),
            f_recharge_time: Float32::zero(),
            f_interrupt_time: Float32::zero(),
            f_endurance_discount: Float32::zero(),
            f_insight_discount: Float32::zero(),
            f_meter: Float32::zero(),
            f_elusivity: Vec::new(),
            f_elusivity_base: Float32::zero(),
        }
    }
}

/// Defines the attributes which can be modified by effects.
/// This is essentially a version of `CharacterAttributes` where each entry is
/// an array rather than a single value. The arrays are typically 50 entries
/// long, representing values for levels 1-50.
#[derive(Debug)]
pub struct CharacterAttributesTable {
    pub pf_damage_type: Vec<Vec<Float32>>,
    pub pf_hit_points: Vec<Float32>,
    pub pf_endurance: Vec<Float32>,
    pub pf_insight: Vec<Float32>,
    pub pf_rage: Vec<Float32>,
    pub pf_to_hit: Vec<Float32>,
    pub pf_defense_type: Vec<Vec<Float32>>,
    pub pf_defense: Vec<Float32>,
    pub pf_speed_running: Vec<Float32>,
    pub pf_speed_flying: Vec<Float32>,
    pub pf_speed_swimming: Vec<Float32>,
    pub pf_speed_jumping: Vec<Float32>,
    pub pf_jump_height: Vec<Float32>,
    pub pf_movement_control: Vec<Float32>,
    pub pf_movement_friction: Vec<Float32>,
    pub pf_stealth: Vec<Float32>,
    pub pf_stealth_radius: Vec<Float32>,
    pub pf_stealth_radius_player: Vec<Float32>,
    pub pf_perception_radius: Vec<Float32>,
    pub pf_regeneration: Vec<Float32>,
    pub pf_recovery: Vec<Float32>,
    pub pf_insight_recovery: Vec<Float32>,
    pub pf_threat_level: Vec<Float32>,
    pub pf_taunt: Vec<Float32>,
    pub pf_placate: Vec<Float32>,
    pub pf_confused: Vec<Float32>,
    pub pf_afraid: Vec<Float32>,
    pub pf_terrorized: Vec<Float32>,
    pub pf_held: Vec<Float32>,
    pub pf_immobilized: Vec<Float32>,
    pub pf_stunned: Vec<Float32>,
    pub pf_sleep: Vec<Float32>,
    pub pf_fly: Vec<Float32>,
    pub pf_jump_pack: Vec<Float32>,
    pub pf_teleport: Vec<Float32>,
    pub pf_untouchable: Vec<Float32>,
    pub pf_intangible: Vec<Float32>,
    pub pf_only_affects_self: Vec<Float32>,
    pub pf_experience_gain: Vec<Float32>,
    pub pf_influence_gain: Vec<Float32>,
    pub pf_prestige_gain: Vec<Float32>,
    pub pf_null_bool: Vec<Float32>,
    pub pf_knock_up: Vec<Float32>,
    pub pf_knock_back: Vec<Float32>,
    pub pf_repel: Vec<Float32>,
    pub pf_accuracy: Vec<Float32>,
    pub pf_radius: Vec<Float32>,
    pub pf_arc: Vec<Float32>,
    pub pf_range: Vec<Float32>,
    pub pf_time_to_activate: Vec<Float32>,
    pub pf_recharge_time: Vec<Float32>,
    pub pf_interrupt_time: Vec<Float32>,
    pub pf_endurance_discount: Vec<Float32>,
    pub pf_insight_discount: Vec<Float32>,
    pub pf_meter: Vec<Float32>,
    pub pf_elusivity: Vec<Vec<Float32>>,
    pub pf_elusivity_base: Vec<Float32>,
    pub pf_absorb: Vec<Float32>,
}

impl CharacterAttributesTable {
    /// Whether every field has the value that it has in a new `CharacterAttributesTable`:
    /// numbers are zero, flags are off, texts and names are absent, lists are
    /// empty, and enumerations have their fallback value.
    pub open spec fn is_new(&self) -> bool {
        &&& self.pf_damage_type@.len() == 0
        &&& self.pf_hit_points@.len() == 0
        &&& self.pf_endurance@.len() == 0
        &&& self.pf_insight@.len() == 0
        &&& self.pf_rage@.len() == 0
        &&& self.pf_to_hit@.len() == 0
        &&& self.pf_defense_type@.len() == 0
        &&& self.pf_defense@.len() == 0
        &&& self.pf_speed_running@.len() == 0
        &&& self.pf_speed_flying@.len() == 0
        &&& self.pf_speed_swimming@.len() == 0
        &&& self.pf_speed_jumping@.len() == 0
        &&& self.pf_jump_height@.len() == 0
        &&& self.pf_movement_control@.len() == 0
        &&& self.pf_movement_friction@.len() == 0
        &&& self.pf_stealth@.len() == 0
        &&& self.pf_stealth_radius@.len() == 0
        &&& self.pf_stealth_radius_player@.len() == 0
        &&& self.pf_perception_radius@.len() == 0
        &&& self.pf_regeneration@.len() == 0
        &&& self.pf_recovery@.len() == 0
        &&& self.pf_insight_recovery@.len() == 0
        &&& self.pf_threat_level@.len() == 0
        &&& self.pf_taunt@.len() == 0
        &&& self.pf_placate@.len() == 0
        &&& self.pf_confused@.len() == 0
        &&& self.pf_afraid@.len() == 0
        &&& self.pf_terrorized@.len() == 0
        &&& self.pf_held@.len() == 0
        &&& self.pf_immobilized@.len() == 0
        &&& self.pf_stunned@.len() == 0
        &&& self.pf_sleep@.len() == 0
        &&& self.pf_fly@.len() == 0
        &&& self.pf_jump_pack@.len() == 0
        &&& self.pf_teleport@.len() == 0
        &&& self.pf_untouchable@.len() == 0
        &&& self.pf_intangible@.len() == 0
        &&& self.pf_only_affects_self@.len() == 0
        &&& self.pf_experience_gain@.len() == 0
        &&& self.pf_influence_gain@.len() == 0
        &&& self.pf_prestige_gain@.len() == 0
        &&& self.pf_null_bool@.len() == 0
        &&& self.pf_knock_up@.len() == 0
        &&& self.pf_knock_back@.len() == 0
        &&& self.pf_repel@.len() == 0
        &&& self.pf_accuracy@.len() == 0
        &&& self.pf_radius@.len() == 0
        &&& self.pf_arc@.len() == 0
        &&& self.pf_range@.len() == 0
        &&& self.pf_time_to_activate@.len() == 0
        &&& self.pf_recharge_time@.len() == 0
        &&& self.pf_interrupt_time@.len() == 0
        &&& self.pf_endurance_discount@.len() == 0
        &&& self.pf_insight_discount@.len() == 0
        &&& self.pf_meter@.len() == 0
        &&& self.pf_elusivity@.len() == 0
        &&& self.pf_elusivity_base@.len() == 0
        &&& self.pf_absorb@.len() == 0
    }

    /// Creates a new `CharacterAttributesTable`.
    pub fn new() -> (value: Self)
        ensures
            value.is_new(),
    {
        CharacterAttributesTable {
            pf_damage_type: Vec::new(),
            pf_hit_points: Vec::new(),
            pf_endurance: Vec::new(),
            pf_insight: Vec::new(),
            pf_rage: Vec::new(),
            pf_to_hit: Vec::new(),
            pf_defense_type: Vec::new(),
            pf_defense: Vec::new(),
            pf_speed_running: Vec::new(),
            pf_speed_flying: Vec::new(),
            pf_speed_swimming: Vec::new(),
            pf_speed_jumping: Vec::new(),
            pf_jump_height: Vec::new(),
            pf_movement_control: Vec::new(),
            pf_movement_friction: Vec::new(),
            pf_stealth: Vec::new(),
            pf_stealth_radius: Vec::new(),
            pf_stealth_radius_player: Vec::new(),
            pf_perception_radius: Vec::new(),
            pf_regeneration: Vec::new(),
            pf_recovery: Vec::new(),
            pf_insight_recovery: Vec::new(),
            pf_threat_level: Vec::new(),
            pf_taunt: Vec::new(),
            pf_placate: Vec::new(),
            pf_confused: Vec::new(),
            pf_afraid: Vec::new(),
            pf_terrorized: Vec::new(),
            pf_held: Vec::new(),
            pf_immobilized: Vec::new(),
            pf_stunned: Vec::new(),
            pf_sleep: Vec::new(),
            pf_fly: Vec::new(),
            pf_jump_pack: Vec::new(),
            pf_teleport: Vec::new(),
            pf_untouchable: Vec::new(),
            pf_intangible: Vec::new(),
            pf_only_affects_self: Vec::new(),
            pf_experience_gain: Vec::new(),
            pf_influence_gain: Vec::new(),
            pf_prestige_gain: Vec::new(),
            pf_null_bool: Vec::new(),
            pf_knock_up: Vec::new(),
            pf_knock_back: Vec::new(),
            pf_repel: Vec::new(),
            pf_accuracy: Vec::new(),
            pf_radius: Vec::new(),
            pf_arc: Vec::new(),
            pf_range: Vec::new(),
            pf_time_to_activate: Vec::new(),
            pf_recharge_time: Vec::new(),
            pf_interrupt_time: Vec::new(),
            pf_endurance_discount: Vec::new(),
            pf_insight_discount: Vec::new(),
            pf_meter: Vec::new(),
            pf_elusivity: Vec::new(),
            pf_elusivity_base: Vec::new(),
            pf_absorb: Vec::new(),
        }
    }
}

/// A table of numbers with a name, one number for each level.
#[derive(Debug)]
pub struct NamedTable {
    pub pch_name: Option<String>,
    pub pf_values: Vec<Float32>,
}

impl NamedTable {
    /// Whether every field has the value that it has in a new `NamedTable`:
    /// numbers are zero, flags are off, texts and names are absent, lists are
    /// empty, and enumerations have their fallback value.
    pub open spec fn is_new(&self) -> bool {
        &&& self.pch_name is None
        &&& self.pf_values@.len() == 0
    }

    /// Creates a new `NamedTable`.
    pub fn new() -> (value: Self)
        ensures
            value.is_new(),
    {
        NamedTable {
            pch_name: None,
            pf_values: Vec::new(),
        }
    }
}

impl CharacterAttributes {
    /// The number of types of damage.
    pub const DAMAGE_TYPE_SIZE: usize = 20;

    /// The number of types of defense.
    pub const DEFENSE_TYPE_SIZE: usize = 20;

    /// The number of types of elusivity.
    pub const ELUSIVITY_SIZE: usize = 20;

    pub const OFFSET_DMG_0: usize = 0;

    pub const OFFSET_DMG_1: usize = 4;

    pub const OFFSET_DMG_2: usize = 8;

    pub const OFFSET_DMG_3: usize = 12;

    pub const OFFSET_DMG_4: usize = 16;

    pub const OFFSET_DMG_5: usize = 20;

    pub const OFFSET_DMG_6: usize = 24;

    pub const OFFSET_DMG_7: usize = 28;

    pub const OFFSET_DMG_8: usize = 32;

    pub const OFFSET_DMG_9: usize = 36;

    pub const OFFSET_DMG_10: usize = 40;

    pub const OFFSET_DMG_11: usize = 44;

    pub const OFFSET_DMG_12: usize = 48;

    pub const OFFSET_DMG_13: usize = 52;

    pub const OFFSET_DMG_14: usize = 56;

    pub const OFFSET_DMG_15: usize = 60;

    pub const OFFSET_DMG_16: usize = 64;

    pub const OFFSET_DMG_17: usize = 68;

    pub const OFFSET_DMG_18: usize = 72;

    pub const OFFSET_DMG_19: usize = 76;

    pub const OFFSET_HIT_POINTS: usize = 80;

    pub const OFFSET_ABSORB: usize = 84;

    pub const OFFSET_ENDURANCE: usize = 88;

    pub const OFFSET_INSIGHT: usize = 92;

    pub const OFFSET_RAGE: usize = 96;

    pub const OFFSET_TOHIT: usize = 100;

    pub const OFFSET_DEF_0: usize = 104;

    pub const OFFSET_DEF_1: usize = 108;

    pub const OFFSET_DEF_2: usize = 112;

    pub const OFFSET_DEF_3: usize = 116;

    pub const OFFSET_DEF_4: usize = 120;

    pub const OFFSET_DEF_5: usize = 124;

    pub const OFFSET_DEF_6: usize = 128;

    pub const OFFSET_DEF_7: usize = 132;

    pub const OFFSET_DEF_8: usize = 136;

    pub const OFFSET_DEF_9: usize = 140;

    pub const OFFSET_DEF_10: usize = 144;

    pub const OFFSET_DEF_11: usize = 148;

    pub const OFFSET_DEF_12: usize = 152;

    pub const OFFSET_DEF_13: usize = 156;

    pub const OFFSET_DEF_14: usize = 160;

    pub const OFFSET_DEF_15: usize = 164;

    pub const OFFSET_DEF_16: usize = 168;

    pub const OFFSET_DEF_17: usize = 172;

    pub const OFFSET_DEF_18: usize = 176;

    pub const OFFSET_DEF_19: usize = 180;

    pub const OFFSET_DEFENSE: usize = 184;

    pub const OFFSET_RUNNING_SPEED: usize = 188;

    pub const OFFSET_FLYING_SPEED: usize = 192;

    pub const OFFSET_SWIMMING_SPEED: usize = 196;

    pub const OFFSET_JUMPING_SPEED: usize = 200;

    pub const OFFSET_JUMP_HEIGHT: usize = 204;

    pub const OFFSET_MOVEMENT_CONTROL: usize = 208;

    pub const OFFSET_MOVEMENT_FRICTION: usize = 212;

    pub const OFFSET_STEALTH: usize = 216;

    pub const OFFSET_STEALTH_RADIUS_PVE: usize = 220;

    pub const OFFSET_STEALTH_RADIUS_PVP: usize = 224;

    pub const OFFSET_PERCEPTION_RADIUS: usize = 228;

    pub const OFFSET_REGENERATION: usize = 232;

    pub const OFFSET_RECOVERY: usize = 236;

    pub const OFFSET_INSIGHT_RECOVERY: usize = 240;

    pub const OFFSET_THREAT_LEVEL: usize = 244;

    pub const OFFSET_TAUNT: usize = 248;

    pub const OFFSET_PLACATE: usize = 252;

    pub const OFFSET_CONFUSED: usize = 256;

    pub const OFFSET_AFRAID: usize = 260;

    pub const OFFSET_TERRORIZED: usize = 264;

    pub const OFFSET_HELD: usize = 268;

    pub const OFFSET_IMMOBILIZED: usize = 272;

    pub const OFFSET_STUNNED: usize = 276;

    pub const OFFSET_SLEEP: usize = 280;

    pub const OFFSET_FLY: usize = 284;

    pub const OFFSET_JUMP_PACK: usize = 288;

    pub const OFFSET_TELEPORT: usize = 292;

    pub const OFFSET_UNTOUCHABLE: usize = 296;

    pub const OFFSET_INTANGIBLE: usize = 300;

    pub const OFFSET_ONLY_AFFECTS_SELF: usize = 304;

    pub const OFFSET_EXPERIENCE_GAIN: usize = 308;

    pub const OFFSET_INFLUENCE_GAIN: usize = 312;

    pub const OFFSET_PRESTIGE_GAIN: usize = 316;

    pub const OFFSET_EVADE: usize = 320;

    pub const OFFSET_KNOCKUP: usize = 324;

    pub const OFFSET_KNOCKBACK: usize = 328;

    pub const OFFSET_REPEL: usize = 332;

    pub const OFFSET_ACCURACY: usize = 336;

    pub const OFFSET_RADIUS: usize = 340;

    pub const OFFSET_ARC: usize = 344;

    pub const OFFSET_RANGE: usize = 348;

    pub const OFFSET_TIME_TO_ACTIVATE: usize = 352;

    pub const OFFSET_RECHARGE_TIME: usize = 356;

    pub const OFFSET_INTERRUPT_TIME: usize = 360;

    pub const OFFSET_ENDURANCE_DISCOUNT: usize = 364;

    pub const OFFSET_INSIGHT_DISCOUNT: usize = 368;

    pub const OFFSET_METER: usize = 372;

    pub const OFFSET_ELUSIVITY_0: usize = 376;

    pub const OFFSET_ELUSIVITY_1: usize = 380;

    pub const OFFSET_ELUSIVITY_2: usize = 384;

    pub const OFFSET_ELUSIVITY_3: usize = 388;

    pub const OFFSET_ELUSIVITY_4: usize = 392;

    pub const OFFSET_ELUSIVITY_5: usize = 396;

    pub const OFFSET_ELUSIVITY_6: usize = 400;

    pub const OFFSET_ELUSIVITY_7: usize = 404;

    pub const OFFSET_ELUSIVITY_8: usize = 408;

    pub const OFFSET_ELUSIVITY_9: usize = 412;

    pub const OFFSET_ELUSIVITY_10: usize = 416;

    pub const OFFSET_ELUSIVITY_11: usize = 420;

    pub const OFFSET_ELUSIVITY_12: usize = 424;

    pub const OFFSET_ELUSIVITY_13: usize = 428;

    pub const OFFSET_ELUSIVITY_14: usize = 432;

    pub const OFFSET_ELUSIVITY_15: usize = 436;

    pub const OFFSET_ELUSIVITY_16: usize = 440;

    pub const OFFSET_ELUSIVITY_17: usize = 444;

    pub const OFFSET_ELUSIVITY_18: usize = 448;

    pub const OFFSET_ELUSIVITY_19: usize = 452;

    pub const OFFSET_ELUSIVITY_BASE: usize = 456;
}

} // verus!
