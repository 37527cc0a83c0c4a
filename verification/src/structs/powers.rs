//! Power categories, power sets and powers, and the effects of powers.

use crate::bin_parse::reader::WireEnum;
use super::enums::{AIReport, CasterStackType, DeathCastableSetting, EffectArea, ModApplicationType, ModDuration, ModTarget, ModType, PowerEvent, PowerSystem, PowerType, ProcAllowed, ShowPowerSetting, SpecialAttrib, StackType, TargetType, TargetVisibility, ToggleDroppable};
use super::flags::{AttribModFlag, EffectGroupFlag};
use super::namekey::NameKey;
use super::attribs::{CharacterAttributes};
use super::params::{AttribModParam};
use super::{ArchetypeRef, Float32, PrimarySecondary, RGBA, Vec3};
use vstd::prelude::*;

verus! {

/// A named group of power sets.
#[derive(Debug)]
pub struct PowerCategory {
    /// Filename this definition came from.
    pub pch_source_file: Option<String>,
    /// Internal name.
    pub pch_name: Option<NameKey>,
    /// Name the user sees.
    pub pch_display_name: Option<String>,
    /// Used for UI.
    pub pch_display_help: Option<String>,
    /// Used for UI.
    pub pch_display_short_help: Option<String>,
    /// The names of power sets in this category.
    pub ppch_power_set_names: Vec<NameKey>,
    /// The positions, in the collection of power sets, of the power sets of this category
    /// that were found there.
    pub pp_power_sets: Vec<usize>,
    /// Archetypes associated with this category.
    pub archetypes: Vec<ArchetypeRef>,
    /// For power categories tied to a specific archetype, this indicates whether it
    /// is a primary or secondary power pick.
    pub pri_sec: PrimarySecondary,
    /// Whether or not to include this power category in the output files.
    pub include_in_output: bool,
    /// If true, this category should be listed in the root JSON.
    pub top_level: bool,
}

impl PowerCategory {
    /// Whether every field has the value that it has in a new `PowerCategory`:
    /// numbers are zero, flags are off, texts and names are absent, lists are
    /// empty, and enumerations have their fallback value.
    pub open spec fn is_new(&self) -> bool {
        &&& self.pch_source_file is None
        &&& self.pch_name is None
        &&& self.pch_display_name is None
        &&& self.pch_display_help is None
        &&& self.pch_display_short_help is None
        &&& self.ppch_power_set_names@.len() == 0
        &&& self.pp_power_sets@.len() == 0
        &&& self.archetypes@.len() == 0
        &&& self.pri_sec == PrimarySecondary::Neither
        &&& !self.include_in_output
        &&& !self.top_level
    }

    /// Creates a new `PowerCategory`.
    pub fn new() -> (value: Self)
        ensures
            value.is_new(),
    {
        PowerCategory {
            pch_source_file: None,
            pch_name: None,
            pch_display_name: None,
            pch_display_help: None,
            pch_display_short_help: None,
            ppch_power_set_names: Vec::new(),
            pp_power_sets: Vec::new(),
            archetypes: Vec::new(),
            pri_sec: PrimarySecondary::Neither,
            include_in_output: false,
            top_level: false,
        }
    }
}

/// Defines a set of powers which are group together and become available
/// over time. Again, this defines the shared attributes. Character-specific
/// attributes (length of time held, for example) are found in struct
/// PowerSet.
///
/// If the same Power appears in more than one PowerSet (and this includes
/// each class-specific power-pool sets) then it needs to be defined again.
/// This is true since each BasePower refers to a single PowerSet.
#[derive(Debug)]
pub struct BasePowerSet {
    /// Internal name
    pub pch_name: Option<String>,
    /// Full name, including source category
    pub pch_full_name: Option<NameKey>,
    /// UI string
    pub pch_display_name: Option<String>,
    /// UI string
    pub pch_display_help: Option<String>,
    /// UI string
    pub pch_display_short_help: Option<String>,
    /// Name of icon which represents this power set
    pub pch_icon_name: Option<String>,
    /// Costume keys given to players with this set
    pub ppch_costume_keys: Vec<String>,
    /// Default costume pieces for new players, or parts to add for old ones
    pub ppch_costume_parts: Vec<String>,
    /// Which power system this power set (and all the powers within it) is associated
    /// with. (Powers or Skills, for now)
    pub e_system: PowerSystem,
    /// If true, this powerset is not specific to one of a player's multiple builds and is
    /// instead shared among them.
    pub b_is_shared: bool,
    /// Determines whether the power is shown in the power inventory or not.
    pub e_show_in_inventory: ShowPowerSetting,
    /// If true, then the power set is shown in the power management (i.e. the
    /// enhancement) and enh slot assignment screens, otherwise it is not.
    pub b_show_in_manage: bool,
    /// If true, then the power set is shown in the power tab of the Player Info window.
    pub b_show_in_info: bool,
    /// If non-zero, this powerset is a specialization powerset, available at this level
    /// as an additional set to pick from as well as their
    /// chosen set - and thus cannot be picked as a main set.
    pub i_specialize_at: i32,
    /// Requires statement controlling whether specialization powerset can be offered or
    /// not (so multiple specializations can be listed
    /// for a class and once one or more is picked the rest are shut off).
    pub pp_specialize_requires: Vec<String>,
    /// Account evaluator statement controlling whether a player has access to this
    /// powerset.
    pub pch_account_requires: Option<String>,
    /// Tooltip to display when player has failed to meet the AccountRequires
    pub pch_account_tooltip: Option<String>,
    /// Product that can be bought from the store to help the player meet the
    /// AccountRequires
    pub pch_account_product: Option<String>,
    /// Character evaluator statement controlling whether a player has access to this
    /// powerset.
    pub ppch_set_buy_requires: Vec<String>,
    /// Error message to display when the player fails the SetBuyRequires
    pub pch_set_buy_requires_failed_text: Option<String>,
    /// The positions, in the collection of powers, of the powers of this set that were
    /// found there.
    pub pp_powers: Vec<usize>,
    /// The array of names of included powers.
    pub pp_power_names: Vec<NameKey>,
    /// How old the set has to be (in levels) before the power becomes available.
    pub pi_available: Vec<i32>,
    /// AI ONLY: Beyond what level the power will no longer be used by the AI.
    pub pi_ai_max_level: Vec<i32>,
    /// AI ONLY: Minimum rank con that this power is usable by
    pub pi_ai_min_rank_con: Vec<i32>,
    /// AI ONLY: Maximum rank con that this power is usable by
    pub pi_ai_max_rank_con: Vec<i32>,
    pub pi_min_difficulty: Vec<i32>,
    pub pi_max_difficulty: Vec<i32>,
    /// Filename this definition came from.
    pub pch_source_file: Option<String>,
    pub i_force_level_bought: i32,
    /// Whether or not to include this power set in the output files.
    pub include_in_output: bool,
}

impl BasePowerSet {
    /// Whether every field has the value that it has in a new `BasePowerSet`:
    /// numbers are zero, flags are off, texts and names are absent, lists are
    /// empty, and enumerations have their fallback value.
    pub open spec fn is_new(&self) -> bool {
        &&& self.pch_name is None
        &&& self.pch_full_name is None
        &&& self.pch_display_name is None
        &&& self.pch_display_help is None
        &&& self.pch_display_short_help is None
        &&& self.pch_icon_name is None
        &&& self.ppch_costume_keys@.len() == 0
        &&& self.ppch_costume_parts@.len() == 0
        &&& self.e_system == PowerSystem::fallback()
        &&& !self.b_is_shared
        &&& self.e_show_in_inventory == ShowPowerSetting::fallback()
        &&& !self.b_show_in_manage
        &&& !self.b_show_in_info
        &&& self.i_specialize_at == 0
        &&& self.pp_specialize_requires@.len() == 0
        &&& self.pch_account_requires is None
        &&& self.pch_account_tooltip is None
        &&& self.pch_account_product is None
        &&& self.ppch_set_buy_requires@.len() == 0
        &&& self.pch_set_buy_requires_failed_text is None
        &&& self.pp_powers@.len() == 0
        &&& self.pp_power_names@.len() == 0
        &&& self.pi_available@.len() == 0
        &&& self.pi_ai_max_level@.len() == 0
        &&& self.pi_ai_min_rank_con@.len() == 0
        &&& self.pi_ai_max_rank_con@.len() == 0
        &&& self.pi_min_difficulty@.len() == 0
        &&& self.pi_max_difficulty@.len() == 0
        &&& self.pch_source_file is None
        &&& self.i_force_level_bought == 0
        &&& !self.include_in_output
    }

    /// Creates a new `BasePowerSet`.
    pub fn new() -> (value: Self)
        ensures
            value.is_new(),
    {
        BasePowerSet {
            pch_name: None,
            pch_full_name: None,
            pch_display_name: None,
            pch_display_help: None,
            pch_display_short_help: None,
            pch_icon_name: None,
            ppch_costume_keys: Vec::new(),
            ppch_costume_parts: Vec::new(),
            e_system: PowerSystem::new(),
            b_is_shared: false,
            e_show_in_inventory: ShowPowerSetting::new(),
            b_show_in_manage: false,
            b_show_in_info: false,
            i_specialize_at: 0,
            pp_specialize_requires: Vec::new(),
            pch_account_requires: None,
            pch_account_tooltip: None,
            pch_account_product: None,
            ppch_set_buy_requires: Vec::new(),
            pch_set_buy_requires_failed_text: None,
            pp_powers: Vec::new(),
            pp_power_names: Vec::new(),
            pi_available: Vec::new(),
            pi_ai_max_level: Vec::new(),
            pi_ai_min_rank_con: Vec::new(),
            pi_ai_max_rank_con: Vec::new(),
            pi_min_difficulty: Vec::new(),
            pi_max_difficulty: Vec::new(),
            pch_source_file: None,
            i_force_level_bought: 0,
            include_in_output: false,
        }
    }
}

/// Another power to use in place of a power where a condition holds.
#[derive(Debug)]
pub struct PowerRedirect {
    /// Name of the base power to redirect to.
    pub pch_name: Option<NameKey>,
    /// Expression which must evaluate to true for this redirection to be used. An empty
    /// expression is always true and indicates a
    /// last resort fallback power.
    pub ppch_requires: Vec<String>,
    /// If true, this redirection is used to show the detailed power information in the
    /// client UI.
    pub b_show_in_info: bool,
}

impl PowerRedirect {
    /// Whether every field has the value that it has in a new `PowerRedirect`:
    /// numbers are zero, flags are off, texts and names are absent, lists are
    /// empty, and enumerations have their fallback value.
    pub open spec fn is_new(&self) -> bool {
        &&& self.pch_name is None
        &&& self.ppch_requires@.len() == 0
        &&& !self.b_show_in_info
    }

    /// Creates a new `PowerRedirect`.
    pub fn new() -> (value: Self)
        ensures
            value.is_new(),
    {
        PowerRedirect {
            pch_name: None,
            ppch_requires: Vec::new(),
            b_show_in_info: false,
        }
    }
}

/// An event that suppresses an attribute modifier, and for how long.
#[derive(Debug)]
pub struct SuppressPair {
    /// The index of the event to check. (See `PowerEvent` enum in character_base.h)
    pub idx_event: i32,
    /// How many seconds it must be after the event before this `AttribMod` is allowed to
    /// go off.
    pub ul_seconds: u32,
    /// If true, the `AttribMod` will always be suppressed when in the event window.
    /// If false, then if the `AttribMod` has already been applied once, it continue to
    /// gets applied.
    pub b_always: bool,
}

impl SuppressPair {
    /// Whether every field has the value that it has in a new `SuppressPair`:
    /// numbers are zero, flags are off, texts and names are absent, lists are
    /// empty, and enumerations have their fallback value.
    pub open spec fn is_new(&self) -> bool {
        &&& self.idx_event == 0
        &&& self.ul_seconds == 0
        &&& !self.b_always
    }

    /// Creates a new `SuppressPair`.
    pub fn new() -> (value: Self)
        ensures
            value.is_new(),
    {
        SuppressPair {
            idx_event: 0,
            ul_seconds: 0,
            b_always: false,
        }
    }
}

/// Extended targeting info.
#[derive(Debug)]
pub struct AttribModTargetInfo {
    pub ppch_marker_names: Vec<String>,
    pub pi_marker_count: Vec<i32>,
}

impl AttribModTargetInfo {
    /// Whether every field has the value that it has in a new `AttribModTargetInfo`:
    /// numbers are zero, flags are off, texts and names are absent, lists are
    /// empty, and enumerations have their fallback value.
    pub open spec fn is_new(&self) -> bool {
        &&& self.ppch_marker_names@.len() == 0
        &&& self.pi_marker_count@.len() == 0
    }

    /// Creates a new `AttribModTargetInfo`.
    pub fn new() -> (value: Self)
        ensures
            value.is_new(),
    {
        AttribModTargetInfo {
            ppch_marker_names: Vec::new(),
            pi_marker_count: Vec::new(),
        }
    }
}

/// Messages
#[derive(Debug)]
pub struct AttribModMessages {
    /// Message displayed to the attacker when he hits with this power.
    pub pch_display_attacker_hit: Option<String>,
    /// Message displayed to the victim when he gets hits with this power.
    pub pch_display_victim_hit: Option<String>,
    /// Message displayed over the victim's head when this attrib mod goes off.
    pub pch_display_float: Option<String>,
    /// Message displayed over the victim's head when this attrib mod is the defense that
    /// caused some attack to miss the victim.
    pub pch_display_defense_float: Option<String>,
}

impl AttribModMessages {
    /// Whether every field has the value that it has in a new `AttribModMessages`:
    /// numbers are zero, flags are off, texts and names are absent, lists are
    /// empty, and enumerations have their fallback value.
    pub open spec fn is_new(&self) -> bool {
        &&& self.pch_display_attacker_hit is None
        &&& self.pch_display_victim_hit is None
        &&& self.pch_display_float is None
        &&& self.pch_display_defense_float is None
    }

    /// Creates a new `AttribModMessages`.
    pub fn new() -> (value: Self)
        ensures
            value.is_new(),
    {
        AttribModMessages {
            pch_display_attacker_hit: None,
            pch_display_victim_hit: None,
            pch_display_float: None,
            pch_display_defense_float: None,
        }
    }
}

/// FX
#[derive(Debug)]
pub struct AttribModFX {
    /// Sets the given bits for the lifetime of the `AttribMod`.
    pub pi_continuing_bits: Vec<i32>,
    /// If non-NULL, plays maintained FX for the lifetime of the `AttribMod`. When it
    /// times out, the FX is killed.
    pub pch_continuing_fx: Option<String>,
    /// Sets the given bits while the `AttribMod` is alive and the `attrCur` for the
    /// modified attribute is greater than zero.
    pub pi_conditional_bits: Vec<i32>,
    /// If non-NULL, plays maintained FX while the `AttribMod` is alive and the `attrCur`
    /// for the modified attribute is greater than zero.
    pub pch_conditional_fx: Option<String>,
}

impl AttribModFX {
    /// Whether every field has the value that it has in a new `AttribModFX`:
    /// numbers are zero, flags are off, texts and names are absent, lists are
    /// empty, and enumerations have their fallback value.
    pub open spec fn is_new(&self) -> bool {
        &&& self.pi_continuing_bits@.len() == 0
        &&& self.pch_continuing_fx is None
        &&& self.pi_conditional_bits@.len() == 0
        &&& self.pch_conditional_fx is None
    }

    /// Creates a new `AttribModFX`.
    pub fn new() -> (value: Self)
        ensures
            value.is_new(),
    {
        AttribModFX {
            pi_continuing_bits: Vec::new(),
            pch_continuing_fx: None,
            pi_conditional_bits: Vec::new(),
            pch_conditional_fx: None,
        }
    }
}

/// This defines an actual effect of a power. A power may have multiple
/// `AttribModTemplate`s. When a power is used, these `AttribModTemplate`s are
/// pared down to `AttribMod`s and attached to the targeted character.
#[derive(Debug)]
pub struct AttribModTemplate {
    /// Array of byte offsets to the attribute in the `CharacterAttributes` struct.
    pub p_attrib: Vec<SpecialAttrib>,
    /// Byte offset to the structure in the `Character` to the `CharacterAttributes` to
    /// modify.
    pub off_aspect: u32,
    /// Determines when this attrib mod is applied during the lifecycle of a power.
    pub e_application_type: ModApplicationType,
    /// Determines if the duration or the magnitude is what is calculated.
    pub e_type: ModType,
    /// Who is the target of this particular modifier.
    pub e_target: ModTarget,
    /// Extra targeting info for this mod.
    pub p_target_info: Option<AttribModTargetInfo>,
    /// The name of the table to use for scaling the power by level. Tables are defined in
    /// the class.
    pub pch_table: Option<String>,
    /// How much to scale the basic value given by the class table for the given
    /// attribute.
    pub f_scale: Float32,
    /// How long the effect lasts on the target. Booleans calculate this value, others use
    /// it directly.
    pub f_duration: ModDuration,
    /// Default for how much to change the attribute. Booleans use this value, others
    /// calculate it.
    pub f_magnitude: Float32,
    /// An expression which calculates the duration of the `AttribMod`. If empty, the
    /// `f_duration` field is used instead.
    pub ppch_duration: Vec<String>,
    /// An expression which calculates the magnitude of the `AttribMod`.
    /// If empty, the fMagnitude field is used instead. Only used for
    /// `kModType_Expression`.
    pub ppch_magnitude: Vec<String>,
    /// How long to wait in seconds before applying the attrib modifier for the first
    /// time. Stacks with the delay from the parent `EffectGroup`.
    pub f_delay: Float32,
    /// The attrib modifier is applied every `f_period` seconds.
    pub f_period: Float32,
    /// If less than 1.0, the chance for an individual tick to apply.
    pub f_tick_chance: Float32,
    /// An expression which describes the conditions under which this template is applied.
    /// Delayed Requires are checked "just in time" (right before
    /// the mod ticks for the first time) and cancel the mod if the expression evaluates
    /// to false.
    pub ppch_delayed_requires: Vec<String>,
    /// Determines how identical `AttribMod`s from the same power but from different
    /// casters are handled.
    pub e_caster_stack: CasterStackType,
    /// Determines how multiple `AttribMod`s that pass the `CasterStackType` check are
    /// handled.
    pub e_stack: StackType,
    /// Used for `kStackType_StackThenIgnore`.
    /// Determines how many times the `AttribMod` should stack before it is ignored.
    pub i_stack_limit: i32,
    pub i_stack_key: i32,
    /// A list of `PowerEvent`s which will cancel this `AttribMod` outright.
    pub pi_cancel_events: Vec<PowerEvent>,
    /// An earray of events to check against to determine if this `AttribMod` is allowed
    /// to go off. This doesn't reject the `AttribMod` entirely
    /// (like the Requires does). If the time passes after the event and the `AttribMod`
    /// still has time left on it, it will work.
    pub pp_suppress: Vec<SuppressPair>,
    /// If specified, a power must specifically allow this `BoostType` in order for this
    /// mod to apply as part of a Boost, even if the Boost itself applies.
    /// This is for Boosts with mixed BoostTypes such as Hami-Os where Damage boosts can
    /// be slotted into Damage Resist powers for exploitative gain.
    pub boost_mod_allowed: SpecialAttrib,
    /// Boolean flags for this attribmod
    pub i_flags: AttribModFlag,
    pub p_messages: Option<AttribModMessages>,
    pub p_fx: Option<AttribModFX>,
    pub p_params: Option<AttribModParam>,
}

impl AttribModTemplate {
    /// Whether every field has the value that it has in a new `AttribModTemplate`:
    /// numbers are zero, flags are off, texts and names are absent, lists are
    /// empty, and enumerations have their fallback value.
    pub open spec fn is_new(&self) -> bool {
        &&& self.p_attrib@.len() == 0
        &&& self.off_aspect == 0
        &&& self.e_application_type == ModApplicationType::fallback()
        &&& self.e_type == ModType::fallback()
        &&& self.e_target == ModTarget::fallback()
        &&& self.p_target_info is None
        &&& self.pch_table is None
        &&& self.f_scale.bits == 0
        &&& self.f_duration == ModDuration::InSeconds(Float32 { bits: 0 })
        &&& self.f_magnitude.bits == 0
        &&& self.ppch_duration@.len() == 0
        &&& self.ppch_magnitude@.len() == 0
        &&& self.f_delay.bits == 0
        &&& self.f_period.bits == 0
        &&& self.f_tick_chance.bits == 0
        &&& self.ppch_delayed_requires@.len() == 0
        &&& self.e_caster_stack == CasterStackType::fallback()
        &&& self.e_stack == StackType::fallback()
        &&& self.i_stack_limit == 0
        &&& self.i_stack_key == 0
        &&& self.pi_cancel_events@.len() == 0
        &&& self.pp_suppress@.len() == 0
        &&& self.boost_mod_allowed == SpecialAttrib::kSpecialAttrib_UNSET
        &&& self.i_flags.bits == 0
        &&& self.p_messages is None
        &&& self.p_fx is None
        &&& self.p_params is None
    }

    /// Creates a new `AttribModTemplate`.
    pub fn new() -> (value: Self)
        ensures
            value.is_new(),
    {
        AttribModTemplate {
            p_attrib: Vec::new(),
            off_aspect: 0,
            e_application_type: ModApplicationType::new(),
            e_type: ModType::new(),
            e_target: ModTarget::new(),
            p_target_info: None,
            pch_table: None,
            f_scale: Float32::zero(),
            f_duration: ModDuration::InSeconds(Float32::zero()),
            f_magnitude: Float32::zero(),
            ppch_duration: Vec::new(),
            ppch_magnitude: Vec::new(),
            f_delay: Float32::zero(),
            f_period: Float32::zero(),
            f_tick_chance: Float32::zero(),
            ppch_delayed_requires: Vec::new(),
            e_caster_stack: CasterStackType::new(),
            e_stack: StackType::new(),
            i_stack_limit: 0,
            i_stack_key: 0,
            pi_cancel_events: Vec::new(),
            pp_suppress: Vec::new(),
            boost_mod_allowed: SpecialAttrib::new(),
            i_flags: AttribModFlag::new(),
            p_messages: None,
            p_fx: None,
            p_params: None,
        }
    }
}

/// An effect group is a group of AttribMod templates that are always applied together.
#[derive(Debug)]
pub struct EffectGroup {
    /// Effect tags (for chance mods, etc)
    pub ppch_tags: Vec<String>,
    /// The chance that this attrib modifier will be applied to the target. (1.0 == 100%)
    pub f_chance: Float32,
    /// If set, this will cause the chance to activate to be calculated automatically
    /// to result in the approximate number of procs per minute.
    pub f_procs_per_minute: Float32,
    /// How long to wait before applying the attrib modifier for the first time.
    pub f_delay: Float32,
    /// If set, these values define the inner and outer radii of a spherical shell that
    /// limits the targets affected by this
    /// effect group. An inner radius of 0 indicates a plain sphere. Setting both to 0
    /// limits it to the main target
    /// only.
    pub f_radius_inner: Float32,
    pub f_radius_outer: Float32,
    /// An expression which describes the conditions under which the templates in the
    /// effect group may be applied. If there
    /// is no expression, then the templates are always applied.
    pub ppch_requires: Vec<String>,
    /// Boolean flags for this effect group.
    pub i_flags: EffectGroupFlag,
    /// AttribMod templates to be applied by this effect group.
    pub pp_templates: Vec<AttribModTemplate>,
    /// Child effect groups.
    pub pp_effects: Vec<EffectGroup>,
    /// Flags created at bin time based upon what special combat eval parameters need to
    /// be pushed for evaluation.
    pub i_eval_flags: u32,
}

impl EffectGroup {
    /// Whether every field has the value that it has in a new `EffectGroup`:
    /// numbers are zero, flags are off, texts and names are absent, lists are
    /// empty, and enumerations have their fallback value.
    pub open spec fn is_new(&self) -> bool {
        &&& self.ppch_tags@.len() == 0
        &&& self.f_chance.bits == 0
        &&& self.f_procs_per_minute.bits == 0
        &&& self.f_delay.bits == 0
        &&& self.f_radius_inner.bits == 0
        &&& self.f_radius_outer.bits == 0
        &&& self.ppch_requires@.len() == 0
        &&& self.i_flags.bits == 0
        &&& self.pp_templates@.len() == 0
        &&& self.pp_effects@.len() == 0
        &&& self.i_eval_flags == 0
    }

    /// Creates a new `EffectGroup`.
    pub fn new() -> (value: Self)
        ensures
            value.is_new(),
    {
        EffectGroup {
            ppch_tags: Vec::new(),
            f_chance: Float32::zero(),
            f_procs_per_minute: Float32::zero(),
            f_delay: Float32::zero(),
            f_radius_inner: Float32::zero(),
            f_radius_outer: Float32::zero(),
            ppch_requires: Vec::new(),
            i_flags: EffectGroupFlag::new(),
            pp_templates: Vec::new(),
            pp_effects: Vec::new(),
            i_eval_flags: 0,
        }
    }
}

/// The animations and visual effects of a power.
#[derive(Debug)]
pub struct PowerFX {
    /// What .pfx file this was loaded from.
    pub pch_source_file: Option<String>,
    /// This is the attack anim used when the character is already in the stance. Set
    /// once. A.k.a. `cast_anim`.
    pub pi_attack_bits: Vec<i32>,
    /// The block reaction. Set once.
    pub pi_block_bits: Vec<i32>,
    /// The wind up. Set once.
    pub pi_wind_up_bits: Vec<i32>,
    /// The hit reaction. Set once. A.k.a. `hit_anim`.
    pub pi_hit_bits: Vec<i32>,
    /// This is used for the death animation if a specific one should be used instead of
    /// the default.
    /// Set always? A.k.a. `deathanimbits`.
    pub pi_death_bits: Vec<i32>,
    /// This is an optional pre-animation that happens when you first click on a power
    /// button.
    /// Set once. A.k.a. `AttachedAnim`.
    pub pi_activation_bits: Vec<i32>,
    /// This is an optional post-animation that happens when a toggle power is shut off.
    /// Set once.
    pub pi_deactivation_bits: Vec<i32>,
    /// This is the attack anim used when the character is entering the stance for the
    /// first time. Set once.
    pub pi_initial_attack_bits: Vec<i32>,
    /// Sets the given bits for the lifetime of an `AttribMod`.
    pub pi_continuing_bits: Vec<i32>,
    /// Sets the given bits while an `AttribMod` is alive and the `attrCur` for the
    /// modified attribute is greater than zero.
    pub pi_conditional_bits: Vec<i32>,
    /// The effect that happens immediately as the power button on the UI is selected.
    /// A.k.a. `AttachedFxName`.
    pub pch_activation_fx: Option<String>,
    /// The effect that happens when a toggle power is shut off.
    pub pch_deactivation_fx: Option<String>,
    /// The main effect fx filename used when the character is already in a stance. A.k.a.
    /// `TravellingProjectileEffect`.
    pub pch_attack_fx: Option<String>,
    /// Chaining from PrevTarget (or main target) to Target.
    pub pch_secondary_attack_fx: Option<String>,
    /// Hit reaction fx filename. A.k.a. `AttachedToVictimFxName`.
    pub pch_hit_fx: Option<String>,
    /// The effect that is played during wind up.
    pub pch_wind_up_fx: Option<String>,
    /// Block reaction fx filename.
    pub pch_block_fx: Option<String>,
    /// Death fx filename.
    pub pch_death_fx: Option<String>,
    /// The main effect fx filename used when the character is entering the stance for the
    /// first time.
    pub pch_initial_attack_fx: Option<String>,
    /// If non-NULL, plays maintained FX for the lifetime of an `AttribMod`. When it times
    /// out, the FX is killed.
    pub ppch_continuing_fx: Vec<String>,
    /// If non-NULL, plays maintained FX while an `AttribMod` is alive and the `attrCur`
    /// for the modified attribute is greater than zero.
    pub ppch_conditional_fx: Vec<String>,
    /// Sets the "mode" (combat, weapon, shotgun..) the player is in. These bits are
    /// always set until the power is deselected.
    /// Set always. A.k.a. `SeqBits`.
    pub pi_mode_bits: Vec<i32>,
    /// This is the time it takes for an attack to hit an enemy for the `AttackBits`
    /// animation.
    /// The default is set to happen on frame 15, so if it's different than that the time
    /// is put here.
    /// 0 means use the default of 15.
    pub i_frames_before_hit: i32,
    /// This is the time it takes for the secondary attack to hit.
    pub i_frames_before_secondary_hit: i32,
    /// If true, the hit animation is delayed according to how far away the victim is from
    /// the attacker. This is true for missle powers
    /// which have slow missles (like a fireball), and false for melee and fast missile
    /// powers (like guns).
    pub b_delayed_hit: bool,
    /// This is the time it takes for the attack animation to complete. 0 means use the
    /// default of 35.
    pub i_frames_attack: i32,
    /// This is the time it takes for an attack to hit an enemy for the
    /// `InitialAttackBits` animation.
    /// The default is set to happen on frame 15, so if it's different than that the time
    /// is put here.
    /// 0 means use the default of 15.
    pub i_initial_frames_before_hit: i32,
    /// Time to wait before playing the initial attack fx. Provided so they can use the
    /// same fx for `AttackFx` and `InitialAttackFx`.
    pub i_initial_attack_fx_frame_delay: i32,
    /// How fast the projectile moves when it leaves the entity.
    pub f_projectile_speed: Float32,
    /// How fast the projectile moves from main target to secondary targets (or next chain
    /// jump)
    pub f_secondary_projectile_speed: Float32,
    /// This is the time to wait before starting the block animation for the
    /// `InitialAttackBits` animation.
    /// The default is set to happen on frame 0, so if it's different than that the time
    /// is put here.
    pub i_initial_frames_before_block: i32,
    /// If not empty, ignores a mismatch between the `TimeToActivate` and `FramesAttack`.
    pub pch_ignore_attack_time_errors: Option<String>,
    /// This is the time to wait before starting the block animation. The default is set
    /// to happen on frame 0, so if it's different
    /// than that the time is put here.
    pub i_frames_before_block: i32,
    /// If true, then the FX for this power are "important" and shouldn't be suppressed
    /// for performance enhancement or by user choice.
    pub b_important: bool,
    pub b_fx_important: bool,
    /// The tint to use for non-customized powers. This lets artists reuse tintable
    /// assets.
    pub rgba_default_tint_primary: RGBA,
    /// The tint to use for non-customized powers. This lets artists reuse tintable
    /// assets.
    pub rgba_default_tint_secondary: RGBA,
    pub b_hide_original: bool,
}

impl PowerFX {
    /// Whether every field has the value that it has in a new `PowerFX`:
    /// numbers are zero, flags are off, texts and names are absent, lists are
    /// empty, and enumerations have their fallback value.
    pub open spec fn is_new(&self) -> bool {
        &&& self.pch_source_file is None
        &&& self.pi_attack_bits@.len() == 0
        &&& self.pi_block_bits@.len() == 0
        &&& self.pi_wind_up_bits@.len() == 0
        &&& self.pi_hit_bits@.len() == 0
        &&& self.pi_death_bits@.len() == 0
        &&& self.pi_activation_bits@.len() == 0
        &&& self.pi_deactivation_bits@.len() == 0
        &&& self.pi_initial_attack_bits@.len() == 0
        &&& self.pi_continuing_bits@.len() == 0
        &&& self.pi_conditional_bits@.len() == 0
        &&& self.pch_activation_fx is None
        &&& self.pch_deactivation_fx is None
        &&& self.pch_attack_fx is None
        &&& self.pch_secondary_attack_fx is None
        &&& self.pch_hit_fx is None
        &&& self.pch_wind_up_fx is None
        &&& self.pch_block_fx is None
        &&& self.pch_death_fx is None
        &&& self.pch_initial_attack_fx is None
        &&& self.ppch_continuing_fx@.len() == 0
        &&& self.ppch_conditional_fx@.len() == 0
        &&& self.pi_mode_bits@.len() == 0
        &&& self.i_frames_before_hit == 0
        &&& self.i_frames_before_secondary_hit == 0
        &&& !self.b_delayed_hit
        &&& self.i_frames_attack == 0
        &&& self.i_initial_frames_before_hit == 0
        &&& self.i_initial_attack_fx_frame_delay == 0
        &&& self.f_projectile_speed.bits == 0
        &&& self.f_secondary_projectile_speed.bits == 0
        &&& self.i_initial_frames_before_block == 0
        &&& self.pch_ignore_attack_time_errors is None
        &&& self.i_frames_before_block == 0
        &&& !self.b_important
        &&& !self.b_fx_important
        &&& self.rgba_default_tint_primary == (RGBA { r: 0, g: 0, b: 0, a: 0 })
        &&& self.rgba_default_tint_secondary == (RGBA { r: 0, g: 0, b: 0, a: 0 })
        &&& !self.b_hide_original
    }

    /// Creates a new `PowerFX`.
    pub fn new() -> (value: Self)
        ensures
            value.is_new(),
    {
        PowerFX {
            pch_source_file: None,
            pi_attack_bits: Vec::new(),
            pi_block_bits: Vec::new(),
            pi_wind_up_bits: Vec::new(),
            pi_hit_bits: Vec::new(),
            pi_death_bits: Vec::new(),
            pi_activation_bits: Vec::new(),
            pi_deactivation_bits: Vec::new(),
            pi_initial_attack_bits: Vec::new(),
            pi_continuing_bits: Vec::new(),
            pi_conditional_bits: Vec::new(),
            pch_activation_fx: None,
            pch_deactivation_fx: None,
            pch_attack_fx: None,
            pch_secondary_attack_fx: None,
            pch_hit_fx: None,
            pch_wind_up_fx: None,
            pch_block_fx: None,
            pch_death_fx: None,
            pch_initial_attack_fx: None,
            ppch_continuing_fx: Vec::new(),
            ppch_conditional_fx: Vec::new(),
            pi_mode_bits: Vec::new(),
            i_frames_before_hit: 0,
            i_frames_before_secondary_hit: 0,
            b_delayed_hit: false,
            i_frames_attack: 0,
            i_initial_frames_before_hit: 0,
            i_initial_attack_fx_frame_delay: 0,
            f_projectile_speed: Float32::zero(),
            f_secondary_projectile_speed: Float32::zero(),
            i_initial_frames_before_block: 0,
            pch_ignore_attack_time_errors: None,
            i_frames_before_block: 0,
            b_important: false,
            b_fx_important: false,
            rgba_default_tint_primary: RGBA::new(0, 0, 0, 0),
            rgba_default_tint_secondary: RGBA::new(0, 0, 0, 0),
            b_hide_original: false,
        }
    }
}

/// The animations and visual effects of a power under a custom theme.
#[derive(Debug)]
pub struct CustomPowerFX {
    /// Shown in the customization menu.
    pub pch_display_name: Option<String>,
    /// Use these settings if the player's costume has this token.
    pub pch_token: Option<String>,
    /// Alternate themes that can match this customfx if the token itself doesn't match.
    pub ppch_alt_themes: Vec<String>,
    /// `CustomPowerFX` with the same category should be considered exclusive of one
    /// another.  In the customization menu, the player will see
    /// a list for each category.
    pub pch_category: Option<String>,
    pub p_fx: Option<PowerFX>,
    pub pch_palette_name: Option<String>,
}

impl CustomPowerFX {
    /// Whether every field has the value that it has in a new `CustomPowerFX`:
    /// numbers are zero, flags are off, texts and names are absent, lists are
    /// empty, and enumerations have their fallback value.
    pub open spec fn is_new(&self) -> bool {
        &&& self.pch_display_name is None
        &&& self.pch_token is None
        &&& self.ppch_alt_themes@.len() == 0
        &&& self.pch_category is None
        &&& self.p_fx is None
        &&& self.pch_palette_name is None
    }

    /// Creates a new `CustomPowerFX`.
    pub fn new() -> (value: Self)
        ensures
            value.is_new(),
    {
        CustomPowerFX {
            pch_display_name: None,
            pch_token: None,
            ppch_alt_themes: Vec::new(),
            pch_category: None,
            p_fx: None,
            pch_palette_name: None,
        }
    }
}

/// The attributes of a power that stay as the file gives them.
#[derive(Debug)]
pub struct PowerData {
    /// Internal name of the power.
    pub pch_name: Option<String>,
    pub pch_source_name: Option<String>,
    /// The source file of the power.
    pub source_file: Option<String>,
    /// Which power system this power is associatd with. (Powers or Skills, for now)
    pub e_system: PowerSystem,
    /// If true, this power is given away automatically if the player is allowed to have
    /// it. (Must pass ppchRequires and level
    /// requirements.)
    pub b_auto_issue: bool,
    /// If true, this autoissue power keeps track of the actual level it was purchased at,
    /// instead of the default behavior of setting
    /// its level to its available level.
    pub b_auto_issue_save_level: bool,
    /// If true, this power doesn't count towards the player's current count of powers.
    pub b_free: bool,
    /// UI string
    pub pch_display_name: Option<String>,
    /// UI string
    pub pch_display_help: Option<String>,
    /// UI string
    pub pch_display_short_help: Option<String>,
    /// UI string
    pub pch_display_target_help: Option<String>,
    /// UI string
    pub pch_display_target_short_help: Option<String>,
    /// Message displayed as chat when the power is executed.
    pub pch_display_attacker_attack: Option<String>,
    /// Floater text when the power is executed.
    pub pch_display_attacker_attack_floater: Option<String>,
    /// Message displayed to the attacker when he hits with this power.
    pub pch_display_attacker_hit: Option<String>,
    /// Message displayed to the victim when he gets hits with this power.
    pub pch_display_victim_hit: Option<String>,
    /// Message displayed to the victim to confirm the power.
    pub pch_display_confirm: Option<String>,
    /// Message to float when this power is given as a reward.
    pub pch_display_float_rewarded: Option<String>,
    /// Message to float when this power is the defensive cause of a missed attack, and
    /// the attribmod does not specify its own float.
    pub pch_display_defense_float: Option<String>,
    /// Name of icon which represents this power.
    pub pch_icon_name: Option<String>,
    /// The type of power: auto, click, or toggle.
    pub e_type: PowerType,
    /// For temporary powers, the number of this power which they are allowed to have in
    /// their inventory. For other power types,
    /// this value is unused.
    pub i_num_allowed: i32,
    /// The list of attack groups this power is part of. Characters have defenses against
    /// each group individually.
    pub pe_attack_types: Vec<SpecialAttrib>,
    /// This requires statement is checked to see if the player is allowed to buy the
    /// power or have it autoissued.
    /// The requirements expression for this power. If empty, the power's only requirement
    /// is that the character is high enough level.
    /// Otherwise, this is a postfix expression (each element being an operand or
    /// operator) evaluated to determine if the power is
    /// available to the player.
    pub ppch_buy_requires: Vec<String>,
    /// This requires statement is checked to see if the player is allowed to activate the
    /// power. Ignored for Accesslevel.
    pub ppch_activate_requires: Vec<String>,
    /// The requirements expression for slotting this boost. If empty, there are no
    /// requirements for this boost.
    pub ppch_slot_requires: Vec<String>,
    /// The requirements expression for what this power targets. If empty, there are no
    /// requirements for the targets of this power.
    pub ppch_target_requires: Vec<String>,
    /// The requirements expression for when this power can be granted through the reward
    /// system.
    /// If empty, there are no requirements for when this power can be granted.
    pub ppch_reward_requires: Vec<String>,
    /// The requirements expression to determine if this power can be listed in the
    /// AuctionHouse.
    /// If empty, there are no requirements needed to be listed in the AuctionHouse.
    pub ppch_auction_requires: Vec<String>,
    /// The power that will be granted if the `ppch_reward_requires` is present and not
    /// met.
    /// If empty, then no power will be granted if the `ppch_reward_requires` is present
    /// and not met.
    pub pch_reward_fallback: Option<String>,
    /// Probability. Chance to hit.
    pub f_accuracy: Float32,
    /// Requires the attacker to be on the the ground to succeed.
    pub b_near_ground: bool,
    /// Requires the target to be on the the ground to succeed.
    pub b_target_near_ground: bool,
    /// Determines whether the power can be used only while alive, only while dead, or
    /// while either dead or alive.
    pub e_death_castable_setting: DeathCastableSetting,
    /// Allows the power to be cast by the character while held.
    pub b_cast_through_hold: bool,
    /// Allows the power to be cast by the character while asleep.
    pub b_cast_through_sleep: bool,
    /// Allows the power to be cast by the character while stunned/disoriented.
    pub b_cast_through_stun: bool,
    /// Allows the power to be cast by the character while terrorized/frightened.
    pub b_cast_through_terrorize: bool,
    /// Allows the power (if a toggle) to remain active while the character is held.
    pub b_toggle_ignore_hold: bool,
    /// Allows the power (if a toggle) to remain active while the character is asleep.
    pub b_toggle_ignore_sleep: bool,
    /// Allows the power (if a toggle) to remain active while the character is
    /// stunned/disoriented.
    pub b_toggle_ignore_stun: bool,
    /// If true, this power will work regardless of when the power was bought. This is
    /// used for certain boostsets and accolades.
    pub b_ignore_level_bought: bool,
    /// Allows the power to ignore the untouchable aspect of the target.
    pub b_shoot_through_untouchable: bool,
    /// Specifies that this power is only interrupted by attribmods that would also cancel
    /// sleep, rather than all foe attribmods.
    pub b_interrupt_like_sleep: bool,
    /// Specifies when and if the AI is told about attacks with this power.
    pub e_ai_report: AIReport,
    /// Coverage of effect: target, cone, sphere
    pub e_effect_area: EffectArea,
    /// Maximum number of targets allowed to be hit by the power, used to limit AoE
    /// attacks. If more than MaxTargets could be
    /// hit, the ones farthest from the target point are rejected. This is only used when
    /// `e_effect_area` is Sphere or Cone.
    pub i_max_targets_hit: i32,
    /// Radius of effect around target, in feet.
    pub f_radius: Float32,
    /// Spherical radians of the cone, centered around a ray connecting the attacker to
    /// the target.
    pub f_arc: Float32,
    pub f_unknown: Float32,
    /// For the chain effect area, add an optional delay between each jump.
    pub f_chain_delay: Float32,
    /// If set, this expression is evaluated for each chain target beyond the first.
    /// It should evaluate to a number, which is stored as @ChainEff and used as the
    /// AttribMod's Effectiveness. This
    /// affects the total value that is applied by the power.
    pub ppch_chain_eff: Vec<String>,
    /// Which jumps the chain should create a new fork after. The same jump may be listed
    /// more than once to have more than one extra fork.
    pub pi_chain_fork: Vec<i32>,
    /// Used to define a cuboid volume positioned relative to the target, aligned to the
    /// basic x/y/z axes.
    pub vec_box_offset: Vec3,
    /// Used to define a cuboid volume positioned relative to the target, aligned to the
    /// basic x/y/z axes.
    pub vec_box_size: Vec3,
    /// Max distance to target in feet.
    pub f_range: Float32,
    /// Max distance to secondary target in feet.
    pub f_range_secondary: Float32,
    /// How long it takes in seconds to do the whole attack (including wind up, time it
    /// takes to strike the target (or launch), and
    /// the follow through.
    pub f_time_to_activate: Float32,
    /// The time in seconds after a power is used that the power can be used again.
    pub f_recharge_time: Float32,
    /// Time in seconds between automatic activations of the power.
    pub f_activate_period: Float32,
    /// Cost of activation in endurance units.
    pub f_endurance_cost: Float32,
    /// Cost of activation in insight units.
    pub f_insight_cost: Float32,
    /// If non-zero, each player affected by the power must confirm that they want to be
    /// hit. The player has the given number of
    /// seconds to confirm. If they do nothing, the power is cancelled. Endurance is NOT
    /// given back to the caster if cancelled.
    pub i_time_to_confirm: i32,
    /// If true, a confirmation dialog will display for self-targeted powers.
    /// The default behavior is only other-targeted powers will use a confirmation window.
    pub b_self_confirm: bool,
    /// If the target of this power fails this requires statement, they will not receive a
    /// confirmation dialog for this power.
    /// The power will go off without the target's consent.
    pub ppch_confirm_requires: Vec<String>,
    /// If true, the power is removed from the character's power inventory if it reaches
    /// the usage limit.
    pub b_destroy_on_limit: bool,
    /// If true, this power will extend existing powers when granted multiple times.
    pub b_stacking_usage: bool,
    /// The number of times the power can be used.
    pub i_num_charges: i32,
    /// The max number of charges that `i_num_charges` can be extended to.
    pub i_max_num_charges: i32,
    /// The number of seconds which the power can be "on" overall. Used on toggle powers
    /// only.
    pub f_usage_time: Float32,
    /// The max number of seconds that `f_usage_time` can be extended to.
    pub f_max_usage_time: Float32,
    /// The number of seconds the power will function.
    pub f_lifetime: Float32,
    /// The max number of seconds that `f_lifetime` can be extended to.
    pub f_max_lifetime: Float32,
    /// The number of in-game seconds the power will function.
    pub f_lifetime_in_game: Float32,
    /// The max number of seconds that `f_lifetime_in_game` can be extended to.
    pub f_max_lifetime_in_game: Float32,
    /// The period of time in seconds, starting at the beginning of the attack, where the
    /// attack can be interrupted.
    pub f_interrupt_time: Float32,
    /// Specifies what kind of visibility is required between the caster and target.
    pub e_target_visibility: TargetVisibility,
    /// What things can be targetted by this power.
    pub e_target_type: TargetType,
    /// What things can be targetted by this power.
    pub e_target_type_secondary: TargetType,
    /// Entity types of things which are always affected.
    pub p_auto_hit: Vec<TargetType>,
    /// Entoty types of things which are affected.
    pub p_affected: Vec<TargetType>,
    /// If true, can target, affect, and auto-hit things that are in a different vision
    /// phase.
    pub b_targets_through_vision_phase: bool,
    /// List of boost types allowed by the power
    pub pe_boosts_allowed: Vec<SpecialAttrib>,
    /// List of power groups this power belongs to. Only one of the powers in a power
    /// group can be on at a time. Using another
    /// power from the same group shuts off any other powers which are on.
    pub pe_group_membership: Vec<SpecialAttrib>,
    /// If any modes are listed, the character must be in one of the modes to activate the
    /// power. If the character exits a mode which is
    /// required by the power, it is shut off.
    pub pe_modes_required: Vec<SpecialAttrib>,
    /// If the character goes into any of the modes listed here, the power is shut off (if
    /// it's a toggle or auto) and the
    /// character will be unable to execute it.
    pub pe_modes_disallowed: Vec<SpecialAttrib>,
    /// List of AI groups this power belongs to. Determines how a particular power is to
    /// be used.
    pub ppch_ai_groups: Vec<String>,
    /// Unknown string array next to `pp_redirect`.
    pub ppch_unknown: Vec<String>,
    /// Ignore all `AttribMod` strength modifiers when calculating the final strength for
    /// the power.
    pub b_ignore_strength: bool,
    /// If true, then the buff icon is shown for this power, otherwise it is not.
    pub b_show_buff_icon: bool,
    /// Determines whether the power is shown in the power inventory or not.
    pub e_show_in_inventory: ShowPowerSetting,
    /// If true, then the power is shown in the power management (i.e. the enhancement)
    /// and enh slot assignment screens, otherwise
    /// it is not.
    pub b_show_in_manage: bool,
    /// If true, then the power is shown in the power tab of the Player Info window. Also,
    /// if this power is in the Inherent powerset,
    /// it will show up in the contact dialog notifications that occur when new powers are
    /// automatically granted upon training.
    pub b_show_in_info: bool,
    /// If true AND this power is a temp power, it may be deleted by the player.
    pub b_deletable: bool,
    /// If this is true, the power may be traded to another player.
    pub b_tradeable: bool,
    /// Maximum number of boosts (aka enhancements) which can be on this power. This
    /// includes even free boosts given.
    pub i_max_boosts: i32,
    /// If true, then the power will never be saved to the database. This means that it
    /// will vanish on mapmoves, logout, and
    /// disconnects. Useful for temporary powers which you never want to leave a zone.
    pub b_do_not_save: bool,
    /// For Boosts, if this is true, then the boost's level relative to the character
    /// level does not impact its effectiveness.
    pub b_boost_ignore_effectiveness: bool,
    /// For Boosts, if this is true, then the boost is always counted as part of the set,
    /// even if exemplared below the level of the boost.
    pub b_boost_always_count_for_set: bool,
    /// For Boosts, if this is true, then the boost can be combined.
    pub b_boost_combinable: bool,
    /// For Inspirations and Boosts, if this is true, then the boost can be traded.
    pub b_boost_tradeable: bool,
    /// For Inspirations and Boosts, if this is true, then the boost can only be traded to
    /// other characters on the same account.
    pub b_boost_account_bound: bool,
    /// For Boosts, if this is true, then the boost can be combined with enhancement
    /// boosters.
    pub b_boost_boostable: bool,
    /// For Boosts, if this is true, then the boost uses the player's level rather than
    /// the boost's level.
    pub b_boost_use_player_level: bool,
    /// For Boosts, if set, the boost may be combined with an enhancement catalyst to
    /// create the specified enhancement.
    pub pch_boost_catalyst_conversion: Option<String>,
    /// For Boosts & Inspirations, if set, the item will not display on the auction house
    /// if the item is not published on the store.
    pub pch_store_product: Option<String>,
    /// For Boosts, the lowest level of boost that a character can slot that requires an
    /// invention license.
    pub i_boost_invention_license_required_level: i32,
    /// For Boosts, the lowest level a character can be to slot this boost.
    pub i_min_slot_level: i32,
    /// For Boosts, the highest level a character can be to slot this boost.
    pub i_max_slot_level: i32,
    /// For Boosts the use player level, the highest level that will be used to calc boost
    /// power
    pub i_max_boost_level: i32,
    /// List of variables which can be referenced by attrib mods on this power. These
    /// variables refer to values stored for each instance
    /// of the base power (in struct `Power`). The major purpose of these vars is for the
    /// Invention system, where they will be used to
    /// make Boosts.
    pub pp_vars: Vec<SpecialAttrib>,
    /// If this power is a toggle power, specifies how/when it responds to a `kDropToggle`
    /// `AttribMod`. The default is sometimes.
    pub e_toggle_droppable: ToggleDroppable,
    /// Whether this power applies all, none, or some of the non-template boosts that are
    /// slotted in it.
    pub e_proc_allowed: ProcAllowed,
    /// A list of character attributes whose strength cannot be modified. This can be used
    /// to make a Range buff not affect a power, for
    /// example.
    pub p_strengths_disallowed: Vec<SpecialAttrib>,
    /// True if the power is an AoE but you only want procs to go off once (on the main
    /// target) instead of on all targets.
    pub b_use_non_boost_templates_on_main_target: bool,
    /// If true, only the main target is animated and has FX put on him. Otherwise,
    /// everyone in the effect area will have the
    /// hit and block bits/fx applied.
    pub b_main_target_only: bool,
    /// The power will be highlighted in the UI when this is true.
    pub ppch_highlight_eval: Vec<String>,
    /// This icon will be shown when `ppch_highlight_eval` is true.
    pub pch_highlight_icon: Option<String>,
    /// A ring of this color will be shown around the power's icon when
    /// `ppch_highlight_eval` is true.
    pub rgba_highlight_ring: RGBA,
    /// If not zero, add this length of time to the combat travel power suppression.
    pub f_travel_suppression: Float32,
    /// Default this to 1.0f.
    pub f_preference_multiplier: Float32,
    /// Default this to false.
    pub b_dont_set_stance: bool,
    /// Values for gauging the "worth" of a power, used only in AE.
    pub f_point_val: Float32,
    /// Values for gauging the "worth" of a power, used only in AE.
    pub f_point_multiplier: Float32,
    pub pch_chain_into_power_name: Option<String>,
    pub b_instance_locked: bool,
    pub b_is_environment_hit: bool,
    pub b_shuffle_target_list: bool,
    pub i_force_level_bought: i32,
    /// This power is revoked and then granted again to any player that currently owns it
    /// when:
    /// * An Active Player reward token changes state for the team's current Active
    /// Player,
    /// * The team's current Active Player changes,
    /// * or the player joins or leaves a team.
    ///
    /// The initial purpose for this flag is to refresh vision phase powers automatically.
    pub b_refreshes_on_active_player_change: bool,
    pub b_cancelable: bool,
    pub b_ignore_toggle_max_distance: bool,
    pub i_server_tray_priority: i32,
    pub ppch_server_tray_requires: Vec<String>,
    /// If true, attrib mods applied by this power will be cleared whenever entering a map
    /// that uses `eRAT_ClearAbusiveBuffs`.
    pub b_abusive_buff: bool,
    pub e_position_center: ModTarget,
    pub f_position_distance: Float32,
    pub f_position_height: Float32,
    pub f_position_yaw: Float32,
    pub b_face_target: bool,
    /// Cache of attributes that can be modified by this power.
    pub pe_attrib_cache: Vec<SpecialAttrib>,
    /// Describes the visual effects of this power.
    pub p_fx: Option<PowerFX>,
    /// Per-costume selectable overrides for `fx`.
    pub pp_custom_fx: Vec<CustomPowerFX>,
    pub ppch_max_targets_expr: Vec<String>,
    pub pi_unknown: Vec<i32>,
}

impl PowerData {
    /// Whether every field has the value that it has in a new `PowerData`:
    /// numbers are zero, flags are off, texts and names are absent, lists are
    /// empty, and enumerations have their fallback value.
    pub open spec fn is_new(&self) -> bool {
        &&& self.pch_name is None
        &&& self.pch_source_name is None
        &&& self.source_file is None
        &&& self.e_system == PowerSystem::fallback()
        &&& !self.b_auto_issue
        &&& !self.b_auto_issue_save_level
        &&& !self.b_free
        &&& self.pch_display_name is None
        &&& self.pch_display_help is None
        &&& self.pch_display_short_help is None
        &&& self.pch_display_target_help is None
        &&& self.pch_display_target_short_help is None
        &&& self.pch_display_attacker_attack is None
        &&& self.pch_display_attacker_attack_floater is None
        &&& self.pch_display_attacker_hit is None
        &&& self.pch_display_victim_hit is None
        &&& self.pch_display_confirm is None
        &&& self.pch_display_float_rewarded is None
        &&& self.pch_display_defense_float is None
        &&& self.pch_icon_name is None
        &&& self.e_type == PowerType::fallback()
        &&& self.i_num_allowed == 0
        &&& self.pe_attack_types@.len() == 0
        &&& self.ppch_buy_requires@.len() == 0
        &&& self.ppch_activate_requires@.len() == 0
        &&& self.ppch_slot_requires@.len() == 0
        &&& self.ppch_target_requires@.len() == 0
        &&& self.ppch_reward_requires@.len() == 0
        &&& self.ppch_auction_requires@.len() == 0
        &&& self.pch_reward_fallback is None
        &&& self.f_accuracy.bits == 0
        &&& !self.b_near_ground
        &&& !self.b_target_near_ground
        &&& self.e_death_castable_setting == DeathCastableSetting::fallback()
        &&& !self.b_cast_through_hold
        &&& !self.b_cast_through_sleep
        &&& !self.b_cast_through_stun
        &&& !self.b_cast_through_terrorize
        &&& !self.b_toggle_ignore_hold
        &&& !self.b_toggle_ignore_sleep
        &&& !self.b_toggle_ignore_stun
        &&& !self.b_ignore_level_bought
        &&& !self.b_shoot_through_untouchable
        &&& !self.b_interrupt_like_sleep
        &&& self.e_ai_report == AIReport::fallback()
        &&& self.e_effect_area == EffectArea::fallback()
        &&& self.i_max_targets_hit == 0
        &&& self.f_radius.bits == 0
        &&& self.f_arc.bits == 0
        &&& self.f_unknown.bits == 0
        &&& self.f_chain_delay.bits == 0
        &&& self.ppch_chain_eff@.len() == 0
        &&& self.pi_chain_fork@.len() == 0
        &&& self.vec_box_offset == (Vec3 { x: Float32 { bits: 0 }, y: Float32 { bits: 0 }, z: Float32 { bits: 0 } })
        &&& self.vec_box_size == (Vec3 { x: Float32 { bits: 0 }, y: Float32 { bits: 0 }, z: Float32 { bits: 0 } })
        &&& self.f_range.bits == 0
        &&& self.f_range_secondary.bits == 0
        &&& self.f_time_to_activate.bits == 0
        &&& self.f_recharge_time.bits == 0
        &&& self.f_activate_period.bits == 0
        &&& self.f_endurance_cost.bits == 0
        &&& self.f_insight_cost.bits == 0
        &&& self.i_time_to_confirm == 0
        &&& !self.b_self_confirm
        &&& self.ppch_confirm_requires@.len() == 0
        &&& !self.b_destroy_on_limit
        &&& !self.b_stacking_usage
        &&& self.i_num_charges == 0
        &&& self.i_max_num_charges == 0
        &&& self.f_usage_time.bits == 0
        &&& self.f_max_usage_time.bits == 0
        &&& self.f_lifetime.bits == 0
        &&& self.f_max_lifetime.bits == 0
        &&& self.f_lifetime_in_game.bits == 0
        &&& self.f_max_lifetime_in_game.bits == 0
        &&& self.f_interrupt_time.bits == 0
        &&& self.e_target_visibility == TargetVisibility::fallback()
        &&& self.e_target_type == TargetType::fallback()
        &&& self.e_target_type_secondary == TargetType::fallback()
        &&& self.p_auto_hit@.len() == 0
        &&& self.p_affected@.len() == 0
        &&& !self.b_targets_through_vision_phase
        &&& self.pe_boosts_allowed@.len() == 0
        &&& self.pe_group_membership@.len() == 0
        &&& self.pe_modes_required@.len() == 0
        &&& self.pe_modes_disallowed@.len() == 0
        &&& self.ppch_ai_groups@.len() == 0
        &&& self.ppch_unknown@.len() == 0
        &&& !self.b_ignore_strength
        &&& !self.b_show_buff_icon
        &&& self.e_show_in_inventory == ShowPowerSetting::fallback()
        &&& !self.b_show_in_manage
        &&& !self.b_show_in_info
        &&& !self.b_deletable
        &&& !self.b_tradeable
        &&& self.i_max_boosts == 0
        &&& !self.b_do_not_save
        &&& !self.b_boost_ignore_effectiveness
        &&& !self.b_boost_always_count_for_set
        &&& !self.b_boost_combinable
        &&& !self.b_boost_tradeable
        &&& !self.b_boost_account_bound
        &&& !self.b_boost_boostable
        &&& !self.b_boost_use_player_level
        &&& self.pch_boost_catalyst_conversion is None
        &&& self.pch_store_product is None
        &&& self.i_boost_invention_license_required_level == 0
        &&& self.i_min_slot_level == 0
        &&& self.i_max_slot_level == 0
        &&& self.i_max_boost_level == 0
        &&& self.pp_vars@.len() == 0
        &&& self.e_toggle_droppable == ToggleDroppable::fallback()
        &&& self.e_proc_allowed == ProcAllowed::fallback()
        &&& self.p_strengths_disallowed@.len() == 0
        &&& !self.b_use_non_boost_templates_on_main_target
        &&& !self.b_main_target_only
        &&& self.ppch_highlight_eval@.len() == 0
        &&& self.pch_highlight_icon is None
        &&& self.rgba_highlight_ring == (RGBA { r: 0, g: 0, b: 0, a: 0 })
        &&& self.f_travel_suppression.bits == 0
        &&& self.f_preference_multiplier.bits == 0
        &&& !self.b_dont_set_stance
        &&& self.f_point_val.bits == 0
        &&& self.f_point_multiplier.bits == 0
        &&& self.pch_chain_into_power_name is None
        &&& !self.b_instance_locked
        &&& !self.b_is_environment_hit
        &&& !self.b_shuffle_target_list
        &&& self.i_force_level_bought == 0
        &&& !self.b_refreshes_on_active_player_change
        &&& !self.b_cancelable
        &&& !self.b_ignore_toggle_max_distance
        &&& self.i_server_tray_priority == 0
        &&& self.ppch_server_tray_requires@.len() == 0
        &&& !self.b_abusive_buff
        &&& self.e_position_center == ModTarget::fallback()
        &&& self.f_position_distance.bits == 0
        &&& self.f_position_height.bits == 0
        &&& self.f_position_yaw.bits == 0
        &&& !self.b_face_target
        &&& self.pe_attrib_cache@.len() == 0
        &&& self.p_fx is None
        &&& self.pp_custom_fx@.len() == 0
        &&& self.ppch_max_targets_expr@.len() == 0
        &&& self.pi_unknown@.len() == 0
    }

    /// Creates a new `PowerData`.
    pub fn new() -> (value: Self)
        ensures
            value.is_new(),
    {
        PowerData {
            pch_name: None,
            pch_source_name: None,
            source_file: None,
            e_system: PowerSystem::new(),
            b_auto_issue: false,
            b_auto_issue_save_level: false,
            b_free: false,
            pch_display_name: None,
            pch_display_help: None,
            pch_display_short_help: None,
            pch_display_target_help: None,
            pch_display_target_short_help: None,
            pch_display_attacker_attack: None,
            pch_display_attacker_attack_floater: None,
            pch_display_attacker_hit: None,
            pch_display_victim_hit: None,
            pch_display_confirm: None,
            pch_display_float_rewarded: None,
            pch_display_defense_float: None,
            pch_icon_name: None,
            e_type: PowerType::new(),
            i_num_allowed: 0,
            pe_attack_types: Vec::new(),
            ppch_buy_requires: Vec::new(),
            ppch_activate_requires: Vec::new(),
            ppch_slot_requires: Vec::new(),
            ppch_target_requires: Vec::new(),
            ppch_reward_requires: Vec::new(),
            ppch_auction_requires: Vec::new(),
            pch_reward_fallback: None,
            f_accuracy: Float32::zero(),
            b_near_ground: false,
            b_target_near_ground: false,
            e_death_castable_setting: DeathCastableSetting::new(),
            b_cast_through_hold: false,
            b_cast_through_sleep: false,
            b_cast_through_stun: false,
            b_cast_through_terrorize: false,
            b_toggle_ignore_hold: false,
            b_toggle_ignore_sleep: false,
            b_toggle_ignore_stun: false,
            b_ignore_level_bought: false,
            b_shoot_through_untouchable: false,
            b_interrupt_like_sleep: false,
            e_ai_report: AIReport::new(),
            e_effect_area: EffectArea::new(),
            i_max_targets_hit: 0,
            f_radius: Float32::zero(),
            f_arc: Float32::zero(),
            f_unknown: Float32::zero(),
            f_chain_delay: Float32::zero(),
            ppch_chain_eff: Vec::new(),
            pi_chain_fork: Vec::new(),
            vec_box_offset: Vec3::new(),
            vec_box_size: Vec3::new(),
            f_range: Float32::zero(),
            f_range_secondary: Float32::zero(),
            f_time_to_activate: Float32::zero(),
            f_recharge_time: Float32::zero(),
            f_activate_period: Float32::zero(),
            f_endurance_cost: Float32::zero(),
            f_insight_cost: Float32::zero(),
            i_time_to_confirm: 0,
            b_self_confirm: false,
            ppch_confirm_requires: Vec::new(),
            b_destroy_on_limit: false,
            b_stacking_usage: false,
            i_num_charges: 0,
            i_max_num_charges: 0,
            f_usage_time: Float32::zero(),
            f_max_usage_time: Float32::zero(),
            f_lifetime: Float32::zero(),
            f_max_lifetime: Float32::zero(),
            f_lifetime_in_game: Float32::zero(),
            f_max_lifetime_in_game: Float32::zero(),
            f_interrupt_time: Float32::zero(),
            e_target_visibility: TargetVisibility::new(),
            e_target_type: TargetType::new(),
            e_target_type_secondary: TargetType::new(),
            p_auto_hit: Vec::new(),
            p_affected: Vec::new(),
            b_targets_through_vision_phase: false,
            pe_boosts_allowed: Vec::new(),
            pe_group_membership: Vec::new(),
            pe_modes_required: Vec::new(),
            pe_modes_disallowed: Vec::new(),
            ppch_ai_groups: Vec::new(),
            ppch_unknown: Vec::new(),
            b_ignore_strength: false,
            b_show_buff_icon: false,
            e_show_in_inventory: ShowPowerSetting::new(),
            b_show_in_manage: false,
            b_show_in_info: false,
            b_deletable: false,
            b_tradeable: false,
            i_max_boosts: 0,
            b_do_not_save: false,
            b_boost_ignore_effectiveness: false,
            b_boost_always_count_for_set: false,
            b_boost_combinable: false,
            b_boost_tradeable: false,
            b_boost_account_bound: false,
            b_boost_boostable: false,
            b_boost_use_player_level: false,
            pch_boost_catalyst_conversion: None,
            pch_store_product: None,
            i_boost_invention_license_required_level: 0,
            i_min_slot_level: 0,
            i_max_slot_level: 0,
            i_max_boost_level: 0,
            pp_vars: Vec::new(),
            e_toggle_droppable: ToggleDroppable::new(),
            e_proc_allowed: ProcAllowed::new(),
            p_strengths_disallowed: Vec::new(),
            b_use_non_boost_templates_on_main_target: false,
            b_main_target_only: false,
            ppch_highlight_eval: Vec::new(),
            pch_highlight_icon: None,
            rgba_highlight_ring: RGBA::new(0, 0, 0, 0),
            f_travel_suppression: Float32::zero(),
            f_preference_multiplier: Float32::zero(),
            b_dont_set_stance: false,
            f_point_val: Float32::zero(),
            f_point_multiplier: Float32::zero(),
            pch_chain_into_power_name: None,
            b_instance_locked: false,
            b_is_environment_hit: false,
            b_shuffle_target_list: false,
            i_force_level_bought: 0,
            b_refreshes_on_active_player_change: false,
            b_cancelable: false,
            b_ignore_toggle_max_distance: false,
            i_server_tray_priority: 0,
            ppch_server_tray_requires: Vec::new(),
            b_abusive_buff: false,
            e_position_center: ModTarget::new(),
            f_position_distance: Float32::zero(),
            f_position_height: Float32::zero(),
            f_position_yaw: Float32::zero(),
            b_face_target: false,
            pe_attrib_cache: Vec::new(),
            p_fx: None,
            pp_custom_fx: Vec::new(),
            ppch_max_targets_expr: Vec::new(),
            pi_unknown: Vec::new(),
        }
    }
}

/// The basic definition of a power. This struct contains all the attributes of a power
/// which are shared by all entities in the game. Character-specific
/// differences (such as number of boosts, level, etc.) are kept in struct Power.
#[derive(Debug)]
pub struct BasePower {
    /// Full name, including source category and set.
    pub pch_full_name: Option<NameKey>,
    /// The attributes of the power that stay as the file gives them.
    pub data: PowerData,
    /// List of redirections for this power.
    pub pp_redirect: Vec<PowerRedirect>,
    /// The effect groups of the power.
    pub pp_effects: Vec<EffectGroup>,
    /// Whether or not to include this power in the output files.
    pub include_in_output: bool,
    /// Archetypes associated with this power.
    pub archetypes: Vec<ArchetypeRef>,
    pub redirects_resolved: bool,
    /// The groups of the enhancement sets that list this power, each once.
    pub enhancement_set_categories_allowed: Vec<String>,
}

impl BasePower {
    /// Whether every field has the value that it has in a new `BasePower`:
    /// numbers are zero, flags are off, texts and names are absent, lists are
    /// empty, and enumerations have their fallback value.
    pub open spec fn is_new(&self) -> bool {
        &&& self.pch_full_name is None
        &&& self.data.is_new()
        &&& self.pp_redirect@.len() == 0
        &&& self.pp_effects@.len() == 0
        &&& !self.include_in_output
        &&& self.archetypes@.len() == 0
        &&& !self.redirects_resolved
        &&& self.enhancement_set_categories_allowed@.len() == 0
    }

    /// Creates a new `BasePower`.
    pub fn new() -> (value: Self)
        ensures
            value.is_new(),
    {
        BasePower {
            pch_full_name: None,
            data: PowerData::new(),
            pp_redirect: Vec::new(),
            pp_effects: Vec::new(),
            include_in_output: false,
            archetypes: Vec::new(),
            redirects_resolved: false,
            enhancement_set_categories_allowed: Vec::new(),
        }
    }
}

} // verus!
