//! The entities that the record files describe.
//!
//! The names of the fields tell their kind: `f_` is a floating point
//! number, `i_` a signed and `ul_` an unsigned integer, `b_` a truth value,
//! `pch_` a text that may be absent, `ppch_` a list of texts, `p_` another
//! entity, `pp_` a list of entities, `e_` an enumeration, `pe_` a list of
//! enumerations, `rgba_` a colour and `vec_` a vector. `pf_` and `pi_` are
//! lists of numbers.

pub mod archetype;
pub mod attribs;
pub mod boosts;
pub mod config;
pub mod enums;
pub mod flags;
pub mod keyed;
pub mod namekey;
pub mod params;
pub mod powers;
pub mod strings;
pub mod villains;

pub use archetype::{Archetype};
pub use attribs::{AttribName, AttribNames, CharacterAttributes, CharacterAttributesTable, NamedTable};
pub use boosts::{BoostList, BoostSet, BoostSetBonus};
pub use config::{AssetsConfig, OutputStyleConfig, PowersConfig};
pub use enums::{AIReport, AttribStyle, AttribType, CasterStackType, DeathCastableSetting, EffectArea, Gender, ModApplicationType, ModDuration, ModTarget, ModType, PowerEvent, PowerSystem, PowerType, ProcAllowed, ShowPowerSetting, SpecialAttrib, StackType, TargetType, TargetVisibility, ToggleDroppable, VillainRank};
pub use flags::{AttribModFlag, EffectGroupFlag, VillainDefFlags, VillainExclusion};
pub use keyed::{Keyed, Listing};
pub use namekey::NameKey;
pub use params::{AttribModParam, AttribModParam_Behavior, AttribModParam_Costume, AttribModParam_EffectFilter, AttribModParam_EntCreate, AttribModParam_Param11, AttribModParam_Phase, AttribModParam_Power, AttribModParam_Reward, AttribModParam_SZEValue, AttribModParam_Teleport, AttribModParam_Token};
pub use powers::{AttribModFX, AttribModMessages, AttribModTargetInfo, AttribModTemplate, BasePower, BasePowerSet, CustomPowerFX, EffectGroup, PowerCategory, PowerData, PowerFX, PowerRedirect, SuppressPair};
pub use strings::{IntoMessage, MessageStore, StringPool, TextMessage};
pub use villains::{PetCommandStrings, PowerNameRef, VillainDef, VillainLevelDef};

use vstd::prelude::*;

verus! {

/// A 32-bit floating point number, held as its bits: the library stores
/// and hands on such numbers and never computes with them.
#[derive(Clone, Copy, Debug, PartialEq, Eq, Structural)]
pub struct Float32 {
    /// The bits of the number in IEEE 754 binary32.
    pub bits: u32,
}

impl Float32 {
    /// The number with the given bits.
    pub fn from_bits(bits: u32) -> (number: Self)
        ensures
            number.bits == bits,
    {
        Float32 { bits }
    }

    /// The bits of the number.
    pub fn to_bits(&self) -> (bits: u32)
        ensures
            bits == self.bits,
    {
        self.bits
    }

    /// Positive zero.
    pub fn zero() -> (number: Self)
        ensures
            number.bits == 0,
    {
        Float32 { bits: 0 }
    }
}

/// A vector of three floating point numbers.
#[derive(Clone, Copy, Debug, PartialEq, Eq, Structural)]
pub struct Vec3 {
    pub x: Float32,
    pub y: Float32,
    pub z: Float32,
}

impl Vec3 {
    /// The vector of three zeros.
    pub fn new() -> (v: Self)
        ensures
            v.x.bits == 0 && v.y.bits == 0 && v.z.bits == 0,
    {
        Vec3 { x: Float32::zero(), y: Float32::zero(), z: Float32::zero() }
    }
}

/// A colour: red, green, blue and alpha.
#[derive(Clone, Copy, Debug, PartialEq, Eq, Structural)]
pub struct RGBA {
    pub r: u8,
    pub g: u8,
    pub b: u8,
    pub a: u8,
}

impl RGBA {
    /// Creates a colour from its four parts.
    pub fn new(r: u8, g: u8, b: u8, a: u8) -> (colour: Self)
        ensures
            colour == (RGBA { r, g, b, a }),
    {
        RGBA { r, g, b, a }
    }

    /// The red part.
    pub fn r(&self) -> (part: u8)
        ensures
            part == self.r,
    {
        self.r
    }

    /// The green part.
    pub fn g(&self) -> (part: u8)
        ensures
            part == self.g,
    {
        self.g
    }

    /// The blue part.
    pub fn b(&self) -> (part: u8)
        ensures
            part == self.b,
    {
        self.b
    }

    /// The alpha part.
    pub fn a(&self) -> (part: u8)
        ensures
            part == self.a,
    {
        self.a
    }
}

impl Default for RGBA {
    fn default() -> (colour: Self)
        ensures
            colour == (RGBA { r: 0, g: 0, b: 0, a: 0 }),
    {
        RGBA::new(0, 0, 0, 0)
    }
}

/// A reference to an archetype: its position in the collection of the
/// archetypes of players, or in that of the archetypes of villains.
#[derive(Clone, Copy, Debug, PartialEq, Eq, Structural)]
pub struct ArchetypeRef {
    /// Whether the archetype is one of a villain.
    pub villain: bool,
    /// The position of the archetype in its collection.
    pub index: usize,
}

/// Whether a power category is the primary or the secondary choice of an
/// archetype.
#[derive(Clone, Copy, Debug, PartialEq, Eq, Structural)]
pub enum PrimarySecondary {
    /// The primary choice.
    Primary,
    /// The secondary choice.
    Secondary,
    /// Neither of the two.
    Neither,
}

impl Default for PrimarySecondary {
    fn default() -> (choice: Self)
        ensures
            choice == PrimarySecondary::Neither,
    {
        PrimarySecondary::Neither
    }
}

} // verus!
