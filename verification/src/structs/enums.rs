//! The enumerations of the record files. The files store each as a 32-bit
//! number; a number that names no variant stands for the enumeration's
//! fallback value.
#![allow(non_camel_case_types)]

use crate::bin_parse::reader::WireEnum;
use super::Float32;
use vstd::prelude::*;

verus! {

/// Which power system to use for advancement, level lookup, etc.
#[derive(Clone, Copy, Debug, PartialEq, Eq, Structural)]
pub enum PowerSystem {
    kPowerSystem_Powers,
}

impl PowerSystem {
    /// The fallback value of the enumeration.
    pub fn new() -> (variant: Self)
        ensures
            variant == PowerSystem::kPowerSystem_Powers,
    {
        PowerSystem::kPowerSystem_Powers
    }
}

impl WireEnum for PowerSystem {
    open spec fn known(value: u32) -> bool {
        value < 1
    }

    open spec fn fallback() -> Self {
        PowerSystem::kPowerSystem_Powers
    }

    open spec fn of_wire(value: u32) -> Self {
        match value {
            0 => PowerSystem::kPowerSystem_Powers,
            _ => PowerSystem::kPowerSystem_Powers,
        }
    }

    fn from_wire(value: u32) -> (variant: Self) {
        match value {
            0 => PowerSystem::kPowerSystem_Powers,
            _ => PowerSystem::kPowerSystem_Powers,
        }
    }
}

/// When a power or power set is shown.
#[derive(Clone, Copy, Debug, PartialEq, Eq, Structural)]
pub enum ShowPowerSetting {
    /// If on a powerset that the player owns, do not show this powerset or any powers in it (no matter what settings the powers have).
    /// If on a power, don't show it (if the powerset allows the power to control its display).
    kShowPowerSetting_Never,
    /// If on a powerset that the player owns, show this powerset, but then allow the power to determine whether it is shown.
    /// If on a power, show it (if the powerset allows the power to control its display).
    kShowPowerSetting_Default,
    /// If on a powerset that the player owns, show this powerset and all powers in it (no matter what settings the powers have).
    /// If on a power, show it (if the powerset allows the power to control its display).
    kShowPowerSetting_Always,
    /// If on a powerset that the player owns, display it, and display all powers in the powerset only if they are usable (no matter what settings the powers have).
    /// If on a power, display it only if it is usable (if the powerset allows the power to control its display).
    kShowPowerSetting_IfUsable,
    /// If on a powerset that the player owns, display it, and display all powers in the powerset only if they are owned by the player (no matter what settings the powers have).
    /// If on a power, display it only if it is owned by the player (if the powerset allows the power to control its display).
    kShowPowerSetting_IfOwned,
}

impl ShowPowerSetting {
    /// The fallback value of the enumeration.
    pub fn new() -> (variant: Self)
        ensures
            variant == ShowPowerSetting::kShowPowerSetting_Never,
    {
        ShowPowerSetting::kShowPowerSetting_Never
    }
}

impl WireEnum for ShowPowerSetting {
    open spec fn known(value: u32) -> bool {
        value < 5
    }

    open spec fn fallback() -> Self {
        ShowPowerSetting::kShowPowerSetting_Never
    }

    open spec fn of_wire(value: u32) -> Self {
        match value {
            0 => ShowPowerSetting::kShowPowerSetting_Never,
            1 => ShowPowerSetting::kShowPowerSetting_Default,
            2 => ShowPowerSetting::kShowPowerSetting_Always,
            3 => ShowPowerSetting::kShowPowerSetting_IfUsable,
            4 => ShowPowerSetting::kShowPowerSetting_IfOwned,
            _ => ShowPowerSetting::kShowPowerSetting_Never,
        }
    }

    fn from_wire(value: u32) -> (variant: Self) {
        match value {
            0 => ShowPowerSetting::kShowPowerSetting_Never,
            1 => ShowPowerSetting::kShowPowerSetting_Default,
            2 => ShowPowerSetting::kShowPowerSetting_Always,
            3 => ShowPowerSetting::kShowPowerSetting_IfUsable,
            4 => ShowPowerSetting::kShowPowerSetting_IfOwned,
            _ => ShowPowerSetting::kShowPowerSetting_Never,
        }
    }
}

/// Defines if the power is auto, toggle, or click power.
#[derive(Clone, Copy, Debug, PartialEq, Eq, Structural)]
pub enum PowerType {
    /// Click powers only activate when the user has activated them.
    kPowerType_Click,
    /// Auto powers activate repeatedly.
    kPowerType_Auto,
    /// Toggle powers activate repeatedly when the character turns them on until they shut them off (or the character runs out of endurance).
    kPowerType_Toggle,
    /// Boosts apply to powers only.
    kPowerType_Boost,
    kPowerType_Inspiration,
    kPowerType_GlobalBoost,
}

impl PowerType {
    /// The fallback value of the enumeration.
    pub fn new() -> (variant: Self)
        ensures
            variant == PowerType::kPowerType_Click,
    {
        PowerType::kPowerType_Click
    }

    /// The display text of the variant.
    pub open spec fn spec_string(&self) -> Seq<char> {
        match self {
            PowerType::kPowerType_Auto => "Auto"@,
            PowerType::kPowerType_Boost => "Enhancement"@,
            PowerType::kPowerType_Click => "Click"@,
            PowerType::kPowerType_GlobalBoost => "Global Enhancement"@,
            PowerType::kPowerType_Inspiration => "Inspiration"@,
            PowerType::kPowerType_Toggle => "Toggle"@,
        }
    }

    /// Gets the display text of the variant.
    pub fn get_string(&self) -> (text: &'static str)
        ensures
            text@ == self.spec_string(),
    {
        match self {
            PowerType::kPowerType_Auto => "Auto",
            PowerType::kPowerType_Boost => "Enhancement",
            PowerType::kPowerType_Click => "Click",
            PowerType::kPowerType_GlobalBoost => "Global Enhancement",
            PowerType::kPowerType_Inspiration => "Inspiration",
            PowerType::kPowerType_Toggle => "Toggle",
        }
    }
}

impl WireEnum for PowerType {
    open spec fn known(value: u32) -> bool {
        value < 6
    }

    open spec fn fallback() -> Self {
        PowerType::kPowerType_Click
    }

    open spec fn of_wire(value: u32) -> Self {
        match value {
            0 => PowerType::kPowerType_Click,
            1 => PowerType::kPowerType_Auto,
            2 => PowerType::kPowerType_Toggle,
            3 => PowerType::kPowerType_Boost,
            4 => PowerType::kPowerType_Inspiration,
            5 => PowerType::kPowerType_GlobalBoost,
            _ => PowerType::kPowerType_Click,
        }
    }

    fn from_wire(value: u32) -> (variant: Self) {
        match value {
            0 => PowerType::kPowerType_Click,
            1 => PowerType::kPowerType_Auto,
            2 => PowerType::kPowerType_Toggle,
            3 => PowerType::kPowerType_Boost,
            4 => PowerType::kPowerType_Inspiration,
            5 => PowerType::kPowerType_GlobalBoost,
            _ => PowerType::kPowerType_Click,
        }
    }
}

/// Whether a power can be used by the living, the dead, or both.
#[derive(Clone, Copy, Debug, PartialEq, Eq, Structural)]
pub enum DeathCastableSetting {
    kDeathCastableSetting_AliveOnly,
    kDeathCastableSetting_DeadOnly,
    kDeathCastableSetting_DeadOrAlive,
}

impl DeathCastableSetting {
    /// The fallback value of the enumeration.
    pub fn new() -> (variant: Self)
        ensures
            variant == DeathCastableSetting::kDeathCastableSetting_AliveOnly,
    {
        DeathCastableSetting::kDeathCastableSetting_AliveOnly
    }
}

impl WireEnum for DeathCastableSetting {
    open spec fn known(value: u32) -> bool {
        value < 3
    }

    open spec fn fallback() -> Self {
        DeathCastableSetting::kDeathCastableSetting_AliveOnly
    }

    open spec fn of_wire(value: u32) -> Self {
        match value {
            0 => DeathCastableSetting::kDeathCastableSetting_AliveOnly,
            1 => DeathCastableSetting::kDeathCastableSetting_DeadOnly,
            2 => DeathCastableSetting::kDeathCastableSetting_DeadOrAlive,
            _ => DeathCastableSetting::kDeathCastableSetting_AliveOnly,
        }
    }

    fn from_wire(value: u32) -> (variant: Self) {
        match value {
            0 => DeathCastableSetting::kDeathCastableSetting_AliveOnly,
            1 => DeathCastableSetting::kDeathCastableSetting_DeadOnly,
            2 => DeathCastableSetting::kDeathCastableSetting_DeadOrAlive,
            _ => DeathCastableSetting::kDeathCastableSetting_AliveOnly,
        }
    }
}

/// When the AI is told about an attack.
#[derive(Clone, Copy, Debug, PartialEq, Eq, Structural)]
pub enum AIReport {
    /// Report on hit or miss.
    kAIReport_Always,
    /// Never report to AI.
    kAIReport_Never,
    /// Report only when hit.
    kAIReport_HitOnly,
    /// Report only when missed.
    kAIReport_MissOnly,
}

impl AIReport {
    /// The fallback value of the enumeration.
    pub fn new() -> (variant: Self)
        ensures
            variant == AIReport::kAIReport_Always,
    {
        AIReport::kAIReport_Always
    }
}

impl WireEnum for AIReport {
    open spec fn known(value: u32) -> bool {
        value < 4
    }

    open spec fn fallback() -> Self {
        AIReport::kAIReport_Always
    }

    open spec fn of_wire(value: u32) -> Self {
        match value {
            0 => AIReport::kAIReport_Always,
            1 => AIReport::kAIReport_Never,
            2 => AIReport::kAIReport_HitOnly,
            3 => AIReport::kAIReport_MissOnly,
            _ => AIReport::kAIReport_Always,
        }
    }

    fn from_wire(value: u32) -> (variant: Self) {
        match value {
            0 => AIReport::kAIReport_Always,
            1 => AIReport::kAIReport_Never,
            2 => AIReport::kAIReport_HitOnly,
            3 => AIReport::kAIReport_MissOnly,
            _ => AIReport::kAIReport_Always,
        }
    }
}

/// The area effected by the power.
#[derive(Clone, Copy, Debug, PartialEq, Eq, Structural)]
pub enum EffectArea {
    /// Any targeted entity
    kEffectArea_Character,
    /// A cone centered around the ray connecting the source to the target.
    kEffectArea_Cone,
    /// A sphere surrounding the target.
    kEffectArea_Sphere,
    /// A single spot on the ground.
    kEffectArea_Location,
    /// A linked chain of targets.
    kEffectArea_Chain,
    /// In the same volume as the caster.
    kEffectArea_Volume,
    /// In a volume named the same as the one the caster is in (not yet implemented).
    kEffectArea_NamedVolume,
    /// Everybody on the same map as the caster.
    kEffectArea_Map,
    /// In the same tray (room) as the caster.
    kEffectArea_Room,
    /// Capsules touch.
    kEffectArea_Touch,
    /// A box positioned relative to the target, oriented along the regular xyz axes.
    kEffectArea_Box,
}

impl EffectArea {
    /// The fallback value of the enumeration.
    pub fn new() -> (variant: Self)
        ensures
            variant == EffectArea::kEffectArea_Character,
    {
        EffectArea::kEffectArea_Character
    }

    /// The display text of the variant.
    pub open spec fn spec_string(&self) -> Seq<char> {
        match self {
            EffectArea::kEffectArea_Character => "SingleTarget"@,
            EffectArea::kEffectArea_Cone => "Cone"@,
            EffectArea::kEffectArea_Sphere => "AoE"@,
            EffectArea::kEffectArea_Location => "Location"@,
            EffectArea::kEffectArea_Chain => "Chain"@,
            EffectArea::kEffectArea_Volume => "Self"@,
            EffectArea::kEffectArea_NamedVolume => "(not implemented)"@,
            EffectArea::kEffectArea_Map => "Map"@,
            EffectArea::kEffectArea_Room => "Room"@,
            EffectArea::kEffectArea_Touch => "Touch"@,
            EffectArea::kEffectArea_Box => "Box"@,
        }
    }

    /// Gets the display text of the variant.
    pub fn get_string(&self) -> (text: &'static str)
        ensures
            text@ == self.spec_string(),
    {
        match self {
            EffectArea::kEffectArea_Character => "SingleTarget",
            EffectArea::kEffectArea_Cone => "Cone",
            EffectArea::kEffectArea_Sphere => "AoE",
            EffectArea::kEffectArea_Location => "Location",
            EffectArea::kEffectArea_Chain => "Chain",
            EffectArea::kEffectArea_Volume => "Self",
            EffectArea::kEffectArea_NamedVolume => "(not implemented)",
            EffectArea::kEffectArea_Map => "Map",
            EffectArea::kEffectArea_Room => "Room",
            EffectArea::kEffectArea_Touch => "Touch",
            EffectArea::kEffectArea_Box => "Box",
        }
    }
}

impl WireEnum for EffectArea {
    open spec fn known(value: u32) -> bool {
        value < 11
    }

    open spec fn fallback() -> Self {
        EffectArea::kEffectArea_Character
    }

    open spec fn of_wire(value: u32) -> Self {
        match value {
            0 => EffectArea::kEffectArea_Character,
            1 => EffectArea::kEffectArea_Cone,
            2 => EffectArea::kEffectArea_Sphere,
            3 => EffectArea::kEffectArea_Location,
            4 => EffectArea::kEffectArea_Chain,
            5 => EffectArea::kEffectArea_Volume,
            6 => EffectArea::kEffectArea_NamedVolume,
            7 => EffectArea::kEffectArea_Map,
            8 => EffectArea::kEffectArea_Room,
            9 => EffectArea::kEffectArea_Touch,
            10 => EffectArea::kEffectArea_Box,
            _ => EffectArea::kEffectArea_Character,
        }
    }

    fn from_wire(value: u32) -> (variant: Self) {
        match value {
            0 => EffectArea::kEffectArea_Character,
            1 => EffectArea::kEffectArea_Cone,
            2 => EffectArea::kEffectArea_Sphere,
            3 => EffectArea::kEffectArea_Location,
            4 => EffectArea::kEffectArea_Chain,
            5 => EffectArea::kEffectArea_Volume,
            6 => EffectArea::kEffectArea_NamedVolume,
            7 => EffectArea::kEffectArea_Map,
            8 => EffectArea::kEffectArea_Room,
            9 => EffectArea::kEffectArea_Touch,
            10 => EffectArea::kEffectArea_Box,
            _ => EffectArea::kEffectArea_Character,
        }
    }
}

/// Defines what kind of visibility is required between the caster and
/// the target for successful execution of the power.
#[derive(Clone, Copy, Debug, PartialEq, Eq, Structural)]
pub enum TargetVisibility {
    /// The caster must have direct line of sight to the target.
    kTargetVisibility_LineOfSight,
    /// No visibility is required (or checked)
    kTargetVisibility_None,
}

impl TargetVisibility {
    /// The fallback value of the enumeration.
    pub fn new() -> (variant: Self)
        ensures
            variant == TargetVisibility::kTargetVisibility_LineOfSight,
    {
        TargetVisibility::kTargetVisibility_LineOfSight
    }
}

impl WireEnum for TargetVisibility {
    open spec fn known(value: u32) -> bool {
        value < 2
    }

    open spec fn fallback() -> Self {
        TargetVisibility::kTargetVisibility_LineOfSight
    }

    open spec fn of_wire(value: u32) -> Self {
        match value {
            0 => TargetVisibility::kTargetVisibility_LineOfSight,
            1 => TargetVisibility::kTargetVisibility_None,
            _ => TargetVisibility::kTargetVisibility_LineOfSight,
        }
    }

    fn from_wire(value: u32) -> (variant: Self) {
        match value {
            0 => TargetVisibility::kTargetVisibility_LineOfSight,
            1 => TargetVisibility::kTargetVisibility_None,
            _ => TargetVisibility::kTargetVisibility_LineOfSight,
        }
    }
}

/// The thing which can be targetted. Used to specify which kinds of entities are affected, auto-hit, etc. by a power.
#[derive(Clone, Copy, Debug, PartialEq, Eq, Structural)]
pub enum TargetType {
    kTargetType_None,
    /// The caster, dead or alive.
    kTargetType_Caster,
    /// Any living players except the caster.
    kTargetType_Player,
    /// Any living player on Team Hero except the caster.
    kTargetType_PlayerHero,
    /// Any living player on Team Villain except the caster.
    kTargetType_PlayerVillain,
    /// Any dead players including the caster.
    kTargetType_DeadPlayer,
    /// Any dead players on the same side as the caster except the caster and skill checks.
    kTargetType_DeadPlayerFriend,
    /// Any dead players on the same side as the caster except the caster and skill checks.
    kTargetType_DeadPlayerFoe,
    /// Any living teammate and their pets except the caster.
    kTargetType_Teammate,
    /// Any dead teammate and all teammate's dead pets except the caster.
    kTargetType_DeadTeammate,
    /// All teammates and their pets, dead or alive except the caster.
    kTargetType_DeadOrAliveTeammate,
    /// Any living critter on team evil except the caster and skill checks.
    kTargetType_Villain,
    /// Any dead critter on team evil including the caster and skill checks.
    kTargetType_DeadVillain,
    /// Any living NPC but villains and skill checks.
    kTargetType_NPC,
    /// Anyone dead or alive on the same side as the caster except the caster and skill checks.
    kTargetType_DeadOrAliveFriend,
    /// Anyone dead on the same side as the caster except the caster and skill checks.
    kTargetType_DeadFriend,
    /// Anyone alive on the same side as the caster except the caster and skill checks.
    kTargetType_Friend,
    /// Anyone dead or alive on a different side from the caster except the caster and skill checks.
    kTargetType_DeadOrAliveFoe,
    /// Anyone dead on a different side from the caster except the caster and skill checks.
    kTargetType_DeadFoe,
    /// Anyone alive on a different side from the caster except the caster and skill checks.
    kTargetType_Foe,
    /// A specific location.
    kTargetType_Location,
    /// Any living entity which isn't dead.
    kTargetType_Any,
    kTargetType_DeadAny,
    kTargetType_DeadOrAliveAny,
    /// A specific location with constraints for teleporting.
    kTargetType_Teleport,
    /// Any target where the source is the owner.
    kTargetType_DeadOrAliveMyPet,
    /// The target is dead and is the source is the owner.
    kTargetType_DeadMyPet,
    /// The target is alive and is the source is the owner.
    kTargetType_MyPet,
    kTargetType_MyOwner,
    /// The target is the creator of the caster (this goes only one level up to the entity that created ent).
    kTargetType_MyCreator,
    /// The target is alive and the source is the creator.
    kTargetType_MyCreation,
    /// The target is dead and the source is the creator
    kTargetType_DeadMyCreation,
    /// Any target where the source is the creator.
    kTargetType_DeadOrAliveMyCreation,
    /// Any living leaguemate and their pets except the caster.
    kTargetType_Leaguemate,
    /// Any dead leaguemate and all leaguemate's dead pets except the caster.
    kTargetType_DeadLeaguemate,
    /// All leaguemates and their pets, dead or alive except the caster.
    kTargetType_DeadOrAliveLeaguemate,
    /// A position relative to an entity specified by the designer.
    kTargetType_Position,
}

impl TargetType {
    /// The fallback value of the enumeration.
    pub fn new() -> (variant: Self)
        ensures
            variant == TargetType::kTargetType_None,
    {
        TargetType::kTargetType_None
    }

    /// The tags that describe the variant.
    pub open spec fn spec_strings(&self) -> Seq<Seq<char>> {
        match self {
            TargetType::kTargetType_None => Seq::empty(),
            TargetType::kTargetType_Caster => seq!["Self"@, "Alive"@, "Dead"@],
            TargetType::kTargetType_Player => seq!["Player"@, "Alive"@],
            TargetType::kTargetType_PlayerHero => seq!["Player"@, "Alive"@, "Hero"@],
            TargetType::kTargetType_PlayerVillain => seq!["Player"@, "Alive"@, "Villain"@],
            TargetType::kTargetType_DeadPlayer => seq!["Player"@, "Dead"@],
            TargetType::kTargetType_DeadPlayerFoe => seq!["Player"@, "Dead"@, "Foe"@],
            TargetType::kTargetType_DeadPlayerFriend => seq!["Player"@, "Dead"@, "Friend"@],
            TargetType::kTargetType_Teammate => seq!["Player"@, "Alive"@, "Team"@],
            TargetType::kTargetType_DeadTeammate => seq!["Player"@, "Dead"@, "Team"@],
            TargetType::kTargetType_DeadOrAliveTeammate => seq!["Player"@, "Alive"@, "Dead"@, "Team"@],
            TargetType::kTargetType_Villain => seq!["NPC"@, "Alive"@, "Foe"@],
            TargetType::kTargetType_DeadVillain => seq!["NPC"@, "Dead"@, "Foe"@],
            TargetType::kTargetType_NPC => seq!["NPC"@, "Friend"@],
            TargetType::kTargetType_DeadOrAliveFriend => seq!["Alive"@, "Dead"@, "Friend"@],
            TargetType::kTargetType_DeadFriend => seq!["Dead"@, "Friend"@],
            TargetType::kTargetType_Friend => seq!["Friend"@],
            TargetType::kTargetType_DeadOrAliveFoe => seq!["Alive"@, "Dead"@, "Foe"@],
            TargetType::kTargetType_DeadFoe => seq!["Dead"@, "Foe"@],
            TargetType::kTargetType_Foe => seq!["Foe"@],
            TargetType::kTargetType_Location => seq!["Location"@],
            TargetType::kTargetType_Any => seq!["Alive"@],
            TargetType::kTargetType_DeadAny => seq!["Dead"@],
            TargetType::kTargetType_DeadOrAliveAny => seq!["Dead"@, "Alive"@],
            TargetType::kTargetType_Teleport => seq!["Location"@, "Teleport"@],
            TargetType::kTargetType_DeadOrAliveMyPet => seq!["Pet"@, "Owned"@, "Dead"@, "Alive"@],
            TargetType::kTargetType_DeadMyPet => seq!["Pet"@, "Owned"@, "Dead"@],
            TargetType::kTargetType_MyPet => seq!["Pet"@, "Owned"@],
            TargetType::kTargetType_MyOwner => seq!["Root_Owner"@],
            TargetType::kTargetType_MyCreator => seq!["Owner"@],
            TargetType::kTargetType_MyCreation => seq!["Owned"@, "Alive"@],
            TargetType::kTargetType_DeadMyCreation => seq!["Owned"@, "Dead"@],
            TargetType::kTargetType_DeadOrAliveMyCreation => seq!["Owned"@, "Alive"@, "Dead"@],
            TargetType::kTargetType_Leaguemate => seq!["Player"@, "Alive"@, "Team"@, "League"@],
            TargetType::kTargetType_DeadLeaguemate => seq!["Player"@, "Dead"@, "Team"@, "League"@],
            TargetType::kTargetType_DeadOrAliveLeaguemate => seq!["Player"@, "Alive"@, "Dead"@, "Team"@, "League"@],
            TargetType::kTargetType_Position => seq!["Position"@],
        }
    }

    /// Gets the tags that describe the variant.
    pub fn get_strings(&self) -> (tags: Vec<&'static str>)
        ensures
            tags.deep_view() == self.spec_strings(),
    {
        let tags = match self {
            TargetType::kTargetType_None => Vec::new(),
            TargetType::kTargetType_Caster => vec!["Self", "Alive", "Dead"],
            TargetType::kTargetType_Player => vec!["Player", "Alive"],
            TargetType::kTargetType_PlayerHero => vec!["Player", "Alive", "Hero"],
            TargetType::kTargetType_PlayerVillain => vec!["Player", "Alive", "Villain"],
            TargetType::kTargetType_DeadPlayer => vec!["Player", "Dead"],
            TargetType::kTargetType_DeadPlayerFoe => vec!["Player", "Dead", "Foe"],
            TargetType::kTargetType_DeadPlayerFriend => vec!["Player", "Dead", "Friend"],
            TargetType::kTargetType_Teammate => vec!["Player", "Alive", "Team"],
            TargetType::kTargetType_DeadTeammate => vec!["Player", "Dead", "Team"],
            TargetType::kTargetType_DeadOrAliveTeammate => vec!["Player", "Alive", "Dead", "Team"],
            TargetType::kTargetType_Villain => vec!["NPC", "Alive", "Foe"],
            TargetType::kTargetType_DeadVillain => vec!["NPC", "Dead", "Foe"],
            TargetType::kTargetType_NPC => vec!["NPC", "Friend"],
            TargetType::kTargetType_DeadOrAliveFriend => vec!["Alive", "Dead", "Friend"],
            TargetType::kTargetType_DeadFriend => vec!["Dead", "Friend"],
            TargetType::kTargetType_Friend => vec!["Friend"],
            TargetType::kTargetType_DeadOrAliveFoe => vec!["Alive", "Dead", "Foe"],
            TargetType::kTargetType_DeadFoe => vec!["Dead", "Foe"],
            TargetType::kTargetType_Foe => vec!["Foe"],
            TargetType::kTargetType_Location => vec!["Location"],
            TargetType::kTargetType_Any => vec!["Alive"],
            TargetType::kTargetType_DeadAny => vec!["Dead"],
            TargetType::kTargetType_DeadOrAliveAny => vec!["Dead", "Alive"],
            TargetType::kTargetType_Teleport => vec!["Location", "Teleport"],
            TargetType::kTargetType_DeadOrAliveMyPet => vec!["Pet", "Owned", "Dead", "Alive"],
            TargetType::kTargetType_DeadMyPet => vec!["Pet", "Owned", "Dead"],
            TargetType::kTargetType_MyPet => vec!["Pet", "Owned"],
            TargetType::kTargetType_MyOwner => vec!["Root_Owner"],
            TargetType::kTargetType_MyCreator => vec!["Owner"],
            TargetType::kTargetType_MyCreation => vec!["Owned", "Alive"],
            TargetType::kTargetType_DeadMyCreation => vec!["Owned", "Dead"],
            TargetType::kTargetType_DeadOrAliveMyCreation => vec!["Owned", "Alive", "Dead"],
            TargetType::kTargetType_Leaguemate => vec!["Player", "Alive", "Team", "League"],
            TargetType::kTargetType_DeadLeaguemate => vec!["Player", "Dead", "Team", "League"],
            TargetType::kTargetType_DeadOrAliveLeaguemate => vec!["Player", "Alive", "Dead", "Team", "League"],
            TargetType::kTargetType_Position => vec!["Position"],
        };
        assert(tags.deep_view() =~= self.spec_strings());
        tags
    }
}

impl WireEnum for TargetType {
    open spec fn known(value: u32) -> bool {
        value < 37
    }

    open spec fn fallback() -> Self {
        TargetType::kTargetType_None
    }

    open spec fn of_wire(value: u32) -> Self {
        match value {
            0 => TargetType::kTargetType_None,
            1 => TargetType::kTargetType_Caster,
            2 => TargetType::kTargetType_Player,
            3 => TargetType::kTargetType_PlayerHero,
            4 => TargetType::kTargetType_PlayerVillain,
            5 => TargetType::kTargetType_DeadPlayer,
            6 => TargetType::kTargetType_DeadPlayerFriend,
            7 => TargetType::kTargetType_DeadPlayerFoe,
            8 => TargetType::kTargetType_Teammate,
            9 => TargetType::kTargetType_DeadTeammate,
            10 => TargetType::kTargetType_DeadOrAliveTeammate,
            11 => TargetType::kTargetType_Villain,
            12 => TargetType::kTargetType_DeadVillain,
            13 => TargetType::kTargetType_NPC,
            14 => TargetType::kTargetType_DeadOrAliveFriend,
            15 => TargetType::kTargetType_DeadFriend,
            16 => TargetType::kTargetType_Friend,
            17 => TargetType::kTargetType_DeadOrAliveFoe,
            18 => TargetType::kTargetType_DeadFoe,
            19 => TargetType::kTargetType_Foe,
            20 => TargetType::kTargetType_Location,
            21 => TargetType::kTargetType_Any,
            22 => TargetType::kTargetType_DeadAny,
            23 => TargetType::kTargetType_DeadOrAliveAny,
            24 => TargetType::kTargetType_Teleport,
            25 => TargetType::kTargetType_DeadOrAliveMyPet,
            26 => TargetType::kTargetType_DeadMyPet,
            27 => TargetType::kTargetType_MyPet,
            28 => TargetType::kTargetType_MyOwner,
            29 => TargetType::kTargetType_MyCreator,
            30 => TargetType::kTargetType_MyCreation,
            31 => TargetType::kTargetType_DeadMyCreation,
            32 => TargetType::kTargetType_DeadOrAliveMyCreation,
            33 => TargetType::kTargetType_Leaguemate,
            34 => TargetType::kTargetType_DeadLeaguemate,
            35 => TargetType::kTargetType_DeadOrAliveLeaguemate,
            36 => TargetType::kTargetType_Position,
            _ => TargetType::kTargetType_None,
        }
    }

    fn from_wire(value: u32) -> (variant: Self) {
        match value {
            0 => TargetType::kTargetType_None,
            1 => TargetType::kTargetType_Caster,
            2 => TargetType::kTargetType_Player,
            3 => TargetType::kTargetType_PlayerHero,
            4 => TargetType::kTargetType_PlayerVillain,
            5 => TargetType::kTargetType_DeadPlayer,
            6 => TargetType::kTargetType_DeadPlayerFriend,
            7 => TargetType::kTargetType_DeadPlayerFoe,
            8 => TargetType::kTargetType_Teammate,
            9 => TargetType::kTargetType_DeadTeammate,
            10 => TargetType::kTargetType_DeadOrAliveTeammate,
            11 => TargetType::kTargetType_Villain,
            12 => TargetType::kTargetType_DeadVillain,
            13 => TargetType::kTargetType_NPC,
            14 => TargetType::kTargetType_DeadOrAliveFriend,
            15 => TargetType::kTargetType_DeadFriend,
            16 => TargetType::kTargetType_Friend,
            17 => TargetType::kTargetType_DeadOrAliveFoe,
            18 => TargetType::kTargetType_DeadFoe,
            19 => TargetType::kTargetType_Foe,
            20 => TargetType::kTargetType_Location,
            21 => TargetType::kTargetType_Any,
            22 => TargetType::kTargetType_DeadAny,
            23 => TargetType::kTargetType_DeadOrAliveAny,
            24 => TargetType::kTargetType_Teleport,
            25 => TargetType::kTargetType_DeadOrAliveMyPet,
            26 => TargetType::kTargetType_DeadMyPet,
            27 => TargetType::kTargetType_MyPet,
            28 => TargetType::kTargetType_MyOwner,
            29 => TargetType::kTargetType_MyCreator,
            30 => TargetType::kTargetType_MyCreation,
            31 => TargetType::kTargetType_DeadMyCreation,
            32 => TargetType::kTargetType_DeadOrAliveMyCreation,
            33 => TargetType::kTargetType_Leaguemate,
            34 => TargetType::kTargetType_DeadLeaguemate,
            35 => TargetType::kTargetType_DeadOrAliveLeaguemate,
            36 => TargetType::kTargetType_Position,
            _ => TargetType::kTargetType_None,
        }
    }
}

/// When an attribute modifier is applied.
#[derive(Clone, Copy, Debug, PartialEq, Eq, Structural)]
pub enum ModApplicationType {
    /// While the power is running.
    kModApplicationType_OnTick,
    /// When the power is turned on.
    kModApplicationType_OnActivate,
    /// When the power is turned off.
    kModApplicationType_OnDeactivate,
    /// A limited version of onDeactivate.
    kModApplicationType_OnExpire,
    /// When the power becomes able to be turned on.
    kModApplicationType_OnEnable,
    /// When the power becomes no longer able to be turned on
    kModApplicationType_OnDisable,
}

impl ModApplicationType {
    /// The fallback value of the enumeration.
    pub fn new() -> (variant: Self)
        ensures
            variant == ModApplicationType::kModApplicationType_OnTick,
    {
        ModApplicationType::kModApplicationType_OnTick
    }

    /// The display text of the variant.
    pub open spec fn spec_string(&self) -> Seq<char> {
        match self {
            ModApplicationType::kModApplicationType_OnTick => "OnTick"@,
            ModApplicationType::kModApplicationType_OnActivate => "OnActivate"@,
            ModApplicationType::kModApplicationType_OnDeactivate => "OnDeactive"@,
            ModApplicationType::kModApplicationType_OnExpire => "OnExpire"@,
            ModApplicationType::kModApplicationType_OnEnable => "OnEnable"@,
            ModApplicationType::kModApplicationType_OnDisable => "OnDisable"@,
        }
    }

    /// Gets the display text of the variant.
    pub fn get_string(&self) -> (text: &'static str)
        ensures
            text@ == self.spec_string(),
    {
        match self {
            ModApplicationType::kModApplicationType_OnTick => "OnTick",
            ModApplicationType::kModApplicationType_OnActivate => "OnActivate",
            ModApplicationType::kModApplicationType_OnDeactivate => "OnDeactive",
            ModApplicationType::kModApplicationType_OnExpire => "OnExpire",
            ModApplicationType::kModApplicationType_OnEnable => "OnEnable",
            ModApplicationType::kModApplicationType_OnDisable => "OnDisable",
        }
    }
}

impl WireEnum for ModApplicationType {
    open spec fn known(value: u32) -> bool {
        value < 6
    }

    open spec fn fallback() -> Self {
        ModApplicationType::kModApplicationType_OnTick
    }

    open spec fn of_wire(value: u32) -> Self {
        match value {
            0 => ModApplicationType::kModApplicationType_OnTick,
            1 => ModApplicationType::kModApplicationType_OnActivate,
            2 => ModApplicationType::kModApplicationType_OnDeactivate,
            3 => ModApplicationType::kModApplicationType_OnExpire,
            4 => ModApplicationType::kModApplicationType_OnEnable,
            5 => ModApplicationType::kModApplicationType_OnDisable,
            _ => ModApplicationType::kModApplicationType_OnTick,
        }
    }

    fn from_wire(value: u32) -> (variant: Self) {
        match value {
            0 => ModApplicationType::kModApplicationType_OnTick,
            1 => ModApplicationType::kModApplicationType_OnActivate,
            2 => ModApplicationType::kModApplicationType_OnDeactivate,
            3 => ModApplicationType::kModApplicationType_OnExpire,
            4 => ModApplicationType::kModApplicationType_OnEnable,
            5 => ModApplicationType::kModApplicationType_OnDisable,
            _ => ModApplicationType::kModApplicationType_OnTick,
        }
    }
}

/// Who an attribute modifier is applied to.
#[derive(Clone, Copy, Debug, PartialEq, Eq, Structural)]
pub enum ModTarget {
    kModTarget_Caster,
    kModTarget_CastersOwnerAndAllPets,
    kModTarget_Focus,
    kModTarget_FocusOwnerAndAllPets,
    kModTarget_Affected,
    kModTarget_AffectedsOwnerAndAllPets,
    kModTarget_Marker,
}

impl ModTarget {
    /// The fallback value of the enumeration.
    pub fn new() -> (variant: Self)
        ensures
            variant == ModTarget::kModTarget_Affected,
    {
        ModTarget::kModTarget_Affected
    }

    /// The display text of the variant.
    pub open spec fn spec_string(&self) -> Seq<char> {
        match self {
            ModTarget::kModTarget_Caster => "Self"@,
            ModTarget::kModTarget_CastersOwnerAndAllPets => "SelfAndPets"@,
            ModTarget::kModTarget_Focus => "Target"@,
            ModTarget::kModTarget_FocusOwnerAndAllPets => "TargetAndPets"@,
            ModTarget::kModTarget_Affected => "Affected"@,
            ModTarget::kModTarget_AffectedsOwnerAndAllPets => "AffectedAndPets"@,
            ModTarget::kModTarget_Marker => "Marker"@,
        }
    }

    /// Gets the display text of the variant.
    pub fn get_string(&self) -> (text: &'static str)
        ensures
            text@ == self.spec_string(),
    {
        match self {
            ModTarget::kModTarget_Caster => "Self",
            ModTarget::kModTarget_CastersOwnerAndAllPets => "SelfAndPets",
            ModTarget::kModTarget_Focus => "Target",
            ModTarget::kModTarget_FocusOwnerAndAllPets => "TargetAndPets",
            ModTarget::kModTarget_Affected => "Affected",
            ModTarget::kModTarget_AffectedsOwnerAndAllPets => "AffectedAndPets",
            ModTarget::kModTarget_Marker => "Marker",
        }
    }
}

impl WireEnum for ModTarget {
    open spec fn known(value: u32) -> bool {
        value < 7
    }

    open spec fn fallback() -> Self {
        ModTarget::kModTarget_Affected
    }

    open spec fn of_wire(value: u32) -> Self {
        match value {
            0 => ModTarget::kModTarget_Caster,
            1 => ModTarget::kModTarget_CastersOwnerAndAllPets,
            2 => ModTarget::kModTarget_Focus,
            3 => ModTarget::kModTarget_FocusOwnerAndAllPets,
            4 => ModTarget::kModTarget_Affected,
            5 => ModTarget::kModTarget_AffectedsOwnerAndAllPets,
            6 => ModTarget::kModTarget_Marker,
            _ => ModTarget::kModTarget_Affected,
        }
    }

    fn from_wire(value: u32) -> (variant: Self) {
        match value {
            0 => ModTarget::kModTarget_Caster,
            1 => ModTarget::kModTarget_CastersOwnerAndAllPets,
            2 => ModTarget::kModTarget_Focus,
            3 => ModTarget::kModTarget_FocusOwnerAndAllPets,
            4 => ModTarget::kModTarget_Affected,
            5 => ModTarget::kModTarget_AffectedsOwnerAndAllPets,
            6 => ModTarget::kModTarget_Marker,
            _ => ModTarget::kModTarget_Affected,
        }
    }
}

/// Which aspect of an attribute modifier is calculated.
#[derive(Clone, Copy, Debug, PartialEq, Eq, Structural)]
pub enum ModType {
    kModType_Duration,
    kModType_Magnitude,
    kModType_Constant,
    kModType_Expression,
    kModType_SkillMagnitude,
}

impl ModType {
    /// The fallback value of the enumeration.
    pub fn new() -> (variant: Self)
        ensures
            variant == ModType::kModType_Magnitude,
    {
        ModType::kModType_Magnitude
    }

    /// The display text of the variant.
    pub open spec fn spec_string(&self) -> Seq<char> {
        match self {
            ModType::kModType_Duration => "Duration"@,
            ModType::kModType_Magnitude => "Magnitude"@,
            ModType::kModType_Constant => "Constant"@,
            ModType::kModType_Expression => "Expression"@,
            ModType::kModType_SkillMagnitude => "SkillMagnitude"@,
        }
    }

    /// Gets the display text of the variant.
    pub fn get_string(&self) -> (text: &'static str)
        ensures
            text@ == self.spec_string(),
    {
        match self {
            ModType::kModType_Duration => "Duration",
            ModType::kModType_Magnitude => "Magnitude",
            ModType::kModType_Constant => "Constant",
            ModType::kModType_Expression => "Expression",
            ModType::kModType_SkillMagnitude => "SkillMagnitude",
        }
    }
}

impl WireEnum for ModType {
    open spec fn known(value: u32) -> bool {
        value < 5
    }

    open spec fn fallback() -> Self {
        ModType::kModType_Magnitude
    }

    open spec fn of_wire(value: u32) -> Self {
        match value {
            0 => ModType::kModType_Duration,
            1 => ModType::kModType_Magnitude,
            2 => ModType::kModType_Constant,
            3 => ModType::kModType_Expression,
            4 => ModType::kModType_SkillMagnitude,
            _ => ModType::kModType_Magnitude,
        }
    }

    fn from_wire(value: u32) -> (variant: Self) {
        match value {
            0 => ModType::kModType_Duration,
            1 => ModType::kModType_Magnitude,
            2 => ModType::kModType_Constant,
            3 => ModType::kModType_Expression,
            4 => ModType::kModType_SkillMagnitude,
            _ => ModType::kModType_Magnitude,
        }
    }
}

/// How modifiers from different casters stack.
#[derive(Clone, Copy, Debug, PartialEq, Eq, Structural)]
pub enum CasterStackType {
    /// Stacking is handled for each caster individually.
    kCasterStackType_Individual,
    /// Stacking is handled for all casters collectively.
    kCasterStackType_Collective,
}

impl CasterStackType {
    /// The fallback value of the enumeration.
    pub fn new() -> (variant: Self)
        ensures
            variant == CasterStackType::kCasterStackType_Individual,
    {
        CasterStackType::kCasterStackType_Individual
    }
}

impl WireEnum for CasterStackType {
    open spec fn known(value: u32) -> bool {
        value < 2
    }

    open spec fn fallback() -> Self {
        CasterStackType::kCasterStackType_Individual
    }

    open spec fn of_wire(value: u32) -> Self {
        match value {
            0 => CasterStackType::kCasterStackType_Individual,
            1 => CasterStackType::kCasterStackType_Collective,
            _ => CasterStackType::kCasterStackType_Individual,
        }
    }

    fn from_wire(value: u32) -> (variant: Self) {
        match value {
            0 => CasterStackType::kCasterStackType_Individual,
            1 => CasterStackType::kCasterStackType_Collective,
            _ => CasterStackType::kCasterStackType_Individual,
        }
    }
}

/// Determines how multiple identical `AttribMod`s from the same power and caster are handled.
#[derive(Clone, Copy, Debug, PartialEq, Eq, Structural)]
pub enum StackType {
    /// Stack up (allow multiples).
    kStackType_Stack,
    /// Ignore the new duplicate (do nothing).
    kStackType_Ignore,
    /// Update the parameters in and extend the existing `AttribMod`.
    kStackType_Extend,
    /// Update the parameters and replace the existing `AttribMod`.
    kStackType_Replace,
    /// Update the parameters in the existing `AttribMod`, don't extend the duration.
    kStackType_Overlap,
    /// Stack up to StackCount times (if count < StackCount, then stack, else ignore).
    kStackType_StackThenIgnore,
    /// Update the duration in all copies of the existing matching `AttribMod`s, then add a new copy on.
    kStackType_Refresh,
    /// If count < StackCount, then Refresh and add a new copy, else just Refresh.
    kStackType_RefreshToCount,
    /// If mag is greater Replace, else Ignore.
    kStackType_Maximize,
    /// Keep all, but suppress all but the greatest magnitude.
    kStackType_Suppress,
}

impl StackType {
    /// The fallback value of the enumeration.
    pub fn new() -> (variant: Self)
        ensures
            variant == StackType::kStackType_Replace,
    {
        StackType::kStackType_Replace
    }

    /// The display text of the variant.
    pub open spec fn spec_string(&self) -> Seq<char> {
        match self {
            StackType::kStackType_Stack => "Stack"@,
            StackType::kStackType_Ignore => "Ignore"@,
            StackType::kStackType_Extend => "Extend"@,
            StackType::kStackType_Replace => "Replace"@,
            StackType::kStackType_Overlap => "Overlap"@,
            StackType::kStackType_StackThenIgnore => "StackToLimit"@,
            StackType::kStackType_Refresh => "Refresh"@,
            StackType::kStackType_RefreshToCount => "RefreshToLimit"@,
            StackType::kStackType_Maximize => "Maximize"@,
            StackType::kStackType_Suppress => "Suppress"@,
        }
    }

    /// Gets the display text of the variant.
    pub fn get_string(&self) -> (text: &'static str)
        ensures
            text@ == self.spec_string(),
    {
        match self {
            StackType::kStackType_Stack => "Stack",
            StackType::kStackType_Ignore => "Ignore",
            StackType::kStackType_Extend => "Extend",
            StackType::kStackType_Replace => "Replace",
            StackType::kStackType_Overlap => "Overlap",
            StackType::kStackType_StackThenIgnore => "StackToLimit",
            StackType::kStackType_Refresh => "Refresh",
            StackType::kStackType_RefreshToCount => "RefreshToLimit",
            StackType::kStackType_Maximize => "Maximize",
            StackType::kStackType_Suppress => "Suppress",
        }
    }
}

impl WireEnum for StackType {
    open spec fn known(value: u32) -> bool {
        value < 10
    }

    open spec fn fallback() -> Self {
        StackType::kStackType_Replace
    }

    open spec fn of_wire(value: u32) -> Self {
        match value {
            0 => StackType::kStackType_Stack,
            1 => StackType::kStackType_Ignore,
            2 => StackType::kStackType_Extend,
            3 => StackType::kStackType_Replace,
            4 => StackType::kStackType_Overlap,
            5 => StackType::kStackType_StackThenIgnore,
            6 => StackType::kStackType_Refresh,
            7 => StackType::kStackType_RefreshToCount,
            8 => StackType::kStackType_Maximize,
            9 => StackType::kStackType_Suppress,
            _ => StackType::kStackType_Replace,
        }
    }

    fn from_wire(value: u32) -> (variant: Self) {
        match value {
            0 => StackType::kStackType_Stack,
            1 => StackType::kStackType_Ignore,
            2 => StackType::kStackType_Extend,
            3 => StackType::kStackType_Replace,
            4 => StackType::kStackType_Overlap,
            5 => StackType::kStackType_StackThenIgnore,
            6 => StackType::kStackType_Refresh,
            7 => StackType::kStackType_RefreshToCount,
            8 => StackType::kStackType_Maximize,
            9 => StackType::kStackType_Suppress,
            _ => StackType::kStackType_Replace,
        }
    }
}

/// An event that powers and modifiers react to.
#[derive(Clone, Copy, Debug, PartialEq, Eq, Structural)]
pub enum PowerEvent {
    kPowerEvent_Activate,
    kPowerEvent_ActivateAttackClick,
    kPowerEvent_Attacked,
    kPowerEvent_AttackedNoException,
    kPowerEvent_Helped,
    kPowerEvent_Hit,
    kPowerEvent_Miss,
    kPowerEvent_EndActivate,
    kPowerEvent_AttackedByOther,
    kPowerEvent_AttackedByOtherClick,
    kPowerEvent_HelpedByOther,
    kPowerEvent_HitByOther,
    kPowerEvent_HitByFriend,
    kPowerEvent_HitByFoe,
    kPowerEvent_MissByOther,
    kPowerEvent_MissByFriend,
    kPowerEvent_MissByFoe,
    kPowerEvent_Damaged,
    kPowerEvent_Healed,
    kPowerEvent_Stunned,
    kPowerEvent_Immobilized,
    kPowerEvent_Held,
    kPowerEvent_Sleep,
    kPowerEvent_Terrorized,
    kPowerEvent_Confused,
    kPowerEvent_Untouchable,
    kPowerEvent_Intangible,
    kPowerEvent_OnlyAffectsSelf,
    kPowerEvent_AnyStatus,
    kPowerEvent_Knocked,
    kPowerEvent_Defeated,
    kPowerEvent_MissionObjectClick,
    kPowerEvent_Moved,
    kPowerEvent_Defiant,
}

impl PowerEvent {
    /// The fallback value of the enumeration.
    pub fn new() -> (variant: Self)
        ensures
            variant == PowerEvent::kPowerEvent_Activate,
    {
        PowerEvent::kPowerEvent_Activate
    }
}

impl WireEnum for PowerEvent {
    open spec fn known(value: u32) -> bool {
        value < 34
    }

    open spec fn fallback() -> Self {
        PowerEvent::kPowerEvent_Activate
    }

    open spec fn of_wire(value: u32) -> Self {
        match value {
            0 => PowerEvent::kPowerEvent_Activate,
            1 => PowerEvent::kPowerEvent_ActivateAttackClick,
            2 => PowerEvent::kPowerEvent_Attacked,
            3 => PowerEvent::kPowerEvent_AttackedNoException,
            4 => PowerEvent::kPowerEvent_Helped,
            5 => PowerEvent::kPowerEvent_Hit,
            6 => PowerEvent::kPowerEvent_Miss,
            7 => PowerEvent::kPowerEvent_EndActivate,
            8 => PowerEvent::kPowerEvent_AttackedByOther,
            9 => PowerEvent::kPowerEvent_AttackedByOtherClick,
            10 => PowerEvent::kPowerEvent_HelpedByOther,
            11 => PowerEvent::kPowerEvent_HitByOther,
            12 => PowerEvent::kPowerEvent_HitByFriend,
            13 => PowerEvent::kPowerEvent_HitByFoe,
            14 => PowerEvent::kPowerEvent_MissByOther,
            15 => PowerEvent::kPowerEvent_MissByFriend,
            16 => PowerEvent::kPowerEvent_MissByFoe,
            17 => PowerEvent::kPowerEvent_Damaged,
            18 => PowerEvent::kPowerEvent_Healed,
            19 => PowerEvent::kPowerEvent_Stunned,
            20 => PowerEvent::kPowerEvent_Immobilized,
            21 => PowerEvent::kPowerEvent_Held,
            22 => PowerEvent::kPowerEvent_Sleep,
            23 => PowerEvent::kPowerEvent_Terrorized,
            24 => PowerEvent::kPowerEvent_Confused,
            25 => PowerEvent::kPowerEvent_Untouchable,
            26 => PowerEvent::kPowerEvent_Intangible,
            27 => PowerEvent::kPowerEvent_OnlyAffectsSelf,
            28 => PowerEvent::kPowerEvent_AnyStatus,
            29 => PowerEvent::kPowerEvent_Knocked,
            30 => PowerEvent::kPowerEvent_Defeated,
            31 => PowerEvent::kPowerEvent_MissionObjectClick,
            32 => PowerEvent::kPowerEvent_Moved,
            33 => PowerEvent::kPowerEvent_Defiant,
            _ => PowerEvent::kPowerEvent_Activate,
        }
    }

    fn from_wire(value: u32) -> (variant: Self) {
        match value {
            0 => PowerEvent::kPowerEvent_Activate,
            1 => PowerEvent::kPowerEvent_ActivateAttackClick,
            2 => PowerEvent::kPowerEvent_Attacked,
            3 => PowerEvent::kPowerEvent_AttackedNoException,
            4 => PowerEvent::kPowerEvent_Helped,
            5 => PowerEvent::kPowerEvent_Hit,
            6 => PowerEvent::kPowerEvent_Miss,
            7 => PowerEvent::kPowerEvent_EndActivate,
            8 => PowerEvent::kPowerEvent_AttackedByOther,
            9 => PowerEvent::kPowerEvent_AttackedByOtherClick,
            10 => PowerEvent::kPowerEvent_HelpedByOther,
            11 => PowerEvent::kPowerEvent_HitByOther,
            12 => PowerEvent::kPowerEvent_HitByFriend,
            13 => PowerEvent::kPowerEvent_HitByFoe,
            14 => PowerEvent::kPowerEvent_MissByOther,
            15 => PowerEvent::kPowerEvent_MissByFriend,
            16 => PowerEvent::kPowerEvent_MissByFoe,
            17 => PowerEvent::kPowerEvent_Damaged,
            18 => PowerEvent::kPowerEvent_Healed,
            19 => PowerEvent::kPowerEvent_Stunned,
            20 => PowerEvent::kPowerEvent_Immobilized,
            21 => PowerEvent::kPowerEvent_Held,
            22 => PowerEvent::kPowerEvent_Sleep,
            23 => PowerEvent::kPowerEvent_Terrorized,
            24 => PowerEvent::kPowerEvent_Confused,
            25 => PowerEvent::kPowerEvent_Untouchable,
            26 => PowerEvent::kPowerEvent_Intangible,
            27 => PowerEvent::kPowerEvent_OnlyAffectsSelf,
            28 => PowerEvent::kPowerEvent_AnyStatus,
            29 => PowerEvent::kPowerEvent_Knocked,
            30 => PowerEvent::kPowerEvent_Defeated,
            31 => PowerEvent::kPowerEvent_MissionObjectClick,
            32 => PowerEvent::kPowerEvent_Moved,
            33 => PowerEvent::kPowerEvent_Defiant,
            _ => PowerEvent::kPowerEvent_Activate,
        }
    }
}

/// When a toggle power may be dropped.
#[derive(Clone, Copy, Debug, PartialEq, Eq, Structural)]
pub enum ToggleDroppable {
    kToggleDroppable_Sometimes,
    kToggleDroppable_Always,
    kToggleDroppable_First,
    kToggleDroppable_Last,
    kToggleDroppable_Never,
}

impl ToggleDroppable {
    /// The fallback value of the enumeration.
    pub fn new() -> (variant: Self)
        ensures
            variant == ToggleDroppable::kToggleDroppable_Sometimes,
    {
        ToggleDroppable::kToggleDroppable_Sometimes
    }
}

impl WireEnum for ToggleDroppable {
    open spec fn known(value: u32) -> bool {
        value < 5
    }

    open spec fn fallback() -> Self {
        ToggleDroppable::kToggleDroppable_Sometimes
    }

    open spec fn of_wire(value: u32) -> Self {
        match value {
            0 => ToggleDroppable::kToggleDroppable_Sometimes,
            1 => ToggleDroppable::kToggleDroppable_Always,
            2 => ToggleDroppable::kToggleDroppable_First,
            3 => ToggleDroppable::kToggleDroppable_Last,
            4 => ToggleDroppable::kToggleDroppable_Never,
            _ => ToggleDroppable::kToggleDroppable_Sometimes,
        }
    }

    fn from_wire(value: u32) -> (variant: Self) {
        match value {
            0 => ToggleDroppable::kToggleDroppable_Sometimes,
            1 => ToggleDroppable::kToggleDroppable_Always,
            2 => ToggleDroppable::kToggleDroppable_First,
            3 => ToggleDroppable::kToggleDroppable_Last,
            4 => ToggleDroppable::kToggleDroppable_Never,
            _ => ToggleDroppable::kToggleDroppable_Sometimes,
        }
    }
}

/// Which procs may fire for a power.
#[derive(Clone, Copy, Debug, PartialEq, Eq, Structural)]
pub enum ProcAllowed {
    kProcAllowed_All,
    kProcAllowed_None,
    kProcAllowed_PowerOnly,
    kProcAllowed_GlobalOnly,
}

impl ProcAllowed {
    /// The fallback value of the enumeration.
    pub fn new() -> (variant: Self)
        ensures
            variant == ProcAllowed::kProcAllowed_All,
    {
        ProcAllowed::kProcAllowed_All
    }
}

impl WireEnum for ProcAllowed {
    open spec fn known(value: u32) -> bool {
        value < 4
    }

    open spec fn fallback() -> Self {
        ProcAllowed::kProcAllowed_All
    }

    open spec fn of_wire(value: u32) -> Self {
        match value {
            0 => ProcAllowed::kProcAllowed_All,
            1 => ProcAllowed::kProcAllowed_None,
            2 => ProcAllowed::kProcAllowed_PowerOnly,
            3 => ProcAllowed::kProcAllowed_GlobalOnly,
            _ => ProcAllowed::kProcAllowed_All,
        }
    }

    fn from_wire(value: u32) -> (variant: Self) {
        match value {
            0 => ProcAllowed::kProcAllowed_All,
            1 => ProcAllowed::kProcAllowed_None,
            2 => ProcAllowed::kProcAllowed_PowerOnly,
            3 => ProcAllowed::kProcAllowed_GlobalOnly,
            _ => ProcAllowed::kProcAllowed_All,
        }
    }
}

/// The aspect of an attribute that a modifier changes.
#[derive(Clone, Copy, Debug, PartialEq, Eq, Structural)]
pub enum AttribType {
    kAttribType_Cur,
    kAttribType_Str,
    kAttribType_Res,
    kAttribType_Max,
    kAttribType_Mod,
    kAttribType_Abs,
    kAttribType_Special,
}

impl AttribType {
    /// The fallback value of the enumeration.
    pub fn new() -> (variant: Self)
        ensures
            variant == AttribType::kAttribType_Cur,
    {
        AttribType::kAttribType_Cur
    }

    /// The display text of the variant.
    pub open spec fn spec_string(&self) -> Seq<char> {
        match self {
            AttribType::kAttribType_Cur => "CurrentValue"@,
            AttribType::kAttribType_Str => "Strength"@,
            AttribType::kAttribType_Res => "Resistance"@,
            AttribType::kAttribType_Max => "MaxValue"@,
            AttribType::kAttribType_Mod => "CurrentModifier"@,
            AttribType::kAttribType_Abs => "AbsoluteValue"@,
            AttribType::kAttribType_Special => "Special"@,
        }
    }

    /// Gets the display text of the variant.
    pub fn get_string(&self) -> (text: &'static str)
        ensures
            text@ == self.spec_string(),
    {
        match self {
            AttribType::kAttribType_Cur => "CurrentValue",
            AttribType::kAttribType_Str => "Strength",
            AttribType::kAttribType_Res => "Resistance",
            AttribType::kAttribType_Max => "MaxValue",
            AttribType::kAttribType_Mod => "CurrentModifier",
            AttribType::kAttribType_Abs => "AbsoluteValue",
            AttribType::kAttribType_Special => "Special",
        }
    }
}

impl WireEnum for AttribType {
    open spec fn known(value: u32) -> bool {
        value < 7
    }

    open spec fn fallback() -> Self {
        AttribType::kAttribType_Cur
    }

    open spec fn of_wire(value: u32) -> Self {
        match value {
            0 => AttribType::kAttribType_Cur,
            1 => AttribType::kAttribType_Str,
            2 => AttribType::kAttribType_Res,
            3 => AttribType::kAttribType_Max,
            4 => AttribType::kAttribType_Mod,
            5 => AttribType::kAttribType_Abs,
            6 => AttribType::kAttribType_Special,
            _ => AttribType::kAttribType_Cur,
        }
    }

    fn from_wire(value: u32) -> (variant: Self) {
        match value {
            0 => AttribType::kAttribType_Cur,
            1 => AttribType::kAttribType_Str,
            2 => AttribType::kAttribType_Res,
            3 => AttribType::kAttribType_Max,
            4 => AttribType::kAttribType_Mod,
            5 => AttribType::kAttribType_Abs,
            6 => AttribType::kAttribType_Special,
            _ => AttribType::kAttribType_Cur,
        }
    }
}

/// How the magnitude of an attribute is displayed.
#[derive(Clone, Copy, Debug, PartialEq, Eq, Structural)]
pub enum AttribStyle {
    kAttribStyle_None,
    kAttribStyle_Percent,
    kAttribStyle_Magnitude,
    kAttribStyle_Distance,
    kAttribStyle_PercentMinus100,
    kAttribStyle_PerSecond,
    kAttribStyle_Speed,
    kAttribStyle_ResistanceDuration,
    kAttribStyle_Multiply,
    kAttribStyle_Integer,
    kAttribStyle_EnduranceReduction,
    kAttribStyle_InversePercent,
    kAttribStyle_ResistanceDistance,
}

impl AttribStyle {
    /// The fallback value of the enumeration.
    pub fn new() -> (variant: Self)
        ensures
            variant == AttribStyle::kAttribStyle_None,
    {
        AttribStyle::kAttribStyle_None
    }
}

impl WireEnum for AttribStyle {
    open spec fn known(value: u32) -> bool {
        value < 13
    }

    open spec fn fallback() -> Self {
        AttribStyle::kAttribStyle_None
    }

    open spec fn of_wire(value: u32) -> Self {
        match value {
            0 => AttribStyle::kAttribStyle_None,
            1 => AttribStyle::kAttribStyle_Percent,
            2 => AttribStyle::kAttribStyle_Magnitude,
            3 => AttribStyle::kAttribStyle_Distance,
            4 => AttribStyle::kAttribStyle_PercentMinus100,
            5 => AttribStyle::kAttribStyle_PerSecond,
            6 => AttribStyle::kAttribStyle_Speed,
            7 => AttribStyle::kAttribStyle_ResistanceDuration,
            8 => AttribStyle::kAttribStyle_Multiply,
            9 => AttribStyle::kAttribStyle_Integer,
            10 => AttribStyle::kAttribStyle_EnduranceReduction,
            11 => AttribStyle::kAttribStyle_InversePercent,
            12 => AttribStyle::kAttribStyle_ResistanceDistance,
            _ => AttribStyle::kAttribStyle_None,
        }
    }

    fn from_wire(value: u32) -> (variant: Self) {
        match value {
            0 => AttribStyle::kAttribStyle_None,
            1 => AttribStyle::kAttribStyle_Percent,
            2 => AttribStyle::kAttribStyle_Magnitude,
            3 => AttribStyle::kAttribStyle_Distance,
            4 => AttribStyle::kAttribStyle_PercentMinus100,
            5 => AttribStyle::kAttribStyle_PerSecond,
            6 => AttribStyle::kAttribStyle_Speed,
            7 => AttribStyle::kAttribStyle_ResistanceDuration,
            8 => AttribStyle::kAttribStyle_Multiply,
            9 => AttribStyle::kAttribStyle_Integer,
            10 => AttribStyle::kAttribStyle_EnduranceReduction,
            11 => AttribStyle::kAttribStyle_InversePercent,
            12 => AttribStyle::kAttribStyle_ResistanceDistance,
            _ => AttribStyle::kAttribStyle_None,
        }
    }
}

/// Rank of a villain. The "level" here is for conning purposes.
#[derive(Clone, Copy, Debug, PartialEq, Eq, Structural)]
pub enum VillainRank {
    VR_NONE,
    /// -1 level
    VR_SMALL,
    /// +0 level
    VR_MINION,
    /// +1 level
    VR_LIEUTENANT,
    /// +1 level
    VR_SNIPER,
    /// +2 level
    VR_BOSS,
    /// +3 level - Elite Boss
    VR_ELITE,
    /// +5 level
    VR_ARCHVILLAIN,
    /// +5 level
    VR_ARCHVILLAIN2,
    /// +100 level
    VR_BIGMONSTER,
    /// +1 level
    VR_PET,
    /// +1 level
    VR_DESTRUCTIBLE,
}

impl VillainRank {
    /// The fallback value of the enumeration.
    pub fn new() -> (variant: Self)
        ensures
            variant == VillainRank::VR_NONE,
    {
        VillainRank::VR_NONE
    }
}

impl WireEnum for VillainRank {
    open spec fn known(value: u32) -> bool {
        value < 12
    }

    open spec fn fallback() -> Self {
        VillainRank::VR_NONE
    }

    open spec fn of_wire(value: u32) -> Self {
        match value {
            0 => VillainRank::VR_NONE,
            1 => VillainRank::VR_SMALL,
            2 => VillainRank::VR_MINION,
            3 => VillainRank::VR_LIEUTENANT,
            4 => VillainRank::VR_SNIPER,
            5 => VillainRank::VR_BOSS,
            6 => VillainRank::VR_ELITE,
            7 => VillainRank::VR_ARCHVILLAIN,
            8 => VillainRank::VR_ARCHVILLAIN2,
            9 => VillainRank::VR_BIGMONSTER,
            10 => VillainRank::VR_PET,
            11 => VillainRank::VR_DESTRUCTIBLE,
            _ => VillainRank::VR_NONE,
        }
    }

    fn from_wire(value: u32) -> (variant: Self) {
        match value {
            0 => VillainRank::VR_NONE,
            1 => VillainRank::VR_SMALL,
            2 => VillainRank::VR_MINION,
            3 => VillainRank::VR_LIEUTENANT,
            4 => VillainRank::VR_SNIPER,
            5 => VillainRank::VR_BOSS,
            6 => VillainRank::VR_ELITE,
            7 => VillainRank::VR_ARCHVILLAIN,
            8 => VillainRank::VR_ARCHVILLAIN2,
            9 => VillainRank::VR_BIGMONSTER,
            10 => VillainRank::VR_PET,
            11 => VillainRank::VR_DESTRUCTIBLE,
            _ => VillainRank::VR_NONE,
        }
    }
}

/// The gender of a villain.
#[derive(Clone, Copy, Debug, PartialEq, Eq, Structural)]
pub enum Gender {
    GENDER_UNDEFINED,
    GENDER_NEUTER,
    GENDER_MALE,
    GENDER_FEMALE,
}

impl Gender {
    /// The fallback value of the enumeration.
    pub fn new() -> (variant: Self)
        ensures
            variant == Gender::GENDER_UNDEFINED,
    {
        Gender::GENDER_UNDEFINED
    }
}

impl WireEnum for Gender {
    open spec fn known(value: u32) -> bool {
        value < 4
    }

    open spec fn fallback() -> Self {
        Gender::GENDER_UNDEFINED
    }

    open spec fn of_wire(value: u32) -> Self {
        match value {
            0 => Gender::GENDER_UNDEFINED,
            1 => Gender::GENDER_NEUTER,
            2 => Gender::GENDER_MALE,
            3 => Gender::GENDER_FEMALE,
            _ => Gender::GENDER_UNDEFINED,
        }
    }

    fn from_wire(value: u32) -> (variant: Self) {
        match value {
            0 => Gender::GENDER_UNDEFINED,
            1 => Gender::GENDER_NEUTER,
            2 => Gender::GENDER_MALE,
            3 => Gender::GENDER_FEMALE,
            _ => Gender::GENDER_UNDEFINED,
        }
    }
}

/// An attribute that a modifier changes: one of the attributes of a
/// character, given by its offset, or one of the special attributes.
#[derive(Clone, Copy, Debug, PartialEq, Eq, Structural)]
pub enum SpecialAttrib {
    kSpecialAttrib_Character(i32),
    kSpecialAttrib_Translucency,
    kSpecialAttrib_EntCreate,
    kSpecialAttrib_ClearDamagers,
    kSpecialAttrib_SilentKill,
    kSpecialAttrib_XPDebtProtection,
    kSpecialAttrib_SetMode,
    kSpecialAttrib_SetCostume,
    kSpecialAttrib_Glide,
    kSpecialAttrib_Null,
    kSpecialAttrib_Avoid,
    kSpecialAttrib_Reward,
    kSpecialAttrib_XPDebt,
    kSpecialAttrib_DropToggles,
    kSpecialAttrib_GrantPower,
    kSpecialAttrib_RevokePower,
    kSpecialAttrib_UnsetMode,
    kSpecialAttrib_GlobalChanceMod,
    kSpecialAttrib_PowerChanceMod,
    kSpecialAttrib_GrantBoostedPower,
    kSpecialAttrib_ViewAttrib,
    kSpecialAttrib_RewardSource,
    kSpecialAttrib_RewardSourceTeam,
    kSpecialAttrib_ClearFog,
    kSpecialAttrib_CombatPhase,
    kSpecialAttrib_CombatModShift,
    kSpecialAttrib_RechargePower,
    kSpecialAttrib_VisionPhase,
    kSpecialAttrib_NinjaRun,
    kSpecialAttrib_Walk,
    kSpecialAttrib_BeastRun,
    kSpecialAttrib_SteamJump,
    kSpecialAttrib_DesignerStatus,
    kSpecialAttrib_ExclusiveVisionPhase,
    kSpecialAttrib_HoverBoard,
    kSpecialAttrib_SetSZEValue,
    kSpecialAttrib_AddBehavior,
    kSpecialAttrib_MagicCarpet,
    kSpecialAttrib_TokenAdd,
    kSpecialAttrib_TokenSet,
    kSpecialAttrib_TokenClear,
    kSpecialAttrib_LuaExec,
    kSpecialAttrib_ForceMove,
    kSpecialAttrib_ParkourRun,
    kSpecialAttrib_CancelMods,
    kSpecialAttrib_ExecutePower,
    kSpecialAttrib_PowerRedirect,
    kSpecialAttrib_UNSET,
}

impl SpecialAttrib {
    /// The unset attribute.
    pub fn new() -> (attrib: Self)
        ensures
            attrib == SpecialAttrib::kSpecialAttrib_UNSET,
    {
        SpecialAttrib::kSpecialAttrib_UNSET
    }

    /// The attribute that the number `val` stands for: a special attribute
    /// where it is the number of one, or else the character attribute at that
    /// offset.
    pub open spec fn of_i32(val: i32) -> Self {
        match val {
            460 => SpecialAttrib::kSpecialAttrib_Translucency,
            461 => SpecialAttrib::kSpecialAttrib_EntCreate,
            462 => SpecialAttrib::kSpecialAttrib_ClearDamagers,
            463 => SpecialAttrib::kSpecialAttrib_SilentKill,
            464 => SpecialAttrib::kSpecialAttrib_XPDebtProtection,
            465 => SpecialAttrib::kSpecialAttrib_SetMode,
            466 => SpecialAttrib::kSpecialAttrib_SetCostume,
            467 => SpecialAttrib::kSpecialAttrib_Glide,
            468 => SpecialAttrib::kSpecialAttrib_Null,
            469 => SpecialAttrib::kSpecialAttrib_Avoid,
            470 => SpecialAttrib::kSpecialAttrib_Reward,
            471 => SpecialAttrib::kSpecialAttrib_XPDebt,
            472 => SpecialAttrib::kSpecialAttrib_DropToggles,
            473 => SpecialAttrib::kSpecialAttrib_GrantPower,
            474 => SpecialAttrib::kSpecialAttrib_RevokePower,
            475 => SpecialAttrib::kSpecialAttrib_UnsetMode,
            476 => SpecialAttrib::kSpecialAttrib_GlobalChanceMod,
            477 => SpecialAttrib::kSpecialAttrib_PowerChanceMod,
            478 => SpecialAttrib::kSpecialAttrib_GrantBoostedPower,
            479 => SpecialAttrib::kSpecialAttrib_ViewAttrib,
            480 => SpecialAttrib::kSpecialAttrib_RewardSource,
            481 => SpecialAttrib::kSpecialAttrib_RewardSourceTeam,
            482 => SpecialAttrib::kSpecialAttrib_ClearFog,
            483 => SpecialAttrib::kSpecialAttrib_CombatPhase,
            484 => SpecialAttrib::kSpecialAttrib_CombatModShift,
            485 => SpecialAttrib::kSpecialAttrib_RechargePower,
            486 => SpecialAttrib::kSpecialAttrib_VisionPhase,
            487 => SpecialAttrib::kSpecialAttrib_NinjaRun,
            488 => SpecialAttrib::kSpecialAttrib_Walk,
            489 => SpecialAttrib::kSpecialAttrib_BeastRun,
            490 => SpecialAttrib::kSpecialAttrib_SteamJump,
            491 => SpecialAttrib::kSpecialAttrib_DesignerStatus,
            492 => SpecialAttrib::kSpecialAttrib_ExclusiveVisionPhase,
            493 => SpecialAttrib::kSpecialAttrib_HoverBoard,
            494 => SpecialAttrib::kSpecialAttrib_SetSZEValue,
            495 => SpecialAttrib::kSpecialAttrib_AddBehavior,
            496 => SpecialAttrib::kSpecialAttrib_MagicCarpet,
            497 => SpecialAttrib::kSpecialAttrib_TokenAdd,
            498 => SpecialAttrib::kSpecialAttrib_TokenSet,
            499 => SpecialAttrib::kSpecialAttrib_TokenClear,
            500 => SpecialAttrib::kSpecialAttrib_LuaExec,
            501 => SpecialAttrib::kSpecialAttrib_ForceMove,
            502 => SpecialAttrib::kSpecialAttrib_ParkourRun,
            503 => SpecialAttrib::kSpecialAttrib_CancelMods,
            504 => SpecialAttrib::kSpecialAttrib_ExecutePower,
            1460 => SpecialAttrib::kSpecialAttrib_PowerRedirect,
            _ => SpecialAttrib::kSpecialAttrib_Character(val),
        }
    }

    /// The attribute that the number `val` stands for.
    pub fn from_i32(val: i32) -> (attrib: Self)
        ensures
            attrib == Self::of_i32(val),
    {
        match val {
            460 => SpecialAttrib::kSpecialAttrib_Translucency,
            461 => SpecialAttrib::kSpecialAttrib_EntCreate,
            462 => SpecialAttrib::kSpecialAttrib_ClearDamagers,
            463 => SpecialAttrib::kSpecialAttrib_SilentKill,
            464 => SpecialAttrib::kSpecialAttrib_XPDebtProtection,
            465 => SpecialAttrib::kSpecialAttrib_SetMode,
            466 => SpecialAttrib::kSpecialAttrib_SetCostume,
            467 => SpecialAttrib::kSpecialAttrib_Glide,
            468 => SpecialAttrib::kSpecialAttrib_Null,
            469 => SpecialAttrib::kSpecialAttrib_Avoid,
            470 => SpecialAttrib::kSpecialAttrib_Reward,
            471 => SpecialAttrib::kSpecialAttrib_XPDebt,
            472 => SpecialAttrib::kSpecialAttrib_DropToggles,
            473 => SpecialAttrib::kSpecialAttrib_GrantPower,
            474 => SpecialAttrib::kSpecialAttrib_RevokePower,
            475 => SpecialAttrib::kSpecialAttrib_UnsetMode,
            476 => SpecialAttrib::kSpecialAttrib_GlobalChanceMod,
            477 => SpecialAttrib::kSpecialAttrib_PowerChanceMod,
            478 => SpecialAttrib::kSpecialAttrib_GrantBoostedPower,
            479 => SpecialAttrib::kSpecialAttrib_ViewAttrib,
            480 => SpecialAttrib::kSpecialAttrib_RewardSource,
            481 => SpecialAttrib::kSpecialAttrib_RewardSourceTeam,
            482 => SpecialAttrib::kSpecialAttrib_ClearFog,
            483 => SpecialAttrib::kSpecialAttrib_CombatPhase,
            484 => SpecialAttrib::kSpecialAttrib_CombatModShift,
            485 => SpecialAttrib::kSpecialAttrib_RechargePower,
            486 => SpecialAttrib::kSpecialAttrib_VisionPhase,
            487 => SpecialAttrib::kSpecialAttrib_NinjaRun,
            488 => SpecialAttrib::kSpecialAttrib_Walk,
            489 => SpecialAttrib::kSpecialAttrib_BeastRun,
            490 => SpecialAttrib::kSpecialAttrib_SteamJump,
            491 => SpecialAttrib::kSpecialAttrib_DesignerStatus,
            492 => SpecialAttrib::kSpecialAttrib_ExclusiveVisionPhase,
            493 => SpecialAttrib::kSpecialAttrib_HoverBoard,
            494 => SpecialAttrib::kSpecialAttrib_SetSZEValue,
            495 => SpecialAttrib::kSpecialAttrib_AddBehavior,
            496 => SpecialAttrib::kSpecialAttrib_MagicCarpet,
            497 => SpecialAttrib::kSpecialAttrib_TokenAdd,
            498 => SpecialAttrib::kSpecialAttrib_TokenSet,
            499 => SpecialAttrib::kSpecialAttrib_TokenClear,
            500 => SpecialAttrib::kSpecialAttrib_LuaExec,
            501 => SpecialAttrib::kSpecialAttrib_ForceMove,
            502 => SpecialAttrib::kSpecialAttrib_ParkourRun,
            503 => SpecialAttrib::kSpecialAttrib_CancelMods,
            504 => SpecialAttrib::kSpecialAttrib_ExecutePower,
            1460 => SpecialAttrib::kSpecialAttrib_PowerRedirect,
            _ => SpecialAttrib::kSpecialAttrib_Character(val),
        }
    }

    /// The display text of the attribute.
    pub open spec fn spec_string(&self) -> Seq<char> {
        match self {
            SpecialAttrib::kSpecialAttrib_UNSET => ""@,
            SpecialAttrib::kSpecialAttrib_Character(_) => "Character Attribute"@,
            SpecialAttrib::kSpecialAttrib_Translucency => "Translucency"@,
            SpecialAttrib::kSpecialAttrib_EntCreate => "Create Entity"@,
            SpecialAttrib::kSpecialAttrib_ClearDamagers => "Clear Damagers"@,
            SpecialAttrib::kSpecialAttrib_SilentKill => "Silent Kill"@,
            SpecialAttrib::kSpecialAttrib_XPDebtProtection => "Debt Protection"@,
            SpecialAttrib::kSpecialAttrib_SetMode => "Set Mode"@,
            SpecialAttrib::kSpecialAttrib_SetCostume => "Set Costume"@,
            SpecialAttrib::kSpecialAttrib_Glide => "Glide"@,
            SpecialAttrib::kSpecialAttrib_Null => "Null"@,
            SpecialAttrib::kSpecialAttrib_Avoid => "Avoid"@,
            SpecialAttrib::kSpecialAttrib_Reward => "Reward"@,
            SpecialAttrib::kSpecialAttrib_XPDebt => "Debt"@,
            SpecialAttrib::kSpecialAttrib_DropToggles => "Drop Toggles"@,
            SpecialAttrib::kSpecialAttrib_GrantPower => "Grant Power"@,
            SpecialAttrib::kSpecialAttrib_RevokePower => "Revoke Power"@,
            SpecialAttrib::kSpecialAttrib_UnsetMode => "Unset Mode"@,
            SpecialAttrib::kSpecialAttrib_GlobalChanceMod => "Global Chance Mod"@,
            SpecialAttrib::kSpecialAttrib_PowerChanceMod => "Power Chance Mod"@,
            SpecialAttrib::kSpecialAttrib_GrantBoostedPower => "Grant Boosted Power"@,
            SpecialAttrib::kSpecialAttrib_ViewAttrib => "View Attributes"@,
            SpecialAttrib::kSpecialAttrib_RewardSource => "Reward Source"@,
            SpecialAttrib::kSpecialAttrib_RewardSourceTeam => "Reward Source Team"@,
            SpecialAttrib::kSpecialAttrib_ClearFog => "Clear Fog"@,
            SpecialAttrib::kSpecialAttrib_CombatPhase => "Combat Phase"@,
            SpecialAttrib::kSpecialAttrib_CombatModShift => "Level Shift"@,
            SpecialAttrib::kSpecialAttrib_RechargePower => "Recharge Power"@,
            SpecialAttrib::kSpecialAttrib_VisionPhase => "Vision Phase"@,
            SpecialAttrib::kSpecialAttrib_NinjaRun => "Ninja Run"@,
            SpecialAttrib::kSpecialAttrib_Walk => "Walk"@,
            SpecialAttrib::kSpecialAttrib_BeastRun => "Beast Run"@,
            SpecialAttrib::kSpecialAttrib_SteamJump => "Steam Jump"@,
            SpecialAttrib::kSpecialAttrib_DesignerStatus => "Designer Status"@,
            SpecialAttrib::kSpecialAttrib_ExclusiveVisionPhase => "Exclusive Vision Phase"@,
            SpecialAttrib::kSpecialAttrib_HoverBoard => "Hover Board"@,
            SpecialAttrib::kSpecialAttrib_SetSZEValue => "Set Script Value"@,
            SpecialAttrib::kSpecialAttrib_AddBehavior => "Add Behavior"@,
            SpecialAttrib::kSpecialAttrib_MagicCarpet => "Magic Carpet"@,
            SpecialAttrib::kSpecialAttrib_TokenAdd => "Add Token"@,
            SpecialAttrib::kSpecialAttrib_TokenSet => "Set Token"@,
            SpecialAttrib::kSpecialAttrib_TokenClear => "Clear Token"@,
            SpecialAttrib::kSpecialAttrib_LuaExec => "Execute Script"@,
            SpecialAttrib::kSpecialAttrib_ForceMove => "Force Move"@,
            SpecialAttrib::kSpecialAttrib_ParkourRun => "Parkour Run"@,
            SpecialAttrib::kSpecialAttrib_CancelMods => "Cancel Effects"@,
            SpecialAttrib::kSpecialAttrib_ExecutePower => "Execute Power"@,
            SpecialAttrib::kSpecialAttrib_PowerRedirect => "Redirect Power"@,
        }
    }

    /// Gets the display text of the attribute.
    pub fn get_string(&self) -> (text: &'static str)
        ensures
            text@ == self.spec_string(),
    {
        match self {
            SpecialAttrib::kSpecialAttrib_UNSET => "",
            SpecialAttrib::kSpecialAttrib_Character(_) => "Character Attribute",
            SpecialAttrib::kSpecialAttrib_Translucency => "Translucency",
            SpecialAttrib::kSpecialAttrib_EntCreate => "Create Entity",
            SpecialAttrib::kSpecialAttrib_ClearDamagers => "Clear Damagers",
            SpecialAttrib::kSpecialAttrib_SilentKill => "Silent Kill",
            SpecialAttrib::kSpecialAttrib_XPDebtProtection => "Debt Protection",
            SpecialAttrib::kSpecialAttrib_SetMode => "Set Mode",
            SpecialAttrib::kSpecialAttrib_SetCostume => "Set Costume",
            SpecialAttrib::kSpecialAttrib_Glide => "Glide",
            SpecialAttrib::kSpecialAttrib_Null => "Null",
            SpecialAttrib::kSpecialAttrib_Avoid => "Avoid",
            SpecialAttrib::kSpecialAttrib_Reward => "Reward",
            SpecialAttrib::kSpecialAttrib_XPDebt => "Debt",
            SpecialAttrib::kSpecialAttrib_DropToggles => "Drop Toggles",
            SpecialAttrib::kSpecialAttrib_GrantPower => "Grant Power",
            SpecialAttrib::kSpecialAttrib_RevokePower => "Revoke Power",
            SpecialAttrib::kSpecialAttrib_UnsetMode => "Unset Mode",
            SpecialAttrib::kSpecialAttrib_GlobalChanceMod => "Global Chance Mod",
            SpecialAttrib::kSpecialAttrib_PowerChanceMod => "Power Chance Mod",
            SpecialAttrib::kSpecialAttrib_GrantBoostedPower => "Grant Boosted Power",
            SpecialAttrib::kSpecialAttrib_ViewAttrib => "View Attributes",
            SpecialAttrib::kSpecialAttrib_RewardSource => "Reward Source",
            SpecialAttrib::kSpecialAttrib_RewardSourceTeam => "Reward Source Team",
            SpecialAttrib::kSpecialAttrib_ClearFog => "Clear Fog",
            SpecialAttrib::kSpecialAttrib_CombatPhase => "Combat Phase",
            SpecialAttrib::kSpecialAttrib_CombatModShift => "Level Shift",
            SpecialAttrib::kSpecialAttrib_RechargePower => "Recharge Power",
            SpecialAttrib::kSpecialAttrib_VisionPhase => "Vision Phase",
            SpecialAttrib::kSpecialAttrib_NinjaRun => "Ninja Run",
            SpecialAttrib::kSpecialAttrib_Walk => "Walk",
            SpecialAttrib::kSpecialAttrib_BeastRun => "Beast Run",
            SpecialAttrib::kSpecialAttrib_SteamJump => "Steam Jump",
            SpecialAttrib::kSpecialAttrib_DesignerStatus => "Designer Status",
            SpecialAttrib::kSpecialAttrib_ExclusiveVisionPhase => "Exclusive Vision Phase",
            SpecialAttrib::kSpecialAttrib_HoverBoard => "Hover Board",
            SpecialAttrib::kSpecialAttrib_SetSZEValue => "Set Script Value",
            SpecialAttrib::kSpecialAttrib_AddBehavior => "Add Behavior",
            SpecialAttrib::kSpecialAttrib_MagicCarpet => "Magic Carpet",
            SpecialAttrib::kSpecialAttrib_TokenAdd => "Add Token",
            SpecialAttrib::kSpecialAttrib_TokenSet => "Set Token",
            SpecialAttrib::kSpecialAttrib_TokenClear => "Clear Token",
            SpecialAttrib::kSpecialAttrib_LuaExec => "Execute Script",
            SpecialAttrib::kSpecialAttrib_ForceMove => "Force Move",
            SpecialAttrib::kSpecialAttrib_ParkourRun => "Parkour Run",
            SpecialAttrib::kSpecialAttrib_CancelMods => "Cancel Effects",
            SpecialAttrib::kSpecialAttrib_ExecutePower => "Execute Power",
            SpecialAttrib::kSpecialAttrib_PowerRedirect => "Redirect Power",
        }
    }
}

/// How long an attribute modifier lasts.
#[derive(Clone, Copy, Debug, PartialEq, Eq, Structural)]
pub enum ModDuration {
    /// The modifier lasts the given number of seconds.
    InSeconds(Float32),
    /// The modifier is applied once and is gone.
    kModDuration_Instant,
    /// The modifier lasts until its target is defeated.
    kModDuration_UntilKilled,
    /// The modifier lasts until the power is shut off.
    kModDuration_UntilShutOff,
}

/// The bits of the number -1.
pub const DURATION_INSTANT_BITS: u32 = 0xbf80_0000;

/// The bits of the number 99999, from which on a duration counts as
/// lasting for ever.
pub const DURATION_FOREVER_BITS: u32 = 0x47c3_4f80;

/// The bits of positive infinity: the greatest bits of a number that is
/// not negative.
pub const INFINITY_BITS: u32 = 0x7f80_0000;

impl ModDuration {
    /// The duration that the number with the given bits stands for: -1 is
    /// an instant, a number from 99999 up to infinity lasts until the
    /// target is defeated, and any other is a time in seconds. Among the
    /// numbers that are not negative, a greater number has greater bits.
    pub open spec fn of_bits(bits: u32) -> Self {
        if bits == DURATION_INSTANT_BITS {
            ModDuration::kModDuration_Instant
        } else if DURATION_FOREVER_BITS <= bits <= INFINITY_BITS {
            ModDuration::kModDuration_UntilKilled
        } else {
            ModDuration::InSeconds(Float32 { bits })
        }
    }

    /// The duration that `val` stands for.
    pub fn from_float(val: Float32) -> (duration: Self)
        ensures
            duration == Self::of_bits(val.bits),
    {
        if val.bits == DURATION_INSTANT_BITS {
            ModDuration::kModDuration_Instant
        } else if DURATION_FOREVER_BITS <= val.bits && val.bits <= INFINITY_BITS {
            ModDuration::kModDuration_UntilKilled
        } else {
            ModDuration::InSeconds(val)
        }
    }

    /// The number that stands for the duration.
    pub fn to_float(&self) -> (val: Float32)
        ensures
            val.bits == match *self {
                ModDuration::InSeconds(s) => s.bits,
                ModDuration::kModDuration_Instant => DURATION_INSTANT_BITS,
                ModDuration::kModDuration_UntilKilled => DURATION_FOREVER_BITS,
                ModDuration::kModDuration_UntilShutOff => DURATION_FOREVER_BITS,
            },
    {
        match self {
            ModDuration::InSeconds(s) => *s,
            ModDuration::kModDuration_Instant => Float32 { bits: DURATION_INSTANT_BITS },
            ModDuration::kModDuration_UntilKilled => Float32 { bits: DURATION_FOREVER_BITS },
            ModDuration::kModDuration_UntilShutOff => Float32 { bits: DURATION_FOREVER_BITS },
        }
    }

    /// The display text of the duration.
    pub open spec fn spec_string(&self) -> Seq<char> {
        match self {
            ModDuration::InSeconds(_) => "InSeconds"@,
            ModDuration::kModDuration_Instant => "Instant"@,
            ModDuration::kModDuration_UntilKilled => "UntilKilled"@,
            ModDuration::kModDuration_UntilShutOff => "UntilShutOff"@,
        }
    }

    /// Gets the display text of the duration.
    pub fn get_string(&self) -> (text: &'static str)
        ensures
            text@ == self.spec_string(),
    {
        match self {
            ModDuration::InSeconds(_) => "InSeconds",
            ModDuration::kModDuration_Instant => "Instant",
            ModDuration::kModDuration_UntilKilled => "UntilKilled",
            ModDuration::kModDuration_UntilShutOff => "UntilShutOff",
        }
    }

    /// A duration of the given number of seconds.
    pub fn new(in_seconds: Float32) -> (duration: Self)
        ensures
            duration == ModDuration::InSeconds(in_seconds),
    {
        ModDuration::InSeconds(in_seconds)
    }
}

} // verus!
