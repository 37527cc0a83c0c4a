//! The sets of flags of the record files, each stored as a number of which
//! every bit is one flag.
#![allow(non_upper_case_globals)]

use vstd::prelude::*;

verus! {

/// The flags of an effect group.
#[derive(Clone, Copy, Debug, PartialEq, Eq, Structural)]
pub struct EffectGroupFlag {
    /// The bits of the flags that are set.
    pub bits: u32,
}

impl EffectGroupFlag {
    /// If true, this effect group is ignored while on PVP maps.
    pub const PVEOnly: u32 = 0x0001;

    /// If true, this effect group is ignored while on PVE maps.
    pub const PVPOnly: u32 = 0x0002;

    /// Fallback effect groups are normally ignored. If no non-fallback effect
    /// groups within the same collection are eligible to be applied
    pub const Fallback: u32 = 0x0004;

    /// If true, ensure that the Chance is always evaluated consistently for all LinkedChance effect groups from the same power activation.
    /// DEPRECATED: Will be removed in a future version.
    pub const LinkedChance: u32 = 0x0008;

    /// The bits of all flags together.
    pub const ALL: u32 = 0x000f;

    /// The empty set of flags.
    pub fn new() -> (flags: Self)
        ensures
            flags.bits == 0,
    {
        EffectGroupFlag { bits: 0 }
    }

    /// The flags whose bits are set in `bits`; bits that are no flag are
    /// dropped.
    pub fn from_bits_truncate(bits: u32) -> (flags: Self)
        ensures
            flags.bits == bits & Self::ALL,
    {
        EffectGroupFlag { bits: bits & Self::ALL }
    }

    /// The bits of the flags that are set.
    pub fn bits(&self) -> (bits: u32)
        ensures
            bits == self.bits,
    {
        self.bits
    }

    /// Whether no flag is set.
    pub fn is_empty(&self) -> (empty: bool)
        ensures
            empty == (self.bits == 0),
    {
        self.bits == 0
    }

    /// Whether all flags in `flags` are set.
    pub open spec fn has(&self, flags: u32) -> bool {
        self.bits & flags == flags
    }

    /// Whether all flags in `flags` are set.
    pub fn contains(&self, flags: u32) -> (yes: bool)
        ensures
            yes == self.has(flags),
    {
        self.bits & flags == flags
    }

    /// The names of the flags that are set, in the order of their bits.
    pub open spec fn spec_strings(&self) -> Seq<Seq<char>> {
        Seq::<Seq<char>>::empty()
            + (if self.has(Self::PVEOnly) {
                seq!["PVEOnly"@]
            } else {
                Seq::empty()
            })
            + (if self.has(Self::PVPOnly) {
                seq!["PVPOnly"@]
            } else {
                Seq::empty()
            })
            + (if self.has(Self::Fallback) {
                seq!["Fallback"@]
            } else {
                Seq::empty()
            })
            + (if self.has(Self::LinkedChance) {
                seq!["LinkedChance"@]
            } else {
                Seq::empty()
            })
    }

    /// Gets the names of the flags that are set.
    pub fn get_strings(&self) -> (strings: Vec<&'static str>)
        ensures
            strings.deep_view() == self.spec_strings(),
    {
        let mut strings: Vec<&'static str> = Vec::new();
        let ghost mut so_far = Seq::<Seq<char>>::empty();
        if self.contains(Self::PVEOnly) {
            strings.push("PVEOnly");
            proof {
                so_far = so_far + seq!["PVEOnly"@];
            }
        } else {
            proof {
                so_far = so_far + Seq::empty();
            }
        }
        if self.contains(Self::PVPOnly) {
            strings.push("PVPOnly");
            proof {
                so_far = so_far + seq!["PVPOnly"@];
            }
        } else {
            proof {
                so_far = so_far + Seq::empty();
            }
        }
        if self.contains(Self::Fallback) {
            strings.push("Fallback");
            proof {
                so_far = so_far + seq!["Fallback"@];
            }
        } else {
            proof {
                so_far = so_far + Seq::empty();
            }
        }
        if self.contains(Self::LinkedChance) {
            strings.push("LinkedChance");
            proof {
                so_far = so_far + seq!["LinkedChance"@];
            }
        } else {
            proof {
                so_far = so_far + Seq::empty();
            }
        }
        strings
    }
}

/// The flags of an attribute modifier.
#[derive(Clone, Copy, Debug, PartialEq, Eq, Structural)]
pub struct AttribModFlag {
    /// The bits of the flags that are set.
    pub bits: u64,
}

impl AttribModFlag {
    /// If set, hides floaters (damage and healing numbers, for example) over the affected's head.
    /// If specified, `pch_display_float` is always shown, even if this is set.
    pub const NoFloaters: u64 = 0x0001;

    /// Determines whether this attribmod ignores diminishing returns on boosts
    /// (aka Enhancement Diversification). Only used if aspect is Strength.
    pub const BoostIgnoreDiminishing: u64 = 0x0002;

    /// If set and the test governed by `f_tick_chance` fails, the attrib mod will be removed.
    pub const CancelOnMiss: u64 = 0x0004;

    /// If set, only applies the attrib modifier if the target is on the ground.
    pub const NearGround: u64 = 0x0008;

    /// If set, the attacker's strength is not used to modify the scale of the effects.
    pub const IgnoreStrength: u64 = 0x0010;

    /// If set, the target's resistance is not used to modify the scale of the applied effects.
    pub const IgnoreResistance: u64 = 0x0020;

    /// If set, the level difference between the source and the target
    /// is not used to modify the effect's magnitude and/or duration.
    pub const IgnoreCombatMods: u64 = 0x0040;

    /// If set, forces resistance to apply to something other than the default (based on the
    /// attrib mod type).
    pub const ResistMagnitude: u64 = 0x0080;

    /// If set, forces resistance to apply to something other than the default (based on the
    /// attrib mod type).
    pub const ResistDuration: u64 = 0x0100;

    /// If set, forces combat mod to apply to something other than the default (based on the
    /// attrib mod type).
    pub const CombatModMagnitude: u64 = 0x0200;

    /// If set, forces combat mod to apply to something other than the default (based on the
    /// attrib mod type).
    pub const CombatModDuration: u64 = 0x0400;

    /// If true, this is supposed to be a boost template.  This is used
    /// in boosts and powers used as set bonuses, which can include both
    /// boost templates and additional normal templates.
    pub const Boost: u64 = 0x0800;

    /// If true and `pch_display_float`, `pch_display_attacker_hit` or `pch_display_victim_hit`
    /// is specified, it will only display if the attribute evaluates to a non-zero value.
    pub const HideZero: u64 = 0x1000;

    /// If true, do not clean out this attrib mod when the entity dies.
    pub const KeepThroughDeath: u64 = 0x2000;

    /// If true, delay any evaluations associated with this attrib mod until the last possible moment in mod_process.
    /// This means you will have to store all the Eval stashes until that time comes. Note that this can cause
    /// desynchronization with other members of the same effect group.
    pub const DelayEval: u64 = 0x4000;

    /// Do not add the FramesBeforeHit delay from the power to this attrib mod.
    pub const NoHitDelay: u64 = 0x8000;

    /// Do not add the projectile distance delay from the power to this attribmod.
    pub const NoProjectileDelay: u64 = 0x0001_0000;

    /// When using StackKey stacking, also compare the Aspect/Attribute in addition to the key.
    pub const StackByAttribAndKey: u64 = 0x0002_0000;

    /// Apply stacking rules per power instance rather than by the template. Implies individual caster stacking.
    pub const StackExactPower: u64 = 0x0004_0000;

    /// Designer laziness flag.
    pub const IgnoreSuppressErrors: u64 = 0x0008_0000;

    /// Valid for: EntCreate
    /// If true, if the pet times out or is otherise destroyed by the server (as opposed to being defeated) then the entity is
    /// vanished as opposed to going through the usual DieNow code. (Only for powers which spawn entities.)
    pub const VanishEntOnTimeout: u64 = 0x0001_0000_0000;

    /// Valid for: CombatModShift
    /// Causes this mod shift not to be added to the total reported to the client.
    pub const DoNotDisplayShift: u64 = 0x0002_0000_0000;

    /// Valid for: TokenAdd, TokenSet
    /// Don't update the token timer.
    pub const NoTokenTime: u64 = 0x0004_0000_0000;

    /// Valid for: RevokePower
    /// Revokes all copies of the power, ignoring Count.
    pub const RevokeAll: u64 = 0x0008_0000_0000;

    /// Valid for: EntCreate
    /// If true, do not apply custom tinting to the spawned pet's costume.
    pub const DoNotTintCostume: u64 = 0x0010_0000_0000;

    /// Valid for: ExecutePower, EntCreate
    /// Copy enhancements to the resulting power(s) if they are accepted by its allowed types.
    pub const CopyBoosts: u64 = 0x0020_0000_0000;

    /// Valid for: EntCreate
    /// Copy strength buff mods from the creator of this entity.
    pub const CopyCreatorMods: u64 = 0x0040_0000_0000;

    /// Valid for: EntCreate
    /// Suppresses FX on mods copied from creator. Only has an effect if CopyCreatorMods is also set.
    pub const NoCreatorModFX: u64 = 0x0080_0000_0000;

    /// Valid for: EntCreate
    /// Ignores `pch_villain_def` and `pch_class`, creates a generic entity the same class as its creator.
    /// Implies NoCreatorModFX.
    pub const PseudoPet: u64 = 0x0100_0000_0000;

    /// Valid for: EntCreate
    /// Forces the summoned entity to show up in a player's pet window.
    pub const PetVisible: u64 = 0x0200_0000_0000;

    /// Valid for: EntCreate
    /// Forces the summoned entity to be commandable like a mastermind pet.
    pub const PetCommandable: u64 = 0x0400_0000_0000;

    /// The bits of all flags together.
    pub const ALL: u64 = 0x07ff_000f_ffff;

    /// The 64-bit number that the file stores as two 32-bit numbers, the
    /// low half first.
    pub open spec fn joined(low: u32, high: u32) -> u64 {
        (low as u64) | ((high as u64) << 32)
    }

    /// The flags that the file stores as two 32-bit numbers, the low half
    /// first.
    pub fn from_words(low: u32, high: u32) -> (flags: Self)
        ensures
            flags.bits == Self::joined(low, high) & Self::ALL,
    {
        Self::from_bits_truncate((low as u64) | ((high as u64) << 32))
    }

    /// The empty set of flags.
    pub fn new() -> (flags: Self)
        ensures
            flags.bits == 0,
    {
        AttribModFlag { bits: 0 }
    }

    /// The flags whose bits are set in `bits`; bits that are no flag are
    /// dropped.
    pub fn from_bits_truncate(bits: u64) -> (flags: Self)
        ensures
            flags.bits == bits & Self::ALL,
    {
        AttribModFlag { bits: bits & Self::ALL }
    }

    /// The bits of the flags that are set.
    pub fn bits(&self) -> (bits: u64)
        ensures
            bits == self.bits,
    {
        self.bits
    }

    /// Whether no flag is set.
    pub fn is_empty(&self) -> (empty: bool)
        ensures
            empty == (self.bits == 0),
    {
        self.bits == 0
    }

    /// Whether all flags in `flags` are set.
    pub open spec fn has(&self, flags: u64) -> bool {
        self.bits & flags == flags
    }

    /// Whether all flags in `flags` are set.
    pub fn contains(&self, flags: u64) -> (yes: bool)
        ensures
            yes == self.has(flags),
    {
        self.bits & flags == flags
    }

    /// The flags that have a name, each with its name, in the order of
    /// their bits.
    pub open spec fn names() -> Seq<(u64, Seq<char>)> {
        seq![
            (Self::NoFloaters, "NoFloaters"@),
            (Self::BoostIgnoreDiminishing, "BoostIgnoreDiminishing"@),
            (Self::CancelOnMiss, "CancelOnMiss"@),
            (Self::NearGround, "NearGround"@),
            (Self::IgnoreStrength, "IgnoreStrength"@),
            (Self::IgnoreResistance, "IgnoreResistance"@),
            (Self::IgnoreCombatMods, "IgnoreLevelDifference"@),
            (Self::ResistMagnitude, "ResistMagnitude"@),
            (Self::ResistDuration, "ResistDuration"@),
            (Self::CombatModMagnitude, "CombatModMagnitude"@),
            (Self::CombatModDuration, "CombatModDuration"@),
            (Self::Boost, "Boost"@),
            (Self::HideZero, "HideZero"@),
            (Self::KeepThroughDeath, "KeepThroughDeath"@),
            (Self::DelayEval, "DelayEval"@),
            (Self::NoHitDelay, "NoHitDelay"@),
            (Self::NoProjectileDelay, "NoProjectileDelay"@),
            (Self::StackByAttribAndKey, "StackByAttribAndKey"@),
            (Self::StackExactPower, "StackExactPower"@),
            (Self::IgnoreSuppressErrors, "IgnoreSupressErrors"@),
            (Self::VanishEntOnTimeout, "VanishEntOnTimeout"@),
            (Self::DoNotDisplayShift, "DoNotDisplayShift"@),
            (Self::NoTokenTime, "NoTokenTime"@),
            (Self::RevokeAll, "RevokeAll"@),
            (Self::DoNotTintCostume, "DoNotTintCostume"@),
            (Self::CopyBoosts, "CopyBoosts"@),
            (Self::CopyCreatorMods, "CopyCreatorMods"@),
            (Self::NoCreatorModFX, "NoCreatorModFX"@),
            (Self::PseudoPet, "PseudoPet"@),
            (Self::PetVisible, "PetVisible"@),
            (Self::PetCommandable, "PetCommandable"@),
        ]
    }

    /// The names of those among the first `n` named flags that are set.
    pub open spec fn strings_of(&self, n: nat) -> Seq<Seq<char>>
        decreases n,
    {
        if n == 0 || n > Self::names().len() {
            Seq::empty()
        } else if self.has(Self::names()[n - 1].0) {
            self.strings_of((n - 1) as nat).push(Self::names()[n - 1].1)
        } else {
            self.strings_of((n - 1) as nat)
        }
    }

    /// The names of the flags that are set, in the order of their bits.
    pub open spec fn spec_strings(&self) -> Seq<Seq<char>> {
        self.strings_of(Self::names().len())
    }

    /// Gets the names of the flags that are set.
    pub fn get_strings(&self) -> (strings: Vec<&'static str>)
        ensures
            strings.deep_view() == self.spec_strings(),
    {
        let names: Vec<(u64, &'static str)> = vec![
            (Self::NoFloaters, "NoFloaters"),
            (Self::BoostIgnoreDiminishing, "BoostIgnoreDiminishing"),
            (Self::CancelOnMiss, "CancelOnMiss"),
            (Self::NearGround, "NearGround"),
            (Self::IgnoreStrength, "IgnoreStrength"),
            (Self::IgnoreResistance, "IgnoreResistance"),
            (Self::IgnoreCombatMods, "IgnoreLevelDifference"),
            (Self::ResistMagnitude, "ResistMagnitude"),
            (Self::ResistDuration, "ResistDuration"),
            (Self::CombatModMagnitude, "CombatModMagnitude"),
            (Self::CombatModDuration, "CombatModDuration"),
            (Self::Boost, "Boost"),
            (Self::HideZero, "HideZero"),
            (Self::KeepThroughDeath, "KeepThroughDeath"),
            (Self::DelayEval, "DelayEval"),
            (Self::NoHitDelay, "NoHitDelay"),
            (Self::NoProjectileDelay, "NoProjectileDelay"),
            (Self::StackByAttribAndKey, "StackByAttribAndKey"),
            (Self::StackExactPower, "StackExactPower"),
            (Self::IgnoreSuppressErrors, "IgnoreSupressErrors"),
            (Self::VanishEntOnTimeout, "VanishEntOnTimeout"),
            (Self::DoNotDisplayShift, "DoNotDisplayShift"),
            (Self::NoTokenTime, "NoTokenTime"),
            (Self::RevokeAll, "RevokeAll"),
            (Self::DoNotTintCostume, "DoNotTintCostume"),
            (Self::CopyBoosts, "CopyBoosts"),
            (Self::CopyCreatorMods, "CopyCreatorMods"),
            (Self::NoCreatorModFX, "NoCreatorModFX"),
            (Self::PseudoPet, "PseudoPet"),
            (Self::PetVisible, "PetVisible"),
            (Self::PetCommandable, "PetCommandable"),
        ];
        let mut strings: Vec<&'static str> = Vec::new();
        let mut i: usize = 0;
        while i < names.len()
            invariant
                i <= names.len(),
                names.deep_view() == Self::names(),
                strings.deep_view() == self.strings_of(i as nat),
            decreases names.len() - i,
        {
            if self.contains(names[i].0) {
                strings.push(names[i].1);
            }
            i = i + 1;
        }
        strings
    }
}

/// The games in which a villain is allowed.
#[derive(Clone, Copy, Debug, PartialEq, Eq, Structural)]
pub struct VillainExclusion {
    /// The bits of the flags that are set.
    pub bits: u32,
}

impl VillainExclusion {
    /// Allow in all games.
    pub const VE_NONE: u32 = 0x0000;

    /// Allow in _CoH_ only.
    pub const VE_COH: u32 = 0x0001;

    /// Allow in _CoV_ only.
    pub const VE_COV: u32 = 0x0002;

    /// ???
    pub const VE_MA: u32 = 0x0004;

    /// The bits of all flags together.
    pub const ALL: u32 = 0x0007;

    /// The empty set of flags.
    pub fn new() -> (flags: Self)
        ensures
            flags.bits == 0,
    {
        VillainExclusion { bits: 0 }
    }

    /// The flags whose bits are set in `bits`; bits that are no flag are
    /// dropped.
    pub fn from_bits_truncate(bits: u32) -> (flags: Self)
        ensures
            flags.bits == bits & Self::ALL,
    {
        VillainExclusion { bits: bits & Self::ALL }
    }

    /// The bits of the flags that are set.
    pub fn bits(&self) -> (bits: u32)
        ensures
            bits == self.bits,
    {
        self.bits
    }

    /// Whether no flag is set.
    pub fn is_empty(&self) -> (empty: bool)
        ensures
            empty == (self.bits == 0),
    {
        self.bits == 0
    }

    /// Whether all flags in `flags` are set.
    pub open spec fn has(&self, flags: u32) -> bool {
        self.bits & flags == flags
    }

    /// Whether all flags in `flags` are set.
    pub fn contains(&self, flags: u32) -> (yes: bool)
        ensures
            yes == self.has(flags),
    {
        self.bits & flags == flags
    }
}

/// The flags of a villain definition.
#[derive(Clone, Copy, Debug, PartialEq, Eq, Structural)]
pub struct VillainDefFlags {
    /// The bits of the flags that are set.
    pub bits: u32,
}

impl VillainDefFlags {
    /// Don't count a badge stat for the villain group when defeated.
    pub const VILLAINDEF_NOGROUPBADGESTAT: u32 = 0x0001;

    /// Don't count a badge stat for the villain rank when defeated.
    pub const VILLAINDEF_NORANKBADGESTAT: u32 = 0x0004;

    /// Don't count a badge stat for the villain name when defeated.
    pub const VILLAINDEF_NONAMEBADGESTAT: u32 = 0x0008;

    pub const VILLAINDEF_NOGENERICBADGESTAT: u32 = 0x000d;

    /// The bits of all flags together.
    pub const ALL: u32 = 0x000d;

    /// The empty set of flags.
    pub fn new() -> (flags: Self)
        ensures
            flags.bits == 0,
    {
        VillainDefFlags { bits: 0 }
    }

    /// The flags whose bits are set in `bits`; bits that are no flag are
    /// dropped.
    pub fn from_bits_truncate(bits: u32) -> (flags: Self)
        ensures
            flags.bits == bits & Self::ALL,
    {
        VillainDefFlags { bits: bits & Self::ALL }
    }

    /// The bits of the flags that are set.
    pub fn bits(&self) -> (bits: u32)
        ensures
            bits == self.bits,
    {
        self.bits
    }

    /// Whether no flag is set.
    pub fn is_empty(&self) -> (empty: bool)
        ensures
            empty == (self.bits == 0),
    {
        self.bits == 0
    }

    /// Whether all flags in `flags` are set.
    pub open spec fn has(&self, flags: u32) -> bool {
        self.bits & flags == flags
    }

    /// Whether all flags in `flags` are set.
    pub fn contains(&self, flags: u32) -> (yes: bool)
        ensures
            yes == self.has(flags),
    {
        self.bits & flags == flags
    }
}

} // verus!
