use powers_dict::bin_parse::{BinReader, WireEnum};
use powers_dict::display::describe_target_type;
use powers_dict::structs::{OutputStyleConfig, PowersConfig};
use powers_dict::structs::{
    AIReport, AttribModFlag, AttribType, EffectArea, EffectGroupFlag, Float32, Gender,
    ModApplicationType, ModDuration, ModTarget, ModType, PowerEvent, PowerSystem, PowerType,
    ShowPowerSetting, SpecialAttrib, StackType, TargetType, VillainDefFlags, VillainExclusion,
    VillainRank, RGBA,
};

#[test]
fn numbers_in_range_name_their_variant() {
    assert_eq!(PowerType::from_wire(0), PowerType::kPowerType_Click);
    assert_eq!(PowerType::from_wire(1), PowerType::kPowerType_Auto);
    assert_eq!(PowerType::from_wire(5), PowerType::kPowerType_GlobalBoost);
    assert_eq!(ShowPowerSetting::from_wire(4), ShowPowerSetting::kShowPowerSetting_IfOwned);
    assert_eq!(TargetType::from_wire(36), TargetType::kTargetType_Position);
    assert_eq!(PowerEvent::from_wire(33), PowerEvent::kPowerEvent_Defiant);
    assert_eq!(VillainRank::from_wire(11), VillainRank::VR_DESTRUCTIBLE);
    assert_eq!(Gender::from_wire(3), Gender::GENDER_FEMALE);
    assert_eq!(AttribType::from_wire(6), AttribType::kAttribType_Special);
    assert_eq!(ModTarget::from_wire(0), ModTarget::kModTarget_Caster);
    assert_eq!(ModType::from_wire(0), ModType::kModType_Duration);
    assert_eq!(StackType::from_wire(0), StackType::kStackType_Stack);
}

#[test]
fn numbers_out_of_range_fall_back() {
    assert_eq!(PowerSystem::from_wire(1), PowerSystem::kPowerSystem_Powers);
    assert_eq!(PowerType::from_wire(6), PowerType::kPowerType_Click);
    assert_eq!(PowerType::from_wire(u32::MAX), PowerType::kPowerType_Click);
    assert_eq!(ShowPowerSetting::from_wire(5), ShowPowerSetting::kShowPowerSetting_Never);
    assert_eq!(TargetType::from_wire(37), TargetType::kTargetType_None);
    assert_eq!(ModTarget::from_wire(7), ModTarget::kModTarget_Affected);
    assert_eq!(ModType::from_wire(5), ModType::kModType_Magnitude);
    assert_eq!(StackType::from_wire(10), StackType::kStackType_Replace);
    assert_eq!(AIReport::from_wire(4), AIReport::kAIReport_Always);
    assert_eq!(EffectArea::from_wire(11), EffectArea::kEffectArea_Character);
    assert_eq!(VillainRank::from_wire(12), VillainRank::VR_NONE);
    assert_eq!(Gender::from_wire(4), Gender::GENDER_UNDEFINED);
    assert_eq!(PowerEvent::from_wire(34), PowerEvent::kPowerEvent_Activate);
}

#[test]
fn reading_an_unknown_enum_value_is_no_fault() {
    let mut reader = BinReader::new(vec![0xff, 0xff, 0xff, 0xff, 2, 0, 0, 0]);
    let first: PowerType = powers_dict::bin_parse::reader::bin_read_enum(&mut reader);
    let second: PowerType = powers_dict::bin_parse::reader::bin_read_enum(&mut reader);
    assert_eq!(first, PowerType::kPowerType_Click);
    assert_eq!(second, PowerType::kPowerType_Toggle);
    assert!(reader.is_ok());
    assert_eq!(reader.position(), 8);
}

#[test]
fn new_gives_the_fallback() {
    assert_eq!(PowerType::new(), PowerType::kPowerType_Click);
    assert_eq!(ModTarget::new(), ModTarget::kModTarget_Affected);
    assert_eq!(StackType::new(), StackType::kStackType_Replace);
    assert_eq!(SpecialAttrib::new(), SpecialAttrib::kSpecialAttrib_UNSET);
}

#[test]
fn display_texts() {
    assert_eq!(PowerType::kPowerType_Boost.get_string(), "Enhancement");
    assert_eq!(PowerType::kPowerType_GlobalBoost.get_string(), "Global Enhancement");
    assert_eq!(EffectArea::kEffectArea_Sphere.get_string(), "AoE");
    assert_eq!(EffectArea::kEffectArea_NamedVolume.get_string(), "(not implemented)");
    assert_eq!(ModApplicationType::kModApplicationType_OnDeactivate.get_string(), "OnDeactive");
    assert_eq!(ModTarget::kModTarget_FocusOwnerAndAllPets.get_string(), "TargetAndPets");
    assert_eq!(ModType::kModType_SkillMagnitude.get_string(), "SkillMagnitude");
    assert_eq!(StackType::kStackType_StackThenIgnore.get_string(), "StackToLimit");
    assert_eq!(AttribType::kAttribType_Mod.get_string(), "CurrentModifier");
    assert_eq!(SpecialAttrib::kSpecialAttrib_UNSET.get_string(), "");
    assert_eq!(SpecialAttrib::kSpecialAttrib_Character(80).get_string(), "Character Attribute");
    assert_eq!(SpecialAttrib::kSpecialAttrib_CombatModShift.get_string(), "Level Shift");
}

#[test]
fn target_type_tags() {
    assert_eq!(TargetType::kTargetType_None.get_strings(), Vec::<&str>::new());
    assert_eq!(TargetType::kTargetType_Caster.get_strings(), vec!["Self", "Alive", "Dead"]);
    assert_eq!(TargetType::kTargetType_Foe.get_strings(), vec!["Foe"]);
    assert_eq!(
        TargetType::kTargetType_DeadOrAliveLeaguemate.get_strings(),
        vec!["Player", "Alive", "Dead", "Team", "League"]
    );
}

#[test]
fn special_attributes_by_number() {
    assert_eq!(SpecialAttrib::from_i32(460), SpecialAttrib::kSpecialAttrib_Translucency);
    assert_eq!(SpecialAttrib::from_i32(461), SpecialAttrib::kSpecialAttrib_EntCreate);
    assert_eq!(SpecialAttrib::from_i32(504), SpecialAttrib::kSpecialAttrib_ExecutePower);
    assert_eq!(SpecialAttrib::from_i32(1460), SpecialAttrib::kSpecialAttrib_PowerRedirect);
    assert_eq!(SpecialAttrib::from_i32(505), SpecialAttrib::kSpecialAttrib_Character(505));
    assert_eq!(SpecialAttrib::from_i32(0), SpecialAttrib::kSpecialAttrib_Character(0));
    assert_eq!(SpecialAttrib::from_i32(-1), SpecialAttrib::kSpecialAttrib_Character(-1));
    assert_eq!(SpecialAttrib::from_i32(459), SpecialAttrib::kSpecialAttrib_Character(459));
}

fn duration(value: f32) -> ModDuration {
    ModDuration::from_float(Float32::from_bits(value.to_bits()))
}

#[test]
fn durations_follow_the_order_of_the_numbers() {
    assert_eq!(duration(-1.0), ModDuration::kModDuration_Instant);
    assert_eq!(duration(99999.0), ModDuration::kModDuration_UntilKilled);
    assert_eq!(duration(100000.5), ModDuration::kModDuration_UntilKilled);
    assert_eq!(duration(f32::MAX), ModDuration::kModDuration_UntilKilled);
    assert_eq!(duration(f32::INFINITY), ModDuration::kModDuration_UntilKilled);
    for value in [0.0f32, -0.0, 0.75, 10.0, 99998.99, -2.0, -99999.0, -1.0000001, f32::MIN, f32::NEG_INFINITY] {
        assert_eq!(duration(value), ModDuration::InSeconds(Float32::from_bits(value.to_bits())));
    }
    let nan = f32::NAN;
    assert_eq!(duration(nan), ModDuration::InSeconds(Float32::from_bits(nan.to_bits())));
    // just below 99999
    let below = f32::from_bits(99999.0f32.to_bits() - 1);
    assert!(below < 99999.0);
    assert_eq!(duration(below), ModDuration::InSeconds(Float32::from_bits(below.to_bits())));
}

#[test]
fn durations_back_to_numbers() {
    assert_eq!(f32::from_bits(ModDuration::kModDuration_Instant.to_float().to_bits()), -1.0);
    assert_eq!(f32::from_bits(ModDuration::kModDuration_UntilKilled.to_float().to_bits()), 99999.0);
    assert_eq!(f32::from_bits(ModDuration::kModDuration_UntilShutOff.to_float().to_bits()), 99999.0);
    assert_eq!(f32::from_bits(ModDuration::new(Float32::from_bits(2.5f32.to_bits())).to_float().to_bits()), 2.5);
    assert_eq!(ModDuration::kModDuration_UntilShutOff.get_string(), "UntilShutOff");
    assert_eq!(duration(3.0).get_string(), "InSeconds");
    assert_eq!(Float32::zero().to_bits(), 0);
}

#[test]
fn effect_group_flags() {
    let flags = EffectGroupFlag::from_bits_truncate(0b0101);
    assert_eq!(flags.bits(), 5);
    assert!(flags.contains(EffectGroupFlag::PVEOnly));
    assert!(!flags.contains(EffectGroupFlag::PVPOnly));
    assert!(flags.contains(EffectGroupFlag::Fallback));
    assert_eq!(flags.get_strings(), vec!["PVEOnly", "Fallback"]);
    assert_eq!(EffectGroupFlag::from_bits_truncate(0xffff_fff0).bits(), 0);
    assert_eq!(EffectGroupFlag::from_bits_truncate(0xffff_ffff).bits(), 15);
    assert_eq!(
        EffectGroupFlag::from_bits_truncate(15).get_strings(),
        vec!["PVEOnly", "PVPOnly", "Fallback", "LinkedChance"]
    );
    assert!(EffectGroupFlag::new().is_empty());
    assert_eq!(EffectGroupFlag::new().get_strings(), Vec::<&str>::new());
}

#[test]
fn attrib_mod_flags_join_two_words() {
    let flags = AttribModFlag::from_words(0b101, 0b1);
    assert_eq!(flags.bits(), 5 | (1u64 << 32));
    assert!(flags.contains(AttribModFlag::NoFloaters));
    assert!(flags.contains(AttribModFlag::CancelOnMiss));
    assert!(flags.contains(AttribModFlag::VanishEntOnTimeout));
    assert!(!flags.contains(AttribModFlag::PetCommandable));
    assert_eq!(flags.get_strings(), vec!["NoFloaters", "CancelOnMiss", "VanishEntOnTimeout"]);
    // bits 20 to 31 and from 43 on are no flags
    assert_eq!(AttribModFlag::from_words(0xfff0_0000, 0xffff_f800).bits(), 0);
    assert_eq!(AttribModFlag::from_words(u32::MAX, u32::MAX).bits(), 0x0000_07ff_000f_ffff);
    assert_eq!(AttribModFlag::from_words(u32::MAX, u32::MAX).get_strings().len(), 31);
    assert_eq!(
        AttribModFlag::from_bits_truncate(1 << 6).get_strings(),
        vec!["IgnoreLevelDifference"]
    );
    assert_eq!(
        AttribModFlag::from_bits_truncate(1 << 19).get_strings(),
        vec!["IgnoreSupressErrors"]
    );
}

#[test]
fn villain_flags() {
    assert_eq!(VillainExclusion::from_bits_truncate(0xff).bits(), 7);
    assert_eq!(VillainDefFlags::from_bits_truncate(0xff).bits(), 13);
    assert_eq!(VillainDefFlags::VILLAINDEF_NOGENERICBADGESTAT, 13);
    assert!(VillainExclusion::from_bits_truncate(0).contains(VillainExclusion::VE_NONE));
}

#[test]
fn target_types_in_general_terms() {
    assert_eq!(describe_target_type(&TargetType::kTargetType_Caster), Some("Self"));
    assert_eq!(describe_target_type(&TargetType::kTargetType_Teleport), Some("Location"));
    assert_eq!(describe_target_type(&TargetType::kTargetType_NPC), Some("Friendlies"));
    assert_eq!(describe_target_type(&TargetType::kTargetType_DeadPlayerFoe), Some("Enemies"));
    assert_eq!(describe_target_type(&TargetType::kTargetType_DeadMyCreation), Some("Pet"));
    assert_eq!(describe_target_type(&TargetType::kTargetType_DeadOrAliveAny), Some("Any"));
    assert_eq!(describe_target_type(&TargetType::kTargetType_None), None);
    assert_eq!(describe_target_type(&TargetType::kTargetType_MyOwner), None);
    assert_eq!(describe_target_type(&TargetType::kTargetType_Position), None);
}

#[test]
fn configuration_levels() {
    let mut config = PowersConfig::new();
    assert!(config.level_is_valid());
    assert_eq!(config.output_style, OutputStyleConfig::default());
    config.at_level = 50;
    assert!(config.level_is_valid());
    config.at_level = 51;
    assert!(!config.level_is_valid());
    config.at_level = 0;
    assert!(!config.level_is_valid());
}

#[test]
fn colours() {
    let colour = RGBA::new(1, 2, 3, 4);
    assert_eq!((colour.r(), colour.g(), colour.b(), colour.a()), (1, 2, 3, 4));
    assert_eq!(RGBA::default(), RGBA::new(0, 0, 0, 0));
}
