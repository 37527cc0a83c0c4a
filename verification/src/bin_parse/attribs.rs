//! The decoder of the file of attribute names.

use super::cursor::Cursor;
use super::reader::{BinReadable, BinReader};
use super::ParseResult;
use std::collections::HashMap;
use crate::structs::attribs::{AttribName, AttribNames, CharacterAttributes};
use crate::structs::strings::{MessageStore, StringPool};
use vstd::prelude::*;

verus! {

/// Reads all of the attribute names in the file, and looks up the display
/// names of the attributes of a character in the message store.
pub fn serialized_read_attribs(
    reader: &mut BinReader,
    strings: &StringPool,
    messages: &MessageStore,
) -> (result: ParseResult<AttribNames>)
    ensures
        final(reader)@ == AttribNames::scan(old(reader)@, strings),
        match result {
            Ok(names) => final(reader)@.ok() && AttribNames::decoded(
                old(reader)@,
                strings,
                messages,
                &names,
            ),
            Err(e) => final(reader)@.fault == Some(e.kind()) && e.wraps_cause(),
        },
{
    let names = AttribNames::read_value(reader, strings, messages);
    reader.finish(names)
}

/// The attributes of a character that have a display name: the offset of
/// each, and the key of its name in the message store.
#[verifier::opaque]
pub open spec fn attribute_keys() -> Seq<(usize, Seq<char>)> {
    seq![
        (CharacterAttributes::OFFSET_DMG_0, "AttrDamageType[0]"@),
        (CharacterAttributes::OFFSET_DMG_1, "AttrDamageType[1]"@),
        (CharacterAttributes::OFFSET_DMG_2, "AttrDamageType[2]"@),
        (CharacterAttributes::OFFSET_DMG_3, "AttrDamageType[3]"@),
        (CharacterAttributes::OFFSET_DMG_4, "AttrDamageType[4]"@),
        (CharacterAttributes::OFFSET_DMG_5, "AttrDamageType[5]"@),
        (CharacterAttributes::OFFSET_DMG_6, "AttrDamageType[6]"@),
        (CharacterAttributes::OFFSET_DMG_7, "AttrDamageType[7]"@),
        (CharacterAttributes::OFFSET_DMG_8, "AttrDamageType[8]"@),
        (CharacterAttributes::OFFSET_DMG_9, "AttrDamageType[9]"@),
        (CharacterAttributes::OFFSET_DMG_10, "AttrDamageType[10]"@),
        (CharacterAttributes::OFFSET_DMG_11, "AttrDamageType[11]"@),
        (CharacterAttributes::OFFSET_DMG_12, "AttrDamageType[12]"@),
        (CharacterAttributes::OFFSET_DMG_13, "AttrDamageType[13]"@),
        (CharacterAttributes::OFFSET_DMG_14, "AttrDamageType[14]"@),
        (CharacterAttributes::OFFSET_DMG_15, "AttrDamageType[15]"@),
        (CharacterAttributes::OFFSET_DMG_16, "AttrDamageType[16]"@),
        (CharacterAttributes::OFFSET_DMG_17, "AttrDamageType[17]"@),
        (CharacterAttributes::OFFSET_DMG_18, "AttrDamageType[18]"@),
        (CharacterAttributes::OFFSET_DMG_19, "AttrDamageType[19]"@),
        (CharacterAttributes::OFFSET_HIT_POINTS, "AttrHitPoints"@),
        (CharacterAttributes::OFFSET_ABSORB, "AttrAbsorb"@),
        (CharacterAttributes::OFFSET_ENDURANCE, "AttrEndurance"@),
        (CharacterAttributes::OFFSET_INSIGHT, "AttrInsight"@),
        (CharacterAttributes::OFFSET_RAGE, "AttrRage"@),
        (CharacterAttributes::OFFSET_TOHIT, "AttrToHit"@),
        (CharacterAttributes::OFFSET_DEF_0, "AttrDefenseType[0]"@),
        (CharacterAttributes::OFFSET_DEF_1, "AttrDefenseType[1]"@),
        (CharacterAttributes::OFFSET_DEF_2, "AttrDefenseType[2]"@),
        (CharacterAttributes::OFFSET_DEF_3, "AttrDefenseType[3]"@),
        (CharacterAttributes::OFFSET_DEF_4, "AttrDefenseType[4]"@),
        (CharacterAttributes::OFFSET_DEF_5, "AttrDefenseType[5]"@),
        (CharacterAttributes::OFFSET_DEF_6, "AttrDefenseType[6]"@),
        (CharacterAttributes::OFFSET_DEF_7, "AttrDefenseType[7]"@),
        (CharacterAttributes::OFFSET_DEF_8, "AttrDefenseType[8]"@),
        (CharacterAttributes::OFFSET_DEF_9, "AttrDefenseType[9]"@),
        (CharacterAttributes::OFFSET_DEF_10, "AttrDefenseType[10]"@),
        (CharacterAttributes::OFFSET_DEF_11, "AttrDefenseType[11]"@),
        (CharacterAttributes::OFFSET_DEF_12, "AttrDefenseType[12]"@),
        (CharacterAttributes::OFFSET_DEF_13, "AttrDefenseType[13]"@),
        (CharacterAttributes::OFFSET_DEF_14, "AttrDefenseType[14]"@),
        (CharacterAttributes::OFFSET_DEF_15, "AttrDefenseType[15]"@),
        (CharacterAttributes::OFFSET_DEF_16, "AttrDefenseType[16]"@),
        (CharacterAttributes::OFFSET_DEF_17, "AttrDefenseType[17]"@),
        (CharacterAttributes::OFFSET_DEF_18, "AttrDefenseType[18]"@),
        (CharacterAttributes::OFFSET_DEF_19, "AttrDefenseType[19]"@),
        (CharacterAttributes::OFFSET_DEFENSE, "AttrDefense"@),
        (CharacterAttributes::OFFSET_RUNNING_SPEED, "AttrSpeedRunning"@),
        (CharacterAttributes::OFFSET_FLYING_SPEED, "AttrSpeedFlying"@),
        (CharacterAttributes::OFFSET_SWIMMING_SPEED, "AttrSpeedSwimming"@),
        (CharacterAttributes::OFFSET_JUMPING_SPEED, "AttrSpeedJumping"@),
        (CharacterAttributes::OFFSET_JUMP_HEIGHT, "AttrJumpHeight"@),
        (CharacterAttributes::OFFSET_MOVEMENT_CONTROL, "AttrMovementControl"@),
        (CharacterAttributes::OFFSET_MOVEMENT_FRICTION, "AttrMovementFriction"@),
        (CharacterAttributes::OFFSET_STEALTH, "AttrStealth"@),
        (CharacterAttributes::OFFSET_STEALTH_RADIUS_PVE, "AttrStealthRadius"@),
        (CharacterAttributes::OFFSET_STEALTH_RADIUS_PVP, "AttrStealthRadiusPlayer"@),
        (CharacterAttributes::OFFSET_PERCEPTION_RADIUS, "AttrPerceptionRadius"@),
        (CharacterAttributes::OFFSET_REGENERATION, "AttrRegeneration"@),
        (CharacterAttributes::OFFSET_RECOVERY, "AttrRecovery"@),
        (CharacterAttributes::OFFSET_INSIGHT_RECOVERY, "AttrInsightRecovery"@),
        (CharacterAttributes::OFFSET_THREAT_LEVEL, "AttrThreatLevel"@),
        (CharacterAttributes::OFFSET_TAUNT, "AttrTaunt"@),
        (CharacterAttributes::OFFSET_PLACATE, "AttrPlacate"@),
        (CharacterAttributes::OFFSET_CONFUSED, "AttrConfused"@),
        (CharacterAttributes::OFFSET_AFRAID, "AttrAfraid"@),
        (CharacterAttributes::OFFSET_TERRORIZED, "AttrTerrorized"@),
        (CharacterAttributes::OFFSET_HELD, "AttrHeld"@),
        (CharacterAttributes::OFFSET_IMMOBILIZED, "AttrImmobilized"@),
        (CharacterAttributes::OFFSET_STUNNED, "AttrStunned"@),
        (CharacterAttributes::OFFSET_SLEEP, "AttrSleep"@),
        (CharacterAttributes::OFFSET_FLY, "AttrFly"@),
        (CharacterAttributes::OFFSET_JUMP_PACK, "AttrJumppack"@),
        (CharacterAttributes::OFFSET_TELEPORT, "AttrTeleport"@),
        (CharacterAttributes::OFFSET_UNTOUCHABLE, "AttrUntouchable"@),
        (CharacterAttributes::OFFSET_INTANGIBLE, "AttrIntangible"@),
        (CharacterAttributes::OFFSET_ONLY_AFFECTS_SELF, "AttrOnlyAffectsSelf"@),
        (CharacterAttributes::OFFSET_EXPERIENCE_GAIN, "AttrExperienceGain"@),
        (CharacterAttributes::OFFSET_INFLUENCE_GAIN, "AttrInfluenceGain"@),
        (CharacterAttributes::OFFSET_PRESTIGE_GAIN, "AttrPrestigeGain"@),
        (CharacterAttributes::OFFSET_EVADE, "AttrNullBool"@),
        (CharacterAttributes::OFFSET_KNOCKUP, "AttrKnockup"@),
        (CharacterAttributes::OFFSET_KNOCKBACK, "AttrKnock"@),
        (CharacterAttributes::OFFSET_REPEL, "AttrRepel"@),
        (CharacterAttributes::OFFSET_ACCURACY, "AttrAccuracy"@),
        (CharacterAttributes::OFFSET_RADIUS, "AttrRadius"@),
        (CharacterAttributes::OFFSET_ARC, "AttrArc"@),
        (CharacterAttributes::OFFSET_RANGE, "AttrRange"@),
        (CharacterAttributes::OFFSET_TIME_TO_ACTIVATE, "AttrTimeToActivate"@),
        (CharacterAttributes::OFFSET_RECHARGE_TIME, "AttrRechargeTime"@),
        (CharacterAttributes::OFFSET_INTERRUPT_TIME, "AttrInterruptTime"@),
        (CharacterAttributes::OFFSET_ENDURANCE_DISCOUNT, "AttrEnduranceDiscount"@),
        (CharacterAttributes::OFFSET_ELUSIVITY_0, "AttrDefenseType[0]"@),
        (CharacterAttributes::OFFSET_ELUSIVITY_1, "AttrDefenseType[1]"@),
        (CharacterAttributes::OFFSET_ELUSIVITY_2, "AttrDefenseType[2]"@),
        (CharacterAttributes::OFFSET_ELUSIVITY_3, "AttrDefenseType[3]"@),
        (CharacterAttributes::OFFSET_ELUSIVITY_4, "AttrDefenseType[4]"@),
        (CharacterAttributes::OFFSET_ELUSIVITY_5, "AttrDefenseType[5]"@),
        (CharacterAttributes::OFFSET_ELUSIVITY_6, "AttrDefenseType[6]"@),
        (CharacterAttributes::OFFSET_ELUSIVITY_7, "AttrDefenseType[7]"@),
        (CharacterAttributes::OFFSET_ELUSIVITY_8, "AttrDefenseType[8]"@),
        (CharacterAttributes::OFFSET_ELUSIVITY_9, "AttrDefenseType[9]"@),
        (CharacterAttributes::OFFSET_ELUSIVITY_10, "AttrDefenseType[10]"@),
        (CharacterAttributes::OFFSET_ELUSIVITY_11, "AttrDefenseType[11]"@),
        (CharacterAttributes::OFFSET_ELUSIVITY_12, "AttrDefenseType[12]"@),
        (CharacterAttributes::OFFSET_ELUSIVITY_13, "AttrDefenseType[13]"@),
        (CharacterAttributes::OFFSET_ELUSIVITY_14, "AttrDefenseType[14]"@),
        (CharacterAttributes::OFFSET_ELUSIVITY_15, "AttrDefenseType[15]"@),
        (CharacterAttributes::OFFSET_ELUSIVITY_16, "AttrDefenseType[16]"@),
        (CharacterAttributes::OFFSET_ELUSIVITY_17, "AttrDefenseType[17]"@),
        (CharacterAttributes::OFFSET_ELUSIVITY_18, "AttrDefenseType[18]"@),
        (CharacterAttributes::OFFSET_ELUSIVITY_19, "AttrDefenseType[19]"@),
        (CharacterAttributes::OFFSET_ELUSIVITY_BASE, "AttrDefense"@),
    ]
}

/// The table of `attribute_keys`.
fn attribute_key_table() -> (table: Vec<(usize, &'static str)>)
    ensures
        table.deep_view() == attribute_keys(),
{
    let table: Vec<(usize, &'static str)> = vec![
        (CharacterAttributes::OFFSET_DMG_0, "AttrDamageType[0]"),
        (CharacterAttributes::OFFSET_DMG_1, "AttrDamageType[1]"),
        (CharacterAttributes::OFFSET_DMG_2, "AttrDamageType[2]"),
        (CharacterAttributes::OFFSET_DMG_3, "AttrDamageType[3]"),
        (CharacterAttributes::OFFSET_DMG_4, "AttrDamageType[4]"),
        (CharacterAttributes::OFFSET_DMG_5, "AttrDamageType[5]"),
        (CharacterAttributes::OFFSET_DMG_6, "AttrDamageType[6]"),
        (CharacterAttributes::OFFSET_DMG_7, "AttrDamageType[7]"),
        (CharacterAttributes::OFFSET_DMG_8, "AttrDamageType[8]"),
        (CharacterAttributes::OFFSET_DMG_9, "AttrDamageType[9]"),
        (CharacterAttributes::OFFSET_DMG_10, "AttrDamageType[10]"),
        (CharacterAttributes::OFFSET_DMG_11, "AttrDamageType[11]"),
        (CharacterAttributes::OFFSET_DMG_12, "AttrDamageType[12]"),
        (CharacterAttributes::OFFSET_DMG_13, "AttrDamageType[13]"),
        (CharacterAttributes::OFFSET_DMG_14, "AttrDamageType[14]"),
        (CharacterAttributes::OFFSET_DMG_15, "AttrDamageType[15]"),
        (CharacterAttributes::OFFSET_DMG_16, "AttrDamageType[16]"),
        (CharacterAttributes::OFFSET_DMG_17, "AttrDamageType[17]"),
        (CharacterAttributes::OFFSET_DMG_18, "AttrDamageType[18]"),
        (CharacterAttributes::OFFSET_DMG_19, "AttrDamageType[19]"),
        (CharacterAttributes::OFFSET_HIT_POINTS, "AttrHitPoints"),
        (CharacterAttributes::OFFSET_ABSORB, "AttrAbsorb"),
        (CharacterAttributes::OFFSET_ENDURANCE, "AttrEndurance"),
        (CharacterAttributes::OFFSET_INSIGHT, "AttrInsight"),
        (CharacterAttributes::OFFSET_RAGE, "AttrRage"),
        (CharacterAttributes::OFFSET_TOHIT, "AttrToHit"),
        (CharacterAttributes::OFFSET_DEF_0, "AttrDefenseType[0]"),
        (CharacterAttributes::OFFSET_DEF_1, "AttrDefenseType[1]"),
        (CharacterAttributes::OFFSET_DEF_2, "AttrDefenseType[2]"),
        (CharacterAttributes::OFFSET_DEF_3, "AttrDefenseType[3]"),
        (CharacterAttributes::OFFSET_DEF_4, "AttrDefenseType[4]"),
        (CharacterAttributes::OFFSET_DEF_5, "AttrDefenseType[5]"),
        (CharacterAttributes::OFFSET_DEF_6, "AttrDefenseType[6]"),
        (CharacterAttributes::OFFSET_DEF_7, "AttrDefenseType[7]"),
        (CharacterAttributes::OFFSET_DEF_8, "AttrDefenseType[8]"),
        (CharacterAttributes::OFFSET_DEF_9, "AttrDefenseType[9]"),
        (CharacterAttributes::OFFSET_DEF_10, "AttrDefenseType[10]"),
        (CharacterAttributes::OFFSET_DEF_11, "AttrDefenseType[11]"),
        (CharacterAttributes::OFFSET_DEF_12, "AttrDefenseType[12]"),
        (CharacterAttributes::OFFSET_DEF_13, "AttrDefenseType[13]"),
        (CharacterAttributes::OFFSET_DEF_14, "AttrDefenseType[14]"),
        (CharacterAttributes::OFFSET_DEF_15, "AttrDefenseType[15]"),
        (CharacterAttributes::OFFSET_DEF_16, "AttrDefenseType[16]"),
        (CharacterAttributes::OFFSET_DEF_17, "AttrDefenseType[17]"),
        (CharacterAttributes::OFFSET_DEF_18, "AttrDefenseType[18]"),
        (CharacterAttributes::OFFSET_DEF_19, "AttrDefenseType[19]"),
        (CharacterAttributes::OFFSET_DEFENSE, "AttrDefense"),
        (CharacterAttributes::OFFSET_RUNNING_SPEED, "AttrSpeedRunning"),
        (CharacterAttributes::OFFSET_FLYING_SPEED, "AttrSpeedFlying"),
        (CharacterAttributes::OFFSET_SWIMMING_SPEED, "AttrSpeedSwimming"),
        (CharacterAttributes::OFFSET_JUMPING_SPEED, "AttrSpeedJumping"),
        (CharacterAttributes::OFFSET_JUMP_HEIGHT, "AttrJumpHeight"),
        (CharacterAttributes::OFFSET_MOVEMENT_CONTROL, "AttrMovementControl"),
        (CharacterAttributes::OFFSET_MOVEMENT_FRICTION, "AttrMovementFriction"),
        (CharacterAttributes::OFFSET_STEALTH, "AttrStealth"),
        (CharacterAttributes::OFFSET_STEALTH_RADIUS_PVE, "AttrStealthRadius"),
        (CharacterAttributes::OFFSET_STEALTH_RADIUS_PVP, "AttrStealthRadiusPlayer"),
        (CharacterAttributes::OFFSET_PERCEPTION_RADIUS, "AttrPerceptionRadius"),
        (CharacterAttributes::OFFSET_REGENERATION, "AttrRegeneration"),
        (CharacterAttributes::OFFSET_RECOVERY, "AttrRecovery"),
        (CharacterAttributes::OFFSET_INSIGHT_RECOVERY, "AttrInsightRecovery"),
        (CharacterAttributes::OFFSET_THREAT_LEVEL, "AttrThreatLevel"),
        (CharacterAttributes::OFFSET_TAUNT, "AttrTaunt"),
        (CharacterAttributes::OFFSET_PLACATE, "AttrPlacate"),
        (CharacterAttributes::OFFSET_CONFUSED, "AttrConfused"),
        (CharacterAttributes::OFFSET_AFRAID, "AttrAfraid"),
        (CharacterAttributes::OFFSET_TERRORIZED, "AttrTerrorized"),
        (CharacterAttributes::OFFSET_HELD, "AttrHeld"),
        (CharacterAttributes::OFFSET_IMMOBILIZED, "AttrImmobilized"),
        (CharacterAttributes::OFFSET_STUNNED, "AttrStunned"),
        (CharacterAttributes::OFFSET_SLEEP, "AttrSleep"),
        (CharacterAttributes::OFFSET_FLY, "AttrFly"),
        (CharacterAttributes::OFFSET_JUMP_PACK, "AttrJumppack"),
        (CharacterAttributes::OFFSET_TELEPORT, "AttrTeleport"),
        (CharacterAttributes::OFFSET_UNTOUCHABLE, "AttrUntouchable"),
        (CharacterAttributes::OFFSET_INTANGIBLE, "AttrIntangible"),
        (CharacterAttributes::OFFSET_ONLY_AFFECTS_SELF, "AttrOnlyAffectsSelf"),
        (CharacterAttributes::OFFSET_EXPERIENCE_GAIN, "AttrExperienceGain"),
        (CharacterAttributes::OFFSET_INFLUENCE_GAIN, "AttrInfluenceGain"),
        (CharacterAttributes::OFFSET_PRESTIGE_GAIN, "AttrPrestigeGain"),
        (CharacterAttributes::OFFSET_EVADE, "AttrNullBool"),
        (CharacterAttributes::OFFSET_KNOCKUP, "AttrKnockup"),
        (CharacterAttributes::OFFSET_KNOCKBACK, "AttrKnock"),
        (CharacterAttributes::OFFSET_REPEL, "AttrRepel"),
        (CharacterAttributes::OFFSET_ACCURACY, "AttrAccuracy"),
        (CharacterAttributes::OFFSET_RADIUS, "AttrRadius"),
        (CharacterAttributes::OFFSET_ARC, "AttrArc"),
        (CharacterAttributes::OFFSET_RANGE, "AttrRange"),
        (CharacterAttributes::OFFSET_TIME_TO_ACTIVATE, "AttrTimeToActivate"),
        (CharacterAttributes::OFFSET_RECHARGE_TIME, "AttrRechargeTime"),
        (CharacterAttributes::OFFSET_INTERRUPT_TIME, "AttrInterruptTime"),
        (CharacterAttributes::OFFSET_ENDURANCE_DISCOUNT, "AttrEnduranceDiscount"),
        (CharacterAttributes::OFFSET_ELUSIVITY_0, "AttrDefenseType[0]"),
        (CharacterAttributes::OFFSET_ELUSIVITY_1, "AttrDefenseType[1]"),
        (CharacterAttributes::OFFSET_ELUSIVITY_2, "AttrDefenseType[2]"),
        (CharacterAttributes::OFFSET_ELUSIVITY_3, "AttrDefenseType[3]"),
        (CharacterAttributes::OFFSET_ELUSIVITY_4, "AttrDefenseType[4]"),
        (CharacterAttributes::OFFSET_ELUSIVITY_5, "AttrDefenseType[5]"),
        (CharacterAttributes::OFFSET_ELUSIVITY_6, "AttrDefenseType[6]"),
        (CharacterAttributes::OFFSET_ELUSIVITY_7, "AttrDefenseType[7]"),
        (CharacterAttributes::OFFSET_ELUSIVITY_8, "AttrDefenseType[8]"),
        (CharacterAttributes::OFFSET_ELUSIVITY_9, "AttrDefenseType[9]"),
        (CharacterAttributes::OFFSET_ELUSIVITY_10, "AttrDefenseType[10]"),
        (CharacterAttributes::OFFSET_ELUSIVITY_11, "AttrDefenseType[11]"),
        (CharacterAttributes::OFFSET_ELUSIVITY_12, "AttrDefenseType[12]"),
        (CharacterAttributes::OFFSET_ELUSIVITY_13, "AttrDefenseType[13]"),
        (CharacterAttributes::OFFSET_ELUSIVITY_14, "AttrDefenseType[14]"),
        (CharacterAttributes::OFFSET_ELUSIVITY_15, "AttrDefenseType[15]"),
        (CharacterAttributes::OFFSET_ELUSIVITY_16, "AttrDefenseType[16]"),
        (CharacterAttributes::OFFSET_ELUSIVITY_17, "AttrDefenseType[17]"),
        (CharacterAttributes::OFFSET_ELUSIVITY_18, "AttrDefenseType[18]"),
        (CharacterAttributes::OFFSET_ELUSIVITY_19, "AttrDefenseType[19]"),
        (CharacterAttributes::OFFSET_ELUSIVITY_BASE, "AttrDefense"),
    ];
    reveal(attribute_keys);
    table
}

/// The display names that the message store holds for the first `n` of
/// the `attribute_keys`, each under the offset of its attribute.
pub open spec fn attribute_names(messages: &MessageStore, n: nat) -> Map<usize, Option<Seq<char>>>
    decreases n,
{
    if n == 0 || n > attribute_keys().len() {
        Map::empty()
    } else {
        attribute_names(messages, (n - 1) as nat).insert(
            attribute_keys()[n - 1].0,
            messages.message(attribute_keys()[n - 1].1),
        )
    }
}

/// Whether `found` holds the texts of `wanted`, under the same offsets.
pub open spec fn names_match(
    found: Map<usize, Option<String>>,
    wanted: Map<usize, Option<Seq<char>>>,
) -> bool {
    &&& found.dom() == wanted.dom()
    &&& forall|offset: usize| #[trigger]
        found.contains_key(offset) ==> found[offset].deep_view() == wanted[offset]
}

/// Looks up the display names of the attributes of a character.
fn read_attribute_names(messages: &MessageStore) -> (names: HashMap<usize, Option<String>>)
    ensures
        names_match(names@, attribute_names(messages, attribute_keys().len())),
{
    let table = attribute_key_table();
    let mut names: HashMap<usize, Option<String>> = HashMap::new();
    let mut i: usize = 0;
    while i < table.len()
        invariant
            i <= table.len(),
            table.deep_view() == attribute_keys(),
            names_match(names@, attribute_names(messages, i as nat)),
        decreases table.len() - i,
    {
        let offset = table[i].0;
        let text = match messages.get_message(table[i].1) {
            Some(m) => Some(m.clone()),
            None => None,
        };
        names.insert(offset, text);
        i = i + 1;
    }
    names
}

impl BinReadable for AttribName {
    open spec fn scan(c: Cursor, strings: &StringPool) -> Cursor {
        let frame = c.frame();
        let p0 = c.advance(4);
        let p1 = p0.advance(4);
        let p2 = p1.advance(4);
        let p3 = p2.advance(4);
        p3.close(frame)
    }

    open spec fn decoded(
        c: Cursor,
        strings: &StringPool,
        messages: &MessageStore,
        value: &AttribName,
    ) -> bool {
        let p0 = c.advance(4);
        let p1 = p0.advance(4);
        let p2 = p1.advance(4);
        &&& value.pch_name.deep_view() == p0.text(strings, messages)
        &&& value.pch_display_name.deep_view() == p1.text(strings, messages)
        &&& value.pch_icon_name.deep_view() == p2.text(strings, messages)
    }

    fn read_value(reader: &mut BinReader, strings: &StringPool, messages: &MessageStore) -> (value:
        AttribName) {
        let frame = reader.open_frame();
        let pch_name = reader.read_pool_string(strings, messages);
        let pch_display_name = reader.read_pool_string(strings, messages);
        let pch_icon_name = reader.read_pool_string(strings, messages);
        reader.close_frame(frame);
        AttribName {
            pch_name,
            pch_display_name,
            pch_icon_name,
        }
    }

    proof fn lemma_scan(c: Cursor, strings: &StringPool) {
    }
}

impl BinReadable for AttribNames {
    open spec fn scan(c: Cursor, strings: &StringPool) -> Cursor {
        let frame = c.frame();
        let p0 = c.advance(4);
        let p1 = Vec::<AttribName>::scan(p0, strings);
        let p2 = Vec::<AttribName>::scan(p1, strings);
        let p3 = Vec::<AttribName>::scan(p2, strings);
        let p4 = Vec::<AttribName>::scan(p3, strings);
        let p5 = Vec::<AttribName>::scan(p4, strings);
        let p6 = Vec::<AttribName>::scan(p5, strings);
        let p7 = Vec::<AttribName>::scan(p6, strings);
        p7.close(frame)
    }

    open spec fn decoded(
        c: Cursor,
        strings: &StringPool,
        messages: &MessageStore,
        value: &AttribNames,
    ) -> bool {
        let p0 = c.advance(4);
        let p1 = Vec::<AttribName>::scan(p0, strings);
        let p2 = Vec::<AttribName>::scan(p1, strings);
        let p3 = Vec::<AttribName>::scan(p2, strings);
        let p4 = Vec::<AttribName>::scan(p3, strings);
        let p5 = Vec::<AttribName>::scan(p4, strings);
        let p6 = Vec::<AttribName>::scan(p5, strings);
        &&& Vec::<AttribName>::decoded(p0, strings, messages, &value.pp_damage)
        &&& Vec::<AttribName>::decoded(p1, strings, messages, &value.pp_defense)
        &&& Vec::<AttribName>::decoded(p2, strings, messages, &value.pp_boost)
        &&& Vec::<AttribName>::decoded(p3, strings, messages, &value.pp_group)
        &&& Vec::<AttribName>::decoded(p4, strings, messages, &value.pp_mode)
        &&& Vec::<AttribName>::decoded(p5, strings, messages, &value.pp_elusivity)
        &&& Vec::<AttribName>::decoded(p6, strings, messages, &value.pp_stack_key)
        &&& names_match(value.attr_names@, attribute_names(messages, attribute_keys().len()))
    }

    fn read_value(reader: &mut BinReader, strings: &StringPool, messages: &MessageStore) -> (value:
        AttribNames) {
        let frame = reader.open_frame();
        let ghost at_pp_damage = reader@;
        let pp_damage = Vec::<AttribName>::read_value(reader, strings, messages);
        proof {
            Vec::<AttribName>::lemma_scan(at_pp_damage, strings);
        }
        let ghost at_pp_defense = reader@;
        let pp_defense = Vec::<AttribName>::read_value(reader, strings, messages);
        proof {
            Vec::<AttribName>::lemma_scan(at_pp_defense, strings);
        }
        let ghost at_pp_boost = reader@;
        let pp_boost = Vec::<AttribName>::read_value(reader, strings, messages);
        proof {
            Vec::<AttribName>::lemma_scan(at_pp_boost, strings);
        }
        let ghost at_pp_group = reader@;
        let pp_group = Vec::<AttribName>::read_value(reader, strings, messages);
        proof {
            Vec::<AttribName>::lemma_scan(at_pp_group, strings);
        }
        let ghost at_pp_mode = reader@;
        let pp_mode = Vec::<AttribName>::read_value(reader, strings, messages);
        proof {
            Vec::<AttribName>::lemma_scan(at_pp_mode, strings);
        }
        let ghost at_pp_elusivity = reader@;
        let pp_elusivity = Vec::<AttribName>::read_value(reader, strings, messages);
        proof {
            Vec::<AttribName>::lemma_scan(at_pp_elusivity, strings);
        }
        let ghost at_pp_stack_key = reader@;
        let pp_stack_key = Vec::<AttribName>::read_value(reader, strings, messages);
        proof {
            Vec::<AttribName>::lemma_scan(at_pp_stack_key, strings);
        }
        let attr_names = read_attribute_names(messages);
        reader.close_frame(frame);
        AttribNames {
            pp_defense,
            pp_damage,
            pp_boost,
            pp_group,
            pp_mode,
            pp_elusivity,
            pp_stack_key,
            attr_names,
        }
    }

    proof fn lemma_scan(c: Cursor, strings: &StringPool) {
        Vec::<AttribName>::lemma_scan(c, strings);
    }
}

} // verus!
