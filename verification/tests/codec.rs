use powers_dict::bin_parse::archetypes::{
    find_last, make_class_key, serialized_read_archetypes,
};
use powers_dict::bin_parse::attribs::serialized_read_attribs;
use powers_dict::bin_parse::boost_sets::serialized_read_boost_sets;
use powers_dict::bin_parse::params::read_attrib_mod_params;
use powers_dict::bin_parse::powercats::serialized_read_power_categories;
use powers_dict::bin_parse::powers::serialized_read_powers;
use powers_dict::bin_parse::powersets::serialized_read_powersets;
use powers_dict::bin_parse::reader::{bin_read, bin_read_arr, BinReadable};
use powers_dict::bin_parse::villains::serialized_read_villains;
use powers_dict::bin_parse::{
    open_serialized, read_struct_length, serialized_read_string_pool, verify_struct_length,
    BinReader, ParseError, ParseErrorKind, to_pe,
};
use powers_dict::structs::{
    AttribModParam, AttribModTemplate, AttribName, CharacterAttributes,
    CharacterAttributesTable, EffectGroup, Float32, MessageStore, ModDuration, ModTarget,
    NameKey, PowerEvent, PowerFX, PowerSystem, PowerType, SpecialAttrib, StringPool,
    SuppressPair, TextMessage, RGBA,
};

fn u32_le(out: &mut Vec<u8>, value: u32) {
    out.extend_from_slice(&value.to_le_bytes());
}

fn i32_le(out: &mut Vec<u8>, value: i32) {
    out.extend_from_slice(&value.to_le_bytes());
}

fn f32_le(out: &mut Vec<u8>, value: f32) {
    out.extend_from_slice(&value.to_le_bytes());
}

fn zeros(out: &mut Vec<u8>, count: usize) {
    out.extend(std::iter::repeat(0u8).take(count));
}

fn pascal(out: &mut Vec<u8>, text: &str) {
    out.extend_from_slice(&(text.len() as u16).to_le_bytes());
    out.extend_from_slice(text.as_bytes());
}

fn pascal_padded(out: &mut Vec<u8>, text: &str) {
    pascal(out, text);
    zeros(out, (4 - (text.len() + 2) % 4) % 4);
}

fn framed(body: &[u8]) -> Vec<u8> {
    let mut out = Vec::new();
    u32_le(&mut out, body.len() as u32);
    out.extend_from_slice(body);
    out
}

fn framed_as(declared: u32, body: &[u8]) -> Vec<u8> {
    let mut out = Vec::new();
    u32_le(&mut out, declared);
    out.extend_from_slice(body);
    out
}

/// A string pool under construction: returns the offset of each text added.
fn add_text(pool: &mut Vec<u8>, text: &str) -> u32 {
    if pool.is_empty() {
        pool.push(0);
    }
    let offset = pool.len() as u32;
    pool.extend_from_slice(text.as_bytes());
    pool.push(0);
    offset
}

fn none() -> (StringPool, MessageStore) {
    (StringPool::new(Vec::new()), MessageStore::new())
}

fn kind<T>(result: Result<T, ParseError>) -> ParseErrorKind {
    match result {
        Ok(_) => panic!("decoding was to fail"),
        Err(e) => e.kind(),
    }
}

#[test]
fn scalars_are_little_endian() {
    let mut data = Vec::new();
    u32_le(&mut data, 0x0403_0201);
    i32_le(&mut data, -2);
    i32_le(&mut data, i32::MIN);
    u32_le(&mut data, 0);
    u32_le(&mut data, 2);
    f32_le(&mut data, 1.5);
    data.extend_from_slice(&[0x34, 0x12]);
    let mut reader = BinReader::new(data);
    assert_eq!(reader.read_u32(), 0x0403_0201);
    assert_eq!(reader.read_i32(), -2);
    assert_eq!(reader.read_i32(), i32::MIN);
    assert_eq!(reader.read_bool(), false);
    assert_eq!(reader.read_bool(), true);
    assert_eq!(f32::from_bits(reader.read_float().to_bits()), 1.5);
    assert_eq!(reader.read_u16(), 0x1234);
    assert_eq!(reader.position(), 26);
    assert!(reader.is_ok());
    assert_eq!(reader.fault(), None);
}

#[test]
fn reading_past_the_end_is_a_read_error_that_is_kept() {
    let mut reader = BinReader::new(vec![1, 2, 3]);
    assert_eq!(reader.read_u32(), 0);
    assert_eq!(reader.fault(), Some(ParseErrorKind::ReadError));
    assert_eq!(reader.read_u16(), 0);
    assert_eq!(reader.read_pascal_string(), "");
    reader.fail(ParseErrorKind::WrongFileType);
    assert_eq!(reader.fault(), Some(ParseErrorKind::ReadError));
    assert_eq!(kind(reader.finish(5)), ParseErrorKind::ReadError);
    let empty = BinReader::new(Vec::new());
    assert_eq!(empty.finish(5).ok(), Some(5));
}

#[test]
fn colours_and_vectors() {
    let (strings, messages) = none();
    let mut data = Vec::new();
    u32_le(&mut data, 0x101);
    u32_le(&mut data, 2);
    u32_le(&mut data, 0xff);
    u32_le(&mut data, 0x1_00);
    f32_le(&mut data, 1.0);
    f32_le(&mut data, -2.0);
    f32_le(&mut data, 0.5);
    let mut reader = BinReader::new(data);
    let colour = RGBA::read_value(&mut reader, &strings, &messages);
    assert_eq!(colour, RGBA::new(1, 2, 255, 0));
    let vector = powers_dict::structs::Vec3::read_value(&mut reader, &strings, &messages);
    assert_eq!(f32::from_bits(vector.x.bits), 1.0);
    assert_eq!(f32::from_bits(vector.y.bits), -2.0);
    assert_eq!(f32::from_bits(vector.z.bits), 0.5);
    assert!(reader.is_ok());
}

#[test]
fn pascal_strings_and_their_padding() {
    // (4 - (length + 2) mod 4) mod 4 bytes of padding follow the text
    let cases = [("", 2u64), ("a", 1), ("ab", 0), ("abc", 3), ("abcd", 2), ("abcde", 1), ("abcdef", 0)];
    for (text, padding) in cases.iter() {
        let mut data = Vec::new();
        pascal(&mut data, text);
        zeros(&mut data, 8);
        let mut plain = BinReader::new(data.clone());
        assert_eq!(plain.read_pascal_string(), *text);
        assert_eq!(plain.position(), 2 + text.len() as u64);
        let mut padded = BinReader::new(data);
        assert_eq!(padded.read_pascal_string_with_padding(), *text);
        assert_eq!(padded.position(), 2 + text.len() as u64 + padding);
        assert_eq!(padded.position() % 4, 0);
        assert!(padded.is_ok());
    }
}

#[test]
fn pascal_string_faults() {
    let mut short = BinReader::new(vec![5, 0, b'a', b'b']);
    assert_eq!(short.read_pascal_string(), "");
    assert_eq!(short.fault(), Some(ParseErrorKind::ReadError));
    let mut bad = BinReader::new(vec![2, 0, 0xff, 0xfe]);
    assert_eq!(bad.read_pascal_string(), "");
    assert_eq!(bad.fault(), Some(ParseErrorKind::StringConversion));
    // padding that the data do not hold is found by the next read only
    let mut end = BinReader::new(vec![1, 0, b'x']);
    assert_eq!(end.read_pascal_string_with_padding(), "x");
    assert!(end.is_ok());
    assert_eq!(end.position(), 4);
    assert_eq!(end.read_u32(), 0);
    assert_eq!(end.fault(), Some(ParseErrorKind::ReadError));
}

fn attrib_name_record(declared: u32, fields: usize) -> Vec<u8> {
    let mut body = Vec::new();
    for _ in 0..fields {
        u32_le(&mut body, 0);
    }
    framed_as(declared, &body)
}

#[test]
fn a_record_of_the_announced_length_decodes() {
    let (strings, messages) = none();
    let mut reader = BinReader::new(attrib_name_record(12, 3));
    let name = bin_read::<AttribName>(&mut reader, &strings, &messages);
    assert!(name.is_ok());
    assert_eq!(reader.position(), 16);
}

#[test]
fn a_record_one_byte_off_is_a_size_mismatch() {
    let (strings, messages) = none();
    // the record announces one byte more than its fields take
    let mut data = attrib_name_record(13, 3);
    data.push(0);
    let mut reader = BinReader::new(data);
    assert_eq!(
        kind(bin_read::<AttribName>(&mut reader, &strings, &messages)),
        ParseErrorKind::SizeMismatch { expected_bytes: 13, read_bytes: 12 }
    );
    // the record announces one byte less than its fields take
    let mut reader = BinReader::new(attrib_name_record(11, 3));
    assert_eq!(
        kind(bin_read::<AttribName>(&mut reader, &strings, &messages)),
        ParseErrorKind::SizeMismatch { expected_bytes: 11, read_bytes: 12 }
    );
    // the data end within the record
    let mut data = attrib_name_record(12, 3);
    data.pop();
    let mut reader = BinReader::new(data);
    assert_eq!(
        kind(bin_read::<AttribName>(&mut reader, &strings, &messages)),
        ParseErrorKind::ReadError
    );
}

#[test]
fn struct_length_is_read_and_verified() {
    let mut data = Vec::new();
    u32_le(&mut data, 8);
    zeros(&mut data, 12);
    let mut reader = BinReader::new(data);
    reader.skip(0);
    let (expected, begin) = read_struct_length(&mut reader).ok().unwrap();
    assert_eq!((expected, begin), (8, 4));
    reader.skip(8);
    assert_eq!(verify_struct_length(17, expected, begin, &mut reader).ok(), Some(17));
    reader.skip(1);
    assert_eq!(
        kind(verify_struct_length(17, expected, begin, &mut reader)),
        ParseErrorKind::SizeMismatch { expected_bytes: 8, read_bytes: 9 }
    );
    let mut reader = BinReader::new(vec![7, 0, 0, 0, 1, 2, 3, 4, 5, 6, 7]);
    let (expected, begin) = read_struct_length(&mut reader).ok().unwrap();
    reader.skip(6);
    assert_eq!(
        kind(verify_struct_length((), expected, begin, &mut reader)),
        ParseErrorKind::SizeMismatch { expected_bytes: 7, read_bytes: 6 }
    );
    let mut reader = BinReader::new(vec![7, 0]);
    assert_eq!(kind(read_struct_length(&mut reader)), ParseErrorKind::ReadError);
}

#[test]
fn pool_strings_and_names() {
    let mut pool = Vec::new();
    let hello = add_text(&mut pool, "Hello");
    let key = add_text(&mut pool, "P100");
    let strings = StringPool::new(pool);
    let mut messages = MessageStore::new();
    messages.messages = vec![String::from("Localized")];
    messages.message_ids.insert(String::from("P100"), TextMessage::new(0, 0, None));
    let mut data = Vec::new();
    u32_le(&mut data, hello);
    u32_le(&mut data, key);
    u32_le(&mut data, 0);
    u32_le(&mut data, 9999);
    u32_le(&mut data, key);
    // an array of four texts, of which two hold nothing
    u32_le(&mut data, 4);
    u32_le(&mut data, key);
    u32_le(&mut data, 0);
    u32_le(&mut data, hello);
    u32_le(&mut data, 7777);
    // an array of three names, of which one holds nothing
    u32_le(&mut data, 3);
    u32_le(&mut data, 0);
    u32_le(&mut data, hello);
    u32_le(&mut data, key);
    let mut reader = BinReader::new(data);
    assert_eq!(reader.read_pool_string(&strings, &messages), Some(String::from("Hello")));
    assert_eq!(reader.read_pool_string(&strings, &messages), Some(String::from("Localized")));
    assert_eq!(reader.read_pool_string(&strings, &messages), None);
    assert_eq!(reader.read_pool_string(&strings, &messages), None);
    assert_eq!(reader.read_name_key(&strings).map(|n| n.get().to_string()), Some(String::from("P100")));
    assert_eq!(reader.read_pool_string_arr(&strings, &messages), vec!["Localized", "Hello"]);
    let names = reader.read_name_key_arr(&strings);
    assert_eq!(names.len(), 2);
    assert_eq!(names[0].get(), "Hello");
    assert_eq!(names[1].get(), "P100");
    assert!(reader.is_ok());
    assert_eq!(reader.position(), 56);
}

#[test]
fn arrays_of_numbers() {
    let (strings, messages) = none();
    let mut data = Vec::new();
    u32_le(&mut data, 3);
    i32_le(&mut data, 1);
    i32_le(&mut data, -1);
    i32_le(&mut data, 7);
    u32_le(&mut data, 0);
    u32_le(&mut data, 2);
    u32_le(&mut data, 5);
    let mut reader = BinReader::new(data);
    assert_eq!(bin_read_arr::<i32>(&mut reader, &strings, &messages), vec![1, -1, 7]);
    assert_eq!(bin_read_arr::<i32>(&mut reader, &strings, &messages), Vec::<i32>::new());
    reader.read_u32_arr();
    assert_eq!(reader.fault(), Some(ParseErrorKind::ReadError));
}

#[test]
fn suppress_pair_fields_in_order() {
    let (strings, messages) = none();
    let mut body = Vec::new();
    i32_le(&mut body, -3);
    u32_le(&mut body, 15);
    u32_le(&mut body, 1);
    let mut reader = BinReader::new(framed(&body));
    let pair = bin_read::<SuppressPair>(&mut reader, &strings, &messages).ok().unwrap();
    assert_eq!(pair.idx_event, -3);
    assert_eq!(pair.ul_seconds, 15);
    assert_eq!(pair.b_always, true);
}

#[test]
fn character_attributes_take_their_size() {
    let (strings, messages) = none();
    let mut body = Vec::new();
    for i in 0..115 {
        f32_le(&mut body, i as f32);
    }
    assert_eq!(body.len(), 460);
    let mut reader = BinReader::new(framed(&body));
    let attribs = bin_read::<CharacterAttributes>(&mut reader, &strings, &messages).ok().unwrap();
    assert_eq!(attribs.f_damage_type.len(), 20);
    assert_eq!(f32::from_bits(attribs.f_damage_type[7].bits), 7.0);
    assert_eq!(f32::from_bits(attribs.f_hit_points.bits), 20.0);
    assert_eq!(f32::from_bits(attribs.f_absorb.bits), 21.0);
    assert_eq!(f32::from_bits(attribs.f_to_hit.bits), 25.0);
    assert_eq!(f32::from_bits(attribs.f_defense_type[0].bits), 26.0);
    assert_eq!(f32::from_bits(attribs.f_defense.bits), 46.0);
    assert_eq!(f32::from_bits(attribs.f_meter.bits), 93.0);
    assert_eq!(f32::from_bits(attribs.f_elusivity[19].bits), 113.0);
    assert_eq!(f32::from_bits(attribs.f_elusivity_base.bits), 114.0);
    assert_eq!(CharacterAttributes::OFFSET_HIT_POINTS, 80);
    assert_eq!(CharacterAttributes::OFFSET_ELUSIVITY_BASE, 456);
}

#[test]
fn attribute_tables_read_the_defense_twice() {
    let (strings, messages) = none();
    let mut body = Vec::new();
    // 20 tables of damage, then hit points, endurance, insight, rage, to hit
    zeros(&mut body, 4 * 25);
    // 20 tables of defense
    zeros(&mut body, 4 * 20);
    // defense: two numbers
    u32_le(&mut body, 2);
    f32_le(&mut body, 1.0);
    f32_le(&mut body, 2.0);
    // the tables from the running speed to the meter, and 20 of elusivity
    zeros(&mut body, 4 * (47 + 20));
    // defense again: one number, and absorb: one number
    u32_le(&mut body, 1);
    f32_le(&mut body, 3.0);
    u32_le(&mut body, 1);
    f32_le(&mut body, 4.0);
    let mut reader = BinReader::new(framed(&body));
    let table = bin_read::<CharacterAttributesTable>(&mut reader, &strings, &messages).ok().unwrap();
    let defense: Vec<f32> = table.pf_defense.iter().map(|f| f32::from_bits(f.bits)).collect();
    assert_eq!(defense, vec![1.0, 2.0, 3.0]);
    assert_eq!(table.pf_absorb.len(), 1);
    assert_eq!(f32::from_bits(table.pf_absorb[0].bits), 4.0);
    assert_eq!(table.pf_elusivity_base.len(), 0);
    assert_eq!(table.pf_damage_type.len(), 20);
    assert_eq!(table.pf_elusivity.len(), 20);
    assert_eq!(table.pf_meter.len(), 0);
}

fn template_body(target: u32, duration: f32, flags: (u32, u32), params: &[u8]) -> Vec<u8> {
    let mut body = Vec::new();
    // the attributes: one, a special one
    u32_le(&mut body, 1);
    i32_le(&mut body, 461);
    u32_le(&mut body, 8);
    u32_le(&mut body, 3);
    u32_le(&mut body, 99);
    u32_le(&mut body, target);
    u32_le(&mut body, 0);
    u32_le(&mut body, 0);
    f32_le(&mut body, 1.0);
    f32_le(&mut body, duration);
    f32_le(&mut body, 2.0);
    zeros(&mut body, 8);
    zeros(&mut body, 12);
    zeros(&mut body, 4);
    u32_le(&mut body, 1);
    u32_le(&mut body, 77);
    i32_le(&mut body, 4);
    i32_le(&mut body, 5);
    // the events that cancel: two, of which one is unknown
    u32_le(&mut body, 2);
    u32_le(&mut body, 5);
    u32_le(&mut body, 500);
    // one suppress pair
    u32_le(&mut body, 1);
    let mut pair = Vec::new();
    i32_le(&mut pair, 1);
    u32_le(&mut pair, 2);
    u32_le(&mut pair, 0);
    body.extend_from_slice(&framed(&pair));
    i32_le(&mut body, 1460);
    u32_le(&mut body, flags.0);
    u32_le(&mut body, flags.1);
    u32_le(&mut body, 0);
    u32_le(&mut body, 0);
    body.extend_from_slice(params);
    body
}

fn entcreate_params(entity: u32, redirects: &[u32]) -> Vec<u8> {
    let mut out = Vec::new();
    u32_le(&mut out, 3);
    let mut body = Vec::new();
    u32_le(&mut body, entity);
    zeros(&mut body, 20);
    zeros(&mut body, 12);
    u32_le(&mut body, redirects.len() as u32);
    for r in redirects {
        u32_le(&mut body, *r);
    }
    out.extend_from_slice(&framed(&body));
    out
}

#[test]
fn attrib_mod_template_fields() {
    let mut pool = Vec::new();
    let pet = add_text(&mut pool, "Pets_Wolf");
    let strings = StringPool::new(pool);
    let messages = MessageStore::new();
    let body = template_body(2, -1.0, (1 << 4, 1 << 10), &entcreate_params(pet, &[]));
    let mut reader = BinReader::new(framed(&body));
    let template = bin_read::<AttribModTemplate>(&mut reader, &strings, &messages).ok().unwrap();
    assert_eq!(template.p_attrib, vec![SpecialAttrib::kSpecialAttrib_EntCreate]);
    assert_eq!(template.off_aspect, 8);
    assert_eq!(template.e_target, ModTarget::kModTarget_Focus);
    assert_eq!(template.f_duration, ModDuration::kModDuration_Instant);
    assert_eq!(f32::from_bits(template.f_magnitude.bits), 2.0);
    assert_eq!(
        template.pi_cancel_events,
        vec![PowerEvent::kPowerEvent_Hit, PowerEvent::kPowerEvent_Activate]
    );
    assert_eq!(template.pp_suppress.len(), 1);
    assert_eq!(template.pp_suppress[0].ul_seconds, 2);
    assert_eq!(template.boost_mod_allowed, SpecialAttrib::kSpecialAttrib_PowerRedirect);
    assert_eq!(template.i_flags.bits(), (1 << 4) | (1u64 << 42));
    assert_eq!(template.i_flags.get_strings(), vec!["IgnoreStrength", "PetCommandable"]);
    assert!(template.p_target_info.is_none());
    assert!(template.p_messages.is_none());
    match template.p_params {
        Some(AttribModParam::EntCreate(block)) => {
            assert_eq!(block.pch_entity_def.unwrap().get(), "Pets_Wolf");
            assert!(!block.resolved);
            assert!(block.villain_def.is_none());
            assert_eq!(block.power_refs.len(), 0);
            assert_eq!(block.redirects.len(), 0);
        },
        _ => panic!("an entity block was to be decoded"),
    }
}

#[test]
fn parameter_blocks_by_their_number() {
    let (strings, messages) = none();
    let mut reader = BinReader::new(vec![0, 0, 0, 0]);
    assert!(read_attrib_mod_params(&mut reader, &strings, &messages).is_none());
    assert!(reader.is_ok());
    // a costume block
    let mut data = Vec::new();
    u32_le(&mut data, 1);
    let mut body = Vec::new();
    u32_le(&mut body, 0);
    i32_le(&mut body, 9);
    data.extend_from_slice(&framed(&body));
    let mut reader = BinReader::new(data);
    match read_attrib_mod_params(&mut reader, &strings, &messages) {
        Some(AttribModParam::Costume(c)) => assert_eq!(c.i_priority, 9),
        _ => panic!("a costume block was to be decoded"),
    }
    assert!(reader.is_ok());
    // a block of ten numbers
    let mut data = Vec::new();
    u32_le(&mut data, 11);
    let mut body = Vec::new();
    for i in 0..10 {
        i32_le(&mut body, i);
    }
    data.extend_from_slice(&framed(&body));
    let mut reader = BinReader::new(data);
    match read_attrib_mod_params(&mut reader, &strings, &messages) {
        Some(AttribModParam::Param11(p)) => {
            assert_eq!(p.i_unknown_3, 2);
            assert_eq!(p.f_unknown_4.bits, 3);
            assert_eq!(p.i_unknown_6, 5);
        },
        _ => panic!("the eleventh block was to be decoded"),
    }
    // a block whose record is one byte short
    let mut data = Vec::new();
    u32_le(&mut data, 6);
    data.extend_from_slice(&framed_as(3, &[0, 0, 0, 0]));
    let mut reader = BinReader::new(data);
    read_attrib_mod_params(&mut reader, &strings, &messages);
    assert_eq!(
        reader.fault(),
        Some(ParseErrorKind::SizeMismatch { expected_bytes: 3, read_bytes: 4 })
    );
}

#[test]
fn an_unknown_parameter_block_is_a_fault() {
    let (strings, messages) = none();
    let mut data = Vec::new();
    u32_le(&mut data, 12);
    data.extend_from_slice(&framed(&[0, 0, 0, 0]));
    let mut reader = BinReader::new(data);
    assert!(read_attrib_mod_params(&mut reader, &strings, &messages).is_none());
    assert_eq!(reader.fault(), Some(ParseErrorKind::UnknownParameterBlock { struct_id: 12 }));
    // within a template the fault ends the decoding
    let mut params = Vec::new();
    u32_le(&mut params, 99);
    params.extend_from_slice(&framed(&[]));
    let body = template_body(0, 1.0, (0, 0), &params);
    let mut reader = BinReader::new(framed(&body));
    assert_eq!(
        kind(bin_read::<AttribModTemplate>(&mut reader, &strings, &messages)),
        ParseErrorKind::UnknownParameterBlock { struct_id: 99 }
    );
}

fn group_body(chance: f32, templates: &[Vec<u8>], groups: &[Vec<u8>]) -> Vec<u8> {
    let mut body = Vec::new();
    u32_le(&mut body, 0);
    f32_le(&mut body, chance);
    zeros(&mut body, 16);
    u32_le(&mut body, 0);
    u32_le(&mut body, 0xff);
    u32_le(&mut body, 3);
    u32_le(&mut body, templates.len() as u32);
    for t in templates {
        body.extend_from_slice(&framed(t));
    }
    u32_le(&mut body, groups.len() as u32);
    for g in groups {
        body.extend_from_slice(&framed(g));
    }
    body
}

#[test]
fn effect_groups_hold_effect_groups() {
    let (strings, messages) = none();
    let leaf = group_body(0.25, &[], &[]);
    let middle = group_body(0.5, &[template_body(0, 5.0, (0, 0), &[0, 0, 0, 0])], &[leaf.clone(), leaf]);
    let root = group_body(1.0, &[], &[middle]);
    let mut reader = BinReader::new(framed(&root));
    let group = bin_read::<EffectGroup>(&mut reader, &strings, &messages).ok().unwrap();
    assert_eq!(f32::from_bits(group.f_chance.bits), 1.0);
    assert_eq!(group.i_flags.bits(), 15);
    assert_eq!(group.i_eval_flags, 3);
    assert_eq!(group.pp_effects.len(), 1);
    assert_eq!(group.pp_effects[0].pp_templates.len(), 1);
    assert_eq!(
        group.pp_effects[0].pp_templates[0].f_duration,
        ModDuration::InSeconds(Float32::from_bits(5.0f32.to_bits()))
    );
    assert_eq!(group.pp_effects[0].pp_effects.len(), 2);
    assert_eq!(f32::from_bits(group.pp_effects[0].pp_effects[1].f_chance.bits), 0.25);
    assert_eq!(group.pp_effects[0].pp_effects[1].pp_effects.len(), 0);
    // a group that announces a group that is not there
    let mut broken = group_body(1.0, &[], &[]);
    let at = broken.len() - 4;
    broken[at] = 1;
    let mut reader = BinReader::new(framed(&broken));
    assert_eq!(
        kind(bin_read::<EffectGroup>(&mut reader, &strings, &messages)),
        ParseErrorKind::ReadError
    );
}

#[test]
fn power_fx_defaults_for_frames() {
    let (strings, messages) = none();
    let mut body = Vec::new();
    zeros(&mut body, 204);
    let mut reader = BinReader::new(body.clone());
    let fx = bin_read::<PowerFX>(&mut reader, &strings, &messages).ok().unwrap();
    assert_eq!(fx.i_frames_before_hit, 15);
    assert_eq!(fx.i_frames_attack, 35);
    assert_eq!(fx.i_initial_frames_before_hit, 15);
    assert_eq!(fx.i_frames_before_secondary_hit, 0);
    assert_eq!(reader.position(), 204);
    body[120..124].copy_from_slice(&7i32.to_le_bytes());
    body[132..136].copy_from_slice(&(-1i32).to_le_bytes());
    body[136..140].copy_from_slice(&20i32.to_le_bytes());
    body[168..172].copy_from_slice(&0x1ffu32.to_le_bytes());
    body[200..204].copy_from_slice(&1u32.to_le_bytes());
    let mut reader = BinReader::new(body);
    let fx = bin_read::<PowerFX>(&mut reader, &strings, &messages).ok().unwrap();
    assert_eq!(fx.i_frames_before_hit, 7);
    assert_eq!(fx.i_frames_attack, -1);
    assert_eq!(fx.i_initial_frames_before_hit, 20);
    assert_eq!(fx.rgba_default_tint_primary, RGBA::new(255, 0, 0, 0));
    assert!(fx.b_hide_original);
    assert!(!fx.b_important);
    assert!(fx.pch_source_file.is_none());
}

fn header() -> Vec<u8> {
    let mut out = Vec::new();
    out.extend_from_slice(b"CrypticS");
    u32_le(&mut out, 0xdead_beef);
    pascal(&mut out, "Parse7");
    out
}

fn with_pool(pool: &[u8]) -> Vec<u8> {
    let mut out = header();
    u32_le(&mut out, pool.len() as u32);
    out.extend_from_slice(pool);
    zeros(&mut out, (4 - pool.len() % 4) % 4);
    out
}

fn table_file(pool: &[u8], records: &[Vec<u8>]) -> Vec<u8> {
    let mut out = with_pool(pool);
    let mut body = Vec::new();
    u32_le(&mut body, records.len() as u32);
    for r in records {
        body.extend_from_slice(&framed(r));
    }
    out.extend_from_slice(&framed(&body));
    out
}

fn open(data: Vec<u8>) -> (BinReader, StringPool) {
    let mut reader = open_serialized(data).ok().unwrap();
    let strings = serialized_read_string_pool(&mut reader).ok().unwrap();
    (reader, strings)
}

#[test]
fn the_header_is_checked() {
    let reader = open_serialized(header()).ok().unwrap();
    assert_eq!(reader.position(), 20);
    let mut wrong = header();
    wrong[7] = b's';
    assert_eq!(kind(open_serialized(wrong)), ParseErrorKind::MissingCrypticSig);
    let mut other = header();
    other[19] = b'6';
    assert_eq!(kind(open_serialized(other)), ParseErrorKind::WrongFileType);
    let mut longer = Vec::new();
    longer.extend_from_slice(b"CrypticS");
    u32_le(&mut longer, 1);
    pascal(&mut longer, "Parse77");
    assert_eq!(kind(open_serialized(longer)), ParseErrorKind::WrongFileType);
    assert_eq!(kind(open_serialized(b"Cryptic".to_vec())), ParseErrorKind::ReadError);
    assert_eq!(kind(open_serialized(Vec::new())), ParseErrorKind::ReadError);
    let mut short = header();
    short.truncate(19);
    assert_eq!(kind(open_serialized(short)), ParseErrorKind::ReadError);
    // the signature is looked at before the rest
    assert_eq!(kind(open_serialized(b"NotABin!".to_vec())), ParseErrorKind::MissingCrypticSig);
}

#[test]
fn the_string_pool_is_padded_to_a_multiple_of_four() {
    for (texts, padding) in [(vec!["abc"], 3usize), (vec!["abcd"], 2), (vec!["a", "b"], 3), (vec!["abcdef"], 0)] {
        let mut pool = Vec::new();
        for t in texts.iter() {
            add_text(&mut pool, t);
        }
        assert_eq!((4 - pool.len() % 4) % 4, padding);
        let mut data = with_pool(&pool);
        u32_le(&mut data, 0x1234);
        let (mut reader, strings) = open(data);
        assert_eq!(strings.get_string(1), Some(texts[0]));
        assert_eq!(reader.position() as usize, 20 + 4 + pool.len() + padding);
        assert_eq!(reader.read_u32(), 0x1234);
    }
    // the empty pool
    let (reader, strings) = open(with_pool(&[]));
    assert_eq!(strings.get_string(1), None);
    assert_eq!(reader.position(), 24);
}

#[test]
fn string_pool_faults() {
    let mut reader = open_serialized(with_pool(&[b'a', 0])).ok().unwrap();
    assert_eq!(kind(serialized_read_string_pool(&mut reader)), ParseErrorKind::StringConversion);
    let mut data = header();
    u32_le(&mut data, 10);
    data.extend_from_slice(&[0, 1, 2]);
    let mut reader = open_serialized(data).ok().unwrap();
    assert_eq!(kind(serialized_read_string_pool(&mut reader)), ParseErrorKind::ReadError);
}

#[test]
fn boost_sets_file() {
    let mut pool = Vec::new();
    let name = add_text(&mut pool, "Crushing_Impact");
    let display = add_text(&mut pool, "Crushing Impact");
    let group = add_text(&mut pool, "Melee Damage");
    let mut set = Vec::new();
    u32_le(&mut set, name);
    u32_le(&mut set, display);
    u32_le(&mut set, group);
    u32_le(&mut set, 0);
    // the powers: a link table of two names
    u32_le(&mut set, 2);
    pascal_padded(&mut set, "Melee.Punching.Jab");
    pascal_padded(&mut set, "Melee.Punching.Haymaker");
    // one list of boosts
    u32_le(&mut set, 1);
    let mut list = Vec::new();
    u32_le(&mut list, 1);
    pascal_padded(&mut list, "Boosts.Crushing_Impact_A.Crushing_Impact_A");
    set.extend_from_slice(&framed(&list));
    // one bonus
    u32_le(&mut set, 1);
    let mut bonus = Vec::new();
    u32_le(&mut bonus, 0);
    i32_le(&mut bonus, 2);
    i32_le(&mut bonus, 6);
    u32_le(&mut bonus, 0);
    u32_le(&mut bonus, 0);
    pascal_padded(&mut bonus, "Set_Bonus.Set_Bonus.Improved_Recovery_1");
    set.extend_from_slice(&framed(&bonus));
    i32_le(&mut set, 10);
    i32_le(&mut set, 50);
    u32_le(&mut set, 0);
    // a second set without a name, which is dropped
    let mut nameless = Vec::new();
    zeros(&mut nameless, 40);
    let (mut reader, strings) = open(table_file(&pool, &[set, nameless]));
    let sets = serialized_read_boost_sets(&mut reader, &strings, &MessageStore::new()).ok().unwrap();
    assert_eq!(sets.len(), 1);
    let found = sets.get(&NameKey::new("crushing_impact")).unwrap();
    assert_eq!(found.pch_display_name, Some(String::from("Crushing Impact")));
    assert_eq!(found.pch_group_name, Some(String::from("Melee Damage")));
    assert_eq!(found.ppch_powers.len(), 2);
    assert_eq!(found.ppch_powers[1].get(), "Melee.Punching.Haymaker");
    assert_eq!(found.pp_boost_lists.len(), 1);
    assert_eq!(found.pp_boost_lists[0].ppch_boosts[0].get(), "Boosts.Crushing_Impact_A.Crushing_Impact_A");
    assert_eq!(found.pp_bonuses.len(), 1);
    assert_eq!(found.pp_bonuses[0].i_min_boosts, 2);
    assert_eq!(found.pp_bonuses[0].i_max_boosts, 6);
    assert_eq!(
        found.pp_bonuses[0].pch_bonus_power.as_ref().unwrap().get(),
        "Set_Bonus.Set_Bonus.Improved_Recovery_1"
    );
    assert_eq!((found.i_min_level, found.i_max_level), (10, 50));
    assert!(reader.is_ok());
}

#[test]
fn an_empty_bonus_power_is_absent() {
    let (strings, messages) = none();
    let mut body = Vec::new();
    zeros(&mut body, 24);
    let mut reader = BinReader::new(framed(&body));
    let bonus = bin_read::<powers_dict::structs::BoostSetBonus>(&mut reader, &strings, &messages).ok().unwrap();
    assert!(bonus.pch_bonus_power.is_none());
    assert_eq!(bonus.ppch_auto_powers.len(), 0);
}

#[test]
fn power_categories_file() {
    let mut pool = Vec::new();
    let melee = add_text(&mut pool, "Melee");
    let punching = add_text(&mut pool, "Melee.Punching");
    let kicking = add_text(&mut pool, "Melee.Kicking");
    let mut category = Vec::new();
    u32_le(&mut category, 0);
    u32_le(&mut category, melee);
    zeros(&mut category, 12);
    u32_le(&mut category, 2);
    u32_le(&mut category, punching);
    u32_le(&mut category, kicking);
    let (mut reader, strings) = open(table_file(&pool, &[category]));
    let categories = serialized_read_power_categories(&mut reader, &strings, &MessageStore::new()).ok().unwrap();
    assert_eq!(categories.len(), 1);
    let found = categories.get(&NameKey::new("MELEE")).unwrap();
    assert_eq!(found.pch_name.as_ref().unwrap().get(), "Melee");
    assert_eq!(found.ppch_power_set_names.len(), 2);
    assert_eq!(found.ppch_power_set_names[1].get(), "Melee.Kicking");
    assert!(!found.top_level);
    assert!(!found.include_in_output);
    assert_eq!(found.pp_power_sets.len(), 0);
    assert_eq!(found.archetypes.len(), 0);
}

#[test]
fn a_category_without_a_name_is_a_fault() {
    let mut nameless = Vec::new();
    zeros(&mut nameless, 24);
    let (mut reader, strings) = open(table_file(&[], &[nameless]));
    assert_eq!(
        kind(serialized_read_power_categories(&mut reader, &strings, &MessageStore::new())),
        ParseErrorKind::MissingNameKey
    );
    // a power set name that holds nothing is one too
    let mut pool = Vec::new();
    let melee = add_text(&mut pool, "Melee");
    let mut category = Vec::new();
    u32_le(&mut category, 0);
    u32_le(&mut category, melee);
    zeros(&mut category, 12);
    u32_le(&mut category, 1);
    u32_le(&mut category, 0);
    let (mut reader, strings) = open(table_file(&pool, &[category]));
    assert_eq!(
        kind(serialized_read_power_categories(&mut reader, &strings, &MessageStore::new())),
        ParseErrorKind::MissingNameKey
    );
    // where the data end in the names, that is a read error
    let mut category = Vec::new();
    u32_le(&mut category, 0);
    u32_le(&mut category, melee);
    zeros(&mut category, 12);
    u32_le(&mut category, 5);
    let mut data = with_pool(&pool);
    let mut body = Vec::new();
    u32_le(&mut body, 1);
    body.extend_from_slice(&framed(&category));
    data.extend_from_slice(&framed(&body));
    let (mut reader, strings) = open(data);
    assert_eq!(
        kind(serialized_read_power_categories(&mut reader, &strings, &MessageStore::new())),
        ParseErrorKind::ReadError
    );
}

#[test]
fn power_sets_file() {
    let mut pool = Vec::new();
    let full = add_text(&mut pool, "Melee.Punching");
    let jab = add_text(&mut pool, "Melee.Punching.Jab");
    let mut set = Vec::new();
    u32_le(&mut set, 0);
    u32_le(&mut set, full);
    u32_le(&mut set, 0);
    u32_le(&mut set, 77);
    zeros(&mut set, 116 - 16 - 32);
    // the power names, and the levels at which they are available
    u32_le(&mut set, 1);
    u32_le(&mut set, jab);
    u32_le(&mut set, 1);
    i32_le(&mut set, 3);
    zeros(&mut set, 20);
    i32_le(&mut set, -1);
    let (mut reader, strings) = open(table_file(&pool, &[set]));
    let sets = serialized_read_powersets(&mut reader, &strings, &MessageStore::new()).ok().unwrap();
    let found = sets.get(&NameKey::new("melee.punching")).unwrap();
    assert_eq!(found.e_system, PowerSystem::kPowerSystem_Powers);
    assert_eq!(found.pp_power_names.len(), 1);
    assert_eq!(found.pp_power_names[0].get(), "Melee.Punching.Jab");
    assert_eq!(found.pi_available, vec![3]);
    assert_eq!(found.i_force_level_bought, -1);
    assert_eq!(found.pp_powers.len(), 0);
    assert!(!found.include_in_output);
}

fn power_record(name: u32, power_type: u32, redirect: Option<u32>) -> Vec<u8> {
    let mut body = Vec::new();
    u32_le(&mut body, name);
    zeros(&mut body, 84);
    u32_le(&mut body, power_type);
    zeros(&mut body, 376 - 92);
    match redirect {
        Some(target) => {
            u32_le(&mut body, 1);
            let mut r = Vec::new();
            u32_le(&mut r, target);
            u32_le(&mut r, 0);
            u32_le(&mut r, 1);
            body.extend_from_slice(&framed(&r));
        },
        None => u32_le(&mut body, 0),
    }
    zeros(&mut body, 820 - 380);
    body
}

#[test]
fn powers_file() {
    let mut pool = Vec::new();
    let jab = add_text(&mut pool, "Melee.Punching.Jab");
    let cross = add_text(&mut pool, "Melee.Punching.Cross");
    let records = vec![power_record(jab, 2, Some(cross)), power_record(cross, 77, None)];
    assert_eq!(records[1].len(), 820);
    let (mut reader, strings) = open(table_file(&pool, &records));
    let powers = serialized_read_powers(&mut reader, &strings, &MessageStore::new()).ok().unwrap();
    assert_eq!(powers.len(), 2);
    let found = powers.get(&NameKey::new("melee.punching.jab")).unwrap();
    assert_eq!(found.pch_full_name.as_ref().unwrap().get(), "Melee.Punching.Jab");
    assert_eq!(found.data.e_type, PowerType::kPowerType_Toggle);
    assert_eq!(found.pp_redirect.len(), 1);
    assert_eq!(found.pp_redirect[0].pch_name.as_ref().unwrap().get(), "Melee.Punching.Cross");
    assert!(found.pp_redirect[0].b_show_in_info);
    assert!(!found.include_in_output);
    assert!(!found.redirects_resolved);
    assert_eq!(found.archetypes.len(), 0);
    let fx = found.data.p_fx.as_ref().unwrap();
    assert_eq!(fx.i_frames_before_hit, 15);
    assert_eq!(fx.i_frames_attack, 35);
    let other = powers.get(&NameKey::new("Melee.Punching.Cross")).unwrap();
    assert_eq!(other.data.e_type, PowerType::kPowerType_Click);
    assert_eq!(other.pp_redirect.len(), 0);
    // a power without a name is a fault
    let (mut reader, strings) = open(table_file(&pool, &[power_record(0, 0, None)]));
    assert_eq!(
        kind(serialized_read_powers(&mut reader, &strings, &MessageStore::new())),
        ParseErrorKind::MissingNameKey
    );
    // a collection whose record is one byte too long
    let mut data = with_pool(&pool);
    let mut body = Vec::new();
    u32_le(&mut body, 1);
    body.extend_from_slice(&framed(&power_record(jab, 0, None)));
    data.extend_from_slice(&framed_as(body.len() as u32 + 1, &body));
    data.push(0);
    let (mut reader, strings) = open(data);
    assert_eq!(
        kind(serialized_read_powers(&mut reader, &strings, &MessageStore::new())),
        ParseErrorKind::SizeMismatch { expected_bytes: 829, read_bytes: 828 }
    );
}

#[test]
fn villains_file() {
    let mut pool = Vec::new();
    let name = add_text(&mut pool, "Pets_Wolf");
    let class = add_text(&mut pool, "Class_Minion_Pets");
    let category = add_text(&mut pool, "Pets");
    let set = add_text(&mut pool, "Wolf");
    let star = add_text(&mut pool, "*");
    let mut villain = Vec::new();
    u32_le(&mut villain, name);
    u32_le(&mut villain, class);
    u32_le(&mut villain, 2);
    zeros(&mut villain, 16);
    i32_le(&mut villain, 5);
    // one power reference
    u32_le(&mut villain, 1);
    let mut reference = Vec::new();
    u32_le(&mut reference, category);
    u32_le(&mut reference, set);
    u32_le(&mut reference, star);
    i32_le(&mut reference, 1);
    i32_le(&mut reference, 0);
    i32_le(&mut reference, 1);
    villain.extend_from_slice(&framed(&reference));
    u32_le(&mut villain, 0);
    u32_le(&mut villain, 10);
    zeros(&mut villain, 8);
    u32_le(&mut villain, 0xff);
    zeros(&mut villain, 140 - 56 - 8);
    u32_le(&mut villain, 0xff);
    u32_le(&mut villain, 0);
    let (mut reader, strings) = open(table_file(&pool, &[villain]));
    let villains = serialized_read_villains(&mut reader, &strings, &MessageStore::new()).ok().unwrap();
    let found = villains.get(&NameKey::new("pets_wolf")).unwrap();
    assert_eq!(found.character_class_name.as_ref().unwrap().get(), "Class_Minion_Pets");
    assert_eq!(found.gender, powers_dict::structs::Gender::GENDER_MALE);
    assert_eq!(found.group, 5);
    assert_eq!(found.rank, powers_dict::structs::VillainRank::VR_PET);
    assert_eq!(found.exclusion.bits(), 7);
    assert_eq!(found.flags.bits(), 13);
    assert_eq!(found.powers.len(), 1);
    assert!(found.powers[0].power.as_ref().unwrap().is_wildcard());
    assert_eq!(found.powers[0].level, 1);
    assert_eq!(found.powers[0].dont_set_stance, 1);
    assert_eq!(found.powers[0].def_level, 0);
    assert_eq!(found.process_age, 0);
}

fn archetype_record(name: u32, primary: u32, tables: &[(u32, f32)]) -> Vec<u8> {
    let mut body = Vec::new();
    u32_le(&mut body, name);
    zeros(&mut body, 48);
    u32_le(&mut body, primary);
    zeros(&mut body, 124 - 56);
    u32_le(&mut body, tables.len() as u32);
    for (table_name, value) in tables {
        let mut table = Vec::new();
        u32_le(&mut table, *table_name);
        u32_le(&mut table, 1);
        f32_le(&mut table, *value);
        body.extend_from_slice(&framed(&table));
    }
    zeros(&mut body, 12);
    body
}

#[test]
fn archetypes_file() {
    let mut pool = Vec::new();
    let blaster = add_text(&mut pool, "Class_Blaster");
    let soldier = add_text(&mut pool, "Arachnos Soldier");
    let ranged = add_text(&mut pool, "Blaster_Ranged");
    let damage = add_text(&mut pool, "Ranged_Damage");
    let damage_again = add_text(&mut pool, "RANGED_DAMAGE");
    let records = vec![
        archetype_record(blaster, ranged, &[(damage, 1.0), (0, 9.0), (damage_again, 2.0)]),
        archetype_record(soldier, 0, &[]),
        archetype_record(0, ranged, &[]),
    ];
    let (mut reader, strings) = open(table_file(&pool, &records));
    let archetypes = serialized_read_archetypes(&mut reader, &strings, &MessageStore::new()).ok().unwrap();
    assert_eq!(archetypes.len(), 2);
    let found = archetypes.get(&NameKey::new("@class_blaster")).unwrap();
    assert_eq!(found.class_key.as_ref().unwrap().get(), "@class_blaster");
    assert_eq!(found.pch_primary_category.as_ref().unwrap().get(), "Blaster_Ranged");
    assert_eq!(found.pp_named_tables.len(), 3);
    let table = found.get_named_table("Ranged_Damage").unwrap();
    assert_eq!(f32::from_bits(table.pf_values[0].bits), 2.0);
    assert!(found.get_named_table("ranged_damage").is_some());
    assert!(found.get_named_table("Melee_Damage").is_none());
    assert_eq!(found.pp_attrib_diminishing_str.len(), 2);
    let other = archetypes.get(&NameKey::new("@Class_Arachnos_Soldier")).unwrap();
    assert_eq!(other.class_key.as_ref().unwrap().get(), "@class_arachnos_soldier");
    assert!(other.pch_primary_category.is_none());
}

#[test]
fn class_keys() {
    assert_eq!(make_class_key("Class_Blaster").get(), "@class_blaster");
    assert_eq!(make_class_key("Blaster").get(), "@class_blaster");
    assert_eq!(make_class_key("Arachnos Widow").get(), "@class_arachnos_widow");
    assert_eq!(make_class_key("CLASS BOSS").get(), "@class_boss");
    assert_eq!(make_class_key("class").get(), "@class_class");
    assert_eq!(make_class_key("").get(), "@class_");
}

#[test]
fn attribute_names_file() {
    let mut pool = Vec::new();
    let smashing = add_text(&mut pool, "Smashing");
    let display = add_text(&mut pool, "M7");
    let mut name = Vec::new();
    u32_le(&mut name, smashing);
    u32_le(&mut name, display);
    u32_le(&mut name, 0);
    let mut body = Vec::new();
    u32_le(&mut body, 1);
    body.extend_from_slice(&framed(&name));
    u32_le(&mut body, 2);
    body.extend_from_slice(&framed(&name));
    body.extend_from_slice(&framed(&name));
    zeros(&mut body, 20);
    let mut data = with_pool(&pool);
    data.extend_from_slice(&framed(&body));
    let mut messages = MessageStore::new();
    messages.messages = vec![String::from("Smashing Damage"), String::from("Hit Points"), String::from("Defense")];
    messages.message_ids.insert(String::from("M7"), TextMessage::new(0, 0, None));
    messages.message_ids.insert(String::from("AttrHitPoints"), TextMessage::new(1, 0, None));
    messages.message_ids.insert(String::from("AttrDefense"), TextMessage::new(2, 0, None));
    let (mut reader, strings) = open(data);
    let names = serialized_read_attribs(&mut reader, &strings, &messages).ok().unwrap();
    assert_eq!(names.pp_damage.len(), 1);
    assert_eq!(names.pp_defense.len(), 2);
    assert_eq!(names.pp_boost.len(), 0);
    assert_eq!(names.pp_damage[0].pch_name, Some(String::from("Smashing")));
    assert_eq!(names.pp_damage[0].pch_display_name, Some(String::from("Smashing Damage")));
    assert_eq!(names.pp_damage[0].pch_icon_name, None);
    assert_eq!(names.attr_names.len(), 113);
    assert_eq!(names.attr_names.get(&80), Some(&Some(String::from("Hit Points"))));
    assert_eq!(names.attr_names.get(&184), Some(&Some(String::from("Defense"))));
    assert_eq!(names.attr_names.get(&456), Some(&Some(String::from("Defense"))));
    assert_eq!(names.attr_names.get(&0), Some(&None));
    assert_eq!(names.attr_names.get(&368), None);
    assert_eq!(names.attr_names.get(&372), None);
    assert_eq!(names.attr_names.get(&2), None);
}

#[test]
fn an_error_of_the_operating_system_is_kept() {
    let error = ParseError::from_io_error(std::io::Error::from(std::io::ErrorKind::NotFound));
    assert_eq!(error.kind(), ParseErrorKind::ReadError);
    assert_eq!(
        error.get_io_error_ref().map(|e| e.kind()),
        Some(std::io::ErrorKind::NotFound)
    );
    let error = to_pe(std::io::Error::from(std::io::ErrorKind::PermissionDenied));
    assert_eq!(error.kind(), ParseErrorKind::ReadError);
    assert_eq!(
        error.get_io_error_ref().map(|e| e.kind()),
        Some(std::io::ErrorKind::PermissionDenied)
    );
    let plain = ParseError::new(ParseErrorKind::WrongFileType);
    assert_eq!(plain.kind(), ParseErrorKind::WrongFileType);
    assert!(plain.get_io_error_ref().is_none());
}

#[test]
fn the_last_of_equal_keys_is_found() {
    let keys = vec![
        Some(String::from("melee_damage")),
        None,
        Some(String::from("ranged_damage")),
        Some(String::from("melee_damage")),
        Some(String::from("Melee_Damage")),
    ];
    assert_eq!(find_last(&keys, &String::from("melee_damage")), Some(3));
    assert_eq!(find_last(&keys, &String::from("ranged_damage")), Some(2));
    assert_eq!(find_last(&keys, &String::from("Melee_Damage")), Some(4));
    assert_eq!(find_last(&keys, &String::from("melee")), None);
    assert_eq!(find_last(&Vec::new(), &String::from("melee_damage")), None);
}

#[test]
fn a_size_mismatch_leaves_the_reader_where_the_fields_ended() {
    let mut data = Vec::new();
    u32_le(&mut data, 8);
    zeros(&mut data, 12);
    let mut reader = BinReader::new(data);
    let (expected, begin) = read_struct_length(&mut reader).unwrap();
    reader.skip(9);
    assert_eq!(reader.position(), 13);
    let error = verify_struct_length((), expected, begin, &mut reader).unwrap_err();
    assert_eq!(
        error.kind(),
        ParseErrorKind::SizeMismatch { expected_bytes: 8, read_bytes: 9 }
    );
    assert!(error.get_io_error_ref().is_none());
    assert_eq!(reader.position(), 13);
    // a later read changes nothing
    reader.read_u32();
    assert_eq!(reader.position(), 13);
    // where the counts agree the reader stays as well
    let mut data = Vec::new();
    u32_le(&mut data, 8);
    zeros(&mut data, 12);
    let mut reader = BinReader::new(data);
    let (expected, begin) = read_struct_length(&mut reader).unwrap();
    reader.skip(8);
    assert_eq!(verify_struct_length(5, expected, begin, &mut reader).unwrap(), 5);
    assert_eq!(reader.position(), 12);
}

#[test]
fn a_read_error_stops_where_the_data_end_and_tells_so() {
    let mut reader = BinReader::new(vec![1, 0, 0, 0, 2, 0]);
    assert_eq!(reader.read_u32(), 1);
    reader.read_u32();
    assert_eq!(reader.fault(), Some(ParseErrorKind::ReadError));
    assert_eq!(reader.position(), 4);
    let error = reader.finish(()).unwrap_err();
    assert_eq!(error.kind(), ParseErrorKind::ReadError);
    assert_eq!(
        error.get_io_error_ref().map(|e| e.kind()),
        Some(std::io::ErrorKind::UnexpectedEof)
    );
    let error = ParseError::of_fault(ParseErrorKind::MissingNameKey);
    assert_eq!(error.kind(), ParseErrorKind::MissingNameKey);
    assert!(error.get_io_error_ref().is_none());
    let error = open_serialized(b"Cryp".to_vec()).unwrap_err();
    assert_eq!(error.kind(), ParseErrorKind::ReadError);
    assert!(error.get_io_error_ref().is_some());
    let error = open_serialized(b"NotABin!".to_vec()).unwrap_err();
    assert_eq!(error.kind(), ParseErrorKind::MissingCrypticSig);
    assert!(error.get_io_error_ref().is_none());
}

#[test]
fn an_array_is_read_entry_by_entry() {
    // three numbers are announced and two are there
    let mut data = Vec::new();
    u32_le(&mut data, 3);
    u32_le(&mut data, 10);
    u32_le(&mut data, 11);
    data.push(0);
    let mut reader = BinReader::new(data);
    reader.read_u32_arr();
    assert_eq!(reader.fault(), Some(ParseErrorKind::ReadError));
    assert_eq!(reader.position(), 12);
}

#[test]
fn required_names_end_at_the_first_that_is_missing() {
    let mut pool = Vec::new();
    let melee = add_text(&mut pool, "Melee");
    let strings = StringPool::checked(pool).unwrap();
    // the second of three names holds nothing
    let mut data = Vec::new();
    u32_le(&mut data, 3);
    u32_le(&mut data, melee);
    u32_le(&mut data, 0);
    u32_le(&mut data, melee);
    let mut reader = BinReader::new(data);
    reader.read_required_name_key_arr(&strings);
    assert_eq!(reader.fault(), Some(ParseErrorKind::MissingNameKey));
    assert_eq!(reader.position(), 12);
    // the data end before the second of three names
    let mut data = Vec::new();
    u32_le(&mut data, 3);
    u32_le(&mut data, melee);
    data.push(1);
    let mut reader = BinReader::new(data);
    reader.read_required_name_key_arr(&strings);
    assert_eq!(reader.fault(), Some(ParseErrorKind::ReadError));
    assert_eq!(reader.position(), 8);
    // all three are there
    let mut data = Vec::new();
    u32_le(&mut data, 3);
    u32_le(&mut data, melee);
    u32_le(&mut data, melee);
    u32_le(&mut data, melee);
    let mut reader = BinReader::new(data);
    let names = reader.read_required_name_key_arr(&strings);
    assert!(reader.is_ok());
    assert_eq!(names.len(), 3);
    assert_eq!(reader.position(), 16);
}
