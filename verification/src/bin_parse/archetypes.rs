//! The decoder of the files of archetypes.

use super::cursor::Cursor;
use super::reader::{
    bin_read_n, decoded_arr, decoded_n, lemma_scan_n_kept, scan_n, BinReadable, BinReader,
};
use super::{read_keyed, decoded_keyed, scan_keyed, Named, ParseResult};
use crate::structs::namekey::ascii_lowercase;
use vstd::string::StringExecFns;
use crate::structs::archetype::Archetype;
use crate::structs::attribs::{CharacterAttributes, CharacterAttributesTable, NamedTable};
use crate::structs::keyed::Keyed;
use crate::structs::namekey::{fold, NameKey};
use crate::structs::strings::{MessageStore, StringPool};
use crate::structs::Float32;
use vstd::prelude::*;

verus! {

/// Reads all of the archetypes in the file: a record that holds an array of
/// them. Each is kept under its name; one without a name is dropped.
pub fn serialized_read_archetypes(
    reader: &mut BinReader,
    strings: &StringPool,
    messages: &MessageStore,
) -> (result: ParseResult<Keyed<Archetype>>)
    ensures
        final(reader)@ == scan_keyed::<Archetype>(old(reader)@, strings),
        match result {
            Ok(table) => final(reader)@.ok() && table.wf() && decoded_keyed::<Archetype>(
                old(reader)@,
                strings,
                messages,
                table@,
            ),
            Err(e) => final(reader)@.fault == Some(e.kind()) && e.wraps_cause(),
        },
{
    read_keyed::<Archetype>(reader, strings, messages)
}

impl Named for Archetype {
    open spec fn key(&self) -> Option<Seq<char>> {
        self.class_key.deep_view()
    }

    fn name_key(&self) -> (name: Option<&NameKey>) {
        self.class_key.as_ref()
    }
}

/// The text with each character that is `from` replaced by the text `to`.
pub open spec fn replaced(text: Seq<char>, from: char, to: Seq<char>) -> Seq<char>
    decreases text.len(),
{
    if text.len() == 0 {
        Seq::empty()
    } else {
        (if text[0] == from {
            to
        } else {
            seq![text[0]]
        }) + replaced(text.drop_first(), from, to)
    }
}

/// The text with each space replaced by an underscore.
pub open spec fn underscored(text: Seq<char>) -> Seq<char> {
    replaced(text, ' ', seq!['_'])
}

/// Whether `text` begins with `prefix`.
pub open spec fn has_prefix(text: Seq<char>, prefix: Seq<char>) -> bool {
    prefix.len() <= text.len() && text.subrange(0, prefix.len() as int) == prefix
}

/// The key under which the archetype with the given name is kept: an at
/// sign, the word `class_` unless the name begins with it, and the name in
/// small letters with underscores for spaces.
pub open spec fn class_key_text(name: Seq<char>) -> Seq<char> {
    let plain = underscored(fold(name));
    if has_prefix(plain, "class_"@) {
        "@"@ + plain
    } else {
        "@"@ + "class_"@ + plain
    }
}

/// The key of an archetype with the given name, if it has a name.
pub open spec fn class_key_of(name: Option<Seq<char>>) -> Option<Seq<char>> {
    match name {
        Some(n) => Some(class_key_text(n)),
        None => None,
    }
}

/// `str::replace` of std, for a character as the pattern: a copy of the
/// text in which every `from` is replaced by the text `to`.
#[verifier::external_body]
fn replace_char(text: &str, from: char, to: &str) -> (changed: String)
    ensures
        changed@ == replaced(text@, from, to@),
{
    text.replace(from, to)
}

/// `str::starts_with` of std: whether the text begins with the prefix.
#[verifier::external_body]
fn starts_with(text: &str, prefix: &str) -> (yes: bool)
    ensures
        yes == has_prefix(text@, prefix@),
{
    text.starts_with(prefix)
}

/// Makes the key under which the archetype with the given name is kept.
pub fn make_class_key(name: &str) -> (key: NameKey)
    ensures
        key@ == class_key_text(name@),
{
    let lower = ascii_lowercase(name);
    let plain = replace_char(lower.as_str(), ' ', "_");
    proof {
        reveal_strlit("_");
        assert("_"@ =~= seq!['_']);
    }
    let mut key = String::from_str("@");
    if !starts_with(plain.as_str(), "class_") {
        key.append("class_");
    }
    key.append(plain.as_str());
    NameKey::new(key.as_str())
}

/// The text in lower case, as `str::to_lowercase` of std gives it: the
/// lower case of Unicode, which depends on nothing but the text.
pub uninterp spec fn lowercase(text: Seq<char>) -> Seq<char>;

/// `str::to_lowercase` of std: the text in lower case.
#[verifier::external_body]
fn to_lowercase(text: &str) -> (lower: String)
    ensures
        lower@ == lowercase(text@),
{
    text.to_lowercase()
}

/// The position of the last of the first `n` of `keys` that is `key`.
pub open spec fn last_position(keys: Seq<Option<Seq<char>>>, key: Seq<char>, n: nat) -> Option<
    int,
>
    decreases n,
{
    if n == 0 || n > keys.len() {
        None
    } else if keys[n - 1] == Some(key) {
        Some(n - 1)
    } else {
        last_position(keys, key, (n - 1) as nat)
    }
}

/// A position that is found is one of the first `n`, and `key` stands
/// there.
pub proof fn lemma_last_position(keys: Seq<Option<Seq<char>>>, key: Seq<char>, n: nat)
    ensures
        match last_position(keys, key, n) {
            Some(i) => 0 <= i < n && i < keys.len() && keys[i] == Some(key),
            None => true,
        },
    decreases n,
{
    if 0 < n <= keys.len() && keys[n - 1] != Some(key) {
        lemma_last_position(keys, key, (n - 1) as nat);
    }
}

/// Finds the last of `keys` that is `key`.
pub fn find_last(keys: &Vec<Option<String>>, key: &String) -> (found: Option<usize>)
    ensures
        match last_position(keys.deep_view(), key@, keys.len() as nat) {
            Some(i) => found == Some(i as usize),
            None => found is None,
        },
{
    let mut i = keys.len();
    while i > 0
        invariant
            i <= keys.len(),
            last_position(keys.deep_view(), key@, keys.len() as nat) == last_position(
                keys.deep_view(),
                key@,
                i as nat,
            ),
        decreases i,
    {
        i = i - 1;
        match &keys[i] {
            Some(text) => {
                if *text == *key {
                    return Some(i);
                }
            },
            None => {},
        }
    }
    None
}

/// The names of the tables in lower case, each where its table stands.
pub open spec fn lowered_names(tables: Seq<NamedTable>) -> Seq<Option<Seq<char>>> {
    Seq::new(
        tables.len(),
        |i: int|
            match tables[i].pch_name {
                Some(name) => Some(lowercase(name@)),
                None => None,
            },
    )
}

/// The position of the table that is found under `key`: the last whose
/// name in lower case is `key`.
pub open spec fn named_table_position(tables: Seq<NamedTable>, key: Seq<char>) -> Option<int> {
    last_position(lowered_names(tables), key, tables.len())
}

impl Archetype {
    /// Gets the named table of the archetype that is found under `name`:
    /// names are compared in lower case, and of two tables with one name
    /// the later counts.
    pub fn get_named_table(&self, name: &str) -> (table: Option<&NamedTable>)
        ensures
            match named_table_position(self.pp_named_tables@, lowercase(name@)) {
                Some(i) => table == Some(&self.pp_named_tables@[i]),
                None => table is None,
            },
    {
        let key = to_lowercase(name);
        let mut keys: Vec<Option<String>> = Vec::new();
        let mut i: usize = 0;
        while i < self.pp_named_tables.len()
            invariant
                i <= self.pp_named_tables@.len(),
                keys.deep_view() == lowered_names(self.pp_named_tables@).take(i as int),
            decreases self.pp_named_tables@.len() - i,
        {
            let ghost before = keys.deep_view();
            let lowered = match &self.pp_named_tables[i].pch_name {
                Some(table_name) => Some(to_lowercase(table_name.as_str())),
                None => None,
            };
            keys.push(lowered);
            i = i + 1;
            assert(keys.deep_view() =~= before.push(lowered.deep_view()));
        }
        assert(keys.deep_view() =~= lowered_names(self.pp_named_tables@));
        proof {
            lemma_last_position(keys.deep_view(), key@, keys.len() as nat);
        }
        match find_last(&keys, &key) {
            Some(at) => Some(&self.pp_named_tables[at]),
            None => None,
        }
    }
}

impl BinReadable for CharacterAttributes {
    open spec fn scan(c: Cursor, strings: &StringPool) -> Cursor {
        let frame = c.frame();
        let p0 = c.advance(4);
        let p1 = scan_n::<Float32>(p0, strings, 20);
        let p2 = p1.advance(4);
        let p3 = p2.advance(4);
        let p4 = p3.advance(4);
        let p5 = p4.advance(4);
        let p6 = p5.advance(4);
        let p7 = p6.advance(4);
        let p8 = scan_n::<Float32>(p7, strings, 20);
        let p9 = p8.advance(4);
        let p10 = p9.advance(4);
        let p11 = p10.advance(4);
        let p12 = p11.advance(4);
        let p13 = p12.advance(4);
        let p14 = p13.advance(4);
        let p15 = p14.advance(4);
        let p16 = p15.advance(4);
        let p17 = p16.advance(4);
        let p18 = p17.advance(4);
        let p19 = p18.advance(4);
        let p20 = p19.advance(4);
        let p21 = p20.advance(4);
        let p22 = p21.advance(4);
        let p23 = p22.advance(4);
        let p24 = p23.advance(4);
        let p25 = p24.advance(4);
        let p26 = p25.advance(4);
        let p27 = p26.advance(4);
        let p28 = p27.advance(4);
        let p29 = p28.advance(4);
        let p30 = p29.advance(4);
        let p31 = p30.advance(4);
        let p32 = p31.advance(4);
        let p33 = p32.advance(4);
        let p34 = p33.advance(4);
        let p35 = p34.advance(4);
        let p36 = p35.advance(4);
        let p37 = p36.advance(4);
        let p38 = p37.advance(4);
        let p39 = p38.advance(4);
        let p40 = p39.advance(4);
        let p41 = p40.advance(4);
        let p42 = p41.advance(4);
        let p43 = p42.advance(4);
        let p44 = p43.advance(4);
        let p45 = p44.advance(4);
        let p46 = p45.advance(4);
        let p47 = p46.advance(4);
        let p48 = p47.advance(4);
        let p49 = p48.advance(4);
        let p50 = p49.advance(4);
        let p51 = p50.advance(4);
        let p52 = p51.advance(4);
        let p53 = p52.advance(4);
        let p54 = p53.advance(4);
        let p55 = p54.advance(4);
        let p56 = p55.advance(4);
        let p57 = scan_n::<Float32>(p56, strings, 20);
        let p58 = p57.advance(4);
        p58.close(frame)
    }

    open spec fn decoded(
        c: Cursor,
        strings: &StringPool,
        messages: &MessageStore,
        value: &CharacterAttributes,
    ) -> bool {
        let p0 = c.advance(4);
        let p1 = scan_n::<Float32>(p0, strings, 20);
        let p2 = p1.advance(4);
        let p3 = p2.advance(4);
        let p4 = p3.advance(4);
        let p5 = p4.advance(4);
        let p6 = p5.advance(4);
        let p7 = p6.advance(4);
        let p8 = scan_n::<Float32>(p7, strings, 20);
        let p9 = p8.advance(4);
        let p10 = p9.advance(4);
        let p11 = p10.advance(4);
        let p12 = p11.advance(4);
        let p13 = p12.advance(4);
        let p14 = p13.advance(4);
        let p15 = p14.advance(4);
        let p16 = p15.advance(4);
        let p17 = p16.advance(4);
        let p18 = p17.advance(4);
        let p19 = p18.advance(4);
        let p20 = p19.advance(4);
        let p21 = p20.advance(4);
        let p22 = p21.advance(4);
        let p23 = p22.advance(4);
        let p24 = p23.advance(4);
        let p25 = p24.advance(4);
        let p26 = p25.advance(4);
        let p27 = p26.advance(4);
        let p28 = p27.advance(4);
        let p29 = p28.advance(4);
        let p30 = p29.advance(4);
        let p31 = p30.advance(4);
        let p32 = p31.advance(4);
        let p33 = p32.advance(4);
        let p34 = p33.advance(4);
        let p35 = p34.advance(4);
        let p36 = p35.advance(4);
        let p37 = p36.advance(4);
        let p38 = p37.advance(4);
        let p39 = p38.advance(4);
        let p40 = p39.advance(4);
        let p41 = p40.advance(4);
        let p42 = p41.advance(4);
        let p43 = p42.advance(4);
        let p44 = p43.advance(4);
        let p45 = p44.advance(4);
        let p46 = p45.advance(4);
        let p47 = p46.advance(4);
        let p48 = p47.advance(4);
        let p49 = p48.advance(4);
        let p50 = p49.advance(4);
        let p51 = p50.advance(4);
        let p52 = p51.advance(4);
        let p53 = p52.advance(4);
        let p54 = p53.advance(4);
        let p55 = p54.advance(4);
        let p56 = p55.advance(4);
        let p57 = scan_n::<Float32>(p56, strings, 20);
        &&& value.f_damage_type@.len() == 20
        &&& decoded_n::<Float32>(p0, strings, messages, value.f_damage_type@)
        &&& value.f_hit_points == p1.float32()
        &&& value.f_absorb == p2.float32()
        &&& value.f_endurance == p3.float32()
        &&& value.f_insight == p4.float32()
        &&& value.f_rage == p5.float32()
        &&& value.f_to_hit == p6.float32()
        &&& value.f_defense_type@.len() == 20
        &&& decoded_n::<Float32>(p7, strings, messages, value.f_defense_type@)
        &&& value.f_defense == p8.float32()
        &&& value.f_speed_running == p9.float32()
        &&& value.f_speed_flying == p10.float32()
        &&& value.f_speed_swimming == p11.float32()
        &&& value.f_speed_jumping == p12.float32()
        &&& value.f_jump_height == p13.float32()
        &&& value.f_movement_control == p14.float32()
        &&& value.f_movement_friction == p15.float32()
        &&& value.f_stealth == p16.float32()
        &&& value.f_stealth_radius == p17.float32()
        &&& value.f_stealth_radius_player == p18.float32()
        &&& value.f_perception_radius == p19.float32()
        &&& value.f_regeneration == p20.float32()
        &&& value.f_recovery == p21.float32()
        &&& value.f_insight_recovery == p22.float32()
        &&& value.f_threat_level == p23.float32()
        &&& value.f_taunt == p24.float32()
        &&& value.f_placate == p25.float32()
        &&& value.f_confused == p26.float32()
        &&& value.f_afraid == p27.float32()
        &&& value.f_terrorized == p28.float32()
        &&& value.f_held == p29.float32()
        &&& value.f_immobilized == p30.float32()
        &&& value.f_stunned == p31.float32()
        &&& value.f_sleep == p32.float32()
        &&& value.f_fly == p33.float32()
        &&& value.f_jump_pack == p34.float32()
        &&& value.f_teleport == p35.float32()
        &&& value.f_untouchable == p36.float32()
        &&& value.f_intangible == p37.float32()
        &&& value.f_only_affects_self == p38.float32()
        &&& value.f_experience_gain == p39.float32()
        &&& value.f_influence_gain == p40.float32()
        &&& value.f_prestige_gain == p41.float32()
        &&& value.f_null_bool == p42.float32()
        &&& value.f_knock_up == p43.float32()
        &&& value.f_knock_back == p44.float32()
        &&& value.f_repel == p45.float32()
        &&& value.f_accuracy == p46.float32()
        &&& value.f_radius == p47.float32()
        &&& value.f_arc == p48.float32()
        &&& value.f_range == p49.float32()
        &&& value.f_time_to_activate == p50.float32()
        &&& value.f_recharge_time == p51.float32()
        &&& value.f_interrupt_time == p52.float32()
        &&& value.f_endurance_discount == p53.float32()
        &&& value.f_insight_discount == p54.float32()
        &&& value.f_meter == p55.float32()
        &&& value.f_elusivity@.len() == 20
        &&& decoded_n::<Float32>(p56, strings, messages, value.f_elusivity@)
        &&& value.f_elusivity_base == p57.float32()
    }

    fn read_value(reader: &mut BinReader, strings: &StringPool, messages: &MessageStore) -> (value:
        CharacterAttributes) {
        let frame = reader.open_frame();
        let ghost at_f_damage_type = reader@;
        let f_damage_type = bin_read_n::<Float32>(reader, 20, strings, messages);
        proof {
            lemma_scan_n_kept::<Float32>(at_f_damage_type, strings, 20);
        }
        let f_hit_points = reader.read_float();
        let f_absorb = reader.read_float();
        let f_endurance = reader.read_float();
        let f_insight = reader.read_float();
        let f_rage = reader.read_float();
        let f_to_hit = reader.read_float();
        let ghost at_f_defense_type = reader@;
        let f_defense_type = bin_read_n::<Float32>(reader, 20, strings, messages);
        proof {
            lemma_scan_n_kept::<Float32>(at_f_defense_type, strings, 20);
        }
        let f_defense = reader.read_float();
        let f_speed_running = reader.read_float();
        let f_speed_flying = reader.read_float();
        let f_speed_swimming = reader.read_float();
        let f_speed_jumping = reader.read_float();
        let f_jump_height = reader.read_float();
        let f_movement_control = reader.read_float();
        let f_movement_friction = reader.read_float();
        let f_stealth = reader.read_float();
        let f_stealth_radius = reader.read_float();
        let f_stealth_radius_player = reader.read_float();
        let f_perception_radius = reader.read_float();
        let f_regeneration = reader.read_float();
        let f_recovery = reader.read_float();
        let f_insight_recovery = reader.read_float();
        let f_threat_level = reader.read_float();
        let f_taunt = reader.read_float();
        let f_placate = reader.read_float();
        let f_confused = reader.read_float();
        let f_afraid = reader.read_float();
        let f_terrorized = reader.read_float();
        let f_held = reader.read_float();
        let f_immobilized = reader.read_float();
        let f_stunned = reader.read_float();
        let f_sleep = reader.read_float();
        let f_fly = reader.read_float();
        let f_jump_pack = reader.read_float();
        let f_teleport = reader.read_float();
        let f_untouchable = reader.read_float();
        let f_intangible = reader.read_float();
        let f_only_affects_self = reader.read_float();
        let f_experience_gain = reader.read_float();
        let f_influence_gain = reader.read_float();
        let f_prestige_gain = reader.read_float();
        let f_null_bool = reader.read_float();
        let f_knock_up = reader.read_float();
        let f_knock_back = reader.read_float();
        let f_repel = reader.read_float();
        let f_accuracy = reader.read_float();
        let f_radius = reader.read_float();
        let f_arc = reader.read_float();
        let f_range = reader.read_float();
        let f_time_to_activate = reader.read_float();
        let f_recharge_time = reader.read_float();
        let f_interrupt_time = reader.read_float();
        let f_endurance_discount = reader.read_float();
        let f_insight_discount = reader.read_float();
        let f_meter = reader.read_float();
        let ghost at_f_elusivity = reader@;
        let f_elusivity = bin_read_n::<Float32>(reader, 20, strings, messages);
        proof {
            lemma_scan_n_kept::<Float32>(at_f_elusivity, strings, 20);
        }
        let f_elusivity_base = reader.read_float();
        reader.close_frame(frame);
        CharacterAttributes {
            f_damage_type,
            f_hit_points,
            f_absorb,
            f_endurance,
            f_insight,
            f_rage,
            f_to_hit,
            f_defense_type,
            f_defense,
            f_speed_running,
            f_speed_flying,
            f_speed_swimming,
            f_speed_jumping,
            f_jump_height,
            f_movement_control,
            f_movement_friction,
            f_stealth,
            f_stealth_radius,
            f_stealth_radius_player,
            f_perception_radius,
            f_regeneration,
            f_recovery,
            f_insight_recovery,
            f_threat_level,
            f_taunt,
            f_placate,
            f_confused,
            f_afraid,
            f_terrorized,
            f_held,
            f_immobilized,
            f_stunned,
            f_sleep,
            f_fly,
            f_jump_pack,
            f_teleport,
            f_untouchable,
            f_intangible,
            f_only_affects_self,
            f_experience_gain,
            f_influence_gain,
            f_prestige_gain,
            f_null_bool,
            f_knock_up,
            f_knock_back,
            f_repel,
            f_accuracy,
            f_radius,
            f_arc,
            f_range,
            f_time_to_activate,
            f_recharge_time,
            f_interrupt_time,
            f_endurance_discount,
            f_insight_discount,
            f_meter,
            f_elusivity,
            f_elusivity_base,
        }
    }

    proof fn lemma_scan(c: Cursor, strings: &StringPool) {
        lemma_scan_n_kept::<Float32>(c, strings, 20);
    }
}

impl BinReadable for CharacterAttributesTable {
    open spec fn scan(c: Cursor, strings: &StringPool) -> Cursor {
        let frame = c.frame();
        let p0 = c.advance(4);
        let p1 = scan_n::<Vec<Float32>>(p0, strings, 20);
        let p2 = Vec::<Float32>::scan(p1, strings);
        let p3 = Vec::<Float32>::scan(p2, strings);
        let p4 = Vec::<Float32>::scan(p3, strings);
        let p5 = Vec::<Float32>::scan(p4, strings);
        let p6 = Vec::<Float32>::scan(p5, strings);
        let p7 = scan_n::<Vec<Float32>>(p6, strings, 20);
        let p8 = Vec::<Float32>::scan(p7, strings);
        let p9 = Vec::<Float32>::scan(p8, strings);
        let p10 = Vec::<Float32>::scan(p9, strings);
        let p11 = Vec::<Float32>::scan(p10, strings);
        let p12 = Vec::<Float32>::scan(p11, strings);
        let p13 = Vec::<Float32>::scan(p12, strings);
        let p14 = Vec::<Float32>::scan(p13, strings);
        let p15 = Vec::<Float32>::scan(p14, strings);
        let p16 = Vec::<Float32>::scan(p15, strings);
        let p17 = Vec::<Float32>::scan(p16, strings);
        let p18 = Vec::<Float32>::scan(p17, strings);
        let p19 = Vec::<Float32>::scan(p18, strings);
        let p20 = Vec::<Float32>::scan(p19, strings);
        let p21 = Vec::<Float32>::scan(p20, strings);
        let p22 = Vec::<Float32>::scan(p21, strings);
        let p23 = Vec::<Float32>::scan(p22, strings);
        let p24 = Vec::<Float32>::scan(p23, strings);
        let p25 = Vec::<Float32>::scan(p24, strings);
        let p26 = Vec::<Float32>::scan(p25, strings);
        let p27 = Vec::<Float32>::scan(p26, strings);
        let p28 = Vec::<Float32>::scan(p27, strings);
        let p29 = Vec::<Float32>::scan(p28, strings);
        let p30 = Vec::<Float32>::scan(p29, strings);
        let p31 = Vec::<Float32>::scan(p30, strings);
        let p32 = Vec::<Float32>::scan(p31, strings);
        let p33 = Vec::<Float32>::scan(p32, strings);
        let p34 = Vec::<Float32>::scan(p33, strings);
        let p35 = Vec::<Float32>::scan(p34, strings);
        let p36 = Vec::<Float32>::scan(p35, strings);
        let p37 = Vec::<Float32>::scan(p36, strings);
        let p38 = Vec::<Float32>::scan(p37, strings);
        let p39 = Vec::<Float32>::scan(p38, strings);
        let p40 = Vec::<Float32>::scan(p39, strings);
        let p41 = Vec::<Float32>::scan(p40, strings);
        let p42 = Vec::<Float32>::scan(p41, strings);
        let p43 = Vec::<Float32>::scan(p42, strings);
        let p44 = Vec::<Float32>::scan(p43, strings);
        let p45 = Vec::<Float32>::scan(p44, strings);
        let p46 = Vec::<Float32>::scan(p45, strings);
        let p47 = Vec::<Float32>::scan(p46, strings);
        let p48 = Vec::<Float32>::scan(p47, strings);
        let p49 = Vec::<Float32>::scan(p48, strings);
        let p50 = Vec::<Float32>::scan(p49, strings);
        let p51 = Vec::<Float32>::scan(p50, strings);
        let p52 = Vec::<Float32>::scan(p51, strings);
        let p53 = Vec::<Float32>::scan(p52, strings);
        let p54 = Vec::<Float32>::scan(p53, strings);
        let p55 = Vec::<Float32>::scan(p54, strings);
        let p56 = scan_n::<Vec<Float32>>(p55, strings, 20);
        let p57 = Vec::<Float32>::scan(p56, strings);
        let p58 = Vec::<Float32>::scan(p57, strings);
        p58.close(frame)
    }

    open spec fn decoded(
        c: Cursor,
        strings: &StringPool,
        messages: &MessageStore,
        value: &CharacterAttributesTable,
    ) -> bool {
        let p0 = c.advance(4);
        let p1 = scan_n::<Vec<Float32>>(p0, strings, 20);
        let p2 = Vec::<Float32>::scan(p1, strings);
        let p3 = Vec::<Float32>::scan(p2, strings);
        let p4 = Vec::<Float32>::scan(p3, strings);
        let p5 = Vec::<Float32>::scan(p4, strings);
        let p6 = Vec::<Float32>::scan(p5, strings);
        let p7 = scan_n::<Vec<Float32>>(p6, strings, 20);
        let p8 = Vec::<Float32>::scan(p7, strings);
        let p9 = Vec::<Float32>::scan(p8, strings);
        let p10 = Vec::<Float32>::scan(p9, strings);
        let p11 = Vec::<Float32>::scan(p10, strings);
        let p12 = Vec::<Float32>::scan(p11, strings);
        let p13 = Vec::<Float32>::scan(p12, strings);
        let p14 = Vec::<Float32>::scan(p13, strings);
        let p15 = Vec::<Float32>::scan(p14, strings);
        let p16 = Vec::<Float32>::scan(p15, strings);
        let p17 = Vec::<Float32>::scan(p16, strings);
        let p18 = Vec::<Float32>::scan(p17, strings);
        let p19 = Vec::<Float32>::scan(p18, strings);
        let p20 = Vec::<Float32>::scan(p19, strings);
        let p21 = Vec::<Float32>::scan(p20, strings);
        let p22 = Vec::<Float32>::scan(p21, strings);
        let p23 = Vec::<Float32>::scan(p22, strings);
        let p24 = Vec::<Float32>::scan(p23, strings);
        let p25 = Vec::<Float32>::scan(p24, strings);
        let p26 = Vec::<Float32>::scan(p25, strings);
        let p27 = Vec::<Float32>::scan(p26, strings);
        let p28 = Vec::<Float32>::scan(p27, strings);
        let p29 = Vec::<Float32>::scan(p28, strings);
        let p30 = Vec::<Float32>::scan(p29, strings);
        let p31 = Vec::<Float32>::scan(p30, strings);
        let p32 = Vec::<Float32>::scan(p31, strings);
        let p33 = Vec::<Float32>::scan(p32, strings);
        let p34 = Vec::<Float32>::scan(p33, strings);
        let p35 = Vec::<Float32>::scan(p34, strings);
        let p36 = Vec::<Float32>::scan(p35, strings);
        let p37 = Vec::<Float32>::scan(p36, strings);
        let p38 = Vec::<Float32>::scan(p37, strings);
        let p39 = Vec::<Float32>::scan(p38, strings);
        let p40 = Vec::<Float32>::scan(p39, strings);
        let p41 = Vec::<Float32>::scan(p40, strings);
        let p42 = Vec::<Float32>::scan(p41, strings);
        let p43 = Vec::<Float32>::scan(p42, strings);
        let p44 = Vec::<Float32>::scan(p43, strings);
        let p45 = Vec::<Float32>::scan(p44, strings);
        let p46 = Vec::<Float32>::scan(p45, strings);
        let p47 = Vec::<Float32>::scan(p46, strings);
        let p48 = Vec::<Float32>::scan(p47, strings);
        let p49 = Vec::<Float32>::scan(p48, strings);
        let p50 = Vec::<Float32>::scan(p49, strings);
        let p51 = Vec::<Float32>::scan(p50, strings);
        let p52 = Vec::<Float32>::scan(p51, strings);
        let p53 = Vec::<Float32>::scan(p52, strings);
        let p54 = Vec::<Float32>::scan(p53, strings);
        let p55 = Vec::<Float32>::scan(p54, strings);
        let p56 = scan_n::<Vec<Float32>>(p55, strings, 20);
        let p57 = Vec::<Float32>::scan(p56, strings);
        &&& value.pf_damage_type@.len() == 20
        &&& decoded_n::<Vec<Float32>>(p0, strings, messages, value.pf_damage_type@)
        &&& Vec::<Float32>::decoded(p1, strings, messages, &value.pf_hit_points)
        &&& Vec::<Float32>::decoded(p2, strings, messages, &value.pf_endurance)
        &&& Vec::<Float32>::decoded(p3, strings, messages, &value.pf_insight)
        &&& Vec::<Float32>::decoded(p4, strings, messages, &value.pf_rage)
        &&& Vec::<Float32>::decoded(p5, strings, messages, &value.pf_to_hit)
        &&& value.pf_defense_type@.len() == 20
        &&& decoded_n::<Vec<Float32>>(p6, strings, messages, value.pf_defense_type@)
        &&& value.pf_defense@.len() == p7.word() + p56.word()
        &&& decoded_arr::<Float32>(p7, strings, messages, value.pf_defense@.take(p7.word() as int))
        &&& decoded_arr::<Float32>(p56, strings, messages, value.pf_defense@.skip(p7.word() as int))
        &&& Vec::<Float32>::decoded(p8, strings, messages, &value.pf_speed_running)
        &&& Vec::<Float32>::decoded(p9, strings, messages, &value.pf_speed_flying)
        &&& Vec::<Float32>::decoded(p10, strings, messages, &value.pf_speed_swimming)
        &&& Vec::<Float32>::decoded(p11, strings, messages, &value.pf_speed_jumping)
        &&& Vec::<Float32>::decoded(p12, strings, messages, &value.pf_jump_height)
        &&& Vec::<Float32>::decoded(p13, strings, messages, &value.pf_movement_control)
        &&& Vec::<Float32>::decoded(p14, strings, messages, &value.pf_movement_friction)
        &&& Vec::<Float32>::decoded(p15, strings, messages, &value.pf_stealth)
        &&& Vec::<Float32>::decoded(p16, strings, messages, &value.pf_stealth_radius)
        &&& Vec::<Float32>::decoded(p17, strings, messages, &value.pf_stealth_radius_player)
        &&& Vec::<Float32>::decoded(p18, strings, messages, &value.pf_perception_radius)
        &&& Vec::<Float32>::decoded(p19, strings, messages, &value.pf_regeneration)
        &&& Vec::<Float32>::decoded(p20, strings, messages, &value.pf_recovery)
        &&& Vec::<Float32>::decoded(p21, strings, messages, &value.pf_insight_recovery)
        &&& Vec::<Float32>::decoded(p22, strings, messages, &value.pf_threat_level)
        &&& Vec::<Float32>::decoded(p23, strings, messages, &value.pf_taunt)
        &&& Vec::<Float32>::decoded(p24, strings, messages, &value.pf_placate)
        &&& Vec::<Float32>::decoded(p25, strings, messages, &value.pf_confused)
        &&& Vec::<Float32>::decoded(p26, strings, messages, &value.pf_afraid)
        &&& Vec::<Float32>::decoded(p27, strings, messages, &value.pf_terrorized)
        &&& Vec::<Float32>::decoded(p28, strings, messages, &value.pf_held)
        &&& Vec::<Float32>::decoded(p29, strings, messages, &value.pf_immobilized)
        &&& Vec::<Float32>::decoded(p30, strings, messages, &value.pf_stunned)
        &&& Vec::<Float32>::decoded(p31, strings, messages, &value.pf_sleep)
        &&& Vec::<Float32>::decoded(p32, strings, messages, &value.pf_fly)
        &&& Vec::<Float32>::decoded(p33, strings, messages, &value.pf_jump_pack)
        &&& Vec::<Float32>::decoded(p34, strings, messages, &value.pf_teleport)
        &&& Vec::<Float32>::decoded(p35, strings, messages, &value.pf_untouchable)
        &&& Vec::<Float32>::decoded(p36, strings, messages, &value.pf_intangible)
        &&& Vec::<Float32>::decoded(p37, strings, messages, &value.pf_only_affects_self)
        &&& Vec::<Float32>::decoded(p38, strings, messages, &value.pf_experience_gain)
        &&& Vec::<Float32>::decoded(p39, strings, messages, &value.pf_influence_gain)
        &&& Vec::<Float32>::decoded(p40, strings, messages, &value.pf_prestige_gain)
        &&& Vec::<Float32>::decoded(p41, strings, messages, &value.pf_null_bool)
        &&& Vec::<Float32>::decoded(p42, strings, messages, &value.pf_knock_up)
        &&& Vec::<Float32>::decoded(p43, strings, messages, &value.pf_knock_back)
        &&& Vec::<Float32>::decoded(p44, strings, messages, &value.pf_repel)
        &&& Vec::<Float32>::decoded(p45, strings, messages, &value.pf_accuracy)
        &&& Vec::<Float32>::decoded(p46, strings, messages, &value.pf_radius)
        &&& Vec::<Float32>::decoded(p47, strings, messages, &value.pf_arc)
        &&& Vec::<Float32>::decoded(p48, strings, messages, &value.pf_range)
        &&& Vec::<Float32>::decoded(p49, strings, messages, &value.pf_time_to_activate)
        &&& Vec::<Float32>::decoded(p50, strings, messages, &value.pf_recharge_time)
        &&& Vec::<Float32>::decoded(p51, strings, messages, &value.pf_interrupt_time)
        &&& Vec::<Float32>::decoded(p52, strings, messages, &value.pf_endurance_discount)
        &&& Vec::<Float32>::decoded(p53, strings, messages, &value.pf_insight_discount)
        &&& Vec::<Float32>::decoded(p54, strings, messages, &value.pf_meter)
        &&& value.pf_elusivity@.len() == 20
        &&& decoded_n::<Vec<Float32>>(p55, strings, messages, value.pf_elusivity@)
        &&& Vec::<Float32>::decoded(p57, strings, messages, &value.pf_absorb)
        &&& value.pf_elusivity_base@.len() == 0
    }

    fn read_value(reader: &mut BinReader, strings: &StringPool, messages: &MessageStore) -> (value:
        CharacterAttributesTable) {
        let frame = reader.open_frame();
        let ghost at_pf_damage_type = reader@;
        let pf_damage_type = bin_read_n::<Vec<Float32>>(reader, 20, strings, messages);
        proof {
            lemma_scan_n_kept::<Vec<Float32>>(at_pf_damage_type, strings, 20);
        }
        let ghost at_pf_hit_points = reader@;
        let pf_hit_points = Vec::<Float32>::read_value(reader, strings, messages);
        proof {
            Vec::<Float32>::lemma_scan(at_pf_hit_points, strings);
        }
        let ghost at_pf_endurance = reader@;
        let pf_endurance = Vec::<Float32>::read_value(reader, strings, messages);
        proof {
            Vec::<Float32>::lemma_scan(at_pf_endurance, strings);
        }
        let ghost at_pf_insight = reader@;
        let pf_insight = Vec::<Float32>::read_value(reader, strings, messages);
        proof {
            Vec::<Float32>::lemma_scan(at_pf_insight, strings);
        }
        let ghost at_pf_rage = reader@;
        let pf_rage = Vec::<Float32>::read_value(reader, strings, messages);
        proof {
            Vec::<Float32>::lemma_scan(at_pf_rage, strings);
        }
        let ghost at_pf_to_hit = reader@;
        let pf_to_hit = Vec::<Float32>::read_value(reader, strings, messages);
        proof {
            Vec::<Float32>::lemma_scan(at_pf_to_hit, strings);
        }
        let ghost at_pf_defense_type = reader@;
        let pf_defense_type = bin_read_n::<Vec<Float32>>(reader, 20, strings, messages);
        proof {
            lemma_scan_n_kept::<Vec<Float32>>(at_pf_defense_type, strings, 20);
        }
        let ghost at_pf_defense = reader@;
        let mut pf_defense = Vec::<Float32>::read_value(reader, strings, messages);
        proof {
            Vec::<Float32>::lemma_scan(at_pf_defense, strings);
        }
        let ghost at_pf_speed_running = reader@;
        let pf_speed_running = Vec::<Float32>::read_value(reader, strings, messages);
        proof {
            Vec::<Float32>::lemma_scan(at_pf_speed_running, strings);
        }
        let ghost at_pf_speed_flying = reader@;
        let pf_speed_flying = Vec::<Float32>::read_value(reader, strings, messages);
        proof {
            Vec::<Float32>::lemma_scan(at_pf_speed_flying, strings);
        }
        let ghost at_pf_speed_swimming = reader@;
        let pf_speed_swimming = Vec::<Float32>::read_value(reader, strings, messages);
        proof {
            Vec::<Float32>::lemma_scan(at_pf_speed_swimming, strings);
        }
        let ghost at_pf_speed_jumping = reader@;
        let pf_speed_jumping = Vec::<Float32>::read_value(reader, strings, messages);
        proof {
            Vec::<Float32>::lemma_scan(at_pf_speed_jumping, strings);
        }
        let ghost at_pf_jump_height = reader@;
        let pf_jump_height = Vec::<Float32>::read_value(reader, strings, messages);
        proof {
            Vec::<Float32>::lemma_scan(at_pf_jump_height, strings);
        }
        let ghost at_pf_movement_control = reader@;
        let pf_movement_control = Vec::<Float32>::read_value(reader, strings, messages);
        proof {
            Vec::<Float32>::lemma_scan(at_pf_movement_control, strings);
        }
        let ghost at_pf_movement_friction = reader@;
        let pf_movement_friction = Vec::<Float32>::read_value(reader, strings, messages);
        proof {
            Vec::<Float32>::lemma_scan(at_pf_movement_friction, strings);
        }
        let ghost at_pf_stealth = reader@;
        let pf_stealth = Vec::<Float32>::read_value(reader, strings, messages);
        proof {
            Vec::<Float32>::lemma_scan(at_pf_stealth, strings);
        }
        let ghost at_pf_stealth_radius = reader@;
        let pf_stealth_radius = Vec::<Float32>::read_value(reader, strings, messages);
        proof {
            Vec::<Float32>::lemma_scan(at_pf_stealth_radius, strings);
        }
        let ghost at_pf_stealth_radius_player = reader@;
        let pf_stealth_radius_player = Vec::<Float32>::read_value(reader, strings, messages);
        proof {
            Vec::<Float32>::lemma_scan(at_pf_stealth_radius_player, strings);
        }
        let ghost at_pf_perception_radius = reader@;
        let pf_perception_radius = Vec::<Float32>::read_value(reader, strings, messages);
        proof {
            Vec::<Float32>::lemma_scan(at_pf_perception_radius, strings);
        }
        let ghost at_pf_regeneration = reader@;
        let pf_regeneration = Vec::<Float32>::read_value(reader, strings, messages);
        proof {
            Vec::<Float32>::lemma_scan(at_pf_regeneration, strings);
        }
        let ghost at_pf_recovery = reader@;
        let pf_recovery = Vec::<Float32>::read_value(reader, strings, messages);
        proof {
            Vec::<Float32>::lemma_scan(at_pf_recovery, strings);
        }
        let ghost at_pf_insight_recovery = reader@;
        let pf_insight_recovery = Vec::<Float32>::read_value(reader, strings, messages);
        proof {
            Vec::<Float32>::lemma_scan(at_pf_insight_recovery, strings);
        }
        let ghost at_pf_threat_level = reader@;
        let pf_threat_level = Vec::<Float32>::read_value(reader, strings, messages);
        proof {
            Vec::<Float32>::lemma_scan(at_pf_threat_level, strings);
        }
        let ghost at_pf_taunt = reader@;
        let pf_taunt = Vec::<Float32>::read_value(reader, strings, messages);
        proof {
            Vec::<Float32>::lemma_scan(at_pf_taunt, strings);
        }
        let ghost at_pf_placate = reader@;
        let pf_placate = Vec::<Float32>::read_value(reader, strings, messages);
        proof {
            Vec::<Float32>::lemma_scan(at_pf_placate, strings);
        }
        let ghost at_pf_confused = reader@;
        let pf_confused = Vec::<Float32>::read_value(reader, strings, messages);
        proof {
            Vec::<Float32>::lemma_scan(at_pf_confused, strings);
        }
        let ghost at_pf_afraid = reader@;
        let pf_afraid = Vec::<Float32>::read_value(reader, strings, messages);
        proof {
            Vec::<Float32>::lemma_scan(at_pf_afraid, strings);
        }
        let ghost at_pf_terrorized = reader@;
        let pf_terrorized = Vec::<Float32>::read_value(reader, strings, messages);
        proof {
            Vec::<Float32>::lemma_scan(at_pf_terrorized, strings);
        }
        let ghost at_pf_held = reader@;
        let pf_held = Vec::<Float32>::read_value(reader, strings, messages);
        proof {
            Vec::<Float32>::lemma_scan(at_pf_held, strings);
        }
        let ghost at_pf_immobilized = reader@;
        let pf_immobilized = Vec::<Float32>::read_value(reader, strings, messages);
        proof {
            Vec::<Float32>::lemma_scan(at_pf_immobilized, strings);
        }
        let ghost at_pf_stunned = reader@;
        let pf_stunned = Vec::<Float32>::read_value(reader, strings, messages);
        proof {
            Vec::<Float32>::lemma_scan(at_pf_stunned, strings);
        }
        let ghost at_pf_sleep = reader@;
        let pf_sleep = Vec::<Float32>::read_value(reader, strings, messages);
        proof {
            Vec::<Float32>::lemma_scan(at_pf_sleep, strings);
        }
        let ghost at_pf_fly = reader@;
        let pf_fly = Vec::<Float32>::read_value(reader, strings, messages);
        proof {
            Vec::<Float32>::lemma_scan(at_pf_fly, strings);
        }
        let ghost at_pf_jump_pack = reader@;
        let pf_jump_pack = Vec::<Float32>::read_value(reader, strings, messages);
        proof {
            Vec::<Float32>::lemma_scan(at_pf_jump_pack, strings);
        }
        let ghost at_pf_teleport = reader@;
        let pf_teleport = Vec::<Float32>::read_value(reader, strings, messages);
        proof {
            Vec::<Float32>::lemma_scan(at_pf_teleport, strings);
        }
        let ghost at_pf_untouchable = reader@;
        let pf_untouchable = Vec::<Float32>::read_value(reader, strings, messages);
        proof {
            Vec::<Float32>::lemma_scan(at_pf_untouchable, strings);
        }
        let ghost at_pf_intangible = reader@;
        let pf_intangible = Vec::<Float32>::read_value(reader, strings, messages);
        proof {
            Vec::<Float32>::lemma_scan(at_pf_intangible, strings);
        }
        let ghost at_pf_only_affects_self = reader@;
        let pf_only_affects_self = Vec::<Float32>::read_value(reader, strings, messages);
        proof {
            Vec::<Float32>::lemma_scan(at_pf_only_affects_self, strings);
        }
        let ghost at_pf_experience_gain = reader@;
        let pf_experience_gain = Vec::<Float32>::read_value(reader, strings, messages);
        proof {
            Vec::<Float32>::lemma_scan(at_pf_experience_gain, strings);
        }
        let ghost at_pf_influence_gain = reader@;
        let pf_influence_gain = Vec::<Float32>::read_value(reader, strings, messages);
        proof {
            Vec::<Float32>::lemma_scan(at_pf_influence_gain, strings);
        }
        let ghost at_pf_prestige_gain = reader@;
        let pf_prestige_gain = Vec::<Float32>::read_value(reader, strings, messages);
        proof {
            Vec::<Float32>::lemma_scan(at_pf_prestige_gain, strings);
        }
        let ghost at_pf_null_bool = reader@;
        let pf_null_bool = Vec::<Float32>::read_value(reader, strings, messages);
        proof {
            Vec::<Float32>::lemma_scan(at_pf_null_bool, strings);
        }
        let ghost at_pf_knock_up = reader@;
        let pf_knock_up = Vec::<Float32>::read_value(reader, strings, messages);
        proof {
            Vec::<Float32>::lemma_scan(at_pf_knock_up, strings);
        }
        let ghost at_pf_knock_back = reader@;
        let pf_knock_back = Vec::<Float32>::read_value(reader, strings, messages);
        proof {
            Vec::<Float32>::lemma_scan(at_pf_knock_back, strings);
        }
        let ghost at_pf_repel = reader@;
        let pf_repel = Vec::<Float32>::read_value(reader, strings, messages);
        proof {
            Vec::<Float32>::lemma_scan(at_pf_repel, strings);
        }
        let ghost at_pf_accuracy = reader@;
        let pf_accuracy = Vec::<Float32>::read_value(reader, strings, messages);
        proof {
            Vec::<Float32>::lemma_scan(at_pf_accuracy, strings);
        }
        let ghost at_pf_radius = reader@;
        let pf_radius = Vec::<Float32>::read_value(reader, strings, messages);
        proof {
            Vec::<Float32>::lemma_scan(at_pf_radius, strings);
        }
        let ghost at_pf_arc = reader@;
        let pf_arc = Vec::<Float32>::read_value(reader, strings, messages);
        proof {
            Vec::<Float32>::lemma_scan(at_pf_arc, strings);
        }
        let ghost at_pf_range = reader@;
        let pf_range = Vec::<Float32>::read_value(reader, strings, messages);
        proof {
            Vec::<Float32>::lemma_scan(at_pf_range, strings);
        }
        let ghost at_pf_time_to_activate = reader@;
        let pf_time_to_activate = Vec::<Float32>::read_value(reader, strings, messages);
        proof {
            Vec::<Float32>::lemma_scan(at_pf_time_to_activate, strings);
        }
        let ghost at_pf_recharge_time = reader@;
        let pf_recharge_time = Vec::<Float32>::read_value(reader, strings, messages);
        proof {
            Vec::<Float32>::lemma_scan(at_pf_recharge_time, strings);
        }
        let ghost at_pf_interrupt_time = reader@;
        let pf_interrupt_time = Vec::<Float32>::read_value(reader, strings, messages);
        proof {
            Vec::<Float32>::lemma_scan(at_pf_interrupt_time, strings);
        }
        let ghost at_pf_endurance_discount = reader@;
        let pf_endurance_discount = Vec::<Float32>::read_value(reader, strings, messages);
        proof {
            Vec::<Float32>::lemma_scan(at_pf_endurance_discount, strings);
        }
        let ghost at_pf_insight_discount = reader@;
        let pf_insight_discount = Vec::<Float32>::read_value(reader, strings, messages);
        proof {
            Vec::<Float32>::lemma_scan(at_pf_insight_discount, strings);
        }
        let ghost at_pf_meter = reader@;
        let pf_meter = Vec::<Float32>::read_value(reader, strings, messages);
        proof {
            Vec::<Float32>::lemma_scan(at_pf_meter, strings);
        }
        let ghost at_pf_elusivity = reader@;
        let pf_elusivity = bin_read_n::<Vec<Float32>>(reader, 20, strings, messages);
        proof {
            lemma_scan_n_kept::<Vec<Float32>>(at_pf_elusivity, strings, 20);
        }
        let ghost at_more_pf_defense = reader@;
        let mut more_pf_defense = Vec::<Float32>::read_value(reader, strings, messages);
        pf_defense.append(&mut more_pf_defense);
        proof {
            Vec::<Float32>::lemma_scan(at_more_pf_defense, strings);
        }
        let ghost at_pf_absorb = reader@;
        let pf_absorb = Vec::<Float32>::read_value(reader, strings, messages);
        proof {
            Vec::<Float32>::lemma_scan(at_pf_absorb, strings);
        }
        reader.close_frame(frame);
        CharacterAttributesTable {
            pf_damage_type,
            pf_hit_points,
            pf_endurance,
            pf_insight,
            pf_rage,
            pf_to_hit,
            pf_defense_type,
            pf_defense,
            pf_speed_running,
            pf_speed_flying,
            pf_speed_swimming,
            pf_speed_jumping,
            pf_jump_height,
            pf_movement_control,
            pf_movement_friction,
            pf_stealth,
            pf_stealth_radius,
            pf_stealth_radius_player,
            pf_perception_radius,
            pf_regeneration,
            pf_recovery,
            pf_insight_recovery,
            pf_threat_level,
            pf_taunt,
            pf_placate,
            pf_confused,
            pf_afraid,
            pf_terrorized,
            pf_held,
            pf_immobilized,
            pf_stunned,
            pf_sleep,
            pf_fly,
            pf_jump_pack,
            pf_teleport,
            pf_untouchable,
            pf_intangible,
            pf_only_affects_self,
            pf_experience_gain,
            pf_influence_gain,
            pf_prestige_gain,
            pf_null_bool,
            pf_knock_up,
            pf_knock_back,
            pf_repel,
            pf_accuracy,
            pf_radius,
            pf_arc,
            pf_range,
            pf_time_to_activate,
            pf_recharge_time,
            pf_interrupt_time,
            pf_endurance_discount,
            pf_insight_discount,
            pf_meter,
            pf_elusivity,
            pf_elusivity_base: Vec::new(),
            pf_absorb,
        }
    }

    proof fn lemma_scan(c: Cursor, strings: &StringPool) {
        lemma_scan_n_kept::<Vec<Float32>>(c, strings, 20);
        Vec::<Float32>::lemma_scan(c, strings);
    }
}

impl BinReadable for NamedTable {
    open spec fn scan(c: Cursor, strings: &StringPool) -> Cursor {
        let frame = c.frame();
        let p0 = c.advance(4);
        let p1 = p0.advance(4);
        let p2 = Vec::<Float32>::scan(p1, strings);
        p2.close(frame)
    }

    open spec fn decoded(
        c: Cursor,
        strings: &StringPool,
        messages: &MessageStore,
        value: &NamedTable,
    ) -> bool {
        let p0 = c.advance(4);
        let p1 = p0.advance(4);
        &&& value.pch_name.deep_view() == p0.text(strings, messages)
        &&& Vec::<Float32>::decoded(p1, strings, messages, &value.pf_values)
    }

    fn read_value(reader: &mut BinReader, strings: &StringPool, messages: &MessageStore) -> (value:
        NamedTable) {
        let frame = reader.open_frame();
        let pch_name = reader.read_pool_string(strings, messages);
        let ghost at_pf_values = reader@;
        let pf_values = Vec::<Float32>::read_value(reader, strings, messages);
        proof {
            Vec::<Float32>::lemma_scan(at_pf_values, strings);
        }
        reader.close_frame(frame);
        NamedTable {
            pch_name,
            pf_values,
        }
    }

    proof fn lemma_scan(c: Cursor, strings: &StringPool) {
        Vec::<Float32>::lemma_scan(c, strings);
    }
}

impl BinReadable for Archetype {
    open spec fn scan(c: Cursor, strings: &StringPool) -> Cursor {
        let frame = c.frame();
        let p0 = c.advance(4);
        let p1 = p0.advance(4);
        let p2 = p1.advance(4);
        let p3 = p2.advance(4);
        let p4 = p3.after_words();
        let p5 = p4.after_words();
        let p6 = p5.advance(4);
        let p7 = p6.advance(4);
        let p8 = p7.advance(4);
        let p9 = p8.advance(4);
        let p10 = p9.advance(4);
        let p11 = Vec::<i32>::scan(p10, strings);
        let p12 = p11.advance(4);
        let p13 = p12.advance(4);
        let p14 = p13.advance(4);
        let p15 = p14.advance(4);
        let p16 = p15.advance(4);
        let p17 = p16.advance(4);
        let p18 = Vec::<CharacterAttributes>::scan(p17, strings);
        let p19 = Vec::<CharacterAttributes>::scan(p18, strings);
        let p20 = Vec::<CharacterAttributes>::scan(p19, strings);
        let p21 = Vec::<CharacterAttributes>::scan(p20, strings);
        let p22 = scan_n::<Vec<CharacterAttributes>>(p21, strings, 2);
        let p23 = scan_n::<Vec<CharacterAttributes>>(p22, strings, 2);
        let p24 = scan_n::<Vec<CharacterAttributes>>(p23, strings, 2);
        let p25 = Vec::<CharacterAttributesTable>::scan(p24, strings);
        let p26 = Vec::<CharacterAttributesTable>::scan(p25, strings);
        let p27 = Vec::<CharacterAttributesTable>::scan(p26, strings);
        let p28 = Vec::<CharacterAttributesTable>::scan(p27, strings);
        let p29 = Vec::<NamedTable>::scan(p28, strings);
        let p30 = p29.advance(4);
        let p31 = p30.advance(4);
        let p32 = p31.advance(4);
        p32.close(frame)
    }

    open spec fn decoded(
        c: Cursor,
        strings: &StringPool,
        messages: &MessageStore,
        value: &Archetype,
    ) -> bool {
        let p0 = c.advance(4);
        let p1 = p0.advance(4);
        let p2 = p1.advance(4);
        let p3 = p2.advance(4);
        let p4 = p3.after_words();
        let p5 = p4.after_words();
        let p6 = p5.advance(4);
        let p7 = p6.advance(4);
        let p8 = p7.advance(4);
        let p9 = p8.advance(4);
        let p10 = p9.advance(4);
        let p11 = Vec::<i32>::scan(p10, strings);
        let p12 = p11.advance(4);
        let p13 = p12.advance(4);
        let p14 = p13.advance(4);
        let p15 = p14.advance(4);
        let p16 = p15.advance(4);
        let p17 = p16.advance(4);
        let p18 = Vec::<CharacterAttributes>::scan(p17, strings);
        let p19 = Vec::<CharacterAttributes>::scan(p18, strings);
        let p20 = Vec::<CharacterAttributes>::scan(p19, strings);
        let p21 = Vec::<CharacterAttributes>::scan(p20, strings);
        let p22 = scan_n::<Vec<CharacterAttributes>>(p21, strings, 2);
        let p23 = scan_n::<Vec<CharacterAttributes>>(p22, strings, 2);
        let p24 = scan_n::<Vec<CharacterAttributes>>(p23, strings, 2);
        let p25 = Vec::<CharacterAttributesTable>::scan(p24, strings);
        let p26 = Vec::<CharacterAttributesTable>::scan(p25, strings);
        let p27 = Vec::<CharacterAttributesTable>::scan(p26, strings);
        let p28 = Vec::<CharacterAttributesTable>::scan(p27, strings);
        let p29 = Vec::<NamedTable>::scan(p28, strings);
        let p30 = p29.advance(4);
        let p31 = p30.advance(4);
        &&& value.pch_name.deep_view() == p0.text(strings, messages)
        &&& value.pch_display_name.deep_view() == p1.text(strings, messages)
        &&& value.pch_display_help.deep_view() == p2.text(strings, messages)
        &&& value.class_key.deep_view() == class_key_of(value.pch_name.deep_view())
        &&& value.ppch_allowed_origin_names.deep_view() == p3.texts(strings, messages)
        &&& value.ppch_special_restrictions.deep_view() == p4.texts(strings, messages)
        &&& value.pch_store_restrictions.deep_view() == p5.text(strings, messages)
        &&& value.pch_locked_tooltip.deep_view() == p6.text(strings, messages)
        &&& value.pch_product_code.deep_view() == p7.text(strings, messages)
        &&& value.pch_reduction_class.deep_view() == p8.text(strings, messages)
        &&& value.b_reduce_as_av == p9.flag()
        &&& Vec::<i32>::decoded(p10, strings, messages, &value.pi_level_up_respecs)
        &&& value.pch_display_short_help.deep_view() == p11.text(strings, messages)
        &&& value.pch_icon.deep_view() == p12.text(strings, messages)
        &&& value.pch_primary_category.deep_view() == p13.name(strings)
        &&& value.pch_secondary_category.deep_view() == p14.name(strings)
        &&& value.pch_power_pool_category.deep_view() == p15.name(strings)
        &&& value.pch_epic_pool_category.deep_view() == p16.name(strings)
        &&& Vec::<CharacterAttributes>::decoded(p17, strings, messages, &value.pp_attrib_min)
        &&& Vec::<CharacterAttributes>::decoded(p18, strings, messages, &value.pp_attrib_base)
        &&& Vec::<CharacterAttributes>::decoded(p19, strings, messages, &value.pp_attrib_strength_min)
        &&& Vec::<CharacterAttributes>::decoded(p20, strings, messages, &value.pp_attrib_resistance_min)
        &&& value.pp_attrib_diminishing_str@.len() == 2
        &&& decoded_n::<Vec<CharacterAttributes>>(p21, strings, messages, value.pp_attrib_diminishing_str@)
        &&& value.pp_attrib_diminishing_cur@.len() == 2
        &&& decoded_n::<Vec<CharacterAttributes>>(p22, strings, messages, value.pp_attrib_diminishing_cur@)
        &&& value.pp_attrib_diminishing_res@.len() == 2
        &&& decoded_n::<Vec<CharacterAttributes>>(p23, strings, messages, value.pp_attrib_diminishing_res@)
        &&& Vec::<CharacterAttributesTable>::decoded(p24, strings, messages, &value.pp_attrib_temp_max)
        &&& Vec::<CharacterAttributesTable>::decoded(p25, strings, messages, &value.pp_attrib_temp_max_max)
        &&& Vec::<CharacterAttributesTable>::decoded(p26, strings, messages, &value.pp_attrib_temp_strength_max)
        &&& Vec::<CharacterAttributesTable>::decoded(p27, strings, messages, &value.pp_attrib_temp_resistance_max)
        &&& Vec::<NamedTable>::decoded(p28, strings, messages, &value.pp_named_tables)
        &&& value.b_connect_hp_and_status == p29.flag()
        &&& value.off_defiant_hit_points_attrib == p30.word()
        &&& value.f_defiant_scale == p31.float32()
    }

    fn read_value(reader: &mut BinReader, strings: &StringPool, messages: &MessageStore) -> (value:
        Archetype) {
        let frame = reader.open_frame();
        let pch_name = reader.read_pool_string(strings, messages);
        let pch_display_name = reader.read_pool_string(strings, messages);
        let pch_display_help = reader.read_pool_string(strings, messages);
        let class_key = match &pch_name {
            Some(name) => Some(make_class_key(name.as_str())),
            None => None,
        };
        let ppch_allowed_origin_names = reader.read_pool_string_arr(strings, messages);
        let ppch_special_restrictions = reader.read_pool_string_arr(strings, messages);
        let pch_store_restrictions = reader.read_pool_string(strings, messages);
        let pch_locked_tooltip = reader.read_pool_string(strings, messages);
        let pch_product_code = reader.read_pool_string(strings, messages);
        let pch_reduction_class = reader.read_pool_string(strings, messages);
        let b_reduce_as_av = reader.read_bool();
        let ghost at_pi_level_up_respecs = reader@;
        let pi_level_up_respecs = Vec::<i32>::read_value(reader, strings, messages);
        proof {
            Vec::<i32>::lemma_scan(at_pi_level_up_respecs, strings);
        }
        let pch_display_short_help = reader.read_pool_string(strings, messages);
        let pch_icon = reader.read_pool_string(strings, messages);
        let pch_primary_category = reader.read_name_key(strings);
        let pch_secondary_category = reader.read_name_key(strings);
        let pch_power_pool_category = reader.read_name_key(strings);
        let pch_epic_pool_category = reader.read_name_key(strings);
        let ghost at_pp_attrib_min = reader@;
        let pp_attrib_min = Vec::<CharacterAttributes>::read_value(reader, strings, messages);
        proof {
            Vec::<CharacterAttributes>::lemma_scan(at_pp_attrib_min, strings);
        }
        let ghost at_pp_attrib_base = reader@;
        let pp_attrib_base = Vec::<CharacterAttributes>::read_value(reader, strings, messages);
        proof {
            Vec::<CharacterAttributes>::lemma_scan(at_pp_attrib_base, strings);
        }
        let ghost at_pp_attrib_strength_min = reader@;
        let pp_attrib_strength_min = Vec::<CharacterAttributes>::read_value(reader, strings, messages);
        proof {
            Vec::<CharacterAttributes>::lemma_scan(at_pp_attrib_strength_min, strings);
        }
        let ghost at_pp_attrib_resistance_min = reader@;
        let pp_attrib_resistance_min = Vec::<CharacterAttributes>::read_value(reader, strings, messages);
        proof {
            Vec::<CharacterAttributes>::lemma_scan(at_pp_attrib_resistance_min, strings);
        }
        let ghost at_pp_attrib_diminishing_str = reader@;
        let pp_attrib_diminishing_str = bin_read_n::<Vec<CharacterAttributes>>(reader, 2, strings, messages);
        proof {
            lemma_scan_n_kept::<Vec<CharacterAttributes>>(at_pp_attrib_diminishing_str, strings, 2);
        }
        let ghost at_pp_attrib_diminishing_cur = reader@;
        let pp_attrib_diminishing_cur = bin_read_n::<Vec<CharacterAttributes>>(reader, 2, strings, messages);
        proof {
            lemma_scan_n_kept::<Vec<CharacterAttributes>>(at_pp_attrib_diminishing_cur, strings, 2);
        }
        let ghost at_pp_attrib_diminishing_res = reader@;
        let pp_attrib_diminishing_res = bin_read_n::<Vec<CharacterAttributes>>(reader, 2, strings, messages);
        proof {
            lemma_scan_n_kept::<Vec<CharacterAttributes>>(at_pp_attrib_diminishing_res, strings, 2);
        }
        let ghost at_pp_attrib_temp_max = reader@;
        let pp_attrib_temp_max = Vec::<CharacterAttributesTable>::read_value(reader, strings, messages);
        proof {
            Vec::<CharacterAttributesTable>::lemma_scan(at_pp_attrib_temp_max, strings);
        }
        let ghost at_pp_attrib_temp_max_max = reader@;
        let pp_attrib_temp_max_max = Vec::<CharacterAttributesTable>::read_value(reader, strings, messages);
        proof {
            Vec::<CharacterAttributesTable>::lemma_scan(at_pp_attrib_temp_max_max, strings);
        }
        let ghost at_pp_attrib_temp_strength_max = reader@;
        let pp_attrib_temp_strength_max = Vec::<CharacterAttributesTable>::read_value(reader, strings, messages);
        proof {
            Vec::<CharacterAttributesTable>::lemma_scan(at_pp_attrib_temp_strength_max, strings);
        }
        let ghost at_pp_attrib_temp_resistance_max = reader@;
        let pp_attrib_temp_resistance_max = Vec::<CharacterAttributesTable>::read_value(reader, strings, messages);
        proof {
            Vec::<CharacterAttributesTable>::lemma_scan(at_pp_attrib_temp_resistance_max, strings);
        }
        let ghost at_pp_named_tables = reader@;
        let pp_named_tables = Vec::<NamedTable>::read_value(reader, strings, messages);
        proof {
            Vec::<NamedTable>::lemma_scan(at_pp_named_tables, strings);
        }
        let b_connect_hp_and_status = reader.read_bool();
        let off_defiant_hit_points_attrib = reader.read_u32();
        let f_defiant_scale = reader.read_float();
        reader.close_frame(frame);
        Archetype {
            pch_name,
            pch_display_name,
            pch_display_help,
            ppch_allowed_origin_names,
            ppch_special_restrictions,
            pch_store_restrictions,
            pch_locked_tooltip,
            pch_product_code,
            pch_reduction_class,
            b_reduce_as_av,
            pi_level_up_respecs,
            pch_display_short_help,
            pch_icon,
            pch_primary_category,
            pch_secondary_category,
            pch_power_pool_category,
            pch_epic_pool_category,
            pp_attrib_min,
            pp_attrib_base,
            pp_attrib_strength_min,
            pp_attrib_resistance_min,
            pp_attrib_diminishing_str,
            pp_attrib_diminishing_cur,
            pp_attrib_diminishing_res,
            pp_attrib_temp_max,
            pp_attrib_temp_max_max,
            pp_attrib_temp_strength_max,
            pp_attrib_temp_resistance_max,
            pp_named_tables,
            b_connect_hp_and_status,
            off_defiant_hit_points_attrib,
            f_defiant_scale,
            class_key,
        }
    }

    proof fn lemma_scan(c: Cursor, strings: &StringPool) {
        Vec::<i32>::lemma_scan(c, strings);
        Vec::<CharacterAttributes>::lemma_scan(c, strings);
        lemma_scan_n_kept::<Vec<CharacterAttributes>>(c, strings, 2);
        Vec::<CharacterAttributesTable>::lemma_scan(c, strings);
        Vec::<NamedTable>::lemma_scan(c, strings);
    }
}

} // verus!
