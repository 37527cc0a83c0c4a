//! The decoder of the file of powers.

use super::cursor::{lemma_entries_fault, Cursor};
use super::reader::{bin_read_enum, bin_read_enum_arr, enums_n, nonzero_or, texts_n, BinReadable, BinReader, WireEnum};
use super::{read_keyed, decoded_keyed, scan_keyed, Named, ParseResult};
use super::params::{decoded_params, lemma_scan_params, read_attrib_mod_params, scan_params};
use super::ParseErrorKind;
use crate::structs::enums::{AIReport, CasterStackType, DeathCastableSetting, EffectArea, ModApplicationType, ModDuration, ModTarget, ModType, PowerEvent, PowerSystem, PowerType, ProcAllowed, ShowPowerSetting, SpecialAttrib, StackType, TargetType, TargetVisibility, ToggleDroppable};
use crate::structs::flags::{AttribModFlag, EffectGroupFlag};
use crate::structs::powers::{AttribModFX, AttribModMessages, AttribModTargetInfo, AttribModTemplate, BasePower, CustomPowerFX, EffectGroup, PowerData, PowerFX, PowerRedirect, SuppressPair};
use crate::structs::keyed::Keyed;
use crate::structs::namekey::NameKey;
use crate::structs::strings::{MessageStore, StringPool};
use crate::structs::{Float32, Vec3, RGBA};
use vstd::prelude::*;

verus! {

/// Reads all of the powers in the file: a record that holds an array of
/// them. Each is kept under its name; one without a name is dropped.
pub fn serialized_read_powers(
    reader: &mut BinReader,
    strings: &StringPool,
    messages: &MessageStore,
) -> (result: ParseResult<Keyed<BasePower>>)
    ensures
        final(reader)@ == scan_keyed::<BasePower>(old(reader)@, strings),
        match result {
            Ok(table) => final(reader)@.ok() && table.wf() && decoded_keyed::<BasePower>(
                old(reader)@,
                strings,
                messages,
                table@,
            ),
            Err(e) => final(reader)@.fault == Some(e.kind()) && e.wraps_cause(),
        },
{
    read_keyed::<BasePower>(reader, strings, messages)
}

impl Named for BasePower {
    open spec fn key(&self) -> Option<Seq<char>> {
        self.pch_full_name.deep_view()
    }

    fn name_key(&self) -> (name: Option<&NameKey>) {
        self.pch_full_name.as_ref()
    }
}

/// The cursor after an effect group at `c`. Groups hold groups; `fuel` is
/// the number of levels that may still be entered, and a group below the
/// last level is a read error. A file cannot reach that level where the
/// count starts at its length, because each level takes at least four
/// bytes.
pub open spec fn scan_group(c: Cursor, strings: &StringPool, fuel: nat) -> Cursor
    decreases fuel, 2nat, 0nat,
{
    let frame = c.frame();
    let p0 = c.advance(4);
    let p1 = p0.after_words();
    let p2 = p1.advance(4);
    let p3 = p2.advance(4);
    let p4 = p3.advance(4);
    let p5 = p4.advance(4);
    let p6 = p5.advance(4);
    let p7 = p6.after_words();
    let p8 = p7.advance(4);
    let p9 = p8.advance(4);
    let p10 = Vec::<AttribModTemplate>::scan(p9, strings);
    let p11 = scan_groups(p10.advance(4), strings, p10.word() as nat, fuel);
    p11.close(frame)
}

/// The cursor after `n` effect groups in a row, the first at `c`.
pub open spec fn scan_groups(c: Cursor, strings: &StringPool, n: nat, fuel: nat) -> Cursor
    decreases fuel, 1nat, n,
{
    if n == 0 {
        c
    } else {
        let before = scan_groups(c, strings, (n - 1) as nat, fuel);
        if !before.ok() {
            before
        } else if fuel == 0 {
            before.fail(ParseErrorKind::ReadError)
        } else {
            scan_group(before, strings, (fuel - 1) as nat)
        }
    }
}

/// Whether `value` is the effect group encoded at `c`.
pub open spec fn decoded_group(
    c: Cursor,
    strings: &StringPool,
    messages: &MessageStore,
    value: &EffectGroup,
    fuel: nat,
) -> bool
    decreases fuel,
{
    let p0 = c.advance(4);
    let p1 = p0.after_words();
    let p2 = p1.advance(4);
    let p3 = p2.advance(4);
    let p4 = p3.advance(4);
    let p5 = p4.advance(4);
    let p6 = p5.advance(4);
    let p7 = p6.after_words();
    let p8 = p7.advance(4);
    let p9 = p8.advance(4);
    let p10 = Vec::<AttribModTemplate>::scan(p9, strings);
    &&& value.ppch_tags.deep_view() == p0.texts(strings, messages)
    &&& value.f_chance == p1.float32()
    &&& value.f_procs_per_minute == p2.float32()
    &&& value.f_delay == p3.float32()
    &&& value.f_radius_inner == p4.float32()
    &&& value.f_radius_outer == p5.float32()
    &&& value.ppch_requires.deep_view() == p6.texts(strings, messages)
    &&& value.i_flags.bits == p7.word() & EffectGroupFlag::ALL
    &&& value.i_eval_flags == p8.word()
    &&& Vec::<AttribModTemplate>::decoded(p9, strings, messages, &value.pp_templates)
    &&& value.pp_effects@.len() == p10.word()
    &&& forall|i: int|
        0 <= i < value.pp_effects@.len() ==> fuel > 0 && decoded_group(
            #[trigger] scan_groups(p10.advance(4), strings, i as nat, fuel),
            strings,
            messages,
            &value.pp_effects@[i],
            (fuel - 1) as nat,
        )
}

/// A fault is kept through any number of effect groups.
pub proof fn lemma_scan_groups_kept(c: Cursor, strings: &StringPool, n: nat, fuel: nat)
    ensures
        !c.ok() ==> scan_groups(c, strings, n, fuel) == c,
    decreases n,
{
    if n > 0 {
        lemma_scan_groups_kept(c, strings, (n - 1) as nat, fuel);
    }
}

/// A fault met among the first `i` effect groups is the outcome for any
/// greater number of groups.
pub proof fn lemma_scan_groups_fault(c: Cursor, strings: &StringPool, i: nat, n: nat, fuel: nat)
    requires
        i <= n,
        !scan_groups(c, strings, i, fuel).ok(),
    ensures
        scan_groups(c, strings, n, fuel) == scan_groups(c, strings, i, fuel),
    decreases n,
{
    if i < n {
        lemma_scan_groups_fault(c, strings, i, (n - 1) as nat, fuel);
    }
}

/// A fault is kept through an effect group.
pub proof fn lemma_scan_group_kept(c: Cursor, strings: &StringPool, fuel: nat)
    ensures
        !c.ok() ==> scan_group(c, strings, fuel) == c,
{
    Vec::<AttribModTemplate>::lemma_scan(c, strings);
    lemma_scan_groups_kept(c, strings, c.word() as nat, fuel);
}

/// Reads an effect group, and the groups that it holds down to `fuel`
/// levels.
pub fn read_effect_group(
    reader: &mut BinReader,
    strings: &StringPool,
    messages: &MessageStore,
    fuel: usize,
) -> (value: EffectGroup)
    ensures
        final(reader)@ == scan_group(old(reader)@, strings, fuel as nat),
        final(reader)@.ok() ==> decoded_group(
            old(reader)@,
            strings,
            messages,
            &value,
            fuel as nat,
        ),
    decreases fuel,
{
    let frame = reader.open_frame();
    let ppch_tags = reader.read_pool_string_arr(strings, messages);
    let f_chance = reader.read_float();
    let f_procs_per_minute = reader.read_float();
    let f_delay = reader.read_float();
    let f_radius_inner = reader.read_float();
    let f_radius_outer = reader.read_float();
    let ppch_requires = reader.read_pool_string_arr(strings, messages);
    let i_flags = EffectGroupFlag::from_bits_truncate(reader.read_u32());
    let i_eval_flags = reader.read_u32();
    let ghost at_templates = reader@;
    let pp_templates = Vec::<AttribModTemplate>::read_value(reader, strings, messages);
    proof {
        Vec::<AttribModTemplate>::lemma_scan(at_templates, strings);
    }
    let count = reader.read_u32();
    let ghost first = reader@;
    let mut pp_effects: Vec<EffectGroup> = Vec::new();
    let mut i: u32 = 0;
    while i < count && reader.is_ok()
        invariant
            i <= count,
            reader@ == scan_groups(first, strings, i as nat, fuel as nat),
            reader@.ok() ==> pp_effects@.len() == i,
            reader@.ok() ==> forall|j: int|
                0 <= j < i ==> fuel > 0 && decoded_group(
                    #[trigger] scan_groups(first, strings, j as nat, fuel as nat),
                    strings,
                    messages,
                    &pp_effects@[j],
                    (fuel - 1) as nat,
                ),
        decreases count - i,
    {
        if fuel == 0 {
            reader.fail(ParseErrorKind::ReadError);
        } else {
            let group = read_effect_group(reader, strings, messages, fuel - 1);
            pp_effects.push(group);
        }
        i = i + 1;
    }
    proof {
        if i < count {
            lemma_scan_groups_fault(first, strings, i as nat, count as nat, fuel as nat);
        }
        lemma_scan_groups_kept(first, strings, count as nat, fuel as nat);
    }
    reader.close_frame(frame);
    EffectGroup {
        ppch_tags,
        f_chance,
        f_procs_per_minute,
        f_delay,
        f_radius_inner,
        f_radius_outer,
        ppch_requires,
        i_flags,
        pp_templates,
        pp_effects,
        i_eval_flags,
    }
}

impl BinReadable for EffectGroup {
    open spec fn scan(c: Cursor, strings: &StringPool) -> Cursor {
        scan_group(c, strings, c.data.len())
    }

    open spec fn decoded(
        c: Cursor,
        strings: &StringPool,
        messages: &MessageStore,
        value: &EffectGroup,
    ) -> bool {
        decoded_group(c, strings, messages, value, c.data.len())
    }

    fn read_value(reader: &mut BinReader, strings: &StringPool, messages: &MessageStore) -> (value:
        EffectGroup) {
        let fuel = reader.data_len();
        read_effect_group(reader, strings, messages, fuel)
    }

    proof fn lemma_scan(c: Cursor, strings: &StringPool) {
        lemma_scan_group_kept(c, strings, c.data.len());
    }
}

impl BinReadable for PowerRedirect {
    open spec fn scan(c: Cursor, strings: &StringPool) -> Cursor {
        let frame = c.frame();
        let p0 = c.advance(4);
        let p1 = p0.advance(4);
        let p2 = p1.after_words();
        let p3 = p2.advance(4);
        p3.close(frame)
    }

    open spec fn decoded(
        c: Cursor,
        strings: &StringPool,
        messages: &MessageStore,
        value: &PowerRedirect,
    ) -> bool {
        let p0 = c.advance(4);
        let p1 = p0.advance(4);
        let p2 = p1.after_words();
        &&& value.pch_name.deep_view() == p0.name(strings)
        &&& value.ppch_requires.deep_view() == p1.texts(strings, messages)
        &&& value.b_show_in_info == p2.flag()
    }

    fn read_value(reader: &mut BinReader, strings: &StringPool, messages: &MessageStore) -> (value:
        PowerRedirect) {
        let frame = reader.open_frame();
        let pch_name = reader.read_name_key(strings);
        let ppch_requires = reader.read_pool_string_arr(strings, messages);
        let b_show_in_info = reader.read_bool();
        reader.close_frame(frame);
        PowerRedirect {
            pch_name,
            ppch_requires,
            b_show_in_info,
        }
    }

    proof fn lemma_scan(c: Cursor, strings: &StringPool) {
    }
}

impl BinReadable for SuppressPair {
    open spec fn scan(c: Cursor, strings: &StringPool) -> Cursor {
        let frame = c.frame();
        let p0 = c.advance(4);
        let p1 = p0.advance(4);
        let p2 = p1.advance(4);
        let p3 = p2.advance(4);
        p3.close(frame)
    }

    open spec fn decoded(
        c: Cursor,
        strings: &StringPool,
        messages: &MessageStore,
        value: &SuppressPair,
    ) -> bool {
        let p0 = c.advance(4);
        let p1 = p0.advance(4);
        let p2 = p1.advance(4);
        &&& value.idx_event == p0.int32()
        &&& value.ul_seconds == p1.word()
        &&& value.b_always == p2.flag()
    }

    fn read_value(reader: &mut BinReader, strings: &StringPool, messages: &MessageStore) -> (value:
        SuppressPair) {
        let frame = reader.open_frame();
        let idx_event = reader.read_i32();
        let ul_seconds = reader.read_u32();
        let b_always = reader.read_bool();
        reader.close_frame(frame);
        SuppressPair {
            idx_event,
            ul_seconds,
            b_always,
        }
    }

    proof fn lemma_scan(c: Cursor, strings: &StringPool) {
    }
}

impl BinReadable for AttribModTargetInfo {
    open spec fn scan(c: Cursor, strings: &StringPool) -> Cursor {
        let frame = c.frame();
        let p0 = c.advance(4);
        let p1 = p0.after_words();
        let p2 = Vec::<i32>::scan(p1, strings);
        p2.close(frame)
    }

    open spec fn decoded(
        c: Cursor,
        strings: &StringPool,
        messages: &MessageStore,
        value: &AttribModTargetInfo,
    ) -> bool {
        let p0 = c.advance(4);
        let p1 = p0.after_words();
        &&& value.ppch_marker_names.deep_view() == p0.texts(strings, messages)
        &&& Vec::<i32>::decoded(p1, strings, messages, &value.pi_marker_count)
    }

    fn read_value(reader: &mut BinReader, strings: &StringPool, messages: &MessageStore) -> (value:
        AttribModTargetInfo) {
        let frame = reader.open_frame();
        let ppch_marker_names = reader.read_pool_string_arr(strings, messages);
        let ghost at_pi_marker_count = reader@;
        let pi_marker_count = Vec::<i32>::read_value(reader, strings, messages);
        proof {
            Vec::<i32>::lemma_scan(at_pi_marker_count, strings);
        }
        reader.close_frame(frame);
        AttribModTargetInfo {
            ppch_marker_names,
            pi_marker_count,
        }
    }

    proof fn lemma_scan(c: Cursor, strings: &StringPool) {
        Vec::<i32>::lemma_scan(c, strings);
    }
}

impl BinReadable for AttribModMessages {
    open spec fn scan(c: Cursor, strings: &StringPool) -> Cursor {
        let frame = c.frame();
        let p0 = c.advance(4);
        let p1 = p0.advance(4);
        let p2 = p1.advance(4);
        let p3 = p2.advance(4);
        let p4 = p3.advance(4);
        p4.close(frame)
    }

    open spec fn decoded(
        c: Cursor,
        strings: &StringPool,
        messages: &MessageStore,
        value: &AttribModMessages,
    ) -> bool {
        let p0 = c.advance(4);
        let p1 = p0.advance(4);
        let p2 = p1.advance(4);
        let p3 = p2.advance(4);
        &&& value.pch_display_attacker_hit.deep_view() == p0.text(strings, messages)
        &&& value.pch_display_victim_hit.deep_view() == p1.text(strings, messages)
        &&& value.pch_display_float.deep_view() == p2.text(strings, messages)
        &&& value.pch_display_defense_float.deep_view() == p3.text(strings, messages)
    }

    fn read_value(reader: &mut BinReader, strings: &StringPool, messages: &MessageStore) -> (value:
        AttribModMessages) {
        let frame = reader.open_frame();
        let pch_display_attacker_hit = reader.read_pool_string(strings, messages);
        let pch_display_victim_hit = reader.read_pool_string(strings, messages);
        let pch_display_float = reader.read_pool_string(strings, messages);
        let pch_display_defense_float = reader.read_pool_string(strings, messages);
        reader.close_frame(frame);
        AttribModMessages {
            pch_display_attacker_hit,
            pch_display_victim_hit,
            pch_display_float,
            pch_display_defense_float,
        }
    }

    proof fn lemma_scan(c: Cursor, strings: &StringPool) {
    }
}

impl BinReadable for AttribModFX {
    open spec fn scan(c: Cursor, strings: &StringPool) -> Cursor {
        let frame = c.frame();
        let p0 = c.advance(4);
        let p1 = Vec::<i32>::scan(p0, strings);
        let p2 = p1.advance(4);
        let p3 = Vec::<i32>::scan(p2, strings);
        let p4 = p3.advance(4);
        p4.close(frame)
    }

    open spec fn decoded(
        c: Cursor,
        strings: &StringPool,
        messages: &MessageStore,
        value: &AttribModFX,
    ) -> bool {
        let p0 = c.advance(4);
        let p1 = Vec::<i32>::scan(p0, strings);
        let p2 = p1.advance(4);
        let p3 = Vec::<i32>::scan(p2, strings);
        &&& Vec::<i32>::decoded(p0, strings, messages, &value.pi_continuing_bits)
        &&& value.pch_continuing_fx.deep_view() == p1.text(strings, messages)
        &&& Vec::<i32>::decoded(p2, strings, messages, &value.pi_conditional_bits)
        &&& value.pch_conditional_fx.deep_view() == p3.text(strings, messages)
    }

    fn read_value(reader: &mut BinReader, strings: &StringPool, messages: &MessageStore) -> (value:
        AttribModFX) {
        let frame = reader.open_frame();
        let ghost at_pi_continuing_bits = reader@;
        let pi_continuing_bits = Vec::<i32>::read_value(reader, strings, messages);
        proof {
            Vec::<i32>::lemma_scan(at_pi_continuing_bits, strings);
        }
        let pch_continuing_fx = reader.read_pool_string(strings, messages);
        let ghost at_pi_conditional_bits = reader@;
        let pi_conditional_bits = Vec::<i32>::read_value(reader, strings, messages);
        proof {
            Vec::<i32>::lemma_scan(at_pi_conditional_bits, strings);
        }
        let pch_conditional_fx = reader.read_pool_string(strings, messages);
        reader.close_frame(frame);
        AttribModFX {
            pi_continuing_bits,
            pch_continuing_fx,
            pi_conditional_bits,
            pch_conditional_fx,
        }
    }

    proof fn lemma_scan(c: Cursor, strings: &StringPool) {
        Vec::<i32>::lemma_scan(c, strings);
    }
}

impl BinReadable for AttribModTemplate {
    open spec fn scan(c: Cursor, strings: &StringPool) -> Cursor {
        let frame = c.frame();
        let p0 = c.advance(4);
        let p1 = Vec::<SpecialAttrib>::scan(p0, strings);
        let p2 = p1.advance(4);
        let p3 = p2.advance(4);
        let p4 = p3.advance(4);
        let p5 = p4.advance(4);
        let p6 = Option::<AttribModTargetInfo>::scan(p5, strings);
        let p7 = p6.advance(4);
        let p8 = p7.advance(4);
        let p9 = ModDuration::scan(p8, strings);
        let p10 = p9.advance(4);
        let p11 = p10.after_words();
        let p12 = p11.after_words();
        let p13 = p12.advance(4);
        let p14 = p13.advance(4);
        let p15 = p14.advance(4);
        let p16 = p15.after_words();
        let p17 = p16.advance(4);
        let p18 = p17.advance(4);
        let p19 = p18.advance(4);
        let p20 = p19.advance(4);
        let p21 = p20.after_words();
        let p22 = Vec::<SuppressPair>::scan(p21, strings);
        let p23 = SpecialAttrib::scan(p22, strings);
        let p24 = p23.advance(4).advance(4);
        let p25 = Option::<AttribModMessages>::scan(p24, strings);
        let p26 = Option::<AttribModFX>::scan(p25, strings);
        let p27 = scan_params(p26, strings);
        p27.close(frame)
    }

    open spec fn decoded(
        c: Cursor,
        strings: &StringPool,
        messages: &MessageStore,
        value: &AttribModTemplate,
    ) -> bool {
        let p0 = c.advance(4);
        let p1 = Vec::<SpecialAttrib>::scan(p0, strings);
        let p2 = p1.advance(4);
        let p3 = p2.advance(4);
        let p4 = p3.advance(4);
        let p5 = p4.advance(4);
        let p6 = Option::<AttribModTargetInfo>::scan(p5, strings);
        let p7 = p6.advance(4);
        let p8 = p7.advance(4);
        let p9 = ModDuration::scan(p8, strings);
        let p10 = p9.advance(4);
        let p11 = p10.after_words();
        let p12 = p11.after_words();
        let p13 = p12.advance(4);
        let p14 = p13.advance(4);
        let p15 = p14.advance(4);
        let p16 = p15.after_words();
        let p17 = p16.advance(4);
        let p18 = p17.advance(4);
        let p19 = p18.advance(4);
        let p20 = p19.advance(4);
        let p21 = p20.after_words();
        let p22 = Vec::<SuppressPair>::scan(p21, strings);
        let p23 = SpecialAttrib::scan(p22, strings);
        let p24 = p23.advance(4).advance(4);
        let p25 = Option::<AttribModMessages>::scan(p24, strings);
        let p26 = Option::<AttribModFX>::scan(p25, strings);
        &&& Vec::<SpecialAttrib>::decoded(p0, strings, messages, &value.p_attrib)
        &&& value.off_aspect == p1.word()
        &&& value.e_application_type == ModApplicationType::of_wire(p2.word())
        &&& value.e_type == ModType::of_wire(p3.word())
        &&& value.e_target == ModTarget::of_wire(p4.word())
        &&& Option::<AttribModTargetInfo>::decoded(p5, strings, messages, &value.p_target_info)
        &&& value.pch_table.deep_view() == p6.text(strings, messages)
        &&& value.f_scale == p7.float32()
        &&& ModDuration::decoded(p8, strings, messages, &value.f_duration)
        &&& value.f_magnitude == p9.float32()
        &&& value.ppch_duration.deep_view() == p10.texts(strings, messages)
        &&& value.ppch_magnitude.deep_view() == p11.texts(strings, messages)
        &&& value.f_delay == p12.float32()
        &&& value.f_period == p13.float32()
        &&& value.f_tick_chance == p14.float32()
        &&& value.ppch_delayed_requires.deep_view() == p15.texts(strings, messages)
        &&& value.e_caster_stack == CasterStackType::of_wire(p16.word())
        &&& value.e_stack == StackType::of_wire(p17.word())
        &&& value.i_stack_limit == p18.int32()
        &&& value.i_stack_key == p19.int32()
        &&& value.pi_cancel_events@ == enums_n::<PowerEvent>(p20.advance(4), p20.word() as nat)
        &&& Vec::<SuppressPair>::decoded(p21, strings, messages, &value.pp_suppress)
        &&& SpecialAttrib::decoded(p22, strings, messages, &value.boost_mod_allowed)
        &&& value.i_flags.bits == AttribModFlag::joined(p23.word(), p23.advance(4).word()) & AttribModFlag::ALL
        &&& Option::<AttribModMessages>::decoded(p24, strings, messages, &value.p_messages)
        &&& Option::<AttribModFX>::decoded(p25, strings, messages, &value.p_fx)
        &&& decoded_params(p26, strings, messages, &value.p_params)
    }

    fn read_value(reader: &mut BinReader, strings: &StringPool, messages: &MessageStore) -> (value:
        AttribModTemplate) {
        let frame = reader.open_frame();
        let ghost at_p_attrib = reader@;
        let p_attrib = Vec::<SpecialAttrib>::read_value(reader, strings, messages);
        proof {
            Vec::<SpecialAttrib>::lemma_scan(at_p_attrib, strings);
        }
        let off_aspect = reader.read_u32();
        let e_application_type = bin_read_enum::<ModApplicationType>(reader);
        let e_type = bin_read_enum::<ModType>(reader);
        let e_target = bin_read_enum::<ModTarget>(reader);
        let ghost at_p_target_info = reader@;
        let p_target_info = Option::<AttribModTargetInfo>::read_value(reader, strings, messages);
        proof {
            Option::<AttribModTargetInfo>::lemma_scan(at_p_target_info, strings);
        }
        let pch_table = reader.read_pool_string(strings, messages);
        let f_scale = reader.read_float();
        let f_duration = ModDuration::read_value(reader, strings, messages);
        let f_magnitude = reader.read_float();
        let ppch_duration = reader.read_pool_string_arr(strings, messages);
        let ppch_magnitude = reader.read_pool_string_arr(strings, messages);
        let f_delay = reader.read_float();
        let f_period = reader.read_float();
        let f_tick_chance = reader.read_float();
        let ppch_delayed_requires = reader.read_pool_string_arr(strings, messages);
        let e_caster_stack = bin_read_enum::<CasterStackType>(reader);
        let e_stack = bin_read_enum::<StackType>(reader);
        let i_stack_limit = reader.read_i32();
        let i_stack_key = reader.read_i32();
        let pi_cancel_events = bin_read_enum_arr::<PowerEvent>(reader);
        let ghost at_pp_suppress = reader@;
        let pp_suppress = Vec::<SuppressPair>::read_value(reader, strings, messages);
        proof {
            Vec::<SuppressPair>::lemma_scan(at_pp_suppress, strings);
        }
        let boost_mod_allowed = SpecialAttrib::read_value(reader, strings, messages);
        let flags_low = reader.read_u32();
        let flags_high = reader.read_u32();
        let i_flags = AttribModFlag::from_words(flags_low, flags_high);
        let ghost at_p_messages = reader@;
        let p_messages = Option::<AttribModMessages>::read_value(reader, strings, messages);
        proof {
            Option::<AttribModMessages>::lemma_scan(at_p_messages, strings);
        }
        let ghost at_p_fx = reader@;
        let p_fx = Option::<AttribModFX>::read_value(reader, strings, messages);
        proof {
            Option::<AttribModFX>::lemma_scan(at_p_fx, strings);
        }
        let p_params = read_attrib_mod_params(reader, strings, messages);
        reader.close_frame(frame);
        AttribModTemplate {
            p_attrib,
            off_aspect,
            e_application_type,
            e_type,
            e_target,
            p_target_info,
            pch_table,
            f_scale,
            f_duration,
            f_magnitude,
            ppch_duration,
            ppch_magnitude,
            f_delay,
            f_period,
            f_tick_chance,
            ppch_delayed_requires,
            e_caster_stack,
            e_stack,
            i_stack_limit,
            i_stack_key,
            pi_cancel_events,
            pp_suppress,
            boost_mod_allowed,
            i_flags,
            p_messages,
            p_fx,
            p_params,
        }
    }

    proof fn lemma_scan(c: Cursor, strings: &StringPool) {
        Vec::<SpecialAttrib>::lemma_scan(c, strings);
        Option::<AttribModTargetInfo>::lemma_scan(c, strings);
        Vec::<SuppressPair>::lemma_scan(c, strings);
        Option::<AttribModMessages>::lemma_scan(c, strings);
        Option::<AttribModFX>::lemma_scan(c, strings);
        lemma_scan_params(c, strings);
    }
}

impl BinReadable for PowerFX {
    open spec fn scan(c: Cursor, strings: &StringPool) -> Cursor {
        let p0 = Vec::<i32>::scan(c, strings);
        let p1 = Vec::<i32>::scan(p0, strings);
        let p2 = Vec::<i32>::scan(p1, strings);
        let p3 = Vec::<i32>::scan(p2, strings);
        let p4 = Vec::<i32>::scan(p3, strings);
        let p5 = Vec::<i32>::scan(p4, strings);
        let p6 = Vec::<i32>::scan(p5, strings);
        let p7 = Vec::<i32>::scan(p6, strings);
        let p8 = Vec::<i32>::scan(p7, strings);
        let p9 = Vec::<i32>::scan(p8, strings);
        let p10 = p9.advance(4);
        let p11 = p10.advance(4);
        let p12 = p11.advance(4);
        let p13 = p12.advance(4);
        let p14 = p13.advance(4);
        let p15 = p14.advance(4);
        let p16 = p15.advance(4);
        let p17 = p16.advance(4);
        let p18 = p17.advance(4);
        let p19 = p18.advance(4);
        let p20 = p19.after_entries(4);
        let p21 = p20.advance(4);
        let p22 = p21.after_entries(4);
        let p23 = Vec::<i32>::scan(p22, strings);
        let p24 = p23.advance(4);
        let p25 = p24.advance(4);
        let p26 = p25.advance(4);
        let p27 = p26.advance(4);
        let p28 = p27.advance(4);
        let p29 = p28.advance(4);
        let p30 = p29.advance(4);
        let p31 = p30.advance(4);
        let p32 = p31.advance(4);
        let p33 = p32.advance(4);
        let p34 = p33.advance(4);
        let p35 = p34.advance(4);
        let p36 = RGBA::scan(p35, strings);
        let p37 = RGBA::scan(p36, strings);
        let p38 = p37.advance(4);
        p38
    }

    open spec fn decoded(
        c: Cursor,
        strings: &StringPool,
        messages: &MessageStore,
        value: &PowerFX,
    ) -> bool {
        let p0 = Vec::<i32>::scan(c, strings);
        let p1 = Vec::<i32>::scan(p0, strings);
        let p2 = Vec::<i32>::scan(p1, strings);
        let p3 = Vec::<i32>::scan(p2, strings);
        let p4 = Vec::<i32>::scan(p3, strings);
        let p5 = Vec::<i32>::scan(p4, strings);
        let p6 = Vec::<i32>::scan(p5, strings);
        let p7 = Vec::<i32>::scan(p6, strings);
        let p8 = Vec::<i32>::scan(p7, strings);
        let p9 = Vec::<i32>::scan(p8, strings);
        let p10 = p9.advance(4);
        let p11 = p10.advance(4);
        let p12 = p11.advance(4);
        let p13 = p12.advance(4);
        let p14 = p13.advance(4);
        let p15 = p14.advance(4);
        let p16 = p15.advance(4);
        let p17 = p16.advance(4);
        let p18 = p17.advance(4);
        let p19 = p18.advance(4);
        let p20 = p19.after_entries(4);
        let p21 = p20.advance(4);
        let p22 = p21.after_entries(4);
        let p23 = Vec::<i32>::scan(p22, strings);
        let p24 = p23.advance(4);
        let p25 = p24.advance(4);
        let p26 = p25.advance(4);
        let p27 = p26.advance(4);
        let p28 = p27.advance(4);
        let p29 = p28.advance(4);
        let p30 = p29.advance(4);
        let p31 = p30.advance(4);
        let p32 = p31.advance(4);
        let p33 = p32.advance(4);
        let p34 = p33.advance(4);
        let p35 = p34.advance(4);
        let p36 = RGBA::scan(p35, strings);
        let p37 = RGBA::scan(p36, strings);
        &&& Vec::<i32>::decoded(c, strings, messages, &value.pi_attack_bits)
        &&& Vec::<i32>::decoded(p0, strings, messages, &value.pi_block_bits)
        &&& Vec::<i32>::decoded(p1, strings, messages, &value.pi_wind_up_bits)
        &&& Vec::<i32>::decoded(p2, strings, messages, &value.pi_hit_bits)
        &&& Vec::<i32>::decoded(p3, strings, messages, &value.pi_death_bits)
        &&& Vec::<i32>::decoded(p4, strings, messages, &value.pi_activation_bits)
        &&& Vec::<i32>::decoded(p5, strings, messages, &value.pi_deactivation_bits)
        &&& Vec::<i32>::decoded(p6, strings, messages, &value.pi_initial_attack_bits)
        &&& Vec::<i32>::decoded(p7, strings, messages, &value.pi_continuing_bits)
        &&& Vec::<i32>::decoded(p8, strings, messages, &value.pi_conditional_bits)
        &&& value.pch_activation_fx.deep_view() == p9.text(strings, messages)
        &&& value.pch_deactivation_fx.deep_view() == p10.text(strings, messages)
        &&& value.pch_attack_fx.deep_view() == p11.text(strings, messages)
        &&& value.pch_secondary_attack_fx.deep_view() == p12.text(strings, messages)
        &&& value.pch_hit_fx.deep_view() == p13.text(strings, messages)
        &&& value.pch_wind_up_fx.deep_view() == p14.text(strings, messages)
        &&& value.pch_block_fx.deep_view() == p15.text(strings, messages)
        &&& value.pch_death_fx.deep_view() == p16.text(strings, messages)
        &&& value.pch_initial_attack_fx.deep_view() == p17.text(strings, messages)
        &&& value.ppch_continuing_fx.deep_view() == texts_n(p19, strings, messages, 4)
        &&& value.ppch_conditional_fx.deep_view() == texts_n(p21, strings, messages, 4)
        &&& Vec::<i32>::decoded(p22, strings, messages, &value.pi_mode_bits)
        &&& value.i_frames_before_hit == nonzero_or(p23.int32(), 15)
        &&& value.i_frames_before_secondary_hit == p24.int32()
        &&& value.b_delayed_hit == p25.flag()
        &&& value.i_frames_attack == nonzero_or(p26.int32(), 35)
        &&& value.i_initial_frames_before_hit == nonzero_or(p27.int32(), 15)
        &&& value.i_initial_attack_fx_frame_delay == p28.int32()
        &&& value.f_projectile_speed == p29.float32()
        &&& value.f_secondary_projectile_speed == p30.float32()
        &&& value.i_initial_frames_before_block == p31.int32()
        &&& value.pch_ignore_attack_time_errors.deep_view() == p32.text(strings, messages)
        &&& value.i_frames_before_block == p33.int32()
        &&& value.b_fx_important == p34.flag()
        &&& RGBA::decoded(p35, strings, messages, &value.rgba_default_tint_primary)
        &&& RGBA::decoded(p36, strings, messages, &value.rgba_default_tint_secondary)
        &&& value.b_hide_original == p37.flag()
        &&& !value.b_important
    }

    fn read_value(reader: &mut BinReader, strings: &StringPool, messages: &MessageStore) -> (value:
        PowerFX) {
        let ghost at_pi_attack_bits = reader@;
        let pi_attack_bits = Vec::<i32>::read_value(reader, strings, messages);
        proof {
            Vec::<i32>::lemma_scan(at_pi_attack_bits, strings);
        }
        let ghost at_pi_block_bits = reader@;
        let pi_block_bits = Vec::<i32>::read_value(reader, strings, messages);
        proof {
            Vec::<i32>::lemma_scan(at_pi_block_bits, strings);
        }
        let ghost at_pi_wind_up_bits = reader@;
        let pi_wind_up_bits = Vec::<i32>::read_value(reader, strings, messages);
        proof {
            Vec::<i32>::lemma_scan(at_pi_wind_up_bits, strings);
        }
        let ghost at_pi_hit_bits = reader@;
        let pi_hit_bits = Vec::<i32>::read_value(reader, strings, messages);
        proof {
            Vec::<i32>::lemma_scan(at_pi_hit_bits, strings);
        }
        let ghost at_pi_death_bits = reader@;
        let pi_death_bits = Vec::<i32>::read_value(reader, strings, messages);
        proof {
            Vec::<i32>::lemma_scan(at_pi_death_bits, strings);
        }
        let ghost at_pi_activation_bits = reader@;
        let pi_activation_bits = Vec::<i32>::read_value(reader, strings, messages);
        proof {
            Vec::<i32>::lemma_scan(at_pi_activation_bits, strings);
        }
        let ghost at_pi_deactivation_bits = reader@;
        let pi_deactivation_bits = Vec::<i32>::read_value(reader, strings, messages);
        proof {
            Vec::<i32>::lemma_scan(at_pi_deactivation_bits, strings);
        }
        let ghost at_pi_initial_attack_bits = reader@;
        let pi_initial_attack_bits = Vec::<i32>::read_value(reader, strings, messages);
        proof {
            Vec::<i32>::lemma_scan(at_pi_initial_attack_bits, strings);
        }
        let ghost at_pi_continuing_bits = reader@;
        let pi_continuing_bits = Vec::<i32>::read_value(reader, strings, messages);
        proof {
            Vec::<i32>::lemma_scan(at_pi_continuing_bits, strings);
        }
        let ghost at_pi_conditional_bits = reader@;
        let pi_conditional_bits = Vec::<i32>::read_value(reader, strings, messages);
        proof {
            Vec::<i32>::lemma_scan(at_pi_conditional_bits, strings);
        }
        let pch_activation_fx = reader.read_pool_string(strings, messages);
        let pch_deactivation_fx = reader.read_pool_string(strings, messages);
        let pch_attack_fx = reader.read_pool_string(strings, messages);
        let pch_secondary_attack_fx = reader.read_pool_string(strings, messages);
        let pch_hit_fx = reader.read_pool_string(strings, messages);
        let pch_wind_up_fx = reader.read_pool_string(strings, messages);
        let pch_block_fx = reader.read_pool_string(strings, messages);
        let pch_death_fx = reader.read_pool_string(strings, messages);
        let pch_initial_attack_fx = reader.read_pool_string(strings, messages);
        reader.read_u32();
        let ghost at_ppch_continuing_fx = reader@;
        let ppch_continuing_fx = reader.read_pool_string_n(4, strings, messages);
        reader.read_u32();
        let ghost at_ppch_conditional_fx = reader@;
        let ppch_conditional_fx = reader.read_pool_string_n(4, strings, messages);
        proof {
            if !at_ppch_continuing_fx.ok() {
                lemma_entries_fault(at_ppch_continuing_fx, 0, 4);
            }
            if !at_ppch_conditional_fx.ok() {
                lemma_entries_fault(at_ppch_conditional_fx, 0, 4);
            }
        }
        let ghost at_pi_mode_bits = reader@;
        let pi_mode_bits = Vec::<i32>::read_value(reader, strings, messages);
        proof {
            Vec::<i32>::lemma_scan(at_pi_mode_bits, strings);
        }
        let i_frames_before_hit = reader.read_i32_or(15);
        let i_frames_before_secondary_hit = reader.read_i32();
        let b_delayed_hit = reader.read_bool();
        let i_frames_attack = reader.read_i32_or(35);
        let i_initial_frames_before_hit = reader.read_i32_or(15);
        let i_initial_attack_fx_frame_delay = reader.read_i32();
        let f_projectile_speed = reader.read_float();
        let f_secondary_projectile_speed = reader.read_float();
        let i_initial_frames_before_block = reader.read_i32();
        let pch_ignore_attack_time_errors = reader.read_pool_string(strings, messages);
        let i_frames_before_block = reader.read_i32();
        let b_fx_important = reader.read_bool();
        let rgba_default_tint_primary = RGBA::read_value(reader, strings, messages);
        let rgba_default_tint_secondary = RGBA::read_value(reader, strings, messages);
        let b_hide_original = reader.read_bool();
        PowerFX {
            pch_source_file: None,
            pi_attack_bits,
            pi_block_bits,
            pi_wind_up_bits,
            pi_hit_bits,
            pi_death_bits,
            pi_activation_bits,
            pi_deactivation_bits,
            pi_initial_attack_bits,
            pi_continuing_bits,
            pi_conditional_bits,
            pch_activation_fx,
            pch_deactivation_fx,
            pch_attack_fx,
            pch_secondary_attack_fx,
            pch_hit_fx,
            pch_wind_up_fx,
            pch_block_fx,
            pch_death_fx,
            pch_initial_attack_fx,
            ppch_continuing_fx,
            ppch_conditional_fx,
            pi_mode_bits,
            i_frames_before_hit,
            i_frames_before_secondary_hit,
            b_delayed_hit,
            i_frames_attack,
            i_initial_frames_before_hit,
            i_initial_attack_fx_frame_delay,
            f_projectile_speed,
            f_secondary_projectile_speed,
            i_initial_frames_before_block,
            pch_ignore_attack_time_errors,
            i_frames_before_block,
            b_important: false,
            b_fx_important,
            rgba_default_tint_primary,
            rgba_default_tint_secondary,
            b_hide_original,
        }
    }

    proof fn lemma_scan(c: Cursor, strings: &StringPool) {
        Vec::<i32>::lemma_scan(c, strings);
        if !c.ok() {
            lemma_entries_fault(c, 0, 4);
        }
    }
}

impl BinReadable for CustomPowerFX {
    open spec fn scan(c: Cursor, strings: &StringPool) -> Cursor {
        let frame = c.frame();
        let p0 = c.advance(4);
        let p1 = p0.advance(4);
        let p2 = p1.after_words();
        let p3 = p2.advance(4);
        let p4 = p3.advance(4);
        let p5 = p4.advance(4);
        let p6 = PowerFX::scan(p5, strings);
        let p7 = p6.advance(4);
        p7.close(frame)
    }

    open spec fn decoded(
        c: Cursor,
        strings: &StringPool,
        messages: &MessageStore,
        value: &CustomPowerFX,
    ) -> bool {
        let p0 = c.advance(4);
        let p1 = p0.advance(4);
        let p2 = p1.after_words();
        let p3 = p2.advance(4);
        let p4 = p3.advance(4);
        let p5 = p4.advance(4);
        let p6 = PowerFX::scan(p5, strings);
        &&& value.pch_token.deep_view() == p0.text(strings, messages)
        &&& value.ppch_alt_themes.deep_view() == p1.texts(strings, messages)
        &&& value.pch_category.deep_view() == p3.text(strings, messages)
        &&& value.pch_display_name.deep_view() == p4.text(strings, messages)
        &&& value.p_fx is Some
        &&& value.p_fx->0.pch_source_file.deep_view() == p2.text(strings, messages)
        &&& PowerFX::decoded(p5, strings, messages, &value.p_fx->0)
        &&& value.pch_palette_name.deep_view() == p6.text(strings, messages)
    }

    fn read_value(reader: &mut BinReader, strings: &StringPool, messages: &MessageStore) -> (value:
        CustomPowerFX) {
        let frame = reader.open_frame();
        let pch_token = reader.read_pool_string(strings, messages);
        let ppch_alt_themes = reader.read_pool_string_arr(strings, messages);
        let fx_source_file = reader.read_pool_string(strings, messages);
        let pch_category = reader.read_pool_string(strings, messages);
        let pch_display_name = reader.read_pool_string(strings, messages);
        let ghost at_p_fx = reader@;
        let mut fx = PowerFX::read_value(reader, strings, messages);
        fx.pch_source_file = fx_source_file;
        let p_fx = Some(fx);
        proof {
            PowerFX::lemma_scan(at_p_fx, strings);
        }
        let pch_palette_name = reader.read_pool_string(strings, messages);
        reader.close_frame(frame);
        CustomPowerFX {
            pch_display_name,
            pch_token,
            ppch_alt_themes,
            pch_category,
            p_fx,
            pch_palette_name,
        }
    }

    proof fn lemma_scan(c: Cursor, strings: &StringPool) {
        PowerFX::lemma_scan(c, strings);
    }
}

impl BinReadable for BasePower {
    open spec fn scan(c: Cursor, strings: &StringPool) -> Cursor {
        let frame = c.frame();
        let p0 = c.advance(4);
        let p1 = p0.after_required_name(strings);
        let p2 = p1.advance(4);
        let p3 = p2.advance(4);
        let p4 = p3.advance(4);
        let p5 = p4.advance(4);
        let p6 = p5.advance(4);
        let p7 = p6.advance(4);
        let p8 = p7.advance(4);
        let p9 = p8.advance(4);
        let p10 = p9.advance(4);
        let p11 = p10.advance(4);
        let p12 = p11.advance(4);
        let p13 = p12.advance(4);
        let p14 = p13.advance(4);
        let p15 = p14.advance(4);
        let p16 = p15.advance(4);
        let p17 = p16.advance(4);
        let p18 = p17.advance(4);
        let p19 = p18.advance(4);
        let p20 = p19.advance(4);
        let p21 = p20.advance(4);
        let p22 = p21.advance(4);
        let p23 = p22.advance(4);
        let p24 = p23.advance(4);
        let p25 = Vec::<SpecialAttrib>::scan(p24, strings);
        let p26 = p25.after_words();
        let p27 = p26.after_words();
        let p28 = p27.after_words();
        let p29 = p28.after_words();
        let p30 = p29.after_words();
        let p31 = p30.after_words();
        let p32 = p31.advance(4);
        let p33 = p32.advance(4);
        let p34 = p33.advance(4);
        let p35 = p34.advance(4);
        let p36 = p35.advance(4);
        let p37 = p36.advance(4);
        let p38 = p37.advance(4);
        let p39 = p38.advance(4);
        let p40 = p39.advance(4);
        let p41 = p40.advance(4);
        let p42 = p41.advance(4);
        let p43 = p42.advance(4);
        let p44 = p43.advance(4);
        let p45 = p44.advance(4);
        let p46 = p45.advance(4);
        let p47 = p46.advance(4);
        let p48 = p47.advance(4);
        let p49 = p48.advance(4);
        let p50 = p49.after_words();
        let p51 = p50.advance(4);
        let p52 = p51.advance(4);
        let p53 = p52.advance(4);
        let p54 = p53.after_words();
        let p55 = Vec::<i32>::scan(p54, strings);
        let p56 = Vec::<i32>::scan(p55, strings);
        let p57 = Vec3::scan(p56, strings);
        let p58 = Vec3::scan(p57, strings);
        let p59 = p58.advance(4);
        let p60 = p59.advance(4);
        let p61 = p60.advance(4);
        let p62 = p61.advance(4);
        let p63 = p62.advance(4);
        let p64 = p63.advance(4);
        let p65 = p64.advance(4);
        let p66 = p65.advance(4);
        let p67 = p66.advance(4);
        let p68 = p67.after_words();
        let p69 = p68.advance(4);
        let p70 = p69.advance(4);
        let p71 = p70.advance(4);
        let p72 = p71.advance(4);
        let p73 = p72.advance(4);
        let p74 = p73.advance(4);
        let p75 = p74.advance(4);
        let p76 = p75.advance(4);
        let p77 = p76.advance(4);
        let p78 = p77.advance(4);
        let p79 = p78.advance(4);
        let p80 = p79.advance(4);
        let p81 = p80.advance(4);
        let p82 = p81.advance(4);
        let p83 = p82.after_words();
        let p84 = p83.after_words();
        let p85 = p84.advance(4);
        let p86 = Vec::<SpecialAttrib>::scan(p85, strings);
        let p87 = Vec::<SpecialAttrib>::scan(p86, strings);
        let p88 = Vec::<SpecialAttrib>::scan(p87, strings);
        let p89 = Vec::<SpecialAttrib>::scan(p88, strings);
        let p90 = p89.after_words();
        let p91 = Vec::<PowerRedirect>::scan(p90, strings);
        let p92 = Vec::<EffectGroup>::scan(p91, strings);
        let p93 = p92.advance(4);
        let p94 = p93.advance(4);
        let p95 = p94.advance(4);
        let p96 = p95.advance(4);
        let p97 = p96.advance(4);
        let p98 = p97.advance(4);
        let p99 = p98.advance(4);
        let p100 = p99.advance(4);
        let p101 = p100.advance(4);
        let p102 = p101.advance(4);
        let p103 = p102.advance(4);
        let p104 = p103.advance(4);
        let p105 = p104.advance(4);
        let p106 = p105.advance(4);
        let p107 = p106.advance(4);
        let p108 = p107.advance(4);
        let p109 = p108.advance(4);
        let p110 = p109.advance(4);
        let p111 = p110.advance(4);
        let p112 = p111.advance(4);
        let p113 = p112.advance(4);
        let p114 = p113.advance(4);
        let p115 = p114.advance(4);
        let p116 = p115.advance(4);
        let p117 = p116.advance(4);
        let p118 = Vec::<SpecialAttrib>::scan(p117, strings);
        let p119 = p118.advance(4);
        let p120 = p119.advance(4);
        let p121 = p120.after_words();
        let p122 = p121.advance(4);
        let p123 = RGBA::scan(p122, strings);
        let p124 = p123.advance(4);
        let p125 = p124.advance(4);
        let p126 = p125.advance(4);
        let p127 = p126.advance(4);
        let p128 = p127.advance(4);
        let p129 = p128.advance(4);
        let p130 = p129.advance(4);
        let p131 = p130.advance(4);
        let p132 = p131.advance(4);
        let p133 = p132.advance(4);
        let p134 = p133.advance(4);
        let p135 = p134.advance(4);
        let p136 = p135.advance(4);
        let p137 = p136.advance(4);
        let p138 = p137.after_words();
        let p139 = p138.advance(4);
        let p140 = p139.advance(4);
        let p141 = p140.advance(4);
        let p142 = p141.advance(4);
        let p143 = p142.advance(4);
        let p144 = p143.advance(4);
        let p145 = Vec::<SpecialAttrib>::scan(p144, strings);
        let p146 = p145.advance(4);
        let p147 = PowerFX::scan(p146, strings);
        let p148 = Vec::<CustomPowerFX>::scan(p147, strings);
        p148.close(frame)
    }

    open spec fn decoded(
        c: Cursor,
        strings: &StringPool,
        messages: &MessageStore,
        value: &BasePower,
    ) -> bool {
        let p0 = c.advance(4);
        let p1 = p0.after_required_name(strings);
        let p2 = p1.advance(4);
        let p3 = p2.advance(4);
        let p4 = p3.advance(4);
        let p5 = p4.advance(4);
        let p6 = p5.advance(4);
        let p7 = p6.advance(4);
        let p8 = p7.advance(4);
        let p9 = p8.advance(4);
        let p10 = p9.advance(4);
        let p11 = p10.advance(4);
        let p12 = p11.advance(4);
        let p13 = p12.advance(4);
        let p14 = p13.advance(4);
        let p15 = p14.advance(4);
        let p16 = p15.advance(4);
        let p17 = p16.advance(4);
        let p18 = p17.advance(4);
        let p19 = p18.advance(4);
        let p20 = p19.advance(4);
        let p21 = p20.advance(4);
        let p22 = p21.advance(4);
        let p23 = p22.advance(4);
        let p24 = p23.advance(4);
        let p25 = Vec::<SpecialAttrib>::scan(p24, strings);
        let p26 = p25.after_words();
        let p27 = p26.after_words();
        let p28 = p27.after_words();
        let p29 = p28.after_words();
        let p30 = p29.after_words();
        let p31 = p30.after_words();
        let p32 = p31.advance(4);
        let p33 = p32.advance(4);
        let p34 = p33.advance(4);
        let p35 = p34.advance(4);
        let p36 = p35.advance(4);
        let p37 = p36.advance(4);
        let p38 = p37.advance(4);
        let p39 = p38.advance(4);
        let p40 = p39.advance(4);
        let p41 = p40.advance(4);
        let p42 = p41.advance(4);
        let p43 = p42.advance(4);
        let p44 = p43.advance(4);
        let p45 = p44.advance(4);
        let p46 = p45.advance(4);
        let p47 = p46.advance(4);
        let p48 = p47.advance(4);
        let p49 = p48.advance(4);
        let p50 = p49.after_words();
        let p51 = p50.advance(4);
        let p52 = p51.advance(4);
        let p53 = p52.advance(4);
        let p54 = p53.after_words();
        let p55 = Vec::<i32>::scan(p54, strings);
        let p56 = Vec::<i32>::scan(p55, strings);
        let p57 = Vec3::scan(p56, strings);
        let p58 = Vec3::scan(p57, strings);
        let p59 = p58.advance(4);
        let p60 = p59.advance(4);
        let p61 = p60.advance(4);
        let p62 = p61.advance(4);
        let p63 = p62.advance(4);
        let p64 = p63.advance(4);
        let p65 = p64.advance(4);
        let p66 = p65.advance(4);
        let p67 = p66.advance(4);
        let p68 = p67.after_words();
        let p69 = p68.advance(4);
        let p70 = p69.advance(4);
        let p71 = p70.advance(4);
        let p72 = p71.advance(4);
        let p73 = p72.advance(4);
        let p74 = p73.advance(4);
        let p75 = p74.advance(4);
        let p76 = p75.advance(4);
        let p77 = p76.advance(4);
        let p78 = p77.advance(4);
        let p79 = p78.advance(4);
        let p80 = p79.advance(4);
        let p81 = p80.advance(4);
        let p82 = p81.advance(4);
        let p83 = p82.after_words();
        let p84 = p83.after_words();
        let p85 = p84.advance(4);
        let p86 = Vec::<SpecialAttrib>::scan(p85, strings);
        let p87 = Vec::<SpecialAttrib>::scan(p86, strings);
        let p88 = Vec::<SpecialAttrib>::scan(p87, strings);
        let p89 = Vec::<SpecialAttrib>::scan(p88, strings);
        let p90 = p89.after_words();
        let p91 = Vec::<PowerRedirect>::scan(p90, strings);
        let p92 = Vec::<EffectGroup>::scan(p91, strings);
        let p93 = p92.advance(4);
        let p94 = p93.advance(4);
        let p95 = p94.advance(4);
        let p96 = p95.advance(4);
        let p97 = p96.advance(4);
        let p98 = p97.advance(4);
        let p99 = p98.advance(4);
        let p100 = p99.advance(4);
        let p101 = p100.advance(4);
        let p102 = p101.advance(4);
        let p103 = p102.advance(4);
        let p104 = p103.advance(4);
        let p105 = p104.advance(4);
        let p106 = p105.advance(4);
        let p107 = p106.advance(4);
        let p108 = p107.advance(4);
        let p109 = p108.advance(4);
        let p110 = p109.advance(4);
        let p111 = p110.advance(4);
        let p112 = p111.advance(4);
        let p113 = p112.advance(4);
        let p114 = p113.advance(4);
        let p115 = p114.advance(4);
        let p116 = p115.advance(4);
        let p117 = p116.advance(4);
        let p118 = Vec::<SpecialAttrib>::scan(p117, strings);
        let p119 = p118.advance(4);
        let p120 = p119.advance(4);
        let p121 = p120.after_words();
        let p122 = p121.advance(4);
        let p123 = RGBA::scan(p122, strings);
        let p124 = p123.advance(4);
        let p125 = p124.advance(4);
        let p126 = p125.advance(4);
        let p127 = p126.advance(4);
        let p128 = p127.advance(4);
        let p129 = p128.advance(4);
        let p130 = p129.advance(4);
        let p131 = p130.advance(4);
        let p132 = p131.advance(4);
        let p133 = p132.advance(4);
        let p134 = p133.advance(4);
        let p135 = p134.advance(4);
        let p136 = p135.advance(4);
        let p137 = p136.advance(4);
        let p138 = p137.after_words();
        let p139 = p138.advance(4);
        let p140 = p139.advance(4);
        let p141 = p140.advance(4);
        let p142 = p141.advance(4);
        let p143 = p142.advance(4);
        let p144 = p143.advance(4);
        let p145 = Vec::<SpecialAttrib>::scan(p144, strings);
        let p146 = p145.advance(4);
        let p147 = PowerFX::scan(p146, strings);
        &&& value.pch_full_name.deep_view() == p0.name(strings)
        &&& value.data.source_file.deep_view() == p2.text(strings, messages)
        &&& value.data.pch_name.deep_view() == p3.text(strings, messages)
        &&& value.data.pch_source_name.deep_view() == p4.text(strings, messages)
        &&& value.data.e_system == PowerSystem::of_wire(p5.word())
        &&& value.data.b_auto_issue == p6.flag()
        &&& value.data.b_auto_issue_save_level == p7.flag()
        &&& value.data.b_free == p8.flag()
        &&& value.data.pch_display_name.deep_view() == p9.text(strings, messages)
        &&& value.data.pch_display_help.deep_view() == p10.text(strings, messages)
        &&& value.data.pch_display_short_help.deep_view() == p11.text(strings, messages)
        &&& value.data.pch_display_target_help.deep_view() == p12.text(strings, messages)
        &&& value.data.pch_display_target_short_help.deep_view() == p13.text(strings, messages)
        &&& value.data.pch_display_attacker_attack.deep_view() == p14.text(strings, messages)
        &&& value.data.pch_display_attacker_attack_floater.deep_view() == p15.text(strings, messages)
        &&& value.data.pch_display_attacker_hit.deep_view() == p16.text(strings, messages)
        &&& value.data.pch_display_victim_hit.deep_view() == p17.text(strings, messages)
        &&& value.data.pch_display_confirm.deep_view() == p18.text(strings, messages)
        &&& value.data.pch_display_float_rewarded.deep_view() == p19.text(strings, messages)
        &&& value.data.pch_display_defense_float.deep_view() == p20.text(strings, messages)
        &&& value.data.pch_icon_name.deep_view() == p21.text(strings, messages)
        &&& value.data.e_type == PowerType::of_wire(p22.word())
        &&& value.data.i_num_allowed == p23.int32()
        &&& Vec::<SpecialAttrib>::decoded(p24, strings, messages, &value.data.pe_attack_types)
        &&& value.data.ppch_buy_requires.deep_view() == p25.texts(strings, messages)
        &&& value.data.ppch_activate_requires.deep_view() == p26.texts(strings, messages)
        &&& value.data.ppch_slot_requires.deep_view() == p27.texts(strings, messages)
        &&& value.data.ppch_target_requires.deep_view() == p28.texts(strings, messages)
        &&& value.data.ppch_reward_requires.deep_view() == p29.texts(strings, messages)
        &&& value.data.ppch_auction_requires.deep_view() == p30.texts(strings, messages)
        &&& value.data.pch_reward_fallback.deep_view() == p31.text(strings, messages)
        &&& value.data.f_accuracy == p32.float32()
        &&& value.data.b_near_ground == p33.flag()
        &&& value.data.b_target_near_ground == p34.flag()
        &&& value.data.e_death_castable_setting == DeathCastableSetting::of_wire(p35.word())
        &&& value.data.b_cast_through_hold == p36.flag()
        &&& value.data.b_cast_through_sleep == p37.flag()
        &&& value.data.b_cast_through_stun == p38.flag()
        &&& value.data.b_cast_through_terrorize == p39.flag()
        &&& value.data.b_toggle_ignore_hold == p40.flag()
        &&& value.data.b_toggle_ignore_sleep == p41.flag()
        &&& value.data.b_toggle_ignore_stun == p42.flag()
        &&& value.data.b_ignore_level_bought == p43.flag()
        &&& value.data.b_shoot_through_untouchable == p44.flag()
        &&& value.data.b_interrupt_like_sleep == p45.flag()
        &&& value.data.e_ai_report == AIReport::of_wire(p46.word())
        &&& value.data.e_effect_area == EffectArea::of_wire(p47.word())
        &&& value.data.i_max_targets_hit == p48.int32()
        &&& value.data.ppch_max_targets_expr.deep_view() == p49.texts(strings, messages)
        &&& value.data.f_radius == p50.float32()
        &&& value.data.f_arc == p51.float32()
        &&& value.data.f_chain_delay == p52.float32()
        &&& value.data.ppch_chain_eff.deep_view() == p53.texts(strings, messages)
        &&& Vec::<i32>::decoded(p54, strings, messages, &value.data.pi_chain_fork)
        &&& Vec::<i32>::decoded(p55, strings, messages, &value.data.pi_unknown)
        &&& Vec3::decoded(p56, strings, messages, &value.data.vec_box_offset)
        &&& Vec3::decoded(p57, strings, messages, &value.data.vec_box_size)
        &&& value.data.f_range == p58.float32()
        &&& value.data.f_range_secondary == p59.float32()
        &&& value.data.f_time_to_activate == p60.float32()
        &&& value.data.f_recharge_time == p61.float32()
        &&& value.data.f_activate_period == p62.float32()
        &&& value.data.f_endurance_cost == p63.float32()
        &&& value.data.f_insight_cost == p64.float32()
        &&& value.data.i_time_to_confirm == p65.int32()
        &&& value.data.b_self_confirm == p66.flag()
        &&& value.data.ppch_confirm_requires.deep_view() == p67.texts(strings, messages)
        &&& value.data.b_destroy_on_limit == p68.flag()
        &&& value.data.b_stacking_usage == p69.flag()
        &&& value.data.i_num_charges == p70.int32()
        &&& value.data.i_max_num_charges == p71.int32()
        &&& value.data.f_usage_time == p72.float32()
        &&& value.data.f_max_usage_time == p73.float32()
        &&& value.data.f_lifetime == p74.float32()
        &&& value.data.f_max_lifetime == p75.float32()
        &&& value.data.f_lifetime_in_game == p76.float32()
        &&& value.data.f_max_lifetime_in_game == p77.float32()
        &&& value.data.f_interrupt_time == p78.float32()
        &&& value.data.e_target_visibility == TargetVisibility::of_wire(p79.word())
        &&& value.data.e_target_type == TargetType::of_wire(p80.word())
        &&& value.data.e_target_type_secondary == TargetType::of_wire(p81.word())
        &&& value.data.p_auto_hit@ == enums_n::<TargetType>(p82.advance(4), p82.word() as nat)
        &&& value.data.p_affected@ == enums_n::<TargetType>(p83.advance(4), p83.word() as nat)
        &&& value.data.b_targets_through_vision_phase == p84.flag()
        &&& Vec::<SpecialAttrib>::decoded(p85, strings, messages, &value.data.pe_boosts_allowed)
        &&& Vec::<SpecialAttrib>::decoded(p86, strings, messages, &value.data.pe_group_membership)
        &&& Vec::<SpecialAttrib>::decoded(p87, strings, messages, &value.data.pe_modes_required)
        &&& Vec::<SpecialAttrib>::decoded(p88, strings, messages, &value.data.pe_modes_disallowed)
        &&& value.data.ppch_ai_groups.deep_view() == p89.texts(strings, messages)
        &&& Vec::<PowerRedirect>::decoded(p90, strings, messages, &value.pp_redirect)
        &&& Vec::<EffectGroup>::decoded(p91, strings, messages, &value.pp_effects)
        &&& value.data.b_ignore_strength == p92.flag()
        &&& value.data.b_show_buff_icon == p93.flag()
        &&& value.data.e_show_in_inventory == ShowPowerSetting::of_wire(p94.word())
        &&& value.data.b_show_in_manage == p95.flag()
        &&& value.data.b_show_in_info == p96.flag()
        &&& value.data.b_deletable == p97.flag()
        &&& value.data.b_tradeable == p98.flag()
        &&& value.data.i_max_boosts == p99.int32()
        &&& value.data.b_do_not_save == p100.flag()
        &&& value.data.b_boost_ignore_effectiveness == p101.flag()
        &&& value.data.b_boost_always_count_for_set == p102.flag()
        &&& value.data.b_boost_tradeable == p103.flag()
        &&& value.data.b_boost_combinable == p104.flag()
        &&& value.data.b_boost_account_bound == p105.flag()
        &&& value.data.b_boost_boostable == p106.flag()
        &&& value.data.b_boost_use_player_level == p107.flag()
        &&& value.data.pch_boost_catalyst_conversion.deep_view() == p108.text(strings, messages)
        &&& value.data.pch_store_product.deep_view() == p109.text(strings, messages)
        &&& value.data.i_boost_invention_license_required_level == p110.int32()
        &&& value.data.i_min_slot_level == p111.int32()
        &&& value.data.i_max_slot_level == p112.int32()
        &&& value.data.i_max_boost_level == p113.int32()
        &&& Vec::<SpecialAttrib>::decoded(p117, strings, messages, &value.data.pp_vars)
        &&& value.data.e_toggle_droppable == ToggleDroppable::of_wire(p118.word())
        &&& value.data.e_proc_allowed == ProcAllowed::of_wire(p119.word())
        &&& value.data.ppch_highlight_eval.deep_view() == p120.texts(strings, messages)
        &&& value.data.pch_highlight_icon.deep_view() == p121.text(strings, messages)
        &&& RGBA::decoded(p122, strings, messages, &value.data.rgba_highlight_ring)
        &&& value.data.f_travel_suppression == p123.float32()
        &&& value.data.f_preference_multiplier == p124.float32()
        &&& value.data.b_dont_set_stance == p125.flag()
        &&& value.data.f_point_val == p126.float32()
        &&& value.data.f_point_multiplier == p127.float32()
        &&& value.data.pch_chain_into_power_name.deep_view() == p128.text(strings, messages)
        &&& value.data.b_instance_locked == p129.flag()
        &&& value.data.b_is_environment_hit == p130.flag()
        &&& value.data.b_shuffle_target_list == p131.flag()
        &&& value.data.i_force_level_bought == p132.int32()
        &&& value.data.b_refreshes_on_active_player_change == p133.flag()
        &&& value.data.b_cancelable == p134.flag()
        &&& value.data.b_ignore_toggle_max_distance == p135.flag()
        &&& value.data.i_server_tray_priority == p136.int32()
        &&& value.data.ppch_server_tray_requires.deep_view() == p137.texts(strings, messages)
        &&& value.data.b_abusive_buff == p138.flag()
        &&& value.data.e_position_center == ModTarget::of_wire(p139.word())
        &&& value.data.f_position_distance == p140.float32()
        &&& value.data.f_position_height == p141.float32()
        &&& value.data.f_position_yaw == p142.float32()
        &&& value.data.b_face_target == p143.flag()
        &&& Vec::<SpecialAttrib>::decoded(p144, strings, messages, &value.data.pe_attrib_cache)
        &&& value.data.p_fx is Some
        &&& value.data.p_fx->0.pch_source_file.deep_view() == p145.text(strings, messages)
        &&& PowerFX::decoded(p146, strings, messages, &value.data.p_fx->0)
        &&& Vec::<CustomPowerFX>::decoded(p147, strings, messages, &value.data.pp_custom_fx)
        &&& value.data.f_unknown.bits == 0
        &&& value.data.ppch_unknown@.len() == 0
        &&& value.data.p_strengths_disallowed@.len() == 0
        &&& !value.data.b_use_non_boost_templates_on_main_target
        &&& !value.data.b_main_target_only
        &&& !value.include_in_output
        &&& value.archetypes@.len() == 0
        &&& !value.redirects_resolved
        &&& value.enhancement_set_categories_allowed@.len() == 0
    }

    #[verifier::rlimit(100)]
    fn read_value(reader: &mut BinReader, strings: &StringPool, messages: &MessageStore) -> (value:
        BasePower) {
        let frame = reader.open_frame();
        let pch_full_name = reader.read_required_name_key(strings);
        reader.read_u32();
        let source_file = reader.read_pool_string(strings, messages);
        let pch_name = reader.read_pool_string(strings, messages);
        let pch_source_name = reader.read_pool_string(strings, messages);
        let e_system = bin_read_enum::<PowerSystem>(reader);
        let b_auto_issue = reader.read_bool();
        let b_auto_issue_save_level = reader.read_bool();
        let b_free = reader.read_bool();
        let pch_display_name = reader.read_pool_string(strings, messages);
        let pch_display_help = reader.read_pool_string(strings, messages);
        let pch_display_short_help = reader.read_pool_string(strings, messages);
        let pch_display_target_help = reader.read_pool_string(strings, messages);
        let pch_display_target_short_help = reader.read_pool_string(strings, messages);
        let pch_display_attacker_attack = reader.read_pool_string(strings, messages);
        let pch_display_attacker_attack_floater = reader.read_pool_string(strings, messages);
        let pch_display_attacker_hit = reader.read_pool_string(strings, messages);
        let pch_display_victim_hit = reader.read_pool_string(strings, messages);
        let pch_display_confirm = reader.read_pool_string(strings, messages);
        let pch_display_float_rewarded = reader.read_pool_string(strings, messages);
        let pch_display_defense_float = reader.read_pool_string(strings, messages);
        let pch_icon_name = reader.read_pool_string(strings, messages);
        let e_type = bin_read_enum::<PowerType>(reader);
        let i_num_allowed = reader.read_i32();
        let ghost at_pe_attack_types = reader@;
        let pe_attack_types = Vec::<SpecialAttrib>::read_value(reader, strings, messages);
        proof {
            Vec::<SpecialAttrib>::lemma_scan(at_pe_attack_types, strings);
        }
        let ppch_buy_requires = reader.read_pool_string_arr(strings, messages);
        let ppch_activate_requires = reader.read_pool_string_arr(strings, messages);
        let ppch_slot_requires = reader.read_pool_string_arr(strings, messages);
        let ppch_target_requires = reader.read_pool_string_arr(strings, messages);
        let ppch_reward_requires = reader.read_pool_string_arr(strings, messages);
        let ppch_auction_requires = reader.read_pool_string_arr(strings, messages);
        let pch_reward_fallback = reader.read_pool_string(strings, messages);
        let f_accuracy = reader.read_float();
        let b_near_ground = reader.read_bool();
        let b_target_near_ground = reader.read_bool();
        let e_death_castable_setting = bin_read_enum::<DeathCastableSetting>(reader);
        let b_cast_through_hold = reader.read_bool();
        let b_cast_through_sleep = reader.read_bool();
        let b_cast_through_stun = reader.read_bool();
        let b_cast_through_terrorize = reader.read_bool();
        let b_toggle_ignore_hold = reader.read_bool();
        let b_toggle_ignore_sleep = reader.read_bool();
        let b_toggle_ignore_stun = reader.read_bool();
        let b_ignore_level_bought = reader.read_bool();
        let b_shoot_through_untouchable = reader.read_bool();
        let b_interrupt_like_sleep = reader.read_bool();
        let e_ai_report = bin_read_enum::<AIReport>(reader);
        let e_effect_area = bin_read_enum::<EffectArea>(reader);
        let i_max_targets_hit = reader.read_i32();
        let ppch_max_targets_expr = reader.read_pool_string_arr(strings, messages);
        let f_radius = reader.read_float();
        let f_arc = reader.read_float();
        let f_chain_delay = reader.read_float();
        let ppch_chain_eff = reader.read_pool_string_arr(strings, messages);
        let ghost at_pi_chain_fork = reader@;
        let pi_chain_fork = Vec::<i32>::read_value(reader, strings, messages);
        proof {
            Vec::<i32>::lemma_scan(at_pi_chain_fork, strings);
        }
        let ghost at_pi_unknown = reader@;
        let pi_unknown = Vec::<i32>::read_value(reader, strings, messages);
        proof {
            Vec::<i32>::lemma_scan(at_pi_unknown, strings);
        }
        let vec_box_offset = Vec3::read_value(reader, strings, messages);
        let vec_box_size = Vec3::read_value(reader, strings, messages);
        let f_range = reader.read_float();
        let f_range_secondary = reader.read_float();
        let f_time_to_activate = reader.read_float();
        let f_recharge_time = reader.read_float();
        let f_activate_period = reader.read_float();
        let f_endurance_cost = reader.read_float();
        let f_insight_cost = reader.read_float();
        let i_time_to_confirm = reader.read_i32();
        let b_self_confirm = reader.read_bool();
        let ppch_confirm_requires = reader.read_pool_string_arr(strings, messages);
        let b_destroy_on_limit = reader.read_bool();
        let b_stacking_usage = reader.read_bool();
        let i_num_charges = reader.read_i32();
        let i_max_num_charges = reader.read_i32();
        let f_usage_time = reader.read_float();
        let f_max_usage_time = reader.read_float();
        let f_lifetime = reader.read_float();
        let f_max_lifetime = reader.read_float();
        let f_lifetime_in_game = reader.read_float();
        let f_max_lifetime_in_game = reader.read_float();
        let f_interrupt_time = reader.read_float();
        let e_target_visibility = bin_read_enum::<TargetVisibility>(reader);
        let e_target_type = bin_read_enum::<TargetType>(reader);
        let e_target_type_secondary = bin_read_enum::<TargetType>(reader);
        let p_auto_hit = bin_read_enum_arr::<TargetType>(reader);
        let p_affected = bin_read_enum_arr::<TargetType>(reader);
        let b_targets_through_vision_phase = reader.read_bool();
        let ghost at_pe_boosts_allowed = reader@;
        let pe_boosts_allowed = Vec::<SpecialAttrib>::read_value(reader, strings, messages);
        proof {
            Vec::<SpecialAttrib>::lemma_scan(at_pe_boosts_allowed, strings);
        }
        let ghost at_pe_group_membership = reader@;
        let pe_group_membership = Vec::<SpecialAttrib>::read_value(reader, strings, messages);
        proof {
            Vec::<SpecialAttrib>::lemma_scan(at_pe_group_membership, strings);
        }
        let ghost at_pe_modes_required = reader@;
        let pe_modes_required = Vec::<SpecialAttrib>::read_value(reader, strings, messages);
        proof {
            Vec::<SpecialAttrib>::lemma_scan(at_pe_modes_required, strings);
        }
        let ghost at_pe_modes_disallowed = reader@;
        let pe_modes_disallowed = Vec::<SpecialAttrib>::read_value(reader, strings, messages);
        proof {
            Vec::<SpecialAttrib>::lemma_scan(at_pe_modes_disallowed, strings);
        }
        let ppch_ai_groups = reader.read_pool_string_arr(strings, messages);
        let ghost at_pp_redirect = reader@;
        let pp_redirect = Vec::<PowerRedirect>::read_value(reader, strings, messages);
        proof {
            Vec::<PowerRedirect>::lemma_scan(at_pp_redirect, strings);
        }
        let ghost at_pp_effects = reader@;
        let pp_effects = Vec::<EffectGroup>::read_value(reader, strings, messages);
        proof {
            Vec::<EffectGroup>::lemma_scan(at_pp_effects, strings);
        }
        let b_ignore_strength = reader.read_bool();
        let b_show_buff_icon = reader.read_bool();
        let e_show_in_inventory = bin_read_enum::<ShowPowerSetting>(reader);
        let b_show_in_manage = reader.read_bool();
        let b_show_in_info = reader.read_bool();
        let b_deletable = reader.read_bool();
        let b_tradeable = reader.read_bool();
        let i_max_boosts = reader.read_i32();
        let b_do_not_save = reader.read_bool();
        let b_boost_ignore_effectiveness = reader.read_bool();
        let b_boost_always_count_for_set = reader.read_bool();
        let b_boost_tradeable = reader.read_bool();
        let b_boost_combinable = reader.read_bool();
        let b_boost_account_bound = reader.read_bool();
        let b_boost_boostable = reader.read_bool();
        let b_boost_use_player_level = reader.read_bool();
        let pch_boost_catalyst_conversion = reader.read_pool_string(strings, messages);
        let pch_store_product = reader.read_pool_string(strings, messages);
        let i_boost_invention_license_required_level = reader.read_i32();
        let i_min_slot_level = reader.read_i32();
        let i_max_slot_level = reader.read_i32();
        let i_max_boost_level = reader.read_i32();
        reader.read_u32();
        reader.read_u32();
        reader.read_u32();
        let ghost at_pp_vars = reader@;
        let pp_vars = Vec::<SpecialAttrib>::read_value(reader, strings, messages);
        proof {
            Vec::<SpecialAttrib>::lemma_scan(at_pp_vars, strings);
        }
        let e_toggle_droppable = bin_read_enum::<ToggleDroppable>(reader);
        let e_proc_allowed = bin_read_enum::<ProcAllowed>(reader);
        let ppch_highlight_eval = reader.read_pool_string_arr(strings, messages);
        let pch_highlight_icon = reader.read_pool_string(strings, messages);
        let rgba_highlight_ring = RGBA::read_value(reader, strings, messages);
        let f_travel_suppression = reader.read_float();
        let f_preference_multiplier = reader.read_float();
        let b_dont_set_stance = reader.read_bool();
        let f_point_val = reader.read_float();
        let f_point_multiplier = reader.read_float();
        let pch_chain_into_power_name = reader.read_pool_string(strings, messages);
        let b_instance_locked = reader.read_bool();
        let b_is_environment_hit = reader.read_bool();
        let b_shuffle_target_list = reader.read_bool();
        let i_force_level_bought = reader.read_i32();
        let b_refreshes_on_active_player_change = reader.read_bool();
        let b_cancelable = reader.read_bool();
        let b_ignore_toggle_max_distance = reader.read_bool();
        let i_server_tray_priority = reader.read_i32();
        let ppch_server_tray_requires = reader.read_pool_string_arr(strings, messages);
        let b_abusive_buff = reader.read_bool();
        let e_position_center = bin_read_enum::<ModTarget>(reader);
        let f_position_distance = reader.read_float();
        let f_position_height = reader.read_float();
        let f_position_yaw = reader.read_float();
        let b_face_target = reader.read_bool();
        let ghost at_pe_attrib_cache = reader@;
        let pe_attrib_cache = Vec::<SpecialAttrib>::read_value(reader, strings, messages);
        proof {
            Vec::<SpecialAttrib>::lemma_scan(at_pe_attrib_cache, strings);
        }
        let fx_source_file = reader.read_pool_string(strings, messages);
        let ghost at_p_fx = reader@;
        let mut fx = PowerFX::read_value(reader, strings, messages);
        fx.pch_source_file = fx_source_file;
        let p_fx = Some(fx);
        proof {
            PowerFX::lemma_scan(at_p_fx, strings);
        }
        let ghost at_pp_custom_fx = reader@;
        let pp_custom_fx = Vec::<CustomPowerFX>::read_value(reader, strings, messages);
        proof {
            Vec::<CustomPowerFX>::lemma_scan(at_pp_custom_fx, strings);
        }
        reader.close_frame(frame);
        let data = PowerData {
            pch_name,
            pch_source_name,
            source_file,
            e_system,
            b_auto_issue,
            b_auto_issue_save_level,
            b_free,
            pch_display_name,
            pch_display_help,
            pch_display_short_help,
            pch_display_target_help,
            pch_display_target_short_help,
            pch_display_attacker_attack,
            pch_display_attacker_attack_floater,
            pch_display_attacker_hit,
            pch_display_victim_hit,
            pch_display_confirm,
            pch_display_float_rewarded,
            pch_display_defense_float,
            pch_icon_name,
            e_type,
            i_num_allowed,
            pe_attack_types,
            ppch_buy_requires,
            ppch_activate_requires,
            ppch_slot_requires,
            ppch_target_requires,
            ppch_reward_requires,
            ppch_auction_requires,
            pch_reward_fallback,
            f_accuracy,
            b_near_ground,
            b_target_near_ground,
            e_death_castable_setting,
            b_cast_through_hold,
            b_cast_through_sleep,
            b_cast_through_stun,
            b_cast_through_terrorize,
            b_toggle_ignore_hold,
            b_toggle_ignore_sleep,
            b_toggle_ignore_stun,
            b_ignore_level_bought,
            b_shoot_through_untouchable,
            b_interrupt_like_sleep,
            e_ai_report,
            e_effect_area,
            i_max_targets_hit,
            f_radius,
            f_arc,
            f_unknown: Float32::zero(),
            f_chain_delay,
            ppch_chain_eff,
            pi_chain_fork,
            vec_box_offset,
            vec_box_size,
            f_range,
            f_range_secondary,
            f_time_to_activate,
            f_recharge_time,
            f_activate_period,
            f_endurance_cost,
            f_insight_cost,
            i_time_to_confirm,
            b_self_confirm,
            ppch_confirm_requires,
            b_destroy_on_limit,
            b_stacking_usage,
            i_num_charges,
            i_max_num_charges,
            f_usage_time,
            f_max_usage_time,
            f_lifetime,
            f_max_lifetime,
            f_lifetime_in_game,
            f_max_lifetime_in_game,
            f_interrupt_time,
            e_target_visibility,
            e_target_type,
            e_target_type_secondary,
            p_auto_hit,
            p_affected,
            b_targets_through_vision_phase,
            pe_boosts_allowed,
            pe_group_membership,
            pe_modes_required,
            pe_modes_disallowed,
            ppch_ai_groups,
            ppch_unknown: Vec::new(),
            b_ignore_strength,
            b_show_buff_icon,
            e_show_in_inventory,
            b_show_in_manage,
            b_show_in_info,
            b_deletable,
            b_tradeable,
            i_max_boosts,
            b_do_not_save,
            b_boost_ignore_effectiveness,
            b_boost_always_count_for_set,
            b_boost_combinable,
            b_boost_tradeable,
            b_boost_account_bound,
            b_boost_boostable,
            b_boost_use_player_level,
            pch_boost_catalyst_conversion,
            pch_store_product,
            i_boost_invention_license_required_level,
            i_min_slot_level,
            i_max_slot_level,
            i_max_boost_level,
            pp_vars,
            e_toggle_droppable,
            e_proc_allowed,
            p_strengths_disallowed: Vec::new(),
            b_use_non_boost_templates_on_main_target: false,
            b_main_target_only: false,
            ppch_highlight_eval,
            pch_highlight_icon,
            rgba_highlight_ring,
            f_travel_suppression,
            f_preference_multiplier,
            b_dont_set_stance,
            f_point_val,
            f_point_multiplier,
            pch_chain_into_power_name,
            b_instance_locked,
            b_is_environment_hit,
            b_shuffle_target_list,
            i_force_level_bought,
            b_refreshes_on_active_player_change,
            b_cancelable,
            b_ignore_toggle_max_distance,
            i_server_tray_priority,
            ppch_server_tray_requires,
            b_abusive_buff,
            e_position_center,
            f_position_distance,
            f_position_height,
            f_position_yaw,
            b_face_target,
            pe_attrib_cache,
            p_fx,
            pp_custom_fx,
            ppch_max_targets_expr,
            pi_unknown,
        };
        BasePower {
            pch_full_name,
            data,
            pp_redirect,
            pp_effects,
            include_in_output: false,
            archetypes: Vec::new(),
            redirects_resolved: false,
            enhancement_set_categories_allowed: Vec::new(),
        }
    }

    proof fn lemma_scan(c: Cursor, strings: &StringPool) {
        Vec::<SpecialAttrib>::lemma_scan(c, strings);
        Vec::<i32>::lemma_scan(c, strings);
        Vec::<PowerRedirect>::lemma_scan(c, strings);
        Vec::<EffectGroup>::lemma_scan(c, strings);
        PowerFX::lemma_scan(c, strings);
        Vec::<CustomPowerFX>::lemma_scan(c, strings);
    }
}

} // verus!
