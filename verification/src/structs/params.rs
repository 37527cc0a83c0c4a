//! The typed parameter blocks of attribute modifiers.
#![allow(non_camel_case_types)]

use super::namekey::NameKey;
use super::{Float32};
use vstd::prelude::*;

verus! {

/// The parameters of a costume change.
#[derive(Debug)]
#[allow(non_camel_case_types)]
pub struct AttribModParam_Costume {
    pub pch_costume_name: Option<String>,
    pub i_priority: i32,
}

impl AttribModParam_Costume {
    /// Whether every field has the value that it has in a new `AttribModParam_Costume`:
    /// numbers are zero, flags are off, texts and names are absent, lists are
    /// empty, and enumerations have their fallback value.
    pub open spec fn is_new(&self) -> bool {
        &&& self.pch_costume_name is None
        &&& self.i_priority == 0
    }

    /// Creates a new `AttribModParam_Costume`.
    pub fn new() -> (value: Self)
        ensures
            value.is_new(),
    {
        AttribModParam_Costume {
            pch_costume_name: None,
            i_priority: 0,
        }
    }
}

/// The parameters of a reward grant.
#[derive(Debug)]
#[allow(non_camel_case_types)]
pub struct AttribModParam_Reward {
    pub ppch_rewards: Vec<String>,
}

impl AttribModParam_Reward {
    /// Whether every field has the value that it has in a new `AttribModParam_Reward`:
    /// numbers are zero, flags are off, texts and names are absent, lists are
    /// empty, and enumerations have their fallback value.
    pub open spec fn is_new(&self) -> bool {
        &&& self.ppch_rewards@.len() == 0
    }

    /// Creates a new `AttribModParam_Reward`.
    pub fn new() -> (value: Self)
        ensures
            value.is_new(),
    {
        AttribModParam_Reward {
            ppch_rewards: Vec::new(),
        }
    }
}

/// The parameters of the creation of an entity, such as a pet.
#[derive(Debug)]
#[allow(non_camel_case_types)]
pub struct AttribModParam_EntCreate {
    pub pch_entity_def: Option<NameKey>,
    pub pch_class: Option<String>,
    pub pch_costume_name: Option<String>,
    pub pch_display_name: Option<String>,
    pub pch_priority_list: Option<String>,
    pub pch_ai_config: Option<String>,
    pub ppch_category_names: Vec<NameKey>,
    pub ppch_powerset_names: Vec<NameKey>,
    pub ppch_power_names: Vec<NameKey>,
    pub redirects: Vec<NameKey>,
    /// The position, in the collection of villain definitions, of the entity
    /// that is created; set when the block is resolved.
    pub villain_def: Option<usize>,
    /// The names of the powers of the created entity; set when the block is
    /// resolved.
    pub power_refs: Vec<NameKey>,
    /// Whether the block has been resolved.
    pub resolved: bool,
}

impl AttribModParam_EntCreate {
    /// Whether every field has the value that it has in a new `AttribModParam_EntCreate`:
    /// numbers are zero, flags are off, texts and names are absent, lists are
    /// empty, and enumerations have their fallback value.
    pub open spec fn is_new(&self) -> bool {
        &&& self.pch_entity_def is None
        &&& self.pch_class is None
        &&& self.pch_costume_name is None
        &&& self.pch_display_name is None
        &&& self.pch_priority_list is None
        &&& self.pch_ai_config is None
        &&& self.ppch_category_names@.len() == 0
        &&& self.ppch_powerset_names@.len() == 0
        &&& self.ppch_power_names@.len() == 0
        &&& self.redirects@.len() == 0
        &&& self.villain_def is None
        &&& self.power_refs@.len() == 0
        &&& !self.resolved
    }

    /// Creates a new `AttribModParam_EntCreate`.
    pub fn new() -> (value: Self)
        ensures
            value.is_new(),
    {
        AttribModParam_EntCreate {
            pch_entity_def: None,
            pch_class: None,
            pch_costume_name: None,
            pch_display_name: None,
            pch_priority_list: None,
            pch_ai_config: None,
            ppch_category_names: Vec::new(),
            ppch_powerset_names: Vec::new(),
            ppch_power_names: Vec::new(),
            redirects: Vec::new(),
            villain_def: None,
            power_refs: Vec::new(),
            resolved: false,
        }
    }
}

/// The parameters of a grant of powers.
#[derive(Debug)]
#[allow(non_camel_case_types)]
pub struct AttribModParam_Power {
    pub i_count: i32,
    pub ppch_category_names: Vec<NameKey>,
    pub ppch_powerset_names: Vec<NameKey>,
    pub ppch_power_names: Vec<NameKey>,
    /// Whether the block has been resolved.
    pub resolved: bool,
}

impl AttribModParam_Power {
    /// Whether every field has the value that it has in a new `AttribModParam_Power`:
    /// numbers are zero, flags are off, texts and names are absent, lists are
    /// empty, and enumerations have their fallback value.
    pub open spec fn is_new(&self) -> bool {
        &&& self.i_count == 0
        &&& self.ppch_category_names@.len() == 0
        &&& self.ppch_powerset_names@.len() == 0
        &&& self.ppch_power_names@.len() == 0
        &&& !self.resolved
    }

    /// Creates a new `AttribModParam_Power`.
    pub fn new() -> (value: Self)
        ensures
            value.is_new(),
    {
        AttribModParam_Power {
            i_count: 0,
            ppch_category_names: Vec::new(),
            ppch_powerset_names: Vec::new(),
            ppch_power_names: Vec::new(),
            resolved: false,
        }
    }
}

/// The parameters of a change of phase.
#[derive(Debug)]
#[allow(non_camel_case_types)]
pub struct AttribModParam_Phase {
    pub pi_combat_phases: Vec<i32>,
    pub pi_vision_phases: Vec<i32>,
    pub i_exclusive_vision_phase: i32,
}

impl AttribModParam_Phase {
    /// Whether every field has the value that it has in a new `AttribModParam_Phase`:
    /// numbers are zero, flags are off, texts and names are absent, lists are
    /// empty, and enumerations have their fallback value.
    pub open spec fn is_new(&self) -> bool {
        &&& self.pi_combat_phases@.len() == 0
        &&& self.pi_vision_phases@.len() == 0
        &&& self.i_exclusive_vision_phase == 0
    }

    /// Creates a new `AttribModParam_Phase`.
    pub fn new() -> (value: Self)
        ensures
            value.is_new(),
    {
        AttribModParam_Phase {
            pi_combat_phases: Vec::new(),
            pi_vision_phases: Vec::new(),
            i_exclusive_vision_phase: 0,
        }
    }
}

/// The parameters of a teleport.
#[derive(Debug)]
#[allow(non_camel_case_types)]
pub struct AttribModParam_Teleport {
    pub pch_destination: Option<String>,
}

impl AttribModParam_Teleport {
    /// Whether every field has the value that it has in a new `AttribModParam_Teleport`:
    /// numbers are zero, flags are off, texts and names are absent, lists are
    /// empty, and enumerations have their fallback value.
    pub open spec fn is_new(&self) -> bool {
        &&& self.pch_destination is None
    }

    /// Creates a new `AttribModParam_Teleport`.
    pub fn new() -> (value: Self)
        ensures
            value.is_new(),
    {
        AttribModParam_Teleport {
            pch_destination: None,
        }
    }
}

/// The parameters of added behaviors.
#[derive(Debug)]
#[allow(non_camel_case_types)]
pub struct AttribModParam_Behavior {
    pub ppch_behaviors: Vec<String>,
}

impl AttribModParam_Behavior {
    /// Whether every field has the value that it has in a new `AttribModParam_Behavior`:
    /// numbers are zero, flags are off, texts and names are absent, lists are
    /// empty, and enumerations have their fallback value.
    pub open spec fn is_new(&self) -> bool {
        &&& self.ppch_behaviors@.len() == 0
    }

    /// Creates a new `AttribModParam_Behavior`.
    pub fn new() -> (value: Self)
        ensures
            value.is_new(),
    {
        AttribModParam_Behavior {
            ppch_behaviors: Vec::new(),
        }
    }
}

/// The parameters of the setting of script values.
#[derive(Debug)]
#[allow(non_camel_case_types)]
pub struct AttribModParam_SZEValue {
    pub ppch_script_id: Vec<String>,
    pub ppch_script_value: Vec<String>,
}

impl AttribModParam_SZEValue {
    /// Whether every field has the value that it has in a new `AttribModParam_SZEValue`:
    /// numbers are zero, flags are off, texts and names are absent, lists are
    /// empty, and enumerations have their fallback value.
    pub open spec fn is_new(&self) -> bool {
        &&& self.ppch_script_id@.len() == 0
        &&& self.ppch_script_value@.len() == 0
    }

    /// Creates a new `AttribModParam_SZEValue`.
    pub fn new() -> (value: Self)
        ensures
            value.is_new(),
    {
        AttribModParam_SZEValue {
            ppch_script_id: Vec::new(),
            ppch_script_value: Vec::new(),
        }
    }
}

/// The parameters of an operation on tokens.
#[derive(Debug)]
#[allow(non_camel_case_types)]
pub struct AttribModParam_Token {
    pub ppch_tokens: Vec<String>,
}

impl AttribModParam_Token {
    /// Whether every field has the value that it has in a new `AttribModParam_Token`:
    /// numbers are zero, flags are off, texts and names are absent, lists are
    /// empty, and enumerations have their fallback value.
    pub open spec fn is_new(&self) -> bool {
        &&& self.ppch_tokens@.len() == 0
    }

    /// Creates a new `AttribModParam_Token`.
    pub fn new() -> (value: Self)
        ensures
            value.is_new(),
    {
        AttribModParam_Token {
            ppch_tokens: Vec::new(),
        }
    }
}

/// The parameters of a filter on effects.
#[derive(Debug)]
#[allow(non_camel_case_types)]
pub struct AttribModParam_EffectFilter {
    pub ppch_tags: Vec<String>,
    pub ppch_category_names: Vec<String>,
    pub ppch_powerset_names: Vec<String>,
    pub ppch_power_names: Vec<String>,
}

impl AttribModParam_EffectFilter {
    /// Whether every field has the value that it has in a new `AttribModParam_EffectFilter`:
    /// numbers are zero, flags are off, texts and names are absent, lists are
    /// empty, and enumerations have their fallback value.
    pub open spec fn is_new(&self) -> bool {
        &&& self.ppch_tags@.len() == 0
        &&& self.ppch_category_names@.len() == 0
        &&& self.ppch_powerset_names@.len() == 0
        &&& self.ppch_power_names@.len() == 0
    }

    /// Creates a new `AttribModParam_EffectFilter`.
    pub fn new() -> (value: Self)
        ensures
            value.is_new(),
    {
        AttribModParam_EffectFilter {
            ppch_tags: Vec::new(),
            ppch_category_names: Vec::new(),
            ppch_powerset_names: Vec::new(),
            ppch_power_names: Vec::new(),
        }
    }
}

/// A parameter block of ten numbers whose meaning is not known.
#[derive(Debug)]
#[allow(non_camel_case_types)]
pub struct AttribModParam_Param11 {
    pub i_unknown_1: i32,
    pub i_unknown_2: i32,
    pub i_unknown_3: i32,
    pub f_unknown_4: Float32,
    pub i_unknown_5: i32,
    pub i_unknown_6: i32,
    pub f_unknown_7: Float32,
    pub f_unknown_8: Float32,
    pub f_unknown_9: Float32,
    pub f_unknown_10: Float32,
}

impl AttribModParam_Param11 {
    /// Whether every field has the value that it has in a new `AttribModParam_Param11`:
    /// numbers are zero, flags are off, texts and names are absent, lists are
    /// empty, and enumerations have their fallback value.
    pub open spec fn is_new(&self) -> bool {
        &&& self.i_unknown_1 == 0
        &&& self.i_unknown_2 == 0
        &&& self.i_unknown_3 == 0
        &&& self.f_unknown_4.bits == 0
        &&& self.i_unknown_5 == 0
        &&& self.i_unknown_6 == 0
        &&& self.f_unknown_7.bits == 0
        &&& self.f_unknown_8.bits == 0
        &&& self.f_unknown_9.bits == 0
        &&& self.f_unknown_10.bits == 0
    }

    /// Creates a new `AttribModParam_Param11`.
    pub fn new() -> (value: Self)
        ensures
            value.is_new(),
    {
        AttribModParam_Param11 {
            i_unknown_1: 0,
            i_unknown_2: 0,
            i_unknown_3: 0,
            f_unknown_4: Float32::zero(),
            i_unknown_5: 0,
            i_unknown_6: 0,
            f_unknown_7: Float32::zero(),
            f_unknown_8: Float32::zero(),
            f_unknown_9: Float32::zero(),
            f_unknown_10: Float32::zero(),
        }
    }
}

/// The parameter block of an attribute modifier: one of eleven layouts.
#[derive(Debug)]
pub enum AttribModParam {
    Costume(AttribModParam_Costume),
    Reward(AttribModParam_Reward),
    EntCreate(AttribModParam_EntCreate),
    Power(AttribModParam_Power),
    Phase(AttribModParam_Phase),
    Teleport(AttribModParam_Teleport),
    Behavior(AttribModParam_Behavior),
    SZEValue(AttribModParam_SZEValue),
    Token(AttribModParam_Token),
    EffectFilter(AttribModParam_EffectFilter),
    Param11(AttribModParam_Param11),
}

} // verus!
