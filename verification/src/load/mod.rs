//! The engine that links the decoded collections into one graph and marks
//! what is reachable from the top level categories.

pub mod cascade;
pub mod closure;
pub mod entities;
pub mod hierarchy;
pub mod marks;
pub mod nesting;
pub mod redirects;
pub mod seeding;
pub mod sources;

pub use cascade::{cascade, included_stay, nominal, nothing_included};
pub use closure::{closed, resolve_references, settled};
pub use entities::resolve_entity_defs_and_power_grants;
pub use hierarchy::{
    filter_power_sets, find_power_category, flag_top_level, link_power_sets, link_powers,
    match_archetypes_to_power_categories, match_enh_categories_to_powers,
};
pub use crate::structs::config::PowersConfig;
pub use marks::{apply_marks, mark_power_for_inclusion, Mark, MarkView};
pub use nesting::{lists_power, named_after_owners};
pub use redirects::resolve_power_redirects;
pub use seeding::include_top_level;
pub use sources::{
    load_powers_dictionary, loaded_in_cascade, merge_dictionaries, read_attributes, read_boostsets_bin,
    read_classes_bin, read_client_messages, read_powercats_bin, read_powers_bin,
    read_powersets_bin, read_sources, read_villain_classes_bin, read_villaindef_bin, Decoded,
    ErrContext, LoadError, PowersDictionary, Sources,
};
