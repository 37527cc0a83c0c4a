//! The configuration of a run.

use super::namekey::NameKey;
use vstd::prelude::*;

verus! {

/// Configuration information for image assets.
#[derive(Debug)]
pub struct AssetsConfig {
    /// Set the base URL for images.
    pub base_asset_url: String,
    /// Set the normalized extension for images (filenames extracted from bins will be
    /// replaced with this extension).
    pub ext: String,
    /// A format string specifying the URL format for archetypes.
    pub archetype_icon_format: String,
    /// A format string specifying the URL format for powers.
    pub powers_icon_format: String,
}

/// Configuration information for JSON output style.
#[derive(Clone, Copy, Debug, PartialEq, Eq, Structural)]
pub enum OutputStyleConfig {
    /// Inserts whitespace so that JSON is human-readable.
    Pretty,
    /// Saves space by removing unnecessary whitespace.
    Compact,
}

impl Default for OutputStyleConfig {
    fn default() -> (style: Self)
        ensures
            style == OutputStyleConfig::Compact,
    {
        OutputStyleConfig::Compact
    }
}

/// The lowest security level that power calculations can be made for.
pub const MIN_LEVEL: i32 = 1;

/// The highest security level that power calculations can be made for.
pub const MAX_LEVEL: i32 = 50;

/// Configuration information for the current run.
#[derive(Debug)]
pub struct PowersConfig {
    /// Issue that the data were extracted from.
    pub issue: String,
    /// Arbitrary string identifying the source of the data.
    pub source: String,
    /// Local date and time that the data were extracted, as a text.
    pub extract_date: Option<String>,
    /// JSON output style.
    pub output_style: OutputStyleConfig,
    /// Determines the security level used for power calculations.
    pub at_level: i32,
    /// Set the base URL for generated JSON assets.
    pub base_json_url: Option<String>,
    /// For future use.
    pub assets: Option<AssetsConfig>,
    /// Where to find the extracted .bin files.
    pub input_path: String,
    /// Where the JSON files will be written.
    pub output_path: String,
    /// List of power categories to use as a filter. If empty, nothing will be filtered.
    pub power_categories: Vec<NameKey>,
    /// List of power categories to assign to all archetypes.
    pub global_categories: Vec<NameKey>,
    /// List of power set partial name matches to filter. Used to get rid of some
    /// power sets that are part of included power categories.
    pub filter_powersets: Vec<NameKey>,
}

impl PowersConfig {
    /// A configuration for level 1 that lists no categories and filters no
    /// power sets: every category stands at the top level.
    pub fn new() -> (config: Self)
        ensures
            config.at_level == MIN_LEVEL,
            config.output_style == OutputStyleConfig::Compact,
            config.issue@.len() == 0 && config.source@.len() == 0,
            config.input_path@.len() == 0 && config.output_path@.len() == 0,
            config.extract_date is None && config.base_json_url is None && config.assets is None,
            config.power_categories@.len() == 0,
            config.global_categories@.len() == 0,
            config.filter_powersets@.len() == 0,
    {
        PowersConfig {
            issue: String::new(),
            source: String::new(),
            extract_date: None,
            output_style: OutputStyleConfig::Compact,
            at_level: MIN_LEVEL,
            base_json_url: None,
            assets: None,
            input_path: String::new(),
            output_path: String::new(),
            power_categories: Vec::new(),
            global_categories: Vec::new(),
            filter_powersets: Vec::new(),
        }
    }

    /// Whether the security level lies between 1 and 50, both included.
    pub fn level_is_valid(&self) -> (valid: bool)
        ensures
            valid == (MIN_LEVEL <= self.at_level <= MAX_LEVEL),
    {
        MIN_LEVEL <= self.at_level && self.at_level <= MAX_LEVEL
    }
}

} // verus!
