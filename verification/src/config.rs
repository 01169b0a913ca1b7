//! The configuration of a run: where the input save lives, where output goes,
//! and in which of the two delivery modes. A configuration is read once at
//! start and never changes during the run.

use crate::errors::GeneralError;
use vstd::prelude::*;
use vstd::string::StringExecFns;

verus! {

/// Default name of the folder holding the legacy save file.
pub const INPUT_FOLDER: &'static str = "input";

/// Default name of the legacy save file.
pub const INPUT_FILE: &'static str = "level.dat";

/// Default delivery mode: direct storage-file write.
pub const OUTPUT_MODE: u8 = 0;

/// Default name of the folder receiving the delivered artifacts.
pub const OUTPUT_FOLDER: &'static str = "output";

/// Default name of the script file written in script mode.
pub const OUTPUT_FILE: &'static str = "localStorage.js";

/// Default origin string under which browser storage entries are grouped.
pub const OUTPUT_WEBSITE: &'static str = "https://classic.minecraft.net";

/// The exact payload written when no configuration file exists yet: the six
/// defaults above, spelled with hyphenated keys.
pub const DEFAULT_CONFIG_TEXT: &'static str = "[input-settings]\ninput-folder = \"input\"\ninput-file = \"level.dat\"\n\n[output-settings]\noutput-mode = 0\noutput-folder = \"output\"\noutput-file = \"localStorage.js\"\noutput-website = \"https://classic.minecraft.net\"";

/// The default configuration payload, as a value ready to be written.
pub fn default_config_text() -> (r: String)
    ensures
        r@ == DEFAULT_CONFIG_TEXT@,
{
    DEFAULT_CONFIG_TEXT.to_owned()
}

/// The input group of the configuration: folder and file of the legacy save.
#[derive(Debug, PartialEq)]
pub struct InputSettings {
    pub input_folder: String,
    pub input_file: String,
}

/// The output group of the configuration: the delivery mode tag and the
/// folder, file and origin strings that delivery uses.
#[derive(Debug, PartialEq)]
pub struct OutputSettings {
    pub output_mode: u8,
    pub output_folder: String,
    pub output_file: String,
    pub output_website: String,
}

/// A whole configuration, immutable once loaded for the run.
#[derive(Debug, PartialEq)]
pub struct Configuration {
    pub input_settings: InputSettings,
    pub output_settings: OutputSettings,
}

/// The delivery mode, decoded from the small integer tag of the
/// configuration. Exactly two modes exist; every other tag is rejected.
#[derive(Debug, Clone, Copy, PartialEq, Eq, Structural)]
pub enum DeliveryMode {
    /// Persist both artifacts into a browser storage file.
    Direct,
    /// Emit one script file that injects both artifacts from a console.
    Script,
}

/// Decodes the mode tag: `0` is direct mode, `1` is script mode, and every
/// other value fails with `InvalidMode` carrying the offending tag.
pub fn decode_mode(mode: u8) -> (r: Result<DeliveryMode, GeneralError>)
    ensures
        mode == 0 ==> r == Result::<DeliveryMode, GeneralError>::Ok(DeliveryMode::Direct),
        mode == 1 ==> r == Result::<DeliveryMode, GeneralError>::Ok(DeliveryMode::Script),
        mode != 0 && mode != 1 ==> (r matches Result::Err(e) && e == GeneralError::InvalidMode(
            mode,
        )),
{
    if mode == 0 {
        Ok(DeliveryMode::Direct)
    } else if mode == 1 {
        Ok(DeliveryMode::Script)
    } else {
        Err(GeneralError::InvalidMode(mode))
    }
}

} // verus!
