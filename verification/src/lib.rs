//! Cross-platform desktop input automation: pointer and keyboard simulation,
//! screen queries, eased pointer motion, a failsafe monitor and an action log.

use vstd::prelude::*;
use vstd::string::*;

pub mod codec;
pub mod error;
pub mod keyboard;
pub mod log_format;
pub mod mouse;
pub mod order;
pub mod platform;
pub mod screen;
pub mod sequence;
pub mod text;
pub mod tween;
pub mod types;
pub mod utils;

verus! {

/// The library's version.
pub fn version() -> (v: &'static str)
    ensures
        v@ == "0.1.0"@,
{
    "0.1.0"
}

/// The text that describes the library on a host with the given
/// operating-system identifier.
pub open spec fn spec_info(os: Seq<char>) -> Seq<char> {
    "Mover v"@ + "0.1.0"@ + " - Rust implementation of PyAutoGUI\nPlatform: "@ + os
}

/// Describes the library: its name and version, what it is, and the host's
/// operating-system identifier.
pub fn info(os: &str) -> (text: String)
    ensures
        text@ == spec_info(os@),
{
    let mut text = String::from_str("Mover v");
    text.append(version());
    text.append(" - Rust implementation of PyAutoGUI\nPlatform: ");
    text.append(os);
    text
}

} // verus!
