//! What the shell decides once, while the application starts.

use vstd::prelude::*;
use vstd::string::StringExecFns;

verus! {

/// Label of the main window, by which the host finds it.
pub const MAIN_WINDOW: &'static str = "main";

/// Label of the overlay window, by which the host finds it.
pub const OVERLAY_WINDOW: &'static str = "overlay";

/// The main window's title with the application's version appended.
pub open spec fn versioned(title: Seq<char>, version: Seq<char>) -> Seq<char> {
    title + " (v"@ + version + ")"@
}

/// The title that the main window gets at startup: the one it was built
/// with, followed by the application's version in brackets.
pub fn window_title(title: &str, version: &str) -> (text: String)
    ensures
        text@ == versioned(title@, version@),
{
    let mut text = String::from_str(title);
    text.append(" (v");
    text.append(version);
    text.append(")");
    text
}

} // verus!
