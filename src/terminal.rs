use vstd::prelude::*;

verus! {

/// Prepares the terminal for coloured output.
///
/// Terminals that interpret ANSI escape sequences need no preparation; the
/// console-mode switch that older Windows consoles need is made by the
/// program around this library, where platform-specific code may stand.
pub fn terminal_setup() {
}

} // verus!
