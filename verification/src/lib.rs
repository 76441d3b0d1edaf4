//! Native shell logic for a desktop image application: percent-encoding of
//! file paths for embedding in internal URLs, and the create-or-focus
//! decisions for the shell's webview windows.

pub mod encode;
pub mod windows;
