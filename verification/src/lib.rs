//! Verified core of a Windows light/dark theme switcher.
//!
//! The library models the registry values that the theme switcher reads and
//! writes as plain data, and proves the read, toggle and set logic over that
//! model: how stored values map to theme labels, which values a toggle writes,
//! and the cross-key invariant that both theme values agree after a switch.
//! The unverified shell around the library performs the actual registry and
//! window-message calls and feeds the observed values in.

pub mod dwm;
pub mod laws;
pub mod notify;
pub mod state;
pub mod theme;
