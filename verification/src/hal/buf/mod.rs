//! The pull switches every jack contact is driven through.

pub mod pull_switch;

pub use pull_switch::{PullSwitchChain, TriState, TAPS_PER_CHIP};
