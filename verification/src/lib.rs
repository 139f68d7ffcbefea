//! Translates raw device signals (keys, mouse, gamepad buttons and axes) into
//! semantic, strongly typed actions: every bound action is re-evaluated once
//! per frame through its modifier chain and condition set, and a small state
//! machine tracks the activation lifecycle (idle, ongoing, fired) across
//! frames.
//!
//! Axis values, scale factors and elapsed seconds are fixed-point numbers:
//! signed counts of thousandths (see [`fixed`]). All arithmetic on them is
//! stated exactly, saturating at the representable range.

pub mod action;
pub mod action_value;
pub mod binding;
pub mod condition;
pub mod context;
pub mod fixed;
pub mod input;
pub mod keys;
pub mod mod_keys;
pub mod modifier;
pub mod preset;
pub mod snapshot;
