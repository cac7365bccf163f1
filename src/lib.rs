//! Swap configuration through the `swapctl` control call.
//!
//! The library holds every decision that surrounds the call: which command
//! codes may reach the kernel, how the call's raw return value is read, how
//! an add request is validated and laid out, and how a filled swap table is
//! turned into an owned, checked list of devices. Issuing the call itself is
//! left to the caller, which hands back the raw return value and, on
//! failure, the platform error code.
mod command;
mod error;
mod request;
mod table;

pub use command::{call_result, cmd_code, is_cmd_code, SwapCmd};
pub use error::SwapError;
pub use request::{add_result, aligned, in_range, swapres, valid_path, OFFSET_MAX};
pub use table::{
    blank_slot, c_string_of, device_of, devices_of, filled_slots, first_bad_slot,
    lemma_listing_flags_excess, lemma_listing_round_trip, lemma_listing_within_capacity,
    listing_outcome, nul_at, reported_devices, slot_ok, swapent, swaptbl, SwapDevice, N_SWAPENTS,
};
