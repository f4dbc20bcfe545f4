use vstd::prelude::*;

pub mod common;
pub mod profiles;

verus! {

/// The radio frequency of the managed network, as an offset in MHz from
/// 2400 MHz.
pub const NETWORK_RF_FREQUENCY: u8 = 57;

} // verus!
