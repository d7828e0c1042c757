//! The two operating modes.

use vstd::prelude::*;

verus! {

/// Continuous conversion: the sensor measures on its own at the configured
/// rate.
#[derive(Debug)]
pub struct Continuous(());

/// One-shot conversion: the sensor is shut down and measures once per
/// trigger.
#[derive(Debug)]
pub struct OneShot(());

} // verus!
