use vstd::prelude::*;

verus! {

/// Where the readings of one sensor are published.
#[derive(Debug, PartialEq, Eq)]
pub struct SensorConfig {
    pub topic: String,
}

} // verus!
