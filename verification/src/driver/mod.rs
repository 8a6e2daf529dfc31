//! Device drivers. A driver here says what to put on the bus and what the
//! answer means; the bus itself belongs to the caller.

pub mod bh1750;
