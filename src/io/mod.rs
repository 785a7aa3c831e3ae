//! Channel implementations and decorators, and the state and decisions of
//! hardware channels whose device access the caller performs.
pub mod counter;
pub mod lookup;
pub mod null;
pub mod pwm;
pub mod sampling;
pub mod util;
pub mod wdg_dev;
