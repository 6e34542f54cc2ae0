use vstd::prelude::*;
verus! {
/// The two shapes of biquad filter the audio chain uses.
#[derive(Debug, Clone, Copy, PartialEq, Eq, Structural)]
pub enum FilterType {
    LowPass,
    HighPass,
}
}
