//! Composition of capability providers: devices that announce what they can do by handing
//! out capability tokens, and a combinator that prefers a primary device and falls back to
//! a backup one for each capability separately.
mod device;
mod devices;
mod fallback;
mod laws;

pub use device::{UserFacing, Work};
pub use devices::{Limited, SoftwareImplementation};
pub use fallback::{run_fallback, Either, FallingBack};
pub use laws::{
    limited_never_offers_b, limited_then_software_splits, probe_and_piece_a, probe_and_piece_b,
    software_composite_is_sequential, software_then_limited_stays_primary,
};
