//! Configuration shapes for the mix network's message-blending tier.  The
//! blending streams themselves are network plumbing outside this crate; only
//! the shape of their settings is fixed here.

use vstd::prelude::*;

verus! {

/// Settings of the cryptographic unwrapping step of the blend tier.
#[derive(Clone, Copy, Debug)]
pub struct CryptographicProcessorSettings {
    /// The node's private key for unwrapping message layers.
    pub private_key: [u8; 32],
    /// How many onion layers each message is wrapped in.
    pub num_mix_layers: usize,
}

/// Settings of the temporal release step of the blend tier.
#[derive(Clone, Copy, Debug)]
pub struct TemporalProcessorSettings {
    /// Upper bound, in seconds, on the random release delay.
    pub max_delay_seconds: u64,
}

/// Settings for the whole message-blending tier.
#[derive(Clone, Copy, Debug)]
pub struct MessageBlendSettings {
    /// Settings of the cryptographic unwrapping step.
    pub cryptographic_processor: CryptographicProcessorSettings,
    /// Settings of the temporal release step.
    pub temporal_processor: TemporalProcessorSettings,
}

} // verus!
