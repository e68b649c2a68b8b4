//! The capability-probe object. It is stateless: its single operation
//! reports a canned result without probing any device.

use vstd::prelude::*;
use crate::descriptors::DVFLAGS_QUERYONLY;
use crate::guid::Guid;
use crate::hresult::{DV_FULLDUPLEX, DV_OK, HRESULT};

verus! {

/// The stateless capability-probe object.
pub struct DirectPlayVoiceTest {}

impl Default for DirectPlayVoiceTest {
    /// Creates a capability probe; it has no state.
    fn default() -> Self {
        DirectPlayVoiceTest {  }
    }
}

impl DirectPlayVoiceTest {
    /// Creates a capability probe.
    pub fn new() -> (t: Self) {
        DirectPlayVoiceTest {  }
    }

    /// Reports the audio setup's capability without probing any device: with
    /// the query-only flag bit set, the fixed full-duplex success code;
    /// without it, plain success.
    pub fn CheckAudioSetup(
        &self,
        playback_device: &Guid,
        capture_device: &Guid,
        parent_window: u64,
        flags: u32,
    ) -> (r: HRESULT)
        ensures
            flags & DVFLAGS_QUERYONLY != 0 ==> r == DV_FULLDUPLEX,
            flags & DVFLAGS_QUERYONLY == 0 ==> r == DV_OK,
    {
        if flags & DVFLAGS_QUERYONLY > 0 {
            DV_FULLDUPLEX
        } else {
            DV_OK
        }
    }
}

} // verus!
