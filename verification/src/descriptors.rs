//! The fixed-layout descriptor records exchanged across the interface
//! boundary. Each record's first field declares the byte size of the C layout
//! the caller expects; operations that round-trip a record compare that
//! declared size against the size this module defines for the record and fail
//! on any mismatch. Fields that carry device or window handles in the binary
//! layout are held here as opaque 64-bit handle values.

use vstd::prelude::*;
use crate::guid::Guid;

verus! {

/// Byte size of the sound-device configuration record's C layout.
pub const DVSOUNDDEVICECONFIG_SIZE: u32 = 80;

/// Byte size of the client configuration record's C layout.
pub const DVCLIENTCONFIG_SIZE: u32 = 32;

/// Byte size of the session descriptor record's C layout.
pub const DVSESSIONDESC_SIZE: u32 = 36;

/// Byte size of the codec descriptor record's C layout, name text excluded.
pub const DVCOMPRESSIONINFO_SIZE: u32 = 48;

/// Byte size of the capabilities record's C layout.
pub const DVCAPS_SIZE: u32 = 8;

/// Session flag: the session never migrates to a new host.
pub const DVSESSION_NOHOSTMIGRATION: u32 = 0x00000001;

/// Session type: a peer-to-peer session.
pub const DVSESSIONTYPE_PEER: u32 = 0x00000001;

/// Default buffer quality.
pub const DVBUFFERQUALITY_DEFAULT: u32 = 0x00000000;

/// Default buffer aggressiveness.
pub const DVBUFFERAGGRESSIVENESS_DEFAULT: u32 = 0x00000000;

/// Flag bit asking the capability probe only to query, not to run a test.
pub const DVFLAGS_QUERYONLY: u32 = 0x00000002;

/// Configuration of the sound devices a client session plays and captures
/// through. The `lpds` and `hwnd` fields are opaque handles supplied by the
/// caller and carried through unread.
#[derive(Clone, Copy, PartialEq, Eq, Debug)]
pub struct DVSOUNDDEVICECONFIG {
    pub dwSize: u32,
    pub dwFlags: u32,
    pub guidPlaybackDevice: Guid,
    pub lpdsPlaybackDevice: u64,
    pub guidCaptureDevice: Guid,
    pub lpdsCaptureDevice: u64,
    pub hwndAppWindow: u64,
    pub lpdsMainBuffer: u64,
    pub dwMainBufferFlags: u32,
    pub dwMainBufferPriority: u32,
}

/// Per-client tuning configuration: volumes, thresholds and buffer behavior.
#[derive(Clone, Copy, PartialEq, Eq, Debug)]
pub struct DVCLIENTCONFIG {
    pub dwSize: u32,
    pub dwFlags: u32,
    pub lRecordVolume: i32,
    pub lPlaybackVolume: i32,
    pub dwThreshold: u32,
    pub dwBufferQuality: u32,
    pub dwBufferAggressiveness: u32,
    pub dwNotifyPeriod: u32,
}

/// Descriptor of a voice session: its type, codec and buffering defaults.
#[derive(Clone, Copy, PartialEq, Eq, Debug)]
pub struct DVSESSIONDESC {
    pub dwSize: u32,
    pub dwFlags: u32,
    pub dwSessionType: u32,
    pub guidCT: Guid,
    pub dwBufferQuality: u32,
    pub dwBufferAggressiveness: u32,
}

/// Descriptor of one advertised codec. In the binary layout the name and
/// description fields are pointers; in the enumeration protocol they are
/// offsets into the caller's buffer, where the text is written.
#[derive(Clone, Copy, PartialEq, Eq, Debug)]
pub struct DVCOMPRESSIONINFO {
    pub dwSize: u32,
    pub guidType: Guid,
    pub lpszName: u64,
    pub lpszDescription: u64,
    pub dwFlags: u32,
    pub dwMaxBitsPerSecond: u32,
}

/// Capability record; this module always reports a zero flag set.
#[derive(Clone, Copy, PartialEq, Eq, Debug)]
pub struct DVCAPS {
    pub dwSize: u32,
    pub dwFlags: u32,
}

/// The fixed session descriptor every client session reports: a peer session
/// on the advertised codec, with no host migration and default buffering.
pub open spec fn spec_fixed_session_desc() -> DVSESSIONDESC {
    DVSESSIONDESC {
        dwSize: DVSESSIONDESC_SIZE,
        dwFlags: DVSESSION_NOHOSTMIGRATION,
        dwSessionType: DVSESSIONTYPE_PEER,
        guidCT: crate::guid::spec_pcm_codec_type(),
        dwBufferQuality: DVBUFFERQUALITY_DEFAULT,
        dwBufferAggressiveness: DVBUFFERAGGRESSIVENESS_DEFAULT,
    }
}

/// The fixed capability record both session kinds report.
pub open spec fn spec_fixed_caps() -> DVCAPS {
    DVCAPS { dwSize: DVCAPS_SIZE, dwFlags: 0 }
}

} // verus!
