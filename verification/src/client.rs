//! The client session object. It holds an optional current client
//! configuration and an optional current sound-device configuration, both
//! unset until a connect or an explicit set stores them. Configuration
//! queries before any store fail as not connected; queries and explicit sets
//! validate the caller's declared record size and fail as invalid parameters
//! on any mismatch. Stored configuration survives a disconnect.

use vstd::prelude::*;
use crate::compression;
use crate::descriptors::{
    DVCAPS, DVCLIENTCONFIG, DVCLIENTCONFIG_SIZE, DVSESSIONDESC, DVSOUNDDEVICECONFIG,
    DVSOUNDDEVICECONFIG_SIZE, spec_fixed_caps, spec_fixed_session_desc,
};
use crate::hresult::{
    DVERR_ALREADYBUFFERED, DVERR_BUFFERTOOSMALL, DVERR_INVALIDPARAM, DVERR_NOTCONNECTED, DV_OK,
    HRESULT,
};

verus! {

/// A client session: per-instance mutable state created by the dispatcher
/// and shared by every handle that aliases the object.
pub struct DirectPlayVoiceClient {
    /// The current client configuration, unset until a connect or a
    /// successful explicit set stores one.
    pub client_config: Option<DVCLIENTCONFIG>,
    /// The current sound-device configuration, unset until a connect
    /// stores one.
    pub sound_device_config: Option<DVSOUNDDEVICECONFIG>,
}

impl Default for DirectPlayVoiceClient {
    /// Creates a freshly activated client session, with no configuration
    /// stored yet.
    fn default() -> (c: Self)
        ensures
            c.client_config is None,
            c.sound_device_config is None,
    {
        DirectPlayVoiceClient::new()
    }
}

impl DirectPlayVoiceClient {
    /// Creates a freshly activated client session, with no configuration
    /// stored yet.
    pub fn new() -> (c: Self)
        ensures
            c.client_config is None,
            c.sound_device_config is None,
    {
        DirectPlayVoiceClient { client_config: None, sound_device_config: None }
    }

    /// Accepts and discards the registration parameters; no message is ever
    /// delivered, so nothing is retained. Always succeeds.
    pub fn Initialize(
        &self,
        p_unknown: u64,
        p_message_handler: u64,
        p_user_context: u64,
        message_mask: &Vec<u32>,
    ) -> (r: HRESULT)
        ensures
            r == DV_OK,
    {
        DV_OK
    }

    /// Stores copies of both supplied descriptors as the current
    /// configuration and succeeds unconditionally; no declared-size
    /// validation happens on this path.
    pub fn Connect(
        &mut self,
        sound_device_config: &DVSOUNDDEVICECONFIG,
        client_config: &DVCLIENTCONFIG,
        flags: u32,
    ) -> (r: HRESULT)
        ensures
            r == DV_OK,
            final(self).client_config == Some(*client_config),
            final(self).sound_device_config == Some(*sound_device_config),
    {
        self.client_config = Some(*client_config);
        self.sound_device_config = Some(*sound_device_config);
        DV_OK
    }

    /// Always succeeds and retains the stored configuration: callers may
    /// still query it after disconnecting.
    pub fn Disconnect(&self, flags: u32) -> (r: HRESULT)
        ensures
            r == DV_OK,
    {
        DV_OK
    }

    /// Writes the fixed session descriptor this module always reports and
    /// succeeds.
    pub fn GetSessionDesc(&self, session_desc: &mut DVSESSIONDESC) -> (r: HRESULT)
        ensures
            r == DV_OK,
            *final(session_desc) == spec_fixed_session_desc(),
    {
        *session_desc = DVSESSIONDESC {
            dwSize: crate::descriptors::DVSESSIONDESC_SIZE,
            dwFlags: crate::descriptors::DVSESSION_NOHOSTMIGRATION,
            dwSessionType: crate::descriptors::DVSESSIONTYPE_PEER,
            guidCT: crate::guid::pcm_codec_type(),
            dwBufferQuality: crate::descriptors::DVBUFFERQUALITY_DEFAULT,
            dwBufferAggressiveness: crate::descriptors::DVBUFFERAGGRESSIVENESS_DEFAULT,
        };
        DV_OK
    }

    /// Copies the stored client configuration out. Fails as not connected if
    /// none was ever stored; otherwise fails as an invalid parameter unless
    /// the caller's declared size is exactly the defined record size.
    pub fn GetClientConfig(&self, client_config: &mut DVCLIENTCONFIG) -> (r: HRESULT)
        ensures
            self.client_config is None ==> {
                &&& r == DVERR_NOTCONNECTED
                &&& *final(client_config) == *old(client_config)
            },
            self.client_config is Some && old(client_config).dwSize != DVCLIENTCONFIG_SIZE ==> {
                &&& r == DVERR_INVALIDPARAM
                &&& *final(client_config) == *old(client_config)
            },
            self.client_config is Some && old(client_config).dwSize == DVCLIENTCONFIG_SIZE ==> {
                &&& r == DV_OK
                &&& *final(client_config) == self.client_config->0
            },
    {
        match &self.client_config {
            Some(stored) => {
                if client_config.dwSize != DVCLIENTCONFIG_SIZE {
                    return DVERR_INVALIDPARAM;
                }
                *client_config = *stored;
                DV_OK
            },
            None => DVERR_NOTCONNECTED,
        }
    }

    /// Replaces the stored client configuration, after validating that the
    /// supplied record's declared size is exactly the defined record size.
    pub fn SetClientConfig(&mut self, client_config: &DVCLIENTCONFIG) -> (r: HRESULT)
        ensures
            client_config.dwSize != DVCLIENTCONFIG_SIZE ==> {
                &&& r == DVERR_INVALIDPARAM
                &&& *final(self) == *old(self)
            },
            client_config.dwSize == DVCLIENTCONFIG_SIZE ==> {
                &&& r == DV_OK
                &&& final(self).client_config == Some(*client_config)
                &&& final(self).sound_device_config == old(self).sound_device_config
            },
    {
        if client_config.dwSize != DVCLIENTCONFIG_SIZE {
            return DVERR_INVALIDPARAM;
        }
        self.client_config = Some(*client_config);
        DV_OK
    }

    /// Writes the fixed zero-flags capability record and succeeds.
    pub fn GetCaps(&self, caps: &mut DVCAPS) -> (r: HRESULT)
        ensures
            r == DV_OK,
            *final(caps) == spec_fixed_caps(),
    {
        *caps = DVCAPS { dwSize: crate::descriptors::DVCAPS_SIZE, dwFlags: 0 };
        DV_OK
    }

    /// Enumerates the advertised compression types into the caller's buffer,
    /// by the two-call size-negotiation protocol.
    pub fn GetCompressionTypes(
        &self,
        data: &mut Vec<u8>,
        data_size: &mut u32,
        num_elements: &mut u32,
        flags: u32,
    ) -> (r: HRESULT)
        requires
            *old(data_size) <= old(data)@.len(),
        ensures
            *final(num_elements) == 1,
            final(data)@.len() == old(data)@.len(),
            *old(data_size) < compression::PCM_REQUIRED_SIZE ==> {
                &&& r == DVERR_BUFFERTOOSMALL
                &&& *final(data_size) == compression::PCM_REQUIRED_SIZE
                &&& final(data)@ == old(data)@
            },
            *old(data_size) >= compression::PCM_REQUIRED_SIZE ==> {
                &&& r == DV_OK
                &&& *final(data_size) == *old(data_size)
                &&& final(data)@ == compression::spec_enum_payload() + old(data)@.skip(
                    compression::PCM_REQUIRED_SIZE as int,
                )
            },
    {
        compression::GetCompressionTypes(data, data_size, num_elements, flags)
    }

    /// Accepts and discards a transmit-target list; always succeeds.
    pub fn SetTransmitTargets(&self, targets: &Vec<u32>, flags: u32) -> (r: HRESULT)
        ensures
            r == DV_OK,
    {
        DV_OK
    }

    /// Reports zero transmit targets and succeeds; the caller's target
    /// buffer is left untouched.
    pub fn GetTransmitTargets(
        &self,
        targets: &mut Vec<u32>,
        num_targets: &mut u32,
        flags: u32,
    ) -> (r: HRESULT)
        ensures
            r == DV_OK,
            *final(num_targets) == 0,
            final(targets)@ == old(targets)@,
    {
        *num_targets = 0;
        DV_OK
    }

    /// Positional-audio buffering is never available to allocate: always
    /// fails reporting that a buffer already exists.
    pub fn Create3DSoundBuffer(
        &self,
        dv_id: u32,
        source_buffer: u64,
        priority: u32,
        flags: u32,
        user_buffer: u64,
    ) -> (r: HRESULT)
        ensures
            r == DVERR_ALREADYBUFFERED,
    {
        DVERR_ALREADYBUFFERED
    }

    /// Always succeeds; there is never a positional-audio buffer to delete.
    pub fn Delete3DSoundBuffer(&self, dv_id: u32, user_buffer: u64) -> (r: HRESULT)
        ensures
            r == DV_OK,
    {
        DV_OK
    }

    /// Accepts and discards a notification mask; no notification is ever
    /// raised. Always succeeds.
    pub fn SetNotifyMask(&self, message_mask: &Vec<u32>) -> (r: HRESULT)
        ensures
            r == DV_OK,
    {
        DV_OK
    }

    /// Copies the stored sound-device configuration out, under the same
    /// not-connected and declared-size rules as the client configuration.
    pub fn GetSoundDeviceConfig(
        &self,
        sound_device_config: &mut DVSOUNDDEVICECONFIG,
        size_out: &mut u32,
    ) -> (r: HRESULT)
        ensures
            *final(size_out) == *old(size_out),
            self.sound_device_config is None ==> {
                &&& r == DVERR_NOTCONNECTED
                &&& *final(sound_device_config) == *old(sound_device_config)
            },
            self.sound_device_config is Some && old(sound_device_config).dwSize
                != DVSOUNDDEVICECONFIG_SIZE ==> {
                &&& r == DVERR_INVALIDPARAM
                &&& *final(sound_device_config) == *old(sound_device_config)
            },
            self.sound_device_config is Some && old(sound_device_config).dwSize
                == DVSOUNDDEVICECONFIG_SIZE ==> {
                &&& r == DV_OK
                &&& *final(sound_device_config) == self.sound_device_config->0
            },
    {
        match &self.sound_device_config {
            Some(stored) => {
                if sound_device_config.dwSize != DVSOUNDDEVICECONFIG_SIZE {
                    return DVERR_INVALIDPARAM;
                }
                *sound_device_config = *stored;
                DV_OK
            },
            None => DVERR_NOTCONNECTED,
        }
    }
}

} // verus!
