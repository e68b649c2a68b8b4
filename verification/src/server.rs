//! The server session object. It mirrors the client object's state-machine
//! shape over a single session descriptor: the descriptor is unset until a
//! session is started or explicitly set, queries before that fail as not
//! hosting, and queries and explicit sets validate the caller's declared
//! record size. Stored state is retained after the session stops.

use vstd::prelude::*;
use crate::compression;
use crate::descriptors::{DVCAPS, DVSESSIONDESC, DVSESSIONDESC_SIZE, spec_fixed_caps};
use crate::hresult::{
    DVERR_BUFFERTOOSMALL, DVERR_INVALIDPARAM, DVERR_NOTHOSTING, DV_OK, HRESULT,
};

verus! {

/// A server session: per-instance mutable state created by the dispatcher
/// and shared by every handle that aliases the object.
pub struct DirectPlayVoiceServer {
    /// The current session descriptor, unset until a session start or a
    /// successful explicit set stores one.
    pub session_desc: Option<DVSESSIONDESC>,
}

impl Default for DirectPlayVoiceServer {
    /// Creates a freshly activated server session, with no descriptor
    /// stored yet.
    fn default() -> (s: Self)
        ensures
            s.session_desc is None,
    {
        DirectPlayVoiceServer::new()
    }
}

impl DirectPlayVoiceServer {
    /// Creates a freshly activated server session, with no descriptor
    /// stored yet.
    pub fn new() -> (s: Self)
        ensures
            s.session_desc is None,
    {
        DirectPlayVoiceServer { session_desc: None }
    }

    /// Accepts and discards the registration parameters; no message is ever
    /// delivered, so nothing is retained. Always succeeds.
    pub fn Initialize(
        &self,
        p_unknown: u64,
        p_message_handler: u64,
        p_user_context: u64,
        message_mask: &Vec<u32>,
    ) -> (r: HRESULT)
        ensures
            r == DV_OK,
    {
        DV_OK
    }

    /// Stores a copy of the supplied descriptor as the current session
    /// descriptor and succeeds unconditionally; no declared-size validation
    /// happens on this path.
    pub fn StartSession(&mut self, session_desc: &DVSESSIONDESC, flags: u32) -> (r: HRESULT)
        ensures
            r == DV_OK,
            final(self).session_desc == Some(*session_desc),
    {
        self.session_desc = Some(*session_desc);
        DV_OK
    }

    /// Always succeeds and retains the stored descriptor: callers may still
    /// query it after the session stops.
    pub fn StopSession(&self, flags: u32) -> (r: HRESULT)
        ensures
            r == DV_OK,
    {
        DV_OK
    }

    /// Copies the stored session descriptor out. Fails as not hosting if
    /// none was ever stored; otherwise fails as an invalid parameter unless
    /// the caller's declared size is exactly the defined record size.
    pub fn GetSessionDesc(&self, session_desc: &mut DVSESSIONDESC) -> (r: HRESULT)
        ensures
            self.session_desc is None ==> {
                &&& r == DVERR_NOTHOSTING
                &&& *final(session_desc) == *old(session_desc)
            },
            self.session_desc is Some && old(session_desc).dwSize != DVSESSIONDESC_SIZE ==> {
                &&& r == DVERR_INVALIDPARAM
                &&& *final(session_desc) == *old(session_desc)
            },
            self.session_desc is Some && old(session_desc).dwSize == DVSESSIONDESC_SIZE ==> {
                &&& r == DV_OK
                &&& *final(session_desc) == self.session_desc->0
            },
    {
        match &self.session_desc {
            Some(stored) => {
                if session_desc.dwSize != DVSESSIONDESC_SIZE {
                    return DVERR_INVALIDPARAM;
                }
                *session_desc = *stored;
                DV_OK
            },
            None => DVERR_NOTHOSTING,
        }
    }

    /// Replaces the stored session descriptor, after validating that the
    /// supplied record's declared size is exactly the defined record size.
    pub fn SetSessionDesc(&mut self, session_desc: &DVSESSIONDESC) -> (r: HRESULT)
        ensures
            session_desc.dwSize != DVSESSIONDESC_SIZE ==> {
                &&& r == DVERR_INVALIDPARAM
                &&& *final(self) == *old(self)
            },
            session_desc.dwSize == DVSESSIONDESC_SIZE ==> {
                &&& r == DV_OK
                &&& final(self).session_desc == Some(*session_desc)
            },
    {
        if session_desc.dwSize != DVSESSIONDESC_SIZE {
            return DVERR_INVALIDPARAM;
        }
        self.session_desc = Some(*session_desc);
        DV_OK
    }

    /// Writes the fixed zero-flags capability record and succeeds.
    pub fn GetCaps(&self, caps: &mut DVCAPS) -> (r: HRESULT)
        ensures
            r == DV_OK,
            *final(caps) == spec_fixed_caps(),
    {
        *caps = DVCAPS { dwSize: crate::descriptors::DVCAPS_SIZE, dwFlags: 0 };
        DV_OK
    }

    /// Enumerates the advertised compression types into the caller's buffer,
    /// by the two-call size-negotiation protocol.
    pub fn GetCompressionTypes(
        &self,
        data: &mut Vec<u8>,
        data_size: &mut u32,
        num_elements: &mut u32,
        flags: u32,
    ) -> (r: HRESULT)
        requires
            *old(data_size) <= old(data)@.len(),
        ensures
            *final(num_elements) == 1,
            final(data)@.len() == old(data)@.len(),
            *old(data_size) < compression::PCM_REQUIRED_SIZE ==> {
                &&& r == DVERR_BUFFERTOOSMALL
                &&& *final(data_size) == compression::PCM_REQUIRED_SIZE
                &&& final(data)@ == old(data)@
            },
            *old(data_size) >= compression::PCM_REQUIRED_SIZE ==> {
                &&& r == DV_OK
                &&& *final(data_size) == *old(data_size)
                &&& final(data)@ == compression::spec_enum_payload() + old(data)@.skip(
                    compression::PCM_REQUIRED_SIZE as int,
                )
            },
    {
        compression::GetCompressionTypes(data, data_size, num_elements, flags)
    }

    /// Accepts and discards a transmit-target list for a source; always
    /// succeeds.
    pub fn SetTransmitTargets(
        &self,
        dv_source: u32,
        targets: &Vec<u32>,
        flags: u32,
    ) -> (r: HRESULT)
        ensures
            r == DV_OK,
    {
        DV_OK
    }

    /// Reports zero transmit targets for a source and succeeds; the caller's
    /// target buffer is left untouched.
    pub fn GetTransmitTargets(
        &self,
        dv_source: u32,
        targets: &mut Vec<u32>,
        num_targets: &mut u32,
        flags: u32,
    ) -> (r: HRESULT)
        ensures
            r == DV_OK,
            *final(num_targets) == 0,
            final(targets)@ == old(targets)@,
    {
        *num_targets = 0;
        DV_OK
    }

    /// Accepts and discards a notification mask; no notification is ever
    /// raised. Always succeeds.
    pub fn SetNotifyMask(&self, message_mask: &Vec<u32>) -> (r: HRESULT)
        ensures
            r == DV_OK,
    {
        DV_OK
    }
}

} // verus!
