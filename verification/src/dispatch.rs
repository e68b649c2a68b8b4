//! The class/interface dispatcher. It maps a class identifier to a
//! constructor, builds a fresh reference-counted object viewed through the
//! requested interface, and negotiates further interfaces on an existing
//! object. Each class supports exactly one interface of its own plus the
//! universal reference-counting capability; any other identifier is refused.

use vstd::prelude::*;
use crate::client::DirectPlayVoiceClient;
use crate::guid::{
    Guid, guid_eq, clsid_client, clsid_server, clsid_test, iid_client, iid_server, iid_test,
    iid_unknown, spec_clsid_client, spec_clsid_server, spec_clsid_test, spec_iid_client,
    spec_iid_server, spec_iid_test, spec_iid_unknown,
};
use crate::hresult::{CLASS_E_CLASSNOTAVAILABLE, E_NOINTERFACE, HRESULT};
use crate::probe::DirectPlayVoiceTest;
use crate::server::DirectPlayVoiceServer;

verus! {

/// An object of one of the three activatable classes.
pub enum ClassObject {
    /// A client session object.
    Client(DirectPlayVoiceClient),
    /// A server session object.
    Server(DirectPlayVoiceServer),
    /// A capability-probe object.
    Test(DirectPlayVoiceTest),
}

/// A reference-counted object handle. The count is shared by every interface
/// view handed out for the object; it starts at one on activation, each
/// duplication raises it, each release lowers it, and the release that
/// returns zero obliges the owner to destroy the object.
pub struct ComObject {
    /// The underlying object all views alias.
    pub object: ClassObject,
    /// The number of owning handles currently outstanding.
    pub ref_count: u32,
}

/// Whether a class identifier names a class this module can construct.
pub open spec fn spec_is_supported_clsid(clsid: Guid) -> bool {
    clsid == spec_clsid_client() || clsid == spec_clsid_server() || clsid == spec_clsid_test()
}

/// The class identifier of the class an object belongs to.
pub open spec fn spec_clsid_of(object: ClassObject) -> Guid {
    match object {
        ClassObject::Client(_) => spec_clsid_client(),
        ClassObject::Server(_) => spec_clsid_server(),
        ClassObject::Test(_) => spec_clsid_test(),
    }
}

/// Whether a class declares support for an interface identifier: its own
/// interface, or the universal reference-counting capability.
pub open spec fn spec_class_supports_iid(clsid: Guid, iid: Guid) -> bool {
    iid == spec_iid_unknown() || (clsid == spec_clsid_client() && iid == spec_iid_client()) || (
    clsid == spec_clsid_server() && iid == spec_iid_server()) || (clsid == spec_clsid_test()
        && iid == spec_iid_test())
}

/// A freshly constructed object of a supported class, with nothing stored in
/// its session state yet.
pub open spec fn spec_fresh_object(clsid: Guid) -> ClassObject {
    if clsid == spec_clsid_client() {
        ClassObject::Client(
            DirectPlayVoiceClient { client_config: None, sound_device_config: None },
        )
    } else if clsid == spec_clsid_server() {
        ClassObject::Server(DirectPlayVoiceServer { session_desc: None })
    } else {
        ClassObject::Test(DirectPlayVoiceTest {  })
    }
}

/// Decides whether a class declares support for an interface identifier.
pub fn class_supports_interface(clsid: &Guid, iid: &Guid) -> (r: bool)
    ensures
        r == spec_class_supports_iid(*clsid, *iid),
{
    if guid_eq(iid, &iid_unknown()) {
        return true;
    }
    if guid_eq(clsid, &clsid_client()) {
        return guid_eq(iid, &iid_client());
    }
    if guid_eq(clsid, &clsid_server()) {
        return guid_eq(iid, &iid_server());
    }
    if guid_eq(clsid, &clsid_test()) {
        return guid_eq(iid, &iid_test());
    }
    false
}

/// Activates an object: resolves the class identifier to a constructor,
/// builds a fresh instance, and returns it viewed through the requested
/// interface, with a reference count of one. An unrecognized class
/// identifier fails with the class-not-available status, constructing
/// nothing; a recognized class queried for an interface outside its
/// capability set fails with the interface-not-supported status.
pub fn DllGetClassObject(class_id: &Guid, iid: &Guid) -> (r: Result<ComObject, HRESULT>)
    ensures
        !spec_is_supported_clsid(*class_id) ==> r == Err::<ComObject, HRESULT>(
            CLASS_E_CLASSNOTAVAILABLE,
        ),
        spec_is_supported_clsid(*class_id) && !spec_class_supports_iid(*class_id, *iid) ==> r
            == Err::<ComObject, HRESULT>(E_NOINTERFACE),
        spec_is_supported_clsid(*class_id) && spec_class_supports_iid(*class_id, *iid) ==> r
            == Ok::<ComObject, HRESULT>(
            ComObject { object: spec_fresh_object(*class_id), ref_count: 1 },
        ),
{
    if !guid_eq(class_id, &clsid_client()) && !guid_eq(class_id, &clsid_server()) && !guid_eq(
        class_id,
        &clsid_test(),
    ) {
        return Err(CLASS_E_CLASSNOTAVAILABLE);
    }
    if !class_supports_interface(class_id, iid) {
        return Err(E_NOINTERFACE);
    }
    let object = if guid_eq(class_id, &clsid_client()) {
        ClassObject::Client(DirectPlayVoiceClient::new())
    } else if guid_eq(class_id, &clsid_server()) {
        ClassObject::Server(DirectPlayVoiceServer::new())
    } else {
        ClassObject::Test(DirectPlayVoiceTest::new())
    };
    Ok(ComObject { object, ref_count: 1 })
}

/// Law: a freshly activated session object holds no configuration. Until a
/// connect, a session start or a successful explicit set stores one, the
/// configuration queries on such an object report not connected and not
/// hosting, by their own contracts over these fields.
pub proof fn lemma_fresh_sessions_unconfigured()
    ensures
        spec_fresh_object(spec_clsid_client()) matches ClassObject::Client(c)
            && c.client_config is None && c.sound_device_config is None,
        spec_fresh_object(spec_clsid_server()) matches ClassObject::Server(s)
            && s.session_desc is None,
{
}

impl ComObject {
    /// Duplicates a handle to the object: raises the shared count by one and
    /// reports the new count.
    pub fn AddRef(&mut self) -> (count: u32)
        requires
            old(self).ref_count < u32::MAX,
        ensures
            final(self).object == old(self).object,
            final(self).ref_count == old(self).ref_count + 1,
            count == final(self).ref_count,
    {
        self.ref_count = self.ref_count + 1;
        self.ref_count
    }

    /// Releases one handle to the object: lowers the shared count by one and
    /// reports the new count. A report of zero means no owning handle is
    /// left and the owner must destroy the object.
    pub fn Release(&mut self) -> (count: u32)
        requires
            old(self).ref_count > 0,
        ensures
            final(self).object == old(self).object,
            final(self).ref_count == old(self).ref_count - 1,
            count == final(self).ref_count,
    {
        self.ref_count = self.ref_count - 1;
        self.ref_count
    }

    /// Negotiates an interface on the existing object: succeeds for every
    /// interface identifier the object's class declares support for, raising
    /// the count for the new owning view; fails with the
    /// interface-not-supported status for any other identifier, changing
    /// nothing.
    pub fn QueryInterface(&mut self, iid: &Guid) -> (r: Result<u32, HRESULT>)
        requires
            old(self).ref_count < u32::MAX,
        ensures
            spec_class_supports_iid(spec_clsid_of(old(self).object), *iid) ==> {
                &&& final(self).object == old(self).object
                &&& final(self).ref_count == old(self).ref_count + 1
                &&& r == Ok::<u32, HRESULT>(final(self).ref_count)
            },
            !spec_class_supports_iid(spec_clsid_of(old(self).object), *iid) ==> {
                &&& *final(self) == *old(self)
                &&& r == Err::<u32, HRESULT>(E_NOINTERFACE)
            },
    {
        let clsid = match &self.object {
            ClassObject::Client(_) => clsid_client(),
            ClassObject::Server(_) => clsid_server(),
            ClassObject::Test(_) => clsid_test(),
        };
        if class_supports_interface(&clsid, iid) {
            Ok(self.AddRef())
        } else {
            Err(E_NOINTERFACE)
        }
    }
}

} // verus!
