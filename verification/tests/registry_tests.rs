use dpvoice::guid::{clsid_client, clsid_server, clsid_test, guid_eq, guid_text, pcm_codec_type, Guid};
use dpvoice::hresult::S_OK;
use dpvoice::registry::{
    class_key_path, ClassBinding, ClassRegistry, DllRegisterServer, DllUnregisterServer,
};

fn find<'a>(reg: &'a ClassRegistry, clsid: &Guid) -> Option<&'a ClassBinding> {
    reg.bindings.iter().find(|b| guid_eq(&b.clsid, clsid))
}

fn foreign_binding() -> ClassBinding {
    ClassBinding {
        clsid: pcm_codec_type(),
        display_name: String::from("SomeOtherComponent"),
        dll_path: String::from("C:\\other\\component.dll"),
        threading_model: String::from("Apartment"),
    }
}

#[test]
fn guid_text_renders_the_canonical_form() {
    assert_eq!(guid_text(&clsid_client()), "B9F3EB85-B781-4AC1-8D90-93A05EE37D7D");
    assert_eq!(guid_text(&clsid_server()), "D3F5B8E6-9B78-4A4C-94EA-CA2397B663D3");
    assert_eq!(guid_text(&clsid_test()), "0F0F094B-B01C-4091-A14D-DD0CD807711A");
    let zero = Guid { data1: 0, data2: 0, data3: 0, data4: [0; 8] };
    assert_eq!(guid_text(&zero), "00000000-0000-0000-0000-000000000000");
}

#[test]
fn class_key_path_names_the_class_registration_subtree() {
    assert_eq!(
        class_key_path(&clsid_client()),
        "Software\\Classes\\CLSID\\{B9F3EB85-B781-4AC1-8D90-93A05EE37D7D}"
    );
}

#[test]
fn register_publishes_all_three_classes() {
    let mut reg = ClassRegistry::new();
    assert_eq!(DllRegisterServer(&mut reg, "C:\\modules\\voice.dll"), S_OK);
    assert_eq!(reg.bindings.len(), 3);

    let client = find(&reg, &clsid_client()).unwrap();
    assert_eq!(client.display_name, "DirectPlayVoiceClient");
    assert_eq!(client.dll_path, "C:\\modules\\voice.dll");
    assert_eq!(client.threading_model, "Both");

    let server = find(&reg, &clsid_server()).unwrap();
    assert_eq!(server.display_name, "DirectPlayVoiceServer");
    assert_eq!(server.dll_path, "C:\\modules\\voice.dll");
    assert_eq!(server.threading_model, "Both");

    let test = find(&reg, &clsid_test()).unwrap();
    assert_eq!(test.display_name, "DirectPlayVoiceTest");
    assert_eq!(test.dll_path, "C:\\modules\\voice.dll");
    assert_eq!(test.threading_model, "Both");
}

#[test]
fn register_twice_replaces_instead_of_duplicating() {
    let mut reg = ClassRegistry::new();
    DllRegisterServer(&mut reg, "C:\\old\\voice.dll");
    DllRegisterServer(&mut reg, "C:\\new\\voice.dll");
    assert_eq!(reg.bindings.len(), 3);
    let client = find(&reg, &clsid_client()).unwrap();
    assert_eq!(client.dll_path, "C:\\new\\voice.dll");
}

#[test]
fn unregister_removes_the_three_classes() {
    let mut reg = ClassRegistry::new();
    DllRegisterServer(&mut reg, "C:\\modules\\voice.dll");
    assert_eq!(DllUnregisterServer(&mut reg), S_OK);
    assert!(reg.bindings.is_empty());
}

#[test]
fn unregister_twice_succeeds_both_times() {
    let mut reg = ClassRegistry::new();
    DllRegisterServer(&mut reg, "C:\\modules\\voice.dll");
    assert_eq!(DllUnregisterServer(&mut reg), S_OK);
    assert_eq!(DllUnregisterServer(&mut reg), S_OK);
    assert!(reg.bindings.is_empty());
}

#[test]
fn unregister_on_an_empty_store_succeeds() {
    let mut reg = ClassRegistry::new();
    assert_eq!(DllUnregisterServer(&mut reg), S_OK);
    assert!(reg.bindings.is_empty());
}

#[test]
fn unregister_preserves_foreign_bindings() {
    let mut reg = ClassRegistry::new();
    reg.bindings.push(foreign_binding());
    DllRegisterServer(&mut reg, "C:\\modules\\voice.dll");
    assert_eq!(reg.bindings.len(), 4);
    assert_eq!(DllUnregisterServer(&mut reg), S_OK);
    assert_eq!(reg.bindings.len(), 1);
    assert_eq!(reg.bindings[0].display_name, "SomeOtherComponent");
    assert_eq!(reg.bindings[0].threading_model, "Apartment");
}

#[test]
fn cleanup_after_partial_registration_leaves_no_partial_binding() {
    // The rollback path: after only one of the three classes was published,
    // running the unregistration leaves the store as if nothing happened.
    let mut reg = ClassRegistry::new();
    reg.bindings.push(foreign_binding());
    reg.register_class("DirectPlayVoiceClient", &clsid_client(), "C:\\modules\\voice.dll");
    assert_eq!(reg.bindings.len(), 2);
    assert_eq!(DllUnregisterServer(&mut reg), S_OK);
    assert_eq!(reg.bindings.len(), 1);
    assert_eq!(reg.bindings[0].display_name, "SomeOtherComponent");
}
