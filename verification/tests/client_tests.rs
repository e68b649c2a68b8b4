use dpvoice::client::DirectPlayVoiceClient;
use dpvoice::descriptors::{
    DVCAPS, DVCAPS_SIZE, DVCLIENTCONFIG, DVCLIENTCONFIG_SIZE, DVSESSIONDESC, DVSESSIONDESC_SIZE,
    DVSESSION_NOHOSTMIGRATION, DVSESSIONTYPE_PEER, DVSOUNDDEVICECONFIG, DVSOUNDDEVICECONFIG_SIZE,
};
use dpvoice::guid::pcm_codec_type;
use dpvoice::hresult::{
    DVERR_ALREADYBUFFERED, DVERR_INVALIDPARAM, DVERR_NOTCONNECTED, DV_OK,
};

fn sample_client_config() -> DVCLIENTCONFIG {
    DVCLIENTCONFIG {
        dwSize: DVCLIENTCONFIG_SIZE,
        dwFlags: 7,
        lRecordVolume: -600,
        lPlaybackVolume: -1200,
        dwThreshold: 3,
        dwBufferQuality: 4,
        dwBufferAggressiveness: 5,
        dwNotifyPeriod: 250,
    }
}

fn sample_device_config() -> DVSOUNDDEVICECONFIG {
    DVSOUNDDEVICECONFIG {
        dwSize: DVSOUNDDEVICECONFIG_SIZE,
        dwFlags: 1,
        guidPlaybackDevice: pcm_codec_type(),
        lpdsPlaybackDevice: 0xDEAD,
        guidCaptureDevice: pcm_codec_type(),
        lpdsCaptureDevice: 0xBEEF,
        hwndAppWindow: 42,
        lpdsMainBuffer: 0,
        dwMainBufferFlags: 0,
        dwMainBufferPriority: 0,
    }
}

#[test]
fn fresh_client_reports_not_connected() {
    let client = DirectPlayVoiceClient::new();
    let mut cfg = sample_client_config();
    assert_eq!(client.GetClientConfig(&mut cfg), DVERR_NOTCONNECTED);
    let mut dev = sample_device_config();
    let mut size_out = 0u32;
    assert_eq!(client.GetSoundDeviceConfig(&mut dev, &mut size_out), DVERR_NOTCONNECTED);
}

#[test]
fn connect_stores_both_configurations() {
    let mut client = DirectPlayVoiceClient::new();
    assert_eq!(client.Connect(&sample_device_config(), &sample_client_config(), 0), DV_OK);

    let mut cfg = DVCLIENTCONFIG { dwSize: DVCLIENTCONFIG_SIZE, ..sample_client_config() };
    cfg.dwFlags = 0;
    assert_eq!(client.GetClientConfig(&mut cfg), DV_OK);
    assert_eq!(cfg, sample_client_config());

    let mut dev = sample_device_config();
    dev.lpdsPlaybackDevice = 0;
    let mut size_out = 0u32;
    assert_eq!(client.GetSoundDeviceConfig(&mut dev, &mut size_out), DV_OK);
    assert_eq!(dev, sample_device_config());
}

#[test]
fn connect_skips_size_validation() {
    // The connect path stores the descriptors without checking their
    // declared sizes, unlike the explicit set path.
    let mut client = DirectPlayVoiceClient::new();
    let mut odd = sample_client_config();
    odd.dwSize = 9999;
    assert_eq!(client.Connect(&sample_device_config(), &odd, 0), DV_OK);
    let mut out = sample_client_config();
    assert_eq!(client.GetClientConfig(&mut out), DV_OK);
    assert_eq!(out.dwSize, 9999);
}

#[test]
fn get_client_config_validates_declared_size_boundaries() {
    let mut client = DirectPlayVoiceClient::new();
    client.Connect(&sample_device_config(), &sample_client_config(), 0);

    let mut low = sample_client_config();
    low.dwSize = DVCLIENTCONFIG_SIZE - 1;
    assert_eq!(client.GetClientConfig(&mut low), DVERR_INVALIDPARAM);
    assert_eq!(low.dwSize, DVCLIENTCONFIG_SIZE - 1);

    let mut high = sample_client_config();
    high.dwSize = DVCLIENTCONFIG_SIZE + 1;
    assert_eq!(client.GetClientConfig(&mut high), DVERR_INVALIDPARAM);

    let mut zero = sample_client_config();
    zero.dwSize = 0;
    assert_eq!(client.GetClientConfig(&mut zero), DVERR_INVALIDPARAM);
}

#[test]
fn set_client_config_validates_declared_size_boundaries() {
    let mut client = DirectPlayVoiceClient::new();

    let mut low = sample_client_config();
    low.dwSize = DVCLIENTCONFIG_SIZE - 1;
    assert_eq!(client.SetClientConfig(&low), DVERR_INVALIDPARAM);
    let mut probe = sample_client_config();
    assert_eq!(client.GetClientConfig(&mut probe), DVERR_NOTCONNECTED);

    let mut high = sample_client_config();
    high.dwSize = DVCLIENTCONFIG_SIZE + 1;
    assert_eq!(client.SetClientConfig(&high), DVERR_INVALIDPARAM);

    assert_eq!(client.SetClientConfig(&sample_client_config()), DV_OK);
    let mut out = sample_client_config();
    out.dwFlags = 0;
    assert_eq!(client.GetClientConfig(&mut out), DV_OK);
    assert_eq!(out, sample_client_config());
}

#[test]
fn get_sound_device_config_validates_declared_size_boundaries() {
    let mut client = DirectPlayVoiceClient::new();
    client.Connect(&sample_device_config(), &sample_client_config(), 0);
    let mut size_out = 5u32;

    let mut low = sample_device_config();
    low.dwSize = DVSOUNDDEVICECONFIG_SIZE - 1;
    assert_eq!(client.GetSoundDeviceConfig(&mut low, &mut size_out), DVERR_INVALIDPARAM);

    let mut high = sample_device_config();
    high.dwSize = DVSOUNDDEVICECONFIG_SIZE + 1;
    assert_eq!(client.GetSoundDeviceConfig(&mut high, &mut size_out), DVERR_INVALIDPARAM);
    assert_eq!(size_out, 5);
}

#[test]
fn disconnect_retains_stored_configuration() {
    let mut client = DirectPlayVoiceClient::new();
    client.Connect(&sample_device_config(), &sample_client_config(), 0);
    assert_eq!(client.Disconnect(0), DV_OK);
    let mut out = sample_client_config();
    assert_eq!(client.GetClientConfig(&mut out), DV_OK);
    assert_eq!(out, sample_client_config());
}

#[test]
fn get_session_desc_reports_the_fixed_descriptor() {
    let client = DirectPlayVoiceClient::new();
    let mut desc = DVSESSIONDESC {
        dwSize: 0,
        dwFlags: 0,
        dwSessionType: 0,
        guidCT: pcm_codec_type(),
        dwBufferQuality: 9,
        dwBufferAggressiveness: 9,
    };
    assert_eq!(client.GetSessionDesc(&mut desc), DV_OK);
    assert_eq!(desc.dwSize, DVSESSIONDESC_SIZE);
    assert_eq!(desc.dwFlags, DVSESSION_NOHOSTMIGRATION);
    assert_eq!(desc.dwSessionType, DVSESSIONTYPE_PEER);
    assert_eq!(desc.guidCT, pcm_codec_type());
    assert_eq!(desc.dwBufferQuality, 0);
    assert_eq!(desc.dwBufferAggressiveness, 0);
}

#[test]
fn get_caps_reports_the_fixed_zero_record() {
    let client = DirectPlayVoiceClient::new();
    let mut caps = DVCAPS { dwSize: 0, dwFlags: 77 };
    assert_eq!(client.GetCaps(&mut caps), DV_OK);
    assert_eq!(caps.dwSize, DVCAPS_SIZE);
    assert_eq!(caps.dwFlags, 0);
}

#[test]
fn stub_operations_report_their_fixed_statuses() {
    let client = DirectPlayVoiceClient::new();
    assert_eq!(client.Initialize(0, 0, 0, &vec![]), DV_OK);
    assert_eq!(client.SetTransmitTargets(&vec![1, 2, 3], 0), DV_OK);
    let mut targets = vec![9u32, 9, 9];
    let mut count = 55u32;
    assert_eq!(client.GetTransmitTargets(&mut targets, &mut count, 0), DV_OK);
    assert_eq!(count, 0);
    assert_eq!(targets, vec![9, 9, 9]);
    assert_eq!(client.SetNotifyMask(&vec![1]), DV_OK);
}

#[test]
fn positional_audio_buffers_are_never_available() {
    let client = DirectPlayVoiceClient::new();
    assert_eq!(client.Create3DSoundBuffer(1, 2, 3, 4, 5), DVERR_ALREADYBUFFERED);
    assert_eq!(client.Create3DSoundBuffer(0, 0, 0, 0, 0), DVERR_ALREADYBUFFERED);
    assert_eq!(client.Delete3DSoundBuffer(1, 2), DV_OK);
    assert_eq!(client.Delete3DSoundBuffer(0, 0), DV_OK);
}
