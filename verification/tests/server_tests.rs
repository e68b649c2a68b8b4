use dpvoice::descriptors::{DVCAPS, DVCAPS_SIZE, DVSESSIONDESC, DVSESSIONDESC_SIZE};
use dpvoice::guid::pcm_codec_type;
use dpvoice::hresult::{DVERR_INVALIDPARAM, DVERR_NOTHOSTING, DV_OK};
use dpvoice::server::DirectPlayVoiceServer;

fn sample_desc() -> DVSESSIONDESC {
    DVSESSIONDESC {
        dwSize: DVSESSIONDESC_SIZE,
        dwFlags: 0,
        dwSessionType: 1,
        guidCT: pcm_codec_type(),
        dwBufferQuality: 2,
        dwBufferAggressiveness: 3,
    }
}

#[test]
fn fresh_server_reports_not_hosting() {
    let server = DirectPlayVoiceServer::new();
    let mut desc = sample_desc();
    assert_eq!(server.GetSessionDesc(&mut desc), DVERR_NOTHOSTING);
    assert_eq!(desc, sample_desc());
}

#[test]
fn start_session_stores_the_descriptor() {
    let mut server = DirectPlayVoiceServer::new();
    assert_eq!(server.StartSession(&sample_desc(), 0), DV_OK);
    let mut out = sample_desc();
    out.dwFlags = 99;
    assert_eq!(server.GetSessionDesc(&mut out), DV_OK);
    assert_eq!(out, sample_desc());
}

#[test]
fn start_session_skips_size_validation() {
    let mut server = DirectPlayVoiceServer::new();
    let mut odd = sample_desc();
    odd.dwSize = 1;
    assert_eq!(server.StartSession(&odd, 0), DV_OK);
    let mut out = sample_desc();
    assert_eq!(server.GetSessionDesc(&mut out), DV_OK);
    assert_eq!(out.dwSize, 1);
}

#[test]
fn get_session_desc_validates_declared_size_boundaries() {
    let mut server = DirectPlayVoiceServer::new();
    server.StartSession(&sample_desc(), 0);

    let mut low = sample_desc();
    low.dwSize = DVSESSIONDESC_SIZE - 1;
    assert_eq!(server.GetSessionDesc(&mut low), DVERR_INVALIDPARAM);
    assert_eq!(low.dwSize, DVSESSIONDESC_SIZE - 1);

    let mut high = sample_desc();
    high.dwSize = DVSESSIONDESC_SIZE + 1;
    assert_eq!(server.GetSessionDesc(&mut high), DVERR_INVALIDPARAM);
}

#[test]
fn set_session_desc_validates_declared_size_boundaries() {
    let mut server = DirectPlayVoiceServer::new();

    let mut low = sample_desc();
    low.dwSize = DVSESSIONDESC_SIZE - 1;
    assert_eq!(server.SetSessionDesc(&low), DVERR_INVALIDPARAM);
    let mut probe = sample_desc();
    assert_eq!(server.GetSessionDesc(&mut probe), DVERR_NOTHOSTING);

    let mut high = sample_desc();
    high.dwSize = DVSESSIONDESC_SIZE + 1;
    assert_eq!(server.SetSessionDesc(&high), DVERR_INVALIDPARAM);

    assert_eq!(server.SetSessionDesc(&sample_desc()), DV_OK);
    let mut out = sample_desc();
    out.dwSessionType = 0;
    assert_eq!(server.GetSessionDesc(&mut out), DV_OK);
    assert_eq!(out, sample_desc());
}

#[test]
fn stop_session_retains_the_descriptor() {
    let mut server = DirectPlayVoiceServer::new();
    server.StartSession(&sample_desc(), 0);
    assert_eq!(server.StopSession(0), DV_OK);
    let mut out = sample_desc();
    assert_eq!(server.GetSessionDesc(&mut out), DV_OK);
    assert_eq!(out, sample_desc());
}

#[test]
fn server_caps_and_stub_operations() {
    let server = DirectPlayVoiceServer::new();
    let mut caps = DVCAPS { dwSize: 3, dwFlags: 3 };
    assert_eq!(server.GetCaps(&mut caps), DV_OK);
    assert_eq!(caps, DVCAPS { dwSize: DVCAPS_SIZE, dwFlags: 0 });
    assert_eq!(server.Initialize(0, 0, 0, &vec![]), DV_OK);
    assert_eq!(server.SetTransmitTargets(4, &vec![1], 0), DV_OK);
    let mut targets = vec![8u32];
    let mut count = 3u32;
    assert_eq!(server.GetTransmitTargets(4, &mut targets, &mut count, 0), DV_OK);
    assert_eq!(count, 0);
    assert_eq!(targets, vec![8]);
    assert_eq!(server.SetNotifyMask(&vec![]), DV_OK);
}
