use dpvoice::guid::pcm_codec_type;
use dpvoice::hresult::{
    make_dv_hresult, make_hresult, DVERR_ALREADYBUFFERED, DVERR_BUFFERTOOSMALL,
    DVERR_INVALIDPARAM, DVERR_NOTCONNECTED, DVERR_NOTHOSTING, DV_FULLDUPLEX, DV_OK, FACDPV,
};
use dpvoice::probe::DirectPlayVoiceTest;

#[test]
fn query_only_flag_reports_full_duplex() {
    let probe = DirectPlayVoiceTest::new();
    let g = pcm_codec_type();
    assert_eq!(probe.CheckAudioSetup(&g, &g, 0, 0x2), DV_FULLDUPLEX);
    assert_eq!(probe.CheckAudioSetup(&g, &g, 7, 0x3), DV_FULLDUPLEX);
    assert_eq!(probe.CheckAudioSetup(&g, &g, 0, 0xFFFFFFFF), DV_FULLDUPLEX);
}

#[test]
fn without_query_only_flag_reports_plain_success() {
    let probe = DirectPlayVoiceTest::new();
    let g = pcm_codec_type();
    assert_eq!(probe.CheckAudioSetup(&g, &g, 0, 0), DV_OK);
    assert_eq!(probe.CheckAudioSetup(&g, &g, 0, 0x1), DV_OK);
    assert_eq!(probe.CheckAudioSetup(&g, &g, 0, 0xFFFFFFFD), DV_OK);
}

#[test]
fn status_packing_produces_the_documented_codes() {
    assert_eq!(make_hresult(0, FACDPV, 0x0005), DV_FULLDUPLEX);
    assert_eq!(make_dv_hresult(0x017B), DVERR_NOTHOSTING);
    assert_eq!(make_dv_hresult(0x001E), DVERR_BUFFERTOOSMALL);
    assert_eq!(make_dv_hresult(0x016B), DVERR_NOTCONNECTED);
    assert_eq!(make_dv_hresult(0x0178), DVERR_ALREADYBUFFERED);
    assert_eq!(DVERR_NOTHOSTING, 0x8015017Bu32 as i32);
    assert_eq!(DVERR_NOTCONNECTED, 0x8015016Bu32 as i32);
    assert_eq!(DVERR_INVALIDPARAM, 0x80070057u32 as i32);
    assert_eq!(DV_OK, 0);
}

#[test]
fn every_module_failure_code_is_negative() {
    for code in [DVERR_NOTHOSTING, DVERR_BUFFERTOOSMALL, DVERR_NOTCONNECTED, DVERR_ALREADYBUFFERED]
    {
        assert!(code < 0);
    }
    assert!(DV_OK >= 0);
    assert!(DV_FULLDUPLEX >= 0);
}
