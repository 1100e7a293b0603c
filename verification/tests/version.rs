use video_transcode::version::{
    heshur_transcoder_build_timestamp, heshur_transcoder_version, VERSION_MAJOR, VERSION_MINOR,
    VERSION_PATCH,
};

#[test]
fn version_is_stable_packed_code() {
    // major 0, minor 1, patch 0 packs to 100, on every call.
    assert_eq!(heshur_transcoder_version(), 100);
    assert_eq!(heshur_transcoder_version(), 100);
    assert_eq!(
        heshur_transcoder_version(),
        VERSION_MAJOR * 10000 + VERSION_MINOR * 100 + VERSION_PATCH
    );
}

#[test]
fn unpacking_recovers_the_components() {
    let v = heshur_transcoder_version();
    assert_eq!(v / 10000, VERSION_MAJOR);
    assert_eq!((v % 10000) / 100, VERSION_MINOR);
    assert_eq!(v % 100, VERSION_PATCH);
}

#[test]
fn build_timestamp_defaults_to_zero() {
    assert_eq!(heshur_transcoder_build_timestamp(None), 0);
}

#[test]
fn build_timestamp_passes_embedded_value_through() {
    assert_eq!(heshur_transcoder_build_timestamp(Some(1_700_000_000)), 1_700_000_000);
    assert_eq!(heshur_transcoder_build_timestamp(Some(-1)), -1);
}
