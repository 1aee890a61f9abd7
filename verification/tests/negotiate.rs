//! Layer negotiation: exact-name matching and version-range checks.
use compat_layer::negotiate::{
    layer_name, negotiate, NegotiateLoaderInfo, CURRENT_API_VERSION_RAW,
    CURRENT_LOADER_API_LAYER_VERSION,
};
use compat_layer::LayerError;

fn version(major: u16, minor: u16, patch: u32) -> u64 {
    ((major as u64) << 48) | ((minor as u64) << 32) | patch as u64
}

fn good_info() -> NegotiateLoaderInfo {
    NegotiateLoaderInfo {
        struct_version: 1,
        struct_size: 40,
        min_interface_version: 1,
        max_interface_version: 1,
        min_api_version: version(1, 0, 0),
        max_api_version: version(1, 0, u32::MAX),
    }
}

#[test]
fn negotiation_succeeds_with_matching_name_and_ranges() {
    let reply = negotiate(&good_info(), layer_name()).expect("negotiation should succeed");
    assert_eq!(reply.layer_interface_version, CURRENT_LOADER_API_LAYER_VERSION);
    assert_eq!(reply.layer_api_version, CURRENT_API_VERSION_RAW);
    // The implemented API version is OpenXR 1.0.25 from the linked bindings.
    assert_eq!(reply.layer_api_version, version(1, 0, 25));
}

#[test]
fn negotiation_rejects_a_mismatched_name() {
    assert_eq!(
        negotiate(&good_info(), "XR_APILAYER_someone_else"),
        Err(LayerError::InitializationFailed)
    );
    assert_eq!(negotiate(&good_info(), ""), Err(LayerError::InitializationFailed));
    // A prefix or a different case is not an exact match.
    assert_eq!(
        negotiate(&good_info(), "XR_APILAYER_SORENON_compat_laye"),
        Err(LayerError::InitializationFailed)
    );
    assert_eq!(
        negotiate(&good_info(), "xr_apilayer_sorenon_compat_layer"),
        Err(LayerError::InitializationFailed)
    );
}

#[test]
fn negotiation_rejects_interface_ranges_excluding_ours() {
    let mut info = good_info();
    info.min_interface_version = 2;
    assert_eq!(negotiate(&info, layer_name()), Err(LayerError::InitializationFailed));
    let mut info = good_info();
    info.max_interface_version = 0;
    assert_eq!(negotiate(&info, layer_name()), Err(LayerError::InitializationFailed));
}

#[test]
fn negotiation_rejects_api_ranges_excluding_ours() {
    let mut info = good_info();
    info.min_api_version = version(2, 0, 0);
    assert_eq!(negotiate(&info, layer_name()), Err(LayerError::InitializationFailed));
    let mut info = good_info();
    info.max_api_version = version(0, 9, 0);
    assert_eq!(negotiate(&info, layer_name()), Err(LayerError::InitializationFailed));
}

#[test]
fn negotiation_accepts_exact_version_bounds() {
    let mut info = good_info();
    info.min_api_version = version(1, 0, 25);
    info.max_api_version = version(1, 0, 25);
    assert!(negotiate(&info, layer_name()).is_ok());
}
