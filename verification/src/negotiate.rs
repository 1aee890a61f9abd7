//! The layer-negotiation entry point's decision logic. The loader hands the
//! layer a negotiation-info record and the name it is loading; the layer
//! must reject with "initialization failed" when the name is not exactly
//! its own or when the negotiated interface- or API-version ranges exclude
//! the versions it implements, changing nothing on rejection.
use vstd::prelude::*;

use crate::text::str_eq;
use crate::LayerError;

verus! {

/// The loader-interface version this layer implements.
pub const CURRENT_LOADER_API_LAYER_VERSION: u32 = 1;

/// The OpenXR API version this layer is built against, packed as
/// `major << 48 | minor << 32 | patch`; the value 1.0.25 comes from the
/// bindings the layer links (see `current_api_version`).
pub const CURRENT_API_VERSION_RAW: u64 = 0x0001_0000_0000_0019;

/// Relies on openxr::sys::CURRENT_API_VERSION: the bindings target OpenXR
/// 1.0.25, and Version packs as `major << 48 | minor << 32 | patch`, so the
/// raw value is `1 << 48 | 25`.
#[verifier::external_body]
pub fn current_api_version() -> (v: u64)
    ensures
        v == CURRENT_API_VERSION_RAW,
{
    openxr::sys::CURRENT_API_VERSION.into_raw()
}

/// The exact layer name the loader must ask for.
pub open spec fn spec_layer_name() -> Seq<char> {
    "XR_APILAYER_SORENON_compat_layer"@
}

/// The layer's name, as the loader must spell it.
pub fn layer_name() -> (r: &'static str)
    ensures
        r@ == spec_layer_name(),
{
    "XR_APILAYER_SORENON_compat_layer"
}

/// The plain content of the loader's fixed-size negotiation-info record.
#[derive(Clone, Copy, Debug, PartialEq, Eq, Structural)]
pub struct NegotiateLoaderInfo {
    pub struct_version: u32,
    pub struct_size: usize,
    pub min_interface_version: u32,
    pub max_interface_version: u32,
    pub min_api_version: u64,
    pub max_api_version: u64,
}

/// What a successful negotiation reports back: the interface and API
/// versions the layer will speak. The two function pointers the loader
/// also receives are fixed addresses, set by the code around the library.
#[derive(Clone, Copy, Debug, PartialEq, Eq, Structural)]
pub struct NegotiationReply {
    pub layer_interface_version: u32,
    pub layer_api_version: u64,
}

/// Whether the loader's version ranges include what this layer implements.
pub open spec fn spec_versions_compatible(info: NegotiateLoaderInfo) -> bool {
    &&& info.min_interface_version <= CURRENT_LOADER_API_LAYER_VERSION
    &&& info.max_interface_version >= CURRENT_LOADER_API_LAYER_VERSION
    &&& info.min_api_version <= CURRENT_API_VERSION_RAW
    &&& info.max_api_version >= CURRENT_API_VERSION_RAW
}

/// The negotiation's whole outcome: "initialization failed" exactly when
/// the requested name is not this layer's or a version range excludes it,
/// and the implemented versions otherwise.
pub open spec fn spec_negotiate(info: NegotiateLoaderInfo, name: Seq<char>) -> Result<
    NegotiationReply,
    LayerError,
> {
    if name != spec_layer_name() {
        Err(LayerError::InitializationFailed)
    } else if !spec_versions_compatible(info) {
        Err(LayerError::InitializationFailed)
    } else {
        Ok(
            NegotiationReply {
                layer_interface_version: CURRENT_LOADER_API_LAYER_VERSION,
                layer_api_version: CURRENT_API_VERSION_RAW,
            },
        )
    }
}

/// Decides a loader negotiation. This function owns no state and touches
/// none: a rejected negotiation leaves the process exactly as it was, and
/// only an accepted one tells the caller to hand out entry points and
/// build the registry.
pub fn negotiate(info: &NegotiateLoaderInfo, requested_name: &str) -> (r: Result<
    NegotiationReply,
    LayerError,
>)
    ensures
        r == spec_negotiate(*info, requested_name@),
{
    if !str_eq(requested_name, "XR_APILAYER_SORENON_compat_layer") {
        return Err(LayerError::InitializationFailed);
    }
    let current_api = current_api_version();
    if info.min_interface_version > CURRENT_LOADER_API_LAYER_VERSION
        || info.max_interface_version < CURRENT_LOADER_API_LAYER_VERSION
        || info.min_api_version > current_api || info.max_api_version < current_api {
        return Err(LayerError::InitializationFailed);
    }
    Ok(
        NegotiationReply {
            layer_interface_version: CURRENT_LOADER_API_LAYER_VERSION,
            layer_api_version: current_api,
        },
    )
}

/// The layer-name gate of instance creation: the loader's chain record must
/// name this layer exactly, else the call is rejected as a validation
/// failure before anything is built.
pub fn check_layer_name(name: &str) -> (r: Result<(), LayerError>)
    ensures
        name@ == spec_layer_name() ==> r == Ok::<(), LayerError>(()),
        name@ != spec_layer_name() ==> r == Err::<(), LayerError>(LayerError::ValidationFailure),
{
    if str_eq(name, "XR_APILAYER_SORENON_compat_layer") {
        Ok(())
    } else {
        Err(LayerError::ValidationFailure)
    }
}

} // verus!
