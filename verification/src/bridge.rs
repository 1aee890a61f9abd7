//! The Graphics Bridge: the session-creation state machine. It classifies
//! the graphics-binding record attached to a session request, decides under
//! the active bridging policy whether the session passes straight through
//! or is silently rebuilt on a Vulkan backend, enforces the
//! requirements-query precondition, rewrites the instance extension list,
//! and derives the format list a bridged session advertises.
use vstd::prelude::*;

use crate::formats::{spec_from_vk, spec_to_gl, ImageFormat};
use crate::records::{InstanceRecord, Runtime, SessionGraphics, SessionRecord, SystemMeta};
use crate::records::GRAPHICS_OPENGL_GL;
use crate::registry::LayerContext;
use crate::text::str_eq;
use crate::LayerError;
use std::string::{String, ToString};
use std::vec::Vec;

verus! {

/// Raw `XrStructureType` values of the graphics-binding records, as fixed
/// by the OpenXR ABI.
pub const ST_GRAPHICS_BINDING_OPENGL_WIN32_KHR: i32 = 1000023000;

pub const ST_GRAPHICS_BINDING_OPENGL_XLIB_KHR: i32 = 1000023001;

pub const ST_GRAPHICS_BINDING_OPENGL_XCB_KHR: i32 = 1000023002;

pub const ST_GRAPHICS_BINDING_OPENGL_WAYLAND_KHR: i32 = 1000023003;

pub const ST_GRAPHICS_BINDING_OPENGL_ES_ANDROID_KHR: i32 = 1000024001;

pub const ST_GRAPHICS_BINDING_VULKAN_KHR: i32 = 1000025000;

pub const ST_GRAPHICS_BINDING_D3D11_KHR: i32 = 1000027000;

pub const ST_GRAPHICS_BINDING_D3D12_KHR: i32 = 1000028000;

pub const ST_GRAPHICS_BINDING_EGL_MNDX: i32 = 1000048004;

/// The graphics-binding structure kinds the bridge distinguishes.
#[derive(Clone, Copy, Debug, PartialEq, Eq, Structural)]
pub enum BindingType {
    D3D11,
    D3D12,
    Vulkan,
    OpenGlWin32,
    OpenGlXlib,
    OpenGlXcb,
    OpenGlWayland,
    OpenGlEsAndroid,
    EglMndx,
    Unknown,
}

/// How a raw structure-type value classifies.
pub open spec fn spec_binding_type_from_raw(ty: i32) -> BindingType {
    if ty == ST_GRAPHICS_BINDING_D3D11_KHR {
        BindingType::D3D11
    } else if ty == ST_GRAPHICS_BINDING_D3D12_KHR {
        BindingType::D3D12
    } else if ty == ST_GRAPHICS_BINDING_VULKAN_KHR {
        BindingType::Vulkan
    } else if ty == ST_GRAPHICS_BINDING_OPENGL_WIN32_KHR {
        BindingType::OpenGlWin32
    } else if ty == ST_GRAPHICS_BINDING_OPENGL_XLIB_KHR {
        BindingType::OpenGlXlib
    } else if ty == ST_GRAPHICS_BINDING_OPENGL_XCB_KHR {
        BindingType::OpenGlXcb
    } else if ty == ST_GRAPHICS_BINDING_OPENGL_WAYLAND_KHR {
        BindingType::OpenGlWayland
    } else if ty == ST_GRAPHICS_BINDING_OPENGL_ES_ANDROID_KHR {
        BindingType::OpenGlEsAndroid
    } else if ty == ST_GRAPHICS_BINDING_EGL_MNDX {
        BindingType::EglMndx
    } else {
        BindingType::Unknown
    }
}

/// Classifies the raw structure type of a graphics-binding record.
pub fn binding_type_from_raw(ty: i32) -> (r: BindingType)
    ensures
        r == spec_binding_type_from_raw(ty),
{
    if ty == ST_GRAPHICS_BINDING_D3D11_KHR {
        BindingType::D3D11
    } else if ty == ST_GRAPHICS_BINDING_D3D12_KHR {
        BindingType::D3D12
    } else if ty == ST_GRAPHICS_BINDING_VULKAN_KHR {
        BindingType::Vulkan
    } else if ty == ST_GRAPHICS_BINDING_OPENGL_WIN32_KHR {
        BindingType::OpenGlWin32
    } else if ty == ST_GRAPHICS_BINDING_OPENGL_XLIB_KHR {
        BindingType::OpenGlXlib
    } else if ty == ST_GRAPHICS_BINDING_OPENGL_XCB_KHR {
        BindingType::OpenGlXcb
    } else if ty == ST_GRAPHICS_BINDING_OPENGL_WAYLAND_KHR {
        BindingType::OpenGlWayland
    } else if ty == ST_GRAPHICS_BINDING_OPENGL_ES_ANDROID_KHR {
        BindingType::OpenGlEsAndroid
    } else if ty == ST_GRAPHICS_BINDING_EGL_MNDX {
        BindingType::EglMndx
    } else {
        BindingType::Unknown
    }
}

/// The OpenGL family: the six platform binding variants the bridge may
/// replace with a Vulkan binding.
pub open spec fn spec_is_opengl_family(b: BindingType) -> bool {
    match b {
        BindingType::OpenGlWin32 => true,
        BindingType::OpenGlXlib => true,
        BindingType::OpenGlXcb => true,
        BindingType::OpenGlWayland => true,
        BindingType::OpenGlEsAndroid => true,
        BindingType::EglMndx => true,
        _ => false,
    }
}

/// The bridging policy: bridge every OpenGL-family binding (the default),
/// or bridge nothing.
#[derive(Clone, Copy, Debug, PartialEq, Eq, Structural)]
pub enum BridgePolicy {
    AlwaysBridgeOpenGl,
    Never,
}

/// A session's mode: straight pass-through, or bridged onto Vulkan.
#[derive(Clone, Copy, Debug, PartialEq, Eq, Structural)]
pub enum SessionMode {
    Direct,
    Compat,
}

/// The bridging decision table: D3D11, D3D12 and Vulkan bindings are never
/// recast; an OpenGL-family binding becomes Compat exactly under the
/// always-bridge policy; a missing or unknown binding is Direct.
pub open spec fn spec_session_mode(binding: Option<BindingType>, policy: BridgePolicy) -> SessionMode {
    match binding {
        None => SessionMode::Direct,
        Some(b) => {
            if spec_is_opengl_family(b) && policy == BridgePolicy::AlwaysBridgeOpenGl {
                SessionMode::Compat
            } else {
                SessionMode::Direct
            }
        },
    }
}

/// Decides a session's mode from its binding structure and the policy.
pub fn session_mode(binding: Option<BindingType>, policy: BridgePolicy) -> (r: SessionMode)
    ensures
        r == spec_session_mode(binding, policy),
{
    match binding {
        None => SessionMode::Direct,
        Some(b) => {
            let is_gl = match b {
                BindingType::OpenGlWin32 => true,
                BindingType::OpenGlXlib => true,
                BindingType::OpenGlXcb => true,
                BindingType::OpenGlWayland => true,
                BindingType::OpenGlEsAndroid => true,
                BindingType::EglMndx => true,
                _ => false,
            };
            if is_gl && matches!(policy, BridgePolicy::AlwaysBridgeOpenGl) {
                SessionMode::Compat
            } else {
                SessionMode::Direct
            }
        },
    }
}

/// Classifies the inner runtime by the name it reports.
pub fn classify_runtime(name: &str) -> (r: Runtime)
    ensures
        name@ == "SteamVR/OpenXR"@ ==> r is SteamVR,
        name@ == "Oculus"@ ==> r is Oculus,
        name@ == "Windows Mixed Reality Runtime"@ ==> r is WMR,
        name@ == "Monado(XRT) by Collabora et al"@ ==> r is Monado,
        name@ != "SteamVR/OpenXR"@ && name@ != "Oculus"@ && name@
            != "Windows Mixed Reality Runtime"@ && name@ != "Monado(XRT) by Collabora et al"@ ==> (
        r matches Runtime::Other(s) && s@ == name@),
{
    proof {
        reveal_strlit("SteamVR/OpenXR");
        reveal_strlit("Oculus");
        reveal_strlit("Windows Mixed Reality Runtime");
        reveal_strlit("Monado(XRT) by Collabora et al");
        assert("SteamVR/OpenXR"@.len() == 14);
        assert("Oculus"@.len() == 6);
        assert("Windows Mixed Reality Runtime"@.len() == 29);
        assert("Monado(XRT) by Collabora et al"@.len() == 30);
    }
    if str_eq(name, "SteamVR/OpenXR") {
        Runtime::SteamVR
    } else if str_eq(name, "Oculus") {
        Runtime::Oculus
    } else if str_eq(name, "Windows Mixed Reality Runtime") {
        Runtime::WMR
    } else if str_eq(name, "Monado(XRT) by Collabora et al") {
        Runtime::Monado
    } else {
        Runtime::Other(name.to_string())
    }
}

/// Two instance records that agree on everything but hold the given
/// system map.
pub open spec fn spec_with_systems(
    a: InstanceRecord,
    b: InstanceRecord,
    m: Map<u64, SystemMeta>,
) -> bool {
    &&& b.handle == a.handle
    &&& b.poison == a.poison
    &&& b.supports_vulkan_enable2 == a.supports_vulkan_enable2
    &&& b.runtime == a.runtime
    &&& b.sessions@ == a.sessions@
    &&& b.systems@ == m
}

/// Whether the OpenGL requirements query was made for a system.
pub open spec fn spec_requirements_queried(meta: SystemMeta) -> bool {
    meta.requirements_called & GRAPHICS_OPENGL_GL != 0
}

/// The precondition gate of bridged session creation: the instance must be
/// known, the system must be known to it, and the OpenGL requirements
/// query must have been made for that system.
pub open spec fn spec_check_bridging(
    insts: Map<u64, InstanceRecord>,
    instance: u64,
    system_id: u64,
) -> Result<(), LayerError> {
    if !insts.dom().contains(instance) {
        Err(LayerError::HandleInvalid)
    } else if !insts[instance].systems@.contains_key(system_id) {
        Err(LayerError::SystemInvalid)
    } else if !spec_requirements_queried(insts[instance].systems@[system_id]) {
        Err(LayerError::GraphicsRequirementsCallMissing)
    } else {
        Ok(())
    }
}

/// The OpenGL version bounds the layer reports for bridged rendering,
/// packed as `major << 48 | minor << 32 | patch`: at least 4.5.0, at most
/// 4.6.0.
pub const GL_MIN_API_VERSION: u64 = 0x0004_0005_0000_0000;

pub const GL_MAX_API_VERSION: u64 = 0x0004_0006_0000_0000;

impl LayerContext {
    /// Registers a freshly created instance: an unpoisoned record with the
    /// runtime's capability and classification and no systems or sessions
    /// yet.
    pub fn register_instance(&mut self, handle: u64, supports_vulkan_enable2: bool, runtime: Runtime)
        ensures
            final(self).sess() == old(self).sess(),
            final(self).swaps() == old(self).swaps(),
            final(self).insts() == old(self).insts().insert(handle, final(self).insts()[handle]),
            ({
                let rec = final(self).insts()[handle];
                &&& rec.handle == handle
                &&& !rec.poison
                &&& rec.supports_vulkan_enable2 == supports_vulkan_enable2
                &&& rec.runtime == runtime
                &&& rec.systems@ == Map::<u64, SystemMeta>::empty()
                &&& rec.sessions@ == Seq::<u64>::empty()
            }),
    {
        let rec = InstanceRecord {
            handle,
            poison: false,
            supports_vulkan_enable2,
            runtime,
            systems: std::collections::HashMap::new(),
            sessions: Vec::new(),
        };
        self.put_instance(handle, rec);
    }

    /// Records a system the runtime resolved: the queried form factor is
    /// kept and the "requirements queried" set starts empty, clearing any
    /// earlier state for the same system identifier.
    pub fn record_system(&mut self, instance: u64, system_id: u64, form_factor: i32) -> (r: Result<
        (),
        LayerError,
    >)
        ensures
            final(self).sess() == old(self).sess(),
            final(self).swaps() == old(self).swaps(),
            !old(self).insts().dom().contains(instance) ==> r == Err::<(), LayerError>(
                LayerError::HandleInvalid,
            ) && final(self).insts() == old(self).insts(),
            old(self).insts().dom().contains(instance) ==> {
                &&& r == Ok::<(), LayerError>(())
                &&& spec_with_systems(
                    old(self).insts()[instance],
                    final(self).insts()[instance],
                    old(self).insts()[instance].systems@.insert(
                        system_id,
                        SystemMeta { form_factor, requirements_called: 0 },
                    ),
                )
                &&& final(self).insts() == old(self).insts().insert(
                    instance,
                    final(self).insts()[instance],
                )
            },
    {
        match self.get_instance(instance) {
            None => Err(LayerError::HandleInvalid),
            Some(rec) => {
                let mut rec = rec;
                rec.systems.insert(system_id, SystemMeta { form_factor, requirements_called: 0 });
                self.put_instance(instance, rec);
                Ok(())
            },
        }
    }

    /// Answers the OpenGL graphics-requirements query: marks the query as
    /// made for the system (the precondition bridged session creation
    /// checks) and returns the packed minimum and maximum OpenGL versions
    /// the bridge supports. An unknown system is a "system invalid" error.
    pub fn note_opengl_requirements(&mut self, instance: u64, system_id: u64) -> (r: Result<
        (u64, u64),
        LayerError,
    >)
        ensures
            final(self).sess() == old(self).sess(),
            final(self).swaps() == old(self).swaps(),
            !old(self).insts().dom().contains(instance) ==> r == Err::<(u64, u64), LayerError>(
                LayerError::HandleInvalid,
            ) && final(self).insts() == old(self).insts(),
            old(self).insts().dom().contains(instance) && !old(
                self,
            ).insts()[instance].systems@.contains_key(system_id) ==> r == Err::<
                (u64, u64),
                LayerError,
            >(LayerError::SystemInvalid) && final(self).insts() == old(self).insts(),
            old(self).insts().dom().contains(instance) && old(
                self,
            ).insts()[instance].systems@.contains_key(system_id) ==> {
                &&& r == Ok::<(u64, u64), LayerError>((GL_MIN_API_VERSION, GL_MAX_API_VERSION))
                &&& spec_with_systems(
                    old(self).insts()[instance],
                    final(self).insts()[instance],
                    old(self).insts()[instance].systems@.insert(
                        system_id,
                        SystemMeta {
                            form_factor: old(
                                self,
                            ).insts()[instance].systems@[system_id].form_factor,
                            requirements_called: old(
                                self,
                            ).insts()[instance].systems@[system_id].requirements_called
                                | GRAPHICS_OPENGL_GL,
                        },
                    ),
                )
                &&& spec_requirements_queried(final(self).insts()[instance].systems@[system_id])
                &&& final(self).insts() == old(self).insts().insert(
                    instance,
                    final(self).insts()[instance],
                )
            },
    {
        match self.get_instance(instance) {
            None => Err(LayerError::HandleInvalid),
            Some(rec) => {
                let mut rec = rec;
                let meta = match rec.systems.get(&system_id) {
                    None => {
                        return Err(LayerError::SystemInvalid);
                    },
                    Some(meta) => *meta,
                };
                let marked = SystemMeta {
                    form_factor: meta.form_factor,
                    requirements_called: meta.requirements_called | GRAPHICS_OPENGL_GL,
                };
                proof {
                    assert(marked.requirements_called & GRAPHICS_OPENGL_GL != 0) by {
                        let m = meta.requirements_called;
                        assert((m | 0x01u8) & 0x01u8 != 0) by (bit_vector);
                    };
                }
                rec.systems.insert(system_id, marked);
                self.put_instance(instance, rec);
                Ok((GL_MIN_API_VERSION, GL_MAX_API_VERSION))
            },
        }
    }

    /// Whether the inner runtime can carry a bridged session at all: it
    /// must have negotiated the Vulkan-bridging extension, else bridging
    /// is a fatal initialization error and no session is created.
    pub fn check_bridging_support(&self, instance: u64) -> (r: Result<(), LayerError>)
        ensures
            !self.insts().dom().contains(instance) ==> r == Err::<(), LayerError>(
                LayerError::HandleInvalid,
            ),
            self.insts().dom().contains(instance)
                && !self.insts()[instance].supports_vulkan_enable2 ==> r == Err::<(), LayerError>(
                LayerError::InitializationFailed,
            ),
            self.insts().dom().contains(instance)
                && self.insts()[instance].supports_vulkan_enable2 ==> r == Ok::<(), LayerError>(()),
    {
        match self.get_instance(instance) {
            None => Err(LayerError::HandleInvalid),
            Some(rec) => {
                if rec.supports_vulkan_enable2 {
                    Ok(())
                } else {
                    Err(LayerError::InitializationFailed)
                }
            },
        }
    }

    /// The precondition gate of bridged session creation.
    pub fn check_bridging_precondition(&self, instance: u64, system_id: u64) -> (r: Result<
        (),
        LayerError,
    >)
        ensures
            r == spec_check_bridging(self.insts(), instance, system_id),
    {
        match self.get_instance(instance) {
            None => Err(LayerError::HandleInvalid),
            Some(rec) => {
                match rec.systems.get(&system_id) {
                    None => Err(LayerError::SystemInvalid),
                    Some(meta) => {
                        if meta.requirements_called & GRAPHICS_OPENGL_GL != 0 {
                            Ok(())
                        } else {
                            Err(LayerError::GraphicsRequirementsCallMissing)
                        }
                    },
                }
            },
        }
    }

    /// Stores the record of a session the inner runtime created, in the
    /// given mode, and lists it under its owning instance.
    pub fn register_session(&mut self, instance: u64, session: u64, graphics: SessionGraphics) -> (r:
        Result<(), LayerError>)
        ensures
            final(self).swaps() == old(self).swaps(),
            !old(self).insts().dom().contains(instance) ==> r == Err::<(), LayerError>(
                LayerError::HandleInvalid,
            ) && final(self).insts() == old(self).insts() && final(self).sess() == old(self).sess(),
            old(self).insts().dom().contains(instance) ==> {
                &&& r == Ok::<(), LayerError>(())
                &&& ({
                    let rec = final(self).sess()[session];
                    &&& rec.handle == session
                    &&& rec.instance == instance
                    &&& rec.graphics == graphics
                    &&& rec.swapchains@ == Seq::<u64>::empty()
                })
                &&& final(self).sess() == old(self).sess().insert(
                    session,
                    final(self).sess()[session],
                )
                &&& ({
                    let irec = final(self).insts()[instance];
                    &&& spec_with_systems(
                        InstanceRecord {
                            sessions: irec.sessions,
                            ..old(self).insts()[instance]
                        },
                        irec,
                        old(self).insts()[instance].systems@,
                    )
                    &&& irec.sessions@ == old(self).insts()[instance].sessions@.push(session)
                })
                &&& final(self).insts() == old(self).insts().insert(
                    instance,
                    final(self).insts()[instance],
                )
            },
    {
        match self.get_instance(instance) {
            None => Err(LayerError::HandleInvalid),
            Some(irec) => {
                let mut irec = irec;
                irec.sessions.push(session);
                let rec = SessionRecord { handle: session, instance, graphics, swapchains: Vec::new() };
                self.put_session(session, rec);
                self.put_instance(instance, irec);
                Ok(())
            },
        }
    }
}

/// The abstract round trip behind the advertised-format list: a runtime
/// swapchain format joins the list exactly when it is a Vulkan format of
/// the Format Table, and it is advertised as the table's OpenGL value.
pub open spec fn spec_bridged_format(v: i64) -> Option<i64> {
    if 0 <= v <= i32::MAX {
        match spec_from_vk(v as i32) {
            None => None,
            Some(f) => Some(spec_to_gl(f) as i64),
        }
    } else {
        None
    }
}

/// The whole advertised list, in the runtime's enumeration order.
pub open spec fn spec_advertised_formats(s: Seq<i64>) -> Seq<i64>
    decreases s.len(),
{
    if s.len() == 0 {
        Seq::empty()
    } else {
        let rest = spec_advertised_formats(s.drop_last());
        match spec_bridged_format(s.last()) {
            None => rest,
            Some(g) => rest.push(g),
        }
    }
}

/// Maps the runtime's supported Vulkan swapchain formats through the
/// Format Table and back out to OpenGL, keeping only formats the table has
/// in both directions: this list is what a bridged session advertises.
pub fn advertised_formats(runtime_formats: &Vec<i64>) -> (r: Vec<i64>)
    ensures
        r@ == spec_advertised_formats(runtime_formats@),
{
    let mut out: Vec<i64> = Vec::new();
    let mut i: usize = 0;
    while i < runtime_formats.len()
        invariant
            i <= runtime_formats@.len(),
            out@ == spec_advertised_formats(runtime_formats@.subrange(0, i as int)),
        decreases runtime_formats@.len() - i,
    {
        let v = runtime_formats[i];
        if v >= 0 && v <= (i32::MAX as i64) {
            match ImageFormat::from_vk(v as i32) {
                None => (),
                Some(f) => {
                    match f.to_gl() {
                        None => (),
                        Some(g) => out.push(g as i64),
                    }
                },
            }
        }
        proof {
            let pre = runtime_formats@.subrange(0, i as int);
            let cur = runtime_formats@.subrange(0, i + 1);
            assert(cur.drop_last() =~= pre);
            assert(cur.last() == runtime_formats@[i as int]);
        }
        i += 1;
    }
    proof {
        assert(runtime_formats@.subrange(0, runtime_formats@.len() as int) =~= runtime_formats@);
    }
    out
}

/// Querying the OpenGL graphics requirements is exactly what bridging
/// waits for: on any registry state where the query's effect is recorded
/// for a system, the bridging precondition holds for that system.
pub proof fn lemma_requirements_query_enables_bridging(
    insts: Map<u64, InstanceRecord>,
    instance: u64,
    system_id: u64,
)
    requires
        insts.dom().contains(instance),
        insts[instance].systems@.contains_key(system_id),
        spec_requirements_queried(insts[instance].systems@[system_id]),
    ensures
        spec_check_bridging(insts, instance, system_id) == Ok::<(), LayerError>(()),
{
}

/// Every format a bridged session advertises is a Format Table entry on
/// the OpenGL side: the application can hand any of them back and the
/// table will resolve it.
pub proof fn lemma_advertised_formats_supported(s: Seq<i64>, i: int)
    requires
        0 <= i < spec_advertised_formats(s).len(),
    ensures
        0 <= spec_advertised_formats(s)[i] <= u32::MAX,
        crate::formats::spec_from_gl(spec_advertised_formats(s)[i] as u32) is Some,
    decreases s.len(),
{
    if s.len() > 0 {
        let rest = spec_advertised_formats(s.drop_last());
        if i < rest.len() {
            lemma_advertised_formats_supported(s.drop_last(), i);
        } else {
            let f = spec_from_vk(s.last() as i32).unwrap();
            crate::formats::lemma_gl_round_trip(f);
        }
    }
}

/// Conversely, nothing supported is lost: whenever the runtime's list
/// holds a Vulkan format the table knows, that format's OpenGL value is
/// advertised.
pub proof fn lemma_supported_formats_advertised(s: Seq<i64>, i: int)
    requires
        0 <= i < s.len(),
        spec_bridged_format(s[i]) is Some,
    ensures
        spec_advertised_formats(s).contains(spec_bridged_format(s[i]).unwrap()),
    decreases s.len(),
{
    let g = spec_bridged_format(s[i]).unwrap();
    let rest = spec_advertised_formats(s.drop_last());
    if i == s.len() - 1 {
        let adv = spec_advertised_formats(s);
        assert(adv == rest.push(g));
        assert(adv[adv.len() - 1] == g);
    } else {
        assert(s.drop_last()[i] == s[i]);
        lemma_supported_formats_advertised(s.drop_last(), i);
        let j = choose|j: int| 0 <= j < rest.len() && rest[j] == g;
        match spec_bridged_format(s.last()) {
            None => (),
            Some(h) => {
                assert(rest.push(h)[j] == g);
            },
        }
    }
}

/// The two extension names the bridge rewrites between.
pub open spec fn spec_ext_opengl_enable() -> Seq<char> {
    "XR_KHR_opengl_enable"@
}

pub open spec fn spec_ext_vulkan_enable2() -> Seq<char> {
    "XR_KHR_vulkan_enable2"@
}

/// Whether the requested extension list forces the bridge to enable its
/// Vulkan path: the application asked for OpenGL and either bridging is on
/// or the runtime cannot do OpenGL itself.
pub open spec fn spec_needs_opengl_replacement(
    names: Seq<Seq<char>>,
    disable_opengl: bool,
    runtime_has_opengl: bool,
) -> bool {
    (disable_opengl || !runtime_has_opengl) && names.contains(spec_ext_opengl_enable())
}

/// Whether one requested extension survives the rewrite: the OpenGL
/// extension is dropped only when bridging is off but the runtime lacks
/// it; everything else always passes through.
pub open spec fn spec_keep_extension(
    name: Seq<char>,
    disable_opengl: bool,
    runtime_has_opengl: bool,
) -> bool {
    !(name == spec_ext_opengl_enable() && !disable_opengl && !runtime_has_opengl)
}

/// The surviving extensions, in request order.
pub open spec fn spec_filtered_extensions(
    names: Seq<Seq<char>>,
    disable_opengl: bool,
    runtime_has_opengl: bool,
) -> Seq<Seq<char>>
    decreases names.len(),
{
    if names.len() == 0 {
        Seq::empty()
    } else {
        let rest = spec_filtered_extensions(names.drop_last(), disable_opengl, runtime_has_opengl);
        if spec_keep_extension(names.last(), disable_opengl, runtime_has_opengl) {
            rest.push(names.last())
        } else {
            rest
        }
    }
}

/// The extension list handed to the inner runtime: the surviving requested
/// extensions, plus the Vulkan-bridging extension when the rewrite was
/// forced.
pub open spec fn spec_planned_extensions(
    names: Seq<Seq<char>>,
    disable_opengl: bool,
    runtime_has_opengl: bool,
) -> Seq<Seq<char>> {
    let kept = spec_filtered_extensions(names, disable_opengl, runtime_has_opengl);
    if spec_needs_opengl_replacement(names, disable_opengl, runtime_has_opengl) {
        kept.push(spec_ext_vulkan_enable2())
    } else {
        kept
    }
}

/// Rewrites the extension list an application requested before it reaches
/// the inner runtime, and reports whether the OpenGL-to-Vulkan replacement
/// is in force for this instance.
pub fn plan_instance_extensions(
    requested: &Vec<String>,
    disable_opengl: bool,
    runtime_has_opengl: bool,
) -> (r: (Vec<String>, bool))
    ensures
        r.0.deep_view() == spec_planned_extensions(
            requested.deep_view(),
            disable_opengl,
            runtime_has_opengl,
        ),
        r.1 == spec_needs_opengl_replacement(
            requested.deep_view(),
            disable_opengl,
            runtime_has_opengl,
        ),
{
    let ghost all: Seq<Seq<char>> = requested.deep_view();
    let mut out: Vec<String> = Vec::new();
    let mut needs: bool = false;
    let mut i: usize = 0;
    while i < requested.len()
        invariant
            i <= all.len(),
            all == requested.deep_view(),
            requested@.len() == all.len(),
            forall|j: int| 0 <= j < all.len() ==> all[j] == requested@[j]@,
            out.deep_view() == spec_filtered_extensions(
                all.subrange(0, i as int),
                disable_opengl,
                runtime_has_opengl,
            ),
            needs == spec_needs_opengl_replacement(
                all.subrange(0, i as int),
                disable_opengl,
                runtime_has_opengl,
            ),
        decreases all.len() - i,
    {
        let ghost pre = all.subrange(0, i as int);
        let ghost cur = all.subrange(0, i + 1);
        proof {
            assert(cur.drop_last() =~= pre);
            assert(cur.last() == all[i as int]);
        }
        let name = &requested[i];
        let is_gl = str_eq(name.as_str(), "XR_KHR_opengl_enable");
        if is_gl && (disable_opengl || !runtime_has_opengl) {
            needs = true;
        }
        if !(is_gl && !disable_opengl && !runtime_has_opengl) {
            let kept = name.clone();
            out.push(kept);
            proof {
                assert(out.deep_view() =~= spec_filtered_extensions(
                    cur,
                    disable_opengl,
                    runtime_has_opengl,
                ));
            }
        }
        proof {
            if needs != spec_needs_opengl_replacement(cur, disable_opengl, runtime_has_opengl) {
                if spec_needs_opengl_replacement(cur, disable_opengl, runtime_has_opengl) {
                    let k = choose|k: int| 0 <= k < cur.len() && cur[k] == spec_ext_opengl_enable();
                    if k < i {
                        assert(pre[k] == spec_ext_opengl_enable());
                        assert(pre.contains(spec_ext_opengl_enable()));
                    }
                    assert(false);
                } else {
                    if needs {
                        let k = choose|k: int|
                            0 <= k < pre.len() && pre[k] == spec_ext_opengl_enable();
                        assert(cur[k] == spec_ext_opengl_enable());
                        assert(cur.contains(spec_ext_opengl_enable()));
                    } else {
                        assert(cur[i as int] == spec_ext_opengl_enable());
                        assert(cur.contains(spec_ext_opengl_enable()));
                    }
                    assert(false);
                }
            }
        }
        i += 1;
    }
    proof {
        assert(all.subrange(0, all.len() as int) =~= all);
    }
    if needs {
        let vk_ext = "XR_KHR_vulkan_enable2".to_string();
        out.push(vk_ext);
        proof {
            assert(out.deep_view() =~= spec_planned_extensions(
                all,
                disable_opengl,
                runtime_has_opengl,
            ));
        }
    }
    (out, needs)
}

} // verus!

