//! The proc-address interceptor chain: an ordered list of resolvers, one
//! per handle level (instance, session, swapchain), each recognizing a
//! disjoint set of entry-point names. The first resolver that recognizes a
//! name wins; a name none of them recognizes is forwarded unmodified to the
//! inner runtime's own resolver.
use vstd::prelude::*;

use crate::text::str_eq;
use crate::LayerError;

verus! {

/// The entry points the layer intercepts instead of forwarding.
#[derive(Clone, Copy, Debug, PartialEq, Eq, Structural)]
pub enum EntryOverride {
    GetSystem,
    GetOpenGlGraphicsRequirements,
    CreateSession,
    EnumerateSwapchainFormats,
    CreateSwapchain,
    EnumerateSwapchainImages,
    AcquireSwapchainImage,
    ReleaseSwapchainImage,
}

/// The names the instance-level resolver recognizes.
pub open spec fn spec_instance_override(name: Seq<char>) -> Option<EntryOverride> {
    if name == "xrGetSystem"@ {
        Some(EntryOverride::GetSystem)
    } else if name == "xrGetOpenGLGraphicsRequirementsKHR"@ {
        Some(EntryOverride::GetOpenGlGraphicsRequirements)
    } else if name == "xrCreateSession"@ {
        Some(EntryOverride::CreateSession)
    } else {
        None
    }
}

/// The names the session-level resolver recognizes.
pub open spec fn spec_session_override(name: Seq<char>) -> Option<EntryOverride> {
    if name == "xrEnumerateSwapchainFormats"@ {
        Some(EntryOverride::EnumerateSwapchainFormats)
    } else if name == "xrCreateSwapchain"@ {
        Some(EntryOverride::CreateSwapchain)
    } else {
        None
    }
}

/// The names the swapchain-level resolver recognizes.
pub open spec fn spec_swapchain_override(name: Seq<char>) -> Option<EntryOverride> {
    if name == "xrEnumerateSwapchainImages"@ {
        Some(EntryOverride::EnumerateSwapchainImages)
    } else if name == "xrAcquireSwapchainImage"@ {
        Some(EntryOverride::AcquireSwapchainImage)
    } else if name == "xrReleaseSwapchainImage"@ {
        Some(EntryOverride::ReleaseSwapchainImage)
    } else {
        None
    }
}

/// The whole chain, in its fixed evaluation order: instance resolver first,
/// then session, then swapchain; `None` means "forward to the runtime".
pub open spec fn spec_resolve(name: Seq<char>) -> Option<EntryOverride> {
    if spec_instance_override(name) is Some {
        spec_instance_override(name)
    } else if spec_session_override(name) is Some {
        spec_session_override(name)
    } else {
        spec_swapchain_override(name)
    }
}

/// The instance-level resolver.
pub fn instance_interceptors(name: &str) -> (r: Option<EntryOverride>)
    ensures
        r == spec_instance_override(name@),
{
    if str_eq(name, "xrGetSystem") {
        Some(EntryOverride::GetSystem)
    } else if str_eq(name, "xrGetOpenGLGraphicsRequirementsKHR") {
        Some(EntryOverride::GetOpenGlGraphicsRequirements)
    } else if str_eq(name, "xrCreateSession") {
        Some(EntryOverride::CreateSession)
    } else {
        None
    }
}

/// The session-level resolver.
pub fn session_interceptors(name: &str) -> (r: Option<EntryOverride>)
    ensures
        r == spec_session_override(name@),
{
    if str_eq(name, "xrEnumerateSwapchainFormats") {
        Some(EntryOverride::EnumerateSwapchainFormats)
    } else if str_eq(name, "xrCreateSwapchain") {
        Some(EntryOverride::CreateSwapchain)
    } else {
        None
    }
}

/// The swapchain-level resolver.
pub fn swapchain_interceptors(name: &str) -> (r: Option<EntryOverride>)
    ensures
        r == spec_swapchain_override(name@),
{
    if str_eq(name, "xrEnumerateSwapchainImages") {
        Some(EntryOverride::EnumerateSwapchainImages)
    } else if str_eq(name, "xrAcquireSwapchainImage") {
        Some(EntryOverride::AcquireSwapchainImage)
    } else if str_eq(name, "xrReleaseSwapchainImage") {
        Some(EntryOverride::ReleaseSwapchainImage)
    } else {
        None
    }
}

/// Resolves an entry-point name across the ordered chain. `None` tells the
/// caller to forward the request, result included, to the inner runtime, so
/// interception stays invisible for every call the layer does not handle.
pub fn resolve(name: &str) -> (r: Option<EntryOverride>)
    ensures
        r == spec_resolve(name@),
{
    match instance_interceptors(name) {
        Some(e) => Some(e),
        None => match session_interceptors(name) {
            Some(e) => Some(e),
            None => swapchain_interceptors(name),
        },
    }
}

/// The three resolvers recognize pairwise disjoint name sets, so the
/// chain's answer does not depend on probing order.
pub proof fn lemma_interceptors_disjoint(name: Seq<char>)
    ensures
        spec_instance_override(name) is Some ==> spec_session_override(name) is None
            && spec_swapchain_override(name) is None,
        spec_session_override(name) is Some ==> spec_instance_override(name) is None
            && spec_swapchain_override(name) is None,
{
    reveal_strlit("xrGetSystem");
    reveal_strlit("xrGetOpenGLGraphicsRequirementsKHR");
    reveal_strlit("xrCreateSession");
    reveal_strlit("xrEnumerateSwapchainFormats");
    reveal_strlit("xrCreateSwapchain");
    reveal_strlit("xrEnumerateSwapchainImages");
    reveal_strlit("xrAcquireSwapchainImage");
    reveal_strlit("xrReleaseSwapchainImage");
    assert("xrGetSystem"@.len() == 11);
    assert("xrGetOpenGLGraphicsRequirementsKHR"@.len() == 34);
    assert("xrCreateSession"@.len() == 15);
    assert("xrEnumerateSwapchainFormats"@.len() == 27);
    assert("xrCreateSwapchain"@.len() == 17);
    assert("xrEnumerateSwapchainImages"@.len() == 26);
    assert("xrAcquireSwapchainImage"@.len() == 23);
    assert("xrReleaseSwapchainImage"@.len() == 23);
}

/// The two-call enumeration protocol every `xrEnumerate*` entry point
/// follows: a zero capacity only asks for the element count; a nonzero
/// capacity must cover the whole list, which is then copied out.
pub fn enumerate_into<T: Copy>(data: &Vec<T>, capacity: u32, out: &mut Vec<T>) -> (r: Result<
    u32,
    LayerError,
>)
    requires
        data@.len() <= u32::MAX,
    ensures
        capacity != 0 && (capacity as nat) < data@.len() ==> r == Err::<u32, LayerError>(
            LayerError::SizeInsufficient,
        ) && final(out)@ == old(out)@,
        capacity == 0 ==> r == Ok::<u32, LayerError>(data@.len() as u32) && final(out)@ == old(
            out,
        )@,
        capacity != 0 && (capacity as nat) >= data@.len() ==> r == Ok::<u32, LayerError>(
            data@.len() as u32,
        ) && final(out)@ == data@,
{
    if capacity != 0 {
        if (capacity as usize) < data.len() {
            return Err(LayerError::SizeInsufficient);
        }
        out.clear();
        let mut i: usize = 0;
        while i < data.len()
            invariant
                i <= data@.len(),
                out@ == data@.subrange(0, i as int),
            decreases data@.len() - i,
        {
            out.push(data[i]);
            proof {
                assert(out@ =~= data@.subrange(0, i + 1));
            }
            i += 1;
        }
        proof {
            assert(out@ =~= data@);
        }
    }
    Ok(data.len() as u32)
}

} // verus!
