//! The decisions of the Vulkan backend that are pure computation: picking
//! a memory type for an exportable allocation, picking the graphics queue
//! family, and the extension names the backend needs. The Vulkan calls
//! themselves are made by the code around the library, which feeds their
//! results back in as plain values.
use vstd::prelude::*;

use std::string::{String, ToString};
use std::vec::Vec;

verus! {

/// The graphics capability bit of a Vulkan queue family.
pub const VK_QUEUE_GRAPHICS_BIT: u32 = 0x1;

/// Whether memory type `i` suits an allocation: the resource's type mask
/// admits it and it carries every required property flag.
pub open spec fn spec_memory_type_ok(flags: u32, i: int, type_bits: u32, required: u32) -> bool {
    &&& (type_bits >> (i as u32)) & 1 == 1
    &&& flags & required == required
}

/// Picks the first suitable memory type for an allocation, as Vulkan
/// recommends: `property_flags` holds the property flags of the device's
/// memory types in index order (Vulkan defines at most 32 of them),
/// `type_bits` is the resource's admissible-type mask, `required` the
/// properties the allocation needs.
pub fn find_memory_type_index(property_flags: &Vec<u32>, type_bits: u32, required: u32) -> (r:
    Option<u32>)
    requires
        property_flags@.len() <= 32,
    ensures
        r matches Some(k) ==> 0 <= k < property_flags@.len() && spec_memory_type_ok(
            property_flags@[k as int],
            k as int,
            type_bits,
            required,
        ) && (forall|j: int|
            0 <= j < k ==> !spec_memory_type_ok(property_flags@[j], j, type_bits, required)),
        r is None ==> forall|j: int|
            0 <= j < property_flags@.len() ==> !spec_memory_type_ok(
                property_flags@[j],
                j,
                type_bits,
                required,
            ),
{
    let mut i: usize = 0;
    while i < property_flags.len()
        invariant
            i <= property_flags@.len(),
            property_flags@.len() <= 32,
            forall|j: int|
                0 <= j < i ==> !spec_memory_type_ok(property_flags@[j], j, type_bits, required),
        decreases property_flags@.len() - i,
    {
        let admitted = (type_bits >> (i as u32)) & 1 == 1;
        let has_props = (property_flags[i] & required) == required;
        if admitted && has_props {
            return Some(i as u32);
        }
        i += 1;
    }
    None
}

/// Picks the first queue family with graphics capability; `queue_flags`
/// holds each family's capability flags in index order.
pub fn find_graphics_queue_family(queue_flags: &Vec<u32>) -> (r: Option<u32>)
    requires
        queue_flags@.len() <= u32::MAX,
    ensures
        r matches Some(k) ==> 0 <= k < queue_flags@.len() && queue_flags@[k as int]
            & VK_QUEUE_GRAPHICS_BIT != 0 && (forall|j: int|
            0 <= j < k ==> queue_flags@[j] & VK_QUEUE_GRAPHICS_BIT == 0),
        r is None ==> forall|j: int|
            0 <= j < queue_flags@.len() ==> queue_flags@[j] & VK_QUEUE_GRAPHICS_BIT == 0,
{
    let mut i: usize = 0;
    while i < queue_flags.len()
        invariant
            i <= queue_flags@.len(),
            queue_flags@.len() <= u32::MAX,
            forall|j: int| 0 <= j < i ==> queue_flags@[j] & VK_QUEUE_GRAPHICS_BIT == 0,
        decreases queue_flags@.len() - i,
    {
        if (queue_flags[i] & VK_QUEUE_GRAPHICS_BIT) != 0 {
            return Some(i as u32);
        }
        i += 1;
    }
    None
}

/// The Vulkan instance extensions external-memory sharing needs.
pub fn needed_instance_extensions() -> (r: Vec<String>)
    ensures
        r.deep_view() =~= seq![
            "VK_KHR_external_memory_capabilities"@,
            "VK_KHR_external_semaphore_capabilities"@,
        ],
{
    let mut v: Vec<String> = Vec::new();
    v.push("VK_KHR_external_memory_capabilities".to_string());
    v.push("VK_KHR_external_semaphore_capabilities".to_string());
    v
}

/// The Vulkan device extensions external-memory export needs, with the
/// POSIX file-descriptor transport.
pub fn needed_device_extensions() -> (r: Vec<String>)
    ensures
        r.deep_view() =~= seq!["VK_KHR_external_memory"@, "VK_KHR_external_memory_fd"@],
{
    let mut v: Vec<String> = Vec::new();
    v.push("VK_KHR_external_memory".to_string());
    v.push("VK_KHR_external_memory_fd".to_string());
    v
}

} // verus!
