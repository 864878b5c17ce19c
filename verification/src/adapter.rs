use vstd::prelude::*;

use crate::error::{Error, ErrorKind};
use crate::resources::Instance;
use crate::types::{AdapterOptions, Extensions, PowerPreference};
use crate::vk;

verus! {

/// The major, minor and patch numbers of a packed Vulkan API version:
/// bits 22 to 28, 12 to 21 and 0 to 11.
pub open spec fn spec_version(v: u32) -> (u32, u32, u32) {
    ((v >> 22u32) & 0x7fu32, (v >> 12u32) & 0x3ffu32, v & 0xfffu32)
}

pub fn version(v: u32) -> (r: (u32, u32, u32))
    ensures
        r == spec_version(v),
{
    ((v >> 22u32) & 0x7fu32, (v >> 12u32) & 0x3ffu32, v & 0xfffu32)
}

/// The PCI vendor id of NVIDIA.
pub const VENDOR_ID_NVIDIA: u32 = 4318;

/// The PCI vendor id of Intel.
pub const VENDOR_ID_INTEL: u32 = 32902;

/// The numbers of a driver version, in the vendor's own packing: NVIDIA packs
/// four (10, 8, 8 and 6 bits; the last two read the same bits from 6 on, 8
/// and 6 bits wide), Intel two (bits 14 to 23 and 0 to 9), everyone else the
/// Vulkan API version packing.
pub open spec fn spec_driver_version_parts(vendor_id: u32, v: u32) -> Seq<u32> {
    if vendor_id == VENDOR_ID_NVIDIA {
        seq![(v >> 22u32) & 0x3ffu32, (v >> 14u32) & 0x0ffu32, (v >> 6u32) & 0x0ffu32, (v >> 6u32) & 0x003fu32]
    } else if vendor_id == VENDOR_ID_INTEL {
        seq![(v >> 14u32) & 0x3ffu32, v & 0x3ffu32]
    } else {
        seq![spec_version(v).0, spec_version(v).1, spec_version(v).2]
    }
}

/// Unpacking a Vulkan API version gives back the major, minor and patch
/// numbers it was packed from.
pub proof fn lemma_version_unpacks_packed(major: u32, minor: u32, patch: u32)
    requires
        major < 128,
        minor < 1024,
        patch < 4096,
    ensures
        spec_version((major << 22u32) | (minor << 12u32) | patch) == (major, minor, patch),
{
    let v = (major << 22u32) | (minor << 12u32) | patch;
    assert((v >> 22u32) & 0x7fu32 == major && (v >> 12u32) & 0x3ffu32 == minor && v & 0xfffu32 == patch) by (bit_vector)
        requires
            major < 128,
            minor < 1024,
            patch < 4096,
            v == (major << 22u32) | (minor << 12u32) | patch,
    ;
}

/// Unpacking an NVIDIA driver version gives back the major, minor and patch
/// numbers packed into it; its last number reads the low six bits of the
/// patch again.
pub proof fn lemma_nvidia_driver_version_unpacks_packed(major: u32, minor: u32, patch: u32, build: u32)
    requires
        major < 1024,
        minor < 256,
        patch < 256,
        build < 64,
    ensures
        spec_driver_version_parts(VENDOR_ID_NVIDIA, (major << 22u32) | (minor << 14u32) | (patch << 6u32) | build)
            == seq![major, minor, patch, patch & 0x3fu32],
{
    let v = (major << 22u32) | (minor << 14u32) | (patch << 6u32) | build;
    assert((v >> 22u32) & 0x3ffu32 == major && (v >> 14u32) & 0x0ffu32 == minor && (v >> 6u32) & 0x0ffu32 == patch
        && (v >> 6u32) & 0x003fu32 == patch & 0x3fu32) by (bit_vector)
        requires
            major < 1024,
            minor < 256,
            patch < 256,
            build < 64,
            v == (major << 22u32) | (minor << 14u32) | (patch << 6u32) | build,
    ;
}

/// Unpacking an Intel driver version gives back the major and minor numbers
/// packed into it.
pub proof fn lemma_intel_driver_version_unpacks_packed(major: u32, minor: u32)
    requires
        major < 1024,
        minor < 1024,
    ensures
        spec_driver_version_parts(VENDOR_ID_INTEL, (major << 14u32) | minor) == seq![major, minor],
{
    let v = (major << 14u32) | minor;
    assert((v >> 14u32) & 0x3ffu32 == major && v & 0x3ffu32 == minor) by (bit_vector)
        requires
            major < 1024,
            minor < 1024,
            v == (major << 14u32) | minor,
    ;
}

/// What a physical device reports about itself, as plain values.
#[derive(Debug)]
pub struct AdapterProperties {
    pub device_name: String,
    pub api_version: (u32, u32, u32),
    pub driver_version: u32,
    pub vender_id: u32,
    pub device_id: u32,
    /// The Vulkan physical device type.
    pub device_type: i32,
}

impl AdapterProperties {
    /// Properties from the raw values a physical device reports; the API
    /// version is unpacked.
    pub fn from_raw(
        device_name: String,
        api_version: u32,
        driver_version: u32,
        vender_id: u32,
        device_id: u32,
        device_type: i32,
    ) -> (r: Self)
        ensures
            r.device_name@ == device_name@,
            r.api_version == spec_version(api_version),
            r.driver_version == driver_version,
            r.vender_id == vender_id,
            r.device_id == device_id,
            r.device_type == device_type,
    {
        AdapterProperties {
            device_name,
            api_version: version(api_version),
            driver_version,
            vender_id,
            device_id,
            device_type,
        }
    }

    /// The numbers of the driver version, to be joined with dots.
    pub fn driver_version_parts(&self) -> (r: Vec<u32>)
        ensures
            r@ == spec_driver_version_parts(self.vender_id, self.driver_version),
    {
        let v = self.driver_version;
        if self.vender_id == VENDOR_ID_NVIDIA {
            let mut r: Vec<u32> = Vec::new();
            r.push((v >> 22u32) & 0x3ffu32);
            r.push((v >> 14u32) & 0x0ffu32);
            r.push((v >> 6u32) & 0x0ffu32);
            r.push((v >> 6u32) & 0x003fu32);
            assert(r@ =~= spec_driver_version_parts(self.vender_id, v));
            r
        } else if self.vender_id == VENDOR_ID_INTEL {
            let mut r: Vec<u32> = Vec::new();
            r.push((v >> 14u32) & 0x3ffu32);
            r.push(v & 0x3ffu32);
            assert(r@ =~= spec_driver_version_parts(self.vender_id, v));
            r
        } else {
            let (major, minor, patch) = version(v);
            let mut r: Vec<u32> = Vec::new();
            r.push(major);
            r.push(minor);
            r.push(patch);
            assert(r@ =~= spec_driver_version_parts(self.vender_id, v));
            r
        }
    }
}

/// The extensions an adapter offers, from its features: anisotropic
/// filtering when sampler anisotropy is supported.
pub fn adapter_extensions(sampler_anisotropy: u32) -> (r: Extensions)
    ensures
        r.anisotropic_filtering == (sampler_anisotropy == vk::TRUE),
{
    Extensions { anisotropic_filtering: sampler_anisotropy == vk::TRUE }
}

/// The device type an adapter preference asks for.
pub open spec fn preferred_device_type(preference: PowerPreference) -> i32 {
    match preference {
        PowerPreference::HighPerformance => vk::PHYSICAL_DEVICE_TYPE_DISCRETE_GPU,
        PowerPreference::LowPower => vk::PHYSICAL_DEVICE_TYPE_INTEGRATED_GPU,
    }
}

/// Each `PowerPreference` becomes the Vulkan value named for it.
pub proof fn lemma_preferred_device_type_names()
    ensures
        preferred_device_type(PowerPreference::HighPerformance) == vk::PHYSICAL_DEVICE_TYPE_DISCRETE_GPU,
        preferred_device_type(PowerPreference::LowPower) == vk::PHYSICAL_DEVICE_TYPE_INTEGRATED_GPU,
{
}

/// Distinct `PowerPreference` values never become the same Vulkan value.
pub proof fn lemma_preferred_device_type_injective(a: PowerPreference, b: PowerPreference)
    ensures
        preferred_device_type(a) == preferred_device_type(b) ==> a == b,
{
}

impl Instance {
    /// Picks an adapter by the types of the physical devices found, in the
    /// order they were enumerated: the first of the preferred type, else the
    /// first one. Returns its position; fails with a message when there is none.
    pub fn request_adaptor(&self, device_types: &[i32], options: AdapterOptions) -> (r: Result<usize, Error>)
        ensures
            device_types@.len() == 0 <==> r is Err,
            r matches Err(e) ==> (e.kind matches ErrorKind::Message(m) && m@ == "No adapters were found"@),
            r matches Ok(i) ==> {
                &&& i < device_types@.len()
                &&& forall|j: int| 0 <= j < i ==> device_types@[j] != preferred_device_type(options.power_preference)
                &&& (device_types@[i as int] == preferred_device_type(options.power_preference) || (i == 0
                    && forall|j: int|
                    0 <= j < device_types@.len() ==> device_types@[j] != preferred_device_type(
                        options.power_preference,
                    )))
            },
    {
        if device_types.len() == 0 {
            return Err(Error::from_message("No adapters were found"));
        }
        let wanted = match options.power_preference {
            PowerPreference::HighPerformance => vk::PHYSICAL_DEVICE_TYPE_DISCRETE_GPU,
            PowerPreference::LowPower => vk::PHYSICAL_DEVICE_TYPE_INTEGRATED_GPU,
        };
        let mut i: usize = 0;
        while i < device_types.len()
            invariant
                i <= device_types@.len(),
                wanted == preferred_device_type(options.power_preference),
                forall|j: int| 0 <= j < i ==> device_types@[j] != wanted,
            decreases device_types@.len() - i,
        {
            if device_types[i] == wanted {
                return Ok(i);
            }
            i = i + 1;
        }
        Ok(0)
    }
}

/// The entries are ordered by format.
pub open spec fn sorted_by_format<P>(s: Seq<(i32, P)>) -> bool {
    forall|i: int, j: int| 0 <= i <= j < s.len() ==> s[i].0 <= s[j].0
}

/// Sorts the properties of each format by format.
pub fn sort_format_properties<P: Copy>(properties: &Vec<(i32, P)>) -> (r: Vec<(i32, P)>)
    ensures
        sorted_by_format(r@),
        r@.to_multiset() == properties@.to_multiset(),
{
    broadcast use vstd::seq_lib::group_to_multiset_ensures;

    let mut r: Vec<(i32, P)> = Vec::new();
    let mut i: usize = 0;
    while i < properties.len()
        invariant
            i <= properties@.len(),
            sorted_by_format(r@),
            r@.to_multiset() == properties@.take(i as int).to_multiset(),
        decreases properties@.len() - i,
    {
        let x = properties[i];
        let mut p: usize = 0;
        while p < r.len() && r[p].0 <= x.0
            invariant
                p <= r@.len(),
                forall|j: int| 0 <= j < p ==> r@[j].0 <= x.0,
            decreases r@.len() - p,
        {
            p = p + 1;
        }
        let ghost before = r@;
        r.insert(p, x);
        proof {
            vstd::seq_lib::to_multiset_insert(before, p as int, x);
            assert(properties@.take(i + 1) == properties@.take(i as int).push(x));
            vstd::seq_lib::to_multiset_build(properties@.take(i as int), x);
            assert forall|a: int, b: int| 0 <= a <= b < r@.len() implies r@[a].0 <= r@[b].0 by {
                if a < p && b < p {
                    assert(r@[a] == before[a] && r@[b] == before[b]);
                } else if a < p && b == p {
                    assert(r@[a] == before[a]);
                } else if a < p {
                    assert(r@[a] == before[a] && r@[b] == before[b - 1]);
                    assert(before[a].0 <= before[b - 1].0);
                } else if a == p && b > p {
                    assert(r@[b] == before[b - 1]);
                    assert(before[p as int].0 > x.0);
                    assert(before[p as int].0 <= before[b - 1].0);
                } else if a > p {
                    assert(r@[a] == before[a - 1] && r@[b] == before[b - 1]);
                }
            }
        }
        i = i + 1;
    }
    assert(properties@.take(i as int) == properties@);
    r
}

} // verus!
