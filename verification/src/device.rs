//! Choosing a physical device and a queue family.
//!
//! A Vulkan driver reports a list of physical devices, each with a kind and
//! a list of queue families. The demos read only a few booleans of each:
//! whether the device supports the required extensions, whether a family can
//! run graphics commands, and whether the window surface accepts
//! presentation from it. Those plain values are gathered here into
//! descriptions, and the selection is made, and proved, over them.

use vstd::prelude::*;

verus! {

/// The kinds of physical device a driver can report, in the order the
/// triangle demo prefers them: a discrete GPU first, a CPU implementation
/// and unrecognized hardware last.
#[derive(Clone, Copy, PartialEq, Eq, Structural, Debug)]
pub enum DeviceKind {
    DiscreteGpu,
    IntegratedGpu,
    VirtualGpu,
    Cpu,
    Other,
}

/// The preference rank of a device kind: lower is better.
pub open spec fn kind_rank(k: DeviceKind) -> int {
    match k {
        DeviceKind::DiscreteGpu => 0,
        DeviceKind::IntegratedGpu => 1,
        DeviceKind::VirtualGpu => 2,
        DeviceKind::Cpu => 3,
        DeviceKind::Other => 4,
    }
}

/// Executable form of `kind_rank`.
pub fn rank_of_kind(k: DeviceKind) -> (r: u32)
    ensures
        r == kind_rank(k),
{
    match k {
        DeviceKind::DiscreteGpu => 0,
        DeviceKind::IntegratedGpu => 1,
        DeviceKind::VirtualGpu => 2,
        DeviceKind::Cpu => 3,
        DeviceKind::Other => 4,
    }
}

/// What the demos read of one queue family.
#[derive(Clone, Copy, PartialEq, Eq, Structural, Debug)]
pub struct QueueFamilyDesc {
    /// The family accepts graphics (and so also compute) commands.
    pub supports_graphics: bool,
    /// The window surface accepts presentation from this family.
    pub supports_surface: bool,
}

/// What the demos read of one physical device.
#[derive(Clone, Debug)]
pub struct PhysicalDeviceDesc {
    pub kind: DeviceKind,
    /// The device supports every extension the demo requires.
    pub has_required_extensions: bool,
    pub families: Vec<QueueFamilyDesc>,
}

/// A family the triangle demo can render with: it runs graphics commands
/// and presents to the surface.
pub open spec fn family_renders(f: QueueFamilyDesc) -> bool {
    f.supports_graphics && f.supports_surface
}

/// A device the triangle demo can use at all: the required extensions are
/// there and some family renders.
pub open spec fn device_eligible(d: PhysicalDeviceDesc) -> bool {
    &&& d.has_required_extensions
    &&& exists|i: int| 0 <= i < d.families@.len() && family_renders(d.families@[i])
}

/// The queue family the triangle demo picks on one device: the first that
/// renders.
pub fn first_render_family(families: &Vec<QueueFamilyDesc>) -> (r: Option<usize>)
    ensures
        match r {
            Some(i) => {
                &&& i < families@.len()
                &&& family_renders(families@[i as int])
                &&& forall|j: int| 0 <= j < i ==> !family_renders(families@[j])
            },
            None => forall|j: int| 0 <= j < families@.len() ==> !family_renders(families@[j]),
        },
{
    let mut i: usize = 0;
    while i < families.len()
        invariant
            i <= families@.len(),
            forall|j: int| 0 <= j < i ==> !family_renders(families@[j]),
        decreases families@.len() - i,
    {
        if families[i].supports_graphics && families[i].supports_surface {
            return Some(i);
        }
        i = i + 1;
    }
    None
}

/// The queue family the headless compute demo picks: the first that runs
/// graphics commands; whether it can present is irrelevant without a window.
pub fn first_graphics_family(families: &Vec<QueueFamilyDesc>) -> (r: Option<usize>)
    ensures
        match r {
            Some(i) => {
                &&& i < families@.len()
                &&& families@[i as int].supports_graphics
                &&& forall|j: int| 0 <= j < i ==> !families@[j].supports_graphics
            },
            None => forall|j: int| 0 <= j < families@.len() ==> !families@[j].supports_graphics,
        },
{
    let mut i: usize = 0;
    while i < families.len()
        invariant
            i <= families@.len(),
            forall|j: int| 0 <= j < i ==> !families@[j].supports_graphics,
        decreases families@.len() - i,
    {
        if families[i].supports_graphics {
            return Some(i);
        }
        i = i + 1;
    }
    None
}

/// Device `d` is the one the selection settles on among the first `n`
/// devices: eligible, of minimal rank among the eligible, and the first
/// with that rank.
pub open spec fn best_in_prefix(devices: Seq<PhysicalDeviceDesc>, n: int, d: int) -> bool {
    &&& 0 <= d < n
    &&& device_eligible(devices[d])
    &&& forall|j: int|
        0 <= j < n && device_eligible(devices[j])
            ==> kind_rank(devices[d].kind) <= kind_rank(devices[j].kind)
    &&& forall|j: int|
        0 <= j < d && device_eligible(devices[j])
            ==> kind_rank(devices[d].kind) < kind_rank(devices[j].kind)
}

/// Device `d` is the one the selection settles on over the whole list.
pub open spec fn selected_device(devices: Seq<PhysicalDeviceDesc>, d: int) -> bool {
    best_in_prefix(devices, devices.len() as int, d)
}

/// The triangle demo's device selection: among the devices that carry the
/// required extensions and have a rendering queue family, take one of the
/// best kind, the first where kinds tie, together with its first rendering
/// family. `None` exactly when no device is eligible.
pub fn select_physical_device(devices: &Vec<PhysicalDeviceDesc>) -> (r: Option<(usize, usize)>)
    ensures
        match r {
            Some((d, q)) => {
                &&& selected_device(devices@, d as int)
                &&& q < devices@[d as int].families@.len()
                &&& family_renders(devices@[d as int].families@[q as int])
                &&& forall|j: int|
                    0 <= j < q ==> !family_renders(devices@[d as int].families@[j])
            },
            None => forall|j: int| 0 <= j < devices@.len() ==> !device_eligible(devices@[j]),
        },
{
    let mut best: Option<(usize, usize)> = None;
    let mut i: usize = 0;
    while i < devices.len()
        invariant
            i <= devices@.len(),
            match best {
                Some((d, q)) => {
                    &&& best_in_prefix(devices@, i as int, d as int)
                    &&& q < devices@[d as int].families@.len()
                    &&& family_renders(devices@[d as int].families@[q as int])
                    &&& forall|j: int|
                        0 <= j < q ==> !family_renders(devices@[d as int].families@[j])
                },
                None => forall|j: int| 0 <= j < i ==> !device_eligible(devices@[j]),
            },
        decreases devices@.len() - i,
    {
        if devices[i].has_required_extensions {
            match first_render_family(&devices[i].families) {
                Some(q) => {
                    let rank = rank_of_kind(devices[i].kind);
                    match best {
                        None => {
                            best = Some((i, q));
                        },
                        Some((bd, _bq)) => {
                            if rank < rank_of_kind(devices[bd].kind) {
                                best = Some((i, q));
                            }
                        },
                    }
                },
                None => {},
            }
        }
        i = i + 1;
    }
    best
}

} // verus!
