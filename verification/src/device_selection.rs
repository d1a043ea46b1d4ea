//! Choosing the physical device the renderer runs on.
//!
//! Every physical device is summarized into plain values — whether it is a
//! discrete GPU, which extensions it offers, and what its queue families
//! support.  The functions here mirror the renderer's selection walk over
//! that summary: find the queue families to use, check suitability, score
//! the devices, and pick the best one.

use vstd::prelude::*;
use crate::device::DeviceCreationError;
use crate::queue::QueueFamilies;
use crate::queue::QueueFamily;
use crate::queue::QueueFamilyInfo;

verus! {

/// One physical device, summarized into the values the selection reads.
#[derive(Debug, Clone)]
pub struct PhysicalDeviceInfo {
    /// Whether the device reports itself as a discrete GPU.
    pub discrete_gpu: bool,
    /// Names of the device extensions the device offers.
    pub extensions: Vec<String>,
    /// What each of the device's queue families supports, by family index.
    pub queue_families: Vec<QueueFamilyInfo>,
}

/// The outcome of checking one device for suitability.
#[derive(Debug, Clone, Copy, PartialEq, Eq, Structural)]
pub enum DeviceSuitability {
    Suitable,
    MissingRequiredExtensions,
    MissingGraphicsQueue,
    MissingPresentQueue,
}

impl DeviceSuitability {
    pub fn is_suitable(&self) -> (r: bool)
        ensures
            r == (*self is Suitable),
    {
        match self {
            DeviceSuitability::Suitable => true,
            _ => false,
        }
    }
}

/// The queue families the selection walk found so far: a family for
/// graphics work and a family that can present, either of which may be
/// missing.
#[derive(Debug, Clone, Copy, PartialEq, Eq, Structural)]
pub struct QueueFamiliesQuery {
    pub graphics: Option<QueueFamily>,
    pub present: Option<QueueFamily>,
}

impl QueueFamiliesQuery {
    /// Whether both roles found a family.
    pub fn is_complete(&self) -> (r: bool)
        ensures
            r == (self.graphics is Some && self.present is Some),
    {
        self.graphics.is_some() && self.present.is_some()
    }
}

/// The index of the graphics family the selection walk settles on: the
/// last family that supports graphics, since each one found overwrites the
/// previous choice.
pub open spec fn graphics_choice(s: Seq<QueueFamilyInfo>) -> Option<int>
    decreases s.len(),
{
    if s.len() == 0 {
        None
    } else if s.last().supports_graphics {
        Some(s.len() - 1)
    } else {
        graphics_choice(s.drop_last())
    }
}

/// The index of the present family the selection walk settles on.  The
/// first family that can present is taken, but a later family that can
/// both present and run graphics replaces it: drawing and presenting on
/// the same queue performs better.
pub open spec fn present_choice(s: Seq<QueueFamilyInfo>) -> Option<int>
    decreases s.len(),
{
    if s.len() == 0 {
        None
    } else if s.last().supports_present && s.last().supports_graphics {
        Some(s.len() - 1)
    } else if present_choice(s.drop_last()) is Some {
        present_choice(s.drop_last())
    } else if s.last().supports_present {
        Some(s.len() - 1)
    } else {
        None
    }
}

/// A graphics family is found exactly when some family supports graphics,
/// and the one found supports it.
pub proof fn lemma_graphics_choice(s: Seq<QueueFamilyInfo>)
    ensures
        graphics_choice(s) is Some <==> exists|i: int| 0 <= i < s.len() && s[i].supports_graphics,
        graphics_choice(s) matches Some(g) ==> 0 <= g < s.len() && s[g].supports_graphics,
    decreases s.len(),
{
    if s.len() > 0 {
        lemma_graphics_choice(s.drop_last());
        if !s.last().supports_graphics {
            assert forall|i: int| 0 <= i < s.len() && s[i].supports_graphics implies exists|j: int|
                0 <= j < s.drop_last().len() && s.drop_last()[j].supports_graphics by {
                assert(s.drop_last()[i] == s[i]);
            }
        }
    }
}

/// A present family is found exactly when some family supports present,
/// and the one found supports it.
pub proof fn lemma_present_choice(s: Seq<QueueFamilyInfo>)
    ensures
        present_choice(s) is Some <==> exists|i: int| 0 <= i < s.len() && s[i].supports_present,
        present_choice(s) matches Some(p) ==> 0 <= p < s.len() && s[p].supports_present,
    decreases s.len(),
{
    if s.len() > 0 {
        lemma_present_choice(s.drop_last());
        if !(s.last().supports_present && s.last().supports_graphics) && present_choice(
            s.drop_last(),
        ) is None && !s.last().supports_present {
            assert forall|i: int| 0 <= i < s.len() && s[i].supports_present implies exists|j: int|
                0 <= j < s.drop_last().len() && s.drop_last()[j].supports_present by {
                assert(s.drop_last()[i] == s[i]);
            }
        }
    }
}

/// Walk a device's queue families and record which family serves each
/// role, as [`graphics_choice`] and [`present_choice`] describe.
pub fn find_queue_families(families: &Vec<QueueFamilyInfo>) -> (r: QueueFamiliesQuery)
    requires
        families@.len() <= u32::MAX,
    ensures
        match graphics_choice(families@) {
            Some(g) => r.graphics == Some(QueueFamily { index: g as u32, props: families@[g] }),
            None => r.graphics is None,
        },
        match present_choice(families@) {
            Some(p) => r.present == Some(QueueFamily { index: p as u32, props: families@[p] }),
            None => r.present is None,
        },
{
    let mut graphics: Option<QueueFamily> = None;
    let mut present: Option<QueueFamily> = None;
    let n = families.len();

    for i in 0..n
        invariant
            n == families@.len(),
            n <= u32::MAX,
            match graphics_choice(families@.take(i as int)) {
                Some(g) => graphics == Some(
                    QueueFamily { index: g as u32, props: families@[g] },
                ),
                None => graphics is None,
            },
            match present_choice(families@.take(i as int)) {
                Some(p) => present == Some(QueueFamily { index: p as u32, props: families@[p] }),
                None => present is None,
            },
    {
        proof {
            lemma_graphics_choice(families@.take(i as int));
            lemma_present_choice(families@.take(i as int));
        }
        let fam = families[i];
        if fam.supports_graphics {
            graphics = Some(QueueFamily { index: i as u32, props: fam });
        }
        let same_as_gfx = match &graphics {
            Some(f) => f.index as usize == i,
            None => false,
        };
        if fam.supports_present && (same_as_gfx || present.is_none()) {
            present = Some(QueueFamily { index: i as u32, props: fam });
        }
        proof {
            assert(families@.take(i + 1).drop_last() =~= families@.take(i as int));
            assert(families@.take(i + 1).last() == families@[i as int]);
        }
    }
    proof {
        assert(families@.take(n as int) =~= families@);
    }
    QueueFamiliesQuery { graphics, present }
}

impl QueueFamilies {
    /// Complete a query into the two chosen families, or say which role
    /// went unfilled.
    pub fn try_from(v: QueueFamiliesQuery) -> (r: Result<QueueFamilies, DeviceCreationError>)
        ensures
            v.graphics is None ==> r == Err::<QueueFamilies, DeviceCreationError>(
                DeviceCreationError::UnsuitableDevice(DeviceSuitability::MissingGraphicsQueue),
            ),
            v.graphics is Some && v.present is None ==> r == Err::<
                QueueFamilies,
                DeviceCreationError,
            >(DeviceCreationError::UnsuitableDevice(DeviceSuitability::MissingPresentQueue)),
            v.graphics is Some && v.present is Some ==> r == Ok::<
                QueueFamilies,
                DeviceCreationError,
            >(QueueFamilies { graphics: v.graphics.unwrap(), present: v.present.unwrap() }),
    {
        match (v.graphics, v.present) {
            (None, _) => Err(
                DeviceCreationError::UnsuitableDevice(DeviceSuitability::MissingGraphicsQueue),
            ),
            (_, None) => Err(
                DeviceCreationError::UnsuitableDevice(DeviceSuitability::MissingPresentQueue),
            ),
            (Some(graphics), Some(present)) => Ok(QueueFamilies { graphics, present }),
        }
    }
}

/// Whether some string in `avail` reads `s`.
pub open spec fn str_seq_contains(avail: Seq<String>, s: Seq<char>) -> bool {
    exists|j: int| 0 <= j < avail.len() && avail[j]@ == s
}

/// Whether every string of `req` occurs in `avail`.
pub open spec fn supports_all_extensions(avail: Seq<String>, req: Seq<String>) -> bool {
    forall|i: int| 0 <= i < req.len() ==> str_seq_contains(avail, #[trigger] req[i]@)
}

/// Whether `haystack` holds a string reading `needle`.
pub fn contains_str(haystack: &Vec<String>, needle: &String) -> (r: bool)
    ensures
        r == str_seq_contains(haystack@, needle@),
{
    let n = haystack.len();
    for j in 0..n
        invariant
            n == haystack@.len(),
            forall|k: int| 0 <= k < j ==> haystack@[k]@ != needle@,
    {
        if haystack[j] == *needle {
            return true;
        }
    }
    false
}

/// The device extensions the renderer cannot run without: the swapchain
/// extension.
pub fn required_device_extensions() -> (r: Vec<String>)
    ensures
        r@.len() == 1,
        r@[0]@ == "VK_KHR_swapchain"@,
{
    let mut v: Vec<String> = Vec::new();
    v.push("VK_KHR_swapchain".to_owned());
    v
}

/// Whether a device offers every required extension.
pub fn device_supports_extensions(available: &Vec<String>, required_extensions: &Vec<String>) -> (r:
    bool)
    ensures
        r == supports_all_extensions(available@, required_extensions@),
{
    let n = required_extensions.len();
    for i in 0..n
        invariant
            n == required_extensions@.len(),
            forall|k: int|
                0 <= k < i ==> str_seq_contains(available@, #[trigger] required_extensions@[k]@),
    {
        if !contains_str(available, &required_extensions[i]) {
            return false;
        }
    }
    true
}

/// Whether a device offers the swapchain extension.
pub open spec fn has_required_extensions(d: PhysicalDeviceInfo) -> bool {
    str_seq_contains(d.extensions@, "VK_KHR_swapchain"@)
}

/// What checking a device reports: missing extensions are noticed first,
/// then a missing graphics family, then a missing present family.
pub open spec fn suitability_spec(d: PhysicalDeviceInfo) -> DeviceSuitability {
    if !has_required_extensions(d) {
        DeviceSuitability::MissingRequiredExtensions
    } else if graphics_choice(d.queue_families@) is None {
        DeviceSuitability::MissingGraphicsQueue
    } else if present_choice(d.queue_families@) is None {
        DeviceSuitability::MissingPresentQueue
    } else {
        DeviceSuitability::Suitable
    }
}

/// Check one device for suitability.
pub fn check_device_suitability(device: &PhysicalDeviceInfo) -> (r: DeviceSuitability)
    requires
        device.queue_families@.len() <= u32::MAX,
    ensures
        r == suitability_spec(*device),
{
    let required = required_device_extensions();
    if !device_supports_extensions(&device.extensions, &required) {
        return DeviceSuitability::MissingRequiredExtensions;
    }
    proof {
        assert(str_seq_contains(device.extensions@, required@[0]@));
    }

    let fams = find_queue_families(&device.queue_families);

    if fams.graphics.is_none() {
        return DeviceSuitability::MissingGraphicsQueue;
    }
    if fams.present.is_none() {
        return DeviceSuitability::MissingPresentQueue;
    }
    DeviceSuitability::Suitable
}

/// The score a device is ranked by: a discrete GPU is worth 100, a
/// suitable device 1000 more, so any suitable device outranks every
/// unsuitable one.
pub open spec fn score_spec(d: PhysicalDeviceInfo) -> int {
    (if d.discrete_gpu {
        100int
    } else {
        0int
    }) + (if suitability_spec(d) == DeviceSuitability::Suitable {
        1000int
    } else {
        0int
    })
}

/// Score one device.
pub fn score_device(device: &PhysicalDeviceInfo) -> (r: u32)
    requires
        device.queue_families@.len() <= u32::MAX,
    ensures
        r == score_spec(*device),
{
    let mut score: u32 = 0;

    if device.discrete_gpu {
        score += 100;
    }
    if check_device_suitability(device).is_suitable() {
        score += 1000;
    }
    score
}

/// Whether some listed device is suitable.
pub open spec fn any_suitable_device(devices: Seq<PhysicalDeviceInfo>) -> bool {
    exists|i: int|
        0 <= i < devices.len() && suitability_spec(#[trigger] devices[i])
            == DeviceSuitability::Suitable
}

/// Whether `idx` names the first device with the highest score.
pub open spec fn best_device_index(devices: Seq<PhysicalDeviceInfo>, idx: int) -> bool {
    &&& 0 <= idx < devices.len()
    &&& forall|j: int|
        0 <= j < devices.len() ==> score_spec(#[trigger] devices[j]) <= score_spec(devices[idx])
    &&& forall|j: int| 0 <= j < idx ==> score_spec(#[trigger] devices[j]) < score_spec(devices[idx])
}

/// Whether `fams` holds exactly the two queue families the selection walk
/// settles on for device `d`.
pub open spec fn chosen_families(d: PhysicalDeviceInfo, fams: QueueFamilies) -> bool {
    &&& graphics_choice(d.queue_families@) matches Some(g) && fams.graphics == (QueueFamily {
        index: g as u32,
        props: d.queue_families@[g],
    })
    &&& present_choice(d.queue_families@) matches Some(p) && fams.present == (QueueFamily {
        index: p as u32,
        props: d.queue_families@[p],
    })
}

/// Pick the physical device to run on, and the queue families to drive it
/// through.
///
/// Fails when no device is present, or none is suitable — then the first
/// device's report is returned, as a sample of what was missing.  Else the
/// first device with the highest score is chosen; it is always a suitable
/// one, since suitability dominates the score.
pub fn device_selection(devices: &Vec<PhysicalDeviceInfo>) -> (r: Result<(usize, QueueFamilies), DeviceCreationError>)
    requires
        forall|i: int|
            0 <= i < devices@.len() ==> (#[trigger] devices@[i]).queue_families@.len() <= u32::MAX,
    ensures
        devices@.len() == 0 ==> r == Err::<(usize, QueueFamilies), DeviceCreationError>(
            DeviceCreationError::MissingPhysicalDevice,
        ),
        devices@.len() > 0 && !any_suitable_device(devices@) ==> r == Err::<
            (usize, QueueFamilies),
            DeviceCreationError,
        >(DeviceCreationError::UnsuitableDevice(suitability_spec(devices@[0]))),
        any_suitable_device(devices@) ==> (r matches Ok((idx, fams)) && best_device_index(
            devices@,
            idx as int,
        ) && suitability_spec(devices@[idx as int]) == DeviceSuitability::Suitable
            && chosen_families(devices@[idx as int], fams)),
{
    if devices.len() == 0 {
        return Err(DeviceCreationError::MissingPhysicalDevice);
    }

    let n = devices.len();
    let mut any_suitable = false;
    for i in 0..n
        invariant
            n == devices@.len(),
            forall|k: int|
                0 <= k < devices@.len() ==> (#[trigger] devices@[k]).queue_families@.len()
                    <= u32::MAX,
            any_suitable == exists|k: int|
                0 <= k < i && suitability_spec(#[trigger] devices@[k])
                    == DeviceSuitability::Suitable,
    {
        if check_device_suitability(&devices[i]).is_suitable() {
            any_suitable = true;
        }
    }

    if !any_suitable {
        return Err(DeviceCreationError::UnsuitableDevice(check_device_suitability(&devices[0])));
    }

    let mut best: usize = 0;
    let mut best_score = score_device(&devices[0]);
    for i in 1..n
        invariant
            n == devices@.len(),
            forall|k: int|
                0 <= k < devices@.len() ==> (#[trigger] devices@[k]).queue_families@.len()
                    <= u32::MAX,
            0 <= best < i,
            best_score == score_spec(devices@[best as int]),
            forall|j: int| 0 <= j < i ==> score_spec(#[trigger] devices@[j]) <= best_score,
            forall|j: int| 0 <= j < best ==> score_spec(#[trigger] devices@[j]) < best_score,
    {
        let s = score_device(&devices[i]);
        if s > best_score {
            best = i;
            best_score = s;
        }
    }

    proof {
        let w = choose|k: int|
            0 <= k < devices@.len() && suitability_spec(#[trigger] devices@[k])
                == DeviceSuitability::Suitable;
        assert(score_spec(devices@[w]) >= 1000);
        assert(score_spec(devices@[best as int]) >= 1000);
        assert(suitability_spec(devices@[best as int]) == DeviceSuitability::Suitable);
    }

    let query = find_queue_families(&devices[best].queue_families);
    let graphics = match query.graphics {
        Some(g) => g,
        None => vstd::pervasive::unreached(),
    };
    let present = match query.present {
        Some(p) => p,
        None => vstd::pervasive::unreached(),
    };

    Ok((best, QueueFamilies { graphics, present }))
}

/// One queue creation request: the family the queue is taken from.
#[derive(Debug, Clone, Copy, PartialEq, Eq, Structural)]
pub struct DeviceQueueCreateInfo {
    pub queue_family_index: u32,
}

/// The queue creation requests for the chosen families: one request when
/// graphics and present share a family, else one for each.
pub fn create_infos_for_families(queue_families: &QueueFamilies) -> (r: Vec<DeviceQueueCreateInfo>)
    ensures
        queue_families.graphics.index == queue_families.present.index ==> r@ == seq![
            DeviceQueueCreateInfo { queue_family_index: queue_families.graphics.index },
        ],
        queue_families.graphics.index != queue_families.present.index ==> r@ == seq![
            DeviceQueueCreateInfo { queue_family_index: queue_families.graphics.index },
            DeviceQueueCreateInfo { queue_family_index: queue_families.present.index },
        ],
{
    let mut infos: Vec<DeviceQueueCreateInfo> = Vec::new();
    infos.push(DeviceQueueCreateInfo { queue_family_index: queue_families.graphics.index });
    if queue_families.graphics.index != queue_families.present.index {
        infos.push(DeviceQueueCreateInfo { queue_family_index: queue_families.present.index });
        proof {
            assert(infos@ =~= seq![
                DeviceQueueCreateInfo { queue_family_index: queue_families.graphics.index },
                DeviceQueueCreateInfo { queue_family_index: queue_families.present.index },
            ]);
        }
    } else {
        proof {
            assert(infos@ =~= seq![
                DeviceQueueCreateInfo { queue_family_index: queue_families.graphics.index },
            ]);
        }
    }
    infos
}

} // verus!
