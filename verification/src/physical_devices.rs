use vstd::prelude::*;

verus! {

/// The class a physical device reports itself as. Classes are ranked for
/// selection: a discrete GPU is preferred over an integrated one, then a
/// virtual GPU, then a CPU implementation, then anything else.
#[derive(Clone, Copy, PartialEq, Eq, Structural, Debug)]
pub enum PhysicalDeviceType {
    DiscreteGpu,
    IntegratedGpu,
    VirtualGpu,
    Cpu,
    Other,
}

/// Selection rank of a device class: lower is preferred.
pub open spec fn type_rank(t: PhysicalDeviceType) -> int {
    match t {
        PhysicalDeviceType::DiscreteGpu => 0,
        PhysicalDeviceType::IntegratedGpu => 1,
        PhysicalDeviceType::VirtualGpu => 2,
        PhysicalDeviceType::Cpu => 3,
        PhysicalDeviceType::Other => 4,
    }
}

/// What device selection needs to know about one queue family of a device:
/// whether it supports graphics commands, and whether it can present to the
/// target surface.
#[derive(Clone, Copy, PartialEq, Eq, Structural, Debug)]
pub struct QueueFamilyInfo {
    pub graphics: bool,
    pub present: bool,
}

/// What device selection needs to know about one enumerated physical device,
/// in encounter order: its class, whether it supports every required device
/// extension, and its queue families.
#[derive(Debug)]
pub struct PhysicalDeviceInfo {
    pub device_type: PhysicalDeviceType,
    pub supports_required_extensions: bool,
    pub queue_families: Vec<QueueFamilyInfo>,
}

/// A qualifying device together with the queue family chosen for it:
/// `device_index` is its position in the enumerated list.
#[derive(Clone, Copy, PartialEq, Eq, Structural, Debug)]
pub struct CandidateDevice {
    pub device_index: usize,
    pub device_type: PhysicalDeviceType,
    pub queue_family_index: u32,
}

/// A queue family usable for this engine: graphics plus presentation.
pub open spec fn family_qualifies(f: QueueFamilyInfo) -> bool {
    f.graphics && f.present
}

/// The first queue family of `families` that supports both graphics and
/// presentation, if any.
pub open spec fn first_usable_family(families: Seq<QueueFamilyInfo>) -> Option<int>
    decreases families.len(),
{
    if families.len() == 0 {
        None
    } else if family_qualifies(families[0]) {
        Some(0)
    } else {
        match first_usable_family(families.skip(1)) {
            Some(i) => Some(i + 1),
            None => None,
        }
    }
}

/// A device qualifies when it supports the required extensions and has a
/// usable queue family.
pub open spec fn device_qualifies(d: PhysicalDeviceInfo) -> bool {
    d.supports_required_extensions && first_usable_family(d.queue_families@) is Some
}

/// The candidate record for a qualifying device at position `i`.
pub open spec fn candidate_of(d: PhysicalDeviceInfo, i: int) -> CandidateDevice
    recommends
        device_qualifies(d),
{
    CandidateDevice {
        device_index: i as usize,
        device_type: d.device_type,
        queue_family_index: first_usable_family(d.queue_families@)->Some_0 as u32,
    }
}

/// The candidates among the first `n` devices of `devices`, in encounter
/// order.
pub open spec fn candidates_prefix(devices: Seq<PhysicalDeviceInfo>, n: int) -> Seq<CandidateDevice>
    decreases n,
{
    if n <= 0 {
        Seq::empty()
    } else if device_qualifies(devices[n - 1]) {
        candidates_prefix(devices, n - 1).push(candidate_of(devices[n - 1], n - 1))
    } else {
        candidates_prefix(devices, n - 1)
    }
}

/// All candidates of the enumerated list, in encounter order.
pub open spec fn candidates_of(devices: Seq<PhysicalDeviceInfo>) -> Seq<CandidateDevice> {
    candidates_prefix(devices, devices.len() as int)
}

/// Finds the first queue family of `d` that supports both graphics commands
/// and presentation to the target surface.
fn find_usable_family(d: &PhysicalDeviceInfo) -> (r: Option<usize>)
    ensures
        match r {
            Some(i) => first_usable_family(d.queue_families@) == Some(i as int),
            None => first_usable_family(d.queue_families@) is None,
        },
{
    let n = d.queue_families.len();
    for j in 0..n
        invariant
            n == d.queue_families@.len(),
            forall|k: int| 0 <= k < j ==> !family_qualifies(d.queue_families@[k]),
    {
        let f = d.queue_families[j];
        if f.graphics && f.present {
            proof {
                lemma_first_usable_family_at(d.queue_families@, j as int);
            }
            return Some(j);
        }
    }
    proof {
        lemma_first_usable_family_none(d.queue_families@);
    }
    None
}

/// If no family before `j` qualifies and the family at `j` does, then `j` is
/// the first usable family.
proof fn lemma_first_usable_family_at(families: Seq<QueueFamilyInfo>, j: int)
    requires
        0 <= j < families.len(),
        family_qualifies(families[j]),
        forall|k: int| 0 <= k < j ==> !family_qualifies(families[k]),
    ensures
        first_usable_family(families) == Some(j),
    decreases j,
{
    if j > 0 {
        lemma_first_usable_family_at(families.skip(1), j - 1);
    }
}

/// If no family qualifies, no family is found.
proof fn lemma_first_usable_family_none(families: Seq<QueueFamilyInfo>)
    requires
        forall|k: int| 0 <= k < families.len() ==> !family_qualifies(families[k]),
    ensures
        first_usable_family(families) is None,
    decreases families.len(),
{
    if families.len() > 0 {
        assert(forall|k: int|
            0 <= k < families.skip(1).len() ==> families.skip(1)[k] == families[k + 1]);
        lemma_first_usable_family_none(families.skip(1));
    }
}

/// Filters the enumerated devices down to those that support the required
/// extensions and have a queue family usable for graphics and presentation,
/// pairing each with its first such family, in encounter order.
pub fn get_compatible_physical_devices(devices: &Vec<PhysicalDeviceInfo>) -> (r: Vec<
    CandidateDevice,
>)
    ensures
        r@ == candidates_of(devices@),
{
    let mut r: Vec<CandidateDevice> = Vec::new();
    let n = devices.len();
    for i in 0..n
        invariant
            n == devices@.len(),
            r@ == candidates_prefix(devices@, i as int),
    {
        if devices[i].supports_required_extensions {
            if let Some(j) = find_usable_family(&devices[i]) {
                r.push(
                    CandidateDevice {
                        device_index: i,
                        device_type: devices[i].device_type,
                        queue_family_index: j as u32,
                    },
                );
            }
        }
    }
    r
}

/// The preferred candidate of a non-empty list: the one whose device class
/// has the lowest rank, ties broken in favour of the earliest.
pub open spec fn preferred_in(candidates: Seq<CandidateDevice>) -> CandidateDevice
    recommends
        candidates.len() > 0,
    decreases candidates.len(),
{
    if candidates.len() <= 1 {
        candidates[0]
    } else {
        let rest = preferred_in(candidates.skip(1));
        if type_rank(candidates[0].device_type) <= type_rank(rest.device_type) {
            candidates[0]
        } else {
            rest
        }
    }
}

/// Selects the qualifying device to use: the candidate of the most preferred
/// class, earliest first on ties. Returns `None` exactly when no device
/// qualifies, which the caller must treat as fatal.
pub fn get_prefered_physical_device(candidates: &Vec<CandidateDevice>) -> (r: Option<
    CandidateDevice,
>)
    ensures
        r is Some <==> candidates@.len() > 0,
        candidates@.len() > 0 ==> r == Some(preferred_in(candidates@)),
{
    if candidates.len() == 0 {
        return None;
    }
    let mut best = candidates[0];
    let n = candidates.len();
    for i in 1..n
        invariant
            n == candidates@.len(),
            0 < n,
            1 <= i <= n,
            best == preferred_in(candidates@.take(i as int)),
    {
        proof {
            lemma_preferred_take_step(candidates@, i as int);
        }
        let c = candidates[i];
        if device_type_rank(c.device_type) < device_type_rank(best.device_type) {
            best = c;
        }
    }
    proof {
        assert(candidates@.take(n as int) =~= candidates@);
    }
    Some(best)
}

/// Executable rank of a device class, equal to its selection rank.
fn device_type_rank(t: PhysicalDeviceType) -> (r: u32)
    ensures
        r as int == type_rank(t),
{
    match t {
        PhysicalDeviceType::DiscreteGpu => 0,
        PhysicalDeviceType::IntegratedGpu => 1,
        PhysicalDeviceType::VirtualGpu => 2,
        PhysicalDeviceType::Cpu => 3,
        PhysicalDeviceType::Other => 4,
    }
}

/// Extending the prefix by one element keeps the earlier element on a tie:
/// the preferred candidate of `take(i + 1)` is the old one unless the new
/// element ranks strictly lower.
proof fn lemma_preferred_take_step(candidates: Seq<CandidateDevice>, i: int)
    requires
        1 <= i < candidates.len(),
    ensures
        preferred_in(candidates.take(i + 1)) == (if type_rank(candidates[i].device_type)
            < type_rank(preferred_in(candidates.take(i)).device_type) {
            candidates[i]
        } else {
            preferred_in(candidates.take(i))
        }),
    decreases i,
{
    let pre = candidates.take(i);
    let ext = candidates.take(i + 1);
    if i == 1 {
        assert(ext.len() == 2);
        assert(ext.skip(1) =~= seq![candidates[1]]);
        assert(preferred_in(ext.skip(1)) == candidates[1]);
        assert(pre =~= seq![candidates[0]]);
    } else {
        assert(ext.skip(1) =~= candidates.skip(1).take(i));
        assert(pre.skip(1) =~= candidates.skip(1).take(i - 1));
        lemma_preferred_take_step(candidates.skip(1), i - 1);
        assert(candidates.skip(1)[i - 1] == candidates[i]);
        assert(ext[0] == candidates[0] && pre[0] == candidates[0]);
    }
}

/// The preferred candidate is an element of the list, and no element of the
/// list has a strictly lower rank.
pub proof fn lemma_preferred_is_minimal(candidates: Seq<CandidateDevice>)
    requires
        candidates.len() > 0,
    ensures
        candidates.contains(preferred_in(candidates)),
        forall|j: int| 0 <= j < candidates.len()
            ==> type_rank(preferred_in(candidates).device_type)
                <= type_rank(#[trigger] candidates[j].device_type),
    decreases candidates.len(),
{
    if candidates.len() > 1 {
        lemma_preferred_is_minimal(candidates.skip(1));
        let rest = preferred_in(candidates.skip(1));
        assert(candidates.skip(1).contains(rest));
        let k = choose|k: int| 0 <= k < candidates.skip(1).len() && candidates.skip(1)[k] == rest;
        assert(candidates[k + 1] == rest);
        assert(forall|j: int| 1 <= j < candidates.len()
            ==> candidates.skip(1)[j - 1] == #[trigger] candidates[j]);
    }
}

/// Every candidate names a device of the enumerated list that qualifies, and
/// records that device's class and its first usable queue family.
pub proof fn lemma_candidates_are_qualified(devices: Seq<PhysicalDeviceInfo>, n: int)
    requires
        0 <= n <= devices.len() <= usize::MAX,
    ensures
        forall|k: int| 0 <= k < candidates_prefix(devices, n).len() ==> {
            let c = #[trigger] candidates_prefix(devices, n)[k];
            &&& c.device_index < n
            &&& device_qualifies(devices[c.device_index as int])
            &&& c == candidate_of(devices[c.device_index as int], c.device_index as int)
        },
    decreases n,
{
    if n > 0 {
        lemma_candidates_are_qualified(devices, n - 1);
    }
}

/// Every qualifying device of the enumerated list appears among the
/// candidates.
pub proof fn lemma_qualified_are_candidates(devices: Seq<PhysicalDeviceInfo>, n: int)
    requires
        0 <= n <= devices.len() <= usize::MAX,
    ensures
        forall|i: int| 0 <= i < n && device_qualifies(devices[i]) ==> candidates_prefix(
            devices,
            n,
        ).contains(candidate_of(devices[i], i)),
    decreases n,
{
    if n > 0 {
        lemma_qualified_are_candidates(devices, n - 1);
        let pre = candidates_prefix(devices, n - 1);
        let cur = candidates_prefix(devices, n);
        assert forall|i: int| 0 <= i < n && device_qualifies(devices[i]) implies cur.contains(
            candidate_of(devices[i], i),
        ) by {
            if i < n - 1 {
                assert(pre.contains(candidate_of(devices[i], i)));
                let k = choose|k: int| 0 <= k < pre.len() && pre[k] == candidate_of(devices[i], i);
                assert(cur[k] == candidate_of(devices[i], i));
            } else {
                assert(cur[cur.len() - 1] == candidate_of(devices[n - 1], n - 1));
            }
        }
    }
}

/// The selection ranks within the pre-filtered, qualified set and never
/// escapes it: when any enumerated device qualifies, the chosen candidate
/// names a qualifying device, and no qualifying device of the enumeration
/// has a class of strictly lower rank than the chosen one's.
pub proof fn lemma_selection_operates_on_qualified(devices: Seq<PhysicalDeviceInfo>)
    requires
        devices.len() <= usize::MAX,
        candidates_of(devices).len() > 0,
    ensures
        ({
            let chosen = preferred_in(candidates_of(devices));
            &&& chosen.device_index < devices.len()
            &&& device_qualifies(devices[chosen.device_index as int])
            &&& forall|i: int| 0 <= i < devices.len() && device_qualifies(#[trigger] devices[i])
                ==> type_rank(chosen.device_type) <= type_rank(devices[i].device_type)
        }),
{
    let candidates = candidates_of(devices);
    let chosen = preferred_in(candidates);
    lemma_candidates_are_qualified(devices, devices.len() as int);
    lemma_qualified_are_candidates(devices, devices.len() as int);
    lemma_preferred_is_minimal(candidates);
    let kc = choose|k: int| 0 <= k < candidates.len() && candidates[k] == chosen;
    assert forall|i: int| 0 <= i < devices.len() && device_qualifies(#[trigger] devices[i])
        implies type_rank(chosen.device_type) <= type_rank(devices[i].device_type) by {
        assert(candidates.contains(candidate_of(devices[i], i)));
        let k = choose|k: int| 0 <= k < candidates.len() && candidates[k] == candidate_of(
            devices[i],
            i,
        );
        assert(type_rank(chosen.device_type) <= type_rank(candidates[k].device_type));
    }
}

/// Device selection is deterministic: it is a function of the candidate list
/// alone, so equal enumerations give the same chosen device and family.
pub proof fn lemma_selection_deterministic(a: Seq<CandidateDevice>, b: Seq<CandidateDevice>)
    requires
        a == b,
    ensures
        preferred_in(a) == preferred_in(b),
{
}

/// A discrete GPU is never passed over: whenever some qualifying candidate is
/// of the discrete class, the chosen candidate is of the discrete class.
pub proof fn lemma_discrete_never_passed_over(candidates: Seq<CandidateDevice>, j: int)
    requires
        0 <= j < candidates.len(),
        candidates[j].device_type == PhysicalDeviceType::DiscreteGpu,
    ensures
        preferred_in(candidates).device_type == PhysicalDeviceType::DiscreteGpu,
{
    lemma_preferred_is_minimal(candidates);
    assert(type_rank(preferred_in(candidates).device_type) <= 0);
}

} // verus!
