//! Device context: the choice of a physical device and of its queue
//! families, and the lookup of a memory type.

use crate::flags::{
    contains, contains_bits, QUEUE_COMPUTE, QUEUE_GRAPHICS, QUEUE_TRANSFER,
};
use crate::search::{
    as_index, first_index, lemma_first_index_none, lemma_first_index_some,
    lemma_first_index_sound,
};
use vstd::prelude::*;

verus! {

/// What a physical device reports of one queue family, together with whether
/// the family can present to the target surface.
#[derive(Clone, Copy, Debug, PartialEq, Eq)]
pub struct QueueFamily {
    pub flags: u32,
    pub supports_present: bool,
}

/// One memory type of a physical device.
#[derive(Clone, Copy, Debug, PartialEq, Eq)]
pub struct MemoryType {
    pub property_flags: u32,
    pub heap_index: u32,
}

/// What a resource asks of the memory it is bound to.
#[derive(Clone, Copy, Debug, PartialEq, Eq)]
pub struct MemoryRequirements {
    pub size: u64,
    pub alignment: u64,
    pub memory_type_bits: u32,
}

/// The memory types of a physical device, in the device's order.
#[derive(Debug, PartialEq, Eq)]
pub struct MemoryProperties {
    pub memory_types: Vec<MemoryType>,
}

/// A physical device as enumeration reports it.
#[derive(Debug, PartialEq, Eq)]
pub struct PhysicalDevice {
    pub families: Vec<QueueFamily>,
    pub memory: MemoryProperties,
}

/// Queue family index by role. Compute and transfer are set only where they
/// are distinct from the roles before them.
#[derive(Clone, Copy, Debug, PartialEq, Eq)]
pub struct QueueFamilyIndices {
    pub graphics: Option<u32>,
    pub compute: Option<u32>,
    pub transfer: Option<u32>,
}

impl Default for QueueFamilyIndices {
    fn default() -> (r: Self)
        ensures
            r.graphics is None,
            r.compute is None,
            r.transfer is None,
    {
        QueueFamilyIndices { graphics: None, compute: None, transfer: None }
    }
}

/// Why no device context could be made.
#[derive(Clone, Copy, Debug, PartialEq, Eq)]
pub enum InitializationError {
    /// No physical device has a queue family that does graphics and presents.
    NoSuitableDevice,
    /// The driver does not offer the API version asked for.
    ApiVersionUnsupported,
}

/// No queue family offers the capabilities asked for.
#[derive(Clone, Copy, Debug, PartialEq, Eq)]
pub struct NoCompatibleQueue;

impl NoCompatibleQueue {
    /// What to tell the user.
    pub fn message(&self) -> (r: String)
        ensures
            r@ == "No compatible queue foung"@,
    {
        "No compatible queue foung".to_owned()
    }
}

/// The three passes of the queue family search, in the order tried.
#[derive(Clone, Copy, Debug, PartialEq, Eq)]
pub enum Tier {
    /// Families that offer what is asked and graphics.
    WithGraphics,
    /// Families that offer what is asked, graphics and compute.
    WithGraphicsAndCompute,
    /// Families that offer what is asked.
    Plain,
}

/// Whether a family is taken in the given pass of the search.
pub open spec fn tier_holds(tier: Tier, family: QueueFamily, queue_flags: u32) -> bool {
    match tier {
        Tier::WithGraphics => contains_bits(family.flags, queue_flags) && contains_bits(
            family.flags,
            QUEUE_GRAPHICS,
        ),
        Tier::WithGraphicsAndCompute => contains_bits(family.flags, queue_flags) && contains_bits(
            family.flags,
            QUEUE_GRAPHICS,
        ) && contains_bits(family.flags, QUEUE_COMPUTE),
        Tier::Plain => contains_bits(family.flags, queue_flags),
    }
}

/// `tier_holds` as a predicate on the indices of `families`.
pub open spec fn tier_pred(tier: Tier, families: Seq<QueueFamily>, queue_flags: u32) -> spec_fn(
    int,
) -> bool {
    |i: int| tier_holds(tier, families[i], queue_flags)
}

/// The family that a search for `queue_flags` settles on: for a compute
/// request the first family that also does graphics; failing that, for a
/// transfer request the first that also does graphics and compute; failing
/// that, the first family that offers what is asked.
pub open spec fn queue_family_choice(queue_flags: u32, families: Seq<QueueFamily>) -> Option<int> {
    let n = families.len() as int;
    let shared = first_index(n, tier_pred(Tier::WithGraphics, families, queue_flags));
    let full = first_index(n, tier_pred(Tier::WithGraphicsAndCompute, families, queue_flags));
    let plain = first_index(n, tier_pred(Tier::Plain, families, queue_flags));
    if contains_bits(queue_flags, QUEUE_COMPUTE) && shared is Some {
        shared
    } else if contains_bits(queue_flags, QUEUE_TRANSFER) && full is Some {
        full
    } else {
        plain
    }
}

fn tier_test(tier: Tier, family: &QueueFamily, queue_flags: u32) -> (r: bool)
    ensures
        r == tier_holds(tier, *family, queue_flags),
{
    match tier {
        Tier::WithGraphics => contains(family.flags, queue_flags) && contains(
            family.flags,
            QUEUE_GRAPHICS,
        ),
        Tier::WithGraphicsAndCompute => contains(family.flags, queue_flags) && contains(
            family.flags,
            QUEUE_GRAPHICS,
        ) && contains(family.flags, QUEUE_COMPUTE),
        Tier::Plain => contains(family.flags, queue_flags),
    }
}

fn first_in_tier(families: &Vec<QueueFamily>, queue_flags: u32, tier: Tier) -> (r: Option<u32>)
    requires
        families.len() <= u32::MAX,
    ensures
        as_index(r) == first_index(families.len() as int, tier_pred(tier, families@, queue_flags)),
{
    let ghost p = tier_pred(tier, families@, queue_flags);
    let mut i: usize = 0;
    while i < families.len()
        invariant
            0 <= i <= families.len(),
            families.len() <= u32::MAX,
            p == tier_pred(tier, families@, queue_flags),
            forall|j: int| 0 <= j < i ==> !#[trigger] p(j),
        decreases families.len() - i,
    {
        if tier_test(tier, &families[i], queue_flags) {
            proof {
                assert(p(i as int));
                lemma_first_index_some(families.len() as int, p, i as int);
            }
            return Some(i as u32);
        }
        assert(!p(i as int));
        i += 1;
    }
    proof {
        lemma_first_index_none(families.len() as int, p);
    }
    None
}

/// Index of the queue family to use for `queue_flags`.
///
/// Fails exactly when no family offers every capability asked for.
pub fn get_queue_family_idx(queue_flags: u32, queue_family_properties: &Vec<QueueFamily>) -> (r:
    Result<u32, NoCompatibleQueue>)
    requires
        queue_family_properties.len() <= u32::MAX,
    ensures
        match r {
            Ok(i) => queue_family_choice(queue_flags, queue_family_properties@) == Some(i as int),
            Err(_) => queue_family_choice(queue_flags, queue_family_properties@) is None,
        },
        r is Err <==> forall|j: int|
            0 <= j < queue_family_properties.len() ==> !contains_bits(
                (#[trigger] queue_family_properties@[j]).flags,
                queue_flags,
            ),
{
    proof {
        let n = queue_family_properties.len() as int;
        let fams = queue_family_properties@;
        lemma_first_index_sound(n, tier_pred(Tier::Plain, fams, queue_flags));
        lemma_first_index_sound(n, tier_pred(Tier::WithGraphics, fams, queue_flags));
        lemma_first_index_sound(n, tier_pred(Tier::WithGraphicsAndCompute, fams, queue_flags));
        let plain = tier_pred(Tier::Plain, fams, queue_flags);
        let shared = tier_pred(Tier::WithGraphics, fams, queue_flags);
        let full = tier_pred(Tier::WithGraphicsAndCompute, fams, queue_flags);
        // A family taken in an earlier pass would be taken in the last one too.
        if first_index(n, plain) is None {
            assert forall|j: int| 0 <= j < n implies !#[trigger] shared(j) by {
                assert(!plain(j));
            }
            assert forall|j: int| 0 <= j < n implies !#[trigger] full(j) by {
                assert(!plain(j));
            }
            lemma_first_index_none(n, shared);
            lemma_first_index_none(n, full);
            assert forall|j: int| 0 <= j < n implies !contains_bits(
                (#[trigger] fams[j]).flags,
                queue_flags,
            ) by {
                assert(!plain(j));
            }
        } else {
            let k = first_index(n, plain).unwrap();
            assert(plain(k));
            assert(contains_bits(fams[k].flags, queue_flags));
        }
    }
    if contains(queue_flags, QUEUE_COMPUTE) {
        if let Some(i) = first_in_tier(queue_family_properties, queue_flags, Tier::WithGraphics) {
            return Ok(i);
        }
    }
    if contains(queue_flags, QUEUE_TRANSFER) {
        if let Some(i) = first_in_tier(
            queue_family_properties,
            queue_flags,
            Tier::WithGraphicsAndCompute,
        ) {
            return Ok(i);
        }
    }
    match first_in_tier(queue_family_properties, queue_flags, Tier::Plain) {
        Some(i) => Ok(i),
        None => Err(NoCompatibleQueue),
    }
}

/// Whether a family does graphics and can present to the target surface.
pub open spec fn presentable(family: QueueFamily) -> bool {
    contains_bits(family.flags, QUEUE_GRAPHICS) && family.supports_present
}

/// `presentable` as a predicate on the indices of `families`.
pub open spec fn presentable_pred(families: Seq<QueueFamily>) -> spec_fn(int) -> bool {
    |i: int| presentable(families[i])
}

/// The first family of a device that does graphics and presents.
pub open spec fn presentable_family(device: PhysicalDevice) -> Option<int> {
    first_index(device.families.len() as int, presentable_pred(device.families@))
}

/// "The device at this index has a presentable family", on indices.
pub open spec fn suitable_pred(devices: Seq<PhysicalDevice>) -> spec_fn(int) -> bool {
    |d: int| presentable_family(devices[d]) is Some
}

/// The device and queue family that selection settles on: the first device
/// with a presentable family, and the first such family of that device.
pub open spec fn device_choice(devices: Seq<PhysicalDevice>) -> Option<(int, int)> {
    match first_index(devices.len() as int, suitable_pred(devices)) {
        Some(d) => Some((d, presentable_family(devices[d]).unwrap())),
        None => None,
    }
}

/// Every family index of every device fits the API's 32-bit index.
pub open spec fn families_indexable(devices: Seq<PhysicalDevice>) -> bool {
    forall|d: int| 0 <= d < devices.len() ==> (#[trigger] devices[d]).families.len() <= u32::MAX
}

/// The first family of `families` that does graphics and presents.
pub fn find_presentable_family(families: &Vec<QueueFamily>) -> (r: Option<u32>)
    requires
        families.len() <= u32::MAX,
    ensures
        as_index(r) == first_index(families.len() as int, presentable_pred(families@)),
{
    let ghost p = presentable_pred(families@);
    let mut i: usize = 0;
    while i < families.len()
        invariant
            0 <= i <= families.len(),
            families.len() <= u32::MAX,
            p == presentable_pred(families@),
            forall|j: int| 0 <= j < i ==> !#[trigger] p(j),
        decreases families.len() - i,
    {
        if contains(families[i].flags, QUEUE_GRAPHICS) && families[i].supports_present {
            proof {
                assert(p(i as int));
                lemma_first_index_some(families.len() as int, p, i as int);
            }
            return Some(i as u32);
        }
        assert(!p(i as int));
        i += 1;
    }
    proof {
        lemma_first_index_none(families.len() as int, p);
    }
    None
}

/// Picks the physical device and the queue family to render and present
/// with: the first device, in enumeration order, that has a family which does
/// graphics and presents to the surface, and the first such family.
///
/// Fails with `NoSuitableDevice` exactly when no family of any device
/// qualifies.
pub fn select_device(devices: &Vec<PhysicalDevice>) -> (r: Result<(usize, u32), InitializationError>)
    requires
        families_indexable(devices@),
    ensures
        match r {
            Ok((d, q)) => device_choice(devices@) == Some((d as int, q as int)),
            Err(e) => e == InitializationError::NoSuitableDevice && device_choice(devices@) is None,
        },
        r is Err <==> forall|d: int, q: int|
            0 <= d < devices.len() && 0 <= q < devices@[d].families.len() ==> !presentable(
                #[trigger] devices@[d].families@[q],
            ),
{
    let ghost p = suitable_pred(devices@);
    let mut d: usize = 0;
    while d < devices.len()
        invariant
            0 <= d <= devices.len(),
            families_indexable(devices@),
            p == suitable_pred(devices@),
            forall|j: int| 0 <= j < d ==> !#[trigger] p(j),
            forall|j: int, q: int|
                0 <= j < d && 0 <= q < devices@[j].families.len() ==> !presentable(
                    #[trigger] devices@[j].families@[q],
                ),
        decreases devices.len() - d,
    {
        let found = find_presentable_family(&devices[d].families);
        proof {
            lemma_first_index_sound(
                devices@[d as int].families.len() as int,
                presentable_pred(devices@[d as int].families@),
            );
        }
        if let Some(q) = found {
            proof {
                assert(p(d as int));
                lemma_first_index_some(devices.len() as int, p, d as int);
                assert(presentable_pred(devices@[d as int].families@)(q as int));
            }
            return Ok((d, q));
        }
        proof {
            assert(!p(d as int));
            assert forall|q: int| 0 <= q < devices@[d as int].families.len() implies !presentable(
                #[trigger] devices@[d as int].families@[q],
            ) by {
                assert(!presentable_pred(devices@[d as int].families@)(q));
            }
        }
        d += 1;
    }
    proof {
        lemma_first_index_none(devices.len() as int, p);
    }
    Err(InitializationError::NoSuitableDevice)
}

/// The device context: the physical device that was chosen, what it
/// reports, and the queue families by role.
#[derive(Debug, PartialEq, Eq)]
pub struct Device {
    pub physical_device: usize,
    pub mem_properties: MemoryProperties,
    pub queue_family_properties: Vec<QueueFamily>,
    pub queue_family_indices: QueueFamilyIndices,
}

/// The family for compute work: where compute is asked for, the family that
/// the search for compute settles on, if it is not the graphics family.
pub open spec fn compute_choice(queue_types: u32, families: Seq<QueueFamily>, graphics: u32)
    -> Option<u32> {
    if contains_bits(queue_types, QUEUE_COMPUTE) {
        match queue_family_choice(QUEUE_COMPUTE, families) {
            Some(i) => if i != graphics {
                Some(i as u32)
            } else {
                None
            },
            None => None,
        }
    } else {
        None
    }
}

/// The family for transfer work: where transfer is asked for, the family
/// that the search for transfer settles on, if it is neither the graphics
/// nor the compute family.
pub open spec fn transfer_choice(
    queue_types: u32,
    families: Seq<QueueFamily>,
    graphics: u32,
    compute: Option<u32>,
) -> Option<u32> {
    if contains_bits(queue_types, QUEUE_TRANSFER) {
        match queue_family_choice(QUEUE_TRANSFER, families) {
            Some(i) => if i != graphics && compute != Some(i as u32) {
                Some(i as u32)
            } else {
                None
            },
            None => None,
        }
    } else {
        None
    }
}

/// The families in which a queue is created: graphics first, then compute
/// and transfer where they are set.
pub open spec fn queue_plan(indices: QueueFamilyIndices) -> Seq<u32> {
    let g: Seq<u32> = match indices.graphics {
        Some(i) => seq![i],
        None => Seq::empty(),
    };
    let c: Seq<u32> = match indices.compute {
        Some(i) => seq![i],
        None => Seq::empty(),
    };
    let t: Seq<u32> = match indices.transfer {
        Some(i) => seq![i],
        None => Seq::empty(),
    };
    g + c + t
}

impl Device {
    /// The device context for the first suitable physical device.
    ///
    /// `queue_types` says which roles are wanted, and graphics must be
    /// among them. The graphics family is the one that `select_device`
    /// picks: it also presents. Compute and transfer get a family only
    /// where it differs from the roles before. Fails with
    /// `NoSuitableDevice` exactly when `select_device` does.
    pub fn new(devices: Vec<PhysicalDevice>, queue_types: u32) -> (r: Result<
        Device,
        InitializationError,
    >)
        requires
            families_indexable(devices@),
            contains_bits(queue_types, QUEUE_GRAPHICS),
        ensures
            r is Err <==> device_choice(devices@) is None,
            r is Err ==> r->Err_0 == InitializationError::NoSuitableDevice,
            r is Ok ==> {
                let dev = r->Ok_0;
                let (d, g) = device_choice(devices@).unwrap();
                let families = devices@[d].families@;
                let compute = compute_choice(queue_types, families, g as u32);
                &&& dev.physical_device == d
                &&& dev.queue_family_properties@ == families
                &&& dev.mem_properties == devices@[d].memory
                &&& dev.queue_family_indices.graphics == Some(g as u32)
                &&& presentable(families[g])
                &&& dev.queue_family_indices.compute == compute
                &&& dev.queue_family_indices.transfer == transfer_choice(
                    queue_types,
                    families,
                    g as u32,
                    compute,
                )
            },
    {
        let (d, graphics) = match select_device(&devices) {
            Ok(choice) => choice,
            Err(e) => {
                return Err(e);
            },
        };
        proof {
            lemma_first_index_sound(
                devices@[d as int].families.len() as int,
                presentable_pred(devices@[d as int].families@),
            );
        }
        let mut devices = devices;
        let chosen = devices.swap_remove(d);
        let families = chosen.families;
        let mut compute: Option<u32> = None;
        if contains(queue_types, QUEUE_COMPUTE) {
            if let Ok(i) = get_queue_family_idx(QUEUE_COMPUTE, &families) {
                if i != graphics {
                    compute = Some(i);
                }
            }
        }
        let mut transfer: Option<u32> = None;
        if contains(queue_types, QUEUE_TRANSFER) {
            if let Ok(i) = get_queue_family_idx(QUEUE_TRANSFER, &families) {
                let taken = match compute {
                    Some(c) => c == i,
                    None => false,
                };
                if i != graphics && !taken {
                    transfer = Some(i);
                }
            }
        }
        Ok(
            Device {
                physical_device: d,
                mem_properties: chosen.memory,
                queue_family_properties: families,
                queue_family_indices: QueueFamilyIndices {
                    graphics: Some(graphics),
                    compute,
                    transfer,
                },
            },
        )
    }

    /// The queue families to create a queue in, each once.
    pub fn queue_families_to_create(&self) -> (r: Vec<u32>)
        ensures
            r@ == queue_plan(self.queue_family_indices),
    {
        let mut r: Vec<u32> = Vec::new();
        if let Some(i) = self.queue_family_indices.graphics {
            r.push(i);
        }
        if let Some(i) = self.queue_family_indices.compute {
            r.push(i);
        }
        if let Some(i) = self.queue_family_indices.transfer {
            r.push(i);
        }
        assert(r@ =~= queue_plan(self.queue_family_indices));
        r
    }
}

/// The family that a search settles on is one of the families, and offers
/// what was asked for.
pub proof fn lemma_queue_family_choice_sound(queue_flags: u32, families: Seq<QueueFamily>)
    ensures
        match queue_family_choice(queue_flags, families) {
            Some(i) => 0 <= i < families.len() && contains_bits(families[i].flags, queue_flags),
            None => true,
        },
{
    let n = families.len() as int;
    lemma_first_index_sound(n, tier_pred(Tier::Plain, families, queue_flags));
    lemma_first_index_sound(n, tier_pred(Tier::WithGraphics, families, queue_flags));
    lemma_first_index_sound(n, tier_pred(Tier::WithGraphicsAndCompute, families, queue_flags));
}

/// The roles of a device context name different families.
pub proof fn lemma_roles_are_distinct(queue_types: u32, families: Seq<QueueFamily>, graphics: u32)
    requires
        families.len() <= u32::MAX,
    ensures
        ({
            let compute = compute_choice(queue_types, families, graphics);
            let transfer = transfer_choice(queue_types, families, graphics, compute);
            &&& compute != Some(graphics)
            &&& transfer != Some(graphics)
            &&& transfer is Some ==> transfer != compute
        }),
{
    lemma_queue_family_choice_sound(QUEUE_COMPUTE, families);
    lemma_queue_family_choice_sound(QUEUE_TRANSFER, families);
}

} // verus!
