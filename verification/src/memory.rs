//! Choice of the memory type that backs a resource.

use crate::device::{MemoryProperties, MemoryRequirements, MemoryType};
use crate::flags::{
    contains_bits, MEMORY_DEVICE_LOCAL, MEMORY_HOST_COHERENT, MEMORY_HOST_VISIBLE,
};
use crate::search::{as_index, first_index, lemma_first_index_none, lemma_first_index_some};
use vstd::prelude::*;

verus! {

/// Where the memory of a resource should live.
#[derive(Clone, Copy, Debug, PartialEq, Eq)]
pub enum MemoryLocality {
    /// Mapped and written by the host: staging and per-frame data.
    HostVisibleCoherent,
    /// Read by the device only: steady-state resources.
    DeviceLocal,
}

/// The property flags that a locality asks for.
pub open spec fn locality_flags(locality: MemoryLocality) -> u32 {
    match locality {
        MemoryLocality::HostVisibleCoherent => MEMORY_HOST_VISIBLE | MEMORY_HOST_COHERENT,
        MemoryLocality::DeviceLocal => MEMORY_DEVICE_LOCAL,
    }
}

/// The property flags that a locality asks for.
pub fn memory_flags(locality: MemoryLocality) -> (r: u32)
    ensures
        r == locality_flags(locality),
{
    match locality {
        MemoryLocality::HostVisibleCoherent => MEMORY_HOST_VISIBLE | MEMORY_HOST_COHERENT,
        MemoryLocality::DeviceLocal => MEMORY_DEVICE_LOCAL,
    }
}

/// Whether memory type `i` is admitted by the mask `memory_type_bits`: bit `i`
/// of the mask is set. The mask has 32 bits, so no index from 32 on is.
pub open spec fn type_allowed(memory_type_bits: u32, i: int) -> bool {
    0 <= i < 32 && (memory_type_bits >> (i as u32)) & 1 == 1
}

/// "Type `i` is admitted and has exactly the property flags `flags`."
pub open spec fn exact_pred(memory_type_bits: u32, types: Seq<MemoryType>, flags: u32) -> spec_fn(
    int,
) -> bool {
    |i: int| type_allowed(memory_type_bits, i) && types[i].property_flags == flags
}

/// "Type `i` is admitted and has at least the property flags `flags`."
pub open spec fn superset_pred(memory_type_bits: u32, types: Seq<MemoryType>, flags: u32)
    -> spec_fn(int) -> bool {
    |i: int| type_allowed(memory_type_bits, i) && contains_bits(types[i].property_flags, flags)
}

/// The memory type chosen for a resource: the first admitted type whose flags
/// are exactly those asked for; failing that, the first admitted type that
/// has them all.
pub open spec fn memory_type_choice(memory_type_bits: u32, types: Seq<MemoryType>, flags: u32)
    -> Option<int> {
    let exact = first_index(types.len() as int, exact_pred(memory_type_bits, types, flags));
    if exact is Some {
        exact
    } else {
        first_index(types.len() as int, superset_pred(memory_type_bits, types, flags))
    }
}

fn allowed(memory_type_bits: u32, index: usize) -> (r: bool)
    ensures
        r == type_allowed(memory_type_bits, index as int),
{
    if index < 32 {
        let shift: u32 = index as u32;
        (memory_type_bits >> shift) & 1 == 1
    } else {
        false
    }
}

/// The first memory type that the requirements admit and for which `f`,
/// given the type's property flags and `flags`, answers `true`.
///
/// `f` is asked about the types in order and only about admitted ones.
pub fn find_memorytype_index_f<F: Fn(u32, u32) -> bool>(
    memory_req: &MemoryRequirements,
    memory_prop: &MemoryProperties,
    flags: u32,
    f: F,
) -> (r: Option<u32>)
    requires
        forall|j: int|
            0 <= j < memory_prop.memory_types.len() ==> f.requires(
                ((#[trigger] memory_prop.memory_types@[j]).property_flags, flags),
            ),
    ensures
        match r {
            Some(i) => {
                &&& i < memory_prop.memory_types.len()
                &&& type_allowed(memory_req.memory_type_bits, i as int)
                &&& f.ensures((memory_prop.memory_types@[i as int].property_flags, flags), true)
                &&& forall|j: int|
                    0 <= j < i && type_allowed(memory_req.memory_type_bits, j) ==> f.ensures(
                        ((#[trigger] memory_prop.memory_types@[j]).property_flags, flags),
                        false,
                    )
            },
            None => forall|j: int|
                0 <= j < memory_prop.memory_types.len() && type_allowed(
                    memory_req.memory_type_bits,
                    j,
                ) ==> f.ensures(
                    ((#[trigger] memory_prop.memory_types@[j]).property_flags, flags),
                    false,
                ),
        },
{
    let mut index: usize = 0;
    while index < memory_prop.memory_types.len() && index < 32
        invariant
            0 <= index <= memory_prop.memory_types.len(),
            index <= 32,
            forall|j: int|
                0 <= j < memory_prop.memory_types.len() ==> f.requires(
                    ((#[trigger] memory_prop.memory_types@[j]).property_flags, flags),
                ),
            forall|j: int|
                0 <= j < index && type_allowed(memory_req.memory_type_bits, j) ==> f.ensures(
                    ((#[trigger] memory_prop.memory_types@[j]).property_flags, flags),
                    false,
                ),
        decreases memory_prop.memory_types.len() - index,
    {
        if allowed(memory_req.memory_type_bits, index) {
            let hit = f(memory_prop.memory_types[index].property_flags, flags);
            if hit {
                return Some(index as u32);
            }
        }
        index += 1;
    }
    None
}

/// The memory type to back a resource with: the first type that the
/// requirements admit and whose property flags are exactly `flags`; where
/// there is none, the first admitted type that has every flag of `flags`.
///
/// `None` exactly when no admitted type has every flag asked for.
pub fn find_memorytype_index(
    memory_req: &MemoryRequirements,
    memory_prop: &MemoryProperties,
    flags: u32,
) -> (r: Option<u32>)
    ensures
        as_index(r) == memory_type_choice(
            memory_req.memory_type_bits,
            memory_prop.memory_types@,
            flags,
        ),
        r is None <==> forall|j: int|
            0 <= j < memory_prop.memory_types.len() && type_allowed(
                memory_req.memory_type_bits,
                j,
            ) ==> !contains_bits((#[trigger] memory_prop.memory_types@[j]).property_flags, flags),
{
    let ghost bits = memory_req.memory_type_bits;
    let ghost types = memory_prop.memory_types@;
    let ghost n = types.len() as int;
    let ghost exact = exact_pred(bits, types, flags);
    let ghost superset = superset_pred(bits, types, flags);
    proof {
        assert(contains_bits(flags, flags)) by (bit_vector);
    }
    // Try to find an exactly matching memory flag
    let same = |property_flags: u32, flags: u32| -> (r: bool)
        ensures
            r == (property_flags == flags),
        { property_flags == flags };
    let best_suitable_index = find_memorytype_index_f(memory_req, memory_prop, flags, same);
    if let Some(i) = best_suitable_index {
        proof {
            assert(exact(i as int));
            assert forall|j: int| 0 <= j < i implies !#[trigger] exact(j) by {
                if type_allowed(bits, j) {
                    assert(same.ensures((types[j].property_flags, flags), false));
                }
            }
            lemma_first_index_some(n, exact, i as int);
            assert(contains_bits(types[i as int].property_flags, flags));
        }
        return best_suitable_index;
    }
    proof {
        assert forall|j: int| 0 <= j < n implies !#[trigger] exact(j) by {
            if type_allowed(bits, j) {
                assert(same.ensures((types[j].property_flags, flags), false));
            }
        }
        lemma_first_index_none(n, exact);
    }
    // Otherwise find a memory flag that works
    let covers = |property_flags: u32, flags: u32| -> (r: bool)
        ensures
            r == contains_bits(property_flags, flags),
        { property_flags & flags == flags };
    let r = find_memorytype_index_f(memory_req, memory_prop, flags, covers);
    proof {
        match r {
            Some(i) => {
                assert(superset(i as int));
                assert forall|j: int| 0 <= j < i implies !#[trigger] superset(j) by {
                    if type_allowed(bits, j) {
                        assert(covers.ensures((types[j].property_flags, flags), false));
                    }
                }
                lemma_first_index_some(n, superset, i as int);
            },
            None => {
                assert forall|j: int| 0 <= j < n implies !#[trigger] superset(j) by {
                    if type_allowed(bits, j) {
                        assert(covers.ensures((types[j].property_flags, flags), false));
                    }
                }
                lemma_first_index_none(n, superset);
                assert forall|j: int| 0 <= j < n && type_allowed(bits, j) implies !contains_bits(
                    (#[trigger] types[j]).property_flags,
                    flags,
                ) by {
                    assert(!superset(j));
                }
            },
        }
    }
    r
}

/// The memory type for a resource with the given requirements and locality.
pub fn memory_type_for(
    memory_req: &MemoryRequirements,
    memory_prop: &MemoryProperties,
    locality: MemoryLocality,
) -> (r: Option<u32>)
    ensures
        as_index(r) == memory_type_choice(
            memory_req.memory_type_bits,
            memory_prop.memory_types@,
            locality_flags(locality),
        ),
{
    find_memorytype_index(memory_req, memory_prop, memory_flags(locality))
}

} // verus!
