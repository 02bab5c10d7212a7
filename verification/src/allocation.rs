//! Buffers and images together with the memory that backs them.
//!
//! A resource and its memory are held as one value. There is no such value
//! without both handles, and releasing takes the value away, so that no
//! resource is left without its memory and none is released twice.

use crate::device::{Device, MemoryRequirements};
use crate::memory::{
    find_memorytype_index, locality_flags, memory_flags, memory_type_choice, MemoryLocality,
};
use crate::status::{allocation_failure, allocation_failure_of, ErrorKind};
use vstd::prelude::*;

verus! {

/// A buffer and the memory bound to it.
#[derive(Debug, PartialEq, Eq)]
pub struct Buffer {
    handle: u64,
    memory: u64,
    size: u64,
    memory_type: u32,
}

/// An image and the memory bound to it.
#[derive(Debug, PartialEq, Eq)]
pub struct Image {
    handle: u64,
    memory: u64,
    size: u64,
    memory_type: u32,
}

/// What is to be released, the resource first and then its memory.
#[derive(Clone, Copy, Debug, PartialEq, Eq, Structural)]
pub struct Release {
    pub resource: u64,
    pub memory: u64,
}

impl Buffer {
    #[verifier::type_invariant]
    spec fn owns_memory(self) -> bool {
        self.handle != 0 && self.memory != 0
    }

    /// The handle of the buffer.
    pub closed spec fn handle_of(self) -> u64 {
        self.handle
    }

    /// The handle of the memory.
    pub closed spec fn memory_of(self) -> u64 {
        self.memory
    }

    /// The size of the allocation in bytes.
    pub closed spec fn size_of(self) -> u64 {
        self.size
    }

    /// The index of the memory type that the memory was taken from.
    pub closed spec fn memory_type_of(self) -> u32 {
        self.memory_type
    }

    /// The handle of the buffer; never null.
    pub fn handle(&self) -> (r: u64)
        ensures
            r == self.handle_of(),
            r != 0,
    {
        proof {
            use_type_invariant(self);
        }
        self.handle
    }

    /// The handle of the memory; never null.
    pub fn memory(&self) -> (r: u64)
        ensures
            r == self.memory_of(),
            r != 0,
    {
        proof {
            use_type_invariant(self);
        }
        self.memory
    }

    /// The size of the allocation in bytes.
    pub fn size(&self) -> (r: u64)
        ensures
            r == self.size_of(),
    {
        self.size
    }

    /// The index of the memory type.
    pub fn memory_type(&self) -> (r: u32)
        ensures
            r == self.memory_type_of(),
    {
        self.memory_type
    }
}

impl Image {
    #[verifier::type_invariant]
    spec fn owns_memory(self) -> bool {
        self.handle != 0 && self.memory != 0
    }

    /// The handle of the image.
    pub closed spec fn handle_of(self) -> u64 {
        self.handle
    }

    /// The handle of the memory.
    pub closed spec fn memory_of(self) -> u64 {
        self.memory
    }

    /// The size of the allocation in bytes.
    pub closed spec fn size_of(self) -> u64 {
        self.size
    }

    /// The index of the memory type that the memory was taken from.
    pub closed spec fn memory_type_of(self) -> u32 {
        self.memory_type
    }

    /// The handle of the image; never null.
    pub fn handle(&self) -> (r: u64)
        ensures
            r == self.handle_of(),
            r != 0,
    {
        proof {
            use_type_invariant(self);
        }
        self.handle
    }

    /// The handle of the memory; never null.
    pub fn memory(&self) -> (r: u64)
        ensures
            r == self.memory_of(),
            r != 0,
    {
        proof {
            use_type_invariant(self);
        }
        self.memory
    }

    /// The size of the allocation in bytes.
    pub fn size(&self) -> (r: u64)
        ensures
            r == self.size_of(),
    {
        self.size
    }

    /// The index of the memory type.
    pub fn memory_type(&self) -> (r: u32)
        ensures
            r == self.memory_type_of(),
    {
        self.memory_type
    }
}

/// The memory type that this device backs a resource with, for the
/// resource's requirements and the locality asked for.
pub open spec fn backing_type(
    device: Device,
    requirements: MemoryRequirements,
    locality: MemoryLocality,
) -> Option<int> {
    memory_type_choice(
        requirements.memory_type_bits,
        device.mem_properties.memory_types@,
        locality_flags(locality),
    )
}

/// Whether the creation of a resource and the allocation of its memory
/// came to something that can be held: both calls succeeded, neither handle
/// is null, and the device has a memory type for the resource.
pub open spec fn allocation_holds(
    device: Device,
    outcome: Result<(u64, u64), i32>,
    requirements: MemoryRequirements,
    locality: MemoryLocality,
) -> bool {
    &&& outcome is Ok
    &&& outcome->Ok_0.0 != 0
    &&& outcome->Ok_0.1 != 0
    &&& backing_type(device, requirements, locality) is Some
}

/// The class of the failure where it did not: that of the result code
/// where a call failed, and exhaustion where a handle is null or no memory
/// type serves.
pub open spec fn allocation_error(outcome: Result<(u64, u64), i32>) -> ErrorKind {
    match outcome {
        Err(code) => allocation_failure_of(code),
        Ok(_) => ErrorKind::ResourceExhaustion,
    }
}

impl Device {
    /// Bundles a buffer with the memory that was bound to it, given what
    /// the creation of the buffer and the allocation of its memory came to:
    /// the two handles, or the result code of the call that failed.
    ///
    /// Succeeds exactly when both handles are there, neither is null and the
    /// device has a memory type for the requirements and the locality. A
    /// failure is reported by its class, which is `ResourceExhaustion`
    /// unless the code says that the device is lost.
    pub fn create_buffer(
        &self,
        outcome: Result<(u64, u64), i32>,
        requirements: &MemoryRequirements,
        locality: MemoryLocality,
    ) -> (r: Result<Buffer, ErrorKind>)
        ensures
            r is Ok <==> allocation_holds(*self, outcome, *requirements, locality),
            r is Err ==> r->Err_0 == allocation_error(outcome),
            r is Ok ==> {
                let b = r->Ok_0;
                &&& b.handle_of() == outcome->Ok_0.0
                &&& b.memory_of() == outcome->Ok_0.1
                &&& b.size_of() == requirements.size
                &&& Some(b.memory_type_of() as int) == backing_type(*self, *requirements, locality)
            },
    {
        match outcome {
            Ok((handle, memory)) => {
                if handle == 0 || memory == 0 {
                    return Err(ErrorKind::ResourceExhaustion);
                }
                match find_memorytype_index(
                    requirements,
                    &self.mem_properties,
                    memory_flags(locality),
                ) {
                    Some(memory_type) => Ok(
                        Buffer { handle, memory, size: requirements.size, memory_type },
                    ),
                    None => Err(ErrorKind::ResourceExhaustion),
                }
            },
            Err(code) => Err(allocation_failure(code)),
        }
    }

    /// Bundles an image with the memory that was bound to it, given what
    /// the creation of the image and the allocation of its memory came to:
    /// the two handles, or the result code of the call that failed.
    ///
    /// Succeeds exactly when both handles are there, neither is null and the
    /// device has a memory type for the requirements and the locality. A
    /// failure is reported by its class, which is `ResourceExhaustion`
    /// unless the code says that the device is lost.
    pub fn create_image(
        &self,
        outcome: Result<(u64, u64), i32>,
        requirements: &MemoryRequirements,
        locality: MemoryLocality,
    ) -> (r: Result<Image, ErrorKind>)
        ensures
            r is Ok <==> allocation_holds(*self, outcome, *requirements, locality),
            r is Err ==> r->Err_0 == allocation_error(outcome),
            r is Ok ==> {
                let b = r->Ok_0;
                &&& b.handle_of() == outcome->Ok_0.0
                &&& b.memory_of() == outcome->Ok_0.1
                &&& b.size_of() == requirements.size
                &&& Some(b.memory_type_of() as int) == backing_type(*self, *requirements, locality)
            },
    {
        match outcome {
            Ok((handle, memory)) => {
                if handle == 0 || memory == 0 {
                    return Err(ErrorKind::ResourceExhaustion);
                }
                match find_memorytype_index(
                    requirements,
                    &self.mem_properties,
                    memory_flags(locality),
                ) {
                    Some(memory_type) => Ok(
                        Image { handle, memory, size: requirements.size, memory_type },
                    ),
                    None => Err(ErrorKind::ResourceExhaustion),
                }
            },
            Err(code) => Err(allocation_failure(code)),
        }
    }

    /// Gives a buffer up: what is to be destroyed and what is to be freed.
    pub fn destroy_buffer(&self, buffer: Buffer) -> (r: Release)
        ensures
            r.resource == buffer.handle_of(),
            r.memory == buffer.memory_of(),
            r.resource != 0,
            r.memory != 0,
    {
        proof {
            use_type_invariant(&buffer);
        }
        Release { resource: buffer.handle, memory: buffer.memory }
    }

    /// Gives an image up: what is to be destroyed and what is to be freed.
    pub fn desroy_image(&self, image: Image) -> (r: Release)
        ensures
            r.resource == image.handle_of(),
            r.memory == image.memory_of(),
            r.resource != 0,
            r.memory != 0,
    {
        proof {
            use_type_invariant(&image);
        }
        Release { resource: image.handle, memory: image.memory }
    }
}

} // verus!
