//! Packed API version numbers, and whether a driver offers the version that
//! the renderer is written for.

use crate::device::InitializationError;
use vstd::prelude::*;

verus! {

/// A version packed into one integer: ten bits of major, ten of minor and
/// twelve of patch version, from the most significant bit down.
pub open spec fn packed_version(major: u32, minor: u32, patch: u32) -> u32 {
    (major << 22) | (minor << 12) | patch
}

/// The major version of a packed version.
pub open spec fn major_of(version: u32) -> u32 {
    version >> 22
}

/// The minor version of a packed version.
pub open spec fn minor_of(version: u32) -> u32 {
    (version >> 12) & 0x3ff
}

/// The patch version of a packed version.
pub open spec fn patch_of(version: u32) -> u32 {
    version & 0xfff
}

/// Whether a driver that offers `offered` serves an application written for
/// `required`: the major version is greater, or it is the same and the
/// minor version is no less. The patch version does not count.
pub open spec fn version_serves(offered: u32, required: u32) -> bool {
    major_of(offered) > major_of(required) || (major_of(offered) == major_of(required)
        && minor_of(offered) >= minor_of(required))
}

/// `ash::vk::make_version`: the three parts shifted into place and joined.
pub assume_specification[ ash::vk::make_version ](major: u32, minor: u32, patch: u32) -> (r: u32)
    ensures
        r == packed_version(major, minor, patch),
;

/// The API version that the renderer asks the instance for: 1.0.0.
pub fn required_api_version() -> (r: u32)
    ensures
        r == packed_version(1, 0, 0),
        major_of(r) == 1,
        minor_of(r) == 0,
        patch_of(r) == 0,
{
    let r = ash::vk::make_version(1, 0, 0);
    assert(major_of(packed_version(1, 0, 0)) == 1 && minor_of(packed_version(1, 0, 0)) == 0
        && patch_of(packed_version(1, 0, 0)) == 0) by (bit_vector);
    r
}

/// Whether `offered` serves an application written for `required`.
pub fn api_version_supported(offered: u32, required: u32) -> (r: bool)
    ensures
        r == version_serves(offered, required),
{
    let offered_major = offered >> 22;
    let required_major = required >> 22;
    let offered_minor = (offered >> 12) & 0x3ff;
    let required_minor = (required >> 12) & 0x3ff;
    offered_major > required_major || (offered_major == required_major && offered_minor
        >= required_minor)
}

/// Checks the version that the driver offers against the one asked for.
///
/// Fails with `ApiVersionUnsupported` exactly when the driver's version
/// does not serve version 1.0.
pub fn check_api_version(offered: u32) -> (r: Result<(), InitializationError>)
    ensures
        r is Ok <==> version_serves(offered, packed_version(1, 0, 0)),
        r is Ok <==> major_of(offered) >= 1,
        r is Err ==> r->Err_0 == InitializationError::ApiVersionUnsupported,
{
    let required = required_api_version();
    proof {
        assert(minor_of(offered) >= 0);
    }
    if api_version_supported(offered, required) {
        Ok(())
    } else {
        Err(InitializationError::ApiVersionUnsupported)
    }
}

/// Packing keeps the parts apart: a version packed from parts that fit
/// their bits gives the parts back.
pub proof fn lemma_version_round_trip(major: u32, minor: u32, patch: u32)
    requires
        major < 0x400,
        minor < 0x400,
        patch < 0x1000,
    ensures
        major_of(packed_version(major, minor, patch)) == major,
        minor_of(packed_version(major, minor, patch)) == minor,
        patch_of(packed_version(major, minor, patch)) == patch,
{
    assert(major < 0x400 && minor < 0x400 && patch < 0x1000 ==> (((major << 22) | (minor << 12)
        | patch) >> 22) == major && ((((major << 22) | (minor << 12) | patch) >> 12) & 0x3ff)
        == minor && (((major << 22) | (minor << 12) | patch) & 0xfff) == patch) by (bit_vector);
}

} // verus!
