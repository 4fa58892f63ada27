//! Creating and opening the shared region, with failures sorted into the
//! kinds a participant acts on.
use crate::layout::{header_fits, spec_header_fits};
use shared_memory::{Shmem, ShmemConf, ShmemError};
use vstd::prelude::*;

verus! {

#[verifier::external_type_specification]
#[verifier::external_body]
pub struct ExShmem(Shmem);

#[verifier::external_type_specification]
#[verifier::external_body]
pub struct ExIoError(std::io::Error);

#[verifier::external_type_specification]
pub struct ExShmemError(ShmemError);

/// The OS error number for "no such file or directory".
pub const ENOENT: u32 = 2;

/// Why a region could not be had.
#[derive(Clone, Copy, Debug, PartialEq, Eq, Structural)]
pub enum RegionError {
    /// The OS object could not be created (name collision, resource limits,
    /// zero size).
    Allocation,
    /// No region is known under the identifier.
    NotFound,
    /// The region exists but could not be mapped, or is too small for the
    /// header.
    Mapping,
}

/// Relies on `shared_memory::ShmemConf::create` with a size and no fixed
/// identifier: a fresh mapping owned by the caller, which unlinks it when
/// dropped; a zero size is refused with `MapSizeZero` before anything else.
#[verifier::external_body]
fn shmem_create(size: usize) -> (r: Result<Shmem, ShmemError>)
    ensures
        size == 0 ==> (r is Err && r->Err_0 is MapSizeZero),
{
    ShmemConf::new().size(size).create()
}

/// Relies on `shared_memory::ShmemConf::open` with an OS identifier: maps
/// the existing region of that name, without owning it.
#[verifier::external_body]
fn shmem_open(os_id: &str) -> Result<Shmem, ShmemError> {
    ShmemConf::new().os_id(os_id).open()
}

/// Relies on `shared_memory::Shmem::len`: the size of the mapping in bytes.
#[verifier::external_body]
fn shmem_len(shmem: &Shmem) -> usize {
    shmem.len()
}

/// The kind of a failure to open a region by identifier.
pub open spec fn spec_open_error(e: ShmemError) -> RegionError {
    match e {
        ShmemError::NoLinkOrOsId => RegionError::NotFound,
        ShmemError::LinkDoesNotExist => RegionError::NotFound,
        ShmemError::MapOpenFailed(code) => {
            if code == ENOENT {
                RegionError::NotFound
            } else {
                RegionError::Mapping
            }
        },
        _ => RegionError::Mapping,
    }
}

/// Sorts a failure to open a region: an unknown identifier is `NotFound`,
/// every other failure `Mapping`.
pub fn open_error(e: &ShmemError) -> (r: RegionError)
    ensures
        r == spec_open_error(*e),
{
    match e {
        ShmemError::NoLinkOrOsId => RegionError::NotFound,
        ShmemError::LinkDoesNotExist => RegionError::NotFound,
        ShmemError::MapOpenFailed(code) => {
            if *code == ENOENT {
                RegionError::NotFound
            } else {
                RegionError::Mapping
            }
        },
        _ => RegionError::Mapping,
    }
}

/// Creates a region of at least `size` bytes, owned by the caller.
/// Every failure is an `Allocation` error; a zero size always fails.
pub fn create_region(size: usize) -> (r: Result<Shmem, RegionError>)
    ensures
        size == 0 ==> r == Err::<Shmem, RegionError>(RegionError::Allocation),
        r is Err ==> r->Err_0 == RegionError::Allocation,
{
    match shmem_create(size) {
        Ok(s) => Ok(s),
        Err(_) => Err(RegionError::Allocation),
    }
}

/// Accepts a mapping of `len` bytes only if the header fits in it; a
/// shorter one is a `Mapping` error.
pub fn check_header_room(len: usize) -> (r: Result<(), RegionError>)
    ensures
        r is Ok <==> spec_header_fits(len as int),
        r is Err ==> r->Err_0 == RegionError::Mapping,
{
    if header_fits(len) {
        Ok(())
    } else {
        Err(RegionError::Mapping)
    }
}

/// Opens the region published under `os_id`. Never fails with
/// `Allocation`: a failed open is sorted by `open_error`, and a mapping is
/// then held to `check_header_room`.
pub fn open_region(os_id: &str) -> (r: Result<Shmem, RegionError>)
    ensures
        r is Err ==> r->Err_0 != RegionError::Allocation,
{
    match shmem_open(os_id) {
        Ok(s) => {
            let len = shmem_len(&s);
            match check_header_room(len) {
                Ok(()) => Ok(s),
                Err(e) => Err(e),
            }
        },
        Err(e) => Err(open_error(&e)),
    }
}

} // verus!
