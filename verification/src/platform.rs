//! The calls into vulkanalia that the library makes, each behind a
//! contract that Verus takes on trust. Only calls that are safe Rust stand
//! here; the Vulkan commands themselves (all `unsafe fn`) are made by the
//! application around the library.

use vstd::prelude::*;
use crate::consts::ApiVersion;
use vulkanalia::bytecode::Bytecode;

verus! {

/// `vulkanalia::Entry`: the loaded Vulkan entry point.
#[verifier::external_type_specification]
#[verifier::external_body]
pub struct ExEntry(vulkanalia::Entry);

/// `vulkanalia::bytecode::Bytecode`: a 4-byte aligned copy of SPIR-V code.
#[verifier::external_type_specification]
#[verifier::external_body]
pub struct ExBytecode(vulkanalia::bytecode::Bytecode);

/// Why `Bytecode::new` refused a byte slice.
#[derive(Clone, Copy, Debug, PartialEq, Eq, Structural)]
pub enum BytecodeFailure {
    /// The length (carried) is zero or not a multiple of four.
    Length(usize),
    /// The aligned buffer could not be allocated.
    Alloc,
}

/// Calls `vulkanalia::Entry::version`: the instance-level API version the
/// loader reports, or the raw Vulkan error code it failed with. The source
/// decodes the version from a packed `u32`, so major and minor stay below
/// 1024 and patch below 4096; which version comes back depends on the machine.
#[verifier::external_body]
pub(crate) fn entry_version(entry: &vulkanalia::Entry) -> (version: Result<ApiVersion, i32>)
    ensures
        version matches Ok(v) ==> v.major < 1024 && v.minor < 1024 && v.patch < 4096,
{
    match entry.version() {
        Ok(v) => Ok(ApiVersion { major: v.major, minor: v.minor, patch: v.patch }),
        Err(e) => Err(e.as_raw()),
    }
}

/// A length `Bytecode::new` refuses: zero, or not a multiple of four.
pub open spec fn bytecode_length_refused(len: nat) -> bool {
    len == 0 || len % 4 != 0
}

/// The bytes a `Bytecode` buffer holds (`code_size()` of them).
pub uninterp spec fn bytecode_bytes(bytecode: Bytecode) -> Seq<u8>;

/// Calls `vulkanalia::bytecode::Bytecode::new`, which copies SPIR-V code into
/// an aligned buffer. The source refuses an empty slice or one whose length is
/// not a multiple of four with `Length(len)`; any other slice is copied unless
/// the allocation fails (`Alloc`). A buffer that comes back holds a copy of
/// exactly the given bytes (`copy_from_slice` into a buffer of the same size).
#[verifier::external_body]
pub(crate) fn bytecode_new(code: &[u8]) -> (bytecode: Result<Bytecode, BytecodeFailure>)
    ensures
        bytecode_length_refused(code@.len()) ==> bytecode is Err && bytecode->Err_0 == BytecodeFailure::Length(code@.len() as usize),
        !bytecode_length_refused(code@.len()) ==> bytecode is Ok || bytecode->Err_0 == BytecodeFailure::Alloc,
        bytecode matches Ok(b) ==> bytecode_bytes(b) == code@,
{
    match vulkanalia::bytecode::Bytecode::new(code) {
        Ok(bytecode) => Ok(bytecode),
        Err(vulkanalia::bytecode::BytecodeError::Length(n)) => Err(BytecodeFailure::Length(n)),
        Err(vulkanalia::bytecode::BytecodeError::Alloc) => Err(BytecodeFailure::Alloc),
    }
}

} // verus!
