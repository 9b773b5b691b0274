//! The binary-diff computations behind the patch files: turning a vanilla
//! image and a generated image into a patch, and applying a patch to an
//! image. Both are pure byte-to-byte functions of an outside crate. The
//! differ indexes at most 2 GiB of source, and the patcher's header parser
//! trusts its size fields, so the public functions check both bounds in
//! verified code and reject what the outside calls cannot take.

use vstd::prelude::*;

verus! {

/// The largest source image the differ's suffix array can index.
pub const MAX_DIFF_SOURCE: usize = 0x7fffffff;

/// The patch the differ derives from an old and a new byte image.
pub uninterp spec fn bsdiff_between(old_rom: Seq<u8>, new_rom: Seq<u8>) -> Seq<u8>;

/// The image a patch yields when applied to an old byte image.
pub uninterp spec fn bspatch_result(old_rom: Seq<u8>, patch: Seq<u8>) -> Seq<u8>;

/// The unsigned little-endian 64-bit value of eight bytes.
pub open spec fn le64(b: Seq<u8>, off: int) -> int {
    (b[off] as int) + 0x100 * (b[off + 1] as int) + 0x1_0000 * (b[off + 2] as int) + 0x100_0000 * (
    b[off + 3] as int) + 0x1_0000_0000 * (b[off + 4] as int) + 0x100_0000_0000 * (
    b[off + 5] as int) + 0x1_0000_0000_0000 * (b[off + 6] as int) + 0x100_0000_0000_0000 * (
    b[off + 7] as int)
}

/// A patch header the patch parser can take: the magic marker, control and
/// delta sizes carrying the non-negative sign bit, and both sections fitting
/// inside the patch. The parser adds the two sizes as unsigned numbers and
/// splits the patch at them, so a negative-encoded or oversized size field
/// is rejected here instead of being handed over.
pub open spec fn patch_header_ok(patch: Seq<u8>) -> bool {
    &&& patch.len() >= 32
    &&& patch[0] == 0x42u8
    &&& patch[1] == 0x53u8
    &&& patch[2] == 0x44u8
    &&& patch[3] == 0x49u8
    &&& patch[4] == 0x46u8
    &&& patch[5] == 0x46u8
    &&& patch[6] == 0x34u8
    &&& patch[7] == 0x30u8
    &&& patch[15] < 0x80
    &&& patch[23] < 0x80
    &&& 32 + le64(patch, 8) + le64(patch, 16) <= patch.len()
}

/// Reads the unsigned little-endian 64-bit value at `off`.
fn read_le64(b: &Vec<u8>, off: usize) -> (r: u64)
    requires
        off + 8 <= b@.len(),
    ensures
        r as int == le64(b@, off as int),
{
    let _n = b.len();
    let b0 = b[off] as u64;
    let b1 = b[off + 1] as u64;
    let b2 = b[off + 2] as u64;
    let b3 = b[off + 3] as u64;
    let b4 = b[off + 4] as u64;
    let b5 = b[off + 5] as u64;
    let b6 = b[off + 6] as u64;
    let b7 = b[off + 7] as u64;
    proof {
        assert(b0 <= 0xFF && b1 <= 0xFF && b2 <= 0xFF && b3 <= 0xFF && b4 <= 0xFF && b5 <= 0xFF
            && b6 <= 0xFF && b7 <= 0xFF);
    }
    b0 + 0x100 * b1 + 0x1_0000 * b2 + 0x100_0000 * b3 + 0x1_0000_0000 * b4 + 0x100_0000_0000 * b5
        + 0x1_0000_0000_0000 * b6 + 0x100_0000_0000_0000 * b7
}

/// Whether the patch's header is one the parser can take.
fn check_patch_header(patch: &Vec<u8>) -> (r: bool)
    ensures
        r == patch_header_ok(patch@),
{
    if patch.len() < 32 {
        return false;
    }
    if !(patch[0] == 0x42 && patch[1] == 0x53 && patch[2] == 0x44 && patch[3] == 0x49 && patch[4]
        == 0x46 && patch[5] == 0x46 && patch[6] == 0x34 && patch[7] == 0x30) {
        return false;
    }
    if !(patch[15] < 0x80 && patch[23] < 0x80) {
        return false;
    }
    let csize = read_le64(patch, 8);
    let dsize = read_le64(patch, 16);
    32u128 + (csize as u128) + (dsize as u128) <= (patch.len() as u128)
}

/// Relies on qbsdiff::Bsdiff::new and compare: within the indexable source
/// bound the differ never panics, and the emitted patch is a pure function
/// of the two byte images.
#[verifier::external_body]
fn create_patch_trusted(old_rom: &Vec<u8>, new_rom: &Vec<u8>) -> (r: Result<Vec<u8>, ()>)
    requires
        old_rom@.len() <= MAX_DIFF_SOURCE,
    ensures
        (r matches Ok(patch) ==> patch@ == bsdiff_between(old_rom@, new_rom@)),
{
    let mut patch = Vec::new();
    match qbsdiff::Bsdiff::new(old_rom, new_rom).compare(std::io::Cursor::new(&mut patch)) {
        Ok(_) => Ok(patch),
        Err(_) => Err(()),
    }
}

/// Relies on qbsdiff::Bspatch::new and apply: with a header the parser can
/// take, parsing splits within bounds and applying only fails, never panics;
/// the patched image is a pure function of the old image and the patch.
#[verifier::external_body]
fn apply_patch_trusted(old_rom: &Vec<u8>, patch: &Vec<u8>) -> (r: Result<Vec<u8>, ()>)
    requires
        patch_header_ok(patch@),
    ensures
        (r matches Ok(new_rom) ==> new_rom@ == bspatch_result(old_rom@, patch@)),
{
    let mut new_rom = Vec::new();
    match qbsdiff::Bspatch::new(patch) {
        Ok(patcher) => match patcher.apply(old_rom, std::io::Cursor::new(&mut new_rom)) {
            Ok(_) => Ok(new_rom),
            Err(_) => Err(()),
        },
        Err(_) => Err(()),
    }
}

/// Derives the patch turning `old_rom` into `new_rom`. An old image too
/// large for the differ's index is rejected rather than handed over.
pub fn create_patchfile(old_rom: &Vec<u8>, new_rom: &Vec<u8>) -> (r: Result<Vec<u8>, ()>)
    ensures
        (r matches Ok(patch) ==> patch@ == bsdiff_between(old_rom@, new_rom@)),
        old_rom@.len() > MAX_DIFF_SOURCE ==> r is Err,
{
    if old_rom.len() > MAX_DIFF_SOURCE {
        return Err(());
    }
    create_patch_trusted(old_rom, new_rom)
}

/// Applies the patch to `old_rom`. A patch without a well-formed header is
/// rejected rather than handed over.
pub fn apply_patchfile(old_rom: &Vec<u8>, patch: &Vec<u8>) -> (r: Result<Vec<u8>, ()>)
    ensures
        (r matches Ok(new_rom) ==> new_rom@ == bspatch_result(old_rom@, patch@)),
        !patch_header_ok(patch@) ==> r is Err,
{
    if !check_patch_header(patch) {
        return Err(());
    }
    apply_patch_trusted(old_rom, patch)
}

} // verus!
