//! Base relocations of a mapped PE image.
//!
//! The relocation stream is a sequence of blocks, each an 8-byte header
//! (`PageRVA`, `BlockSize`) followed by `(BlockSize - 8) / 2` 16-bit entries
//! whose top four bits are the type and low twelve the offset within the page.

use vstd::prelude::*;

use crate::bytes::{fits, le16, le32, le64, store64, word, write_u64};
use crate::error::{reports, Error};
use crate::pe::{bad, read_u16, read_u32, read_u64};

verus! {

/// The relocation type that pads a block; it is skipped.
pub const REL_ABSOLUTE: u16 = 0;

/// The relocation type that adjusts a full 64-bit address by the load delta,
/// the only kind an x86-64 image emits.
pub const REL_DIR64: u16 = 10;

/// An image part-way through relocation, and what stopped it if anything did.
pub type Relocated = (Seq<u8>, Option<Seq<char>>);

/// `image` with the 64-bit address at `target` moved by `delta`, modulo 2^64.
#[verifier::opaque]
pub open spec fn adjust(image: Seq<u8>, target: int, delta: int) -> Seq<u8> {
    store64(image, target, (le64(image, target) + delta) % word())
}

/// One relocation entry of the page at `page` applied to `image`.
pub open spec fn apply_entry(image: Seq<u8>, page: int, entry: int, delta: int) -> Relocated {
    let target = page + entry % 0x1000;
    if entry / 0x1000 == REL_ABSOLUTE {
        (image, None)
    } else if entry / 0x1000 != REL_DIR64 {
        (image, Some("unsupported base-relocation type"@))
    } else if !fits(image, target, 8) {
        (image, Some("truncated PE header"@))
    } else {
        (adjust(image, target, delta), None)
    }
}

/// The `count` relocation entries from `at` on, each read from the image as
/// the ones before it left it.
pub open spec fn apply_entries(image: Seq<u8>, at: int, count: int, page: int, delta: int) -> Relocated
    decreases count,
{
    if count <= 0 {
        (image, None)
    } else if !fits(image, at, 2) {
        (image, Some("truncated PE header"@))
    } else {
        let (next, defect) = apply_entry(image, page, le16(image, at), delta);
        if defect is Some {
            (next, defect)
        } else {
            apply_entries(next, at + 2, count - 1, page, delta)
        }
    }
}

/// The relocation blocks from `off` to `end`, each read from the image as the
/// ones before it left it.
pub open spec fn apply_blocks(image: Seq<u8>, off: int, end: int, delta: int) -> Relocated
    decreases end - off,
{
    if off + 8 > end {
        (image, None)
    } else if !fits(image, off, 8) {
        (image, Some("truncated PE header"@))
    } else {
        let size = le32(image, off + 4);
        if size < 8 || off + size > end {
            (image, Some("malformed base-relocation block"@))
        } else {
            let (next, defect) = apply_entries(
                image,
                off + 8,
                (size - 8) / 2,
                le32(image, off),
                delta,
            );
            if defect is Some {
                (next, defect)
            } else {
                apply_blocks(next, off + size, end, delta)
            }
        }
    }
}

/// The image that relocating by `delta` leaves, and the defect that stopped it
/// if there is one. Nothing moves under a zero delta or without a directory.
pub open spec fn relocate(image: Seq<u8>, reloc_dir: (u32, u32), delta: int) -> Relocated {
    if delta == 0 || reloc_dir.1 == 0 {
        (image, None)
    } else {
        apply_blocks(image, reloc_dir.0 as int, reloc_dir.0 + reloc_dir.1, delta)
    }
}

/// Apply the base relocations in the mapped image, adjusting every fixed-up
/// address by `delta = actual_base - image_base`. `image` is the mapped image,
/// indexed by RVA (`image[0]` is the load base); `reloc_dir` is the
/// base-relocation directory `(rva, size)`. A zero delta (the image landed at
/// its preferred base) is a no-op, as is an absent directory.
pub fn apply_relocations(image: &mut [u8], reloc_dir: (u32, u32), delta: i64) -> (r: Result<
    (),
    Error,
>)
    ensures
        final(image)@ == relocate(old(image)@, reloc_dir, delta as int).0,
        reports(r, relocate(old(image)@, reloc_dir, delta as int).1),
{
    let (rva, size) = reloc_dir;
    if delta == 0 || size == 0 {
        return Ok(());
    }
    let ghost goal = relocate(image@, reloc_dir, delta as int);
    let mut off: u64 = rva as u64;
    let end: u64 = off + size as u64;
    while off + 8 <= end
        invariant
            off <= end <= 0x2_0000_0000,
            goal == relocate(old(image)@, reloc_dir, delta as int),
            goal == apply_blocks(image@, off as int, end as int, delta as int),
        decreases end - off,
    {
        let page_rva: u64 = read_u32(image, off)? as u64;
        let block_size: u64 = read_u32(image, off + 4)? as u64;
        if block_size < 8 || off + block_size > end {
            return Err(bad("malformed base-relocation block"));
        }
        let entries: u64 = (block_size - 8) / 2;
        let ghost block = apply_entries(
            image@,
            off + 8,
            entries as int,
            page_rva as int,
            delta as int,
        );
        let mut i: u64 = 0;
        while i < entries
            invariant
                i <= entries <= 0x8000_0000,
                off <= end <= 0x2_0000_0000,
                page_rva <= 0xFFFF_FFFF,
                block == apply_entries(
                    image@,
                    off + 8 + 2 * i,
                    entries - i,
                    page_rva as int,
                    delta as int,
                ),
                goal == relocate(old(image)@, reloc_dir, delta as int),
                block.1 is Some ==> goal == block,
                block.1 is None ==> goal == apply_blocks(
                    block.0,
                    off + block_size,
                    end as int,
                    delta as int,
                ),
            decreases entries - i,
        {
            apply_one(image, off + 8 + i * 2, page_rva, delta)?;
            i = i + 1;
        }
        assert(block == (image@, None::<Seq<char>>));
        off = off + block_size;
    }
    Ok(())
}

/// `address` moved by `delta`, modulo 2^64.
fn moved_address(address: u64, delta: i64) -> (r: u64)
    ensures
        r == (address + delta) % word(),
{
    assert(delta as u64 == (delta as int) % 0x1_0000_0000_0000_0000) by (bit_vector);
    address.wrapping_add(delta as u64)
}

/// The relocation entry at `at`, for the page at `page_rva`.
fn apply_one(image: &mut [u8], at: u64, page_rva: u64, delta: i64) -> (r: Result<(), Error>)
    requires
        page_rva <= 0xFFFF_FFFF,
    ensures
        ({
            let (next, defect) = if !fits(old(image)@, at as int, 2) {
                (old(image)@, Some("truncated PE header"@))
            } else {
                apply_entry(
                    old(image)@,
                    page_rva as int,
                    le16(old(image)@, at as int),
                    delta as int,
                )
            };
            final(image)@ == next && reports(r, defect)
        }),
{
    let entry: u16 = read_u16(image, at)?;
    let kind: u16 = entry >> 12u16;
    let page_off: u64 = (entry & 0x0FFF) as u64;
    assert(entry >> 12u16 == entry / 0x1000) by (bit_vector);
    assert(entry & 0x0FFF == entry % 0x1000) by (bit_vector);
    if kind == REL_ABSOLUTE {
        return Ok(());
    }
    if kind != REL_DIR64 {
        return Err(bad("unsupported base-relocation type"));
    }
    let target: u64 = page_rva + page_off;
    let before: u64 = read_u64(image, target)?;
    assert(target + 8 <= image.len());
    let after: u64 = moved_address(before, delta);
    write_u64(image, target as usize, after);
    proof {
        reveal(adjust);
    }
    Ok(())
}

} // verus!
