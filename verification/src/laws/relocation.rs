//! Relocation streams, byte by byte.

use vstd::prelude::*;

use crate::fixups::{alone, apart, blocks_fixups, clear_of, covered, entries_fixups, fixups};
use crate::fixups::law_relocation_moves_each_fixup;
use crate::reloc::relocate;

verus! {

/// Whether the `n` 16-bit entries from `at` on name `targets` in the page at
/// `page`: an entry below 0x1000 is padding, and an entry of 0xA000 plus an
/// offset below 0x1000 names the address at that offset in the page.
pub open spec fn entries_name(
    image: Seq<u8>,
    at: int,
    n: int,
    page: int,
    targets: Seq<int>,
) -> bool
    decreases n,
{
    if n <= 0 {
        targets.len() == 0
    } else {
        let entry = image[at] + 0x100 * image[at + 1];
        &&& at + 2 <= image.len()
        &&& {
            ||| entry < 0x1000 && entries_name(image, at + 2, n - 1, page, targets)
            ||| {
                &&& targets.len() > 0
                &&& 0 <= targets[0] - page < 0x1000
                &&& entry == 0xA000 + (targets[0] - page)
                &&& entries_name(image, at + 2, n - 1, page, targets.skip(1))
            }
        }
    }
}

/// Whether the blocks from `off` to `end` name `targets`: each is a page, its
/// own size in bytes, and entries for the rest of that size. Fewer than eight
/// bytes are no block.
pub open spec fn blocks_name(image: Seq<u8>, off: int, end: int, targets: Seq<int>) -> bool
    decreases end - off,
{
    if end - off < 8 {
        targets.len() == 0
    } else {
        let page = image[off] + 0x100 * image[off + 1] + 0x1_0000 * image[off + 2] + 0x100_0000
            * image[off + 3];
        let size = image[off + 4] + 0x100 * image[off + 5] + 0x1_0000 * image[off + 6]
            + 0x100_0000 * image[off + 7];
        &&& off + 8 <= image.len()
        &&& 8 <= size <= end - off
        &&& exists|n: int|
            #![trigger targets.take(n)]
            {
                &&& 0 <= n <= targets.len()
                &&& entries_name(image, off + 8, (size - 8) / 2, page, targets.take(n))
                &&& blocks_name(image, off + size, end, targets.skip(n))
            }
    }
}

proof fn lemma_entries_name(
    image: Seq<u8>,
    at: int,
    n: int,
    count: int,
    page: int,
    targets: Seq<int>,
)
    requires
        entries_name(image, at, n, page, targets),
        0 <= n <= count,
        0 <= page,
        forall|k: int| 0 <= k < targets.len() ==> (#[trigger] targets[k]) + 8 <= image.len(),
    ensures
        entries_fixups(image, at, count, page).0 == targets + entries_fixups(
            image,
            at + 2 * n,
            count - n,
            page,
        ).0,
        entries_fixups(image, at, count, page).1 == entries_fixups(
            image,
            at + 2 * n,
            count - n,
            page,
        ).1,
    decreases n,
{
    let rest = entries_fixups(image, at + 2 * n, count - n, page).0;
    if n <= 0 {
        assert(targets + rest =~= rest);
    } else {
        let entry = image[at] + 0x100 * image[at + 1];
        let (tail, _) = entries_fixups(image, at + 2, count - 1, page);
        if entry < 0x1000 && entries_name(image, at + 2, n - 1, page, targets) {
            lemma_entries_name(image, at + 2, n - 1, count - 1, page, targets);
            assert(Seq::<int>::empty() + tail =~= tail);
        } else {
            let d = targets[0] - page;
            assert((0xA000 + d) / 0x1000 == 10 && (0xA000 + d) % 0x1000 == d);
            assert(targets[0] + 8 <= image.len());
            lemma_entries_name(image, at + 2, n - 1, count - 1, page, targets.skip(1));
            assert(seq![targets[0]] + (targets.skip(1) + rest) =~= targets + rest);
        }
    }
}

proof fn lemma_blocks_name(image: Seq<u8>, off: int, end: int, targets: Seq<int>)
    requires
        blocks_name(image, off, end, targets),
        forall|k: int| 0 <= k < targets.len() ==> (#[trigger] targets[k]) + 8 <= image.len(),
    ensures
        blocks_fixups(image, off, end) == (targets, None::<Seq<char>>),
    decreases end - off,
{
    if end - off >= 8 {
        let page = image[off] + 0x100 * image[off + 1] + 0x1_0000 * image[off + 2] + 0x100_0000
            * image[off + 3];
        let size = image[off + 4] + 0x100 * image[off + 5] + 0x1_0000 * image[off + 6]
            + 0x100_0000 * image[off + 7];
        let n = choose|n: int|
            #![trigger targets.take(n)]
            {
                &&& 0 <= n <= targets.len()
                &&& entries_name(image, off + 8, (size - 8) / 2, page, targets.take(n))
                &&& blocks_name(image, off + size, end, targets.skip(n))
            };
        let count = (size - 8) / 2;
        lemma_entries_name(image, off + 8, count, count, page, targets.take(n));
        assert(entries_fixups(image, off + 8 + 2 * count, 0, page).0 =~= Seq::<int>::empty());
        assert(targets.take(n) + Seq::<int>::empty() =~= targets.take(n));
        lemma_blocks_name(image, off + size, end, targets.skip(n));
        assert(targets.take(n) + targets.skip(n) =~= targets);
    } else {
        assert(targets =~= Seq::<int>::empty());
    }
}

/// Relocating by a directory that names `targets` succeeds, adds the slide to
/// each of the 64-bit addresses there that overlaps no other, modulo 2^64, and
/// changes no byte outside them.
pub proof fn law_named_addresses_move(
    image: Seq<u8>,
    reloc_dir: (u32, u32),
    delta: int,
    targets: Seq<int>,
)
    requires
        blocks_name(image, reloc_dir.0 as int, reloc_dir.0 + reloc_dir.1, targets),
        forall|k: int|
            0 <= k < targets.len() ==> {
                &&& (#[trigger] targets[k]) + 8 <= image.len()
                &&& targets[k] + 8 <= reloc_dir.0 || reloc_dir.0 + reloc_dir.1 <= targets[k]
            },
    ensures
        ({
            let u64_at = |s: Seq<u8>, o: int|
                s[o] + 0x100 * s[o + 1] + 0x1_0000 * s[o + 2] + 0x100_0000 * s[o + 3]
                    + 0x1_0000_0000 * s[o + 4] + 0x100_0000_0000 * s[o + 5] + 0x1_0000_0000_0000
                    * s[o + 6] + 0x100_0000_0000_0000 * s[o + 7];
            let (moved, defect) = relocate(image, reloc_dir, delta);
            &&& defect is None
            &&& moved.len() == image.len()
            &&& forall|k: int|
                #![trigger targets[k]]
                0 <= k < targets.len() && (forall|j: int|
                    0 <= j < targets.len() && j != k ==> (#[trigger] targets[j]) + 8 <= targets[k]
                        || targets[k] + 8 <= targets[j]) ==> u64_at(moved, targets[k]) == (u64_at(
                    image,
                    targets[k],
                ) + delta) % 0x1_0000_0000_0000_0000
            &&& forall|p: int|
                0 <= p < image.len() && (forall|k: int|
                    0 <= k < targets.len() ==> !((#[trigger] targets[k]) <= p < targets[k] + 8))
                    ==> #[trigger] moved[p] == image[p]
        }),
{
    lemma_blocks_name(image, reloc_dir.0 as int, reloc_dir.0 + reloc_dir.1, targets);
    lemma_moved(image, reloc_dir, delta, targets);
}

/// What relocating does to the addresses that a directory names, as bytes.
proof fn lemma_moved(image: Seq<u8>, reloc_dir: (u32, u32), delta: int, targets: Seq<int>)
    requires
        fixups(image, reloc_dir).0 == targets,
        clear_of(targets, reloc_dir),
    ensures
        ({
            let u64_at = |s: Seq<u8>, o: int|
                s[o] + 0x100 * s[o + 1] + 0x1_0000 * s[o + 2] + 0x100_0000 * s[o + 3]
                    + 0x1_0000_0000 * s[o + 4] + 0x100_0000_0000 * s[o + 5] + 0x1_0000_0000_0000
                    * s[o + 6] + 0x100_0000_0000_0000 * s[o + 7];
            let (moved, defect) = relocate(image, reloc_dir, delta);
            &&& delta != 0 ==> defect == fixups(image, reloc_dir).1
            &&& delta == 0 ==> defect is None
            &&& moved.len() == image.len()
            &&& forall|k: int|
                #![trigger targets[k]]
                0 <= k < targets.len() && (forall|j: int|
                    0 <= j < targets.len() && j != k ==> (#[trigger] targets[j]) + 8 <= targets[k]
                        || targets[k] + 8 <= targets[j]) ==> u64_at(moved, targets[k]) == (u64_at(
                    image,
                    targets[k],
                ) + delta) % 0x1_0000_0000_0000_0000
            &&& forall|p: int|
                0 <= p < image.len() && (forall|k: int|
                    0 <= k < targets.len() ==> !((#[trigger] targets[k]) <= p < targets[k] + 8))
                    ==> #[trigger] moved[p] == image[p]
        }),
{
    law_relocation_moves_each_fixup(image, reloc_dir, delta);
    let moved = relocate(image, reloc_dir, delta).0;
    assert forall|k: int|
        #![trigger targets[k]]
        0 <= k < targets.len() && (forall|j: int|
            0 <= j < targets.len() && j != k ==> (#[trigger] targets[j]) + 8 <= targets[k]
                || targets[k] + 8 <= targets[j]) implies alone(targets, k) by {
        assert forall|j: int| 0 <= j < targets.len() && j != k implies apart(
            #[trigger] targets[j],
            targets[k],
        ) by {}
    }
    assert forall|s: Seq<u8>, o: int| #[trigger] crate::bytes::le64(s, o) == s[o] + 0x100 * s[o + 1]
        + 0x1_0000 * s[o + 2] + 0x100_0000 * s[o + 3] + 0x1_0000_0000 * s[o + 4] + 0x100_0000_0000
        * s[o + 5] + 0x1_0000_0000_0000 * s[o + 6] + 0x100_0000_0000_0000 * s[o + 7] by {}
    assert forall|p: int|
        0 <= p < image.len() && (forall|k: int|
            0 <= k < targets.len() ==> !((#[trigger] targets[k]) <= p < targets[k] + 8)) implies
        #[trigger] moved[p] == image[p] by {
        assert(!covered(targets, p));
    }
}

/// A directory of one block for the page at `page`, with the one entry 0xA000
/// plus `d` and as much padding as it likes, adds the slide to the 64-bit
/// address at `page + d`, modulo 2^64, and changes nothing else: for every
/// offset below 0x1000.
pub proof fn law_one_entry_moves_one_address(
    image: Seq<u8>,
    rva: u32,
    page: int,
    d: int,
    padding: int,
    delta: int,
)
    requires
        0 <= d < 0x1000,
        0 <= padding < 0x1000_0000,
        rva + 10 + 2 * padding <= image.len(),
        page == image[rva as int] + 0x100 * image[rva + 1] + 0x1_0000 * image[rva + 2]
            + 0x100_0000 * image[rva + 3],
        10 + 2 * padding == image[rva + 4] + 0x100 * image[rva + 5] + 0x1_0000 * image[rva + 6]
            + 0x100_0000 * image[rva + 7],
        image[rva + 8] + 0x100 * image[rva + 9] == 0xA000 + d,
        forall|i: int| rva + 10 <= i < rva + 10 + 2 * padding ==> #[trigger] image[i] == 0,
        page + d + 8 <= image.len(),
        page + d + 8 <= rva || rva + 10 + 2 * padding <= page + d,
    ensures
        ({
            let u64_at = |s: Seq<u8>, o: int|
                s[o] + 0x100 * s[o + 1] + 0x1_0000 * s[o + 2] + 0x100_0000 * s[o + 3]
                    + 0x1_0000_0000 * s[o + 4] + 0x100_0000_0000 * s[o + 5] + 0x1_0000_0000_0000
                    * s[o + 6] + 0x100_0000_0000_0000 * s[o + 7];
            let (moved, defect) = relocate(image, (rva, (10 + 2 * padding) as u32), delta);
            &&& defect is None
            &&& moved.len() == image.len()
            &&& u64_at(moved, page + d) == (u64_at(image, page + d) + delta)
                % 0x1_0000_0000_0000_0000
            &&& forall|p: int|
                0 <= p < image.len() && !(page + d <= p < page + d + 8) ==> #[trigger] moved[p]
                    == image[p]
        }),
{
    let targets = seq![page + d];
    let dir = (rva, (10 + 2 * padding) as u32);
    let end = rva + 10 + 2 * padding;
    lemma_padding(image, rva + 10, padding, page);
    assert(targets.skip(1) =~= Seq::<int>::empty());
    assert(entries_name(image, rva + 8, 1 + padding, page, targets));
    assert(targets.take(1) =~= targets);
    assert(blocks_name(image, end, end, targets.skip(1)));
    assert((10 + 2 * padding - 8) / 2 == 1 + padding);
    assert(blocks_name(image, rva as int, end, targets));
    law_named_addresses_move(image, dir, delta, targets);
    assert(targets[0] == page + d);
}

proof fn lemma_padding(image: Seq<u8>, at: int, n: int, page: int)
    requires
        0 <= at,
        0 <= n,
        at + 2 * n <= image.len(),
        forall|i: int| at <= i < at + 2 * n ==> #[trigger] image[i] == 0,
    ensures
        entries_name(image, at, n, page, Seq::<int>::empty()),
    decreases n,
{
    if n > 0 {
        lemma_padding(image, at + 2, n - 1, page);
    }
}

/// Nothing moves under a zero slide, or by a directory that is too short for a
/// block.
pub proof fn law_nothing_to_relocate(image: Seq<u8>, reloc_dir: (u32, u32), delta: int)
    requires
        delta == 0 || reloc_dir.1 < 8,
    ensures
        relocate(image, reloc_dir, delta).0 == image,
        relocate(image, reloc_dir, delta).1 is None,
{
}

/// A directory whose first block header is cut off by the image's end, or gives
/// a size below its own eight bytes or past the directory's end, moves nothing
/// and is refused.
pub proof fn law_bad_blocks_are_refused(image: Seq<u8>, reloc_dir: (u32, u32), delta: int)
    requires
        delta != 0,
        reloc_dir.1 >= 8,
    ensures
        reloc_dir.0 + 8 > image.len() ==> relocate(image, reloc_dir, delta) == (
            image,
            Some("truncated PE header"@),
        ),
        reloc_dir.0 + 8 <= image.len() ==> {
            let size = image[reloc_dir.0 + 4] + 0x100 * image[reloc_dir.0 + 5] + 0x1_0000
                * image[reloc_dir.0 + 6] + 0x100_0000 * image[reloc_dir.0 + 7];
            size < 8 || size > reloc_dir.1 ==> relocate(image, reloc_dir, delta) == (
                image,
                Some("malformed base-relocation block"@),
            )
        },
{
}

/// A directory is its first block and then the rest: relocating by it is
/// relocating by the one and then by the other, unless the first fails.
pub proof fn law_blocks_are_applied_in_turn(
    image: Seq<u8>,
    rva: u32,
    first: u32,
    rest: u32,
    delta: int,
)
    requires
        rva + 8 <= image.len(),
        first == image[rva + 4] + 0x100 * image[rva + 5] + 0x1_0000 * image[rva + 6] + 0x100_0000
            * image[rva + 7],
        8 <= first,
        rva + first <= u32::MAX,
        first + rest <= u32::MAX,
    ensures
        ({
            let whole = relocate(image, (rva, (first + rest) as u32), delta);
            let (once, defect) = relocate(image, (rva, first), delta);
            &&& defect is Some ==> whole == (once, defect)
            &&& defect is None ==> whole == relocate(once, ((rva + first) as u32, rest), delta)
        }),
{
    reveal_with_fuel(crate::reloc::apply_blocks, 2);
}

/// In a first block whose first `m` entries name `targets`, an entry `m` that
/// is neither padding nor 0xA000 plus an offset is not supported, and one that
/// lies past the image or names an address past it is cut off. What comes
/// before it has moved, and nothing else.
pub proof fn law_bad_entries_are_refused(
    image: Seq<u8>,
    reloc_dir: (u32, u32),
    delta: int,
    targets: Seq<int>,
    m: int,
)
    requires
        delta != 0,
        reloc_dir.0 + 8 <= image.len(),
        ({
            let page = image[reloc_dir.0 as int] + 0x100 * image[reloc_dir.0 + 1] + 0x1_0000
                * image[reloc_dir.0 + 2] + 0x100_0000 * image[reloc_dir.0 + 3];
            let size = image[reloc_dir.0 + 4] + 0x100 * image[reloc_dir.0 + 5] + 0x1_0000
                * image[reloc_dir.0 + 6] + 0x100_0000 * image[reloc_dir.0 + 7];
            let at = reloc_dir.0 + 8 + 2 * m;
            let entry = image[at] + 0x100 * image[at + 1];
            &&& 8 <= size <= reloc_dir.1
            &&& 0 <= m
            &&& 10 + 2 * m <= size
            &&& entries_name(image, reloc_dir.0 + 8, m, page, targets)
            &&& {
                ||| at + 2 > image.len()
                ||| 0x1000 <= entry < 0xA000 || 0xB000 <= entry
                ||| 0xA000 <= entry < 0xB000 && page + (entry - 0xA000) + 8 > image.len()
            }
        }),
        forall|k: int|
            0 <= k < targets.len() ==> {
                &&& (#[trigger] targets[k]) + 8 <= image.len()
                &&& targets[k] + 8 <= reloc_dir.0 || reloc_dir.0 + reloc_dir.1 <= targets[k]
            },
    ensures
        ({
            let at = reloc_dir.0 + 8 + 2 * m;
            let entry = image[at] + 0x100 * image[at + 1];
            let u64_at = |s: Seq<u8>, o: int|
                s[o] + 0x100 * s[o + 1] + 0x1_0000 * s[o + 2] + 0x100_0000 * s[o + 3]
                    + 0x1_0000_0000 * s[o + 4] + 0x100_0000_0000 * s[o + 5] + 0x1_0000_0000_0000
                    * s[o + 6] + 0x100_0000_0000_0000 * s[o + 7];
            let (moved, defect) = relocate(image, reloc_dir, delta);
            &&& at + 2 > image.len() ==> defect == Some("truncated PE header"@)
            &&& at + 2 <= image.len() && 0xA000 <= entry < 0xB000 ==> defect == Some(
                "truncated PE header"@,
            )
            &&& at + 2 <= image.len() && !(0xA000 <= entry < 0xB000) ==> defect == Some(
                "unsupported base-relocation type"@,
            )
            &&& moved.len() == image.len()
            &&& forall|k: int|
                #![trigger targets[k]]
                0 <= k < targets.len() && (forall|j: int|
                    0 <= j < targets.len() && j != k ==> (#[trigger] targets[j]) + 8 <= targets[k]
                        || targets[k] + 8 <= targets[j]) ==> u64_at(moved, targets[k]) == (u64_at(
                    image,
                    targets[k],
                ) + delta) % 0x1_0000_0000_0000_0000
            &&& forall|p: int|
                0 <= p < image.len() && (forall|k: int|
                    0 <= k < targets.len() ==> !((#[trigger] targets[k]) <= p < targets[k] + 8))
                    ==> #[trigger] moved[p] == image[p]
        }),
{
    let off = reloc_dir.0 as int;
    let page = image[off] + 0x100 * image[off + 1] + 0x1_0000 * image[off + 2] + 0x100_0000
        * image[off + 3];
    let size = image[off + 4] + 0x100 * image[off + 5] + 0x1_0000 * image[off + 6] + 0x100_0000
        * image[off + 7];
    let count = (size - 8) / 2;
    let at = off + 8 + 2 * m;
    let entry = image[at] + 0x100 * image[at + 1];
    assert(m < count);
    lemma_entries_name(image, off + 8, m, count, page, targets);
    assert(0xA000 <= entry < 0xB000 ==> entry / 0x1000 == 10 && entry % 0x1000 == entry - 0xA000);
    assert(entry < 0x1000 <==> entry / 0x1000 == 0);
    assert(0xA000 <= entry < 0xB000 <==> entry / 0x1000 == 10);
    assert(entries_fixups(image, at, count - m, page).0 =~= Seq::<int>::empty());
    assert(targets + Seq::<int>::empty() =~= targets);
    lemma_moved(image, reloc_dir, delta, targets);
}

} // verus!
