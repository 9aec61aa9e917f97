//! What relocating an image comes to: the addresses that a relocation stream
//! names, each moved once, and nothing else.

use vstd::prelude::*;

use crate::bytes::{fits, le16, le32, le64, word};
use crate::bytes::{law_store64_reads_back, lemma_le64_bytes, store64};
use crate::reloc::{adjust, apply_blocks, apply_entries, apply_entry, relocate};
use crate::reloc::{REL_ABSOLUTE, REL_DIR64};

verus! {

/// The RVAs that a relocation stream fixes up, in its order, and the defect
/// that ends it if there is one.
pub type Fixups = (Seq<int>, Option<Seq<char>>);

/// What one entry of the page at `page` fixes up in an image of `len` bytes.
pub open spec fn entry_fixups(len: int, page: int, entry: int) -> Fixups {
    let target = page + entry % 0x1000;
    if entry / 0x1000 == REL_ABSOLUTE {
        (seq![], None)
    } else if entry / 0x1000 != REL_DIR64 {
        (seq![], Some("unsupported base-relocation type"@))
    } else if target + 8 > len {
        (seq![], Some("truncated PE header"@))
    } else {
        (seq![target], None)
    }
}

/// What the `count` entries from `at` on fix up.
pub open spec fn entries_fixups(image: Seq<u8>, at: int, count: int, page: int) -> Fixups
    decreases count,
{
    if count <= 0 {
        (seq![], None)
    } else if !fits(image, at, 2) {
        (seq![], Some("truncated PE header"@))
    } else {
        let (first, defect) = entry_fixups(image.len() as int, page, le16(image, at));
        if defect is Some {
            (first, defect)
        } else {
            let (rest, end) = entries_fixups(image, at + 2, count - 1, page);
            (first + rest, end)
        }
    }
}

/// What the blocks from `off` to `end` fix up.
pub open spec fn blocks_fixups(image: Seq<u8>, off: int, end: int) -> Fixups
    decreases end - off,
{
    if off + 8 > end {
        (seq![], None)
    } else if !fits(image, off, 8) {
        (seq![], Some("truncated PE header"@))
    } else {
        let size = le32(image, off + 4);
        if size < 8 || off + size > end {
            (seq![], Some("malformed base-relocation block"@))
        } else {
            let (first, defect) = entries_fixups(
                image,
                off + 8,
                (size - 8) / 2,
                le32(image, off),
            );
            if defect is Some {
                (first, defect)
            } else {
                let (rest, last) = blocks_fixups(image, off + size, end);
                (first + rest, last)
            }
        }
    }
}

/// What the relocation directory `reloc_dir` of `image` fixes up.
pub open spec fn fixups(image: Seq<u8>, reloc_dir: (u32, u32)) -> Fixups {
    blocks_fixups(image, reloc_dir.0 as int, reloc_dir.0 + reloc_dir.1)
}

/// Whether every fixed-up address lies outside the directory itself.
pub open spec fn clear_of(targets: Seq<int>, reloc_dir: (u32, u32)) -> bool {
    outside(targets, reloc_dir.0 as int, reloc_dir.0 + reloc_dir.1)
}

/// Whether no address at `targets` reaches into `[lo, hi)`.
pub open spec fn outside(targets: Seq<int>, lo: int, hi: int) -> bool {
    forall|k: int|
        0 <= k < targets.len() ==> (#[trigger] targets[k]) + 8 <= lo || hi <= targets[k]
}

/// Whether the 8-byte addresses at `s` and `t` do not overlap.
pub open spec fn apart(s: int, t: int) -> bool {
    s + 8 <= t || t + 8 <= s
}

/// Whether fixed-up address `k` overlaps no other.
pub open spec fn alone(targets: Seq<int>, k: int) -> bool {
    forall|j: int| 0 <= j < targets.len() && j != k ==> apart(#[trigger] targets[j], targets[k])
}

/// Whether any two of the fixed-up addresses are the same or do not overlap.
pub open spec fn apart_or_same(targets: Seq<int>) -> bool {
    forall|j: int, k: int|
        0 <= j < k < targets.len() ==> targets[j] == targets[k] || apart(
            #[trigger] targets[j],
            #[trigger] targets[k],
        )
}

/// Whether every fixed-up address lies in an image of `len` bytes.
pub open spec fn in_image(targets: Seq<int>, len: int) -> bool {
    forall|k: int| 0 <= k < targets.len() ==> 0 <= #[trigger] targets[k] <= len - 8
}

/// `image` with each address at `targets` moved by `delta`, in that order.
pub open spec fn adjust_all(image: Seq<u8>, targets: Seq<int>, delta: int) -> Seq<u8>
    decreases targets.len(),
{
    if targets.len() == 0 {
        image
    } else {
        adjust_all(adjust(image, targets[0], delta), targets.skip(1), delta)
    }
}

/// Whether `a` and `b` are equally long and agree on `[lo, hi)`.
spec fn agree(a: Seq<u8>, b: Seq<u8>, lo: int, hi: int) -> bool {
    &&& a.len() == b.len()
    &&& forall|i: int| lo <= i < hi && 0 <= i < a.len() ==> a[i] == b[i]
}

/// Moving one address changes its eight bytes and no others.
pub proof fn lemma_adjust(image: Seq<u8>, target: int, delta: int)
    requires
        0 <= target <= image.len() - 8,
    ensures
        adjust(image, target, delta).len() == image.len(),
        le64(adjust(image, target, delta), target) == (le64(image, target) + delta) % word(),
        forall|i: int| #![trigger adjust(image, target, delta)[i]]
            0 <= i < image.len() && !(target <= i < target + 8) ==> adjust(
                image,
                target,
                delta,
            )[i] == image[i],
{
    reveal(adjust);
    let value = (le64(image, target) + delta) % word();
    law_store64_reads_back(image, target, value);
}

/// Two images that hold the same address at `target` and agree elsewhere are
/// the same.
proof fn lemma_same_image(a: Seq<u8>, b: Seq<u8>, target: int)
    requires
        a.len() == b.len(),
        0 <= target <= a.len() - 8,
        le64(a, target) == le64(b, target),
        forall|i: int| 0 <= i < a.len() && !(target <= i < target + 8) ==> a[i] == b[i],
    ensures
        a == b,
{
    lemma_le64_bytes(a, target, b, target);
    let (x, y) = (a.subrange(target, target + 8), b.subrange(target, target + 8));
    assert forall|i: int| 0 <= i < a.len() implies a[i] == b[i] by {
        if target <= i < target + 8 {
            assert(x[i - target] == y[i - target]);
        }
    }
    assert(a =~= b);
}

/// An address that does not overlap the moved one keeps its value.
proof fn lemma_adjust_apart(image: Seq<u8>, target: int, delta: int, other: int)
    requires
        0 <= target <= image.len() - 8,
        0 <= other <= image.len() - 8,
        apart(target, other),
    ensures
        le64(adjust(image, target, delta), other) == le64(image, other),
{
    lemma_adjust(image, target, delta);
    let next = adjust(image, target, delta);
    lemma_le64_bytes(next, other, image, other);
    assert(next.subrange(other, other + 8) =~= image.subrange(other, other + 8));
}

/// A stream names the same addresses in images that agree on it.
proof fn lemma_entries_stable(a: Seq<u8>, b: Seq<u8>, at: int, count: int, page: int, lo: int, hi: int)
    requires
        agree(a, b, lo, hi),
        0 <= lo <= at,
        count > 0 ==> at + 2 * count <= hi,
    ensures
        entries_fixups(a, at, count, page) == entries_fixups(b, at, count, page),
    decreases count,
{
    if count > 0 && fits(a, at, 2) {
        assert(le16(a, at) == le16(b, at));
        lemma_entries_stable(a, b, at + 2, count - 1, page, lo, hi);
    }
}

proof fn lemma_blocks_stable(a: Seq<u8>, b: Seq<u8>, off: int, end: int, lo: int)
    requires
        agree(a, b, lo, end),
        0 <= lo <= off,
    ensures
        blocks_fixups(a, off, end) == blocks_fixups(b, off, end),
    decreases end - off,
{
    if off + 8 <= end && fits(a, off, 8) {
        assert(le32(a, off) == le32(b, off));
        assert(le32(a, off + 4) == le32(b, off + 4));
        let size = le32(a, off + 4);
        if size >= 8 && off + size <= end {
            lemma_entries_stable(a, b, off + 8, (size - 8) / 2, le32(a, off), lo, end);
            lemma_blocks_stable(a, b, off + size, end, lo);
        }
    }
}

/// Moving addresses outside a span leaves the span alone.
proof fn lemma_adjust_all_agrees(image: Seq<u8>, targets: Seq<int>, delta: int, lo: int, hi: int)
    requires
        in_image(targets, image.len() as int),
        outside(targets, lo, hi),
    ensures
        agree(adjust_all(image, targets, delta), image, lo, hi),
    decreases targets.len(),
{
    if targets.len() > 0 {
        let next = adjust(image, targets[0], delta);
        lemma_adjust(image, targets[0], delta);
        assert(targets.skip(1).len() == targets.len() - 1);
        assert forall|k: int| 0 <= k < targets.len() - 1 implies targets.skip(1)[k] == targets[k
            + 1] by {}
        lemma_adjust_all_agrees(next, targets.skip(1), delta, lo, hi);
    }
}

proof fn lemma_adjust_all_split(image: Seq<u8>, first: Seq<int>, rest: Seq<int>, delta: int)
    ensures
        adjust_all(image, first + rest, delta) == adjust_all(
            adjust_all(image, first, delta),
            rest,
            delta,
        ),
    decreases first.len(),
{
    if first.len() == 0 {
        assert(first + rest =~= rest);
    } else {
        assert((first + rest).skip(1) =~= first.skip(1) + rest);
        lemma_adjust_all_split(adjust(image, first[0], delta), first.skip(1), rest, delta);
    }
}

/// The addresses a stream names lie in the image.
proof fn lemma_entries_in_image(image: Seq<u8>, at: int, count: int, page: int)
    requires
        0 <= page,
    ensures
        in_image(entries_fixups(image, at, count, page).0, image.len() as int),
    decreases count,
{
    if count > 0 && fits(image, at, 2) {
        lemma_entries_in_image(image, at + 2, count - 1, page);
    }
}

proof fn lemma_blocks_in_image(image: Seq<u8>, off: int, end: int)
    ensures
        in_image(blocks_fixups(image, off, end).0, image.len() as int),
    decreases end - off,
{
    if off + 8 <= end && fits(image, off, 8) {
        let size = le32(image, off + 4);
        if size >= 8 && off + size <= end {
            lemma_entries_in_image(image, off + 8, (size - 8) / 2, le32(image, off));
            lemma_blocks_in_image(image, off + size, end);
        }
    }
}

/// Entries that leave the span `[lo, hi)` of the stream alone move the
/// addresses that they name.
proof fn lemma_apply_entries(image: Seq<u8>, at: int, count: int, page: int, delta: int, lo: int, hi: int)
    requires
        0 <= page,
        0 <= lo <= at,
        count > 0 ==> at + 2 * count <= hi,
        outside(entries_fixups(image, at, count, page).0, lo, hi),
    ensures
        ({
            let (targets, defect) = entries_fixups(image, at, count, page);
            apply_entries(image, at, count, page, delta) == (
                adjust_all(image, targets, delta),
                defect,
            )
        }),
    decreases count,
{
    if count > 0 && fits(image, at, 2) {
        let entry = le16(image, at);
        let (first, defect) = entry_fixups(image.len() as int, page, entry);
        if defect is None {
            let (rest, _) = entries_fixups(image, at + 2, count - 1, page);
            let targets = first + rest;
            let next = apply_entry(image, page, entry, delta).0;
            assert forall|k: int| 0 <= k < rest.len() implies rest[k] + 8 <= lo || hi
                <= #[trigger] rest[k] by {
                assert(targets[first.len() + k] == rest[k]);
            }
            if first.len() == 1 {
                assert(targets[0] == first[0]);
                lemma_adjust(image, first[0], delta);
                lemma_entries_stable(next, image, at + 2, count - 1, page, lo, hi);
                assert(targets.skip(1) =~= rest);
            } else {
                assert(targets =~= rest);
            }
            lemma_apply_entries(next, at + 2, count - 1, page, delta, lo, hi);
        }
    }
}

proof fn lemma_apply_blocks(image: Seq<u8>, off: int, end: int, delta: int, lo: int)
    requires
        0 <= lo <= off,
        outside(blocks_fixups(image, off, end).0, lo, end),
    ensures
        ({
            let (targets, defect) = blocks_fixups(image, off, end);
            apply_blocks(image, off, end, delta) == (adjust_all(image, targets, delta), defect)
        }),
    decreases end - off,
{
    if off + 8 <= end && fits(image, off, 8) {
        let size = le32(image, off + 4);
        if size >= 8 && off + size <= end {
            let page = le32(image, off);
            let count = (size - 8) / 2;
            let (first, defect) = entries_fixups(image, off + 8, count, page);
            let (rest, _) = blocks_fixups(image, off + size, end);
            let targets = blocks_fixups(image, off, end).0;
            assert forall|k: int| 0 <= k < first.len() implies first[k] + 8 <= lo || end
                <= #[trigger] first[k] by {
                assert(targets[k] == first[k]);
            }
            lemma_apply_entries(image, off + 8, count, page, delta, lo, end);
            if defect is None {
                assert forall|k: int| 0 <= k < rest.len() implies rest[k] + 8 <= lo || end
                    <= #[trigger] rest[k] by {
                    assert(targets[first.len() + k] == rest[k]);
                }
                let next = adjust_all(image, first, delta);
                lemma_entries_in_image(image, off + 8, count, page);
                lemma_adjust_all_agrees(image, first, delta, lo, end);
                lemma_blocks_stable(next, image, off + size, end, lo);
                lemma_apply_blocks(next, off + size, end, delta, lo);
                lemma_adjust_all_split(image, first, rest, delta);
            }
        }
    }
}

/// An address that overlaps no other is moved once, and no byte outside the
/// addresses changes.
proof fn lemma_adjust_all_values(image: Seq<u8>, targets: Seq<int>, delta: int)
    requires
        in_image(targets, image.len() as int),
    ensures
        adjust_all(image, targets, delta).len() == image.len(),
        forall|k: int|
            0 <= k < targets.len() && #[trigger] alone(targets, k) ==> le64(
                adjust_all(image, targets, delta),
                targets[k],
            ) == (le64(image, targets[k]) + delta) % word(),
        forall|i: int|
            0 <= i < image.len() && !covered(targets, i) ==> #[trigger] adjust_all(
                image,
                targets,
                delta,
            )[i] == image[i],
    decreases targets.len(),
{
    if targets.len() > 0 {
        let first = targets[0];
        let rest = targets.skip(1);
        let next = adjust(image, first, delta);
        let done = adjust_all(image, targets, delta);
        assert forall|k: int| 0 <= k < rest.len() implies rest[k] == targets[k + 1] by {}
        lemma_adjust(image, first, delta);
        lemma_adjust_all_values(next, rest, delta);
        assert forall|k: int| 0 <= k < targets.len() && #[trigger] alone(targets, k) implies le64(
            done,
            targets[k],
        ) == (le64(image, targets[k]) + delta) % word() by {
            if k == 0 {
                assert forall|j: int| 0 <= j < rest.len() implies (#[trigger] rest[j]) + 8 <= first
                    || first + 8 <= rest[j] by {
                    assert(apart(targets[j + 1], targets[0]));
                }
                lemma_adjust_all_agrees(next, rest, delta, first, first + 8);
                lemma_le64_bytes(done, first, next, first);
                assert(done.subrange(first, first + 8) =~= next.subrange(first, first + 8));
            } else {
                assert forall|j: int| 0 <= j < rest.len() && j != k - 1 implies apart(
                    #[trigger] rest[j],
                    rest[k - 1],
                ) by {
                    assert(apart(targets[j + 1], targets[k]));
                }
                assert(alone(rest, k - 1));
                assert(apart(targets[0], targets[k]));
                lemma_adjust_apart(image, first, delta, targets[k]);
            }
        }
        assert forall|i: int| 0 <= i < image.len() && !covered(targets, i) implies #[trigger] done[i]
            == image[i] by {
            assert(!(targets[0] <= i < targets[0] + 8));
            assert(!covered(rest, i)) by {
                if covered(rest, i) {
                    let k = choose|k: int|
                        0 <= k < rest.len() && (#[trigger] rest[k]) <= i < rest[k] + 8;
                    assert(targets[k + 1] == rest[k]);
                }
            }
            assert(next[i] == image[i]);
        }
    }
}

/// Whether byte `i` belongs to one of the addresses at `targets`.
pub open spec fn covered(targets: Seq<int>, i: int) -> bool {
    exists|k: int| 0 <= k < targets.len() && (#[trigger] targets[k]) <= i < targets[k] + 8
}

/// Moving an address by nothing changes nothing.
proof fn lemma_adjust_zero(image: Seq<u8>, target: int)
    requires
        0 <= target <= image.len() - 8,
    ensures
        adjust(image, target, 0) == image,
{
    lemma_adjust(image, target, 0);
    lemma_le64_bytes(image, target, image, target);
    lemma_same_image(adjust(image, target, 0), image, target);
}

proof fn lemma_adjust_all_zero(image: Seq<u8>, targets: Seq<int>)
    requires
        in_image(targets, image.len() as int),
    ensures
        adjust_all(image, targets, 0) == image,
    decreases targets.len(),
{
    if targets.len() > 0 {
        lemma_adjust_zero(image, targets[0]);
        assert forall|k: int| 0 <= k < targets.len() - 1 implies targets.skip(1)[k] == targets[k
            + 1] by {}
        lemma_adjust_all_zero(image, targets.skip(1));
    }
}

proof fn lemma_mod_add(x: int, y: int)
    ensures
        (x % word() + y) % word() == (x + y) % word(),
{
}

/// Two moves of one address add up.
proof fn lemma_adjust_twice(image: Seq<u8>, target: int, a: int, b: int)
    requires
        0 <= target <= image.len() - 8,
    ensures
        adjust(adjust(image, target, a), target, b) == adjust(image, target, a + b),
{
    let once = adjust(image, target, a);
    lemma_adjust(image, target, a);
    lemma_adjust(once, target, b);
    lemma_adjust(image, target, a + b);
    let v = le64(image, target);
    lemma_mod_add(v + a, b);
    lemma_same_image(adjust(once, target, b), adjust(image, target, a + b), target);
}

/// Moves of addresses that are the same or do not overlap may be swapped.
proof fn lemma_adjust_swap(image: Seq<u8>, s: int, a: int, t: int, b: int)
    requires
        0 <= s <= image.len() - 8,
        0 <= t <= image.len() - 8,
        s == t || apart(s, t),
    ensures
        adjust(adjust(image, s, a), t, b) == adjust(adjust(image, t, b), s, a),
{
    if s == t {
        lemma_adjust_twice(image, s, a, b);
        lemma_adjust_twice(image, s, b, a);
    } else {
        let (x, y) = (adjust(image, s, a), adjust(image, t, b));
        let (xy, yx) = (adjust(x, t, b), adjust(y, s, a));
        lemma_adjust(image, s, a);
        lemma_adjust(image, t, b);
        lemma_adjust(x, t, b);
        lemma_adjust(y, s, a);
        lemma_adjust_apart(image, s, a, t);
        lemma_adjust_apart(x, t, b, s);
        lemma_adjust_apart(image, t, b, s);
        lemma_le64_bytes(xy, s, yx, s);
        lemma_adjust_apart(y, s, a, t);
        lemma_le64_bytes(xy, t, yx, t);
        let (p, q) = (xy.subrange(s, s + 8), yx.subrange(s, s + 8));
        let (u, w) = (xy.subrange(t, t + 8), yx.subrange(t, t + 8));
        assert forall|i: int| 0 <= i < image.len() implies xy[i] == yx[i] by {
            if s <= i < s + 8 {
                assert(p[i - s] == q[i - s]);
            } else if t <= i < t + 8 {
                assert(u[i - t] == w[i - t]);
            } else {
                assert(xy[i] == x[i] && x[i] == image[i]);
                assert(yx[i] == y[i] && y[i] == image[i]);
            }
        }
        assert(xy =~= yx);
    }
}

proof fn lemma_adjust_all_swap(image: Seq<u8>, targets: Seq<int>, a: int, t: int, b: int)
    requires
        in_image(targets, image.len() as int),
        0 <= t <= image.len() - 8,
        forall|k: int|
            0 <= k < targets.len() ==> #[trigger] targets[k] == t || apart(t, targets[k]),
    ensures
        adjust_all(adjust(image, t, b), targets, a) == adjust(adjust_all(image, targets, a), t, b),
    decreases targets.len(),
{
    if targets.len() > 0 {
        let first = targets[0];
        let rest = targets.skip(1);
        assert forall|k: int| 0 <= k < rest.len() implies rest[k] == targets[k + 1] by {}
        lemma_adjust(image, first, a);
        lemma_adjust_swap(image, t, b, first, a);
        lemma_adjust_all_swap(adjust(image, first, a), rest, a, t, b);
    }
}

/// Moving every address by `a` and then by `b` moves it by `a + b`.
proof fn lemma_adjust_all_twice(image: Seq<u8>, targets: Seq<int>, a: int, b: int)
    requires
        in_image(targets, image.len() as int),
        apart_or_same(targets),
    ensures
        adjust_all(adjust_all(image, targets, a), targets, b) == adjust_all(image, targets, a + b),
    decreases targets.len(),
{
    if targets.len() > 0 {
        let t = targets[0];
        let rest = targets.skip(1);
        assert forall|k: int| 0 <= k < rest.len() implies rest[k] == targets[k + 1] by {}
        assert forall|k: int| 0 <= k < rest.len() implies #[trigger] rest[k] == t || apart(
            t,
            rest[k],
        ) by {
            assert(targets[0] == targets[k + 1] || apart(targets[0], targets[k + 1]));
        }
        let once = adjust(image, t, a);
        let both = adjust(image, t, a + b);
        lemma_adjust(image, t, a);
        lemma_adjust(image, t, a + b);
        lemma_adjust_twice(image, t, a, b);
        lemma_adjust_all_swap(once, rest, a, t, b);
        lemma_adjust_all_twice(both, rest, a, b);
    }
}

/// Relocating adds `delta` to every address that the directory names and no
/// other named address overlaps, changes no byte outside the named addresses,
/// and stops where the directory is defective: as long as the addresses stay
/// clear of the directory.
pub proof fn law_relocation_moves_each_fixup(image: Seq<u8>, reloc_dir: (u32, u32), delta: int)
    requires
        clear_of(fixups(image, reloc_dir).0, reloc_dir),
    ensures
        ({
            let (targets, defect) = fixups(image, reloc_dir);
            let (moved, reported) = relocate(image, reloc_dir, delta);
            &&& delta != 0 ==> reported == defect
            &&& moved.len() == image.len()
            &&& forall|k: int|
                0 <= k < targets.len() && #[trigger] alone(targets, k) ==> le64(moved, targets[k])
                    == (le64(image, targets[k]) + delta) % word()
            &&& forall|i: int|
                0 <= i < image.len() && !covered(targets, i) ==> #[trigger] moved[i] == image[i]
        }),
{
    let (targets, _) = fixups(image, reloc_dir);
    lemma_relocate(image, reloc_dir, delta);
    lemma_blocks_in_image(image, reloc_dir.0 as int, reloc_dir.0 + reloc_dir.1);
    lemma_adjust_all_values(image, targets, delta);
}

proof fn lemma_relocate(image: Seq<u8>, reloc_dir: (u32, u32), delta: int)
    requires
        clear_of(fixups(image, reloc_dir).0, reloc_dir),
    ensures
        relocate(image, reloc_dir, delta).0 == adjust_all(
            image,
            fixups(image, reloc_dir).0,
            delta,
        ),
        delta != 0 ==> relocate(image, reloc_dir, delta).1 == fixups(image, reloc_dir).1,
{
    let (lo, hi) = (reloc_dir.0 as int, reloc_dir.0 + reloc_dir.1);
    lemma_blocks_in_image(image, lo, hi);
    lemma_apply_blocks(image, lo, hi, delta, lo);
    lemma_adjust_all_zero(image, fixups(image, reloc_dir).0);
}

/// Sliding an image twice is sliding it once by the sum: as long as the
/// addresses that the directory names stay clear of the directory and any two
/// of them are the same or do not overlap. The second slide succeeds exactly
/// when the directory is sound.
pub proof fn law_relocations_add_up(image: Seq<u8>, reloc_dir: (u32, u32), a: int, b: int)
    requires
        clear_of(fixups(image, reloc_dir).0, reloc_dir),
        apart_or_same(fixups(image, reloc_dir).0),
    ensures
        relocate(relocate(image, reloc_dir, a).0, reloc_dir, b).0 == relocate(
            image,
            reloc_dir,
            a + b,
        ).0,
        b != 0 && a + b != 0 ==> relocate(relocate(image, reloc_dir, a).0, reloc_dir, b).1
            == relocate(image, reloc_dir, a + b).1,
        b != 0 ==> relocate(relocate(image, reloc_dir, a).0, reloc_dir, b).1 == fixups(
            image,
            reloc_dir,
        ).1,
{
    let (lo, hi) = (reloc_dir.0 as int, reloc_dir.0 + reloc_dir.1);
    let (targets, _) = fixups(image, reloc_dir);
    let once = relocate(image, reloc_dir, a).0;
    lemma_relocate(image, reloc_dir, a);
    lemma_relocate(image, reloc_dir, a + b);
    lemma_blocks_in_image(image, lo, hi);
    lemma_adjust_all_agrees(image, targets, a, lo, hi);
    lemma_blocks_stable(once, image, lo, hi, lo);
    lemma_relocate(once, reloc_dir, b);
    lemma_adjust_all_twice(image, targets, a, b);
}

/// Sliding an image back undoes the slide, and reports what the directory's
/// defect is, if it has one.
pub proof fn law_relocation_undone(image: Seq<u8>, reloc_dir: (u32, u32), delta: int)
    requires
        clear_of(fixups(image, reloc_dir).0, reloc_dir),
        apart_or_same(fixups(image, reloc_dir).0),
    ensures
        relocate(relocate(image, reloc_dir, delta).0, reloc_dir, -delta).0 == image,
        delta != 0 ==> relocate(relocate(image, reloc_dir, delta).0, reloc_dir, -delta).1 == fixups(
            image,
            reloc_dir,
        ).1,
{
    law_relocations_add_up(image, reloc_dir, delta, -delta);
}

/// Only the slide modulo 2^64 matters.
pub proof fn lemma_relocate_congruent(image: Seq<u8>, reloc_dir: (u32, u32), a: int, b: int)
    requires
        a != 0,
        b != 0,
        a % word() == b % word(),
    ensures
        relocate(image, reloc_dir, a) == relocate(image, reloc_dir, b),
{
    lemma_blocks_congruent(image, reloc_dir.0 as int, reloc_dir.0 + reloc_dir.1, a, b);
}

proof fn lemma_entries_congruent(image: Seq<u8>, at: int, count: int, page: int, a: int, b: int)
    requires
        a % word() == b % word(),
    ensures
        apply_entries(image, at, count, page, a) == apply_entries(image, at, count, page, b),
    decreases count,
{
    if count > 0 && fits(image, at, 2) {
        let entry = le16(image, at);
        let target = page + entry % 0x1000;
        let v = le64(image, target);
        reveal(adjust);
        assert((v + a) % word() == (v + b) % word());
        assert(apply_entry(image, page, entry, a) == apply_entry(image, page, entry, b));
        lemma_entries_congruent(
            apply_entry(image, page, entry, a).0,
            at + 2,
            count - 1,
            page,
            a,
            b,
        );
    }
}

proof fn lemma_blocks_congruent(image: Seq<u8>, off: int, end: int, a: int, b: int)
    requires
        a % word() == b % word(),
    ensures
        apply_blocks(image, off, end, a) == apply_blocks(image, off, end, b),
    decreases end - off,
{
    if off + 8 <= end && fits(image, off, 8) {
        let size = le32(image, off + 4);
        if size >= 8 && off + size <= end {
            let page = le32(image, off);
            let count = (size - 8) / 2;
            lemma_entries_congruent(image, off + 8, count, page, a, b);
            lemma_blocks_congruent(
                apply_entries(image, off + 8, count, page, a).0,
                off + size,
                end,
                a,
                b,
            );
        }
    }
}

/// Relocating never changes an image's length.
pub proof fn law_relocation_keeps_length(image: Seq<u8>, reloc_dir: (u32, u32), delta: int)
    ensures
        relocate(image, reloc_dir, delta).0.len() == image.len(),
{
    lemma_blocks_keep_length(image, reloc_dir.0 as int, reloc_dir.0 + reloc_dir.1, delta);
}

proof fn lemma_entries_keep_length(image: Seq<u8>, at: int, count: int, page: int, delta: int)
    ensures
        apply_entries(image, at, count, page, delta).0.len() == image.len(),
    decreases count,
{
    if count > 0 && fits(image, at, 2) {
        let entry = le16(image, at);
        reveal(adjust);
        reveal(store64);
        lemma_entries_keep_length(
            apply_entry(image, page, entry, delta).0,
            at + 2,
            count - 1,
            page,
            delta,
        );
    }
}

proof fn lemma_blocks_keep_length(image: Seq<u8>, off: int, end: int, delta: int)
    ensures
        apply_blocks(image, off, end, delta).0.len() == image.len(),
    decreases end - off,
{
    if off + 8 <= end && fits(image, off, 8) {
        let size = le32(image, off + 4);
        if size >= 8 && off + size <= end {
            let page = le32(image, off);
            let count = (size - 8) / 2;
            lemma_entries_keep_length(image, off + 8, count, page, delta);
            lemma_blocks_keep_length(
                apply_entries(image, off + 8, count, page, delta).0,
                off + size,
                end,
                delta,
            );
        }
    }
}

} // verus!
