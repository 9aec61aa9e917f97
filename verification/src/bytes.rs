//! Little-endian fields in a byte buffer.

use vstd::prelude::*;

verus! {

/// One more than the largest 64-bit word.
pub open spec fn word() -> int {
    0x1_0000_0000_0000_0000
}

/// Whether the `n` bytes at `off` all lie in `buf`.
pub open spec fn fits(buf: Seq<u8>, off: int, n: int) -> bool {
    off + n <= buf.len()
}

/// The 16-bit little-endian value at `off`.
pub open spec fn le16(buf: Seq<u8>, off: int) -> int {
    buf[off] + 0x100 * buf[off + 1]
}

/// The 32-bit little-endian value at `off`.
pub open spec fn le32(buf: Seq<u8>, off: int) -> int {
    le16(buf, off) + 0x1_0000 * le16(buf, off + 2)
}

/// The 64-bit little-endian value at `off`.
pub open spec fn le64(buf: Seq<u8>, off: int) -> int {
    le32(buf, off) + 0x1_0000_0000 * le32(buf, off + 4)
}

/// The eight bytes of `value`, least significant first.
pub open spec fn le_bytes(value: int) -> Seq<u8> {
    seq![
        (value % 0x100) as u8,
        (value / 0x100 % 0x100) as u8,
        (value / 0x1_0000 % 0x100) as u8,
        (value / 0x100_0000 % 0x100) as u8,
        (value / 0x1_0000_0000 % 0x100) as u8,
        (value / 0x100_0000_0000 % 0x100) as u8,
        (value / 0x1_0000_0000_0000 % 0x100) as u8,
        (value / 0x100_0000_0000_0000 % 0x100) as u8,
    ]
}

/// `buf` with `src` written over it from `at` on.
pub open spec fn overwrite(buf: Seq<u8>, at: int, src: Seq<u8>) -> Seq<u8> {
    Seq::new(
        buf.len(),
        |i: int|
            if at <= i < at + src.len() {
                src[i - at]
            } else {
                buf[i]
            },
    )
}

/// `buf` with the 64-bit `value` stored little-endian at `off`.
#[verifier::opaque]
pub open spec fn store64(buf: Seq<u8>, off: int, value: int) -> Seq<u8> {
    overwrite(buf, off, le_bytes(value))
}

/// A 64-bit value is the weighted sum of its bytes.
proof fn lemma_byte_sum(value: int)
    requires
        0 <= value < word(),
    ensures
        le64(le_bytes(value), 0) == value,
{
    let q1 = value / 0x100;
    let q2 = q1 / 0x100;
    let q3 = q2 / 0x100;
    let q4 = q3 / 0x100;
    let q5 = q4 / 0x100;
    let q6 = q5 / 0x100;
    let q7 = q6 / 0x100;
    assert(value / 0x1_0000 == q2);
    assert(value / 0x100_0000 == q3);
    assert(value / 0x1_0000_0000 == q4);
    assert(value / 0x100_0000_0000 == q5);
    assert(value / 0x1_0000_0000_0000 == q6);
    assert(value / 0x100_0000_0000_0000 == q7);
    let b = le_bytes(value);
    assert(le16(b, 0) == value - 0x1_0000 * q2);
    assert(le16(b, 2) == q2 - 0x1_0000 * q4);
    assert(le16(b, 4) == q4 - 0x1_0000 * q6);
    assert(0 <= q6 < 0x1_0000);
    assert(le16(b, 6) == q6);
}

/// What is stored is what is read back, and no other byte changes.
pub proof fn law_store64_reads_back(buf: Seq<u8>, off: int, value: int)
    requires
        0 <= off,
        fits(buf, off, 8),
        0 <= value < word(),
    ensures
        le64(store64(buf, off, value), off) == value,
        store64(buf, off, value).len() == buf.len(),
        forall|i: int| #![trigger store64(buf, off, value)[i]]
            0 <= i < buf.len() && !(off <= i < off + 8) ==> store64(buf, off, value)[i] == buf[i],
{
    reveal(store64);
    let s = store64(buf, off, value);
    lemma_byte_sum(value);
    lemma_le64_bytes(s, off, le_bytes(value), 0);
    assert(s.subrange(off, off + 8) =~= le_bytes(value).subrange(0, 8));
}

/// A 64-bit field is in range, and two of them are equal exactly when their
/// bytes are.
pub proof fn lemma_le64_bytes(a: Seq<u8>, i: int, b: Seq<u8>, j: int)
    requires
        0 <= i,
        0 <= j,
        fits(a, i, 8),
        fits(b, j, 8),
    ensures
        le64(a, i) == le64(b, j) <==> a.subrange(i, i + 8) == b.subrange(j, j + 8),
        0 <= le64(a, i) < word(),
{
    let (x, y) = (a.subrange(i, i + 8), b.subrange(j, j + 8));
    assert(forall|k: int| 0 <= k < 8 ==> #[trigger] x[k] == a[i + k]);
    assert(forall|k: int| 0 <= k < 8 ==> #[trigger] y[k] == b[j + k]);
    lemma_le32_range(a, i);
    lemma_le32_range(a, i + 4);
    lemma_le32_range(b, j);
    lemma_le32_range(b, j + 4);
    lemma_le32_bytes(a, i, b, j);
    lemma_le32_bytes(a, i + 4, b, j + 4);
    if le64(a, i) == le64(b, j) {
        assert(le32(a, i) == le32(b, j));
        assert(x =~= y);
    }
    if x == y {
        assert(forall|k: int| 0 <= k < 8 ==> #[trigger] x[k] == y[k]);
        assert(x[0] == y[0] && x[1] == y[1] && x[2] == y[2] && x[3] == y[3]);
        assert(x[4] == y[4] && x[5] == y[5] && x[6] == y[6] && x[7] == y[7]);
    }
}

proof fn lemma_le32_range(a: Seq<u8>, i: int)
    ensures
        0 <= le32(a, i) < 0x1_0000_0000,
{
}

proof fn lemma_le32_bytes(a: Seq<u8>, i: int, b: Seq<u8>, j: int)
    ensures
        le32(a, i) == le32(b, j) <==> {
            &&& a[i] == b[j]
            &&& a[i + 1] == b[j + 1]
            &&& a[i + 2] == b[j + 2]
            &&& a[i + 3] == b[j + 3]
        },
{
    assert(0 <= le16(a, i) < 0x1_0000 && 0 <= le16(b, j) < 0x1_0000);
    if le32(a, i) == le32(b, j) {
        assert(le16(a, i) == le16(b, j));
        assert(le16(a, i + 2) == le16(b, j + 2));
    }
}

/// Store `value` little-endian at `off`.
pub fn write_u64(buf: &mut [u8], off: usize, value: u64)
    requires
        fits(old(buf)@, off as int, 8),
    ensures
        final(buf)@ == store64(old(buf)@, off as int, value as int),
{
    let ghost before = buf@;
    buf[off] = (value % 0x100) as u8;
    buf[off + 1] = (value / 0x100 % 0x100) as u8;
    buf[off + 2] = (value / 0x1_0000 % 0x100) as u8;
    buf[off + 3] = (value / 0x100_0000 % 0x100) as u8;
    buf[off + 4] = (value / 0x1_0000_0000 % 0x100) as u8;
    buf[off + 5] = (value / 0x100_0000_0000 % 0x100) as u8;
    buf[off + 6] = (value / 0x1_0000_0000_0000 % 0x100) as u8;
    buf[off + 7] = (value / 0x100_0000_0000_0000 % 0x100) as u8;
    proof {
        reveal(store64);
    }
    assert(buf@ =~= store64(before, off as int, value as int));
}

/// Copy `n` bytes of `src` from `from` on over `dst` from `at` on.
pub fn copy_bytes(dst: &mut [u8], at: usize, src: &[u8], from: usize, n: usize)
    requires
        fits(old(dst)@, at as int, n as int),
        fits(src@, from as int, n as int),
    ensures
        final(dst)@ == overwrite(old(dst)@, at as int, src@.subrange(from as int, from + n)),
{
    let ghost before = dst@;
    let mut i: usize = 0;
    while i < n
        invariant
            i <= n,
            before.len() == dst@.len(),
            dst@.len() == dst.len(),
            src@.len() == src.len(),
            fits(before, at as int, n as int),
            fits(src@, from as int, n as int),
            dst@ == overwrite(before, at as int, src@.subrange(from as int, from + i)),
        decreases n - i,
    {
        dst[at + i] = src[from + i];
        i = i + 1;
        assert(dst@ =~= overwrite(before, at as int, src@.subrange(from as int, from + i)));
    }
}

} // verus!
