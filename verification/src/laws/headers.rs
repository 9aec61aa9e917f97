//! PE headers, byte by byte.

use vstd::prelude::*;

use crate::bytes::{le16, le32, le64, overwrite};
use crate::error::{reports, Error};
use crate::image::{map_defect, MapPlan};
use crate::pe::{describes, pe_defect, read_defect, section_prot, ParsedPe, Section};
use crate::vm::Prot;

verus! {

/// Every field of an accepted file's header is the little-endian value of the
/// file's own bytes: the signature stands where the word at 0x3C says, the COFF
/// header 4 bytes and the optional header 24 bytes behind it.
pub proof fn law_header_fields_are_the_files_bytes(buf: Seq<u8>, pe: ParsedPe)
    requires
        pe_defect(buf) is None,
        describes(pe, buf),
    ensures
        ({
            let u32_at = |o: int|
                buf[o] + 0x100 * buf[o + 1] + 0x1_0000 * buf[o + 2] + 0x100_0000 * buf[o + 3];
            let e = u32_at(0x3C);
            &&& pe.entry_rva == u32_at(e + 40)
            &&& pe.image_base == u32_at(e + 48) + 0x1_0000_0000 * u32_at(e + 52)
            &&& pe.size_of_image == u32_at(e + 80)
            &&& pe.size_of_headers == u32_at(e + 84)
            &&& u32_at(e + 132) > 1 ==> pe.import_dir.0 == u32_at(e + 144) && pe.import_dir.1
                == u32_at(e + 148)
            &&& u32_at(e + 132) <= 1 ==> pe.import_dir.0 == 0 && pe.import_dir.1 == 0
            &&& u32_at(e + 132) > 5 ==> pe.reloc_dir.0 == u32_at(e + 176) && pe.reloc_dir.1
                == u32_at(e + 180)
            &&& u32_at(e + 132) <= 5 ==> pe.reloc_dir.0 == 0 && pe.reloc_dir.1 == 0
        }),
{
}

/// An accepted file has as many sections as the two bytes 6 past its signature
/// say, and each is what its 40 bytes of the table hold, in the table's order.
pub proof fn law_sections_are_the_files_bytes(buf: Seq<u8>, pe: ParsedPe, e: int)
    requires
        pe_defect(buf) is None,
        describes(pe, buf),
        e == buf[0x3C] + 0x100 * buf[0x3D] + 0x1_0000 * buf[0x3E] + 0x100_0000 * buf[0x3F],
    ensures
        pe.sections.len() == buf[e + 6] + 0x100 * buf[e + 7],
        forall|i: int|
            #![trigger pe.sections[i]]
            0 <= i < pe.sections.len() ==> {
                let u32_at = |o: int|
                    buf[o] + 0x100 * buf[o + 1] + 0x1_0000 * buf[o + 2] + 0x100_0000 * buf[o + 3];
                let s = e + 24 + buf[e + 20] + 0x100 * buf[e + 21] + 40 * i;
                &&& pe.sections[i].name[0] == buf[s]
                &&& pe.sections[i].name[1] == buf[s + 1]
                &&& pe.sections[i].name[2] == buf[s + 2]
                &&& pe.sections[i].name[3] == buf[s + 3]
                &&& pe.sections[i].name[4] == buf[s + 4]
                &&& pe.sections[i].name[5] == buf[s + 5]
                &&& pe.sections[i].name[6] == buf[s + 6]
                &&& pe.sections[i].name[7] == buf[s + 7]
                &&& pe.sections[i].virtual_size == u32_at(s + 8)
                &&& pe.sections[i].virtual_address == u32_at(s + 12)
                &&& pe.sections[i].size_of_raw_data == u32_at(s + 16)
                &&& pe.sections[i].pointer_to_raw_data == u32_at(s + 20)
                &&& pe.sections[i].characteristics == u32_at(s + 36)
            },
{
    assert forall|i: int| #![trigger pe.sections[i]] 0 <= i < pe.sections.len() implies {
        let s = e + 24 + buf[e + 20] + 0x100 * buf[e + 21] + 40 * i;
        pe.sections[i].name@ == buf.subrange(s, s + 8)
    } by {}
    assert forall|i: int| #![trigger pe.sections[i]] 0 <= i < pe.sections.len() implies {
        let s = e + 24 + buf[e + 20] + 0x100 * buf[e + 21] + 40 * i;
        forall|k: int| 0 <= k < 8 ==> #[trigger] pe.sections[i].name@[k] == buf[s + k]
    } by {
        let s = e + 24 + buf[e + 20] + 0x100 * buf[e + 21] + 40 * i;
        assert(pe.sections[i].name@ == buf.subrange(s, s + 8));
    }
}

/// Exactly those files are accepted that hold, byte for byte, an MZ header, a
/// `PE\0\0` signature, the x86-64 machine and the PE32+ magic, and whose
/// headers, declared directories and section table lie in the file.
pub proof fn law_accepted_bytes(buf: Seq<u8>, e: int)
    requires
        e == buf[0x3C] + 0x100 * buf[0x3D] + 0x1_0000 * buf[0x3E] + 0x100_0000 * buf[0x3F],
    ensures
        pe_defect(buf) is None <==> {
            let u16_at = |o: int| buf[o] + 0x100 * buf[o + 1];
            let directories = u16_at(e + 132) + 0x1_0000 * u16_at(e + 134);
            &&& buf.len() >= 0x40
            &&& buf[0] == 0x4D && buf[1] == 0x5A
            &&& e + 136 <= buf.len()
            &&& buf[e] == 0x50 && buf[e + 1] == 0x45 && buf[e + 2] == 0 && buf[e + 3] == 0
            &&& buf[e + 4] == 0x64 && buf[e + 5] == 0x86
            &&& buf[e + 24] == 0x0B && buf[e + 25] == 0x02
            &&& directories > 1 ==> e + 152 <= buf.len()
            &&& directories > 5 ==> e + 184 <= buf.len()
            &&& u16_at(e + 6) > 0 ==> e + 24 + u16_at(e + 20) + 40 * u16_at(e + 6) <= buf.len()
        },
{
}

/// A file that is refused for its own bytes is refused with the words for the
/// first thing that is wrong with it.
pub proof fn law_refused_bytes(buf: Seq<u8>, e: int)
    requires
        e == buf[0x3C] + 0x100 * buf[0x3D] + 0x1_0000 * buf[0x3E] + 0x100_0000 * buf[0x3F],
    ensures
        ({
            let mz = buf.len() >= 2 && buf[0] == 0x4D && buf[1] == 0x5A;
            let signed = mz && buf.len() >= 0x40 && e + 4 <= buf.len() && buf[e] == 0x50 && buf[e
                + 1] == 0x45 && buf[e + 2] == 0 && buf[e + 3] == 0;
            let x86_64 = signed && e + 6 <= buf.len() && buf[e + 4] == 0x64 && buf[e + 5] == 0x86;
            let pe32plus = x86_64 && e + 26 <= buf.len() && buf[e + 24] == 0x0B && buf[e + 25]
                == 0x02;
            let truncated = Some("truncated PE header"@);
            &&& buf.len() < 2 ==> pe_defect(buf) == truncated
            &&& buf.len() >= 2 && !mz ==> pe_defect(buf) == Some("not a PE image (no MZ header)"@)
            &&& mz && (buf.len() < 0x40 || e + 4 > buf.len()) ==> pe_defect(buf) == truncated
            &&& mz && buf.len() >= 0x40 && e + 4 <= buf.len() && !signed ==> pe_defect(buf) == Some(
                "bad PE signature"@,
            )
            &&& signed && e + 6 > buf.len() ==> pe_defect(buf) == truncated
            &&& signed && e + 6 <= buf.len() && !x86_64 ==> pe_defect(buf) == Some(
                "not an x86-64 PE image"@,
            )
            &&& x86_64 && e + 26 > buf.len() ==> pe_defect(buf) == truncated
            &&& x86_64 && e + 26 <= buf.len() && !pe32plus ==> pe_defect(buf) == Some(
                "not a 64-bit (PE32+) image"@,
            )
            &&& pe32plus && e + 136 > buf.len() ==> pe_defect(buf) == truncated
            &&& pe32plus && e + 136 <= buf.len() ==> {
                let directories = buf[e + 132] + 0x100 * buf[e + 133] + 0x1_0000 * buf[e + 134]
                    + 0x100_0000 * buf[e + 135];
                &&& directories > 1 && e + 152 > buf.len() ==> pe_defect(buf) == truncated
                &&& directories > 5 && e + 184 > buf.len() ==> pe_defect(buf) == truncated
            }
        }),
{
}

/// Where a file's headers are sound but its section table runs past its end,
/// the first header that does not lie in the file counts: `i` of them do.
pub proof fn law_cut_section_tables(buf: Seq<u8>, e: int, i: int)
    requires
        e == buf[0x3C] + 0x100 * buf[0x3D] + 0x1_0000 * buf[0x3E] + 0x100_0000 * buf[0x3F],
        buf.len() >= 0x40,
        buf[0] == 0x4D && buf[1] == 0x5A,
        e + 136 <= buf.len(),
        ({
            let directories = buf[e + 132] + 0x100 * buf[e + 133] + 0x1_0000 * buf[e + 134]
                + 0x100_0000 * buf[e + 135];
            &&& directories > 1 ==> e + 152 <= buf.len()
            &&& directories > 5 ==> e + 184 <= buf.len()
        }),
        buf[e] == 0x50 && buf[e + 1] == 0x45 && buf[e + 2] == 0 && buf[e + 3] == 0,
        buf[e + 4] == 0x64 && buf[e + 5] == 0x86,
        buf[e + 24] == 0x0B && buf[e + 25] == 0x02,
        0 <= i < buf[e + 6] + 0x100 * buf[e + 7],
        i == 0 || e + 24 + buf[e + 20] + 0x100 * buf[e + 21] + 40 * i <= buf.len(),
        e + 24 + buf[e + 20] + 0x100 * buf[e + 21] + 40 * (i + 1) > buf.len(),
    ensures
        pe_defect(buf) == Some(
            if e + 24 + buf[e + 20] + 0x100 * buf[e + 21] + 40 * i + 8 <= buf.len() {
                "truncated PE header"@
            } else {
                "truncated section table"@
            },
        ),
{
}

/// An accepted file can be mapped exactly when the size of its image, the word
/// 80 past its signature, is not zero.
pub proof fn law_images_of_no_size_are_refused(buf: Seq<u8>, e: int)
    requires
        e == buf[0x3C] + 0x100 * buf[0x3D] + 0x1_0000 * buf[0x3E] + 0x100_0000 * buf[0x3F],
    ensures
        pe_defect(buf) is Some ==> map_defect(buf) == pe_defect(buf),
        pe_defect(buf) is None && buf[e + 80] == 0 && buf[e + 81] == 0 && buf[e + 82] == 0 && buf[e
            + 83] == 0 ==> map_defect(buf) == Some("image has zero size"@),
        pe_defect(buf) is None && !(buf[e + 80] == 0 && buf[e + 81] == 0 && buf[e + 82] == 0
            && buf[e + 83] == 0) ==> map_defect(buf) is None,
{
}

/// A section is writable exactly when the top bit of its characteristics is
/// set, and is readable and not executable either way.
pub proof fn law_section_protection(s: Section)
    ensures
        s.characteristics & 0x8000_0000u32 != 0 ==> section_prot(s) == Prot::ReadWrite,
        s.characteristics & 0x8000_0000u32 == 0 ==> section_prot(s) == Prot::Read,
{
    let c = s.characteristics;
    assert(c & 0x8000_0000u32 != 0 <==> c >= 0x8000_0000u32) by (bit_vector);
}

/// A plan reserves exactly the size of its image, which is not zero.
pub proof fn law_a_plan_reserves_the_image(plan: MapPlan)
    ensures
        plan.wf() <==> plan.size == plan.pe.size_of_image && plan.pe.size_of_image != 0,
{
}

/// Fields are little-endian: their first byte counts once, and each that
/// follows 256 times as much as the one before it.
pub proof fn law_fields_are_little_endian(buf: Seq<u8>, o: int)
    ensures
        le16(buf, o) == buf[o] + 0x100 * buf[o + 1],
        le32(buf, o) == buf[o] + 0x100 * buf[o + 1] + 0x1_0000 * buf[o + 2] + 0x100_0000 * buf[o
            + 3],
        le64(buf, o) == buf[o] + 0x100 * buf[o + 1] + 0x1_0000 * buf[o + 2] + 0x100_0000 * buf[o
            + 3] + 0x1_0000_0000 * buf[o + 4] + 0x100_0000_0000 * buf[o + 5] + 0x1_0000_0000_0000
            * buf[o + 6] + 0x100_0000_0000_0000 * buf[o + 7],
{
}

/// A field can be read exactly when all its bytes lie in the buffer.
pub proof fn law_fields_must_lie_in_the_buffer(buf: Seq<u8>, o: int, n: int)
    ensures
        o + n <= buf.len() ==> read_defect(buf, o, n) is None,
        o + n > buf.len() ==> read_defect(buf, o, n) == Some("truncated PE header"@),
{
}

/// Writing bytes over others puts each in its place and leaves the rest.
pub proof fn law_overwritten_bytes(buf: Seq<u8>, at: int, src: Seq<u8>)
    ensures
        overwrite(buf, at, src).len() == buf.len(),
        forall|i: int|
            0 <= i < src.len() && 0 <= at + i < buf.len() ==> overwrite(buf, at, src)[at + i]
                == #[trigger] src[i],
        forall|p: int|
            0 <= p < buf.len() && (p < at || p >= at + src.len()) ==> #[trigger] overwrite(
                buf,
                at,
                src,
            )[p] == buf[p],
{
}

/// A defect is reported in its own words and as a bad binary, and success means
/// that there is none.
pub proof fn law_reported_defects<T>(result: Result<T, Error>, defect: Option<Seq<char>>)
    ensures
        reports(result, defect) <==> match result {
            Ok(_) => defect is None,
            Err(Error::BadBinary(words)) => defect == Some(words@),
            Err(_) => false,
        },
{
}

} // verus!
