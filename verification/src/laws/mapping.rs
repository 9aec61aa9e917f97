//! Images and their protections, byte by byte.

use vstd::prelude::*;

use crate::fixups::{clear_of, covered, fixups};
use crate::image::{build, image_protections, placed, section_protections, Protection};
use crate::image::{last_to_cover, law_bytes_reach_their_rva, uncovered};
use crate::image::{backed_len, covers, place_headers, place_sections};
use crate::pe::{ParsedPe, Section};
use crate::reloc::relocate;
use crate::vm::Prot;

verus! {

/// The first `size_of_raw_data` or `virtual_size` bytes of every section,
/// whichever are fewer, reach the image at the section's address, where no
/// later section writes and no relocation reaches: in any image that is built
/// without a defect.
pub proof fn law_sections_reach_the_image(
    image: Seq<u8>,
    file: Seq<u8>,
    pe: ParsedPe,
    base: u64,
    k: int,
    i: int,
)
    requires
        build(image, file, pe, base).1 is None,
        0 <= k < pe.sections.len(),
        0 <= i < pe.sections[k].size_of_raw_data,
        i < pe.sections[k].virtual_size,
        forall|j: int|
            #![trigger pe.sections[j]]
            k < j < pe.sections.len() ==> {
                let p = pe.sections[k].virtual_address + i;
                ||| p < pe.sections[j].virtual_address
                ||| p >= pe.sections[j].virtual_address + pe.sections[j].size_of_raw_data
                ||| p >= pe.sections[j].virtual_address + pe.sections[j].virtual_size
            },
        base == pe.image_base || pe.reloc_dir.1 == 0 || {
            let targets = fixups(placed(image, file, pe), pe.reloc_dir).0;
            clear_of(targets, pe.reloc_dir) && !covered(
                targets,
                pe.sections[k].virtual_address + i,
            )
        },
    ensures
        pe.sections[k].virtual_address + i < image.len(),
        pe.sections[k].pointer_to_raw_data + i < file.len(),
        build(image, file, pe, base).0[pe.sections[k].virtual_address + i]
            == file[pe.sections[k].pointer_to_raw_data + i],
{
    let p = pe.sections[k].virtual_address + i;
    lemma_sections_in_bounds(place_headers(image, file, pe), file, pe.sections@, 0);
    assert(covers(pe.sections@[k], p));
    assert forall|j: int| k < j < pe.sections.len() implies !covers(#[trigger] pe.sections@[j], p) by {
        assert(pe.sections@[j] == pe.sections[j]);
    }
    assert(last_to_cover(pe.sections@, 0, k, p));
    lemma_any_base(image, file, pe, base, p);
}

/// Where no section writes and no relocation reaches, an image that is built
/// without a defect holds the file's headers, as far as there are any, and
/// then what the memory held before.
pub proof fn law_headers_reach_the_image(
    image: Seq<u8>,
    file: Seq<u8>,
    pe: ParsedPe,
    base: u64,
    p: int,
)
    requires
        build(image, file, pe, base).1 is None,
        0 <= p < image.len(),
        forall|j: int|
            #![trigger pe.sections[j]]
            0 <= j < pe.sections.len() ==> {
                ||| p < pe.sections[j].virtual_address
                ||| p >= pe.sections[j].virtual_address + pe.sections[j].size_of_raw_data
                ||| p >= pe.sections[j].virtual_address + pe.sections[j].virtual_size
            },
        base == pe.image_base || pe.reloc_dir.1 == 0 || {
            let targets = fixups(placed(image, file, pe), pe.reloc_dir).0;
            clear_of(targets, pe.reloc_dir) && !covered(targets, p)
        },
    ensures
        p < pe.size_of_headers && p < file.len() ==> build(image, file, pe, base).0[p] == file[p],
        p >= pe.size_of_headers || p >= file.len() ==> build(image, file, pe, base).0[p]
            == image[p],
{
    assert forall|j: int| 0 <= j < pe.sections.len() implies !covers(#[trigger] pe.sections@[j], p) by {
        assert(pe.sections@[j] == pe.sections[j]);
    }
    assert(uncovered(pe.sections@, 0, p));
    lemma_any_base(image, file, pe, base, p);
}

/// An image is built without a defect at its preferred base exactly when the
/// bytes of every section that the file backs lie in the image and in the
/// file. Else a section is out of bounds. The image keeps its length.
pub proof fn law_sections_must_be_in_bounds(image: Seq<u8>, file: Seq<u8>, pe: ParsedPe)
    ensures
        build(image, file, pe, pe.image_base).1 is None <==> forall|k: int|
            #![trigger pe.sections[k]]
            0 <= k < pe.sections.len() ==> {
                let s = pe.sections[k];
                &&& s.virtual_address + s.size_of_raw_data <= image.len() || s.virtual_address
                    + s.virtual_size <= image.len()
                &&& s.pointer_to_raw_data + s.size_of_raw_data <= file.len()
                    || s.pointer_to_raw_data + s.virtual_size <= file.len()
            },
        build(image, file, pe, pe.image_base).1 is Some ==> build(image, file, pe, pe.image_base).1
            == Some("section out of bounds"@),
        build(image, file, pe, pe.image_base).0.len() == image.len(),
{
    lemma_sections_in_bounds(place_headers(image, file, pe), file, pe.sections@, 0);
    assert forall|k: int| #![trigger pe.sections[k]] 0 <= k < pe.sections.len() implies
        pe.sections[k] == pe.sections@[k] by {}
}

/// An image built for any base is the image built for its preferred base,
/// relocated by the distance; what is wrong with the sections is wrong at every
/// base.
pub proof fn law_an_image_elsewhere_is_relocated(
    image: Seq<u8>,
    file: Seq<u8>,
    pe: ParsedPe,
    base: u64,
)
    ensures
        build(image, file, pe, pe.image_base).1 is None ==> build(image, file, pe, base)
            == relocate(
            build(image, file, pe, pe.image_base).0,
            pe.reloc_dir,
            base - pe.image_base,
        ),
        build(image, file, pe, pe.image_base).1 is Some ==> build(image, file, pe, base) == build(
            image,
            file,
            pe,
            pe.image_base,
        ),
{
}

proof fn lemma_any_base(image: Seq<u8>, file: Seq<u8>, pe: ParsedPe, base: u64, p: int)
    requires
        build(image, file, pe, base).1 is None,
        0 <= p < image.len(),
        base == pe.image_base || pe.reloc_dir.1 == 0 || {
            let targets = fixups(placed(image, file, pe), pe.reloc_dir).0;
            clear_of(targets, pe.reloc_dir) && !covered(targets, p)
        },
    ensures
        forall|k: int| #[trigger]
            last_to_cover(pe.sections@, 0, k, p) ==> build(image, file, pe, base).0[p]
                == file[pe.sections[k].pointer_to_raw_data + (p - pe.sections[k].virtual_address)],
        uncovered(pe.sections@, 0, p) ==> build(image, file, pe, base).0[p] == (if p
            < pe.size_of_headers && p < file.len() {
            file[p]
        } else {
            image[p]
        }),
{
    if base == pe.image_base || pe.reloc_dir.1 == 0 {
        // Nothing is relocated, so nothing is covered by a directory without
        // entries either.
        let bare = ParsedPe { reloc_dir: (0, 0), ..pe };
        assert(build(image, file, bare, base) == build(image, file, pe, base));
        law_bytes_reach_their_rva(image, file, bare, base, p);
    } else {
        law_bytes_reach_their_rva(image, file, pe, base, p);
    }
}

proof fn lemma_sections_in_bounds(
    image: Seq<u8>,
    file: Seq<u8>,
    sections: Seq<Section>,
    from: int,
)
    requires
        0 <= from <= sections.len(),
    ensures
        place_sections(image, file, sections, from).1 is None <==> forall|k: int|
            from <= k < sections.len() ==> in_bounds(
                #[trigger] sections[k],
                image.len() as int,
                file.len() as int,
            ),
        place_sections(image, file, sections, from).1 is Some ==> place_sections(
            image,
            file,
            sections,
            from,
        ).1 == Some("section out of bounds"@),
        place_sections(image, file, sections, from).0.len() == image.len(),
    decreases sections.len() - from,
{
    if from < sections.len() {
        let s = sections[from];
        let next = crate::bytes::overwrite(
            image,
            s.virtual_address as int,
            crate::image::section_bytes(s, file),
        );
        lemma_sections_in_bounds(next, file, sections, from + 1);
        if in_bounds(s, image.len() as int, file.len() as int) {
            assert(backed_len(s) <= s.size_of_raw_data && backed_len(s) <= s.virtual_size);
        }
    }
}

spec fn in_bounds(s: Section, size: int, file_len: int) -> bool {
    &&& s.virtual_address + s.size_of_raw_data <= size || s.virtual_address + s.virtual_size
        <= size
    &&& s.pointer_to_raw_data + s.size_of_raw_data <= file_len || s.pointer_to_raw_data
        + s.virtual_size <= file_len
}

/// The headers of a mapped image become read-only, as far as they lie in it.
pub proof fn law_headers_become_read_only(pe: ParsedPe, base: u64)
    ensures
        image_protections(pe, base).len() > 0,
        image_protections(pe, base)[0].addr == base,
        image_protections(pe, base)[0].prot == Prot::Read,
        pe.size_of_headers <= pe.size_of_image ==> image_protections(pe, base)[0].len
            == pe.size_of_headers,
        pe.size_of_headers > pe.size_of_image ==> image_protections(pe, base)[0].len
            == pe.size_of_image,
{
}

/// If every section starts in the image then, behind the headers, each in turn
/// gets its own protection: at its address, as far as it lies in the image,
/// writable exactly when the top bit of its characteristics is set.
pub proof fn law_sections_get_their_protections(pe: ParsedPe, base: u64, k: int)
    requires
        base + pe.size_of_image <= u64::MAX,
        0 <= k < pe.sections.len(),
        forall|j: int|
            0 <= j < pe.sections.len() ==> (#[trigger] pe.sections[j]).virtual_address
                < pe.size_of_image,
    ensures
        image_protections(pe, base).len() == 1 + pe.sections.len(),
        ({
            let s = pe.sections[k];
            let p = image_protections(pe, base)[1 + k];
            &&& p.addr == base + s.virtual_address
            &&& s.virtual_address + s.virtual_size <= pe.size_of_image ==> p.len == s.virtual_size
            &&& s.virtual_address + s.virtual_size > pe.size_of_image ==> p.len == pe.size_of_image
                - s.virtual_address
            &&& s.characteristics & 0x8000_0000u32 != 0 ==> p.prot == Prot::ReadWrite
            &&& s.characteristics & 0x8000_0000u32 == 0 ==> p.prot == Prot::Read
        }),
{
    let size = pe.size_of_image as int;
    assert forall|j: int| 0 <= j < pe.sections.len() implies (
    #[trigger] pe.sections@[j]).virtual_address < size by {
        assert(pe.sections@[j] == pe.sections[j]);
    }
    lemma_all_inside(pe.sections@, 0, base, size, k);
    crate::laws::headers::law_section_protection(pe.sections[k]);
    assert(image_protections(pe, base)[1 + k] == section_protections(
        pe.sections@,
        0,
        base,
        size,
    )[k]);
}

/// A section that starts past the image is not protected: without it the
/// protections are the same.
pub proof fn law_sections_past_the_image_are_left_alone(
    pe: ParsedPe,
    fewer: ParsedPe,
    base: u64,
    k: int,
)
    requires
        0 <= k < pe.sections.len(),
        pe.sections[k].virtual_address >= pe.size_of_image,
        fewer.sections@ == pe.sections@.remove(k),
        fewer.size_of_image == pe.size_of_image,
        fewer.size_of_headers == pe.size_of_headers,
    ensures
        image_protections(fewer, base) == image_protections(pe, base),
{
    lemma_skipped(pe.sections@, 0, base, pe.size_of_image as int, k);
}

proof fn lemma_all_inside(sections: Seq<Section>, from: int, base: u64, size: int, k: int)
    requires
        0 <= from <= k < sections.len(),
        forall|j: int|
            0 <= j < sections.len() ==> (#[trigger] sections[j]).virtual_address < size,
        size <= u32::MAX,
    ensures
        section_protections(sections, from, base, size).len() == sections.len() - from,
        ({
            let s = sections[k];
            section_protections(sections, from, base, size)[k - from] == (Protection {
                addr: (base + s.virtual_address) as u64,
                len: (if s.virtual_address + s.virtual_size <= size {
                    s.virtual_size as int
                } else {
                    size - s.virtual_address
                }) as usize,
                prot: crate::pe::section_prot(s),
            })
        }),
    decreases sections.len() - from,
{
    assert(sections[from].virtual_address < size);
    let rest = section_protections(sections, from + 1, base, size);
    if from < k {
        lemma_all_inside(sections, from + 1, base, size, k);
        assert(section_protections(sections, from, base, size)[k - from] == rest[k - (from + 1)]);
    } else {
        lemma_count_inside(sections, from, base, size);
    }
}

proof fn lemma_count_inside(sections: Seq<Section>, from: int, base: u64, size: int)
    requires
        0 <= from <= sections.len(),
        forall|j: int|
            0 <= j < sections.len() ==> (#[trigger] sections[j]).virtual_address < size,
    ensures
        section_protections(sections, from, base, size).len() == sections.len() - from,
    decreases sections.len() - from,
{
    if from < sections.len() {
        assert(sections[from].virtual_address < size);
        lemma_count_inside(sections, from + 1, base, size);
    }
}

proof fn lemma_skipped(sections: Seq<Section>, from: int, base: u64, size: int, k: int)
    requires
        0 <= from <= k < sections.len(),
        sections[k].virtual_address >= size,
    ensures
        section_protections(sections.remove(k), from, base, size) == section_protections(
            sections,
            from,
            base,
            size,
        ),
    decreases sections.len() - from,
{
    if from < k {
        assert(sections.remove(k)[from] == sections[from]);
        lemma_skipped(sections, from + 1, base, size, k);
    } else {
        lemma_shifted(sections, k, k + 1, base, size);
    }
}

proof fn lemma_shifted(sections: Seq<Section>, k: int, from: int, base: u64, size: int)
    requires
        0 <= k < from <= sections.len(),
    ensures
        section_protections(sections.remove(k), from - 1, base, size) == section_protections(
            sections,
            from,
            base,
            size,
        ),
    decreases sections.len() - from,
{
    if from < sections.len() {
        assert(sections.remove(k)[from - 1] == sections[from]);
        lemma_shifted(sections, k, from + 1, base, size);
    }
}

} // verus!
