//! Mapping a guest PE into the host address space.
//!
//! The image's virtual size is reserved and committed read-write, its headers
//! and sections are copied to their RVAs, base relocations are applied for the
//! address it landed at, and each region's protection is tightened. The host
//! does the reserving, committing and protecting; what it is asked for, what
//! the image's bytes become and what a failure leads to are decided here.

use vstd::prelude::*;

use crate::bytes::{copy_bytes, le32, le64, overwrite, word};
use crate::error::{reports, Error};
use crate::fixups::{alone, clear_of, covered, fixups};
use crate::fixups::{law_relocation_moves_each_fixup, lemma_relocate_congruent};
use crate::pe::{bad, describes, optional_offset, parse_pe, pe_defect, section_prot};
use crate::pe::{ParsedPe, Section};
use crate::reloc::{apply_relocations, relocate};
use crate::vm::Prot;

verus! {

/// A guest PE image mapped into the host address space, ready for the run loop
/// to enter. `base` is the load address, `entry` the absolute entry point,
/// `size` the reservation to release on teardown.
#[derive(Clone, Copy, PartialEq, Eq, Debug, Structural)]
pub struct MappedImage {
    pub base: u64,
    pub entry: u64,
    pub size: usize,
}

/// A span of host memory and the protection it is to have.
#[derive(Clone, Copy, PartialEq, Eq, Debug, Structural)]
pub struct Protection {
    pub addr: u64,
    pub len: usize,
    pub prot: Prot,
}

/// An image that is about to be mapped: what its headers say, and how much
/// address space to reserve for it.
#[derive(Debug)]
pub struct MapPlan {
    pub pe: ParsedPe,
    pub size: usize,
}

/// How mapping an image ends.
#[derive(Debug)]
pub enum MapOutcome {
    /// The image is in place. Its regions are to be protected in this order;
    /// a failed reprotect leaves a region readable and writable, so failures
    /// do not matter.
    Mapped { image: MappedImage, protections: Vec<Protection> },
    /// The image could not be built: its reservation is to be released, and
    /// the error reported.
    Failed { error: Error, base: u64, size: usize },
}

/// Why `file` cannot be mapped, as far as its headers show.
pub open spec fn map_defect(file: Seq<u8>) -> Option<Seq<char>> {
    if pe_defect(file) is Some {
        pe_defect(file)
    } else if le32(file, optional_offset(file) + 56) == 0 {
        Some("image has zero size"@)
    } else {
        None
    }
}

impl MapPlan {
    /// Whether the plan reserves the image's size, which is not zero.
    pub open spec fn wf(self) -> bool {
        self.size == self.pe.size_of_image && self.size > 0
    }

    /// How a reservation at `base` is committed before the image is built:
    /// all of it, read-write.
    pub fn commit(&self, base: u64) -> (p: Protection)
        ensures
            p == (Protection { addr: base, len: self.size, prot: Prot::ReadWrite }),
    {
        Protection { addr: base, len: self.size, prot: Prot::ReadWrite }
    }
}

/// What to reserve for the image in `file`.
pub fn plan_map(file: &[u8]) -> (r: Result<MapPlan, Error>)
    ensures
        reports(r, map_defect(file@)),
        r matches Ok(plan) ==> plan.wf() && describes(plan.pe, file@),
{
    let pe = parse_pe(file)?;
    let size: usize = pe.size_of_image as usize;
    if size == 0 {
        return Err(bad("image has zero size"));
    }
    Ok(MapPlan { pe, size })
}

pub open spec fn min(a: int, b: int) -> int {
    if a <= b {
        a
    } else {
        b
    }
}

/// How many header bytes are copied into an image of `size` bytes.
pub open spec fn header_len(pe: ParsedPe, size: int, file_len: int) -> int {
    min(min(pe.size_of_headers as int, size), file_len)
}

/// How many bytes of a section the file backs.
pub open spec fn backed_len(s: Section) -> int {
    min(s.size_of_raw_data as int, s.virtual_size as int)
}

/// Whether a section's backed bytes lie in the image and in the file.
pub open spec fn section_in_bounds(s: Section, size: int, file_len: int) -> bool {
    &&& s.virtual_address + backed_len(s) <= size
    &&& s.pointer_to_raw_data + backed_len(s) <= file_len
}

/// The bytes of `file` that back a section.
pub open spec fn section_bytes(s: Section, file: Seq<u8>) -> Seq<u8> {
    file.subrange(s.pointer_to_raw_data as int, s.pointer_to_raw_data + backed_len(s))
}

/// `image` with the sections from `from` on copied to their RVAs in turn, up
/// to the first that is out of bounds.
pub open spec fn place_sections(
    image: Seq<u8>,
    file: Seq<u8>,
    sections: Seq<Section>,
    from: int,
) -> (Seq<u8>, Option<Seq<char>>)
    decreases sections.len() - from,
{
    if from >= sections.len() {
        (image, None)
    } else if !section_in_bounds(sections[from], image.len() as int, file.len() as int) {
        (image, Some("section out of bounds"@))
    } else {
        place_sections(
            overwrite(
                image,
                sections[from].virtual_address as int,
                section_bytes(sections[from], file),
            ),
            file,
            sections,
            from + 1,
        )
    }
}

/// `image` with the headers of `file` copied to its start.
pub open spec fn place_headers(image: Seq<u8>, file: Seq<u8>, pe: ParsedPe) -> Seq<u8> {
    overwrite(
        image,
        0,
        file.take(header_len(pe, image.len() as int, file.len() as int)),
    )
}

/// What building the image of `file` over `image` for load address `base`
/// leaves, and the defect that stops it if there is one.
pub open spec fn build(image: Seq<u8>, file: Seq<u8>, pe: ParsedPe, base: u64) -> (
    Seq<u8>,
    Option<Seq<char>>,
) {
    let (placed, defect) = place_sections(place_headers(image, file, pe), file, pe.sections@, 0);
    if defect is Some {
        (placed, defect)
    } else {
        relocate(placed, pe.reloc_dir, base - pe.image_base)
    }
}

/// How far an image that prefers `image_base` slides to land at `base`, as a
/// signed word.
fn slide(base: u64, image_base: u64) -> (delta: i64)
    ensures
        delta as int % word() == (base - image_base) % word(),
        delta == 0 <==> base == image_base,
{
    let d: u64 = base.wrapping_sub(image_base);
    assert((d as i64) as int % 0x1_0000_0000_0000_0000 == d as int && ((d as i64) == 0 <==> d == 0))
        by (bit_vector);
    assert(d == (base - image_base) % word());
    d as i64
}

/// Build the image of `file` in the committed memory `image`, which the host
/// placed at `base`: copy the headers and each section to its RVA and apply
/// the base relocations.
pub fn load_image(image: &mut [u8], file: &[u8], pe: &ParsedPe, base: u64) -> (r: Result<(), Error>)
    ensures
        final(image)@ == build(old(image)@, file@, *pe, base).0,
        reports(r, build(old(image)@, file@, *pe, base).1),
{
    let size: usize = image.len();
    let mut hdr: usize = pe.size_of_headers as usize;
    if size < hdr {
        hdr = size;
    }
    if file.len() < hdr {
        hdr = file.len();
    }
    let ghost start = image@;
    copy_bytes(image, 0, file, 0, hdr);
    assert(file@.subrange(0, hdr as int) =~= file@.take(hdr as int));
    let ghost goal = place_sections(image@, file@, pe.sections@, 0);
    let mut i: usize = 0;
    while i < pe.sections.len()
        invariant
            i <= pe.sections.len(),
            image@.len() == size,
            start == old(image)@,
            goal == place_sections(place_headers(start, file@, *pe), file@, pe.sections@, 0),
            goal == place_sections(image@, file@, pe.sections@, i as int),
        decreases pe.sections.len() - i,
    {
        let s = &pe.sections[i];
        let va: u64 = s.virtual_address as u64;
        let raw: u64 = s.pointer_to_raw_data as u64;
        let n: u64 = if s.size_of_raw_data <= s.virtual_size {
            s.size_of_raw_data as u64
        } else {
            s.virtual_size as u64
        };
        if va + n > size as u64 || raw + n > file.len() as u64 {
            return Err(bad("section out of bounds"));
        }
        copy_bytes(image, va as usize, file, raw as usize, n as usize);
        i = i + 1;
    }
    let delta: i64 = slide(base, pe.image_base);
    proof {
        if delta != 0 {
            lemma_relocate_congruent(image@, pe.reloc_dir, delta as int, base - pe.image_base);
        }
    }
    apply_relocations(image, pe.reloc_dir, delta)
}

/// The protections of the sections from `from` on that start in an image of
/// `size` bytes at `base`.
pub open spec fn section_protections(
    sections: Seq<Section>,
    from: int,
    base: u64,
    size: int,
) -> Seq<Protection>
    decreases sections.len() - from,
{
    if from >= sections.len() {
        seq![]
    } else {
        let s = sections[from];
        let rest = section_protections(sections, from + 1, base, size);
        if s.virtual_address < size {
            seq![
                Protection {
                    addr: (base + s.virtual_address) as u64,
                    len: min(s.virtual_size as int, size - s.virtual_address) as usize,
                    prot: section_prot(s),
                },
            ] + rest
        } else {
            rest
        }
    }
}

/// The protections of a mapped image: its headers read-only, then each
/// section's own.
pub open spec fn image_protections(pe: ParsedPe, base: u64) -> Seq<Protection> {
    let size = pe.size_of_image as int;
    seq![
        Protection {
            addr: base,
            len: min(pe.size_of_headers as int, size) as usize,
            prot: Prot::Read,
        },
    ] + section_protections(pe.sections@, 0, base, size)
}

/// The protections that tighten an image at `base`.
fn tighten(pe: &ParsedPe, base: u64) -> (protections: Vec<Protection>)
    requires
        base + pe.size_of_image <= u64::MAX,
    ensures
        protections@ == image_protections(*pe, base),
{
    let size: u32 = pe.size_of_image;
    let hdr: u32 = if pe.size_of_headers <= size {
        pe.size_of_headers
    } else {
        size
    };
    let mut protections: Vec<Protection> = Vec::new();
    protections.push(Protection { addr: base, len: hdr as usize, prot: Prot::Read });
    let mut i: usize = 0;
    assert(protections@ + section_protections(pe.sections@, 0, base, size as int)
        =~= image_protections(*pe, base));
    while i < pe.sections.len()
        invariant
            i <= pe.sections.len(),
            size == pe.size_of_image,
            base + size <= u64::MAX,
            protections@ + section_protections(pe.sections@, i as int, base, size as int)
                == image_protections(*pe, base),
        decreases pe.sections.len() - i,
    {
        let s = &pe.sections[i];
        let ghost before = protections@;
        let ghost rest = section_protections(pe.sections@, i + 1, base, size as int);
        let va: u32 = s.virtual_address;
        if va < size {
            let room: u32 = size - va;
            let len: u32 = if s.virtual_size <= room {
                s.virtual_size
            } else {
                room
            };
            let p = Protection { addr: base + va as u64, len: len as usize, prot: s.prot() };
            protections.push(p);
            assert(before + (seq![p] + rest) =~= protections@ + rest);
        }
        i = i + 1;
    }
    assert(section_protections(pe.sections@, i as int, base, size as int) =~= seq![]);
    assert(protections@ + seq![] =~= protections@);
    protections
}

/// Map the planned image at the reservation `base`. `committed` is what
/// committing the reservation came to; if it succeeded, `image` is that
/// memory. Any failure leads to the release of the reservation.
pub fn map_pe(
    plan: &MapPlan,
    file: &[u8],
    base: u64,
    committed: Result<(), Error>,
    image: &mut [u8],
) -> (outcome: MapOutcome)
    requires
        plan.wf(),
        base + plan.size <= u64::MAX,
        base + plan.pe.entry_rva <= u64::MAX,
        committed is Ok ==> old(image)@.len() == plan.size,
    ensures
        match committed {
            Err(e) => {
                &&& final(image)@ == old(image)@
                &&& outcome == (MapOutcome::Failed { error: e, base, size: plan.size })
            },
            Ok(()) => {
                let (built, defect) = build(old(image)@, file@, plan.pe, base);
                &&& final(image)@ == built
                &&& match outcome {
                    MapOutcome::Mapped { image: mapped, protections } => {
                        &&& defect is None
                        &&& mapped == (MappedImage {
                            base,
                            entry: (base + plan.pe.entry_rva) as u64,
                            size: plan.size,
                        })
                        &&& protections@ == image_protections(plan.pe, base)
                    },
                    MapOutcome::Failed { error, base: released, size } => {
                        &&& reports(Err::<(), Error>(error), defect)
                        &&& released == base
                        &&& size == plan.size
                    },
                }
            },
        },
{
    if let Err(error) = committed {
        return MapOutcome::Failed { error, base, size: plan.size };
    }
    if let Err(error) = load_image(image, file, &plan.pe, base) {
        return MapOutcome::Failed { error, base, size: plan.size };
    }
    MapOutcome::Mapped {
        image: MappedImage { base, entry: base + plan.pe.entry_rva as u64, size: plan.size },
        protections: tighten(&plan.pe, base),
    }
}

/// Whether the file-backed bytes of a section include the RVA `p`.
pub open spec fn covers(s: Section, p: int) -> bool {
    s.virtual_address <= p < s.virtual_address + backed_len(s)
}

/// Whether section `k` is the last, from `from` on, to cover the RVA `p`.
pub open spec fn last_to_cover(sections: Seq<Section>, from: int, k: int, p: int) -> bool {
    &&& from <= k < sections.len()
    &&& covers(sections[k], p)
    &&& forall|j: int| k < j < sections.len() ==> !covers(#[trigger] sections[j], p)
}

/// Whether no section from `from` on covers the RVA `p`.
pub open spec fn uncovered(sections: Seq<Section>, from: int, p: int) -> bool {
    forall|j: int| from <= j < sections.len() ==> !covers(#[trigger] sections[j], p)
}

proof fn lemma_placed_bytes(
    image: Seq<u8>,
    file: Seq<u8>,
    sections: Seq<Section>,
    from: int,
    p: int,
)
    requires
        0 <= from,
        0 <= p < image.len(),
        place_sections(image, file, sections, from).1 is None,
    ensures
        place_sections(image, file, sections, from).0.len() == image.len(),
        forall|k: int| #[trigger]
            last_to_cover(sections, from, k, p) ==> place_sections(image, file, sections, from).0[p]
                == file[sections[k].pointer_to_raw_data + (p - sections[k].virtual_address)],
        uncovered(sections, from, p) ==> place_sections(image, file, sections, from).0[p]
            == image[p],
    decreases sections.len() - from,
{
    if from < sections.len() {
        let s = sections[from];
        let next = overwrite(image, s.virtual_address as int, section_bytes(s, file));
        lemma_placed_bytes(next, file, sections, from + 1, p);
        let done = place_sections(image, file, sections, from).0;
        assert forall|k: int| #[trigger] last_to_cover(sections, from, k, p) implies done[p]
            == file[sections[k].pointer_to_raw_data + (p - sections[k].virtual_address)] by {
            if k > from {
                assert(last_to_cover(sections, from + 1, k, p));
            } else {
                assert(uncovered(sections, from + 1, p));
            }
        }
        if uncovered(sections, from, p) {
            assert(!covers(sections[from], p));
        }
    }
}

/// The image before relocation.
pub open spec fn placed(image: Seq<u8>, file: Seq<u8>, pe: ParsedPe) -> Seq<u8> {
    place_sections(place_headers(image, file, pe), file, pe.sections@, 0).0
}

/// Every byte of a built image that no relocation moves comes from the last
/// section that covers it, else from the headers, else from the memory that
/// the image was built in.
pub proof fn law_bytes_reach_their_rva(
    image: Seq<u8>,
    file: Seq<u8>,
    pe: ParsedPe,
    base: u64,
    p: int,
)
    requires
        0 <= p < image.len(),
        build(image, file, pe, base).1 is None,
        clear_of(fixups(placed(image, file, pe), pe.reloc_dir).0, pe.reloc_dir),
        !covered(fixups(placed(image, file, pe), pe.reloc_dir).0, p),
    ensures
        build(image, file, pe, base).0.len() == image.len(),
        forall|k: int| #[trigger]
            last_to_cover(pe.sections@, 0, k, p) ==> build(image, file, pe, base).0[p]
                == file[pe.sections[k].pointer_to_raw_data + (p - pe.sections[k].virtual_address)],
        uncovered(pe.sections@, 0, p) ==> build(image, file, pe, base).0[p] == (if p < header_len(
            pe,
            image.len() as int,
            file.len() as int,
        ) {
            file[p]
        } else {
            image[p]
        }),
{
    let with_headers = place_headers(image, file, pe);
    lemma_placed_bytes(with_headers, file, pe.sections@, 0, p);
    law_relocation_moves_each_fixup(
        placed(image, file, pe),
        pe.reloc_dir,
        base - pe.image_base,
    );
}

/// A pointer into the image follows it: where a relocated address held the
/// preferred base plus some offset, it holds the actual base plus that offset.
pub proof fn law_pointers_follow_the_image(
    image: Seq<u8>,
    file: Seq<u8>,
    pe: ParsedPe,
    base: u64,
    k: int,
    offset: int,
)
    requires
        build(image, file, pe, base).1 is None,
        clear_of(fixups(placed(image, file, pe), pe.reloc_dir).0, pe.reloc_dir),
        0 <= k < fixups(placed(image, file, pe), pe.reloc_dir).0.len(),
        alone(fixups(placed(image, file, pe), pe.reloc_dir).0, k),
        le64(placed(image, file, pe), fixups(placed(image, file, pe), pe.reloc_dir).0[k]) == (
        pe.image_base + offset) % word(),
    ensures
        le64(
            build(image, file, pe, base).0,
            fixups(placed(image, file, pe), pe.reloc_dir).0[k],
        ) == (base + offset) % word(),
{
    let before = placed(image, file, pe);
    let target = fixups(before, pe.reloc_dir).0[k];
    law_relocation_moves_each_fixup(before, pe.reloc_dir, base - pe.image_base);
    lemma_moved_pointer(
        le64(before, target),
        le64(build(image, file, pe, base).0, target),
        pe.image_base as int,
        base as int,
        offset,
    );
}

proof fn lemma_moved_pointer(before: int, after: int, image_base: int, base: int, offset: int)
    requires
        before == (image_base + offset) % word(),
        after == (before + (base - image_base)) % word(),
    ensures
        after == (base + offset) % word(),
{
}

/// An image that lands at its preferred base keeps its addresses.
pub proof fn law_preferred_base_needs_no_relocation(image: Seq<u8>, file: Seq<u8>, pe: ParsedPe)
    ensures
        build(image, file, pe, pe.image_base).0 == placed(image, file, pe),
{
}

/// Every region that tightening an image protects lies in its reservation, and
/// none is made executable.
pub proof fn law_image_is_never_executable(pe: ParsedPe, base: u64, i: int)
    requires
        base + pe.size_of_image <= u64::MAX,
        0 <= i < image_protections(pe, base).len(),
    ensures
        image_protections(pe, base)[i].prot != Prot::ReadWriteExec,
        base <= image_protections(pe, base)[i].addr,
        image_protections(pe, base)[i].addr + image_protections(pe, base)[i].len <= base
            + pe.size_of_image,
{
    let sections = section_protections(pe.sections@, 0, base, pe.size_of_image as int);
    if i > 0 {
        assert(image_protections(pe, base)[i] == sections[i - 1]);
        lemma_section_protections(pe.sections@, 0, base, pe.size_of_image as int, i - 1);
    }
}

proof fn lemma_section_protections(
    sections: Seq<Section>,
    from: int,
    base: u64,
    size: int,
    i: int,
)
    requires
        0 <= from,
        base + size <= u64::MAX,
        size <= u32::MAX,
        0 <= i < section_protections(sections, from, base, size).len(),
    ensures
        section_protections(sections, from, base, size)[i].prot != Prot::ReadWriteExec,
        base <= section_protections(sections, from, base, size)[i].addr,
        section_protections(sections, from, base, size)[i].addr + section_protections(
            sections,
            from,
            base,
            size,
        )[i].len <= base + size,
    decreases sections.len() - from,
{
    if from < sections.len() {
        let rest = section_protections(sections, from + 1, base, size);
        if sections[from].virtual_address < size {
            if i > 0 {
                assert(section_protections(sections, from, base, size)[i] == rest[i - 1]);
                lemma_section_protections(sections, from + 1, base, size, i - 1);
            }
        } else {
            lemma_section_protections(sections, from + 1, base, size, i);
        }
    }
}

} // verus!
