//! PE parsing, relocation and mapping.

use chimera::error::Error;
use chimera::image::{load_image, map_pe, plan_map, MapOutcome, MapPlan, MappedImage, Protection};
use chimera::pe::{parse_pe, ParsedPe, Section};
use chimera::pe::{DIR_BASERELOC, DOS_MAGIC, MACHINE_AMD64, OPT_MAGIC_PE32PLUS, PE_SIGNATURE};
use chimera::pe::SCN_MEM_WRITE;
use chimera::reloc::{apply_relocations, REL_DIR64};
use chimera::vm::Prot;

/// The RVA of the `.text` marker byte and of the self-referential pointer
/// the DIR64 relocation fixes up, both inside `.text`.
const MARKER_RVA: usize = 0x1000;
const PTR_RVA: usize = 0x1008;
/// The `.text` marker byte, an `int3`, so the map test can confirm the
/// section's raw bytes were copied to their RVA.
const MARKER_BYTE: u8 = 0xCC;

const PE_OFF: usize = 0x40;
const COFF: usize = PE_OFF + 4;
const OPT: usize = COFF + 20;
const SEC_BASE: usize = OPT + 0xF0;

fn put16(b: &mut [u8], o: usize, v: u16) {
    b[o..o + 2].copy_from_slice(&v.to_le_bytes());
}

fn put32(b: &mut [u8], o: usize, v: u32) {
    b[o..o + 4].copy_from_slice(&v.to_le_bytes());
}

fn put64(b: &mut [u8], o: usize, v: u64) {
    b[o..o + 8].copy_from_slice(&v.to_le_bytes());
}

fn get64(b: &[u8], o: usize) -> u64 {
    u64::from_le_bytes(b[o..o + 8].try_into().unwrap())
}

/// Build a minimal but structurally valid PE32+ image: a DOS stub, the PE
/// signature, a COFF header, a PE32+ optional header with a base-relocation
/// directory, a `.text` section carrying a marker byte and a self-referential
/// pointer at [`PTR_RVA`], and a `.reloc` section carrying one DIR64 fixup
/// for that pointer. RVAs and file offsets are kept identical so the same
/// buffer serves both the file-offset parser and the RVA-indexed relocator.
/// The pointer's value is `image_base + PTR_RVA`, so after relocation it
/// equals its own mapped address.
fn build_pe(image_base: u64) -> Vec<u8> {
    const IMPORT_SCN_MEM_READ: u32 = 0x4000_0000;
    let pe_off = 0x40usize;
    let opt = pe_off + 4 + 20;
    let size_of_optional = 0xF0usize; // 112 + 16*8
    let sec_base = opt + size_of_optional;
    let headers_end = sec_base + 2 * 40;

    let text_rva = 0x1000usize;
    let reloc_rva = 0x2000usize;
    let mut buf = vec![0u8; 0x3000];

    put16(&mut buf, 0, DOS_MAGIC);
    put32(&mut buf, 0x3C, pe_off as u32);
    put32(&mut buf, pe_off, PE_SIGNATURE);

    // COFF header.
    let coff = pe_off + 4;
    put16(&mut buf, coff, MACHINE_AMD64);
    put16(&mut buf, coff + 2, 2); // two sections
    put16(&mut buf, coff + 16, size_of_optional as u16);

    // Optional header (PE32+).
    put16(&mut buf, opt, OPT_MAGIC_PE32PLUS);
    put32(&mut buf, opt + 16, text_rva as u32); // entry rva
    put64(&mut buf, opt + 24, image_base);
    put32(&mut buf, opt + 56, 0x3000); // size of image
    put32(&mut buf, opt + 60, headers_end as u32); // size of headers
    put32(&mut buf, opt + 108, 16); // number of data directories
                                    // Directory 5 (base relocations): rva, size.
    let dir5 = opt + 112 + DIR_BASERELOC as usize * 8;
    put32(&mut buf, dir5, reloc_rva as u32);
    put32(&mut buf, dir5 + 4, 12); // one 8-byte header + one entry (padded)

    // Section header for `.text`.
    buf[sec_base..sec_base + 5].copy_from_slice(b".text");
    put32(&mut buf, sec_base + 8, 0x1000); // virtual size
    put32(&mut buf, sec_base + 12, text_rva as u32); // virtual address
    put32(&mut buf, sec_base + 16, 0x1000); // size of raw data
    put32(&mut buf, sec_base + 20, text_rva as u32); // pointer to raw data
    put32(&mut buf, sec_base + 36, IMPORT_SCN_MEM_READ); // characteristics

    // Section header for `.reloc`.
    let sec2 = sec_base + 40;
    buf[sec2..sec2 + 6].copy_from_slice(b".reloc");
    put32(&mut buf, sec2 + 8, 0x1000);
    put32(&mut buf, sec2 + 12, reloc_rva as u32);
    put32(&mut buf, sec2 + 16, 0x1000);
    put32(&mut buf, sec2 + 20, reloc_rva as u32);
    put32(&mut buf, sec2 + 36, IMPORT_SCN_MEM_READ);

    // `.text` contents: the marker byte and the self-referential pointer.
    buf[MARKER_RVA] = MARKER_BYTE;
    put64(&mut buf, PTR_RVA, image_base + PTR_RVA as u64);

    // Base-relocation block: page rva 0x1000, one DIR64 entry at page offset
    // 8 (targeting PTR_RVA).
    put32(&mut buf, reloc_rva, text_rva as u32);
    put32(&mut buf, reloc_rva + 4, 12);
    put16(
        &mut buf,
        reloc_rva + 8,
        (REL_DIR64 << 12) | (PTR_RVA as u16 - text_rva as u16),
    );

    buf
}

fn message<T>(r: Result<T, Error>) -> String {
    match r {
        Err(Error::BadBinary(msg)) => msg,
        _ => panic!("expected a bad binary"),
    }
}

#[test]
fn parses_headers_and_sections() {
    let pe = parse_pe(&build_pe(0x1_4000_0000)).unwrap();
    assert_eq!(pe.image_base, 0x1_4000_0000);
    assert_eq!(pe.entry_rva, 0x1000);
    assert_eq!(pe.size_of_image, 0x3000);
    assert_eq!(pe.reloc_dir, (0x2000, 12));
    assert!(pe.size_of_headers > 0);
    assert_eq!(pe.import_dir, (0, 0));
    assert_eq!(pe.sections.len(), 2);
    assert_eq!(&pe.sections[0].name[..5], b".text");
    assert_eq!(&pe.sections[1].name[..6], b".reloc");
    // A non-writable section maps read-only (guest code is translated, not
    // run natively, so it is never host-executable).
    assert_eq!(pe.sections[0].prot(), Prot::Read);
}

#[test]
fn section_prot_tracks_write_bit() {
    let writable = Section {
        name: *b".data\0\0\0",
        virtual_address: 0x1000,
        virtual_size: 0x10,
        pointer_to_raw_data: 0x1000,
        size_of_raw_data: 0x10,
        characteristics: SCN_MEM_WRITE,
    };
    let readonly = Section {
        characteristics: 0,
        ..writable.clone()
    };
    assert_eq!(writable.prot(), Prot::ReadWrite);
    assert_eq!(readonly.prot(), Prot::Read);
}

#[test]
fn writable_and_executable_section_is_not_executable() {
    let section = Section {
        name: *b".packed\0",
        virtual_address: 0,
        virtual_size: 0,
        pointer_to_raw_data: 0,
        size_of_raw_data: 0,
        characteristics: 0xE000_0020,
    };
    assert_eq!(section.prot(), Prot::ReadWrite);
}

#[test]
fn rejects_non_pe() {
    assert!(parse_pe(&[0, 1, 2, 3]).is_err());
    let mut buf = vec![0u8; 0x200];
    buf[0..2].copy_from_slice(&DOS_MAGIC.to_le_bytes());
    // e_lfanew points past the buffer.
    buf[0x3C..0x40].copy_from_slice(&0xFFFF_u32.to_le_bytes());
    assert!(parse_pe(&buf).is_err());
}

#[test]
fn names_the_first_thing_that_is_wrong() {
    let good = build_pe(0x1_4000_0000);
    let broken = |at: usize| {
        let mut b = good.clone();
        b[at] ^= 0xFF;
        message(parse_pe(&b))
    };
    assert_eq!(broken(0), "not a PE image (no MZ header)");
    assert_eq!(broken(PE_OFF), "bad PE signature");
    assert_eq!(broken(COFF), "not an x86-64 PE image");
    assert_eq!(broken(OPT), "not a 64-bit (PE32+) image");
    assert_eq!(message(parse_pe(&[])), "truncated PE header");
    assert_eq!(message(parse_pe(&good[..0x3F])), "truncated PE header");
    assert_eq!(message(parse_pe(&good[..OPT + 111])), "truncated PE header");
}

#[test]
fn a_cut_section_table_is_reported_by_where_it_is_cut() {
    let good = build_pe(0x1_4000_0000);
    let second = SEC_BASE + 40;
    assert_eq!(
        message(parse_pe(&good[..SEC_BASE + 7])),
        "truncated section table"
    );
    assert_eq!(
        message(parse_pe(&good[..second + 7])),
        "truncated section table"
    );
    assert_eq!(message(parse_pe(&good[..second + 8])), "truncated PE header");
    assert_eq!(message(parse_pe(&good[..second + 39])), "truncated PE header");
    assert!(parse_pe(&good[..second + 40]).is_ok());
}

#[test]
fn undeclared_directories_are_empty() {
    let mut buf = build_pe(0x1_4000_0000);
    put32(&mut buf, OPT + 108, 5);
    assert_eq!(parse_pe(&buf).unwrap().reloc_dir, (0, 0));
    put32(&mut buf, OPT + 112 + 8, 0x77);
    put32(&mut buf, OPT + 112 + 12, 0x88);
    assert_eq!(parse_pe(&buf).unwrap().import_dir, (0x77, 0x88));
    put32(&mut buf, OPT + 108, 1);
    assert_eq!(parse_pe(&buf).unwrap().import_dir, (0, 0));
}

#[test]
fn section_fields_come_from_their_offsets() {
    let mut buf = build_pe(0x1_4000_0000);
    put32(&mut buf, SEC_BASE + 8, 0x11);
    put32(&mut buf, SEC_BASE + 12, 0x22);
    put32(&mut buf, SEC_BASE + 16, 0x33);
    put32(&mut buf, SEC_BASE + 20, 0x44);
    put32(&mut buf, SEC_BASE + 36, 0x55);
    let expected = Section {
        name: *b".text\0\0\0",
        virtual_size: 0x11,
        virtual_address: 0x22,
        size_of_raw_data: 0x33,
        pointer_to_raw_data: 0x44,
        characteristics: 0x55,
    };
    assert_eq!(parse_pe(&buf).unwrap().sections[0], expected);
}

#[test]
fn trailing_bytes_do_not_matter() {
    let mut buf = build_pe(0x1_4000_0000);
    buf.truncate(SEC_BASE + 80);
    let short = parse_pe(&buf).unwrap();
    buf.extend_from_slice(&[0xAB; 100]);
    let long = parse_pe(&buf).unwrap();
    assert_eq!(short.sections, long.sections);
    assert_eq!(short.image_base, long.image_base);
    assert_eq!(short.reloc_dir, long.reloc_dir);
}

#[test]
fn a_cloned_header_is_the_same() {
    let pe = parse_pe(&build_pe(0x1_4000_0000)).unwrap();
    let copy = pe.clone();
    assert_eq!(copy.sections, pe.sections);
    assert_eq!(copy.entry_rva, pe.entry_rva);
    assert_eq!(copy.reloc_dir, pe.reloc_dir);
}

#[test]
fn applies_dir64_relocation() {
    let image_base = 0x1_4000_0000u64;
    let mut image = build_pe(image_base);
    let pe = parse_pe(&image).unwrap();

    // Slide the image up by 0x10_0000 and relocate.
    let delta = 0x10_0000i64;
    apply_relocations(&mut image, pe.reloc_dir, delta).unwrap();

    let fixed = u64::from_le_bytes(image[PTR_RVA..PTR_RVA + 8].try_into().unwrap());
    assert_eq!(fixed, image_base + PTR_RVA as u64 + delta as u64);
}

#[test]
fn zero_delta_is_a_noop() {
    let image_base = 0x1_4000_0000u64;
    let mut image = build_pe(image_base);
    let pe = parse_pe(&image).unwrap();
    let before = image[PTR_RVA..PTR_RVA + 8].to_vec();
    apply_relocations(&mut image, pe.reloc_dir, 0).unwrap();
    assert_eq!(&image[PTR_RVA..PTR_RVA + 8], &before[..]);
}

#[test]
fn relocation_touches_nothing_else() {
    let before = build_pe(0x1_4000_0000);
    let mut image = before.clone();
    apply_relocations(&mut image, (0x2000, 12), -0x1234_5678).unwrap();
    for i in 0..before.len() {
        if !(PTR_RVA..PTR_RVA + 8).contains(&i) {
            assert_eq!(image[i], before[i]);
        }
    }
    assert_eq!(get64(&image, PTR_RVA), 0x1_4000_1008 - 0x1234_5678);
}

#[test]
fn slides_add_up_and_come_undone() {
    let before = build_pe(0x1_4000_0000);
    let dir = (0x2000, 12);
    let mut twice = before.clone();
    apply_relocations(&mut twice, dir, 0x7000).unwrap();
    apply_relocations(&mut twice, dir, -0x2000).unwrap();
    let mut once = before.clone();
    apply_relocations(&mut once, dir, 0x5000).unwrap();
    assert_eq!(twice, once);
    apply_relocations(&mut once, dir, -0x5000).unwrap();
    assert_eq!(once, before);

    // A defective stream reports its defect on the way back too.
    let mut defective = before.clone();
    put16(&mut defective, 0x200A, 3 << 12);
    let start = defective.clone();
    for delta in [0x5000, -0x5000] {
        assert_eq!(
            message(apply_relocations(&mut defective, dir, delta)),
            "unsupported base-relocation type"
        );
    }
    assert_eq!(defective, start);
}

#[test]
fn an_absent_directory_is_a_noop() {
    let before = vec![0xFFu8; 16];
    let mut image = before.clone();
    apply_relocations(&mut image, (0, 0), 5).unwrap();
    apply_relocations(&mut image, (0xFFFF_0000, 0), 5).unwrap();
    assert_eq!(image, before);
}

#[test]
fn relocation_wraps_around() {
    let mut image = vec![0u8; 32];
    put32(&mut image, 0, 16);
    put32(&mut image, 4, 10);
    put16(&mut image, 8, REL_DIR64 << 12);
    put64(&mut image, 16, u64::MAX);
    apply_relocations(&mut image, (0, 10), 3).unwrap();
    assert_eq!(get64(&image, 16), 2);
    apply_relocations(&mut image, (0, 10), i64::MIN).unwrap();
    assert_eq!(get64(&image, 16), 0x8000_0000_0000_0002);
}

#[test]
fn defective_relocations_are_reported() {
    let stream = |size: u32, entry: u16, page: u32| {
        let mut image = vec![0u8; 32];
        put32(&mut image, 0, page);
        put32(&mut image, 4, size);
        put16(&mut image, 8, entry);
        image
    };
    let relocate = |mut image: Vec<u8>, dir: (u32, u32)| apply_relocations(&mut image, dir, 1);
    let dir64 = REL_DIR64 << 12;
    assert_eq!(
        message(relocate(stream(7, dir64, 16), (0, 10))),
        "malformed base-relocation block"
    );
    assert_eq!(
        message(relocate(stream(11, dir64, 16), (0, 10))),
        "malformed base-relocation block"
    );
    assert_eq!(
        message(relocate(stream(10, 3 << 12, 16), (0, 10))),
        "unsupported base-relocation type"
    );
    assert_eq!(
        message(relocate(stream(10, dir64 | 1, 24), (0, 10))),
        "truncated PE header"
    );
    assert_eq!(
        message(relocate(stream(10, dir64, 16), (30, 10))),
        "truncated PE header"
    );
    // The last address that still lies in the image, padding, and a rest that
    // is too short for a block are all fine.
    assert!(relocate(stream(10, dir64, 24), (0, 10)).is_ok());
    assert!(relocate(stream(10, 0, 24), (0, 10)).is_ok());
    assert!(relocate(stream(10, dir64, 24), (0, 17)).is_ok());
}

#[test]
fn relocations_before_a_defect_are_applied() {
    let mut image = vec![0u8; 32];
    put32(&mut image, 0, 16);
    put32(&mut image, 4, 12);
    put16(&mut image, 8, REL_DIR64 << 12);
    put16(&mut image, 10, 5 << 12);
    assert!(apply_relocations(&mut image, (0, 12), 9).is_err());
    assert_eq!(get64(&image, 16), 9);
}

fn planned(file: &[u8]) -> MapPlan {
    plan_map(file).unwrap()
}

/// Map `file` at `base` in zeroed memory.
fn map_at(file: &[u8], base: u64) -> (MapOutcome, Vec<u8>) {
    let plan = planned(file);
    let mut image = vec![0u8; plan.size];
    let outcome = map_pe(&plan, file, base, Ok(()), &mut image);
    (outcome, image)
}

fn mapped(outcome: MapOutcome) -> (MappedImage, Vec<Protection>) {
    match outcome {
        MapOutcome::Mapped { image, protections } => (image, protections),
        MapOutcome::Failed { .. } => panic!("mapping failed"),
    }
}

#[test]
fn maps_copies_and_relocates() {
    let image_base = 0x1_4000_0000u64;
    let base = 0x7F12_3456_0000u64;
    let (outcome, image) = map_at(&build_pe(image_base), base);
    let (mapped, _) = mapped(outcome);

    assert_eq!(mapped.entry, mapped.base + MARKER_RVA as u64);
    // The `.text` raw bytes reached their RVA.
    assert_eq!(image[MARKER_RVA], MARKER_BYTE);
    // The self-referential pointer was relocated to its mapped address,
    // wherever the reservation landed.
    assert_eq!(get64(&image, PTR_RVA), mapped.base + PTR_RVA as u64);
    assert_eq!(mapped.base, base);
    assert_eq!(mapped.size, 0x3000);
}

#[test]
fn an_image_at_its_preferred_base_is_the_file() {
    let file = build_pe(0x1_4000_0000);
    let (outcome, image) = map_at(&file, 0x1_4000_0000);
    mapped(outcome);
    let headers = SEC_BASE + 80;
    assert_eq!(image[..headers], file[..headers]);
    assert!(image[headers..0x1000].iter().all(|b| *b == 0));
    assert_eq!(image[0x1000..], file[0x1000..]);
}

#[test]
fn an_image_below_its_preferred_base_slides_down() {
    let (outcome, image) = map_at(&build_pe(0x1_4000_0000), 0x10_0000);
    mapped(outcome);
    assert_eq!(get64(&image, PTR_RVA), 0x10_0000 + PTR_RVA as u64);
}

#[test]
fn protections_are_tightened_per_section() {
    let mut file = build_pe(0x1_4000_0000);
    put32(&mut file, SEC_BASE + 40 + 36, 0xC000_0000); // .reloc is writable
    put32(&mut file, SEC_BASE + 40 + 8, 0x9000); // and larger than the image
    let base = 0x20_0000;
    let (outcome, _) = map_at(&file, base);
    let expected = [
        (base, SEC_BASE + 80, Prot::Read),
        (base + 0x1000, 0x1000, Prot::Read),
        (base + 0x2000, 0x1000, Prot::ReadWrite),
    ];
    let (_, protections) = mapped(outcome);
    assert_eq!(protections.len(), 3);
    for (p, (addr, len, prot)) in protections.iter().zip(expected) {
        assert_eq!(*p, Protection { addr, len, prot });
    }
}

#[test]
fn a_section_past_the_image_is_not_protected() {
    let mut file = build_pe(0x1_4000_0000);
    put32(&mut file, SEC_BASE + 40 + 12, 0x3000);
    put32(&mut file, SEC_BASE + 40 + 16, 0);
    put32(&mut file, OPT + 112 + 40 + 4, 0);
    let (_, protections) = mapped(map_at(&file, 0x20_0000).0);
    assert_eq!(protections.len(), 2);
}

#[test]
fn a_malformed_image_is_released() {
    let failure = |file: &[u8]| match map_at(file, 0x20_0000).0 {
        MapOutcome::Failed { error, base, size } => {
            assert_eq!((base, size), (0x20_0000, 0x3000));
            message::<()>(Err(error))
        }
        MapOutcome::Mapped { .. } => panic!("mapped a malformed image"),
    };
    let mut past_image = build_pe(0x1_4000_0000);
    put32(&mut past_image, SEC_BASE + 12, 0x2001);
    assert_eq!(failure(&past_image), "section out of bounds");
    let mut past_file = build_pe(0x1_4000_0000);
    put32(&mut past_file, SEC_BASE + 20, 0x2001);
    assert_eq!(failure(&past_file), "section out of bounds");
    let mut bad_block = build_pe(0x1_4000_0000);
    put32(&mut bad_block, 0x2004, 3);
    assert_eq!(failure(&bad_block), "malformed base-relocation block");
}

#[test]
fn a_failed_commit_is_released() {
    let file = build_pe(0x1_4000_0000);
    let plan = planned(&file);
    let committed = Err(Error::io("mprotect commit", 12));
    match map_pe(&plan, &file, 0x20_0000, committed, &mut []) {
        MapOutcome::Failed { error, base, size } => {
            assert_eq!(error, Error::io("mprotect commit", 12));
            assert_eq!((base, size), (0x20_0000, 0x3000));
        }
        MapOutcome::Mapped { .. } => panic!("mapped without memory"),
    }
}

#[test]
fn an_empty_image_is_refused() {
    let mut file = build_pe(0x1_4000_0000);
    put32(&mut file, OPT + 56, 0);
    assert_eq!(message(plan_map(&file)), "image has zero size");
    assert_eq!(message(plan_map(&[])), "truncated PE header");
}

#[test]
fn an_image_is_committed_whole_and_writable() {
    let plan = planned(&build_pe(0x1_4000_0000));
    let expected = Protection {
        addr: 0x20_0000,
        len: 0x3000,
        prot: Prot::ReadWrite,
    };
    assert_eq!(plan.commit(0x20_0000), expected);
}

#[test]
fn the_last_section_to_cover_a_byte_wins() {
    let section = |va: u32, raw: u32, len: u32| Section {
        name: [0; 8],
        virtual_address: va,
        virtual_size: len,
        pointer_to_raw_data: raw,
        size_of_raw_data: len + 1,
        characteristics: 0,
    };
    let pe = ParsedPe {
        image_base: 0,
        entry_rva: 0,
        size_of_image: 8,
        size_of_headers: 100,
        sections: vec![section(2, 0, 4), section(4, 4, 3)],
        reloc_dir: (0, 0),
        import_dir: (0, 0),
    };
    let file = [10, 11, 12, 13, 14, 15, 16];
    let mut image = vec![99u8; 8];
    load_image(&mut image, &file, &pe, 0x5000).unwrap();
    assert_eq!(image, [10, 11, 10, 11, 14, 15, 16, 99]);
}
