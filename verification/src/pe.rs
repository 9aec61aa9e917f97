//! PE32+ image parsing for the Windows guest loader.
//!
//! Reads a Portable Executable's bytes, validates that it is a 64-bit x86-64
//! image, and reports the pieces the loader needs to map it: the preferred
//! image base, the entry RVA, the section table, and the base-relocation and
//! import data directories. Only the fields the loader consumes are decoded.

use vstd::prelude::*;

use crate::bytes::{fits, le16, le32, le64};
use crate::error::{reports, Error, ErrorView};
use crate::vm::Prot;

verus! {

/// `MZ`: the DOS header magic every PE image still begins with.
pub const DOS_MAGIC: u16 = 0x5A4D;

/// `PE\0\0`: the signature `e_lfanew` points at, little-endian.
pub const PE_SIGNATURE: u32 = 0x0000_4550;

/// `IMAGE_FILE_MACHINE_AMD64`.
pub const MACHINE_AMD64: u16 = 0x8664;

/// `IMAGE_NT_OPTIONAL_HDR64_MAGIC`: the PE32+ (64-bit) optional header.
pub const OPT_MAGIC_PE32PLUS: u16 = 0x20B;

/// The section `Characteristics` bit the loader honors.
pub const SCN_MEM_WRITE: u32 = 0x8000_0000;

/// The import data directory's index.
pub const DIR_IMPORT: u64 = 1;

/// The base-relocation data directory's index.
pub const DIR_BASERELOC: u64 = 5;

/// One section of the image: its RVA and virtual size (the span it occupies in
/// the mapped image), the file region that backs it, and the protection its
/// `Characteristics` call for.
#[derive(Debug, PartialEq, Eq)]
pub struct Section {
    pub name: [u8; 8],
    pub virtual_address: u32,
    pub virtual_size: u32,
    pub pointer_to_raw_data: u32,
    pub size_of_raw_data: u32,
    pub characteristics: u32,
}

impl Clone for Section {
    fn clone(&self) -> (copy: Self)
        ensures
            copy == *self,
    {
        Section {
            name: self.name,
            virtual_address: self.virtual_address,
            virtual_size: self.virtual_size,
            pointer_to_raw_data: self.pointer_to_raw_data,
            size_of_raw_data: self.size_of_raw_data,
            characteristics: self.characteristics,
        }
    }
}

impl Section {
    /// Whether the guest may store to the section: the top bit of its
    /// `Characteristics`.
    pub open spec fn writable(self) -> bool {
        self.characteristics >= SCN_MEM_WRITE
    }

    /// The host protection a guest section is mapped with. Guest code runs
    /// through the translator, never natively, so a section is never mapped
    /// host-executable: it needs only to be readable for translation, and
    /// writable when the guest may store to it.
    pub fn prot(&self) -> (prot: Prot)
        ensures
            prot == section_prot(*self),
            prot != Prot::ReadWriteExec,
    {
        let c = self.characteristics;
        assert(c & 0x8000_0000u32 != 0 <==> c >= 0x8000_0000u32) by (bit_vector);
        if self.characteristics & SCN_MEM_WRITE != 0 {
            Prot::ReadWrite
        } else {
            Prot::Read
        }
    }
}

/// The protection [`Section::prot`] gives.
pub open spec fn section_prot(section: Section) -> Prot {
    if section.writable() {
        Prot::ReadWrite
    } else {
        Prot::Read
    }
}

/// The parsed pieces of a PE32+ image the loader consumes.
#[derive(Debug)]
pub struct ParsedPe {
    /// The image's preferred load address.
    pub image_base: u64,
    /// The entry point, as an RVA from the load base.
    pub entry_rva: u32,
    /// The virtual size of the whole mapped image, headers included.
    pub size_of_image: u32,
    /// The size of the headers region at the start of the image.
    pub size_of_headers: u32,
    /// The section table.
    pub sections: Vec<Section>,
    /// The base-relocation directory `(rva, size)`, `(0, 0)` if absent.
    pub reloc_dir: (u32, u32),
    /// The import directory `(rva, size)`, `(0, 0)` if absent.
    pub import_dir: (u32, u32),
}

impl Clone for ParsedPe {
    fn clone(&self) -> (copy: Self)
        ensures
            copy.sections@ == self.sections@,
            copy == (ParsedPe { sections: copy.sections, ..*self }),
    {
        let sections = self.sections.clone();
        assert(sections@ =~= self.sections@);
        ParsedPe {
            image_base: self.image_base,
            entry_rva: self.entry_rva,
            size_of_image: self.size_of_image,
            size_of_headers: self.size_of_headers,
            sections,
            reloc_dir: (self.reloc_dir.0, self.reloc_dir.1),
            import_dir: (self.import_dir.0, self.import_dir.1),
        }
    }
}

/// Where the COFF file header starts: past the signature that the field at
/// 0x3C points to.
pub open spec fn coff_offset(buf: Seq<u8>) -> int {
    le32(buf, 0x3C) + 4
}

/// Where the optional header starts: past the 20-byte COFF header.
pub open spec fn optional_offset(buf: Seq<u8>) -> int {
    coff_offset(buf) + 20
}

/// Where the entry of data directory `index` stands.
pub open spec fn directory_offset(buf: Seq<u8>, index: int) -> int {
    optional_offset(buf) + 112 + index * 8
}

/// Whether the image declares a data directory `index`.
pub open spec fn has_directory(buf: Seq<u8>, index: int) -> bool {
    index < le32(buf, optional_offset(buf) + 108)
}

/// Data directory `index` as `(rva, size)`, `(0, 0)` if it is not declared.
pub open spec fn directory(buf: Seq<u8>, index: int) -> (u32, u32) {
    if has_directory(buf, index) {
        let d = directory_offset(buf, index);
        (le32(buf, d) as u32, le32(buf, d + 4) as u32)
    } else {
        (0, 0)
    }
}

/// How many sections the COFF header declares.
pub open spec fn section_count(buf: Seq<u8>) -> int {
    le16(buf, coff_offset(buf) + 2)
}

/// Where the section table starts: past the optional header.
pub open spec fn section_table(buf: Seq<u8>) -> int {
    optional_offset(buf) + le16(buf, coff_offset(buf) + 16)
}

/// Whether `section` is what the 40-byte section header at `off` holds.
pub open spec fn is_section_at(section: Section, buf: Seq<u8>, off: int) -> bool {
    &&& section.name@ == buf.subrange(off, off + 8)
    &&& section.virtual_size == le32(buf, off + 8)
    &&& section.virtual_address == le32(buf, off + 12)
    &&& section.size_of_raw_data == le32(buf, off + 16)
    &&& section.pointer_to_raw_data == le32(buf, off + 20)
    &&& section.characteristics == le32(buf, off + 36)
}

/// Whether `pe` holds what the headers of `buf` say.
pub open spec fn describes(pe: ParsedPe, buf: Seq<u8>) -> bool {
    let opt = optional_offset(buf);
    &&& pe.entry_rva == le32(buf, opt + 16)
    &&& pe.image_base == le64(buf, opt + 24)
    &&& pe.size_of_image == le32(buf, opt + 56)
    &&& pe.size_of_headers == le32(buf, opt + 60)
    &&& pe.import_dir == directory(buf, DIR_IMPORT as int)
    &&& pe.reloc_dir == directory(buf, DIR_BASERELOC as int)
    &&& pe.sections.len() == section_count(buf)
    &&& forall|i: int|
        0 <= i < pe.sections.len() ==> is_section_at(
            #[trigger] pe.sections[i],
            buf,
            section_table(buf) + 40 * i,
        )
}

/// Why `buf` is not a 64-bit x86-64 PE image, or `None` if it is one. Where
/// several things are wrong, the first in the order of the headers counts.
pub open spec fn pe_defect(buf: Seq<u8>) -> Option<Seq<char>> {
    let truncated = Some("truncated PE header"@);
    let opt = optional_offset(buf);
    if !fits(buf, 0, 2) {
        truncated
    } else if le16(buf, 0) != DOS_MAGIC {
        Some("not a PE image (no MZ header)"@)
    } else if !fits(buf, 0x3C, 4) || !fits(buf, le32(buf, 0x3C), 4) {
        truncated
    } else if le32(buf, le32(buf, 0x3C)) != PE_SIGNATURE {
        Some("bad PE signature"@)
    } else if !fits(buf, coff_offset(buf), 2) {
        truncated
    } else if le16(buf, coff_offset(buf)) != MACHINE_AMD64 {
        Some("not an x86-64 PE image"@)
    } else if !fits(buf, opt, 2) {
        truncated
    } else if le16(buf, opt) != OPT_MAGIC_PE32PLUS {
        Some("not a 64-bit (PE32+) image"@)
    } else if !fits(buf, opt, 112) {
        truncated
    } else if has_directory(buf, DIR_IMPORT as int) && !fits(
        buf,
        directory_offset(buf, DIR_IMPORT as int),
        8,
    ) {
        truncated
    } else if has_directory(buf, DIR_BASERELOC as int) && !fits(
        buf,
        directory_offset(buf, DIR_BASERELOC as int),
        8,
    ) {
        truncated
    } else {
        section_table_defect(buf.len() as int, section_table(buf), section_count(buf))
    }
}

/// What is wrong with a table of `count` 40-byte section headers at `table` in
/// a file of `len` bytes: nothing if it lies in the file, else whether the
/// first header that does not lie in it is cut off within its 8-byte name or
/// past it.
pub open spec fn section_table_defect(len: int, table: int, count: int) -> Option<Seq<char>> {
    let whole = if len < table {
        0
    } else {
        (len - table) / 40
    };
    if count <= whole {
        None
    } else if table + 40 * whole + 8 <= len {
        Some("truncated PE header"@)
    } else {
        Some("truncated section table"@)
    }
}

/// A [`Error::BadBinary`] that says `msg`.
pub fn bad(msg: &str) -> (e: Error)
    ensures
        e@ == ErrorView::BadBinary(msg@),
{
    Error::BadBinary(msg.to_owned())
}

/// What a read of `n` bytes at `off` lacks.
pub open spec fn read_defect(buf: Seq<u8>, off: int, n: int) -> Option<Seq<char>> {
    if fits(buf, off, n) {
        None
    } else {
        Some("truncated PE header"@)
    }
}

/// The 16-bit field at `off`.
pub fn read_u16(buf: &[u8], off: u64) -> (r: Result<u16, Error>)
    ensures
        reports(r, read_defect(buf@, off as int, 2)),
        r matches Ok(v) ==> v == le16(buf@, off as int),
{
    let len: u64 = buf.len() as u64;
    if off > len || len - off < 2 {
        return Err(bad("truncated PE header"));
    }
    let o: usize = off as usize;
    Ok(buf[o] as u16 + 0x100 * (buf[o + 1] as u16))
}

/// The 32-bit field at `off`.
pub fn read_u32(buf: &[u8], off: u64) -> (r: Result<u32, Error>)
    ensures
        reports(r, read_defect(buf@, off as int, 4)),
        r matches Ok(v) ==> v == le32(buf@, off as int),
{
    let len: u64 = buf.len() as u64;
    if off > len || len - off < 4 {
        return Err(bad("truncated PE header"));
    }
    let o: usize = off as usize;
    let low: u32 = buf[o] as u32 + 0x100 * (buf[o + 1] as u32);
    let high: u32 = buf[o + 2] as u32 + 0x100 * (buf[o + 3] as u32);
    Ok(low + 0x1_0000 * high)
}

/// The 64-bit field at `off`.
pub fn read_u64(buf: &[u8], off: u64) -> (r: Result<u64, Error>)
    ensures
        reports(r, read_defect(buf@, off as int, 8)),
        r matches Ok(v) ==> v == le64(buf@, off as int),
{
    let len: u64 = buf.len() as u64;
    if off > len || len - off < 8 {
        return Err(bad("truncated PE header"));
    }
    let low: u32 = read_u32(buf, off)?;
    let high: u32 = read_u32(buf, off + 4)?;
    Ok(low as u64 + 0x1_0000_0000 * (high as u64))
}

/// Data directory `index`, read from the entry at `dirs + 8 * index` if the
/// image declares that many directories.
fn read_dir(buf: &[u8], dirs: u64, num_dirs: u64, index: u64) -> (r: Result<(u32, u32), Error>)
    requires
        dirs <= 0x2_0000_0000,
        index < 16,
    ensures
        index >= num_dirs ==> r == Ok::<(u32, u32), Error>((0u32, 0u32)),
        index < num_dirs ==> reports(r, read_defect(buf@, dirs + index * 8, 8)),
        index < num_dirs ==> (r matches Ok(d) ==> d.0 == le32(buf@, dirs + index * 8) && d.1
            == le32(buf@, dirs + index * 8 + 4)),
{
    if index >= num_dirs {
        return Ok((0, 0));
    }
    let d: u64 = dirs + index * 8;
    let rva: u32 = read_u32(buf, d)?;
    let size: u32 = read_u32(buf, d + 4)?;
    Ok((rva, size))
}

/// The section header at `off`.
fn read_section(buf: &[u8], off: u64) -> (r: Result<Section, Error>)
    requires
        off <= 0x2_0000_0000,
    ensures
        reports(
            r,
            if !fits(buf@, off as int, 8) {
                Some("truncated section table"@)
            } else {
                read_defect(buf@, off as int, 40)
            },
        ),
        r matches Ok(s) ==> is_section_at(s, buf@, off as int),
{
    let len: u64 = buf.len() as u64;
    if off > len || len - off < 8 {
        return Err(bad("truncated section table"));
    }
    let o: usize = off as usize;
    let name: [u8; 8] = [
        buf[o],
        buf[o + 1],
        buf[o + 2],
        buf[o + 3],
        buf[o + 4],
        buf[o + 5],
        buf[o + 6],
        buf[o + 7],
    ];
    assert(name@ =~= buf@.subrange(off as int, off + 8));
    Ok(
        Section {
            name,
            virtual_size: read_u32(buf, off + 8)?,
            virtual_address: read_u32(buf, off + 12)?,
            size_of_raw_data: read_u32(buf, off + 16)?,
            pointer_to_raw_data: read_u32(buf, off + 20)?,
            characteristics: read_u32(buf, off + 36)?,
        },
    )
}

/// Parse a PE32+ image from its raw file bytes. Rejects anything that is not a
/// 64-bit x86-64 PE with [`Error::BadBinary`].
pub fn parse_pe(buf: &[u8]) -> (r: Result<ParsedPe, Error>)
    ensures
        reports(r, pe_defect(buf@)),
        r matches Ok(pe) ==> describes(pe, buf@),
{
    if read_u16(buf, 0)? != DOS_MAGIC {
        return Err(bad("not a PE image (no MZ header)"));
    }
    // e_lfanew at offset 0x3C names the PE signature.

    let pe_off: u64 = read_u32(buf, 0x3C)? as u64;
    if read_u32(buf, pe_off)? != PE_SIGNATURE {
        return Err(bad("bad PE signature"));
    }
    // COFF file header follows the 4-byte signature.

    let coff: u64 = pe_off + 4;
    if read_u16(buf, coff)? != MACHINE_AMD64 {
        return Err(bad("not an x86-64 PE image"));
    }
    let num_sections: u64 = read_u16(buf, coff + 2)? as u64;
    let size_of_optional: u64 = read_u16(buf, coff + 16)? as u64;

    // Optional header (PE32+) follows the 20-byte COFF header.
    let opt: u64 = coff + 20;
    if read_u16(buf, opt)? != OPT_MAGIC_PE32PLUS {
        return Err(bad("not a 64-bit (PE32+) image"));
    }
    let entry_rva: u32 = read_u32(buf, opt + 16)?;
    let image_base: u64 = read_u64(buf, opt + 24)?;
    let size_of_image: u32 = read_u32(buf, opt + 56)?;
    let size_of_headers: u32 = read_u32(buf, opt + 60)?;
    let num_dirs: u64 = read_u32(buf, opt + 108)? as u64;

    let dirs: u64 = opt + 112;
    let import_dir = read_dir(buf, dirs, num_dirs, DIR_IMPORT)?;
    let reloc_dir = read_dir(buf, dirs, num_dirs, DIR_BASERELOC)?;

    // Section headers (40 bytes each) follow the optional header.
    let sec_base: u64 = opt + size_of_optional;
    let mut sections: Vec<Section> = Vec::new();
    let mut i: u64 = 0;
    while i < num_sections
        invariant
            i <= num_sections <= 0xFFFF,
            sec_base <= 0x1_0002_0000,
            sections.len() == i,
            i > 0 ==> sec_base + 40 * i <= buf@.len(),
            forall|k: int|
                0 <= k < i ==> is_section_at(#[trigger] sections[k], buf@, sec_base + 40 * k),
            num_sections == section_count(buf@),
            sec_base == section_table(buf@),
            pe_defect(buf@) == section_table_defect(
                buf@.len() as int,
                sec_base as int,
                num_sections as int,
            ),
        decreases num_sections - i,
    {
        let section = read_section(buf, sec_base + i * 40)?;
        sections.push(section);
        i = i + 1;
    }
    Ok(
        ParsedPe {
            image_base,
            entry_rva,
            size_of_image,
            size_of_headers,
            sections,
            reloc_dir,
            import_dir,
        },
    )
}

/// Whether `buf` holds the headers of a 64-bit x86-64 PE image in full.
pub open spec fn is_pe32plus_amd64(buf: Seq<u8>) -> bool {
    let opt = optional_offset(buf);
    &&& fits(buf, 0x3C, 4)
    &&& le16(buf, 0) == DOS_MAGIC
    &&& fits(buf, opt, 112)
    &&& le32(buf, le32(buf, 0x3C)) == PE_SIGNATURE
    &&& le16(buf, coff_offset(buf)) == MACHINE_AMD64
    &&& le16(buf, opt) == OPT_MAGIC_PE32PLUS
    &&& has_directory(buf, DIR_IMPORT as int) ==> fits(
        buf,
        directory_offset(buf, DIR_IMPORT as int),
        8,
    )
    &&& has_directory(buf, DIR_BASERELOC as int) ==> fits(
        buf,
        directory_offset(buf, DIR_BASERELOC as int),
        8,
    )
    &&& section_count(buf) > 0 ==> fits(buf, section_table(buf), 40 * section_count(buf))
}

/// Exactly the 64-bit x86-64 PE images are accepted.
pub proof fn law_accepts_exactly_pe32plus_amd64(buf: Seq<u8>)
    ensures
        pe_defect(buf) is None <==> is_pe32plus_amd64(buf),
{
}

/// Bytes past the headers do not matter: a file that is accepted is accepted
/// with the same result whatever follows it.
pub proof fn law_trailing_bytes_do_not_matter(buf: Seq<u8>, more: Seq<u8>, pe: ParsedPe)
    requires
        pe_defect(buf) is None,
    ensures
        pe_defect(buf + more) is None,
        describes(pe, buf) <==> describes(pe, buf + more),
{
    let long = buf + more;
    law_accepts_exactly_pe32plus_amd64(buf);
    law_accepts_exactly_pe32plus_amd64(long);
    let table = section_table(buf);
    assert forall|i: int| 0 <= i < section_count(buf) implies is_section_at(
        #[trigger] pe.sections[i],
        buf,
        table + 40 * i,
    ) == is_section_at(pe.sections[i], long, table + 40 * i) by {
        let off = table + 40 * i;
        assert(buf.subrange(off, off + 8) =~= long.subrange(off, off + 8));
    }
}

} // verus!
