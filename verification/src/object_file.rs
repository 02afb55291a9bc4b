//! What the `object` crate reads from an executable image: its format, entry
//! point, image base, debug information and sections.
use vstd::prelude::*;
use object::{Object, ObjectSection};
use crate::pe::{nt_offset, u16_at, u32_at, u64_at};

verus! {

/// The kind of file the `object` crate recognised.
#[derive(PartialEq, Eq, Structural)]
pub enum ObjectFormat {
    /// The bytes could not be parsed.
    Unparsable,
    /// A 32-bit PE image.
    Pe32,
    /// A 64-bit (PE32+) image.
    Pe64,
    /// Some other object format.
    Other,
}

/// The processor a PE image is built for, as read from the machine field of
/// its file header.
#[derive(Clone, Copy, Debug, PartialEq, Eq, Structural)]
pub enum Architecture {
    /// A machine the reader does not name.
    Unknown,
    /// 64-bit ARM (ARM64 or ARM64EC).
    Aarch64,
    /// 32-bit ARM (ARMNT).
    Arm,
    /// 32-bit x86.
    I386,
    /// x86-64.
    X86_64,
    /// Another architecture, which PE images do not report.
    Other,
}

/// The architecture of a PE image whose file header's machine field is
/// `machine`.
pub open spec fn machine_architecture(machine: u16) -> Architecture {
    if machine == 0x01c4 {
        Architecture::Arm
    } else if machine == 0xAA64 || machine == 0xA641 {
        Architecture::Aarch64
    } else if machine == 0x014c {
        Architecture::I386
    } else if machine == 0x8664 {
        Architecture::X86_64
    } else {
        Architecture::Unknown
    }
}

/// The image base field of the optional header of a PE image of `bytes`:
/// 64 bits 24 bytes into a PE32+ optional header, 32 bits 28 bytes into a
/// PE32 one.
pub open spec fn pe_image_base(bytes: Seq<u8>, format: ObjectFormat) -> u64 {
    if format == ObjectFormat::Pe64 {
        u64_at(bytes, nt_offset(bytes) + 48)
    } else {
        u32_at(bytes, nt_offset(bytes) + 52) as u64
    }
}

/// One section as the `object` crate reports it.
pub struct ReportedSection {
    /// Its name, when it could be read as UTF-8.
    pub name: Option<String>,
    /// Its virtual address: image base plus relative address.
    pub address: u64,
    /// Its virtual size.
    pub size: u64,
    /// Its raw data, when it could be read.
    pub data: Option<Vec<u8>>,
}

/// The format that `object::File::parse` finds in `bytes`.
pub uninterp spec fn object_format_of(bytes: Seq<u8>) -> ObjectFormat;

/// The path, GUID and age of the CodeView record that `pdb_info` finds, if any.
pub uninterp spec fn object_pdb_of(bytes: Seq<u8>) -> Option<(Seq<u8>, Seq<u8>, u32)>;

/// How many sections `sections` yields.
pub uninterp spec fn object_section_count_of(bytes: Seq<u8>) -> Option<nat>;

/// Name, address, size and data of section `i` as `sections` yields it.
pub uninterp spec fn object_section_of(bytes: Seq<u8>, i: nat) -> Option<(Option<Seq<char>>, u64, u64, Option<Seq<u8>>)>;

/// The view of a reported section.
pub open spec fn object_section_view(s: ReportedSection) -> (Option<Seq<char>>, u64, u64, Option<Seq<u8>>) {
    (
        match s.name {
            Some(n) => Some(n@),
            None => None,
        },
        s.address,
        s.size,
        match s.data {
            Some(d) => Some(d@),
            None => None,
        },
    )
}

/// Parses `bytes` with `object::File::parse` and reports which variant of
/// `object::File` it is. Claimed: the result depends on `bytes` alone, and a PE
/// variant means the 64-byte DOS header and the 24 bytes of signature and file
/// header at `e_lfanew` lie in `bytes` (the crate's `PeFile::parse` reads them
/// first); that the NT headers up to the data directories lie there too:
/// 0x78 bytes for either PE variant (`optional_header_magic` reads the 32-bit
/// headers to tell the two apart) and 0x88 for PE32+ (`ImageNtHeaders64`);
/// and that the rest of the optional header, as long as the file header's
/// `size_of_optional_header` says, lies there as well (it is read next).
#[verifier::external_body]
pub(crate) fn object_format(bytes: &[u8]) -> (r: ObjectFormat)
    ensures
        r == object_format_of(bytes@),
        (r == ObjectFormat::Pe32 || r == ObjectFormat::Pe64) ==> bytes@.len() >= 0x40 && nt_offset(bytes@) + 24
            <= bytes@.len(),
        (r == ObjectFormat::Pe32 || r == ObjectFormat::Pe64) ==> nt_offset(bytes@) + 0x78 <= bytes@.len()
            && nt_offset(bytes@) + 24 + u16_at(bytes@, nt_offset(bytes@) + 20) <= bytes@.len(),
        r == ObjectFormat::Pe64 ==> nt_offset(bytes@) + 0x88 <= bytes@.len(),
{
    match object::File::parse(bytes) {
        Err(_) => ObjectFormat::Unparsable,
        Ok(object::File::Pe32(_)) => ObjectFormat::Pe32,
        Ok(object::File::Pe64(_)) => ObjectFormat::Pe64,
        Ok(_) => ObjectFormat::Other,
    }
}

/// Calls `pdb_info` on the file parsed from `bytes` and returns the path,
/// GUID and age of its CodeView record; `None` when parsing fails or there is
/// no record. Claimed: the result depends on `bytes` alone and the GUID has 16
/// bytes.
#[verifier::external_body]
pub(crate) fn object_pdb_info(bytes: &[u8]) -> (r: Option<(Vec<u8>, [u8; 16], u32)>)
    ensures
        match r {
            Some((p, g, a)) => object_pdb_of(bytes@) == Some((p@, g@, a)),
            None => object_pdb_of(bytes@) is None,
        },
{
    match object::File::parse(bytes) {
        Ok(f) => match f.pdb_info() {
            Ok(Some(i)) => Some((i.path().to_vec(), i.guid(), i.age())),
            _ => None,
        },
        Err(_) => None,
    }
}

/// Calls `entry` on the file parsed from `bytes`; `None` when parsing fails.
/// Claimed: it is none exactly when `object_format` finds the bytes
/// unparsable; for a PE image it is the AddressOfEntryPoint field (16 bytes
/// into the optional header) plus the image base, wrapping, as the crate's
/// `PeFile::entry` computes it.
#[verifier::external_body]
pub(crate) fn object_entry(bytes: &[u8]) -> (r: Option<u64>)
    ensures
        r is None <==> object_format_of(bytes@) == ObjectFormat::Unparsable,
        (object_format_of(bytes@) == ObjectFormat::Pe32 || object_format_of(bytes@) == ObjectFormat::Pe64) ==> r
            == Some((u32_at(bytes@, nt_offset(bytes@) + 40) as u64).wrapping_add(
            pe_image_base(bytes@, object_format_of(bytes@)),
        )),
{
    match object::File::parse(bytes) {
        Ok(f) => Some(f.entry()),
        Err(_) => None,
    }
}

/// Calls `architecture` on the file parsed from `bytes` and converts it to
/// `Architecture`; `None` when parsing fails. Claimed: it is some exactly when
/// `object_format` can parse the bytes, and for a PE image it follows the
/// machine field of the file header (4 bytes past `e_lfanew`) as the crate's
/// `PeFile::architecture` maps it.
#[verifier::external_body]
pub(crate) fn object_architecture(bytes: &[u8]) -> (r: Option<Architecture>)
    ensures
        r is None <==> object_format_of(bytes@) == ObjectFormat::Unparsable,
        (object_format_of(bytes@) == ObjectFormat::Pe32 || object_format_of(bytes@) == ObjectFormat::Pe64) ==> r
            == Some(machine_architecture(u16_at(bytes@, nt_offset(bytes@) + 4))),
{
    match object::File::parse(bytes) {
        Ok(f) => Some(match f.architecture() {
            object::Architecture::Unknown => Architecture::Unknown,
            object::Architecture::Aarch64 => Architecture::Aarch64,
            object::Architecture::Arm => Architecture::Arm,
            object::Architecture::I386 => Architecture::I386,
            object::Architecture::X86_64 => Architecture::X86_64,
            _ => Architecture::Other,
        }),
        Err(_) => None,
    }
}

/// Reads the image base field of the optional header of the PE image parsed
/// from `bytes`, widened to 64 bits; `None` when it is not a PE image.
/// Claimed: it is some exactly for the two PE variants that `object_format`
/// reports, and is the field as `pe_image_base` reads it.
#[verifier::external_body]
pub(crate) fn object_image_base(bytes: &[u8]) -> (r: Option<u64>)
    ensures
        r is Some <==> (object_format_of(bytes@) == ObjectFormat::Pe32 || object_format_of(bytes@)
            == ObjectFormat::Pe64),
        r is Some ==> r == Some(pe_image_base(bytes@, object_format_of(bytes@))),
{
    match object::File::parse(bytes) {
        Ok(object::File::Pe32(pe)) => Some(pe.nt_headers().optional_header.image_base.get(object::LittleEndian) as u64),
        Ok(object::File::Pe64(pe)) => Some(pe.nt_headers().optional_header.image_base.get(object::LittleEndian)),
        _ => None,
    }
}

/// Counts the sections that `sections` yields for the file parsed from
/// `bytes`; `None` when parsing fails. Claimed: the result depends on `bytes`
/// alone, and is none exactly when `object_format` finds the bytes
/// unparsable (both parse the same bytes the same way).
#[verifier::external_body]
pub(crate) fn object_section_count(bytes: &[u8]) -> (r: Option<usize>)
    ensures
        match r {
            Some(n) => object_section_count_of(bytes@) == Some(n as nat),
            None => object_section_count_of(bytes@) is None,
        },
        r is None <==> object_format_of(bytes@) == ObjectFormat::Unparsable,
{
    match object::File::parse(bytes) {
        Ok(f) => Some(f.sections().count()),
        Err(_) => None,
    }
}

/// Reads `name`, `address`, `size` and `data` of section `i` that `sections`
/// yields for the file parsed from `bytes`; `None` when parsing fails or there
/// is no such section. Claimed: the result depends on `bytes` and `i` alone,
/// and is some exactly for the indexes below the count of sections.
#[verifier::external_body]
pub(crate) fn object_section(bytes: &[u8], i: usize) -> (r: Option<ReportedSection>)
    ensures
        match r {
            Some(s) => object_section_of(bytes@, i as nat) == Some(object_section_view(s)),
            None => object_section_of(bytes@, i as nat) is None,
        },
        object_section_count_of(bytes@) matches Some(n) ==> (r is Some <==> i < n),
{
    let file = match object::File::parse(bytes) { Ok(f) => f, Err(_) => return None };
    let s = file.sections().nth(i)?;
    let name = match s.name() { Ok(n) => Some(n.to_string()), Err(_) => None };
    let data = match s.data() { Ok(d) => Some(d.to_vec()), Err(_) => None };
    Some(ReportedSection { name, address: s.address(), size: s.size(), data })
}

} // verus!
