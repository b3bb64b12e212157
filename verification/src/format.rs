//! Recognising the container format of a payload from its bytes.

use vstd::prelude::*;

verus! {

/// The shortest input in which a container format is looked for.
pub const HINT_LEN: usize = 16;

/// Whether packing may go on with a payload.
#[derive(Clone, Copy, PartialEq, Eq, Debug, Structural)]
pub enum FormatVerdict {
    /// A well-formed executable of one of the two formats that are packed.
    KnownExecutable,
    /// Anything else, a damaged or cut-off executable included.
    Unrecognized,
}

/// What the parser made of a byte sequence.
#[derive(Clone, Copy, PartialEq, Eq, Debug, Structural)]
pub enum ContainerKind {
    /// An ELF executable or object.
    Elf,
    /// A PE executable.
    Pe,
    /// A terse executable.
    Te,
    /// A COFF object.
    Coff,
    /// A Mach-O binary, thin or fat.
    Mach,
    /// A Unix archive.
    Archive,
    /// No known format; the number is the magic value that was found.
    Unknown(u64),
    /// A format that this crate has no name for.
    Other,
    /// The bytes begin like a known format but do not parse as one, or
    /// are too few to tell.
    Malformed,
}

/// What `goblin::Object::parse` makes of `bytes`.
pub uninterp spec fn parsed_kind(bytes: Seq<u8>) -> ContainerKind;

/// `bytes` are long enough to be looked at and begin with the four bytes
/// that open every ELF file.
pub open spec fn has_elf_magic(bytes: Seq<u8>) -> bool {
    &&& bytes.len() >= HINT_LEN
    &&& bytes[0] == 0x7f
    &&& bytes[1] == 0x45
    &&& bytes[2] == 0x4c
    &&& bytes[3] == 0x46
}

/// `bytes` are long enough to be looked at and begin with the two bytes
/// that open every PE file.
pub open spec fn has_pe_magic(bytes: Seq<u8>) -> bool {
    &&& bytes.len() >= HINT_LEN
    &&& bytes[0] == 0x4d
    &&& bytes[1] == 0x5a
}

/// The verdict on a payload that the parser took for `kind`.
pub open spec fn verdict_of(kind: ContainerKind) -> FormatVerdict {
    if kind is Elf || kind is Pe {
        FormatVerdict::KnownExecutable
    } else {
        FormatVerdict::Unrecognized
    }
}

/// `goblin::Object::parse`, with the parsed object reduced to its kind and
/// a parse error to `Malformed`. Claimed of it: the kind is a function of
/// the bytes; fewer than sixteen bytes are never parsed; and the parser
/// reports an ELF or a PE only where the bytes begin with that format's
/// magic number.
#[verifier::external_body]
fn parse_kind(bytes: &[u8]) -> (kind: ContainerKind)
    ensures
        kind == parsed_kind(bytes@),
        bytes@.len() < HINT_LEN ==> kind is Malformed,
        kind is Elf ==> has_elf_magic(bytes@),
        kind is Pe ==> has_pe_magic(bytes@),
{
    match goblin::Object::parse(bytes) {
        Ok(goblin::Object::Elf(_)) => ContainerKind::Elf,
        Ok(goblin::Object::PE(_)) => ContainerKind::Pe,
        Ok(goblin::Object::TE(_)) => ContainerKind::Te,
        Ok(goblin::Object::COFF(_)) => ContainerKind::Coff,
        Ok(goblin::Object::Mach(_)) => ContainerKind::Mach,
        Ok(goblin::Object::Archive(_)) => ContainerKind::Archive,
        Ok(goblin::Object::Unknown(magic)) => ContainerKind::Unknown(magic),
        Ok(_) => ContainerKind::Other,
        Err(_) => ContainerKind::Malformed,
    }
}

/// The verdict on a payload that the parser took for `kind`: only ELF and
/// PE executables are packed.
pub fn verdict_for(kind: ContainerKind) -> (verdict: FormatVerdict)
    ensures
        verdict == verdict_of(kind),
{
    match kind {
        ContainerKind::Elf => FormatVerdict::KnownExecutable,
        ContainerKind::Pe => FormatVerdict::KnownExecutable,
        _ => FormatVerdict::Unrecognized,
    }
}

/// Classifies a payload by parsing its headers. No input is refused:
/// bytes that do not parse are `Unrecognized`, and so are all inputs that
/// are cut off before the sixteenth byte or that begin with neither magic
/// number.
pub fn classify(bytes: &[u8]) -> (verdict: FormatVerdict)
    ensures
        verdict == verdict_of(parsed_kind(bytes@)),
        !has_elf_magic(bytes@) && !has_pe_magic(bytes@) ==> verdict is Unrecognized,
        bytes@.len() < HINT_LEN ==> verdict is Unrecognized,
{
    verdict_for(parse_kind(bytes))
}

} // verus!
