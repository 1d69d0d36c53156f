//! Subsystems for Windows executables, and how one is written into a PE image.
use vstd::prelude::*;

verus! {

/// Offset of the word that holds the PE header's offset in the MS-DOS header.
pub const PE_POINTER_OFFSET: usize = 0x3C;

/// Offset of the subsystem field from the start of the PE header.
pub const SUBSYSTEM_FIELD_OFFSET: u64 = 0x5C;

/// Subsystems for Windows executables.
#[derive(Clone, Copy, Debug, PartialEq, Eq, Structural)]
pub enum Subsystem {
    /// Windows GUI subsystem.
    Windows,
}

/// Why a subsystem could not be written into an image.
#[derive(Clone, Copy, Debug, PartialEq, Eq, Structural)]
pub enum EncodeError {
    /// The image ends before the word that locates the PE header.
    HeaderTooShort,
    /// The subsystem field lies beyond what this machine can address.
    OutOfAddressRange,
}

/// The PE header's offset: the little-endian word at `PE_POINTER_OFFSET`.
pub open spec fn pe_offset(image: Seq<u8>) -> int {
    image[0x3C] + image[0x3D] * 0x100 + image[0x3E] * 0x10000 + image[0x3F] * 0x100_0000
}

/// Where the subsystem field of the image lies.
pub open spec fn subsystem_field(image: Seq<u8>) -> int {
    pe_offset(image) + SUBSYSTEM_FIELD_OFFSET
}

/// The image after writing `code`, little-endian, at its subsystem field: an
/// image that ends before the field's end first grows with zero bytes, as a file
/// written past its end does.
pub open spec fn patched_image(image: Seq<u8>, code: u16) -> Seq<u8> {
    let at = subsystem_field(image);
    let grown = if image.len() < at + 2 {
        image + Seq::new((at + 2 - image.len()) as nat, |i: int| 0u8)
    } else {
        image
    };
    grown.update(at, (code % 0x100) as u8).update(at + 1, (code / 0x100) as u8)
}

impl Subsystem {
    /// The subsystem's code in the PE optional header.
    pub fn code(self) -> (r: u16)
        ensures
            r == 2,
    {
        match self {
            Subsystem::Windows => 2,
        }
    }

    /// Writes the subsystem's code into the PE image `image`.
    pub fn encode_image(self, image: &mut Vec<u8>) -> (r: Result<(), EncodeError>)
        ensures
            r == Err::<(), EncodeError>(EncodeError::HeaderTooShort) <==> old(image)@.len() < 0x40,
            r == Err::<(), EncodeError>(EncodeError::OutOfAddressRange) <==> old(image)@.len() >= 0x40
                && subsystem_field(old(image)@) + 2 > usize::MAX,
            r is Ok ==> final(image)@ == patched_image(old(image)@, 2),
            r is Ok ==> ({
                let at = old(image)@[0x3C] + 0x100 * old(image)@[0x3D] + 0x10000 * old(image)@[0x3E]
                    + 0x100_0000 * old(image)@[0x3F] + 0x5C;
                &&& final(image)@[at] == 2
                &&& final(image)@[at + 1] == 0
                &&& forall|k: int|
                    0 <= k < old(image)@.len() && k != at && k != at + 1 ==> final(image)@[k]
                        == old(image)@[k]
            }),
            r is Err ==> final(image)@ == old(image)@,
    {
        if image.len() < PE_POINTER_OFFSET + 4 {
            return Err(EncodeError::HeaderTooShort);
        }
        let p = PE_POINTER_OFFSET;
        let pe: u64 = image[p] as u64 + image[p + 1] as u64 * 0x100 + image[p + 2] as u64 * 0x10000
            + image[p + 3] as u64 * 0x100_0000;
        let at64: u64 = pe + SUBSYSTEM_FIELD_OFFSET;
        if at64 > (usize::MAX - 2) as u64 {
            return Err(EncodeError::OutOfAddressRange);
        }
        let at = at64 as usize;
        let ghost start = image@;
        while image.len() < at + 2
            invariant
                at + 2 <= usize::MAX,
                start.len() <= image@.len(),
                image@.len() <= if start.len() < at + 2 { at + 2 } else { start.len() as int },
                image@.subrange(0, start.len() as int) == start,
                forall|k: int| start.len() <= k < image@.len() ==> image@[k] == 0u8,
            decreases at + 2 - image@.len(),
        {
            image.push(0);
        }
        let code = self.code();
        image.set(at, (code % 0x100) as u8);
        image.set(at + 1, (code / 0x100) as u8);
        proof {
            assert(image@ =~= patched_image(start, 2));
        }
        Ok(())
    }
}

/// Writing the subsystem changes the two bytes of the field and, past the end of
/// a short image, adds zero bytes; every other byte stays as it was.
pub proof fn lemma_patch_keeps_other_bytes(image: Seq<u8>, code: u16, k: int)
    requires
        image.len() >= 0x40,
        0 <= k < image.len(),
        k != subsystem_field(image),
        k != subsystem_field(image) + 1,
    ensures
        patched_image(image, code)[k] == image[k],
        patched_image(image, code).len() == if image.len() < subsystem_field(image) + 2 {
            subsystem_field(image) + 2
        } else {
            image.len() as int
        },
{
}

/// After the write, the field holds the code, little-endian.
pub proof fn lemma_patch_writes_code(image: Seq<u8>, code: u16)
    requires
        image.len() >= 0x40,
    ensures
        ({
            let p = patched_image(image, code);
            let at = subsystem_field(image);
            p[at] + p[at + 1] * 0x100 == code
        }),
{
}

/// The code lands 0x5C bytes past the PE header, wherever the header's offset
/// (the 32-bit little-endian word at 0x3C) points: for an image whose header
/// word holds `offset`, the written image has the code at `offset + 0x5C`.
pub proof fn lemma_field_follows_header(image: Seq<u8>, offset: u32, code: u16)
    requires
        image.len() >= 0x40,
        image[0x3C] == offset % 0x100,
        image[0x3D] == (offset / 0x100) % 0x100,
        image[0x3E] == (offset / 0x10000) % 0x100,
        image[0x3F] == offset / 0x100_0000,
    ensures
        subsystem_field(image) == offset + 0x5C,
        patched_image(image, code)[offset + 0x5C] == code % 0x100,
        patched_image(image, code)[offset + 0x5D] == code / 0x100,
        patched_image(image, code).len() >= offset + 0x5E,
{
    assert(offset % 0x100 + ((offset / 0x100) % 0x100) * 0x100 + ((offset / 0x10000) % 0x100)
        * 0x10000 + (offset / 0x100_0000) * 0x100_0000 == offset) by (bit_vector);
}

/// Writing the subsystem a second time changes nothing: the write leaves the
/// PE header's offset where it was, so the second write hits the same field.
pub proof fn lemma_patch_idempotent(image: Seq<u8>, code: u16)
    requires
        image.len() >= 0x40,
    ensures
        patched_image(patched_image(image, code), code) == patched_image(image, code),
{
    let p = patched_image(image, code);
    assert(p[0x3C] == image[0x3C] && p[0x3D] == image[0x3D] && p[0x3E] == image[0x3E] && p[0x3F]
        == image[0x3F]);
    assert(subsystem_field(p) == subsystem_field(image));
    assert(patched_image(p, code) =~= p);
}

} // verus!
