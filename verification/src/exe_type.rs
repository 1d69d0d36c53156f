//! Classification of an executable by the value that `SHGetFileInfoW` gives
//! for `SHGFI_EXETYPE`: the signature in the low word, the expected Windows
//! version (zero for console programs) in the high word.
use vstd::prelude::*;

use crate::interop::{hiword, loword};

verus! {

/// Signature of an MS-DOS executable: the bytes `M`, `Z` read as a little-endian word.
pub const MZ: u16 = 0x5A4D;

/// Signature of a Win32 (PE) executable: the bytes `P`, `E` read as a little-endian word.
pub const PE: u16 = 0x4550;

/// Signature of a 16-bit Windows (NE) executable: the bytes `N`, `E` read as a little-endian word.
pub const NE: u16 = 0x454E;

/// The executable type of a file.
pub struct ExeType {
    file_info: usize,
    hiword: u16,
    loword: u16,
}

impl ExeType {
    /// The value that the shell returned.
    pub closed spec fn spec_file_info(&self) -> usize {
        self.file_info
    }

    /// The high word of that value.
    pub closed spec fn spec_hiword(&self) -> u16 {
        self.hiword
    }

    /// The low word of that value.
    pub closed spec fn spec_loword(&self) -> u16 {
        self.loword
    }

    /// An MS-DOS program: the `MZ` signature.
    pub open spec fn spec_is_msdos(&self) -> bool {
        self.spec_loword() == MZ
    }

    /// A console program: the `PE` signature and no Windows version.
    pub open spec fn spec_is_console(&self) -> bool {
        self.spec_loword() == PE && self.spec_hiword() == 0
    }

    /// A Windows GUI program: the `PE` or `NE` signature and a Windows version.
    pub open spec fn spec_is_windows(&self) -> bool {
        (self.spec_loword() == PE || self.spec_loword() == NE) && self.spec_hiword() != 0
    }

    /// Splits the shell's answer into its two words.
    pub fn from_file_info(file_info: usize) -> (r: Self)
        ensures
            r.spec_file_info() == file_info,
            r.spec_loword() == file_info % 0x10000,
            r.spec_hiword() == (file_info / 0x10000) % 0x10000,
    {
        ExeType { file_info, hiword: hiword(file_info), loword: loword(file_info) }
    }

    /// Like `from_file_info`, but gives nothing when the shell found no executable
    /// (it answers zero then).
    pub fn detect(file_info: usize) -> (r: Option<Self>)
        ensures
            r is None <==> file_info == 0,
            r matches Some(t) ==> {
                &&& t.spec_file_info() == file_info
                &&& t.spec_loword() == file_info % 0x10000
                &&& t.spec_hiword() == (file_info / 0x10000) % 0x10000
            },
    {
        if file_info == 0 {
            None
        } else {
            Some(Self::from_file_info(file_info))
        }
    }

    /// Whether the shell recognised the file as an executable at all.
    pub fn windows_app(&self) -> (r: bool)
        ensures
            r == (self.spec_file_info() != 0),
    {
        self.file_info != 0
    }

    /// Whether the file is an MS-DOS program.
    pub fn is_msdos(&self) -> (r: bool)
        ensures
            r == self.spec_is_msdos(),
            r == (self.spec_loword() == 0x5A4D),
    {
        self.loword == MZ
    }

    /// Whether the file is a console (PE) program.
    pub fn is_console(&self) -> (r: bool)
        ensures
            r == self.spec_is_console(),
            r == (self.spec_loword() == 0x4550 && self.spec_hiword() == 0),
    {
        self.loword == PE && self.hiword == 0
    }

    /// Whether the file is a Windows GUI program (PE or NE with a Windows version).
    pub fn is_windows(&self) -> (r: bool)
        ensures
            r == self.spec_is_windows(),
            r == ((self.spec_loword() == 0x4550 || self.spec_loword() == 0x454E)
                && self.spec_hiword() > 0),
    {
        (self.loword == PE || self.loword == NE) && self.hiword != 0
    }

    /// The two bytes of a word in memory order, or nothing for a zero word: how
    /// the type shows its words when printed.
    pub fn word_bytes(word: u16) -> (r: Option<[u8; 2]>)
        ensures
            r is None <==> word == 0,
            r matches Some(b) ==> b@ == seq![(word % 0x100) as u8, (word / 0x100) as u8],
    {
        if word == 0 {
            None
        } else {
            let lo = (word % 0x100) as u8;
            let hi = (word / 0x100) as u8;
            Some([lo, hi])
        }
    }

    /// The printed form of the two words: high word first, then low word.
    pub fn debug_fields(&self) -> (r: (Option<[u8; 2]>, Option<[u8; 2]>))
        ensures
            r.0 is None <==> self.spec_hiword() == 0,
            r.1 is None <==> self.spec_loword() == 0,
            r.0 matches Some(b) ==> b@ == seq![
                (self.spec_hiword() % 0x100) as u8,
                (self.spec_hiword() / 0x100) as u8,
            ],
            r.1 matches Some(b) ==> b@ == seq![
                (self.spec_loword() % 0x100) as u8,
                (self.spec_loword() / 0x100) as u8,
            ],
    {
        (Self::word_bytes(self.hiword), Self::word_bytes(self.loword))
    }
}

/// A file is a Windows GUI program exactly when its signature word is `PE` or
/// `NE` and its version word is not zero, whatever that version is.
pub proof fn lemma_gui_classification(t: ExeType)
    ensures
        t.spec_is_windows() <==> ((t.spec_loword() == 0x4550 || t.spec_loword() == 0x454E)
            && t.spec_hiword() > 0),
{
}

/// A PE file is either a console program or a GUI program, never both and never
/// neither: no version word leaves it unclassified.
pub proof fn lemma_pe_console_or_gui(t: ExeType)
    requires
        t.spec_loword() == 0x4550,
    ensures
        t.spec_is_console() != t.spec_is_windows(),
{
}

/// The classification of the shell's answer: GUI exactly when its low 16 bits are
/// the `PE` or `NE` signature and bits 16 to 31 are not all zero.
pub proof fn lemma_classify_file_info(file_info: usize, t: ExeType)
    requires
        t.spec_loword() == file_info % 0x10000,
        t.spec_hiword() == (file_info / 0x10000) % 0x10000,
    ensures
        t.spec_is_windows() <==> ((file_info % 0x10000 == 0x4550 || file_info % 0x10000
            == 0x454E) && (file_info / 0x10000) % 0x10000 != 0),
        t.spec_is_console() <==> (file_info % 0x10000 == 0x4550 && (file_info / 0x10000)
            % 0x10000 == 0),
        t.spec_is_msdos() <==> file_info % 0x10000 == 0x5A4D,
{
}

/// A file is never classified as two kinds at once.
pub proof fn lemma_exe_kinds_exclusive(t: ExeType)
    ensures
        !(t.spec_is_msdos() && t.spec_is_console()),
        !(t.spec_is_msdos() && t.spec_is_windows()),
        !(t.spec_is_console() && t.spec_is_windows()),
{
}

} // verus!
