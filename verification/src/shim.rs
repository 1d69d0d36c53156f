//! Shim executables that the builder writes and updates: the bytes of the shim
//! program, the arguments it is given, and the decisions made while updating it.
use vstd::prelude::*;

use crate::cstring::{c_content, c_units_from_vec, is_c_units};
use crate::error::BuildError;
use crate::exe_type::ExeType;
use crate::table::{joined_by_space, shim_table, string_views, StringTable};
use crate::wide::{utf16, Widen};

verus! {

#[verifier::external_type_specification]
#[verifier::external_body]
pub struct ExShimError(scoop_shim::Error);

/// What `scoop_shim` reads from the text of a Scoop `.shim` file: the target
/// path and the argument list, or nothing when the text is not a valid shim file.
pub uninterp spec fn scoop_shim_fields(text: Seq<char>) -> Option<(Seq<char>, Seq<Seq<char>>)>;

/// Calls `scoop_shim::from_str` and takes the parsed shim's path (as text) and
/// arguments out of it. The parse is named, not stated: `scoop_shim_fields`.
/// The path was made from text by the parser, so turning it back into text
/// loses nothing. The error's contents are not stated.
#[verifier::external_body]
fn parse_shim_text(text: &str) -> (r: Result<(String, Vec<String>), scoop_shim::Error>)
    ensures
        r is Ok <==> scoop_shim_fields(text@) is Some,
        r matches Ok(fields) ==> scoop_shim_fields(text@) == Some(
            (fields.0@, string_views(fields.1@)),
        ),
{
    match scoop_shim::from_str(text) {
        Ok(shim) => Ok((shim.path().to_string_lossy().into_owned(), shim.args().to_vec())),
        Err(e) => Err(e),
    }
}

/// `units` as a nul-terminated wide string.
fn c_string(units: &[u16]) -> (r: Result<Vec<u16>, BuildError>)
    ensures
        r is Ok <==> is_c_units(units@),
        r matches Ok(p) ==> p@ == c_content(units@).push(0),
        r matches Err(e) ==> e is ContainsNul,
{
    match c_units_from_vec(vstd::slice::slice_to_vec(units)) {
        Ok(mut text) => {
            text.push(0);
            Ok(text)
        },
        Err(e) => Err(BuildError::ContainsNul(e)),
    }
}

/// Shim executable data: the bytes of the shim program.
#[derive(Clone, Copy, Debug)]
pub struct Executable(&'static [u8]);

impl Executable {
    /// The program's bytes.
    pub closed spec fn spec_data(&self) -> Seq<u8> {
        self.0@
    }

    /// An executable with the given program bytes.
    pub fn new(binary: &'static [u8]) -> (r: Self)
        ensures
            r.spec_data() == binary@,
    {
        Executable(binary)
    }

    /// The program's bytes, as they are written to a new shim.
    pub fn data(&self) -> (r: &'static [u8])
        ensures
            r@ == self.spec_data(),
    {
        self.0
    }
}

/// Arguments to be passed to the shim executable: the target program's path as
/// wide text, and the arguments.
#[derive(Clone)]
pub struct ShimArgs {
    target: Vec<u16>,
    args: Vec<String>,
}

impl ShimArgs {
    /// The target path.
    pub closed spec fn spec_target(&self) -> Seq<u16> {
        self.target@
    }

    /// The arguments.
    pub closed spec fn spec_args(&self) -> Seq<Seq<char>> {
        string_views(self.args@)
    }

    /// Arguments for running `target` with `args`.
    pub fn new(target: Vec<u16>, args: Vec<String>) -> (r: Self)
        ensures
            r.spec_target() == target@,
            r.spec_args() == string_views(args@),
    {
        ShimArgs { target, args }
    }

    /// Arguments for the target and arguments read from a Scoop shim file: the
    /// path becomes wide text.
    pub fn from_parsed(path: String, args: Vec<String>) -> (r: Self)
        ensures
            r.spec_target() == utf16(path@),
            r.spec_args() == string_views(args@),
    {
        let target = path.as_str().widen();
        ShimArgs { target, args }
    }

    /// The target path as a nul-terminated wide string, for asking the shell
    /// about the target's type.
    pub fn c_target(&self) -> (r: Result<Vec<u16>, BuildError>)
        ensures
            r is Ok <==> is_c_units(self.spec_target()),
            r matches Ok(p) ==> p@ == c_content(self.spec_target()).push(0),
            r matches Err(e) ==> e is ContainsNul,
    {
        c_string(self.target.as_slice())
    }

    /// Arguments read from the text of a Scoop shim file.
    pub fn from_shim_text(text: &str) -> (r: Result<Self, BuildError>)
        ensures
            r is Ok <==> scoop_shim_fields(text@) is Some,
            r matches Ok(a) ==> (scoop_shim_fields(text@) matches Some((path, args)) && a.spec_target()
                == utf16(path) && a.spec_args() == args),
            r matches Err(e) ==> e is ShimParsing,
    {
        match parse_shim_text(text) {
            Ok((path, args)) => Ok(Self::from_parsed(path, args)),
            Err(e) => Err(BuildError::ShimParsing(e)),
        }
    }
}

impl StringTable {
    /// The table for the given shim arguments.
    pub fn try_from(value: ShimArgs) -> (r: Result<StringTable, BuildError>)
        ensures
            r is Ok <==> is_c_units(value.spec_target()) && is_c_units(
                utf16(joined_by_space(value.spec_args())),
            ),
            r matches Ok(t) ==> t.wf() && t@ == shim_table(value.spec_target(), value.spec_args()),
            r matches Err(e) ==> e is ContainsNul,
    {
        StringTable::new(value.target, value.args.as_slice())
    }
}

/// A locally saved shim executable, ready to be updated with its arguments.
pub struct Shim {
    path: Vec<u16>,
}

impl Shim {
    /// The shim's path as wide text.
    pub closed spec fn spec_path(&self) -> Seq<u16> {
        self.path@
    }

    /// The shim saved at `path`.
    pub fn new(path: Vec<u16>) -> (r: Self)
        ensures
            r.spec_path() == path@,
    {
        Shim { path }
    }

    /// The shim's path.
    pub fn path(&self) -> (r: &[u16])
        ensures
            r@ == self.spec_path(),
    {
        self.path.as_slice()
    }

    /// The shim's path as a nul-terminated wide string, for the resource-update calls.
    pub fn c_path(&self) -> (r: Result<Vec<u16>, BuildError>)
        ensures
            r is Ok <==> is_c_units(self.spec_path()),
            r matches Ok(p) ==> p@ == c_content(self.spec_path()).push(0),
            r matches Err(e) ==> e is ContainsNul,
    {
        c_string(self.path.as_slice())
    }

    /// The data of the shim's string-table resource for the given arguments.
    pub fn resource_data(args: ShimArgs) -> (r: Result<Vec<u16>, BuildError>)
        ensures
            r is Ok <==> is_c_units(args.spec_target()) && is_c_units(
                utf16(joined_by_space(args.spec_args())),
            ),
            r matches Ok(units) ==> units@ == crate::table::table_units(
                shim_table(args.spec_target(), args.spec_args()),
            ),
            r matches Err(e) ==> e is ContainsNul,
    {
        match StringTable::try_from(args) {
            Ok(table) => Ok(table.get_buffer()),
            Err(e) => Err(e),
        }
    }

    /// The size in bytes of a resource of `units` wide units, as the resource
    /// update takes it: the low 32 bits of twice the count.
    pub fn resource_byte_len(units: usize) -> (r: u32)
        requires
            units <= usize::MAX / 2,
        ensures
            r == (2 * units) % 0x1_0000_0000,
    {
        let bytes = units * 2;
        let r = bytes as u32;
        proof {
            let wide = bytes as u64;
            assert(wide as u32 == wide % 0x1_0000_0000) by (bit_vector);
            assert(wide as u32 == bytes as u32) by (bit_vector)
                requires
                    wide == bytes as u64,
            ;
        }
        r
    }
}

/// What updating a shim does about the shim's subsystem.
#[derive(Clone, Copy, Debug, PartialEq, Eq, Structural)]
pub enum SubsystemPlan {
    /// The target is not a GUI program: the shim stays a console program.
    Unchanged,
    /// The target is a GUI program, but the user asked to leave the subsystem alone.
    KeptOnRequest,
    /// The target is a GUI program: the shim becomes a Windows GUI program too.
    SetWindows,
}

/// Decides what to do about the shim's subsystem, given the target's type and
/// whether the user asked not to touch it.
pub fn subsystem_plan(target_type: &ExeType, no_subsystem: bool) -> (r: SubsystemPlan)
    ensures
        r == (if !target_type.spec_is_windows() {
            SubsystemPlan::Unchanged
        } else if no_subsystem {
            SubsystemPlan::KeptOnRequest
        } else {
            SubsystemPlan::SetWindows
        }),
        (r == SubsystemPlan::Unchanged) <==> !((target_type.spec_loword() == 0x4550
            || target_type.spec_loword() == 0x454E) && target_type.spec_hiword() > 0),
{
    if target_type.is_windows() {
        if no_subsystem {
            SubsystemPlan::KeptOnRequest
        } else {
            SubsystemPlan::SetWindows
        }
    } else {
        SubsystemPlan::Unchanged
    }
}

} // verus!
