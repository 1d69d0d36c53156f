//! Decisions of the running shim: the command line it starts its target with,
//! how it reacts to console events and spawn failures, and the exit code and
//! report it leaves with.
use vstd::prelude::*;

use crate::exe_type::ExeType;
use crate::interop::{compute_program_length, program_length, program_scan_ends};

verus! {

/// Exit code of a shim that panicked: the bytes `P`, `N`, `C`, `K` read as a little-endian word.
pub const PANIC_CODE: u32 = 0x4B43_4E50;

/// The Win32 error `ERROR_ELEVATION_REQUIRED`.
pub const ERROR_ELEVATION_REQUIRED: u32 = 740;

/// The console control events `CTRL_C_EVENT`, `CTRL_BREAK_EVENT`,
/// `CTRL_CLOSE_EVENT`, `CTRL_LOGOFF_EVENT` and `CTRL_SHUTDOWN_EVENT`.
pub const CTRL_C_EVENT: u32 = 0;
pub const CTRL_BREAK_EVENT: u32 = 1;
pub const CTRL_CLOSE_EVENT: u32 = 2;
pub const CTRL_LOGOFF_EVENT: u32 = 5;
pub const CTRL_SHUTDOWN_EVENT: u32 = 6;

/// The UTF-16 code unit of a space.
pub const SPACE: u16 = 0x20;

/// Why the shim exits.
#[derive(Clone, Copy, Debug, PartialEq, Eq, Structural)]
pub enum ExitCode {
    /// The given code, for a reason not known to the shim.
    Unknown(u32),
    /// The target exited with a failure.
    ChildError,
    /// The target could not be started.
    ProcessError,
    /// The shim panicked.
    Panic,
}

/// The exit code that a reason stands for.
pub open spec fn reason_code(reason: ExitCode) -> u32 {
    match reason {
        ExitCode::Unknown(code) => code,
        ExitCode::ProcessError => 2,
        ExitCode::ChildError => 3,
        ExitCode::Panic => PANIC_CODE,
    }
}

/// The shim's exit state: the reason it will exit with.
pub struct ExitState {
    reason: ExitCode,
}

impl ExitState {
    /// The recorded reason.
    pub closed spec fn spec_reason(&self) -> ExitCode {
        self.reason
    }

    /// The state a shim starts in: an unknown reason with code zero.
    pub fn new() -> (r: Self)
        ensures
            r.spec_reason() == ExitCode::Unknown(0),
    {
        ExitState { reason: ExitCode::Unknown(0) }
    }
}

/// What `main` of the shim came to.
#[derive(Clone, Copy, Debug, PartialEq, Eq, Structural)]
pub enum MainOutcome {
    /// The target ran and its exit code was recorded.
    Finished,
    /// A Windows call failed with the given `HRESULT`.
    Failed(i32),
}

/// What the shim reports on its way out.
#[derive(Clone, Copy, Debug)]
pub enum ExitReport {
    /// Nothing.
    Silent,
    /// The given text.
    Message(&'static str),
    /// The Windows error with the given code (the thread's last error).
    WindowsError(u32),
    /// The message of the error that `main` failed with.
    MainError,
}

/// How the shim leaves: what it reports, and its exit code.
#[derive(Clone, Copy, Debug)]
pub struct ExitPlan {
    /// What to report.
    pub report: ExitReport,
    /// The process exit code.
    pub code: u32,
}

impl ExitCode {
    /// The text the shim prints for this reason, if any.
    pub fn message(self) -> (r: Option<&'static str>)
        ensures
            r is Some <==> (self is Unknown || self is ProcessError),
            self is Unknown ==> r.unwrap()@ == "Shim: Unknown error\n"@,
            self is ProcessError ==> r.unwrap()@ == "Shim: Process error\n"@,
    {
        match self {
            ExitCode::Unknown(_) => Some("Shim: Unknown error\n"),
            ExitCode::ProcessError => Some("Shim: Process error\n"),
            ExitCode::ChildError | ExitCode::Panic => None,
        }
    }

    /// The exit code this reason stands for.
    pub fn code(self) -> (r: u32)
        ensures
            r == reason_code(self),
            self matches ExitCode::Unknown(c) ==> r == c,
            self is ProcessError ==> r == 2,
            self is ChildError ==> r == 3,
            self is Panic ==> r == 0x4B43_4E50,
    {
        match self {
            ExitCode::Unknown(code) => code,
            ExitCode::ProcessError => 2,
            ExitCode::ChildError => 3,
            ExitCode::Panic => PANIC_CODE,
        }
    }

    /// The exit code the shim will leave with.
    pub fn get_code(state: &ExitState) -> (r: u32)
        ensures
            r == reason_code(state.spec_reason()),
    {
        state.reason.code()
    }

    /// The reason the shim will leave with.
    pub fn reason(state: &ExitState) -> (r: ExitCode)
        ensures
            r == state.spec_reason(),
    {
        state.reason
    }

    /// Records an exit code whose reason is unknown.
    pub fn set_code(state: &mut ExitState, code: u32)
        ensures
            final(state).spec_reason() == ExitCode::Unknown(code),
    {
        state.reason = ExitCode::Unknown(code);
    }

    /// Records the reason to exit with; the exit code becomes the reason's code.
    pub fn set_reason(state: &mut ExitState, reason: ExitCode)
        ensures
            final(state).spec_reason() == reason,
    {
        state.reason = reason;
    }

    /// Records how the target exited: its code, and a child failure when it is
    /// not zero.
    pub fn record_child_exit(state: &mut ExitState, exit_code: u32)
        ensures
            final(state).spec_reason() == if exit_code == 0 {
                ExitCode::Unknown(0)
            } else {
                ExitCode::ChildError
            },
    {
        Self::set_code(state, exit_code);
        if exit_code != 0 {
            Self::set_reason(state, ExitCode::ChildError);
        }
    }

    /// Decides how the shim leaves once `main` is over. After a failed `main` the
    /// reason becomes the failure's code; after a finished one with a non-zero
    /// code, the thread's last Windows error is reported if there is one, else
    /// the reason's text.
    pub fn plan_exit(state: &mut ExitState, outcome: MainOutcome, last_error: u32) -> (r: ExitPlan)
        ensures
            match outcome {
                MainOutcome::Finished => {
                    &&& final(state).spec_reason() == old(state).spec_reason()
                    &&& r.code == reason_code(old(state).spec_reason())
                    &&& r.code == 0 ==> r.report is Silent
                    &&& r.code != 0 && last_error != 0 ==> r.report == ExitReport::WindowsError(
                        last_error,
                    )
                    &&& r.code != 0 && last_error == 0 ==> match old(state).spec_reason() {
                        ExitCode::Unknown(_) => r.report matches ExitReport::Message(text) && text@
                            == "Shim: Unknown error\n"@,
                        ExitCode::ProcessError => r.report matches ExitReport::Message(text)
                            && text@ == "Shim: Process error\n"@,
                        _ => r.report is Silent,
                    }
                },
                MainOutcome::Failed(hresult) => {
                    &&& final(state).spec_reason() == ExitCode::Unknown(
                        #[verifier::truncate]
                        (hresult as u32),
                    )
                    &&& r.code == #[verifier::truncate] (hresult as u32)
                    &&& r.report == ExitReport::MainError
                },
            },
    {
        match outcome {
            MainOutcome::Finished => {
                let code = Self::get_code(state);
                let report = if code != 0 {
                    if last_error != 0 {
                        ExitReport::WindowsError(last_error)
                    } else {
                        match Self::reason(state).message() {
                            Some(text) => ExitReport::Message(text),
                            None => ExitReport::Silent,
                        }
                    }
                } else {
                    ExitReport::Silent
                };
                ExitPlan { report, code: Self::get_code(state) }
            },
            MainOutcome::Failed(hresult) => {
                Self::set_reason(state, ExitCode::Unknown(#[verifier::truncate] (hresult as u32)));
                ExitPlan { report: ExitReport::MainError, code: Self::get_code(state) }
            },
        }
    }
}

/// A recorded exit code is the code the shim leaves with, and a recorded reason
/// leaves with that reason's code.
pub proof fn lemma_recorded_code_is_exit_code(code: u32, reason: ExitCode)
    ensures
        reason_code(ExitCode::Unknown(code)) == code,
        reason_code(reason) == match reason {
            ExitCode::Unknown(c) => c,
            ExitCode::ProcessError => 2u32,
            ExitCode::ChildError => 3u32,
            ExitCode::Panic => PANIC_CODE,
        },
{
}

/// A target that exits with zero makes the shim leave with zero and say nothing;
/// one that fails makes the shim leave with the child-failure code and say
/// nothing either.
pub proof fn lemma_child_exit_outcome(exit_code: u32)
    ensures
        ({
            let reason = if exit_code == 0 {
                ExitCode::Unknown(0)
            } else {
                ExitCode::ChildError
            };
            &&& reason_code(reason) == if exit_code == 0 {
                0u32
            } else {
                3u32
            }
            &&& exit_code != 0 ==> !(reason is Unknown || reason is ProcessError)
        }),
{
}

/// Whether the shim's console handler claims a control event: it does for
/// Ctrl-C, Ctrl-Break, close, log-off and shut-down, so that the shim outlives
/// its target.
pub fn handles_ctrl_event(ctrl_type: u32) -> (r: bool)
    ensures
        r == (ctrl_type == CTRL_C_EVENT || ctrl_type == CTRL_CLOSE_EVENT || ctrl_type
            == CTRL_LOGOFF_EVENT || ctrl_type == CTRL_BREAK_EVENT || ctrl_type
            == CTRL_SHUTDOWN_EVENT),
{
    ctrl_type == CTRL_C_EVENT || ctrl_type == CTRL_CLOSE_EVENT || ctrl_type == CTRL_LOGOFF_EVENT
        || ctrl_type == CTRL_BREAK_EVENT || ctrl_type == CTRL_SHUTDOWN_EVENT
}

/// The `HRESULT` of a Win32 error code: a code that is zero or already has its
/// top bit set stays as it is; any other becomes a failure of facility 7
/// (`FACILITY_WIN32`) carrying its low 16 bits.
pub open spec fn spec_hresult_from_win32(error: u32) -> i32 {
    if error == 0 || error >= 0x8000_0000 {
        error as i32
    } else {
        ((error % 0x10000) + 0x8007_0000) as i32
    }
}

/// Computes the `HRESULT` of a Win32 error code.
pub fn hresult_from_win32(error: u32) -> (r: i32)
    ensures
        r == spec_hresult_from_win32(error),
        error == 0 ==> r == 0,
        0 < error < 0x8000_0000 ==> r < 0 && (r as u32) % 0x10000 == error % 0x10000 && (r as u32)
            / 0x10000 == 0x8007,
{
    if error == 0 || error >= 0x8000_0000 {
        error as i32
    } else {
        let h = (error & 0xFFFF) | (7u32 << 16u32) | 0x8000_0000;
        assert(error < 0x8000_0000 ==> (error & 0xFFFF) | (7u32 << 16u32) | 0x8000_0000 == (error
            % 0x10000) + 0x8007_0000) by (bit_vector);
        let r = h as i32;
        assert(h >= 0x8000_0000 ==> (h as i32) < 0 && ((h as i32) as u32) == h) by (bit_vector);
        assert(h % 0x10000 == error % 0x10000 && h / 0x10000 == 0x8007) by (bit_vector)
            requires
                h == (error % 0x10000) + 0x8007_0000,
        ;
        r
    }
}

/// Whether a failed spawn asks for elevation, so that the shim retries through
/// the shell.
pub fn should_elevate(hresult: i32) -> (r: bool)
    ensures
        r == (hresult == spec_hresult_from_win32(ERROR_ELEVATION_REQUIRED)),
{
    hresult == hresult_from_win32(ERROR_ELEVATION_REQUIRED)
}

/// What the shim does with its console before starting the target.
#[derive(Clone, Copy, Debug, PartialEq, Eq, Structural)]
pub enum ConsoleAction {
    /// The target is a GUI program: release the console.
    FreeConsole,
    /// The target is a console program: keep the console.
    Keep,
    /// The target's type is unknown: report it and keep the console.
    ReportUnknownType,
}

/// Decides what to do with the console, given the target's type if known.
pub fn console_action(target_type: Option<ExeType>) -> (r: ConsoleAction)
    ensures
        r == match target_type {
            None => ConsoleAction::ReportUnknownType,
            Some(t) => if t.spec_is_windows() {
                ConsoleAction::FreeConsole
            } else {
                ConsoleAction::Keep
            },
        },
        (r == ConsoleAction::FreeConsole) <==> (target_type matches Some(t) && (t.spec_loword()
            == 0x4550 || t.spec_loword() == 0x454E) && t.spec_hiword() > 0),
{
    match target_type {
        Some(t) => if t.is_windows() {
            ConsoleAction::FreeConsole
        } else {
            ConsoleAction::Keep
        },
        None => ConsoleAction::ReportUnknownType,
    }
}

/// The report for a Windows error the shim exits on.
pub fn windows_error_report(error_message: &str) -> (r: String)
    ensures
        r@ == "Shim: An error occurred.\n"@ + "\t\t- Failed with error: "@ + error_message@ + "\n"@,
{
    let mut output = String::from_str("Shim: An error occurred.\n");
    output.append("\t\t- Failed with error: ");
    output.append(error_message);
    output.append("\n");
    output
}

/// The report for a target that could not be started with `command`.
pub fn process_error_report(command: &str, error_message: &str) -> (r: String)
    ensures
        r@ == "Shim: Could not create process with command "@ + command@ + ".\n"@
            + "\t\t- Failed with error: "@ + error_message@ + "\n"@,
{
    let mut output = String::from_str("Shim: Could not create process with command ");
    output.append(command);
    output.append(".\n");
    output.append("\t\t- Failed with error: ");
    output.append(error_message);
    output.append("\n");
    output
}

/// The report for a target that could not be started elevated.
pub fn elevation_error_report(error_message: &str) -> (r: String)
    ensures
        r@ == "Shim: Unable to create elevated process.\n"@ + "\t\t- Failed with error: "@
            + error_message@ + "\n"@,
{
    let mut output = String::from_str("Shim: Unable to create elevated process.\n");
    output.append("\t\t- Failed with error: ");
    output.append(error_message);
    output.append("\n");
    output
}

/// The target that a shim starts, as read from its string table.
pub struct ChildResource {
    /// The target program's path.
    pub path: Vec<u16>,
    /// The arguments stored in the shim.
    pub args: Vec<u16>,
}

/// The command the shim starts: the target's path, the stored arguments, and what
/// follows the program name on the shim's own command line, each followed by a space.
pub open spec fn command_for(path: Seq<u16>, args: Seq<u16>, commandline: Seq<u16>) -> Seq<u16> {
    path + seq![SPACE] + args + seq![SPACE] + commandline.subrange(
        program_length(commandline),
        commandline.len() as int,
    ) + seq![SPACE]
}

/// The started command is the target's path, a space, the stored arguments, a
/// space, whatever follows the program name on the shim's own command line, and a
/// final space: the user's arguments always reach the target, whatever is stored.
pub proof fn lemma_command_parts(path: Seq<u16>, args: Seq<u16>, commandline: Seq<u16>)
    requires
        program_scan_ends(commandline),
    ensures
        ({
            let c = command_for(path, args, commandline);
            let pl = program_length(commandline);
            let k: int = path.len() + args.len() + 2int;
            let p: int = path.len() as int;
            &&& 0 <= pl <= commandline.len()
            &&& c.len() == k + (commandline.len() - pl) + 1
            &&& c.subrange(0, p) == path
            &&& c[p] == 0x20
            &&& c.subrange(p + 1, p + 1 + args.len()) == args
            &&& c[k - 1] == 0x20
            &&& c.subrange(k, c.len() - 1) == commandline.subrange(pl, commandline.len() as int)
            &&& c[c.len() - 1] == 0x20
        }),
{
    crate::interop::lemma_program_length_bounds(commandline);
    let c = command_for(path, args, commandline);
    let pl = program_length(commandline);
    let k: int = path.len() + args.len() + 2int;
    let p: int = path.len() as int;
    assert(c.subrange(0, p) =~= path);
    assert(c.subrange(p + 1, p + 1 + args.len()) =~= args);
    assert(c.subrange(k, c.len() - 1) =~= commandline.subrange(pl, commandline.len() as int));
}

/// Appends all units of `s` to `out`.
fn push_slice(out: &mut Vec<u16>, s: &[u16])
    ensures
        final(out)@ == old(out)@ + s@,
{
    let n = s.len();
    let ghost start = out@;
    for i in 0..n
        invariant
            n == s@.len(),
            out@ == start + s@.take(i as int),
    {
        out.push(s[i]);
        assert(s@.take(i + 1) =~= s@.take(i as int).push(s@[i as int]));
    }
    assert(s@.take(n as int) =~= s@);
}

impl ChildResource {
    /// The command line to start the target with, given the shim's own command line.
    pub fn calculate_command(&self, commandline: &[u16]) -> (r: Vec<u16>)
        requires
            program_scan_ends(commandline@),
        ensures
            r@ == command_for(self.path@, self.args@, commandline@),
            r@.len() == self.path@.len() + self.args@.len() + 3 + commandline@.len()
                - program_length(commandline@),
            r@.subrange(self.path@.len() + self.args@.len() + 2int, r@.len() - 1)
                == commandline@.subrange(program_length(commandline@), commandline@.len() as int),
            r@.subrange(0, self.path@.len() as int) == self.path@,
            r@.subrange(self.path@.len() + 1int, self.path@.len() + 1int + self.args@.len())
                == self.args@,
    {
        proof {
            lemma_command_parts(self.path@, self.args@, commandline@);
        }
        let program_length = compute_program_length(commandline);
        let given_command = vstd::slice::slice_subrange(commandline, program_length, commandline.len());
        let mut command: Vec<u16> = Vec::new();
        push_slice(&mut command, self.path.as_slice());
        command.push(SPACE);
        push_slice(&mut command, self.args.as_slice());
        command.push(SPACE);
        push_slice(&mut command, given_command);
        command.push(SPACE);
        command
    }
}

} // verus!
