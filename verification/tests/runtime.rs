use miniature::exe_type::ExeType;
use miniature::runtime::{
    console_action, elevation_error_report, handles_ctrl_event, hresult_from_win32,
    process_error_report, should_elevate, windows_error_report, ChildResource, ConsoleAction,
    ExitCode, ExitReport, ExitState, MainOutcome, ERROR_ELEVATION_REQUIRED, PANIC_CODE,
};

fn wide(s: &str) -> Vec<u16> {
    s.encode_utf16().collect()
}

#[test]
fn exit_codes_and_messages() {
    assert_eq!(ExitCode::Unknown(7).code(), 7);
    assert_eq!(ExitCode::ProcessError.code(), 2);
    assert_eq!(ExitCode::ChildError.code(), 3);
    assert_eq!(ExitCode::Panic.code(), PANIC_CODE);
    assert_eq!(PANIC_CODE, u32::from_le_bytes(*b"PNCK"));
    assert_eq!(ExitCode::Unknown(1).message(), Some("Shim: Unknown error\n"));
    assert_eq!(ExitCode::ProcessError.message(), Some("Shim: Process error\n"));
    assert_eq!(ExitCode::ChildError.message(), None);
    assert_eq!(ExitCode::Panic.message(), None);
}

#[test]
fn recorded_code_is_read_back() {
    let mut state = ExitState::new();
    assert_eq!(ExitCode::get_code(&state), 0);
    assert_eq!(ExitCode::reason(&state), ExitCode::Unknown(0));
    ExitCode::set_code(&mut state, 42);
    assert_eq!(ExitCode::get_code(&state), 42);
    ExitCode::set_reason(&mut state, ExitCode::ProcessError);
    assert_eq!(ExitCode::get_code(&state), 2);
    assert_eq!(ExitCode::reason(&state), ExitCode::ProcessError);
}

#[test]
fn child_exit_is_recorded() {
    let mut state = ExitState::new();
    ExitCode::record_child_exit(&mut state, 0);
    assert_eq!(ExitCode::reason(&state), ExitCode::Unknown(0));
    ExitCode::record_child_exit(&mut state, 9);
    assert_eq!(ExitCode::reason(&state), ExitCode::ChildError);
    assert_eq!(ExitCode::get_code(&state), 3);
}

#[test]
fn exit_after_success_is_silent() {
    let mut state = ExitState::new();
    ExitCode::record_child_exit(&mut state, 0);
    let plan = ExitCode::plan_exit(&mut state, MainOutcome::Finished, 5);
    assert_eq!(plan.code, 0);
    assert!(matches!(plan.report, ExitReport::Silent));
}

#[test]
fn exit_after_child_failure() {
    let mut state = ExitState::new();
    ExitCode::record_child_exit(&mut state, 1);
    let plan = ExitCode::plan_exit(&mut state, MainOutcome::Finished, 0);
    assert_eq!(plan.code, 3);
    assert!(matches!(plan.report, ExitReport::Silent));
    let plan = ExitCode::plan_exit(&mut state, MainOutcome::Finished, 87);
    assert_eq!(plan.code, 3);
    assert!(matches!(plan.report, ExitReport::WindowsError(87)));
}

#[test]
fn exit_after_process_error_reports_it() {
    let mut state = ExitState::new();
    ExitCode::set_reason(&mut state, ExitCode::ProcessError);
    let plan = ExitCode::plan_exit(&mut state, MainOutcome::Finished, 0);
    assert_eq!(plan.code, 2);
    assert!(matches!(plan.report, ExitReport::Message("Shim: Process error\n")));
}

#[test]
fn exit_after_failed_main_uses_the_hresult() {
    let mut state = ExitState::new();
    let plan = ExitCode::plan_exit(&mut state, MainOutcome::Failed(-2147024891), 0);
    assert_eq!(plan.code, 0x8007_0005);
    assert!(matches!(plan.report, ExitReport::MainError));
    assert_eq!(ExitCode::reason(&state), ExitCode::Unknown(0x8007_0005));
}

#[test]
fn control_events() {
    for event in [0u32, 1, 2, 5, 6] {
        assert!(handles_ctrl_event(event));
    }
    for event in [3u32, 4, 7, 100] {
        assert!(!handles_ctrl_event(event));
    }
}

#[test]
fn hresults_of_win32_errors() {
    assert_eq!(hresult_from_win32(ERROR_ELEVATION_REQUIRED), 0x8007_02E4u32 as i32);
    assert_eq!(hresult_from_win32(0), 0);
    assert_eq!(hresult_from_win32(5), 0x8007_0005u32 as i32);
    assert_eq!(hresult_from_win32(0x8000_4005), 0x8000_4005u32 as i32);
    assert_eq!(hresult_from_win32(0x0001_0005), 0x8007_0005u32 as i32);
    assert!(should_elevate(0x8007_02E4u32 as i32));
    assert!(!should_elevate(0x8007_0005u32 as i32));
}

#[test]
fn console_follows_the_target() {
    assert_eq!(console_action(None), ConsoleAction::ReportUnknownType);
    assert_eq!(
        console_action(Some(ExeType::from_file_info(0x0004_4550))),
        ConsoleAction::FreeConsole
    );
    assert_eq!(console_action(Some(ExeType::from_file_info(0x4550))), ConsoleAction::Keep);
}

#[test]
fn error_reports() {
    assert_eq!(
        windows_error_report("Access is denied."),
        "Shim: An error occurred.\n\t\t- Failed with error: Access is denied.\n"
    );
    assert_eq!(
        process_error_report("a.exe b", "boom"),
        "Shim: Could not create process with command a.exe b.\n\t\t- Failed with error: boom\n"
    );
    assert_eq!(
        elevation_error_report("no"),
        "Shim: Unable to create elevated process.\n\t\t- Failed with error: no\n"
    );
}

#[test]
fn command_joins_target_stored_and_given_arguments() {
    let resource = ChildResource { path: wide("C:\\t.exe"), args: wide("--flag") };
    let mut line = wide("\"C:\\shim.exe\" extra");
    line.push(0);
    let command = resource.calculate_command(&line);
    let mut expected = wide("C:\\t.exe --flag  extra");
    expected.push(0);
    expected.push(0x20);
    assert_eq!(command, expected);
}
