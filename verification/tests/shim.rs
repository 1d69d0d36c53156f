use miniature::error::BuildError;
use miniature::exe_type::ExeType;
use miniature::shim::{subsystem_plan, Executable, Shim, ShimArgs, SubsystemPlan};

fn wide(s: &str) -> Vec<u16> {
    s.encode_utf16().collect()
}

static PROGRAM: [u8; 4] = [b'M', b'Z', 0x90, 0];

#[test]
fn executable_keeps_its_bytes() {
    let exe = Executable::new(&PROGRAM);
    assert_eq!(exe.data(), &PROGRAM);
}

#[test]
fn shim_path_and_c_path() {
    let shim = Shim::new(wide("x.exe"));
    assert_eq!(shim.path(), &wide("x.exe")[..]);
    let mut c = wide("x.exe");
    c.push(0);
    assert_eq!(shim.c_path().ok().unwrap(), c);
    assert!(matches!(Shim::new(vec![0x61, 0, 0x62]).c_path(), Err(BuildError::ContainsNul(_))));
}

#[test]
fn resource_data_is_the_table_buffer() {
    let data = Shim::resource_data(ShimArgs::new(wide("t.exe"), vec!["a".to_string()]))
        .ok()
        .unwrap();
    assert_eq!(data.len(), 2 * 16 + 5 + 1);
    assert_eq!(&data[2..9], &[6, 0x74, 0x2E, 0x65, 0x78, 0x65, 0][..]);
    assert_eq!(&data[9..12], &[2, 0x61, 0][..]);
    assert!(Shim::resource_data(ShimArgs::new(vec![0, 1], vec![])).is_err());
}

#[test]
fn resource_size_in_bytes() {
    assert_eq!(Shim::resource_byte_len(38), 76);
    assert_eq!(Shim::resource_byte_len(0x8000_0001), 2);
}

#[test]
fn arguments_from_a_scoop_shim_file() {
    let text = "path = \"C:\\scoop\\apps\\sfsu\\current\\sfsu.exe\"\r\nargs = search --installed";
    let args = ShimArgs::from_shim_text(text).ok().unwrap();
    let data = Shim::resource_data(args).ok().unwrap();
    let target = wide("C:\\scoop\\apps\\sfsu\\current\\sfsu.exe");
    assert_eq!(data[2] as usize, target.len() + 1);
    assert_eq!(&data[3..3 + target.len()], &target[..]);
    let rest = &data[3 + target.len() + 1..];
    let a = wide("search --installed");
    assert_eq!(rest[0] as usize, a.len() + 1);
    assert_eq!(&rest[1..1 + a.len()], &a[..]);
}

#[test]
fn invalid_scoop_shim_file() {
    assert!(matches!(ShimArgs::from_shim_text("args = x"), Err(BuildError::ShimParsing(_))));
    assert!(matches!(ShimArgs::from_shim_text("colour = red"), Err(BuildError::ShimParsing(_))));
}

#[test]
fn subsystem_follows_the_target() {
    let gui = ExeType::from_file_info(0x0004_4550);
    let console = ExeType::from_file_info(0x4550);
    assert_eq!(subsystem_plan(&gui, false), SubsystemPlan::SetWindows);
    assert_eq!(subsystem_plan(&gui, true), SubsystemPlan::KeptOnRequest);
    assert_eq!(subsystem_plan(&console, false), SubsystemPlan::Unchanged);
    assert_eq!(subsystem_plan(&console, true), SubsystemPlan::Unchanged);
}
