use miniature::error::BuildError;
use miniature::table::{join_args, StringTable, IDS_ARGS, IDS_PATH, TABLE_LEN};

fn wide(s: &str) -> Vec<u16> {
    s.encode_utf16().collect()
}

/// Reads string `index` of a string-table block: a count unit, then that many units.
fn read_block_string(units: &[u16], index: usize) -> Option<Vec<u16>> {
    let mut pos = 0usize;
    let mut i = 0usize;
    loop {
        if pos >= units.len() {
            return None;
        }
        let n = units[pos] as usize;
        if pos + 1 + n > units.len() {
            return None;
        }
        if i == index {
            return Some(units[pos + 1..pos + 1 + n].to_vec());
        }
        pos += 1 + n;
        i += 1;
    }
}

fn args(list: &[&str]) -> Vec<String> {
    list.iter().map(|s| s.to_string()).collect()
}

#[test]
fn join_puts_one_space_between_arguments() {
    assert_eq!(join_args(&args(&["search", "--installed"])), "search --installed");
    assert_eq!(join_args(&args(&["one"])), "one");
    assert_eq!(join_args(&[]), "");
    assert_eq!(join_args(&args(&["", ""])), " ");
}

#[test]
fn default_table_has_sixteen_empty_strings() {
    let t = StringTable::default();
    let buf = t.get_buffer();
    assert_eq!(buf.len(), 2 * TABLE_LEN);
    for k in 0..TABLE_LEN {
        assert_eq!(buf[2 * k], 1);
        assert_eq!(buf[2 * k + 1], 0);
    }
}

#[test]
fn table_buffer_layout() {
    let t = StringTable::new(wide("C:\\a.exe"), &args(&["x", "y"])).ok().unwrap();
    let buf = t.get_buffer();
    let mut expected: Vec<u16> = vec![1, 0];
    expected.push(9);
    expected.extend(wide("C:\\a.exe"));
    expected.push(0);
    expected.push(4);
    expected.extend(wide("x y"));
    expected.push(0);
    for _ in 3..TABLE_LEN {
        expected.push(1);
        expected.push(0);
    }
    assert_eq!(buf, expected);
}

#[test]
fn shim_reads_back_what_the_builder_wrote() {
    let target = wide("C:\\Users\\me\\scoop\\apps\\sfsu\\current\\sfsu.exe");
    let t = StringTable::new(target.clone(), &args(&["search", "--installed", "é"])).ok().unwrap();
    let buf = t.get_buffer();
    let mut path = target.clone();
    path.push(0);
    assert_eq!(read_block_string(&buf, IDS_PATH as usize), Some(path));
    let mut a = wide("search --installed é");
    a.push(0);
    assert_eq!(read_block_string(&buf, IDS_ARGS as usize), Some(a));
    assert_eq!(read_block_string(&buf, 0), Some(vec![0]));
    assert_eq!(read_block_string(&buf, 15), Some(vec![0]));
    assert_eq!(read_block_string(&buf, 16), None);
}

#[test]
fn target_with_interior_nul_is_refused() {
    let r = StringTable::new(vec![0x61, 0, 0x62], &args(&["x"]));
    assert!(matches!(r, Err(BuildError::ContainsNul(_))));
}

#[test]
fn target_with_trailing_nul_keeps_its_text() {
    let t = StringTable::new(vec![0x61, 0x62, 0], &[]).ok().unwrap();
    let buf = t.get_buffer();
    assert_eq!(read_block_string(&buf, 1), Some(vec![0x61, 0x62, 0]));
}

#[test]
fn arguments_with_nul_are_refused() {
    let r = StringTable::new(wide("a.exe"), &args(&["x\0y"]));
    assert!(matches!(r, Err(BuildError::ContainsNul(_))));
    let mut t = StringTable::default();
    let before = t.get_buffer();
    assert!(t.set_args(&args(&["\0", "b"])).is_err());
    assert_eq!(t.get_buffer(), before);
}

#[test]
fn setting_one_slot_leaves_the_others() {
    let mut t = StringTable::default();
    assert!(t.set_target(wide("t.exe")).is_ok());
    assert!(t.set_args(&args(&["a"])).is_ok());
    assert!(t.set_target(wide("u.exe")).is_ok());
    let buf = t.get_buffer();
    let mut p = wide("u.exe");
    p.push(0);
    assert_eq!(read_block_string(&buf, 1), Some(p));
    assert_eq!(read_block_string(&buf, 2), Some(vec![0x61, 0]));
}

#[test]
fn long_entry_count_keeps_the_low_sixteen_bits() {
    let long = vec![0x41u16; 0x10000];
    let t = StringTable::new(long, &[]).ok().unwrap();
    let buf = t.get_buffer();
    assert_eq!(buf[2], 1);
}

#[test]
fn slots_hold_the_texts() {
    let t = StringTable::new(wide("a.exe"), &args(&["-x", "y"])).ok().unwrap();
    assert_eq!(t.get(IDS_PATH as usize), &wide("a.exe")[..]);
    assert_eq!(t.get(IDS_ARGS as usize), &wide("-x y")[..]);
    assert_eq!(t.get(0), &[] as &[u16]);
}
