use oxidized_explorer::EntryKind;
use oxidized_explorer::format::format_permissions;
use oxidized_explorer::format::format_size;
use oxidized_explorer::format::format_timestamp;
use oxidized_explorer::format::kind_label;

#[test]
fn sizes_format_as_plain_decimal() {
    assert_eq!(format_size(0), "0");
    assert_eq!(format_size(7), "7");
    assert_eq!(format_size(42), "42");
    assert_eq!(format_size(1000), "1000");
    assert_eq!(format_size(1234567890), "1234567890");
    assert_eq!(format_size(u64::MAX), "18446744073709551615");
}

#[test]
fn permissions_render_as_rwx_triples() {
    assert_eq!(format_permissions(Some(0o755)), "rwxr-xr-x");
    assert_eq!(format_permissions(Some(0o644)), "rw-r--r--");
    assert_eq!(format_permissions(Some(0o000)), "---------");
    assert_eq!(format_permissions(Some(0o777)), "rwxrwxrwx");
    assert_eq!(format_permissions(None), "unsupported");
}

#[test]
fn kind_labels_name_the_four_kinds() {
    assert_eq!(kind_label(EntryKind::Directory), "Directory");
    assert_eq!(kind_label(EntryKind::File), "File");
    assert_eq!(kind_label(EntryKind::Symlink), "Symlink");
    assert_eq!(kind_label(EntryKind::Unknown), "Unknown");
}

#[test]
fn missing_timestamp_gives_the_sentinel() {
    assert_eq!(format_timestamp(None), "Error fetching time");
}

fn has_stamp_shape(s: &str) -> bool {
    let b: Vec<char> = s.chars().collect();
    b.len() == 19
        && b[0].is_ascii_digit()
        && b[1].is_ascii_digit()
        && b[2] == '/'
        && b[3].is_ascii_digit()
        && b[4].is_ascii_digit()
        && b[5] == '/'
        && b[6..10].iter().all(|c| c.is_ascii_digit())
        && b[10] == ' '
        && b[11].is_ascii_digit()
        && b[12].is_ascii_digit()
        && b[13] == ':'
        && b[14].is_ascii_digit()
        && b[15].is_ascii_digit()
        && b[16] == ' '
        && (b[17] == 'A' || b[17] == 'P')
        && b[18] == 'M'
}

#[test]
fn present_timestamp_renders_a_local_clock() {
    let s = format_timestamp(Some(0));
    assert_ne!(s, "Error fetching time");
    assert!(has_stamp_shape(&s), "unexpected stamp: {}", s);
    let t = format_timestamp(Some(1431648000));
    assert!(has_stamp_shape(&t), "unexpected stamp: {}", t);
    assert!(t.contains("2015"));
    let far = format_timestamp(Some(100000000000));
    assert!(has_stamp_shape(&far), "unexpected stamp: {}", far);
    let old = format_timestamp(Some(-30000000000));
    assert!(has_stamp_shape(&old), "unexpected stamp: {}", old);
}

#[test]
fn out_of_range_timestamp_gives_the_sentinel() {
    assert_eq!(format_timestamp(Some(i64::MAX)), "Error fetching time");
}
