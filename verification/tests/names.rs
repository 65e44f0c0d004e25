use unpacker::names::{base_name, format_name, is_recognized_name, last_component};

#[test]
fn base_name_strips_tar_xz() {
    assert_eq!(base_name("foo.tar.xz"), Some("foo".to_string()));
}

#[test]
fn base_name_strips_tar_gz() {
    assert_eq!(base_name("bundle.tar.gz"), Some("bundle".to_string()));
}

#[test]
fn base_name_strips_apg() {
    assert_eq!(base_name("pkg.apg"), Some("pkg".to_string()));
}

#[test]
fn base_name_rejects_zip() {
    assert_eq!(base_name("pkg.zip"), None);
}

#[test]
fn base_name_rejects_plain_name() {
    assert_eq!(base_name("README"), None);
}

#[test]
fn base_name_rejects_empty() {
    assert_eq!(base_name(""), None);
}

#[test]
fn base_name_takes_suffix_only_once() {
    assert_eq!(base_name("a.tar.xz.tar.xz"), Some("a.tar.xz".to_string()));
}

#[test]
fn base_name_of_bare_suffix_is_empty() {
    assert_eq!(base_name(".tar.xz"), Some("".to_string()));
}

#[test]
fn recognized_name_matches_the_three_suffixes() {
    assert!(is_recognized_name("x.tar.xz"));
    assert!(is_recognized_name("x.tar.gz"));
    assert!(is_recognized_name("x.apg"));
    assert!(!is_recognized_name("x.tgz"));
}

#[test]
fn last_component_ignores_directories() {
    assert_eq!(last_component("/home/user/foo.tar.xz"), "foo.tar.xz");
    assert_eq!(last_component("rel/dir/foo.tar.xz"), "foo.tar.xz");
    assert_eq!(last_component("foo.tar.xz"), "foo.tar.xz");
}

#[test]
fn base_name_independent_of_directories() {
    let from_plain = base_name(&last_component("foo.tar.xz"));
    let from_nested = base_name(&last_component("/deep/ly/nested/foo.tar.xz"));
    assert_eq!(from_plain, Some("foo".to_string()));
    assert_eq!(from_nested, from_plain);
}

#[test]
fn format_name_pads_short_names() {
    assert_eq!(format_name("abc", 6), "abc   ");
}

#[test]
fn format_name_keeps_exact_width_names() {
    assert_eq!(format_name("abcdef", 6), "abcdef");
}

#[test]
fn format_name_truncates_long_names() {
    assert_eq!(format_name("abcdefgh", 6), "abc...");
}

#[test]
fn format_name_is_twenty_wide_for_the_tool() {
    let formatted = format_name("averylongpackagename-1.2.3", 20);
    assert_eq!(formatted.chars().count(), 20);
    assert_eq!(formatted, "averylongpackagen...");
    assert_eq!(format_name("short", 20), "short               ");
}
