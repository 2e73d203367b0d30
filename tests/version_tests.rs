use self_updater::version::{is_newer, parse_version, sorts_after};

#[test]
fn newer_by_numeric_component() {
    assert!(is_newer("1.10.0", "1.9.9"));
    assert!(!is_newer("1.9.9", "1.10.0"));
}

#[test]
fn equal_length_versions_compare_lexicographically() {
    assert!(is_newer("2.0.0", "1.99.99"));
    assert!(is_newer("1.2.4", "1.2.3"));
    assert!(!is_newer("1.2.3", "1.2.4"));
    assert!(!is_newer("0.9.0", "1.0.0"));
}

#[test]
fn a_version_is_not_newer_than_itself() {
    for v in ["1.2.3", "v1.2.3", "", "x", "0", "1..2", "4294967295"] {
        assert!(!is_newer(v, v), "{}", v);
    }
}

#[test]
fn malformed_component_parses_as_zero() {
    assert!(!is_newer("1.x.0", "1.0.1"));
    assert_eq!(parse_version("1.x.0"), vec![1, 0, 0]);
}

#[test]
fn leading_v_is_stripped() {
    assert_eq!(parse_version("v2.0.0"), vec![2, 0, 0]);
    assert_eq!(parse_version("vv3"), vec![3]);
    assert!(is_newer("v2.0.0", "1.9.5"));
    assert!(!is_newer("v1.9.5", "1.9.5"));
}

#[test]
fn missing_trailing_components_are_absent_not_zero() {
    assert!(is_newer("1.2.0", "1.2"));
    assert!(!is_newer("1.2", "1.2.0"));
}

#[test]
fn components_out_of_range_or_signed_parse_as_zero() {
    assert_eq!(parse_version("4294967295.4294967296"), vec![4294967295, 0]);
    assert_eq!(parse_version("+5.-5.+"), vec![5, 0, 0]);
    assert_eq!(parse_version(""), vec![0]);
    assert_eq!(parse_version("1..2"), vec![1, 0, 2]);
    assert_eq!(parse_version("007"), vec![7]);
}

#[test]
fn sorts_after_treats_prefix_as_smaller() {
    assert!(sorts_after(&vec![1, 2, 0], &vec![1, 2]));
    assert!(!sorts_after(&vec![1, 2], &vec![1, 2]));
    assert!(!sorts_after(&vec![], &vec![0]));
    assert!(sorts_after(&vec![0], &vec![]));
}
