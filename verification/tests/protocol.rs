use nobble_addon_sdk::{protocol, Version};

#[test]
fn a_major_mismatch_is_incompatible_and_a_minor_one_is_not() {
    assert!(protocol().compatible_with(Version { major: 1, minor: 99 }));
    assert!(!protocol().compatible_with(Version { major: 2, minor: 0 }));
}

#[test]
fn protocol_a_major_mismatch_is_incompatible_and_a_minor_one_is_not() {
    let current = protocol();
    assert!(current.compatible_with(Version { major: current.major, minor: 99 }));
    assert!(!current.compatible_with(Version { major: current.major + 1, minor: 0 }));
}

#[test]
fn this_sdk_speaks_one_point_three() {
    assert_eq!(protocol(), Version { major: 1, minor: 3 });
    assert_eq!(protocol().to_string(), "1.3");
}

#[test]
fn a_version_is_written_major_dot_minor() {
    assert_eq!(Version { major: 0, minor: 0 }.to_string(), "0.0");
    assert_eq!(Version { major: 12, minor: 305 }.to_string(), "12.305");
    assert_eq!(Version { major: 65535, minor: 10 }.to_string(), "65535.10");
}

#[test]
fn compatibility_is_symmetric_and_ignores_the_minor_either_way() {
    let a = Version { major: 3, minor: 1 };
    let b = Version { major: 3, minor: 7 };
    let c = Version { major: 4, minor: 1 };
    assert!(a.compatible_with(a));
    assert_eq!(a.compatible_with(b), b.compatible_with(a));
    assert!(a.compatible_with(b) && b.compatible_with(a));
    assert_eq!(a.compatible_with(c), c.compatible_with(a));
    assert!(!a.compatible_with(c));
}
