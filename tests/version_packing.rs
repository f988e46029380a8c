use rsnav_proto::Version;

#[test]
fn version_parts() {
    let v = Version::new(5, 2, 9);
    assert_eq!((v.major(), v.minor(), v.patch()), (5, 2, 9));
    assert_eq!(v.0, (5 << 10) | (2 << 4) | 9);
}

#[test]
fn version_major_truncated() {
    let v = Version::new(70, 0, 0);
    assert_eq!(v.major(), 6);
    assert_eq!(v.minor(), 0);
    assert_eq!(v.patch(), 0);
}

#[test]
fn version_minor_and_patch_truncated() {
    let v = Version::new(0, 65, 17);
    assert_eq!((v.major(), v.minor(), v.patch()), (0, 1, 1));
}

#[test]
fn version_largest() {
    let v = Version::new(63, 63, 15);
    assert_eq!(v.0, 0xffff);
    assert_eq!((v.major(), v.minor(), v.patch()), (63, 63, 15));
}

#[test]
fn version_from_packed_value() {
    let v = Version(0x0423);
    assert_eq!((v.major(), v.minor(), v.patch()), (1, 2, 3));
}
