use rustix::fs::{major, makedev, minor};

#[test]
fn makedev_roundtrip_small() {
    let dev = makedev(8, 1);
    assert_eq!(dev, 0x801);
    assert_eq!(major(dev), 8);
    assert_eq!(minor(dev), 1);
}

#[test]
fn makedev_roundtrip_large() {
    let dev = makedev(0x1234_5678, 0x9abc_def0);
    assert_eq!(dev, 0x1234_59ab_cde6_78f0);
    assert_eq!(major(dev), 0x1234_5678);
    assert_eq!(minor(dev), 0x9abc_def0);
}
