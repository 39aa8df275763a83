use fanservice::poweredge::{
    percent, restore_control, set_speed, take_control, COMMAND, NETFN,
};

#[test]
fn percent_rounds_to_the_nearest() {
    assert_eq!(percent(0), 0);
    assert_eq!(percent(100_000), 10);
    assert_eq!(percent(104_999), 10);
    assert_eq!(percent(105_000), 11);
    assert_eq!(percent(994_999), 99);
    assert_eq!(percent(995_000), 100);
    assert_eq!(percent(1_000_000), 100);
}

#[test]
fn requests_are_the_controller_s_own() {
    assert_eq!((NETFN, COMMAND), (0x30, 0x30));
    assert_eq!(take_control(), [0x01, 0x00]);
    assert_eq!(restore_control(), [0x01, 0x01]);
    assert_eq!(set_speed(100_000), [0x02, 0xff, 10]);
    assert_eq!(set_speed(1_000_000), [0x02, 0xff, 100]);
    assert_eq!(set_speed(555_000), [0x02, 0xff, 56]);
}
