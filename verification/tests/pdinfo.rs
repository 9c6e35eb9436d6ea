use embedded_usb_pd::pdinfo::AltMode;
use embedded_usb_pd::pdinfo::PowerPathStatus;

#[test]
fn power_path_status_debug_contains_type_and_field_names() {
    let status = PowerPathStatus::new(true, false);
    let debug = format!("{:?}", status);
    assert!(debug.contains("PowerPathStatus"));
    assert!(debug.contains("ext_vbus_sw_en:"));
    assert!(debug.contains("int_vbus_sw_en:"));
}

#[test]
fn alt_mode_debug_contains_type_and_field_names() {
    let status = AltMode::new(true, false, false, false, false, false, false);
    let debug = format!("{:?}", status);
    assert!(debug.contains("AltMode"));
    assert!(debug.contains("user0:"));
    assert!(debug.contains("user1:"));
    assert!(debug.contains("user2:"));
    assert!(debug.contains("user3:"));
    assert!(debug.contains("display_port:"));
    assert!(debug.contains("thunderbolt:"));
    assert!(debug.contains("usb4:"));
}

#[test]
fn power_path_status_holds_its_switches() {
    let status = PowerPathStatus::new(false, true);
    assert!(!status.ext_vbus_sw_en());
    assert!(status.int_vbus_sw_en());
    let none = PowerPathStatus::none();
    assert!(!none.ext_vbus_sw_en());
    assert!(!none.int_vbus_sw_en());
}

#[test]
fn alt_mode_holds_its_modes() {
    let mode = AltMode::new(false, true, false, true, false, true, false);
    assert_eq!(
        [
            mode.user0(),
            mode.user1(),
            mode.user2(),
            mode.user3(),
            mode.display_port(),
            mode.thunderbolt(),
            mode.usb4()
        ],
        [false, true, false, true, false, true, false]
    );
    assert_eq!(AltMode::none(), AltMode::new(false, false, false, false, false, false, false));
}
