use gba_emulator::graphics::wrappers::oam::{OBJMode, Oam};

#[test]
fn can_get_y_from_bits() {
    let oam = Oam(&[0x2620, 0xc2ad, 0x0a40]);
    assert_eq!(oam.y(), 0x20);
}

#[test]
fn can_check_if_rotation_scaling_enabled() {
    let oam = Oam(&[0x2620, 0xc2ad, 0x0a40]);
    assert_eq!(oam.rotation_and_scaling_enabled(), false);
    let oam = Oam(&[0x2720, 0xc2ad, 0x0a40]);
    assert_eq!(oam.rotation_and_scaling_enabled(), true);
}

#[test]
fn can_check_if_double_sized() {
    let oam = Oam(&[0x2620, 0xc2ad, 0x0a40]);
    assert_eq!(oam.double_sized(), false);
    let oam = Oam(&[0x2720, 0xc2ad, 0x0a40]);
    assert_eq!(oam.double_sized(), true);
    let oam = Oam(&[0x2520, 0xc2ad, 0x0a40]);
    assert_eq!(oam.double_sized(), false);
}

#[test]
fn can_check_obj_disabled() {
    let oam = Oam(&[0x2620, 0xc2ad, 0x0a40]);
    assert_eq!(oam.obj_disabled(), true);
    let oam = Oam(&[0x2720, 0xc2ad, 0x0a40]);
    assert_eq!(oam.obj_disabled(), false);
    let oam = Oam(&[0x2320, 0xc2ad, 0x0a40]);
    assert_eq!(oam.obj_disabled(), false);
}

#[test]
fn can_get_obj_mode() {
    let oam = Oam(&[0x2620, 0xc2ad, 0x0a40]);
    assert!(matches!(oam.obj_mode(), OBJMode::SemiTransparent));
    let oam = Oam(&[0x2E20, 0xc2ad, 0x0a40]);
    assert!(matches!(oam.obj_mode(), OBJMode::Prohibited));
    let oam = Oam(&[0x2A20, 0xc2ad, 0x0a40]);
    assert!(matches!(oam.obj_mode(), OBJMode::OBJWindow));
    let oam = Oam(&[0x2220, 0xc2ad, 0x0a40]);
    assert!(matches!(oam.obj_mode(), OBJMode::Normal));
}

#[test]
fn can_get_obj_mosaic() {
    let oam = Oam(&[0x2620, 0xc2ad, 0x0a40]);
    assert_eq!(oam.obj_mosaic(), false);

    let oam = Oam(&[0x3620, 0xc2ad, 0x0a40]);
    assert_eq!(oam.obj_mosaic(), true);
}

#[test]
fn can_get_x() {
    let oam = Oam(&[0x2620, 0xc2ad, 0x0a40]);
    assert_eq!(oam.x(), 0xad);

    let oam = Oam(&[0x2620, 0xc3fd, 0x0a40]);
    assert_eq!(oam.x(), 0x1fd);
}
