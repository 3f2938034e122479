use gba_emulator::graphics::oam::{OBJMode, OAM};

#[test]
fn oam_can_get_y_from_bits() {
    let oam = OAM(&[0x2620, 0xc2ad, 0x0a40]);
    assert_eq!(oam.y(), 0x20);
}

#[test]
fn oam_can_check_if_rotation_scaling_enabled() {
    let oam = OAM(&[0x2620, 0xc2ad, 0x0a40]);
    assert_eq!(oam.rotation_and_scaling_enabled(), false);
    let oam = OAM(&[0x2720, 0xc2ad, 0x0a40]);
    assert_eq!(oam.rotation_and_scaling_enabled(), true);
}

#[test]
fn oam_can_check_if_double_sized() {
    let oam = OAM(&[0x2620, 0xc2ad, 0x0a40]);
    assert_eq!(oam.double_sized(), false);
    let oam = OAM(&[0x2720, 0xc2ad, 0x0a40]);
    assert_eq!(oam.double_sized(), true);
    let oam = OAM(&[0x2520, 0xc2ad, 0x0a40]);
    assert_eq!(oam.double_sized(), false);
}

#[test]
fn oam_can_check_obj_disabled() {
    let oam = OAM(&[0x2620, 0xc2ad, 0x0a40]);
    assert_eq!(oam.obj_disabled(), true);
    let oam = OAM(&[0x2720, 0xc2ad, 0x0a40]);
    assert_eq!(oam.obj_disabled(), false);
    let oam = OAM(&[0x2320, 0xc2ad, 0x0a40]);
    assert_eq!(oam.obj_disabled(), false);
}

#[test]
fn oam_can_get_obj_mode() {
    let oam = OAM(&[0x2620, 0xc2ad, 0x0a40]);
    assert!(matches!(oam.obj_mode(), OBJMode::SemiTransparent));
    let oam = OAM(&[0x2E20, 0xc2ad, 0x0a40]);
    assert!(matches!(oam.obj_mode(), OBJMode::Prohibited));
    let oam = OAM(&[0x2A20, 0xc2ad, 0x0a40]);
    assert!(matches!(oam.obj_mode(), OBJMode::OBJWindow));
    let oam = OAM(&[0x2220, 0xc2ad, 0x0a40]);
    assert!(matches!(oam.obj_mode(), OBJMode::Normal));
}

#[test]
fn oam_can_get_obj_mosaic() {
    let oam = OAM(&[0x2620, 0xc2ad, 0x0a40]);
    assert_eq!(oam.obj_mosaic(), false);

    let oam = OAM(&[0x3620, 0xc2ad, 0x0a40]);
    assert_eq!(oam.obj_mosaic(), true);
}

#[test]
fn oam_can_get_x() {
    let oam = OAM(&[0x2620, 0xc2ad, 0x0a40]);
    assert_eq!(oam.x(), 0xad);

    let oam = OAM(&[0x2620, 0xc3fd, 0x0a40]);
    assert_eq!(oam.x(), 0x1fd);
}
