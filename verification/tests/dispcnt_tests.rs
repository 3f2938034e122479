use gba_emulator::memory::wrappers::dispcnt::Dispcnt;

#[test]
fn test_gets_enabled_backgrounds() {
    let dispcnt = Dispcnt(0x9802);

    for layer in dispcnt.enabled_backgrounds() {
        println!("{}", layer);
    }

    assert_eq!(1, 1);
}

#[test]
fn enabled_backgrounds_lists_set_bits_in_order() {
    assert_eq!(Dispcnt(0x9802).enabled_backgrounds(), vec![3]);
    assert_eq!(Dispcnt(0x0902).enabled_backgrounds(), vec![0, 3]);
    assert_eq!(Dispcnt(0x0F00).enabled_backgrounds(), vec![0, 1, 2, 3]);
    assert_eq!(Dispcnt(0x0000).enabled_backgrounds(), Vec::<usize>::new());
    assert_eq!(Dispcnt(0x0400).enabled_backgrounds(), vec![2]);
}

#[test]
fn dispcnt_fields() {
    let d = Dispcnt(0xE0F5);
    assert_eq!(d.get_bg_mode(), 5);
    assert!(d.display_frame_select());
    assert!(d.h_blank_interval_free());
    assert!(d.one_dimensional_character_mapping());
    assert!(d.forced_blank());
    assert!(!d.bg0_enabled());
    assert!(d.window_0_enabled());
    assert!(d.winout_enabled());
    assert!(!Dispcnt(0x1F00).winout_enabled());
}
