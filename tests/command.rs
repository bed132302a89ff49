use pci_regs::{CommandRegister, CommandRegisterBuilder};

fn fields(c: &CommandRegister) -> [bool; 10] {
    [
        c.interrupts_disabled(),
        c.fast_back_to_back_enabled(),
        c.serr_enabled(),
        c.parity_error_response(),
        c.vga_palette_snoop(),
        c.memory_write_and_invalidate_enabled(),
        c.monitor_special_cycles(),
        c.bus_mastering_enabled(),
        c.memory_space_access_enabled(),
        c.io_space_access_enabled(),
    ]
}

fn image_of(c: &CommandRegister, seed: u32) -> u32 {
    let mut data = seed;
    c.write_info(&mut data);
    data
}

#[test]
fn command_decodes_bits_0_1_2_9_10() {
    let c = CommandRegister::from_u16(0b0000_0110_0000_0111);
    assert!(c.io_space_access_enabled());
    assert!(c.memory_space_access_enabled());
    assert!(c.bus_mastering_enabled());
    assert!(c.fast_back_to_back_enabled());
    assert!(c.interrupts_disabled());
    assert!(!c.serr_enabled());
    assert!(!c.parity_error_response());
    assert!(!c.vga_palette_snoop());
    assert!(!c.memory_write_and_invalidate_enabled());
    assert!(!c.monitor_special_cycles());
}

#[test]
fn command_each_flag_reads_its_own_bit() {
    let bits = [10u32, 9, 8, 6, 5, 4, 3, 2, 1, 0];
    for (k, bit) in bits.iter().enumerate() {
        let only = fields(&CommandRegister::from_u16(1u16 << bit));
        let all_but = fields(&CommandRegister::from_u16(!(1u16 << bit)));
        for j in 0..10 {
            assert_eq!(only[j], j == k, "bit {} alone, field {}", bit, j);
            assert_eq!(all_but[j], j != k, "all bits but {}, field {}", bit, j);
        }
    }
}

#[test]
fn builder_default_is_all_disabled() {
    let c = CommandRegisterBuilder::default().build();
    assert_eq!(fields(&c), [false; 10]);
    assert_eq!(image_of(&c, 0xffff_ffff), 0xffff_f880);
    assert!(c == CommandRegister::default());
}

#[test]
fn builder_setters_touch_one_bit_each() {
    let mut b = CommandRegisterBuilder::default();
    b.interrupt_disable(true)
        .fast_back_to_back_enable(true)
        .serr_enable(true)
        .parity_error_response(true)
        .vga_palette_snoop(true)
        .memory_write_and_invalidate_enable(true)
        .monitor_special_cycles(true)
        .bus_mastering(true)
        .memory_space_access(true)
        .io_space_access(true);
    let c = b.build();
    assert_eq!(fields(&c), [true; 10]);
    assert_eq!(image_of(&c, 0), 0x77f);
}

#[test]
fn builder_last_setting_wins_in_any_order() {
    let mut a = CommandRegisterBuilder::default();
    a.bus_mastering(true).io_space_access(true).bus_mastering(false).serr_enable(true);
    let mut b = CommandRegisterBuilder::default();
    b.serr_enable(true).io_space_access(true).bus_mastering(false);
    let ca = a.build();
    let cb = b.build();
    assert!(ca == cb);
    assert!(!ca.bus_mastering_enabled());
    assert!(ca.io_space_access_enabled());
    assert!(ca.serr_enabled());
    assert!(!ca.interrupts_disabled());
    assert_eq!(image_of(&ca, 0), 0x101);
}

#[test]
fn builder_from_register_keeps_baseline() {
    let c = CommandRegister::from_u16(0b0000_0110_0000_0111);
    let mut b = c.builder();
    b.interrupt_disable(false).serr_enable(true);
    let d = b.build();
    assert!(!d.interrupts_disabled());
    assert!(d.serr_enabled());
    assert!(d.fast_back_to_back_enabled());
    assert!(d.bus_mastering_enabled());
    assert!(d.memory_space_access_enabled());
    assert!(d.io_space_access_enabled());
    assert_eq!(image_of(&d, 0), 0b0000_0011_0000_0111);
}

#[test]
fn builder_round_trip_keeps_value() {
    for raw in [0u16, 0xffff, 0b0000_0110_0000_0111, 0x8080, 0x1234] {
        let c = CommandRegister::from_u16(raw);
        let d = c.builder().build();
        assert!(d == c);
        assert_eq!(fields(&d), fields(&c));
        assert_eq!(image_of(&d, 0xdead_beef), image_of(&c, 0xdead_beef));
        assert_eq!(d.debug_string(), c.debug_string());
    }
}

#[test]
fn write_info_overwrites_only_owned_bits() {
    let c = CommandRegister::from_u16(0xffff);
    assert_eq!(image_of(&c, 0), 0x0000_077f);
    assert_eq!(image_of(&c, 0xffff_0080), 0xffff_07ff);
    let z = CommandRegister::from_u16(0);
    assert_eq!(image_of(&z, 0xffff_ffff), 0xffff_f880);
    assert_eq!(image_of(&z, 0x1234_5678), 0x1234_5000 | 0x080 & 0x678 | 0x800 & 0x678);
    let c = CommandRegister::from_u16(0b0000_0110_0000_0111);
    assert_eq!(image_of(&c, 0xabcd_0000), 0xabcd_0607);
}

#[test]
fn write_info_twice_equals_once() {
    let c = CommandRegister::from_u16(0x0545);
    let once = image_of(&c, 0x9876_fedc);
    assert_eq!(image_of(&c, once), once);
    assert_eq!(once, (0x9876_fedc & !0x77f) | (0x0545 & 0x77f));
}

#[test]
fn command_debug_string_names_every_field() {
    let c = CommandRegister::from_u16(0b0000_0110_0000_0111);
    assert_eq!(
        c.debug_string(),
        "CommandRegister { interrupts_disabled: true, fast_back_to_back_enabled: true, \
         serr_enabled: false, parity_error_response: false, vga_palette_snoop: false, \
         memory_write_and_invalidate_enabled: false, monitor_special_cycles: false, \
         bus_mastering_enabled: true, memory_space_access_enabled: true, \
         io_space_access_enabled: true }"
    );
}
