use pci_regs::{DevselTiming, StatusRegister};
use std::convert::TryFrom;

#[test]
fn status_parity_and_devsel_medium() {
    let s = StatusRegister::new(0b1000_0010_0000_0000);
    assert!(s.parity_error_detected());
    assert_eq!(s.devsel_timing(), Ok(DevselTiming::Medium));
    assert!(!s.signalled_system_error());
    assert!(!s.received_master_abort());
    assert!(!s.received_target_abort());
    assert!(!s.signalled_target_abort());
    assert!(!s.master_data_parity_error());
    assert!(!s.fast_back_to_back_capable());
    assert!(!s.capable_66mhz());
    assert!(!s.has_capability_list());
    assert!(!s.interrupt_status());
}

#[test]
fn status_each_flag_reads_its_own_bit() {
    let cases: [(u32, fn(&StatusRegister) -> bool); 10] = [
        (15, StatusRegister::parity_error_detected),
        (14, StatusRegister::signalled_system_error),
        (13, StatusRegister::received_master_abort),
        (12, StatusRegister::received_target_abort),
        (11, StatusRegister::signalled_target_abort),
        (8, StatusRegister::master_data_parity_error),
        (7, StatusRegister::fast_back_to_back_capable),
        (5, StatusRegister::capable_66mhz),
        (4, StatusRegister::has_capability_list),
        (3, StatusRegister::interrupt_status),
    ];
    for (bit, read) in cases.iter() {
        let only = StatusRegister::new(1u16 << bit);
        assert!(read(&only), "bit {} alone", bit);
        let all_but = StatusRegister::new(!(1u16 << bit));
        assert!(!read(&all_but), "all bits but {}", bit);
    }
}

#[test]
fn status_all_ones_and_zero() {
    let ones = StatusRegister::new(0xffff);
    assert!(ones.parity_error_detected());
    assert!(ones.interrupt_status());
    assert_eq!(ones.devsel_timing(), Err(()));
    let zero = StatusRegister::new(0);
    assert!(!zero.parity_error_detected());
    assert!(!zero.has_capability_list());
    assert_eq!(zero.devsel_timing(), Ok(DevselTiming::Fast));
}

#[test]
fn status_devsel_codes() {
    assert_eq!(StatusRegister::new(0 << 9).devsel_timing(), Ok(DevselTiming::Fast));
    assert_eq!(StatusRegister::new(1 << 9).devsel_timing(), Ok(DevselTiming::Medium));
    assert_eq!(StatusRegister::new(2 << 9).devsel_timing(), Ok(DevselTiming::Slow));
    assert_eq!(StatusRegister::new(3 << 9).devsel_timing(), Err(()));
    // Neighbouring bits do not leak into the field.
    assert_eq!(StatusRegister::new(0xf9ff).devsel_timing(), Ok(DevselTiming::Fast));
    assert_eq!(StatusRegister::new(0xfbff).devsel_timing(), Ok(DevselTiming::Medium));
}

#[test]
fn devsel_decode_is_a_bijection_on_three_codes() {
    assert_eq!(DevselTiming::decode(0), Ok(DevselTiming::Fast));
    assert_eq!(DevselTiming::decode(1), Ok(DevselTiming::Medium));
    assert_eq!(DevselTiming::decode(2), Ok(DevselTiming::Slow));
    assert_eq!(DevselTiming::decode(3), Err(()));
    assert_eq!(DevselTiming::decode(255), Err(()));
    assert_eq!(DevselTiming::try_from(2u8), Ok(DevselTiming::Slow));
    assert_eq!(DevselTiming::try_from(3u8), Err(()));
}

#[test]
fn status_debug_string_names_every_field() {
    let s = StatusRegister::new(0b1000_0010_0001_0000);
    assert_eq!(
        s.debug_string(),
        "StatusRegister { parity_error_detected: true, signalled_system_error: false, \
         received_master_abort: false, received_target_abort: false, \
         signalled_target_abort: false, devsel_timing: Ok(Medium), \
         master_data_parity_error: false, fast_back_to_back_capable: false, \
         capable_66mhz: false, has_capability_list: true, interrupt_status: false }"
    );
}

#[test]
fn status_debug_string_shows_devsel_error() {
    let s = StatusRegister::new(0b0000_0110_0000_0000);
    assert!(s.debug_string().contains("devsel_timing: Err(())"));
}
