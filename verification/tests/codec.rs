use pa_spl::ControlRegister;
use pa_spl::FilterSetting;
use pa_spl::MicVariant;
use pa_spl::REG_CONTROL_DEFAULT;
use pa_spl::REG_RESET_DEFAULT;
use pa_spl::ResetRegister;

#[test]
fn control_register_round_trip_all_bytes() {
    let mut b: u16 = 0;
    while b <= 0xFF {
        let byte = b as u8;
        assert_eq!(byte, ControlRegister::from_bits(byte).into_bits());
        assert_eq!(
            byte,
            ControlRegister::from_bits_with_variant(byte, MicVariant::External).into_bits()
        );
        b += 1;
    }
}

#[test]
fn control_register_default_fields() {
    let reg = ControlRegister::from_bits(REG_CONTROL_DEFAULT);
    assert_eq!(false, reg.power_down());
    assert_eq!(FilterSetting::AWeighting, reg.filter_setting());
    assert_eq!(false, reg.interrupt_enable());
    assert_eq!(false, reg.interrupt_type());
}

#[test]
fn filter_setting_codec() {
    assert_eq!(FilterSetting::NoFilter, FilterSetting::from_bits(0b00));
    assert_eq!(FilterSetting::AWeighting, FilterSetting::from_bits(0b01));
    assert_eq!(FilterSetting::CWeighting, FilterSetting::from_bits(0b10));
    assert_eq!(FilterSetting::CWeighting, FilterSetting::from_bits(0b11));
    assert_eq!(0b00, FilterSetting::NoFilter.into_bits());
    assert_eq!(0b01, FilterSetting::AWeighting.into_bits());
    assert_eq!(0b10, FilterSetting::CWeighting.into_bits());
}

#[test]
fn control_register_preserves_reserved_bits() {
    let mut reg = ControlRegister::from_bits(0xC0);
    reg.set_power_down(true);
    reg.set_filter_setting(FilterSetting::CWeighting);
    reg.set_interrupt_enable(true);
    reg.set_interrupt_type(true);
    assert_eq!(0xC0 | 0x01 | 0x04 | 0x08 | 0x10, reg.into_bits());
    reg.set_power_down(false);
    assert_eq!(0xC0 | 0x04 | 0x08 | 0x10, reg.into_bits());
    reg.set_filter_setting(FilterSetting::NoFilter);
    assert_eq!(0xC0 | 0x08 | 0x10, reg.into_bits());
}

#[test]
fn control_register_builders() {
    let reg = ControlRegister::new()
        .with_power_down(true)
        .with_filter_setting(FilterSetting::AWeighting)
        .with_interrupt_enable(true)
        .with_interrupt_type(true);
    assert_eq!(0x01 | 0x02 | 0x08 | 0x10, reg.into_bits());
    assert!(reg.power_down());
    assert_eq!(FilterSetting::AWeighting, reg.filter_setting());
    assert!(reg.interrupt_enable());
    assert!(reg.interrupt_type());
}

#[test]
fn control_register_set_filter() {
    let mut reg = ControlRegister::from_bits(REG_CONTROL_DEFAULT);
    reg.set_filter(FilterSetting::CWeighting);
    assert_eq!(0b0000_0100, reg.into_bits());
    assert_eq!(FilterSetting::CWeighting, reg.filter_setting());
}

#[test]
fn control_register_line_out_external_variant() {
    let reg = ControlRegister::from_bits_with_variant(0x00, MicVariant::External)
        .with_enable_line_out(true);
    assert!(reg.enable_line_out());
    assert_eq!(0x20, reg.into_bits());
    let cleared = reg.with_enable_line_out(false);
    assert!(!cleared.enable_line_out());
    assert_eq!(0x00, cleared.into_bits());
}

#[test]
fn reset_register_system_reset_only() {
    let reg = ResetRegister::new().with_system_reset(true);
    assert_eq!(0b0000_1000, reg.into_bits());
    assert!(reg.system_reset());
    assert!(!reg.clear_interrupt());
    assert!(!reg.clear_min_max());
    assert!(!reg.clear_history());
}

#[test]
fn reset_register_builders() {
    assert_eq!(REG_RESET_DEFAULT, ResetRegister::new().into_bits());
    assert_eq!(0x01, ResetRegister::new().with_clear_interrupt(true).into_bits());
    assert_eq!(0x02, ResetRegister::new().with_clear_min_max(true).into_bits());
    assert_eq!(0x04, ResetRegister::new().with_clear_history(true).into_bits());
    let all = ResetRegister::new()
        .with_clear_interrupt(true)
        .with_clear_min_max(true)
        .with_clear_history(true)
        .with_system_reset(true);
    assert_eq!(0x0F, all.into_bits());
    assert!(all.clear_interrupt());
    assert!(all.clear_min_max());
    assert!(all.clear_history());
    assert!(all.system_reset());
    assert_eq!(0x07, all.with_system_reset(false).into_bits());
}
