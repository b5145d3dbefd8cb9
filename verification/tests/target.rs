//! The on-target test sequences, run against the mock bus standing in for
//! the documented device behaviour.

use pa_spl::ControlRegister;
use pa_spl::DEVICE_ADDR_DEFAULT;
use pa_spl::FilterSetting;
use pa_spl::MockBus;
use pa_spl::MockTransaction;
use pa_spl::PaSpl;
use pa_spl::REG_CONTROL_DEFAULT;
use pa_spl::registers::REG_CONTROL;
use pa_spl::registers::REG_DECIBEL;
use pa_spl::registers::REG_DEVICE_ID;
use pa_spl::registers::REG_MAX;
use pa_spl::registers::REG_MIN;
use pa_spl::registers::REG_RESET;
use pa_spl::registers::REG_SCRATCH;
use pa_spl::registers::REG_TAVG_HIGH;
use pa_spl::registers::REG_VERSION;

#[test]
fn pa_spl_confirm_firmware_version() {
    // NOTE: The published version is 0x32 but this device returns 0x33.
    const EXPECTED: u8 = 0x33;
    let expectations = vec![MockTransaction::WriteRead {
        addr: DEVICE_ADDR_DEFAULT,
        sent: vec![REG_VERSION],
        response: vec![EXPECTED],
    }];
    let mut pa_spl = PaSpl::new(MockBus::new(expectations));
    let firmware_version = pa_spl.get_firmware_version().unwrap();
    assert_eq!(EXPECTED, firmware_version);
}

#[test]
fn pa_spl_confirm_device_id() {
    const EXPECTED: u32 = 1867099226;
    let expectations = vec![MockTransaction::WriteRead {
        addr: DEVICE_ADDR_DEFAULT,
        sent: vec![REG_DEVICE_ID],
        response: vec![
            (EXPECTED >> 24) as u8,
            (EXPECTED >> 16) as u8,
            (EXPECTED >> 8) as u8,
            EXPECTED as u8,
        ],
    }];
    let mut pa_spl = PaSpl::new(MockBus::new(expectations));
    let device_id = pa_spl.get_device_id().unwrap();
    assert_eq!(EXPECTED, device_id);
}

#[test]
fn pa_spl_confirm_get_avg_time() {
    const EXPECTED: u16 = 1000;
    let expectations = vec![MockTransaction::WriteRead {
        addr: DEVICE_ADDR_DEFAULT,
        sent: vec![REG_TAVG_HIGH],
        response: vec![0x03, 0xE8],
    }];
    let mut pa_spl = PaSpl::new(MockBus::new(expectations));
    let avg_time = pa_spl.get_avg_time().unwrap();
    assert_eq!(EXPECTED, avg_time);
}

#[test]
fn pa_spl_confirm_get_control_register() {
    let expected = ControlRegister::from_bits(REG_CONTROL_DEFAULT);
    let expectations = vec![MockTransaction::WriteRead {
        addr: DEVICE_ADDR_DEFAULT,
        sent: vec![REG_CONTROL],
        response: vec![REG_CONTROL_DEFAULT],
    }];
    let mut pa_spl = PaSpl::new(MockBus::new(expectations));
    let reg_control = pa_spl.get_control_register().unwrap();
    assert_eq!(expected, reg_control);
}

#[test]
fn pa_spl_confirm_get_max_decibel() {
    // The value returned is a sensed value, so this only tests that a valid
    // result is returned.
    let expectations = vec![MockTransaction::WriteRead {
        addr: DEVICE_ADDR_DEFAULT,
        sent: vec![REG_MAX],
        response: vec![0x45],
    }];
    let mut pa_spl = PaSpl::new(MockBus::new(expectations));
    let result = pa_spl.get_max_decibel();
    assert!(result.is_ok());
}

#[test]
fn pa_spl_confirm_get_min_decibel() {
    // The value returned is a sensed value, so this only tests that a valid
    // result is returned.
    let expectations = vec![MockTransaction::WriteRead {
        addr: DEVICE_ADDR_DEFAULT,
        sent: vec![REG_MIN],
        response: vec![0x30],
    }];
    let mut pa_spl = PaSpl::new(MockBus::new(expectations));
    let result = pa_spl.get_min_decibel();
    assert!(result.is_ok());
}

#[test]
fn confirm_read_latest_decibel() {
    // The value returned is a sensed value, so this only tests that a valid
    // result is returned.
    let expectations = vec![MockTransaction::WriteRead {
        addr: DEVICE_ADDR_DEFAULT,
        sent: vec![REG_DECIBEL],
        response: vec![0x40],
    }];
    let mut pa_spl = PaSpl::new(MockBus::new(expectations));
    let result = pa_spl.get_latest_decibel();
    assert!(result.is_ok());
}

#[test]
fn pa_spl_confirm_reset() {
    let expectations = vec![
        MockTransaction::Write {
            addr: DEVICE_ADDR_DEFAULT,
            bytes: vec![REG_RESET, 0b0000_1000],
        },
        MockTransaction::WriteRead {
            addr: DEVICE_ADDR_DEFAULT,
            sent: vec![REG_CONTROL],
            response: vec![REG_CONTROL_DEFAULT],
        },
    ];
    let mut pa_spl = PaSpl::new(MockBus::new(expectations));
    let result = pa_spl.reset();
    assert!(result.is_ok());

    // Confirm that the settings have been reset to the default.
    let expected = ControlRegister::from_bits(REG_CONTROL_DEFAULT);
    let reg_control = pa_spl.get_control_register().unwrap();
    assert_eq!(expected, reg_control);
}

#[test]
fn confirm_rw_scratch() {
    const EXPECTED_VAL: u8 = 0x99;
    let expectations = vec![
        MockTransaction::Write {
            addr: DEVICE_ADDR_DEFAULT,
            bytes: vec![REG_SCRATCH, EXPECTED_VAL],
        },
        MockTransaction::WriteRead {
            addr: DEVICE_ADDR_DEFAULT,
            sent: vec![REG_SCRATCH],
            response: vec![EXPECTED_VAL],
        },
    ];
    let mut pa_spl = PaSpl::new(MockBus::new(expectations));
    let write_result = pa_spl.set_scratch(EXPECTED_VAL);
    assert!(write_result.is_ok());

    let val = pa_spl.get_scratch().unwrap();
    assert_eq!(EXPECTED_VAL, val);
}

#[test]
fn pa_spl_confirm_set_avg_time() {
    let new_avg_time_ms: u16 = 125;
    let expectations = vec![
        MockTransaction::Write {
            addr: DEVICE_ADDR_DEFAULT,
            bytes: vec![REG_TAVG_HIGH, 0x00, 0x7D],
        },
        MockTransaction::WriteRead {
            addr: DEVICE_ADDR_DEFAULT,
            sent: vec![REG_TAVG_HIGH],
            response: vec![0x00, 0x7D],
        },
    ];
    let mut pa_spl = PaSpl::new(MockBus::new(expectations));
    let result = pa_spl.set_avg_time(new_avg_time_ms);
    assert!(result.is_ok());

    const EXPECTED: u16 = 125;
    let avg_time = pa_spl.get_avg_time().unwrap();
    assert_eq!(EXPECTED, avg_time);
}

#[test]
fn pa_spl_confirm_set_control_register() {
    let expected_default = ControlRegister::from_bits(REG_CONTROL_DEFAULT);
    let expectations = vec![
        MockTransaction::WriteRead {
            addr: DEVICE_ADDR_DEFAULT,
            sent: vec![REG_CONTROL],
            response: vec![REG_CONTROL_DEFAULT],
        },
        MockTransaction::Write {
            addr: DEVICE_ADDR_DEFAULT,
            bytes: vec![REG_CONTROL, 0b0000_0100],
        },
        MockTransaction::WriteRead {
            addr: DEVICE_ADDR_DEFAULT,
            sent: vec![REG_CONTROL],
            response: vec![0b0000_0100],
        },
    ];
    let mut pa_spl = PaSpl::new(MockBus::new(expectations));
    let mut reg_control = pa_spl.get_control_register().unwrap();
    assert_eq!(expected_default, reg_control);

    reg_control.set_filter(FilterSetting::CWeighting);
    let result = pa_spl.set_control_register(reg_control);
    assert!(result.is_ok());

    let expected_set = ControlRegister::from_bits(0b0000_0100);
    let reg_control_set = pa_spl.get_control_register().unwrap();
    assert_eq!(expected_set, reg_control_set);
}

#[test]
fn sanity_check() {
    assert!(true);
}

#[test]
fn always_passes() {
    assert!(true);
}
