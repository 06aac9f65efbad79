use ur20::ur20_16do_p;
use ur20::ur20_2fcnt_100::{self, Command};
use ur20::ur20_di_generic;
use ur20::ur20_do_generic;
use ur20::ur20_pf_o_1di_sil;
use ur20::{ChannelValue, Error, ModuleType};

fn di4() -> ur20_di_generic::Mod {
    ur20_di_generic::Mod::from_modbus_parameter_data(ModuleType::UR20_4DI_P, &[0; 4]).unwrap()
}

fn do4() -> ur20_do_generic::Mod {
    ur20_do_generic::Mod::from_modbus_parameter_data(ModuleType::UR20_4DO_P, &[0; 4]).unwrap()
}

#[test]
fn di_process_input_data() {
    let m = di4();
    assert!(m.process_input_data(&[]).is_err());
    let data = vec![0b0100];
    assert_eq!(
        m.process_input_data(&data).unwrap(),
        vec![
            ChannelValue::Bit(false),
            ChannelValue::Bit(false),
            ChannelValue::Bit(true),
            ChannelValue::Bit(false)
        ]
    );
}

#[test]
fn di_process_input_data_8() {
    let m = ur20_di_generic::Mod::from_modbus_parameter_data(ModuleType::UR20_8DI_P_2W, &[0; 8])
        .unwrap();
    assert!(m.process_input_data(&[]).is_err());
    let data = vec![0b11010100];
    assert_eq!(
        m.process_input_data(&data).unwrap(),
        vec![
            ChannelValue::Bit(false),
            ChannelValue::Bit(false),
            ChannelValue::Bit(true),
            ChannelValue::Bit(false),
            ChannelValue::Bit(true),
            ChannelValue::Bit(false),
            ChannelValue::Bit(true),
            ChannelValue::Bit(true)
        ]
    );
}

#[test]
fn di_process_output_data() {
    let m = di4();
    assert!(m.process_output_data(&[0; 4]).is_err());
    assert_eq!(
        m.process_output_data(&[]).unwrap(),
        vec![ChannelValue::NoValue; 4]
    );
}

#[test]
fn di_process_output_values() {
    let m = di4();
    assert!(m.process_output_values(&[ChannelValue::Bit(true)]).is_err());
    assert_eq!(m.process_output_values(&[]).unwrap(), Vec::<u16>::new());
    assert_eq!(
        m.process_output_values(&vec![ChannelValue::NoValue; 4])
            .unwrap(),
        Vec::<u16>::new()
    );
}

#[test]
fn do_process_output_values_with_invalid_channel_len() {
    let m = do4();
    assert!(m.process_output_values(&[]).is_err());
    assert!(m
        .process_output_values(&[
            ChannelValue::Bit(true),
            ChannelValue::Bit(false),
            ChannelValue::Bit(true)
        ])
        .is_err());
    assert!(m
        .process_output_values(&[
            ChannelValue::Bit(true),
            ChannelValue::Bit(false),
            ChannelValue::Bit(true),
            ChannelValue::Bit(true)
        ])
        .is_ok());
}

#[test]
fn do_process_output_data() {
    let m = do4();
    assert_eq!(
        m.process_output_data(&[0x0F]).unwrap(),
        vec![
            ChannelValue::Bit(true),
            ChannelValue::Bit(true),
            ChannelValue::Bit(true),
            ChannelValue::Bit(true),
        ]
    );
    assert_eq!(
        m.process_output_data(&[0b000_0101]).unwrap(),
        vec![
            ChannelValue::Bit(true),
            ChannelValue::Bit(false),
            ChannelValue::Bit(true),
            ChannelValue::Bit(false),
        ]
    );
    assert!(m.process_output_data(&[0; 2]).is_err());
}

#[test]
fn do_process_output_values() {
    let m = do4();
    assert_eq!(
        m.process_output_values(&[
            ChannelValue::Bit(true),
            ChannelValue::Bit(false),
            ChannelValue::Bit(true),
            ChannelValue::Bit(true)
        ])
        .unwrap(),
        vec![0b1101]
    );
    assert!(m
        .process_output_values(&[
            ChannelValue::Bit(false),
            ChannelValue::Bit(true),
            ChannelValue::Bit(false),
            ChannelValue::Decimal32(0)
        ])
        .is_err());
}

#[test]
fn do16_process_output() {
    let m = ur20_16do_p::Mod::from_modbus_parameter_data(&[]).unwrap();
    assert!(ur20_16do_p::Mod::from_modbus_parameter_data(&[0]).is_err());
    let decoded = m.process_output_data(&[0x8001]).unwrap();
    assert_eq!(decoded.len(), 16);
    assert_eq!(decoded[0], ChannelValue::Bit(true));
    assert_eq!(decoded[15], ChannelValue::Bit(true));
    assert_eq!(decoded[1], ChannelValue::Bit(false));
    let encoded = m.process_output_values(&decoded).unwrap();
    assert_eq!(encoded, vec![0x8001]);
}

#[test]
fn fcnt_process_input_data() {
    let m = ur20_2fcnt_100::Mod::from_modbus_parameter_data(&[0, 0]).unwrap();
    assert!(m.process_input_data(&[0; 9]).is_err());
    // channel 0: period 0x0000_0400 ticks, count 7, active;
    // channel 1: period at the no-measurement sentinel
    let data = vec![0x0000, 0x0400, 0x0000, 0x0007, 0x07FF, 0xFFFF, 0, 0, 0x0100, 0];
    let values = m.process_input_data(&data).unwrap();
    match values[0] {
        ChannelValue::FcntIn(f) => {
            assert_eq!(f.duration, Some(0x400 * 125));
            assert_eq!(f.count, 7);
            assert!(f.active);
        }
        _ => panic!("wrong channel data"),
    }
    match values[1] {
        ChannelValue::FcntIn(f) => {
            assert_eq!(f.duration, None);
            assert_eq!(f.count, 0);
            assert!(!f.active);
        }
        _ => panic!("wrong channel data"),
    }
}

#[test]
fn fcnt_process_output_round_trip() {
    let m = ur20_2fcnt_100::Mod::from_modbus_parameter_data(&[0, 0]).unwrap();
    // 2_000_000 us cycle on channel 0 with a start command
    let ch0 = ur20_2fcnt_100::ProcessOutput {
        duration: 2_000_000_000,
        command: Some(Command::Start),
    };
    let ch1 = ur20_2fcnt_100::ProcessOutput {
        duration: 0,
        command: Some(Command::Stop),
    };
    let words = m
        .process_output_values(&[ChannelValue::FcntOut(ch0), ChannelValue::FcntOut(ch1)])
        .unwrap();
    // 2_000_000 us == 0x001E_8480
    assert_eq!(words, vec![0x001E, 0x8480, 0, 0, 256, 512]);
    let decoded = m.process_output_data(&words).unwrap();
    assert_eq!(decoded[0], ChannelValue::FcntOut(ch0));
    assert_eq!(decoded[1], ChannelValue::FcntOut(ch1));
}

#[test]
fn fcnt_process_output_values_rejects_overlong_period() {
    let m = ur20_2fcnt_100::Mod::from_modbus_parameter_data(&[0, 0]).unwrap();
    let too_long = ur20_2fcnt_100::ProcessOutput {
        duration: 8_388_607_001,
        command: None,
    };
    assert_eq!(
        m.process_output_values(&[
            ChannelValue::FcntOut(too_long),
            ChannelValue::Disabled
        ])
        .err(),
        Some(Error::ChannelValue)
    );
}

#[test]
fn pf_process_input_data() {
    let m = ur20_pf_o_1di_sil::Mod::from_modbus_parameter_data(&[]).unwrap();
    assert!(m.process_input_data(&[0]).is_err());
    let values = m.process_input_data(&[0b0000_0001_0000_1001, 0]).unwrap();
    assert_eq!(values.len(), 1);
    match values[0] {
        ChannelValue::SilPFIn(f) => {
            assert!(f.safety_input);
            assert!(!f.autostart);
            assert!(f.manual_start);
            assert!(!f.safety_input_channel_1);
            assert!(!f.safety_input_channel_2);
            assert!(f.volt_24_safe_output);
            assert!(!f.volt_24_dc);
        }
        _ => panic!("wrong channel data"),
    }
}

#[test]
fn relay_module_uses_the_digital_output_codec() {
    let m = ur20_do_generic::Mod::from_modbus_parameter_data(
        ModuleType::UR20_4RO_CO_255,
        &[0, 1, 0, 1],
    )
    .unwrap();
    assert!(m.ch_params[1].substitute_value);
    assert_eq!(
        m.process_output_values(&[
            ChannelValue::Bit(true),
            ChannelValue::Bit(false),
            ChannelValue::Bit(false),
            ChannelValue::Bit(true)
        ])
        .unwrap(),
        vec![0b1001]
    );
}
