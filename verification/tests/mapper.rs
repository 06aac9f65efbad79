use ur20::ur20_fbc_mod_tcp::{
    module_list_from_registers, offsets_of_process_data, param_addresses_and_register_counts,
    process_input_data, process_output_data, process_output_values, to_bit_address,
    to_register_address, CouplerConfig, ModbusParameterRegisterCount, ModuleCodec, ModuleOffset,
};
use ur20::{ur20_di_generic, ur20_do_generic, util, ChannelValue, Error, ModuleType};

#[test]
fn test_offsets_of_process_data() {
    assert_eq!(offsets_of_process_data(&vec![]), vec![]);
    assert_eq!(
        offsets_of_process_data(&vec![0xFFFF, 0x0000, 0x8000, 0x0040, 0x8050, 0xFFFF]),
        vec![
            ModuleOffset {
                output: None,
                input: Some(0x0000),
            },
            ModuleOffset {
                output: Some(0x8000),
                input: Some(0x0040),
            },
            ModuleOffset {
                output: Some(0x8050),
                input: None,
            },
        ]
    );
}

#[test]
fn test_to_regsiter_address() {
    assert_eq!(to_register_address(0x80AB), (0x080A, 11));
}

#[test]
fn test_to_bit_address() {
    assert_eq!(to_bit_address(0x080A, 11), 0x080AB);
}

#[test]
fn bit_address_round_trip() {
    for register in [0u16, 1, 0x0800, 0x0FFF] {
        for bit in [0usize, 8] {
            let addr = to_bit_address(register, bit);
            assert_eq!(to_register_address(addr), (register, bit));
        }
    }
}

#[test]
fn test_param_addresses_and_register_counts() {
    assert_eq!(param_addresses_and_register_counts(&[]), vec![]);
    assert_eq!(
        param_addresses_and_register_counts(&[ModuleType::UR20_4DI_P]),
        vec![(0xC000, 4)]
    );
    assert_eq!(
        param_addresses_and_register_counts(&[
            ModuleType::UR20_4DI_P,
            ModuleType::UR20_4DO_P,
            ModuleType::UR20_4AI_RTD_DIAG,
        ]),
        vec![(0xC000, 4), (0xC100, 4), (0xC200, 29)]
    );
}

#[test]
fn param_register_count_of_serial_module() {
    assert_eq!(ModuleType::UR20_1COM_232_485_422.param_register_count(), 10);
    assert_eq!(ModuleType::UR20_2FCNT_100.param_register_count(), 2);
}

#[test]
fn validate_coupler_config_data() {
    assert!(CouplerConfig {
        modules: vec![],
        offsets: vec![],
        params: vec![],
    }
    .validate()
    .is_ok());
    assert!(CouplerConfig {
        modules: vec![ModuleType::UR20_4DI_P],
        offsets: vec![0xFFFF, 0x0000],
        params: vec![vec![0; 4]],
    }
    .validate()
    .is_ok());
    assert!(CouplerConfig {
        modules: vec![ModuleType::UR20_4DI_P],
        offsets: vec![0xFFFF, 0x0000],
        params: vec![],
    }
    .validate()
    .is_err());
    assert!(CouplerConfig {
        modules: vec![ModuleType::UR20_4DI_P],
        offsets: vec![],
        params: vec![vec![0; 4]],
    }
    .validate()
    .is_err());
    assert!(CouplerConfig {
        modules: vec![ModuleType::UR20_4DI_P],
        offsets: vec![0xFFFF],
        params: vec![],
    }
    .validate()
    .is_err());
}

#[test]
fn test_module_list_from_registers() {
    assert_eq!(
        module_list_from_registers(&vec![]).err().unwrap(),
        Error::RegisterCount
    );
    assert_eq!(
        module_list_from_registers(&vec![0xAB0C]).err().unwrap(),
        Error::RegisterCount
    );
    assert_eq!(
        module_list_from_registers(&vec![0x0101, 0x2FA0]).unwrap(),
        vec![ModuleType::UR20_4DO_P]
    );
    assert_eq!(
        module_list_from_registers(&vec![0x0101, 0x2FA0, 0xDEAD, 0xBEEF])
            .err()
            .unwrap(),
        Error::UnknownModule
    );
}

#[test]
fn test_bit() {
    assert_eq!(util::test_bit(0b10, 0), false);
    assert_eq!(util::test_bit(0b10, 1), true);
}

#[test]
fn set_bit() {
    assert_eq!(util::set_bit(0x0, 0), 0b01);
    assert_eq!(util::set_bit(0x0, 1), 0b10);
}

#[test]
fn u16_to_u8() {
    assert_eq!(util::u16_to_u8(&[]), vec![]);
    assert_eq!(util::u16_to_u8(&[0xABCD]), vec![0xCD, 0xAB]);
    assert_eq!(util::u16_to_u8(&[0xAB, 0xCD]), vec![0xAB, 0x00, 0xCD, 0x00]);
}

#[test]
fn u8_to_u16() {
    assert_eq!(util::u8_to_u16(&[]), vec![]);
    assert_eq!(util::u8_to_u16(&[0xAB]), vec![0xAB]);
    assert_eq!(util::u8_to_u16(&[0xA, 0xB]), vec![0x0B0A]);
    assert_eq!(util::u8_to_u16(&[0xA, 0xB, 0xC]), vec![0x0B0A, 0xC]);
}

#[test]
fn shift_data() {
    assert_eq!(util::shift_data(&vec![0xABCD]), vec![0x00AB]);
}

fn di_module(t: ModuleType) -> ModuleCodec {
    ModuleCodec::DigitalIn(
        ur20_di_generic::Mod::from_modbus_parameter_data(
            t,
            &vec![0; t.channel_count()],
        )
        .unwrap(),
    )
}

fn do_module(t: ModuleType) -> ModuleCodec {
    ModuleCodec::DigitalOut(
        ur20_do_generic::Mod::from_modbus_parameter_data(
            t,
            &vec![0; t.channel_count()],
        )
        .unwrap(),
    )
}

#[test]
fn decode_of_packed_input_image() {
    // two digital input modules sharing register 0: module 0 owns the low
    // byte, module 1 the high byte
    let modules = vec![
        di_module(ModuleType::UR20_4DI_P),
        di_module(ModuleType::UR20_4DI_P),
    ];
    let offsets = vec![
        ModuleOffset {
            input: Some(to_bit_address(0x0000, 0)),
            output: None,
        },
        ModuleOffset {
            input: Some(to_bit_address(0x0000, 8)),
            output: None,
        },
    ];
    let data = [0b0000_0001_0000_0010u16];
    let res = process_input_data(&modules, &offsets, &data).unwrap();
    assert_eq!(res.len(), 2);
    assert_eq!(
        res[0],
        vec![
            ChannelValue::Bit(false),
            ChannelValue::Bit(true),
            ChannelValue::Bit(false),
            ChannelValue::Bit(false),
        ]
    );
    assert_eq!(
        res[1],
        vec![
            ChannelValue::Bit(true),
            ChannelValue::Bit(false),
            ChannelValue::Bit(false),
            ChannelValue::Bit(false),
        ]
    );
}

#[test]
fn shared_byte_decode_matches_standalone_register() {
    // decoding the high-byte module from the shared register 0xABCD reads the
    // same values as decoding a standalone register 0x00AB
    let modules = vec![di_module(ModuleType::UR20_8DI_P_2W)];
    let shared = vec![ModuleOffset {
        input: Some(to_bit_address(0x0000, 8)),
        output: None,
    }];
    let standalone = vec![ModuleOffset {
        input: Some(to_bit_address(0x0000, 0)),
        output: None,
    }];
    let from_shared = process_input_data(&modules, &shared, &[0xABCD]).unwrap();
    let from_standalone = process_input_data(&modules, &standalone, &[0x00AB]).unwrap();
    assert_eq!(from_shared, from_standalone);
}

#[test]
fn decode_with_invalid_offset_bit_fails() {
    let modules = vec![di_module(ModuleType::UR20_4DI_P)];
    let offsets = vec![ModuleOffset {
        input: Some(to_bit_address(0x0000, 3)),
        output: None,
    }];
    assert_eq!(
        process_input_data(&modules, &offsets, &[0]).err(),
        Some(Error::ModuleOffset)
    );
}

#[test]
fn decode_with_too_short_image_fails() {
    let modules = vec![di_module(ModuleType::UR20_4DI_P)];
    let offsets = vec![ModuleOffset {
        input: Some(to_bit_address(0x0001, 0)),
        output: None,
    }];
    assert_eq!(
        process_input_data(&modules, &offsets, &[0]).err(),
        Some(Error::BufferLength)
    );
}

#[test]
fn encode_of_packed_output_image() {
    // two whole-register modules followed by a high-byte module that shares
    // the second register
    let modules = vec![
        do_module(ModuleType::UR20_4DO_P),
        do_module(ModuleType::UR20_4DO_P),
        do_module(ModuleType::UR20_4DO_P),
    ];
    let offsets = vec![
        ModuleOffset {
            input: None,
            output: Some(to_bit_address(0x0800, 0)),
        },
        ModuleOffset {
            input: None,
            output: Some(to_bit_address(0x0801, 0)),
        },
        ModuleOffset {
            input: None,
            output: Some(to_bit_address(0x0801, 8)),
        },
    ];
    let values = vec![
        vec![
            ChannelValue::Bit(true),
            ChannelValue::Bit(false),
            ChannelValue::Bit(true),
            ChannelValue::Bit(true),
        ],
        vec![
            ChannelValue::Bit(false),
            ChannelValue::Bit(true),
            ChannelValue::Bit(false),
            ChannelValue::Bit(false),
        ],
        vec![
            ChannelValue::Bit(true),
            ChannelValue::Bit(true),
            ChannelValue::Bit(false),
            ChannelValue::Bit(false),
        ],
    ];
    let out = process_output_values(&modules, &offsets, &values).unwrap();
    assert_eq!(out, vec![0b1101, 0b0000_0011_0000_0010]);
}

#[test]
fn encode_out_of_order_offsets_fails() {
    // the second module's offset points below the end of the image built so
    // far
    let modules = vec![
        do_module(ModuleType::UR20_4DO_P),
        do_module(ModuleType::UR20_4DO_P),
    ];
    let offsets = vec![
        ModuleOffset {
            input: None,
            output: Some(to_bit_address(0x0801, 0)),
        },
        ModuleOffset {
            input: None,
            output: Some(to_bit_address(0x0800, 0)),
        },
    ];
    let values = vec![
        vec![ChannelValue::Bit(false); 4],
        vec![ChannelValue::Bit(false); 4],
    ];
    assert_eq!(
        process_output_values(&modules, &offsets, &values).err(),
        Some(Error::ModuleOffset)
    );
}

#[test]
fn encode_with_gap_fails() {
    let modules = vec![do_module(ModuleType::UR20_4DO_P)];
    let offsets = vec![ModuleOffset {
        input: None,
        output: Some(to_bit_address(0x080A, 0)),
    }];
    let values = vec![vec![ChannelValue::Bit(false); 4]];
    assert_eq!(
        process_output_values(&modules, &offsets, &values).err(),
        Some(Error::ModuleOffset)
    );
}

#[test]
fn encode_below_output_base_fails() {
    let modules = vec![do_module(ModuleType::UR20_4DO_P)];
    let offsets = vec![ModuleOffset {
        input: None,
        output: Some(to_bit_address(0, 0)),
    }];
    let values = vec![vec![ChannelValue::Bit(false); 4]];
    assert_eq!(
        process_output_values(&modules, &offsets, &values).err(),
        Some(Error::ModuleOffset)
    );
}

#[test]
fn encode_with_wrong_arity_fails() {
    let modules = vec![do_module(ModuleType::UR20_4DO_P)];
    let offsets = vec![ModuleOffset {
        input: None,
        output: Some(to_bit_address(0x0800, 0)),
    }];
    assert_eq!(
        process_output_values(&modules, &offsets, &vec![]).err(),
        Some(Error::ChannelValue)
    );
    let values = vec![vec![ChannelValue::Decimal32(0); 4]];
    assert_eq!(
        process_output_values(&modules, &offsets, &values).err(),
        Some(Error::ChannelValue)
    );
}

#[test]
fn decode_of_missing_offsets_yields_empty_values() {
    let modules = vec![do_module(ModuleType::UR20_4DO_P)];
    let offsets = vec![ModuleOffset {
        input: None,
        output: Some(to_bit_address(0x0800, 0)),
    }];
    let res = process_input_data(&modules, &offsets, &[]).unwrap();
    assert_eq!(res, vec![vec![ChannelValue::NoValue; 4]]);
    let res = process_output_data(&modules, &offsets, &[0b0101]).unwrap();
    assert_eq!(
        res[0],
        vec![
            ChannelValue::Bit(true),
            ChannelValue::Bit(false),
            ChannelValue::Bit(true),
            ChannelValue::Bit(false),
        ]
    );
}
