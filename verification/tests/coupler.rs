use ur20::ur20_1com_232_485_422::{OperatingMode, ProcessDataLength};
use ur20::ur20_fbc_mod_tcp::{to_bit_address, Coupler, CouplerConfig};
use ur20::{Address, ChannelValue, ModuleType};

#[test]
fn create_new_coupler_instance() {
    let cfg = CouplerConfig {
        modules: vec![ModuleType::UR20_4DI_P, ModuleType::UR20_1COM_232_485_422],
        offsets: vec![0xFFFF, 0x0000, 0x8000, 0x0008],
        params: vec![vec![0; 4], vec![0; 10]],
    };

    let mut invalid_cfg = cfg.clone();
    invalid_cfg.params = vec![];
    let c = Coupler::new(&cfg).unwrap();

    assert!(Coupler::new(&invalid_cfg).is_err());
    assert_eq!(c.module_count(), 2);
    assert_eq!(c.pending_write_count(), 0);
    assert_eq!(c.inputs().len(), 0);
    assert_eq!(c.outputs().len(), 0);
}

#[test]
fn coupler_rejects_unsupported_module_types() {
    let cfg = CouplerConfig {
        modules: vec![ModuleType::UR20_1SSI],
        offsets: vec![0xFFFF, 0x0000],
        params: vec![vec![]],
    };
    assert!(Coupler::new(&cfg).is_err());
}

#[test]
fn process_in_out_data_with_coupler() {
    let cfg = CouplerConfig {
        modules: vec![
            ModuleType::UR20_4DI_P,
            ModuleType::UR20_4DO_P,
            ModuleType::UR20_1COM_232_485_422,
        ],
        offsets: vec![
            0xFFFF,
            0x0000,
            0x8000,
            0xFFFF,
            to_bit_address(0x0801, 0),
            to_bit_address(0x0001, 0),
        ],
        params: vec![
            vec![0; 4],
            vec![0; 4],
            vec![
                ProcessDataLength::EightBytes.to_u16(),
                OperatingMode::RS232.to_u16(),
                0,
                0,
                0,
                0,
                0,
                0,
                0,
                0,
            ],
        ],
    };
    let mut c = Coupler::new(&cfg).unwrap();
    let process_input_data = vec![
        0b_0101,               // module input for the digital inputs
        0b_00000100_1111_0001, // length and status
        0,                     // data
        0xABCD,                // data
        0,
    ];
    let process_output_data = vec![0b_11_00, 0, 0, 0, 0, 0, 0, 0, 0, 0];

    // make sure the initialization process evolves
    let process_output_data = c.next(&process_input_data, &process_output_data).unwrap();
    let process_output_data = c.next(&process_input_data, &process_output_data).unwrap();
    let process_output_data = c.next(&process_input_data, &process_output_data).unwrap();

    {
        let inputs = c.inputs();
        let outputs = c.outputs();

        assert_eq!(inputs.len(), 3);
        assert_eq!(outputs.len(), 3);

        assert_eq!(inputs[0].len(), 4);
        assert_eq!(outputs[0].len(), 4);

        assert_eq!(inputs[0][0], ChannelValue::Bit(true));
        assert_eq!(inputs[0][1], ChannelValue::Bit(false));
        assert_eq!(inputs[0][2], ChannelValue::Bit(true));
        assert_eq!(inputs[0][3], ChannelValue::Bit(false));

        assert_eq!(outputs[1][0], ChannelValue::Bit(false));
        assert_eq!(outputs[1][1], ChannelValue::Bit(false));
        assert_eq!(outputs[1][2], ChannelValue::Bit(true));
        assert_eq!(outputs[1][3], ChannelValue::Bit(true));

        assert_eq!(outputs[0], vec![ChannelValue::NoValue; 4]);
        assert_eq!(inputs[1], vec![ChannelValue::NoValue; 4]);

        assert_eq!(
            inputs[2],
            vec![ChannelValue::Bytes(vec![0, 0, 0xCD, 0xAB])]
        );
        assert_eq!(outputs[2], vec![ChannelValue::NoValue]);
    }

    c.set_output(
        &Address {
            module: 2,
            channel: 0,
        },
        ChannelValue::Bytes(b"Hello modbus coupler!".to_vec()),
    )
    .unwrap();
    c.set_output(
        &Address {
            module: 1,
            channel: 1,
        },
        ChannelValue::Bit(true),
    )
    .unwrap();
    assert!(c
        .set_output(
            &Address {
                module: 3,
                channel: 0,
            },
            ChannelValue::Bit(true)
        )
        .is_err());
    assert!(c
        .set_output(
            &Address {
                module: 2,
                channel: 1,
            },
            ChannelValue::Bit(true)
        )
        .is_err());

    assert_eq!(c.pending_write_count(), 2);

    let process_input_data = vec![0b_0101, 0, 0, 0, 0];
    let process_output_data = c.next(&process_input_data, &process_output_data).unwrap();
    assert_eq!(c.pending_write_count(), 0);
    {
        let inputs = c.inputs();
        let outputs = c.outputs();
        assert_eq!(outputs[1][1], ChannelValue::Bit(false));
        assert_eq!(inputs[2][0], ChannelValue::NoValue);
        assert_eq!(outputs[2][0], ChannelValue::NoValue);
    }
    let process_output_data = c.next(&process_input_data, &process_output_data).unwrap();
    {
        let inputs = c.inputs();
        let outputs = c.outputs();
        assert_eq!(outputs[1][1], ChannelValue::Bit(true));
        assert_eq!(inputs[2][0], ChannelValue::NoValue);
        assert_eq!(outputs[2][0], ChannelValue::Bytes(b"Hello ".to_vec()));
    }
    let process_output_data = c.next(&process_input_data, &process_output_data).unwrap();
    {
        let outputs = c.outputs();
        assert_eq!(outputs[2][0], ChannelValue::NoValue);
    }

    let process_input_data = vec![
        0b_0101,               // module input for the digital inputs
        0b_00000101_1111_1001, // length and status (bits 3-4: RX_CNT, bits 5-6: TX_CNT_ACK)
        0xDDEE,                // data
        0xFFFF,                // data
        0x00AA,                // data
    ];
    let _process_output_data = c.next(&process_input_data, &process_output_data).unwrap();

    assert!(c.reader(0).is_none());
    assert!(c.reader(1).is_none());
    assert!(!c.writer(0, &[]));
    assert!(!c.writer(1, &[]));
    assert!(c.writer(2, &[]));
    let received = c.reader(2).unwrap();
    assert_eq!(received.len(), 9);
    assert_eq!(received, vec![0, 0, 0xCD, 0xAB, 0xEE, 0xDD, 0xFF, 0xFF, 0xAA]);
    let drained = c.reader(2).unwrap();
    assert_eq!(drained.len(), 0);
}

#[test]
fn coupler_end_to_end_digital_round_trip() {
    // one digital input module reading the input image, one digital output
    // module owning the start of the output image
    let cfg = CouplerConfig {
        modules: vec![ModuleType::UR20_4DI_P, ModuleType::UR20_4DO_P],
        offsets: vec![
            0xFFFF,
            to_bit_address(0x0000, 0),
            to_bit_address(0x0800, 0),
            0xFFFF,
        ],
        params: vec![vec![0; 4], vec![0; 4]],
    };
    let mut c = Coupler::new(&cfg).unwrap();

    let out = c.next(&[0b0101], &[0]).unwrap();
    assert_eq!(out, vec![0]);
    assert_eq!(
        c.inputs()[0],
        vec![
            ChannelValue::Bit(true),
            ChannelValue::Bit(false),
            ChannelValue::Bit(true),
            ChannelValue::Bit(false),
        ]
    );

    c.set_output(
        &Address {
            module: 1,
            channel: 1,
        },
        ChannelValue::Bit(true),
    )
    .unwrap();
    let out = c.next(&[0b0101], &out).unwrap();
    assert_eq!(out, vec![0b0010]);
    // the write was consumed; the next cycle reflects it in the decoded cache
    let out = c.next(&[0b0101], &out).unwrap();
    assert_eq!(out, vec![0b0010]);
    assert_eq!(c.outputs()[1][1], ChannelValue::Bit(true));
}

#[test]
fn set_output_overwrites_pending_value_for_same_address() {
    let cfg = CouplerConfig {
        modules: vec![ModuleType::UR20_4DO_P],
        offsets: vec![to_bit_address(0x0800, 0), 0xFFFF],
        params: vec![vec![0; 4]],
    };
    let mut c = Coupler::new(&cfg).unwrap();
    let addr = Address {
        module: 0,
        channel: 2,
    };
    c.set_output(&addr, ChannelValue::Bit(true)).unwrap();
    c.set_output(&addr, ChannelValue::Bit(false)).unwrap();
    assert_eq!(c.pending_write_count(), 1);
    let out = c.next(&[], &[0]).unwrap();
    assert_eq!(out, vec![0]);
    assert_eq!(c.pending_write_count(), 0);
}

#[test]
fn coupler_accepts_the_relay_module() {
    let cfg = CouplerConfig {
        modules: vec![ModuleType::UR20_4RO_CO_255],
        offsets: vec![to_bit_address(0x0800, 0), 0xFFFF],
        params: vec![vec![0; 4]],
    };
    let mut c = Coupler::new(&cfg).unwrap();
    c.set_output(
        &Address {
            module: 0,
            channel: 3,
        },
        ChannelValue::Bit(true),
    )
    .unwrap();
    let out = c.next(&[], &[0]).unwrap();
    assert_eq!(out, vec![0b1000]);
}
