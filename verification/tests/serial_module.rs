use ur20::ur20_1com_232_485_422::{
    InitState, MessageProcessor, Mod, ProcessDataLength, ProcessInput, ProcessOutput,
};
use ur20::{ChannelValue, Error};

#[test]
fn try_process_input_data_data_from_empty_byte_message() {
    let byte_msg = vec![0, 0];
    let msg = ProcessInput::try_from_byte_message(&byte_msg).unwrap();
    assert_eq!(msg.data_available, false);
    assert_eq!(msg.buffer_nearly_full, false);
    assert_eq!(msg.rx_cnt, 0);
    assert_eq!(msg.tx_cnt_ack, 0);
    assert_eq!(msg.ready, false);
    assert_eq!(msg.data, vec![]);
}

#[test]
fn try_process_input_data_data_from_invalid_byte_message() {
    let too_small_err = ProcessInput::try_from_byte_message(&vec![0]).err().unwrap();
    let missmatched_len_err = ProcessInput::try_from_byte_message(&vec![0, 5, 0])
        .err()
        .unwrap();
    let ok_res = ProcessInput::try_from_byte_message(&vec![0, 5, 0, 0, 0, 0, 0]);
    assert_eq!(too_small_err, Error::BufferLength);
    assert_eq!(missmatched_len_err, Error::BufferLength);
    assert!(ok_res.is_ok());
}

#[test]
fn try_process_input_data_data_from_valid_byte_message() {
    let byte_msg = vec![0b_1111_0001, 3, 0x0, 0xf, 0x5];
    let msg = ProcessInput::try_from_byte_message(&byte_msg).unwrap();
    assert_eq!(msg.data_available, true);
    assert_eq!(msg.buffer_nearly_full, false);
    assert_eq!(msg.rx_cnt, 2);
    assert_eq!(msg.tx_cnt_ack, 3);
    assert_eq!(msg.ready, true);
    assert_eq!(msg.data, vec![0, 15, 5]);
}

#[test]
fn try_invalid_process_output_data_into_byte_message() {
    let mut msg1 = ProcessOutput::default();
    let mut msg2 = ProcessOutput::default();
    let mut msg3 = ProcessOutput::default();
    msg1.tx_cnt = 4;
    msg2.rx_cnt_ack = 4;
    msg3.data = vec![0, 0, 0, 0, 0, 0, 0];
    let err1 = msg1
        .try_into_byte_message(&ProcessDataLength::EightBytes)
        .err()
        .unwrap();
    let err2 = msg2
        .try_into_byte_message(&ProcessDataLength::EightBytes)
        .err()
        .unwrap();
    let err3 = msg3
        .try_into_byte_message(&ProcessDataLength::EightBytes)
        .err()
        .unwrap();
    assert_eq!(err1, Error::SequenceNumber);
    assert_eq!(err2, Error::SequenceNumber);
    assert_eq!(err3, Error::DataLength);
}

#[test]
fn try_valid_process_output_data_into_byte_message() {
    let default = ProcessOutput::default();

    let mut msg = default.clone();
    msg.reset = false;
    let empty = msg
        .try_into_byte_message(&ProcessDataLength::EightBytes)
        .unwrap();

    let mut msg = default.clone();
    msg.rx_buf_flush = true;
    let flush_rx_buf = msg
        .try_into_byte_message(&ProcessDataLength::EightBytes)
        .unwrap();

    let mut msg = default.clone();
    msg.tx_buf_flush = true;
    let flush_tx_buf = msg
        .try_into_byte_message(&ProcessDataLength::EightBytes)
        .unwrap();

    let mut msg = default.clone();
    msg.disable_tx_hw_buffer = true;
    let disable_tx_hw_buffer = msg
        .try_into_byte_message(&ProcessDataLength::EightBytes)
        .unwrap();

    let mut msg = default.clone();
    msg.tx_cnt = 3;
    let tx_cnt = msg
        .try_into_byte_message(&ProcessDataLength::EightBytes)
        .unwrap();

    let mut msg = default.clone();
    msg.rx_cnt_ack = 3;
    let rx_cnt_ack = msg
        .try_into_byte_message(&ProcessDataLength::EightBytes)
        .unwrap();

    let mut msg = default.clone();
    msg.reset = true;
    let reset = msg
        .try_into_byte_message(&ProcessDataLength::EightBytes)
        .unwrap();

    let mut msg = default.clone();
    msg.data = vec![4, 3, 2, 1];
    let data = msg
        .try_into_byte_message(&ProcessDataLength::EightBytes)
        .unwrap();

    assert_eq!(empty, vec![0, 0, 0, 0, 0, 0, 0, 0]);
    assert_eq!(flush_rx_buf[0], 0b1);
    assert_eq!(flush_tx_buf[0], 0b10);
    assert_eq!(disable_tx_hw_buffer[0], 0b100);
    assert_eq!(tx_cnt[0], 0b11000);
    assert_eq!(rx_cnt_ack[0], 0b1100000);
    assert_eq!(reset[0], 0b10000000);
    assert_eq!(data, vec![0, 4, 4, 3, 2, 1, 0, 0]);
}

#[test]
fn try_process_output_from_valid_byte_message() {
    let byte_msg = vec![0b01011010, 3, 0x0, 0xe, 0x7];
    let msg = ProcessOutput::try_from_byte_message(&byte_msg).unwrap();
    assert_eq!(msg.rx_buf_flush, false);
    assert_eq!(msg.tx_buf_flush, true);
    assert_eq!(msg.disable_tx_hw_buffer, false);
    assert_eq!(msg.tx_cnt, 3);
    assert_eq!(msg.rx_cnt_ack, 2);
    assert_eq!(msg.reset, false);
    assert_eq!(msg.data, vec![0, 14, 7]);
}

#[test]
fn test_eight_byte_message_processor_send_process() {
    // 1. initial state; assume the processor is already initialized
    let mut p = MessageProcessor::new(ProcessDataLength::EightBytes);
    p.init_state = InitState::Done;
    let mut input = ProcessInput::default();
    let mut output = ProcessOutput::default();

    // 2. first read
    input.ready = true;
    assert_eq!(input.data_available, false);

    // 3. first write: nothing to send, nothing to receive
    assert_eq!(p.next(&input, &output), output);

    // 4. queue data in the processor buffer
    p.write(b"This msg is >6 bytes");

    // 5. read: still nothing received, nothing acknowledged
    assert_eq!(input.tx_cnt_ack, 0);
    assert_eq!(input.data_available, false);

    // 6. write: the transmission counter advances with the first chunk
    output = p.next(&input, &output);
    assert_eq!(output.data, b"This m");
    assert_eq!(output.tx_cnt, 1);

    // 7./8. no acknowledge yet, so the output stays unchanged
    assert_eq!(input.tx_cnt_ack, 0);
    assert_eq!(p.next(&input, &output), output);

    // 9./10. after the acknowledge the next chunk goes out
    input.tx_cnt_ack = 1;
    output = p.next(&input, &output);
    assert_eq!(output.tx_cnt, 2);
    assert_eq!(output.data, b"sg is ");

    // 11./12.
    input.tx_cnt_ack = 2;
    output = p.next(&input, &output);
    assert_eq!(output.tx_cnt, 3);
    assert_eq!(output.data, b">6 byt");

    // 13./14.
    input.tx_cnt_ack = 3;
    output = p.next(&input, &output);
    assert_eq!(output.tx_cnt, 0);
    assert_eq!(output.data, b"es");

    // 15./16. stall again
    input.tx_cnt_ack = 3;
    assert_eq!(p.next(&input, &output), output);
}

#[test]
fn test_sixteen_byte_message_processor_send_process() {
    let mut p = MessageProcessor::new(ProcessDataLength::SixteenBytes);
    p.init_state = InitState::Done;
    let mut input = ProcessInput::default();
    let mut output = ProcessOutput::default();

    input.ready = true;
    p.write(b"This msg is >14 bytes");
    output = p.next(&input, &output);
    assert_eq!(output.data, b"This msg is >1");
    assert_eq!(output.tx_cnt, 1);
    input.tx_cnt_ack = 1;
    output = p.next(&input, &output);
    assert_eq!(output.data, b"4 bytes");
}

#[test]
fn test_initial_message_processor_send_process() {
    let mut p = MessageProcessor::new(ProcessDataLength::SixteenBytes);
    let mut input = ProcessInput::default();
    let mut output = ProcessOutput::default();

    input.ready = true;
    p.write(b"This msg is >14 bytes");

    assert_eq!(p.init_state, InitState::ClearBuffers);

    output = p.next(&input, &output);

    assert_eq!(output.rx_buf_flush, true);
    assert_eq!(output.tx_buf_flush, true);
    assert_eq!(output.reset, false);
    assert_eq!(p.init_state, InitState::Reset);

    output = p.next(&input, &output);
    assert_eq!(output.rx_buf_flush, false);
    assert_eq!(output.tx_buf_flush, false);
    assert_eq!(output.reset, true);
    assert_eq!(p.init_state, InitState::Done);
    assert_eq!(p.last_rx_cnt, 4);
    assert_eq!(output.data, vec![]);
    assert_eq!(output.tx_cnt, 0);

    output = p.next(&input, &output);
    assert_eq!(output.data, b"This msg is >1");
    assert_eq!(output.tx_cnt, 1);
    input.tx_cnt_ack = 1;
}

#[test]
fn test_eight_byte_message_processor_receive_process() {
    let mut p = MessageProcessor::new(ProcessDataLength::EightBytes);
    let mut input = ProcessInput::default();
    let mut output = ProcessOutput::default();

    input.ready = true;
    assert_eq!(input.data_available, false);
    output = p.next(&input, &output);
    assert_eq!(p.read(), None);
    assert_eq!(p.init_state, InitState::Reset);

    input.data = b"a msg".to_vec();
    input.data_available = true;
    input.rx_cnt = 1;

    output = p.next(&input, &output);
    assert_eq!(p.init_state, InitState::Done);

    output = p.next(&input, &output);

    assert_eq!(p.read(), Some(b"a msg".to_vec()));
    assert_eq!(p.read(), None);

    input.data = b"Foo".to_vec();
    input.rx_cnt = 2;
    output = p.next(&input, &output);
    input.data = b" bar".to_vec();
    input.rx_cnt = 3;
    output = p.next(&input, &output);
    input.data = b" baz".to_vec();
    input.rx_cnt = 0;
    p.next(&input, &output);
    assert_eq!(p.read(), Some(b"Foo bar baz".to_vec()));
    assert_eq!(p.read(), None);
}

#[test]
fn test_input_rx_cnt_on_receiving_messages() {
    let mut p = MessageProcessor::new(ProcessDataLength::EightBytes);
    p.init_state = InitState::Done;
    let mut input = ProcessInput::default();
    let output = ProcessOutput::default();

    input.ready = true;
    input.data = b"foo".to_vec();
    input.data_available = true;
    input.rx_cnt = 0;
    p.next(&input, &output);
    assert_eq!(p.last_rx_cnt, 0);
    assert_eq!(p.in_data.len(), 0);

    input.rx_cnt = 1;
    p.next(&input, &output);
    assert_eq!(p.last_rx_cnt, 1);
    assert_eq!(p.in_data.len(), 3);

    p.next(&input, &output);
    assert_eq!(p.last_rx_cnt, 1);
    assert_eq!(p.in_data.len(), 3);
}

#[test]
fn test_message_processor_send_process_with_outdated_tx_cnt() {
    let test = |ack, cnt, cnt_next, data| {
        let mut p = MessageProcessor::new(ProcessDataLength::EightBytes);
        p.init_state = InitState::Done;
        let mut input = ProcessInput::default();
        let mut output = ProcessOutput::default();
        input.ready = true;
        p.out_data = vec![b"some data".to_vec()];
        input.tx_cnt_ack = ack;
        output.tx_cnt = cnt;
        output = p.next(&input, &output);
        assert_eq!(output.tx_cnt, cnt_next);
        assert_eq!(output.data.len() > 0, data);
    };

    test(0, 0, 1, true);
    test(0, 1, 1, false);
    test(0, 2, 1, true);
    test(0, 3, 1, true);

    test(1, 0, 2, true);
    test(1, 1, 2, true);
    test(1, 2, 2, false);
    test(1, 3, 2, true);

    test(2, 0, 3, true);
    test(2, 1, 3, true);
    test(2, 2, 3, true);
    test(2, 3, 3, false);

    test(3, 0, 0, false);
    test(3, 1, 0, true);
    test(3, 2, 0, true);
    test(3, 3, 0, true);
}

#[test]
fn test_inc_cnt() {
    assert_eq!(MessageProcessor::inc_cnt(0), 1);
    assert_eq!(MessageProcessor::inc_cnt(1), 2);
    assert_eq!(MessageProcessor::inc_cnt(2), 3);
    assert_eq!(MessageProcessor::inc_cnt(3), 0);
    assert_eq!(MessageProcessor::inc_cnt(4), 0);
}

#[test]
fn chunking_of_a_21_byte_payload() {
    let mut p = MessageProcessor::new(ProcessDataLength::EightBytes);
    p.init_state = InitState::Done;
    p.write(&[7u8; 21]);
    let lens: Vec<usize> = p.out_data.iter().map(|c| c.len()).collect();
    assert_eq!(lens, vec![6, 6, 6, 3]);
    let flat: Vec<u8> = p.out_data.iter().flatten().copied().collect();
    assert_eq!(flat, vec![7u8; 21]);
}

#[test]
fn chunked_payload_reassembles_after_acknowledgements() {
    let payload: Vec<u8> = (0u8..21).collect();
    let mut sender = MessageProcessor::new(ProcessDataLength::EightBytes);
    sender.init_state = InitState::Done;
    let mut receiver = MessageProcessor::new(ProcessDataLength::EightBytes);
    receiver.init_state = InitState::Done;
    receiver.last_rx_cnt = 4;
    sender.write(&payload);

    let mut sender_input = ProcessInput::default();
    sender_input.ready = true;
    let mut sender_output = ProcessOutput::default();
    let mut receiver_output = ProcessOutput::default();

    for _ in 0..4 {
        sender_output = sender.next(&sender_input, &sender_output);
        // the chunk travels to the receiving side as an input frame
        let mut receiver_input = ProcessInput::default();
        receiver_input.ready = true;
        receiver_input.data_available = true;
        receiver_input.rx_cnt = sender_output.tx_cnt;
        receiver_input.data = sender_output.data.clone();
        receiver_output = receiver.next(&receiver_input, &receiver_output);
        // the far end acknowledges the chunk
        sender_input.tx_cnt_ack = sender_output.tx_cnt;
    }
    assert_eq!(sender.out_data.len(), 0);
    assert_eq!(receiver.read(), Some(payload));
}

#[test]
fn module_parameter_parsing() {
    let data = vec![
        1,  // process data length
        3,  // operating mode
        9,  // baud rate
        1,  // stop bit
        2,  // parity
        2,  // flow control
        1,  // data bits
        1,  // terminating resistor
        33, // XON character
        35, // XOFF character
    ];
    let (mod_params, p) = ur20::ur20_1com_232_485_422::parameters_from_raw_data(&data).unwrap();
    assert_eq!(mod_params.process_data_len, ProcessDataLength::SixteenBytes);
    assert_eq!(
        p.operating_mode,
        ur20::ur20_1com_232_485_422::OperatingMode::RS422
    );
    assert_eq!(p.baud_rate, ur20::ur20_1com_232_485_422::BaudRate::Baud38400);
    assert_eq!(p.stop_bit, ur20::ur20_1com_232_485_422::StopBit::TwoBits);
    assert_eq!(p.parity, ur20::ur20_1com_232_485_422::Parity::Odd);
    assert_eq!(
        p.flow_control,
        ur20::ur20_1com_232_485_422::FlowControl::XonXoff
    );
    assert_eq!(p.data_bits, ur20::ur20_1com_232_485_422::DataBits::EightBits);
    assert_eq!(p.terminating_resistor, true);
    assert_eq!(p.xon_char, 33);
    assert_eq!(p.xoff_char, 35);
}

#[test]
fn module_parameter_parsing_rejects_out_of_range_registers() {
    let mut data = vec![0u16; 10];
    data[0] = 2;
    assert!(ur20::ur20_1com_232_485_422::parameters_from_raw_data(&data).is_err());
    data[0] = 0;
    data[1] = 4;
    assert!(ur20::ur20_1com_232_485_422::parameters_from_raw_data(&data).is_err());
    data[1] = 0;
    data[2] = 12;
    assert!(ur20::ur20_1com_232_485_422::parameters_from_raw_data(&data).is_err());
    data[2] = 0;
    data[8] = 256;
    assert_eq!(
        ur20::ur20_1com_232_485_422::parameters_from_raw_data(&data).err(),
        Some(Error::ChannelParameter)
    );
    data[8] = 0;
    assert!(ur20::ur20_1com_232_485_422::parameters_from_raw_data(&data).is_ok());
    assert!(ur20::ur20_1com_232_485_422::parameters_from_raw_data(&data[..9]).is_err());
}

#[test]
fn serial_codec_round_trip_through_registers() {
    let m = Mod::default();
    let mut out = ProcessOutput::default();
    out.data = vec![0x0A, 0x0B, 0, 0x0C];
    let res = m
        .process_output_values(&vec![ChannelValue::ComRsOut(out)])
        .unwrap();
    assert_eq!(res.len(), 8);
    assert_eq!(res, vec![0x0400, 0x0B0A, 0x0C00, 0, 0, 0, 0, 0]);

    let values = m.process_output_data(&res).unwrap();
    assert_eq!(values.len(), 1);
    match &values[0] {
        ChannelValue::ComRsOut(f) => {
            assert_eq!(f.data, vec![0x0A, 0x0B, 0, 0x0C]);
            assert_eq!(f.tx_cnt, 0);
        }
        _ => panic!("wrong channel data"),
    }
}

#[test]
fn test_process_input_data_with_empty_buffer() {
    let m = Mod::default();
    assert!(m.process_input_data(&vec![]).is_err());
}

#[test]
fn try_process_output_data_from_valid_data() {
    let m = Mod::default();
    let data = vec![0b_0000_0011_0101_1010, 0x0E00, 7];
    let values = m.process_output_data(&data).unwrap();
    assert_eq!(values.len(), 1);
    if let ChannelValue::ComRsOut(ref out) = values[0] {
        assert_eq!(out.rx_buf_flush, false);
        assert_eq!(out.tx_buf_flush, true);
        assert_eq!(out.disable_tx_hw_buffer, false);
        assert_eq!(out.tx_cnt, 3);
        assert_eq!(out.rx_cnt_ack, 2);
        assert_eq!(out.reset, false);
        assert_eq!(out.data, vec![0, 14, 7]);
    } else {
        panic!("wrong channel data");
    }
}

#[test]
fn test_process_output_data_with_empty_buffer() {
    let m = Mod::default();
    assert!(m.process_output_data(&vec![]).is_err());
}

#[test]
fn test_process_input_data_with_valid_input_data() {
    let m = Mod::default();
    let result = m.process_input_data(&vec![0x0600, 0, 0xABCD, 0]).unwrap();
    if let ChannelValue::ComRsIn(ref msg) = result[0] {
        assert_eq!(msg.data, vec![0, 0, 0xCD, 0xAB, 0, 0]);
    } else {
        panic!("unexpected result: {:?}", result);
    }
}

#[test]
fn test_process_output_values_with_invalid_input_len() {
    let m = Mod::default();
    assert!(m.process_output_values(&vec![]).is_err());
    assert!(m
        .process_output_values(&vec![
            ChannelValue::ComRsIn(ProcessInput::default()),
            ChannelValue::ComRsIn(ProcessInput::default()),
        ])
        .is_err());
}

#[test]
fn test_process_output_values_with_invalid_channel_data() {
    let m = Mod::default();
    assert!(m.process_output_values(&vec![ChannelValue::Decimal32(0)]).is_err());
}

#[test]
fn test_process_output_values_with_invalid_byte_len() {
    let mut m = Mod::default();
    let mut fourteen = ProcessOutput::default();
    fourteen.data = vec![0; 14];

    let mut fifteen = ProcessOutput::default();
    fifteen.data = vec![0; 15];

    let mut six = ProcessOutput::default();
    six.data = vec![0; 6];

    let mut seven = ProcessOutput::default();
    seven.data = vec![0; 7];

    let mut five = ProcessOutput::default();
    five.data = vec![0, 5];

    assert!(m
        .process_output_values(&vec![ChannelValue::ComRsOut(five)])
        .is_ok());

    assert!(m
        .process_output_values(&vec![ChannelValue::ComRsOut(fourteen.clone())])
        .is_ok());

    assert!(m
        .process_output_values(&vec![ChannelValue::ComRsOut(fifteen.clone())])
        .is_err());

    m.mod_params.process_data_len = ProcessDataLength::EightBytes;
    assert!(m
        .process_output_values(&vec![ChannelValue::ComRsOut(fourteen)])
        .is_err());

    assert!(m
        .process_output_values(&vec![ChannelValue::ComRsOut(seven.clone())])
        .is_err());

    assert!(m
        .process_output_values(&vec![ChannelValue::ComRsOut(six.clone())])
        .is_ok());
}

#[test]
fn create_module_from_modbus_parameter_data() {
    let data = vec![0; 10];
    let module = Mod::from_modbus_parameter_data(&data).unwrap();
    assert_eq!(
        module.ch_params[0].operating_mode,
        ur20::ur20_1com_232_485_422::OperatingMode::Disabled
    );
    assert_eq!(
        module.ch_params[0].data_bits,
        ur20::ur20_1com_232_485_422::DataBits::SevenBits
    );
    let data = vec![1, 0, 5, 0, 0, 0, 1, 0, 17, 19];
    assert!(Mod::from_modbus_parameter_data(&data).is_ok());
}

#[test]
fn over_capacity_payload_reports_data_length() {
    let mut m = Mod::default();
    m.mod_params.process_data_len = ProcessDataLength::EightBytes;
    let mut out = ProcessOutput::default();
    out.data = vec![0; 7];
    assert_eq!(
        m.process_output_values(&vec![ChannelValue::ComRsOut(out)]).err(),
        Some(Error::DataLength)
    );
}
