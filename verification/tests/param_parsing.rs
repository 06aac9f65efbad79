use ur20::ur20_2fcnt_100;
use ur20::ur20_4ai_rtd_diag;
use ur20::ur20_4ai_tc_diag;
use ur20::ur20_ai_ui_generic;
use ur20::ur20_di_generic;
use ur20::ur20_do_generic;
use ur20::AnalogUIRange;
use ur20::DataFormat;
use ur20::FrequencySuppression;
use ur20::InputDelay;
use ur20::InputFilter;
use ur20::ModuleType;
use ur20::RtdRange;
use ur20::TemperatureUnit;

#[test]
fn ur20_ai_ui_generic_test_module_parameters_from_raw_data() {
    let mut data = vec![0; 9];
    assert_eq!(
        ur20_ai_ui_generic::parameters_from_raw_data(&data)
            .unwrap()
            .0
            .frequency_suppression,
        FrequencySuppression::Disabled
    );
    data[0] = 3;
    assert_eq!(
        ur20_ai_ui_generic::parameters_from_raw_data(&data)
            .unwrap()
            .0
            .frequency_suppression,
        FrequencySuppression::Average16
    );
}

#[test]
fn ur20_ai_ui_generic_test_parameters_from_invalid_raw_data() {
    let mut data = vec![0; 9];

    data[0] = 4; // should be max '3'
    assert!(ur20_ai_ui_generic::parameters_from_raw_data(&data).is_err());

    data[0] = 0;
    data[1] = 2; // should be '0' or '1'
    assert!(ur20_ai_ui_generic::parameters_from_raw_data(&data).is_err());

    data[1] = 0;
    data[2] = 9; // should be max '8'
    assert!(ur20_ai_ui_generic::parameters_from_raw_data(&data).is_err());
}

#[test]
fn ur20_ai_ui_generic_test_parameters_from_invalid_data_buffer_size() {
    let data = [0; 0];
    assert!(ur20_ai_ui_generic::parameters_from_raw_data(&data).is_err());
    let data = [0; 8];
    assert!(ur20_ai_ui_generic::parameters_from_raw_data(&data).is_err());
    let data = [0; 9];
    assert!(ur20_ai_ui_generic::parameters_from_raw_data(&data).is_ok());
}

#[test]
fn ur20_ai_ui_generic_test_channel_parameters_from_raw_data() {
    let data = vec![
        0, // module
        1, 8, // CH 0
        0, 5, // CH 1
        0, 0, // CH 2
        0, 0, // CH 3
    ];
    let params = ur20_ai_ui_generic::parameters_from_raw_data(&data).unwrap().1;
    assert_eq!(params.len(), 4);
    assert_eq!(params[0].data_format, DataFormat::S7);
    assert_eq!(params[0].measurement_range, AnalogUIRange::Disabled);
    assert_eq!(params[1].data_format, DataFormat::S5);
    assert_eq!(params[1].measurement_range, AnalogUIRange::VMinus5To5);
    assert_eq!(params[3].measurement_range, AnalogUIRange::mA0To20);
}

#[test]
fn ur20_di_generic_test_parameters_from_invalid_raw_data() {
    let mut data = vec![
        0, // CH 0
        0, // CH 1
        0, // CH 2
        0, // CH 3
    ];
    data[0] = 6; // should be max '5'
    assert!(ur20_di_generic::parameters_from_raw_data(ModuleType::UR20_4DI_P, &data).is_err());
}

#[test]
fn ur20_di_generic_test_parameters_from_invalid_data_buffer_size() {
    let data = [0; 0];
    assert!(ur20_di_generic::parameters_from_raw_data(ModuleType::UR20_4DI_P, &data).is_err());
    let data = [0; 3];
    assert!(ur20_di_generic::parameters_from_raw_data(ModuleType::UR20_4DI_P, &data).is_err());
    let data = [0; 4];
    assert!(ur20_di_generic::parameters_from_raw_data(ModuleType::UR20_4DI_P, &data).is_ok());
}

#[test]
fn ur20_di_generic_test_channel_parameters_from_raw_data() {
    let data = vec![
        2, // CH 0
        3, // CH 1
        4, // CH 2
        0, // CH 3
    ];
    let params = ur20_di_generic::parameters_from_raw_data(ModuleType::UR20_4DI_P, &data).unwrap();
    assert_eq!(params.len(), 4);
    assert_eq!(params[0], ur20_di_generic::ChannelParameters::default());
    assert_eq!(params[1].input_delay, InputDelay::ms10);
    assert_eq!(params[2].input_delay, InputDelay::ms20);
    assert_eq!(params[3].input_delay, InputDelay::no);
}

#[test]
fn ur20_di_generic_create_module_from_modbus_parameter_data_8() {
    let data = vec![0, 1, 2, 3, 4, 5, 2, 2];
    let module =
        ur20_di_generic::Mod::from_modbus_parameter_data(ModuleType::UR20_8DI_P_2W, &data)
            .unwrap();
    let input_delays: Vec<InputDelay> =
        module.ch_params.into_iter().map(|p| p.input_delay).collect();
    assert_eq!(
        input_delays,
        [
            InputDelay::no,
            InputDelay::us300,
            InputDelay::ms3,
            InputDelay::ms10,
            InputDelay::ms20,
            InputDelay::ms40,
            InputDelay::ms3,
            ur20_di_generic::ChannelParameters::default().input_delay
        ]
    );
}

#[test]
fn ur20_do_generic_test_parameters_from_invalid_raw_data() {
    let mut data = vec![
        0, // CH 0
        0, // CH 1
        0, // CH 2
        0, // CH 3
    ];
    data[0] = 2; // should be max '1'
    assert!(ur20_do_generic::parameters_from_raw_data(ModuleType::UR20_4DO_P, &data).is_err());
}

#[test]
fn ur20_do_generic_test_parameters_from_invalid_data_buffer_size() {
    let data = [0; 0];
    assert!(ur20_do_generic::parameters_from_raw_data(ModuleType::UR20_4DO_P, &data).is_err());
    let data = [0; 3];
    assert!(ur20_do_generic::parameters_from_raw_data(ModuleType::UR20_4DO_P, &data).is_err());
    let data = [0; 4];
    assert!(ur20_do_generic::parameters_from_raw_data(ModuleType::UR20_4DO_P, &data).is_ok());
}

#[test]
fn ur20_do_generic_test_channel_parameters_from_raw_data() {
    let data = vec![
        0, // CH 0
        1, // CH 1
        0, // CH 2
        1, // CH 3
    ];
    let params = ur20_do_generic::parameters_from_raw_data(ModuleType::UR20_4DO_P, &data).unwrap();
    assert_eq!(params.len(), 4);
    assert_eq!(params[0], ur20_do_generic::ChannelParameters::default());
    assert!(params[1].substitute_value);
    assert!(!params[2].substitute_value);
    assert!(params[3].substitute_value);
}

#[test]
fn fcnt_test_channel_parameters_from_raw_data() {
    assert_eq!(
        ur20_2fcnt_100::parameters_from_raw_data(&[0, 0]).unwrap().len(),
        2
    );
    assert_eq!(
        ur20_2fcnt_100::parameters_from_raw_data(&[0, 0]).unwrap(),
        vec![ur20_2fcnt_100::ChannelParameters::default(); 2]
    );
    assert_eq!(
        ur20_2fcnt_100::parameters_from_raw_data(&[0, 1]).unwrap()[1].input_filter,
        InputFilter::us11
    );
    assert_eq!(
        ur20_2fcnt_100::parameters_from_raw_data(&[2, 1]).unwrap()[0].input_filter,
        InputFilter::us21
    );
}

#[test]
fn fcnt_test_parameters_from_invalid_data_buffer_size() {
    assert!(ur20_2fcnt_100::parameters_from_raw_data(&[0; 0]).is_err());
    assert!(ur20_2fcnt_100::parameters_from_raw_data(&[0; 1]).is_err());
    assert!(ur20_2fcnt_100::parameters_from_raw_data(&[0; 2]).is_ok());
}

#[test]
fn rtd_parameters_from_raw_data() {
    let mut data = vec![0u16; 29];
    data[0] = 1; // Fahrenheit
    data[1] = 3; // PT1000
    data[2] = 1; // three-wire
    data[6] = 100;
    data[7] = -50i16 as u16;
    let (mp, cp) = ur20_4ai_rtd_diag::parameters_from_raw_data(&data).unwrap();
    assert_eq!(mp.temperature_unit, TemperatureUnit::Fahrenheit);
    assert_eq!(cp.len(), 4);
    assert_eq!(cp[0].measurement_range, RtdRange::PT1000);
    assert_eq!(cp[0].high_limit_value, 100);
    assert_eq!(cp[0].low_limit_value, -50);
    assert_eq!(cp[1].measurement_range, RtdRange::PT100);

    data[1] = 19; // out of range
    assert!(ur20_4ai_rtd_diag::parameters_from_raw_data(&data).is_err());
    assert!(ur20_4ai_rtd_diag::parameters_from_raw_data(&data[..28]).is_err());
}

#[test]
fn tc_parameters_from_raw_data() {
    let mut data = vec![0u16; 29];
    data[0] = 2; // Kelvin
    data[1] = 19; // disabled channel
    data[2] = 4; // external channel 3
    data[6] = 1000;
    data[7] = -1000i16 as u16;
    let (mp, cp) = ur20_4ai_tc_diag::parameters_from_raw_data(&data).unwrap();
    assert_eq!(mp.temperature_unit, TemperatureUnit::Kelvin);
    assert_eq!(
        cp[0].measurement_range,
        ur20_4ai_tc_diag::MeasurementRange::Disabled
    );
    assert_eq!(
        cp[0].cold_junction_compensation,
        ur20_4ai_tc_diag::ColdJunctionCompensation::ExternalChannel3
    );
    assert_eq!(cp[0].high_limit_value, 1000);
    assert_eq!(cp[0].low_limit_value, -1000);

    data[1] = 20; // out of range
    assert!(ur20_4ai_tc_diag::parameters_from_raw_data(&data).is_err());
}
