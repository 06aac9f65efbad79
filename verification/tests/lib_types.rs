use std::str::FromStr;

use ur20::Error;
use ur20::ModuleCategory;
use ur20::ModuleType;

#[test]
fn module_by_u32_id() {
    assert_eq!(
        ModuleType::try_from_u32(0x05052560).unwrap(),
        ModuleType::UR20_4AO_UI_16_M_DIAG
    );
    assert_eq!(
        ModuleType::try_from_u32(0x01234567).err().unwrap(),
        Error::UnknownModule
    );
}

#[test]
fn module_by_str_id() {
    assert_eq!(
        ModuleType::from_str("UR20_1COM_232_485_422").unwrap(),
        ModuleType::UR20_1COM_232_485_422
    );
    assert_eq!(
        "UR20-1COM-232-485-422".parse::<ModuleType>().unwrap(),
        ModuleType::UR20_1COM_232_485_422
    );
    assert_eq!(
        "ur20-1com-232-485-422".parse::<ModuleType>().unwrap(),
        ModuleType::UR20_1COM_232_485_422
    );
    assert_eq!(
        "not-valid".parse::<ModuleType>().err().unwrap(),
        Error::UnknownModule
    );
}

#[test]
fn category_by_str_id() {
    assert_eq!(
        ModuleCategory::from_str("RTD").unwrap(),
        ModuleCategory::RTD
    );
    assert_eq!(
        ModuleCategory::from_str("rtd").unwrap(),
        ModuleCategory::RTD
    );
    assert_eq!(ModuleCategory::from_str("aO").unwrap(), ModuleCategory::AO);
}

#[test]
fn category_by_invalid_str_id() {
    assert_eq!(
        ModuleCategory::from_str("pf").err().unwrap(),
        Error::UnknownCategory
    );
    assert_eq!(
        ModuleCategory::from_str("").err().unwrap(),
        Error::UnknownCategory
    );
}

#[test]
fn category_of_module_type() {
    assert_eq!(
        ModuleCategory::from(ModuleType::UR20_4DI_P),
        ModuleCategory::DI
    );
    assert_eq!(
        ModuleCategory::from(ModuleType::UR20_1COM_232_485_422),
        ModuleCategory::COM
    );
    assert_eq!(
        ModuleCategory::from(ModuleType::UR20_4AI_RTD_DIAG),
        ModuleCategory::RTD
    );
    assert_eq!(
        ModuleCategory::from(ModuleType::UR20_PF_O_1DI_SIL),
        ModuleCategory::PF
    );
}

#[test]
fn channel_counts() {
    assert_eq!(ModuleType::UR20_4DI_P.channel_count(), 4);
    assert_eq!(ModuleType::UR20_8DO_P.channel_count(), 8);
    assert_eq!(ModuleType::UR20_16DO_P.channel_count(), 16);
    assert_eq!(ModuleType::UR20_2FCNT_100.channel_count(), 2);
    assert_eq!(ModuleType::UR20_1COM_232_485_422.channel_count(), 1);
    assert_eq!(ModuleType::UR20_PF_O.channel_count(), 0);
}
