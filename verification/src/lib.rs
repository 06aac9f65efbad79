//! Protocol driver for a modular fieldbus I/O station ("coupler") addressed
//! over a Modbus-style register interface.
//!
//! The crate maps between the packed process-image register arrays shared by
//! all plugged modules and a structured per-channel value model, and runs the
//! retransmission protocol that tunnels a byte stream through the serial
//! communication module's process-data window. Analog engineering-unit
//! conversions are floating-point work and live outside this crate; analog
//! values travel through it as raw IEEE-754 bit patterns.

use vstd::prelude::*;
use vstd::string::StringSliceAdditionalSpecFns;

pub mod digital;
pub mod error;
pub mod ur20_16do_p;
pub mod ur20_1com_232_485_422;
pub mod ur20_2fcnt_100;
pub mod ur20_4ai_rtd_diag;
pub mod ur20_4ai_tc_diag;
pub mod ur20_4ai_ui_16_diag;
pub mod ur20_8ai_i_16_diag_hd;
pub mod ur20_ai_ui_generic;
pub mod ur20_di_generic;
pub mod ur20_do_generic;
pub mod ur20_fbc_mod_tcp;
pub mod ur20_pf_o_1di_sil;
pub mod util;

pub use crate::error::Error;

use crate::ur20_1com_232_485_422::{
    ProcessInput as RsIn, ProcessInputModel as RsInModel, ProcessOutput as RsOut,
    ProcessOutputModel as RsOutModel,
};
use crate::ur20_2fcnt_100::{ProcessInput as FcntIn, ProcessOutput as FcntOut};
use crate::ur20_pf_o_1di_sil::ProcessInput as SilIn;

verus! {

/// Data type used by the module channels.
#[derive(Debug, Clone, PartialEq)]
pub enum ChannelValue {
    /// A single bit.
    Bit(bool),
    /// The IEEE-754 bit pattern of a 32-bit engineering value; scaling raw
    /// module words to such values is floating-point work and happens outside
    /// this crate.
    Decimal32(u32),
    /// Input frame of the serial communication module.
    ComRsIn(RsIn),
    /// Output frame of the serial communication module.
    ComRsOut(RsOut),
    /// Input sample of the frequency counter module.
    FcntIn(FcntIn),
    /// Output command of the frequency counter module.
    FcntOut(FcntOut),
    /// Status bits of the safe power-feed module.
    SilPFIn(SilIn),
    /// Raw binary data.
    Bytes(Vec<u8>),
    /// The channel is configured off.
    Disabled,
    /// The channel has no data at all.
    NoValue,
}

/// Mathematical model of [`ChannelValue`].
pub ghost enum ChannelValueModel {
    Bit(bool),
    Decimal32(u32),
    ComRsIn(RsInModel),
    ComRsOut(RsOutModel),
    FcntIn(FcntIn),
    FcntOut(FcntOut),
    SilPFIn(SilIn),
    Bytes(Seq<u8>),
    Disabled,
    NoValue,
}

impl View for ChannelValue {
    type V = ChannelValueModel;

    open spec fn view(&self) -> ChannelValueModel {
        match self {
            ChannelValue::Bit(b) => ChannelValueModel::Bit(*b),
            ChannelValue::Decimal32(bits) => ChannelValueModel::Decimal32(*bits),
            ChannelValue::ComRsIn(f) => ChannelValueModel::ComRsIn(f@),
            ChannelValue::ComRsOut(f) => ChannelValueModel::ComRsOut(f@),
            ChannelValue::FcntIn(f) => ChannelValueModel::FcntIn(*f),
            ChannelValue::FcntOut(f) => ChannelValueModel::FcntOut(*f),
            ChannelValue::SilPFIn(f) => ChannelValueModel::SilPFIn(*f),
            ChannelValue::Bytes(b) => ChannelValueModel::Bytes(b@),
            ChannelValue::Disabled => ChannelValueModel::Disabled,
            ChannelValue::NoValue => ChannelValueModel::NoValue,
        }
    }
}

impl DeepView for ChannelValue {
    type V = ChannelValueModel;

    open spec fn deep_view(&self) -> ChannelValueModel {
        self.view()
    }
}

/// A fieldbus independent channel address.
#[derive(Debug, Clone, Copy, PartialEq, Eq, Structural, Hash)]
pub struct Address {
    /// Module position (beginning at `0`)
    pub module: usize,
    /// Channel number (beginning at `0`)
    pub channel: usize,
}

impl View for Address {
    type V = Address;

    open spec fn view(&self) -> Address {
        *self
    }
}

impl DeepView for Address {
    type V = Address;

    open spec fn deep_view(&self) -> Address {
        *self
    }
}

impl ChannelValue {
    /// A copy of the value that carries the same model.
    pub fn duplicate(&self) -> (r: ChannelValue)
        ensures
            r@ == self@,
    {
        match self {
            ChannelValue::Bit(b) => ChannelValue::Bit(*b),
            ChannelValue::Decimal32(bits) => ChannelValue::Decimal32(*bits),
            ChannelValue::ComRsIn(f) => ChannelValue::ComRsIn(f.duplicate()),
            ChannelValue::ComRsOut(f) => ChannelValue::ComRsOut(f.duplicate()),
            ChannelValue::FcntIn(f) => ChannelValue::FcntIn(*f),
            ChannelValue::FcntOut(f) => ChannelValue::FcntOut(*f),
            ChannelValue::SilPFIn(f) => ChannelValue::SilPFIn(*f),
            ChannelValue::Bytes(b) => ChannelValue::Bytes(crate::util::copy_bytes(b)),
            ChannelValue::Disabled => ChannelValue::Disabled,
            ChannelValue::NoValue => ChannelValue::NoValue,
        }
    }
}

/// A generic description of modules.
pub trait Module {
    /// The concrete module type.
    spec fn spec_module_type(&self) -> ModuleType;

    /// Returns the concrete module type.
    fn module_type(&self) -> (r: ModuleType)
        ensures
            r == self.spec_module_type(),
    ;
}

/// The general class of a module.
#[derive(Debug, Clone, Copy, PartialEq, Eq, Structural, Hash)]
pub enum ModuleCategory {
    /// Digital input modules
    DI,
    /// Digital output modules
    DO,
    /// Analog input modules
    AI,
    /// Analog output modules
    AO,
    /// Counter modules
    CNT,
    /// Pulse-width modulation modules
    PWM,
    /// Resistance temperature detector modules
    RTD,
    /// Thermocouple modules
    TC,
    /// Communication modules
    COM,
    /// Relay output modules
    RO,
    /// Power feed modules
    PF,
}

/// The ASCII bytes of a sequence of ASCII characters.
pub open spec fn spec_ascii_bytes(s: Seq<char>) -> Seq<u8> {
    Seq::new(s.len(), |i: int| s[i] as u8)
}

/// Whether a folded byte string is exactly the (ASCII) characters of `name`.
pub open spec fn spec_name_matches(f: Seq<u8>, name: &str) -> bool {
    vstd::string::is_ascii(name) && f == spec_ascii_bytes(name@)
}

/// Folds one identifier byte: ASCII lower case becomes upper case, `-`
/// becomes `_`, everything else stays.
pub open spec fn spec_fold_id_byte(b: u8) -> u8 {
    if 97 <= b <= 122 {
        (b - 32) as u8
    } else if b == 45 {
        95
    } else {
        b
    }
}

/// Folds an identifier byte string.
pub open spec fn spec_fold_id(s: Seq<u8>) -> Seq<u8> {
    s.map_values(|b: u8| spec_fold_id_byte(b))
}

/// Folds an identifier byte string: ASCII lower case becomes upper case, `-`
/// becomes `_`.
fn fold_id_bytes(s: &[u8]) -> (r: Vec<u8>)
    ensures
        r@ == spec_fold_id(s@),
{
    let mut out: Vec<u8> = Vec::new();
    let mut i: usize = 0;
    while i < s.len()
        invariant
            i <= s@.len(),
            out@.len() == i,
            forall|j: int| 0 <= j < i ==> out@[j] == spec_fold_id_byte(s@[j]),
        decreases s@.len() - i,
    {
        let b = s[i];
        let f: u8 = if 97 <= b && b <= 122 {
            b - 32
        } else if b == 45 {
            95
        } else {
            b
        };
        out.push(f);
        i = i + 1;
    }
    assert(out@ =~= spec_fold_id(s@));
    out
}

/// Compares two byte strings.
fn bytes_eq(a: &[u8], b: &[u8]) -> (r: bool)
    ensures
        r == (a@ == b@),
{
    if a.len() != b.len() {
        proof {
            assert(a@ != b@);
        }
        return false;
    }
    let mut i: usize = 0;
    while i < a.len()
        invariant
            a@.len() == b@.len(),
            i <= a@.len(),
            forall|j: int| 0 <= j < i ==> a@[j] == b@[j],
        decreases a@.len() - i,
    {
        if a[i] != b[i] {
            return false;
        }
        i = i + 1;
    }
    proof {
        assert(a@ =~= b@);
    }
    true
}

/// Whether the folded bytes equal the characters of an ASCII name.
fn eq_folded_name(folded: &[u8], name: &str) -> (r: bool)
    ensures
        r == spec_name_matches(folded@, name),
{
    if !name.is_ascii() {
        return false;
    }
    let nb = name.as_bytes();
    proof {
        vstd::string::is_ascii_spec_bytes(name);
        assert(nb@ =~= spec_ascii_bytes(name@));
    }
    bytes_eq(folded, nb)
}

/// The concrete module type.
#[allow(non_camel_case_types)]
#[derive(Debug, Clone, Copy, PartialEq, Eq, Structural, Hash)]
pub enum ModuleType {
    UR20_4DI_P,
    UR20_4DI_P_3W,
    UR20_8DI_P_2W,
    UR20_8DI_P_3W,
    UR20_8DI_P_3W_HD,
    UR20_16DI_P,
    UR20_16DI_P_PLC_INT,
    UR20_2DI_P_TS,
    UR20_4DI_P_TS,
    UR20_4DI_N,
    UR20_8DI_N_3W,
    UR20_16DI_N,
    UR20_16DI_N_PLC_INT,
    UR20_4DI_2W_230V_AC,
    UR20_4DO_P,
    UR20_4DO_P_2A,
    UR20_4DO_PN_2A,
    UR20_8DO_P,
    UR20_8DO_P_2W_HD,
    UR20_16DO_P,
    UR20_16DO_P_PLC_INT,
    UR20_4DO_N,
    UR20_4DO_N_2A,
    UR20_8DO_N,
    UR20_16DO_N,
    UR20_16DO_N_PLC_INT,
    UR20_4RO_SSR_255,
    UR20_4RO_CO_255,
    UR20_2PWM_PN_0_5A,
    UR20_2PWM_PN_2A,
    UR20_4AI_UI_16,
    UR20_4AI_UI_16_DIAG,
    UR20_4AI_UI_DIF_16_DIAG,
    UR20_4AI_UI_16_HD,
    UR20_4AI_UI_16_DIAG_HD,
    UR20_4AI_UI_12,
    UR20_8AI_I_16_HD,
    UR20_8AI_I_16_DIAG_HD,
    UR20_8AI_I_PLC_INT,
    UR20_4AI_R_HS_16_DIAG,
    UR20_2AI_SG_24_DIAG,
    UR20_3EM_230V_AC,
    UR20_4AO_UI_16,
    UR20_4AO_UI_16_M,
    UR20_4AO_UI_16_DIAG,
    UR20_4AO_UI_16_M_DIAG,
    UR20_4AO_UI_16_HD,
    UR20_4AO_UI_16_DIAG_HD,
    UR20_1CNT_100_1DO,
    UR20_2CNT_100,
    UR20_1CNT_500,
    UR20_2FCNT_100,
    UR20_1SSI,
    UR20_1COM_232_485_422,
    UR20_1COM_SAI_PRO,
    UR20_4COM_IO_LINK,
    UR20_4AI_RTD_DIAG,
    UR20_4AI_TC_DIAG,
    UR20_PF_I,
    UR20_PF_O,
    UR20_PF_O_1DI_SIL,
    UR20_PF_O_2DI_SIL,
    UR20_PF_O_2DI_DELAY_SIL,
}

impl ModuleType {
    /// The module type a 32-bit identification word stands for.
    pub open spec fn spec_from_u32(id: u32) -> Option<ModuleType> {
        if id == 0x0009_1F84 {
            Some(ModuleType::UR20_4DI_P)
        } else if id == 0x001B_1F84 {
            Some(ModuleType::UR20_4DI_P_3W)
        } else if id == 0x0013_1FC1 {
            Some(ModuleType::UR20_8DI_P_2W)
        } else if id == 0x000A_1FC1 {
            Some(ModuleType::UR20_8DI_P_3W)
        } else if id == 0x0003_1FC1 {
            Some(ModuleType::UR20_8DI_P_3W_HD)
        } else if id == 0x0004_9FC2 {
            Some(ModuleType::UR20_16DI_P)
        } else if id == 0x0005_9FC2 {
            Some(ModuleType::UR20_16DI_P_PLC_INT)
        } else if id == 0x0F01_4700 {
            Some(ModuleType::UR20_2DI_P_TS)
        } else if id == 0x0F02_4700 {
            Some(ModuleType::UR20_4DI_P_TS)
        } else if id == 0x0001_1F84 {
            Some(ModuleType::UR20_4DI_N)
        } else if id == 0x0002_1FC1 {
            Some(ModuleType::UR20_8DI_N_3W)
        } else if id == 0x000C_9FC2 {
            Some(ModuleType::UR20_16DI_N)
        } else if id == 0x000D_9FC2 {
            Some(ModuleType::UR20_16DI_N_PLC_INT)
        } else if id == 0x0016_9F84 {
            Some(ModuleType::UR20_4DI_2W_230V_AC)
        } else if id == 0x0101_2FA0 {
            Some(ModuleType::UR20_4DO_P)
        } else if id == 0x0105_2FA0 {
            Some(ModuleType::UR20_4DO_P_2A)
        } else if id == 0x0115_2FC8 {
            Some(ModuleType::UR20_4DO_PN_2A)
        } else if id == 0x0102_2FC8 {
            Some(ModuleType::UR20_8DO_P)
        } else if id == 0x0119_2FC8 {
            Some(ModuleType::UR20_8DO_P_2W_HD)
        } else if id == 0x0103_AFD0 {
            Some(ModuleType::UR20_16DO_P)
        } else if id == 0x0104_AFD0 {
            Some(ModuleType::UR20_16DO_P_PLC_INT)
        } else if id == 0x010A_2FA0 {
            Some(ModuleType::UR20_4DO_N)
        } else if id == 0x010B_2FA0 {
            Some(ModuleType::UR20_4DO_N_2A)
        } else if id == 0x010C_2FC8 {
            Some(ModuleType::UR20_8DO_N)
        } else if id == 0x010D_AFD0 {
            Some(ModuleType::UR20_16DO_N)
        } else if id == 0x010E_AFD0 {
            Some(ModuleType::UR20_16DO_N_PLC_INT)
        } else if id == 0x0107_2FA0 {
            Some(ModuleType::UR20_4RO_SSR_255)
        } else if id == 0x0106_2FA0 {
            Some(ModuleType::UR20_4RO_CO_255)
        } else if id == 0x0908_4880 {
            Some(ModuleType::UR20_2PWM_PN_0_5A)
        } else if id == 0x0909_4880 {
            Some(ModuleType::UR20_2PWM_PN_2A)
        } else if id == 0x0401_15C4 {
            Some(ModuleType::UR20_4AI_UI_16)
        } else if id == 0x0402_1544 {
            Some(ModuleType::UR20_4AI_UI_16_DIAG)
        } else if id == 0x041E_1544 {
            Some(ModuleType::UR20_4AI_UI_DIF_16_DIAG)
        } else if id == 0x0413_15C4 {
            Some(ModuleType::UR20_4AI_UI_16_HD)
        } else if id == 0x0414_1544 {
            Some(ModuleType::UR20_4AI_UI_16_DIAG_HD)
        } else if id == 0x0411_15C4 {
            Some(ModuleType::UR20_4AI_UI_12)
        } else if id == 0x0404_15C5 {
            Some(ModuleType::UR20_8AI_I_16_HD)
        } else if id == 0x0405_1545 {
            Some(ModuleType::UR20_8AI_I_16_DIAG_HD)
        } else if id == 0x0409_15C5 {
            Some(ModuleType::UR20_8AI_I_PLC_INT)
        } else if id == 0x041C_1544 {
            Some(ModuleType::UR20_4AI_R_HS_16_DIAG)
        } else if id == 0x041B_356D {
            Some(ModuleType::UR20_2AI_SG_24_DIAG)
        } else if id == 0x0418_356D {
            Some(ModuleType::UR20_3EM_230V_AC)
        } else if id == 0x0502_25E0 {
            Some(ModuleType::UR20_4AO_UI_16)
        } else if id == 0x0506_25E0 {
            Some(ModuleType::UR20_4AO_UI_16_M)
        } else if id == 0x0501_2560 {
            Some(ModuleType::UR20_4AO_UI_16_DIAG)
        } else if id == 0x0505_2560 {
            Some(ModuleType::UR20_4AO_UI_16_M_DIAG)
        } else if id == 0x0504_25E0 {
            Some(ModuleType::UR20_4AO_UI_16_HD)
        } else if id == 0x0503_2560 {
            Some(ModuleType::UR20_4AO_UI_16_DIAG_HD)
        } else if id == 0x08C1_3800 {
            Some(ModuleType::UR20_1CNT_100_1DO)
        } else if id == 0x08C3_3800 {
            Some(ModuleType::UR20_2CNT_100)
        } else if id == 0x08C4_3801 {
            Some(ModuleType::UR20_1CNT_500)
        } else if id == 0x0881_28EE {
            Some(ModuleType::UR20_2FCNT_100)
        } else if id == 0x09C1_7880 {
            Some(ModuleType::UR20_1SSI)
        } else if id == 0x0E41_3FED {
            Some(ModuleType::UR20_1COM_232_485_422)
        } else if id == 0x0BC1_E800 {
            Some(ModuleType::UR20_1COM_SAI_PRO)
        } else if id == 0x0E81_276D {
            Some(ModuleType::UR20_4COM_IO_LINK)
        } else if id == 0x0406_1544 {
            Some(ModuleType::UR20_4AI_RTD_DIAG)
        } else if id == 0x0407_1544 {
            Some(ModuleType::UR20_4AI_TC_DIAG)
        } else if id == 0x1801_9F43 {
            Some(ModuleType::UR20_PF_O_1DI_SIL)
        } else if id == 0x1803_9F43 {
            Some(ModuleType::UR20_PF_O_2DI_SIL)
        } else if id == 0x1802_9F43 {
            Some(ModuleType::UR20_PF_O_2DI_DELAY_SIL)
        } else {
            None
        }
    }

    /// Decodes a 32-bit module identification word.
    pub fn try_from_u32(id: u32) -> (r: Result<Self, Error>)
        ensures
            match Self::spec_from_u32(id) {
                Some(t) => r == Ok::<ModuleType, Error>(t),
                None => r == Err::<ModuleType, Error>(Error::UnknownModule),
            },
    {
        match id {
            0x0009_1F84 => Ok(ModuleType::UR20_4DI_P),
            0x001B_1F84 => Ok(ModuleType::UR20_4DI_P_3W),
            0x0013_1FC1 => Ok(ModuleType::UR20_8DI_P_2W),
            0x000A_1FC1 => Ok(ModuleType::UR20_8DI_P_3W),
            0x0003_1FC1 => Ok(ModuleType::UR20_8DI_P_3W_HD),
            0x0004_9FC2 => Ok(ModuleType::UR20_16DI_P),
            0x0005_9FC2 => Ok(ModuleType::UR20_16DI_P_PLC_INT),
            0x0F01_4700 => Ok(ModuleType::UR20_2DI_P_TS),
            0x0F02_4700 => Ok(ModuleType::UR20_4DI_P_TS),
            0x0001_1F84 => Ok(ModuleType::UR20_4DI_N),
            0x0002_1FC1 => Ok(ModuleType::UR20_8DI_N_3W),
            0x000C_9FC2 => Ok(ModuleType::UR20_16DI_N),
            0x000D_9FC2 => Ok(ModuleType::UR20_16DI_N_PLC_INT),
            0x0016_9F84 => Ok(ModuleType::UR20_4DI_2W_230V_AC),
            0x0101_2FA0 => Ok(ModuleType::UR20_4DO_P),
            0x0105_2FA0 => Ok(ModuleType::UR20_4DO_P_2A),
            0x0115_2FC8 => Ok(ModuleType::UR20_4DO_PN_2A),
            0x0102_2FC8 => Ok(ModuleType::UR20_8DO_P),
            0x0119_2FC8 => Ok(ModuleType::UR20_8DO_P_2W_HD),
            0x0103_AFD0 => Ok(ModuleType::UR20_16DO_P),
            0x0104_AFD0 => Ok(ModuleType::UR20_16DO_P_PLC_INT),
            0x010A_2FA0 => Ok(ModuleType::UR20_4DO_N),
            0x010B_2FA0 => Ok(ModuleType::UR20_4DO_N_2A),
            0x010C_2FC8 => Ok(ModuleType::UR20_8DO_N),
            0x010D_AFD0 => Ok(ModuleType::UR20_16DO_N),
            0x010E_AFD0 => Ok(ModuleType::UR20_16DO_N_PLC_INT),
            0x0107_2FA0 => Ok(ModuleType::UR20_4RO_SSR_255),
            0x0106_2FA0 => Ok(ModuleType::UR20_4RO_CO_255),
            0x0908_4880 => Ok(ModuleType::UR20_2PWM_PN_0_5A),
            0x0909_4880 => Ok(ModuleType::UR20_2PWM_PN_2A),
            0x0401_15C4 => Ok(ModuleType::UR20_4AI_UI_16),
            0x0402_1544 => Ok(ModuleType::UR20_4AI_UI_16_DIAG),
            0x041E_1544 => Ok(ModuleType::UR20_4AI_UI_DIF_16_DIAG),
            0x0413_15C4 => Ok(ModuleType::UR20_4AI_UI_16_HD),
            0x0414_1544 => Ok(ModuleType::UR20_4AI_UI_16_DIAG_HD),
            0x0411_15C4 => Ok(ModuleType::UR20_4AI_UI_12),
            0x0404_15C5 => Ok(ModuleType::UR20_8AI_I_16_HD),
            0x0405_1545 => Ok(ModuleType::UR20_8AI_I_16_DIAG_HD),
            0x0409_15C5 => Ok(ModuleType::UR20_8AI_I_PLC_INT),
            0x041C_1544 => Ok(ModuleType::UR20_4AI_R_HS_16_DIAG),
            0x041B_356D => Ok(ModuleType::UR20_2AI_SG_24_DIAG),
            0x0418_356D => Ok(ModuleType::UR20_3EM_230V_AC),
            0x0502_25E0 => Ok(ModuleType::UR20_4AO_UI_16),
            0x0506_25E0 => Ok(ModuleType::UR20_4AO_UI_16_M),
            0x0501_2560 => Ok(ModuleType::UR20_4AO_UI_16_DIAG),
            0x0505_2560 => Ok(ModuleType::UR20_4AO_UI_16_M_DIAG),
            0x0504_25E0 => Ok(ModuleType::UR20_4AO_UI_16_HD),
            0x0503_2560 => Ok(ModuleType::UR20_4AO_UI_16_DIAG_HD),
            0x08C1_3800 => Ok(ModuleType::UR20_1CNT_100_1DO),
            0x08C3_3800 => Ok(ModuleType::UR20_2CNT_100),
            0x08C4_3801 => Ok(ModuleType::UR20_1CNT_500),
            0x0881_28EE => Ok(ModuleType::UR20_2FCNT_100),
            0x09C1_7880 => Ok(ModuleType::UR20_1SSI),
            0x0E41_3FED => Ok(ModuleType::UR20_1COM_232_485_422),
            0x0BC1_E800 => Ok(ModuleType::UR20_1COM_SAI_PRO),
            0x0E81_276D => Ok(ModuleType::UR20_4COM_IO_LINK),
            0x0406_1544 => Ok(ModuleType::UR20_4AI_RTD_DIAG),
            0x0407_1544 => Ok(ModuleType::UR20_4AI_TC_DIAG),
            0x1801_9F43 => Ok(ModuleType::UR20_PF_O_1DI_SIL),
            0x1803_9F43 => Ok(ModuleType::UR20_PF_O_2DI_SIL),
            0x1802_9F43 => Ok(ModuleType::UR20_PF_O_2DI_DELAY_SIL),
            _ => Err(Error::UnknownModule),
        }
    }

    /// The number of channels of the module type.
    pub open spec fn spec_channel_count(self) -> int {
        match self {
            ModuleType::UR20_4DI_P => 4,
            ModuleType::UR20_4DI_P_3W => 4,
            ModuleType::UR20_8DI_P_2W => 8,
            ModuleType::UR20_8DI_P_3W => 8,
            ModuleType::UR20_8DI_P_3W_HD => 8,
            ModuleType::UR20_16DI_P => 16,
            ModuleType::UR20_16DI_P_PLC_INT => 16,
            ModuleType::UR20_2DI_P_TS => 2,
            ModuleType::UR20_4DI_P_TS => 4,
            ModuleType::UR20_4DI_N => 4,
            ModuleType::UR20_8DI_N_3W => 8,
            ModuleType::UR20_16DI_N => 16,
            ModuleType::UR20_16DI_N_PLC_INT => 16,
            ModuleType::UR20_4DI_2W_230V_AC => 4,
            ModuleType::UR20_4DO_P => 4,
            ModuleType::UR20_4DO_P_2A => 4,
            ModuleType::UR20_4DO_PN_2A => 4,
            ModuleType::UR20_8DO_P => 8,
            ModuleType::UR20_8DO_P_2W_HD => 8,
            ModuleType::UR20_16DO_P => 16,
            ModuleType::UR20_16DO_P_PLC_INT => 16,
            ModuleType::UR20_4DO_N => 4,
            ModuleType::UR20_4DO_N_2A => 4,
            ModuleType::UR20_8DO_N => 8,
            ModuleType::UR20_16DO_N => 16,
            ModuleType::UR20_16DO_N_PLC_INT => 16,
            ModuleType::UR20_4RO_SSR_255 => 4,
            ModuleType::UR20_4RO_CO_255 => 4,
            ModuleType::UR20_2PWM_PN_0_5A => 2,
            ModuleType::UR20_2PWM_PN_2A => 2,
            ModuleType::UR20_4AI_UI_16 => 4,
            ModuleType::UR20_4AI_UI_16_DIAG => 4,
            ModuleType::UR20_4AI_UI_DIF_16_DIAG => 4,
            ModuleType::UR20_4AI_UI_16_HD => 4,
            ModuleType::UR20_4AI_UI_16_DIAG_HD => 4,
            ModuleType::UR20_4AI_UI_12 => 4,
            ModuleType::UR20_8AI_I_16_HD => 8,
            ModuleType::UR20_8AI_I_16_DIAG_HD => 8,
            ModuleType::UR20_8AI_I_PLC_INT => 8,
            ModuleType::UR20_4AI_R_HS_16_DIAG => 4,
            ModuleType::UR20_2AI_SG_24_DIAG => 2,
            ModuleType::UR20_3EM_230V_AC => 8,
            ModuleType::UR20_4AO_UI_16 => 4,
            ModuleType::UR20_4AO_UI_16_M => 4,
            ModuleType::UR20_4AO_UI_16_DIAG => 4,
            ModuleType::UR20_4AO_UI_16_M_DIAG => 4,
            ModuleType::UR20_4AO_UI_16_HD => 4,
            ModuleType::UR20_4AO_UI_16_DIAG_HD => 4,
            ModuleType::UR20_1CNT_100_1DO => 1,
            ModuleType::UR20_2CNT_100 => 2,
            ModuleType::UR20_1CNT_500 => 1,
            ModuleType::UR20_2FCNT_100 => 2,
            ModuleType::UR20_1SSI => 1,
            ModuleType::UR20_1COM_232_485_422 => 1,
            ModuleType::UR20_1COM_SAI_PRO => 1,
            ModuleType::UR20_4COM_IO_LINK => 4,
            ModuleType::UR20_4AI_RTD_DIAG => 4,
            ModuleType::UR20_4AI_TC_DIAG => 4,
            ModuleType::UR20_PF_I => 0,
            ModuleType::UR20_PF_O => 0,
            ModuleType::UR20_PF_O_1DI_SIL => 0,
            ModuleType::UR20_PF_O_2DI_SIL => 0,
            ModuleType::UR20_PF_O_2DI_DELAY_SIL => 0,
        }
    }

    /// Returns the number of channels of the module type.
    pub fn channel_count(&self) -> (r: usize)
        ensures
            r == self.spec_channel_count(),
            r <= 16,
    {
        match *self {
            ModuleType::UR20_4DI_P => 4,
            ModuleType::UR20_4DI_P_3W => 4,
            ModuleType::UR20_8DI_P_2W => 8,
            ModuleType::UR20_8DI_P_3W => 8,
            ModuleType::UR20_8DI_P_3W_HD => 8,
            ModuleType::UR20_16DI_P => 16,
            ModuleType::UR20_16DI_P_PLC_INT => 16,
            ModuleType::UR20_2DI_P_TS => 2,
            ModuleType::UR20_4DI_P_TS => 4,
            ModuleType::UR20_4DI_N => 4,
            ModuleType::UR20_8DI_N_3W => 8,
            ModuleType::UR20_16DI_N => 16,
            ModuleType::UR20_16DI_N_PLC_INT => 16,
            ModuleType::UR20_4DI_2W_230V_AC => 4,
            ModuleType::UR20_4DO_P => 4,
            ModuleType::UR20_4DO_P_2A => 4,
            ModuleType::UR20_4DO_PN_2A => 4,
            ModuleType::UR20_8DO_P => 8,
            ModuleType::UR20_8DO_P_2W_HD => 8,
            ModuleType::UR20_16DO_P => 16,
            ModuleType::UR20_16DO_P_PLC_INT => 16,
            ModuleType::UR20_4DO_N => 4,
            ModuleType::UR20_4DO_N_2A => 4,
            ModuleType::UR20_8DO_N => 8,
            ModuleType::UR20_16DO_N => 16,
            ModuleType::UR20_16DO_N_PLC_INT => 16,
            ModuleType::UR20_4RO_SSR_255 => 4,
            ModuleType::UR20_4RO_CO_255 => 4,
            ModuleType::UR20_2PWM_PN_0_5A => 2,
            ModuleType::UR20_2PWM_PN_2A => 2,
            ModuleType::UR20_4AI_UI_16 => 4,
            ModuleType::UR20_4AI_UI_16_DIAG => 4,
            ModuleType::UR20_4AI_UI_DIF_16_DIAG => 4,
            ModuleType::UR20_4AI_UI_16_HD => 4,
            ModuleType::UR20_4AI_UI_16_DIAG_HD => 4,
            ModuleType::UR20_4AI_UI_12 => 4,
            ModuleType::UR20_8AI_I_16_HD => 8,
            ModuleType::UR20_8AI_I_16_DIAG_HD => 8,
            ModuleType::UR20_8AI_I_PLC_INT => 8,
            ModuleType::UR20_4AI_R_HS_16_DIAG => 4,
            ModuleType::UR20_2AI_SG_24_DIAG => 2,
            ModuleType::UR20_3EM_230V_AC => 8,
            ModuleType::UR20_4AO_UI_16 => 4,
            ModuleType::UR20_4AO_UI_16_M => 4,
            ModuleType::UR20_4AO_UI_16_DIAG => 4,
            ModuleType::UR20_4AO_UI_16_M_DIAG => 4,
            ModuleType::UR20_4AO_UI_16_HD => 4,
            ModuleType::UR20_4AO_UI_16_DIAG_HD => 4,
            ModuleType::UR20_1CNT_100_1DO => 1,
            ModuleType::UR20_2CNT_100 => 2,
            ModuleType::UR20_1CNT_500 => 1,
            ModuleType::UR20_2FCNT_100 => 2,
            ModuleType::UR20_1SSI => 1,
            ModuleType::UR20_1COM_232_485_422 => 1,
            ModuleType::UR20_1COM_SAI_PRO => 1,
            ModuleType::UR20_4COM_IO_LINK => 4,
            ModuleType::UR20_4AI_RTD_DIAG => 4,
            ModuleType::UR20_4AI_TC_DIAG => 4,
            ModuleType::UR20_PF_I => 0,
            ModuleType::UR20_PF_O => 0,
            ModuleType::UR20_PF_O_1DI_SIL => 0,
            ModuleType::UR20_PF_O_2DI_SIL => 0,
            ModuleType::UR20_PF_O_2DI_DELAY_SIL => 0,
        }
    }

    /// The general class the module type belongs to.
    pub open spec fn spec_category(self) -> ModuleCategory {
        match self {
            ModuleType::UR20_4DI_P => ModuleCategory::DI,
            ModuleType::UR20_4DI_P_3W => ModuleCategory::DI,
            ModuleType::UR20_8DI_P_2W => ModuleCategory::DI,
            ModuleType::UR20_8DI_P_3W => ModuleCategory::DI,
            ModuleType::UR20_8DI_P_3W_HD => ModuleCategory::DI,
            ModuleType::UR20_16DI_P => ModuleCategory::DI,
            ModuleType::UR20_16DI_P_PLC_INT => ModuleCategory::DI,
            ModuleType::UR20_2DI_P_TS => ModuleCategory::DI,
            ModuleType::UR20_4DI_P_TS => ModuleCategory::DI,
            ModuleType::UR20_4DI_N => ModuleCategory::DI,
            ModuleType::UR20_8DI_N_3W => ModuleCategory::DI,
            ModuleType::UR20_16DI_N => ModuleCategory::DI,
            ModuleType::UR20_16DI_N_PLC_INT => ModuleCategory::DI,
            ModuleType::UR20_4DI_2W_230V_AC => ModuleCategory::DI,
            ModuleType::UR20_4DO_P => ModuleCategory::DO,
            ModuleType::UR20_4DO_P_2A => ModuleCategory::DO,
            ModuleType::UR20_4DO_PN_2A => ModuleCategory::DO,
            ModuleType::UR20_8DO_P => ModuleCategory::DO,
            ModuleType::UR20_8DO_P_2W_HD => ModuleCategory::DO,
            ModuleType::UR20_16DO_P => ModuleCategory::DO,
            ModuleType::UR20_16DO_P_PLC_INT => ModuleCategory::DO,
            ModuleType::UR20_4DO_N => ModuleCategory::DO,
            ModuleType::UR20_4DO_N_2A => ModuleCategory::DO,
            ModuleType::UR20_8DO_N => ModuleCategory::DO,
            ModuleType::UR20_16DO_N => ModuleCategory::DO,
            ModuleType::UR20_16DO_N_PLC_INT => ModuleCategory::DO,
            ModuleType::UR20_4RO_SSR_255 => ModuleCategory::DO,
            ModuleType::UR20_4RO_CO_255 => ModuleCategory::DO,
            ModuleType::UR20_2PWM_PN_0_5A => ModuleCategory::PWM,
            ModuleType::UR20_2PWM_PN_2A => ModuleCategory::PWM,
            ModuleType::UR20_4AI_UI_16 => ModuleCategory::AI,
            ModuleType::UR20_4AI_UI_16_DIAG => ModuleCategory::AI,
            ModuleType::UR20_4AI_UI_DIF_16_DIAG => ModuleCategory::AI,
            ModuleType::UR20_4AI_UI_16_HD => ModuleCategory::AI,
            ModuleType::UR20_4AI_UI_16_DIAG_HD => ModuleCategory::AI,
            ModuleType::UR20_4AI_UI_12 => ModuleCategory::AI,
            ModuleType::UR20_8AI_I_16_HD => ModuleCategory::AI,
            ModuleType::UR20_8AI_I_16_DIAG_HD => ModuleCategory::AI,
            ModuleType::UR20_8AI_I_PLC_INT => ModuleCategory::AI,
            ModuleType::UR20_4AI_R_HS_16_DIAG => ModuleCategory::AI,
            ModuleType::UR20_2AI_SG_24_DIAG => ModuleCategory::AI,
            ModuleType::UR20_3EM_230V_AC => ModuleCategory::AI,
            ModuleType::UR20_4AO_UI_16 => ModuleCategory::AO,
            ModuleType::UR20_4AO_UI_16_M => ModuleCategory::AO,
            ModuleType::UR20_4AO_UI_16_DIAG => ModuleCategory::AO,
            ModuleType::UR20_4AO_UI_16_M_DIAG => ModuleCategory::AO,
            ModuleType::UR20_4AO_UI_16_HD => ModuleCategory::AO,
            ModuleType::UR20_4AO_UI_16_DIAG_HD => ModuleCategory::AO,
            ModuleType::UR20_1CNT_100_1DO => ModuleCategory::CNT,
            ModuleType::UR20_2CNT_100 => ModuleCategory::CNT,
            ModuleType::UR20_1CNT_500 => ModuleCategory::CNT,
            ModuleType::UR20_2FCNT_100 => ModuleCategory::CNT,
            ModuleType::UR20_1SSI => ModuleCategory::COM,
            ModuleType::UR20_1COM_232_485_422 => ModuleCategory::COM,
            ModuleType::UR20_1COM_SAI_PRO => ModuleCategory::COM,
            ModuleType::UR20_4COM_IO_LINK => ModuleCategory::COM,
            ModuleType::UR20_4AI_RTD_DIAG => ModuleCategory::RTD,
            ModuleType::UR20_4AI_TC_DIAG => ModuleCategory::TC,
            ModuleType::UR20_PF_I => ModuleCategory::PF,
            ModuleType::UR20_PF_O => ModuleCategory::PF,
            ModuleType::UR20_PF_O_1DI_SIL => ModuleCategory::PF,
            ModuleType::UR20_PF_O_2DI_SIL => ModuleCategory::PF,
            ModuleType::UR20_PF_O_2DI_DELAY_SIL => ModuleCategory::PF,
        }
    }

    /// The module type a folded (upper-cased, dashes replaced) name stands
    /// for.
    pub open spec fn spec_from_name(f: Seq<u8>) -> Option<ModuleType> {
        if spec_name_matches(f, "UR20_4DI_P") {
            Some(ModuleType::UR20_4DI_P)
        } else if spec_name_matches(f, "UR20_4DI_P_3W") {
            Some(ModuleType::UR20_4DI_P_3W)
        } else if spec_name_matches(f, "UR20_8DI_P_2W") {
            Some(ModuleType::UR20_8DI_P_2W)
        } else if spec_name_matches(f, "UR20_8DI_P_3W") {
            Some(ModuleType::UR20_8DI_P_3W)
        } else if spec_name_matches(f, "UR20_8DI_P_3W_HD") {
            Some(ModuleType::UR20_8DI_P_3W_HD)
        } else if spec_name_matches(f, "UR20_16DI_P") {
            Some(ModuleType::UR20_16DI_P)
        } else if spec_name_matches(f, "UR20_16DI_P_PLC_INT") {
            Some(ModuleType::UR20_16DI_P_PLC_INT)
        } else if spec_name_matches(f, "UR20_2DI_P_TS") {
            Some(ModuleType::UR20_2DI_P_TS)
        } else if spec_name_matches(f, "UR20_4DI_P_TS") {
            Some(ModuleType::UR20_4DI_P_TS)
        } else if spec_name_matches(f, "UR20_4DI_N") {
            Some(ModuleType::UR20_4DI_N)
        } else if spec_name_matches(f, "UR20_8DI_N_3W") {
            Some(ModuleType::UR20_8DI_N_3W)
        } else if spec_name_matches(f, "UR20_16DI_N") {
            Some(ModuleType::UR20_16DI_N)
        } else if spec_name_matches(f, "UR20_16DI_N_PLC_INT") {
            Some(ModuleType::UR20_16DI_N_PLC_INT)
        } else if spec_name_matches(f, "UR20_4DI_2W_230V_AC") {
            Some(ModuleType::UR20_4DI_2W_230V_AC)
        } else if spec_name_matches(f, "UR20_4DO_P") {
            Some(ModuleType::UR20_4DO_P)
        } else if spec_name_matches(f, "UR20_4DO_P_2A") {
            Some(ModuleType::UR20_4DO_P_2A)
        } else if spec_name_matches(f, "UR20_4DO_PN_2A") {
            Some(ModuleType::UR20_4DO_PN_2A)
        } else if spec_name_matches(f, "UR20_8DO_P") {
            Some(ModuleType::UR20_8DO_P)
        } else if spec_name_matches(f, "UR20_8DO_P_2W_HD") {
            Some(ModuleType::UR20_8DO_P_2W_HD)
        } else if spec_name_matches(f, "UR20_16DO_P") {
            Some(ModuleType::UR20_16DO_P)
        } else if spec_name_matches(f, "UR20_16DO_P_PLC_INT") {
            Some(ModuleType::UR20_16DO_P_PLC_INT)
        } else if spec_name_matches(f, "UR20_4DO_N") {
            Some(ModuleType::UR20_4DO_N)
        } else if spec_name_matches(f, "UR20_4DO_N_2A") {
            Some(ModuleType::UR20_4DO_N_2A)
        } else if spec_name_matches(f, "UR20_8DO_N") {
            Some(ModuleType::UR20_8DO_N)
        } else if spec_name_matches(f, "UR20_16DO_N") {
            Some(ModuleType::UR20_16DO_N)
        } else if spec_name_matches(f, "UR20_16DO_N_PLC_INT") {
            Some(ModuleType::UR20_16DO_N_PLC_INT)
        } else if spec_name_matches(f, "UR20_4RO_SSR_255") {
            Some(ModuleType::UR20_4RO_SSR_255)
        } else if spec_name_matches(f, "UR20_4RO_CO_255") {
            Some(ModuleType::UR20_4RO_CO_255)
        } else if spec_name_matches(f, "UR20_2PWM_PN_0_5A") {
            Some(ModuleType::UR20_2PWM_PN_0_5A)
        } else if spec_name_matches(f, "UR20_2PWM_PN_2A") {
            Some(ModuleType::UR20_2PWM_PN_2A)
        } else if spec_name_matches(f, "UR20_4AI_UI_16") {
            Some(ModuleType::UR20_4AI_UI_16)
        } else if spec_name_matches(f, "UR20_4AI_UI_16_DIAG") {
            Some(ModuleType::UR20_4AI_UI_16_DIAG)
        } else if spec_name_matches(f, "UR20_4AI_UI_DIF_16_DIAG") {
            Some(ModuleType::UR20_4AI_UI_DIF_16_DIAG)
        } else if spec_name_matches(f, "UR20_4AI_UI_16_HD") {
            Some(ModuleType::UR20_4AI_UI_16_HD)
        } else if spec_name_matches(f, "UR20_4AI_UI_16_DIAG_HD") {
            Some(ModuleType::UR20_4AI_UI_16_DIAG_HD)
        } else if spec_name_matches(f, "UR20_4AI_UI_12") {
            Some(ModuleType::UR20_4AI_UI_12)
        } else if spec_name_matches(f, "UR20_8AI_I_16_HD") {
            Some(ModuleType::UR20_8AI_I_16_HD)
        } else if spec_name_matches(f, "UR20_8AI_I_16_DIAG_HD") {
            Some(ModuleType::UR20_8AI_I_16_DIAG_HD)
        } else if spec_name_matches(f, "UR20_8AI_I_PLC_INT") {
            Some(ModuleType::UR20_8AI_I_PLC_INT)
        } else if spec_name_matches(f, "UR20_4AI_R_HS_16_DIAG") {
            Some(ModuleType::UR20_4AI_R_HS_16_DIAG)
        } else if spec_name_matches(f, "UR20_2AI_SG_24_DIAG") {
            Some(ModuleType::UR20_2AI_SG_24_DIAG)
        } else if spec_name_matches(f, "UR20_3EM_230V_AC") {
            Some(ModuleType::UR20_3EM_230V_AC)
        } else if spec_name_matches(f, "UR20_4AO_UI_16") {
            Some(ModuleType::UR20_4AO_UI_16)
        } else if spec_name_matches(f, "UR20_4AO_UI_16_M") {
            Some(ModuleType::UR20_4AO_UI_16_M)
        } else if spec_name_matches(f, "UR20_4AO_UI_16_DIAG") {
            Some(ModuleType::UR20_4AO_UI_16_DIAG)
        } else if spec_name_matches(f, "UR20_4AO_UI_16_M_DIAG") {
            Some(ModuleType::UR20_4AO_UI_16_M_DIAG)
        } else if spec_name_matches(f, "UR20_4AO_UI_16_HD") {
            Some(ModuleType::UR20_4AO_UI_16_HD)
        } else if spec_name_matches(f, "UR20_4AO_UI_16_DIAG_HD") {
            Some(ModuleType::UR20_4AO_UI_16_DIAG_HD)
        } else if spec_name_matches(f, "UR20_1CNT_100_1DO") {
            Some(ModuleType::UR20_1CNT_100_1DO)
        } else if spec_name_matches(f, "UR20_2CNT_100") {
            Some(ModuleType::UR20_2CNT_100)
        } else if spec_name_matches(f, "UR20_1CNT_500") {
            Some(ModuleType::UR20_1CNT_500)
        } else if spec_name_matches(f, "UR20_2FCNT_100") {
            Some(ModuleType::UR20_2FCNT_100)
        } else if spec_name_matches(f, "UR20_1SSI") {
            Some(ModuleType::UR20_1SSI)
        } else if spec_name_matches(f, "UR20_1COM_232_485_422") {
            Some(ModuleType::UR20_1COM_232_485_422)
        } else if spec_name_matches(f, "UR20_1COM_SAI_PRO") {
            Some(ModuleType::UR20_1COM_SAI_PRO)
        } else if spec_name_matches(f, "UR20_4COM_IO_LINK") {
            Some(ModuleType::UR20_4COM_IO_LINK)
        } else if spec_name_matches(f, "UR20_4AI_RTD_DIAG") {
            Some(ModuleType::UR20_4AI_RTD_DIAG)
        } else if spec_name_matches(f, "UR20_4AI_TC_DIAG") {
            Some(ModuleType::UR20_4AI_TC_DIAG)
        } else if spec_name_matches(f, "UR20_PF_I") {
            Some(ModuleType::UR20_PF_I)
        } else if spec_name_matches(f, "UR20_PF_O") {
            Some(ModuleType::UR20_PF_O)
        } else if spec_name_matches(f, "UR20_PF_O_1DI_SIL") {
            Some(ModuleType::UR20_PF_O_1DI_SIL)
        } else if spec_name_matches(f, "UR20_PF_O_2DI_SIL") {
            Some(ModuleType::UR20_PF_O_2DI_SIL)
        } else if spec_name_matches(f, "UR20_PF_O_2DI_DELAY_SIL") {
            Some(ModuleType::UR20_PF_O_2DI_DELAY_SIL)
        } else {
            None
        }
    }

    /// The parse of a module-type name: case-insensitive, with `-` and `_`
    /// interchangeable.
    pub open spec fn spec_try_from_str(s: &str) -> Result<ModuleType, Error> {
        match Self::spec_from_name(spec_fold_id(s.spec_bytes())) {
            Some(t) => Ok(t),
            None => Err(Error::UnknownModule),
        }
    }

    /// Parses a module-type name: case-insensitive, with `-` and `_`
    /// interchangeable.
    pub fn try_from_str(s: &str) -> (r: Result<ModuleType, Error>)
        ensures
            r == Self::spec_try_from_str(s),
    {
        let folded = fold_id_bytes(s.as_bytes());
        if eq_folded_name(&folded, "UR20_4DI_P") {
            return Ok(ModuleType::UR20_4DI_P);
        }
        if eq_folded_name(&folded, "UR20_4DI_P_3W") {
            return Ok(ModuleType::UR20_4DI_P_3W);
        }
        if eq_folded_name(&folded, "UR20_8DI_P_2W") {
            return Ok(ModuleType::UR20_8DI_P_2W);
        }
        if eq_folded_name(&folded, "UR20_8DI_P_3W") {
            return Ok(ModuleType::UR20_8DI_P_3W);
        }
        if eq_folded_name(&folded, "UR20_8DI_P_3W_HD") {
            return Ok(ModuleType::UR20_8DI_P_3W_HD);
        }
        if eq_folded_name(&folded, "UR20_16DI_P") {
            return Ok(ModuleType::UR20_16DI_P);
        }
        if eq_folded_name(&folded, "UR20_16DI_P_PLC_INT") {
            return Ok(ModuleType::UR20_16DI_P_PLC_INT);
        }
        if eq_folded_name(&folded, "UR20_2DI_P_TS") {
            return Ok(ModuleType::UR20_2DI_P_TS);
        }
        if eq_folded_name(&folded, "UR20_4DI_P_TS") {
            return Ok(ModuleType::UR20_4DI_P_TS);
        }
        if eq_folded_name(&folded, "UR20_4DI_N") {
            return Ok(ModuleType::UR20_4DI_N);
        }
        if eq_folded_name(&folded, "UR20_8DI_N_3W") {
            return Ok(ModuleType::UR20_8DI_N_3W);
        }
        if eq_folded_name(&folded, "UR20_16DI_N") {
            return Ok(ModuleType::UR20_16DI_N);
        }
        if eq_folded_name(&folded, "UR20_16DI_N_PLC_INT") {
            return Ok(ModuleType::UR20_16DI_N_PLC_INT);
        }
        if eq_folded_name(&folded, "UR20_4DI_2W_230V_AC") {
            return Ok(ModuleType::UR20_4DI_2W_230V_AC);
        }
        if eq_folded_name(&folded, "UR20_4DO_P") {
            return Ok(ModuleType::UR20_4DO_P);
        }
        if eq_folded_name(&folded, "UR20_4DO_P_2A") {
            return Ok(ModuleType::UR20_4DO_P_2A);
        }
        if eq_folded_name(&folded, "UR20_4DO_PN_2A") {
            return Ok(ModuleType::UR20_4DO_PN_2A);
        }
        if eq_folded_name(&folded, "UR20_8DO_P") {
            return Ok(ModuleType::UR20_8DO_P);
        }
        if eq_folded_name(&folded, "UR20_8DO_P_2W_HD") {
            return Ok(ModuleType::UR20_8DO_P_2W_HD);
        }
        if eq_folded_name(&folded, "UR20_16DO_P") {
            return Ok(ModuleType::UR20_16DO_P);
        }
        if eq_folded_name(&folded, "UR20_16DO_P_PLC_INT") {
            return Ok(ModuleType::UR20_16DO_P_PLC_INT);
        }
        if eq_folded_name(&folded, "UR20_4DO_N") {
            return Ok(ModuleType::UR20_4DO_N);
        }
        if eq_folded_name(&folded, "UR20_4DO_N_2A") {
            return Ok(ModuleType::UR20_4DO_N_2A);
        }
        if eq_folded_name(&folded, "UR20_8DO_N") {
            return Ok(ModuleType::UR20_8DO_N);
        }
        if eq_folded_name(&folded, "UR20_16DO_N") {
            return Ok(ModuleType::UR20_16DO_N);
        }
        if eq_folded_name(&folded, "UR20_16DO_N_PLC_INT") {
            return Ok(ModuleType::UR20_16DO_N_PLC_INT);
        }
        if eq_folded_name(&folded, "UR20_4RO_SSR_255") {
            return Ok(ModuleType::UR20_4RO_SSR_255);
        }
        if eq_folded_name(&folded, "UR20_4RO_CO_255") {
            return Ok(ModuleType::UR20_4RO_CO_255);
        }
        if eq_folded_name(&folded, "UR20_2PWM_PN_0_5A") {
            return Ok(ModuleType::UR20_2PWM_PN_0_5A);
        }
        if eq_folded_name(&folded, "UR20_2PWM_PN_2A") {
            return Ok(ModuleType::UR20_2PWM_PN_2A);
        }
        if eq_folded_name(&folded, "UR20_4AI_UI_16") {
            return Ok(ModuleType::UR20_4AI_UI_16);
        }
        if eq_folded_name(&folded, "UR20_4AI_UI_16_DIAG") {
            return Ok(ModuleType::UR20_4AI_UI_16_DIAG);
        }
        if eq_folded_name(&folded, "UR20_4AI_UI_DIF_16_DIAG") {
            return Ok(ModuleType::UR20_4AI_UI_DIF_16_DIAG);
        }
        if eq_folded_name(&folded, "UR20_4AI_UI_16_HD") {
            return Ok(ModuleType::UR20_4AI_UI_16_HD);
        }
        if eq_folded_name(&folded, "UR20_4AI_UI_16_DIAG_HD") {
            return Ok(ModuleType::UR20_4AI_UI_16_DIAG_HD);
        }
        if eq_folded_name(&folded, "UR20_4AI_UI_12") {
            return Ok(ModuleType::UR20_4AI_UI_12);
        }
        if eq_folded_name(&folded, "UR20_8AI_I_16_HD") {
            return Ok(ModuleType::UR20_8AI_I_16_HD);
        }
        if eq_folded_name(&folded, "UR20_8AI_I_16_DIAG_HD") {
            return Ok(ModuleType::UR20_8AI_I_16_DIAG_HD);
        }
        if eq_folded_name(&folded, "UR20_8AI_I_PLC_INT") {
            return Ok(ModuleType::UR20_8AI_I_PLC_INT);
        }
        if eq_folded_name(&folded, "UR20_4AI_R_HS_16_DIAG") {
            return Ok(ModuleType::UR20_4AI_R_HS_16_DIAG);
        }
        if eq_folded_name(&folded, "UR20_2AI_SG_24_DIAG") {
            return Ok(ModuleType::UR20_2AI_SG_24_DIAG);
        }
        if eq_folded_name(&folded, "UR20_3EM_230V_AC") {
            return Ok(ModuleType::UR20_3EM_230V_AC);
        }
        if eq_folded_name(&folded, "UR20_4AO_UI_16") {
            return Ok(ModuleType::UR20_4AO_UI_16);
        }
        if eq_folded_name(&folded, "UR20_4AO_UI_16_M") {
            return Ok(ModuleType::UR20_4AO_UI_16_M);
        }
        if eq_folded_name(&folded, "UR20_4AO_UI_16_DIAG") {
            return Ok(ModuleType::UR20_4AO_UI_16_DIAG);
        }
        if eq_folded_name(&folded, "UR20_4AO_UI_16_M_DIAG") {
            return Ok(ModuleType::UR20_4AO_UI_16_M_DIAG);
        }
        if eq_folded_name(&folded, "UR20_4AO_UI_16_HD") {
            return Ok(ModuleType::UR20_4AO_UI_16_HD);
        }
        if eq_folded_name(&folded, "UR20_4AO_UI_16_DIAG_HD") {
            return Ok(ModuleType::UR20_4AO_UI_16_DIAG_HD);
        }
        if eq_folded_name(&folded, "UR20_1CNT_100_1DO") {
            return Ok(ModuleType::UR20_1CNT_100_1DO);
        }
        if eq_folded_name(&folded, "UR20_2CNT_100") {
            return Ok(ModuleType::UR20_2CNT_100);
        }
        if eq_folded_name(&folded, "UR20_1CNT_500") {
            return Ok(ModuleType::UR20_1CNT_500);
        }
        if eq_folded_name(&folded, "UR20_2FCNT_100") {
            return Ok(ModuleType::UR20_2FCNT_100);
        }
        if eq_folded_name(&folded, "UR20_1SSI") {
            return Ok(ModuleType::UR20_1SSI);
        }
        if eq_folded_name(&folded, "UR20_1COM_232_485_422") {
            return Ok(ModuleType::UR20_1COM_232_485_422);
        }
        if eq_folded_name(&folded, "UR20_1COM_SAI_PRO") {
            return Ok(ModuleType::UR20_1COM_SAI_PRO);
        }
        if eq_folded_name(&folded, "UR20_4COM_IO_LINK") {
            return Ok(ModuleType::UR20_4COM_IO_LINK);
        }
        if eq_folded_name(&folded, "UR20_4AI_RTD_DIAG") {
            return Ok(ModuleType::UR20_4AI_RTD_DIAG);
        }
        if eq_folded_name(&folded, "UR20_4AI_TC_DIAG") {
            return Ok(ModuleType::UR20_4AI_TC_DIAG);
        }
        if eq_folded_name(&folded, "UR20_PF_I") {
            return Ok(ModuleType::UR20_PF_I);
        }
        if eq_folded_name(&folded, "UR20_PF_O") {
            return Ok(ModuleType::UR20_PF_O);
        }
        if eq_folded_name(&folded, "UR20_PF_O_1DI_SIL") {
            return Ok(ModuleType::UR20_PF_O_1DI_SIL);
        }
        if eq_folded_name(&folded, "UR20_PF_O_2DI_SIL") {
            return Ok(ModuleType::UR20_PF_O_2DI_SIL);
        }
        if eq_folded_name(&folded, "UR20_PF_O_2DI_DELAY_SIL") {
            return Ok(ModuleType::UR20_PF_O_2DI_DELAY_SIL);
        }
        Err(Error::UnknownModule)
    }
}

impl From<ModuleType> for ModuleCategory {
    /// The general class the module type belongs to.
    fn from(t: ModuleType) -> (r: Self)
        ensures
            r == t.spec_category(),
    {
        match t {
            ModuleType::UR20_4DI_P => ModuleCategory::DI,
            ModuleType::UR20_4DI_P_3W => ModuleCategory::DI,
            ModuleType::UR20_8DI_P_2W => ModuleCategory::DI,
            ModuleType::UR20_8DI_P_3W => ModuleCategory::DI,
            ModuleType::UR20_8DI_P_3W_HD => ModuleCategory::DI,
            ModuleType::UR20_16DI_P => ModuleCategory::DI,
            ModuleType::UR20_16DI_P_PLC_INT => ModuleCategory::DI,
            ModuleType::UR20_2DI_P_TS => ModuleCategory::DI,
            ModuleType::UR20_4DI_P_TS => ModuleCategory::DI,
            ModuleType::UR20_4DI_N => ModuleCategory::DI,
            ModuleType::UR20_8DI_N_3W => ModuleCategory::DI,
            ModuleType::UR20_16DI_N => ModuleCategory::DI,
            ModuleType::UR20_16DI_N_PLC_INT => ModuleCategory::DI,
            ModuleType::UR20_4DI_2W_230V_AC => ModuleCategory::DI,
            ModuleType::UR20_4DO_P => ModuleCategory::DO,
            ModuleType::UR20_4DO_P_2A => ModuleCategory::DO,
            ModuleType::UR20_4DO_PN_2A => ModuleCategory::DO,
            ModuleType::UR20_8DO_P => ModuleCategory::DO,
            ModuleType::UR20_8DO_P_2W_HD => ModuleCategory::DO,
            ModuleType::UR20_16DO_P => ModuleCategory::DO,
            ModuleType::UR20_16DO_P_PLC_INT => ModuleCategory::DO,
            ModuleType::UR20_4DO_N => ModuleCategory::DO,
            ModuleType::UR20_4DO_N_2A => ModuleCategory::DO,
            ModuleType::UR20_8DO_N => ModuleCategory::DO,
            ModuleType::UR20_16DO_N => ModuleCategory::DO,
            ModuleType::UR20_16DO_N_PLC_INT => ModuleCategory::DO,
            ModuleType::UR20_4RO_SSR_255 => ModuleCategory::DO,
            ModuleType::UR20_4RO_CO_255 => ModuleCategory::DO,
            ModuleType::UR20_2PWM_PN_0_5A => ModuleCategory::PWM,
            ModuleType::UR20_2PWM_PN_2A => ModuleCategory::PWM,
            ModuleType::UR20_4AI_UI_16 => ModuleCategory::AI,
            ModuleType::UR20_4AI_UI_16_DIAG => ModuleCategory::AI,
            ModuleType::UR20_4AI_UI_DIF_16_DIAG => ModuleCategory::AI,
            ModuleType::UR20_4AI_UI_16_HD => ModuleCategory::AI,
            ModuleType::UR20_4AI_UI_16_DIAG_HD => ModuleCategory::AI,
            ModuleType::UR20_4AI_UI_12 => ModuleCategory::AI,
            ModuleType::UR20_8AI_I_16_HD => ModuleCategory::AI,
            ModuleType::UR20_8AI_I_16_DIAG_HD => ModuleCategory::AI,
            ModuleType::UR20_8AI_I_PLC_INT => ModuleCategory::AI,
            ModuleType::UR20_4AI_R_HS_16_DIAG => ModuleCategory::AI,
            ModuleType::UR20_2AI_SG_24_DIAG => ModuleCategory::AI,
            ModuleType::UR20_3EM_230V_AC => ModuleCategory::AI,
            ModuleType::UR20_4AO_UI_16 => ModuleCategory::AO,
            ModuleType::UR20_4AO_UI_16_M => ModuleCategory::AO,
            ModuleType::UR20_4AO_UI_16_DIAG => ModuleCategory::AO,
            ModuleType::UR20_4AO_UI_16_M_DIAG => ModuleCategory::AO,
            ModuleType::UR20_4AO_UI_16_HD => ModuleCategory::AO,
            ModuleType::UR20_4AO_UI_16_DIAG_HD => ModuleCategory::AO,
            ModuleType::UR20_1CNT_100_1DO => ModuleCategory::CNT,
            ModuleType::UR20_2CNT_100 => ModuleCategory::CNT,
            ModuleType::UR20_1CNT_500 => ModuleCategory::CNT,
            ModuleType::UR20_2FCNT_100 => ModuleCategory::CNT,
            ModuleType::UR20_1SSI => ModuleCategory::COM,
            ModuleType::UR20_1COM_232_485_422 => ModuleCategory::COM,
            ModuleType::UR20_1COM_SAI_PRO => ModuleCategory::COM,
            ModuleType::UR20_4COM_IO_LINK => ModuleCategory::COM,
            ModuleType::UR20_4AI_RTD_DIAG => ModuleCategory::RTD,
            ModuleType::UR20_4AI_TC_DIAG => ModuleCategory::TC,
            ModuleType::UR20_PF_I => ModuleCategory::PF,
            ModuleType::UR20_PF_O => ModuleCategory::PF,
            ModuleType::UR20_PF_O_1DI_SIL => ModuleCategory::PF,
            ModuleType::UR20_PF_O_2DI_SIL => ModuleCategory::PF,
            ModuleType::UR20_PF_O_2DI_DELAY_SIL => ModuleCategory::PF,
        }
    }
}

impl vstd::std_specs::convert::FromSpecImpl<ModuleType> for ModuleCategory {
    open spec fn obeys_from_spec() -> bool {
        true
    }

    open spec fn from_spec(t: ModuleType) -> Self {
        t.spec_category()
    }
}

impl ModuleCategory {
    /// The category a folded name stands for.
    pub open spec fn spec_from_name(f: Seq<u8>) -> Option<ModuleCategory> {
        if spec_name_matches(f, "DI") {
            Some(ModuleCategory::DI)
        } else if spec_name_matches(f, "DO") {
            Some(ModuleCategory::DO)
        } else if spec_name_matches(f, "AI") {
            Some(ModuleCategory::AI)
        } else if spec_name_matches(f, "AO") {
            Some(ModuleCategory::AO)
        } else if spec_name_matches(f, "CNT") {
            Some(ModuleCategory::CNT)
        } else if spec_name_matches(f, "PWM") {
            Some(ModuleCategory::PWM)
        } else if spec_name_matches(f, "RTD") {
            Some(ModuleCategory::RTD)
        } else if spec_name_matches(f, "TC") {
            Some(ModuleCategory::TC)
        } else if spec_name_matches(f, "COM") {
            Some(ModuleCategory::COM)
        } else if spec_name_matches(f, "RO") {
            Some(ModuleCategory::RO)
        } else {
            None
        }
    }

    /// The parse of a category name, case-insensitive.
    pub open spec fn spec_try_from_str(s: &str) -> Result<ModuleCategory, Error> {
        match Self::spec_from_name(spec_fold_id(s.spec_bytes())) {
            Some(c) => Ok(c),
            None => Err(Error::UnknownCategory),
        }
    }

    /// Parses a category name, case-insensitive.
    pub fn try_from_str(s: &str) -> (r: Result<ModuleCategory, Error>)
        ensures
            r == Self::spec_try_from_str(s),
    {
        let folded = fold_id_bytes(s.as_bytes());
        if eq_folded_name(&folded, "DI") {
            return Ok(ModuleCategory::DI);
        }
        if eq_folded_name(&folded, "DO") {
            return Ok(ModuleCategory::DO);
        }
        if eq_folded_name(&folded, "AI") {
            return Ok(ModuleCategory::AI);
        }
        if eq_folded_name(&folded, "AO") {
            return Ok(ModuleCategory::AO);
        }
        if eq_folded_name(&folded, "CNT") {
            return Ok(ModuleCategory::CNT);
        }
        if eq_folded_name(&folded, "PWM") {
            return Ok(ModuleCategory::PWM);
        }
        if eq_folded_name(&folded, "RTD") {
            return Ok(ModuleCategory::RTD);
        }
        if eq_folded_name(&folded, "TC") {
            return Ok(ModuleCategory::TC);
        }
        if eq_folded_name(&folded, "COM") {
            return Ok(ModuleCategory::COM);
        }
        if eq_folded_name(&folded, "RO") {
            return Ok(ModuleCategory::RO);
        }
        Err(Error::UnknownCategory)
    }
}

/// How analog raw data is scaled.
#[derive(Debug, Clone, Copy, PartialEq, Eq, Structural, Hash)]
pub enum DataFormat {
    S5,
    S7,
}

impl DataFormat {
    /// The setting encoded by a parameter register.
    pub open spec fn spec_from_u16(v: u16) -> Option<DataFormat> {
        if v == 0 {
            Some(DataFormat::S5)
        } else if v == 1 {
            Some(DataFormat::S7)
        } else {
            None
        }
    }

    /// Decodes a parameter register.
    pub fn from_u16(v: u16) -> (r: Option<DataFormat>)
        ensures
            r == Self::spec_from_u16(v),
    {
        match v {
            0 => Some(DataFormat::S5),
            1 => Some(DataFormat::S7),
            _ => None,
        }
    }

    /// Encodes the setting as its parameter register value.
    pub fn to_u16(&self) -> (r: u16)
        ensures
            Self::spec_from_u16(r) == Some(*self),
    {
        match *self {
            DataFormat::S5 => 0,
            DataFormat::S7 => 1,
        }
    }
}

/// Analog input or output range (current and voltage).
#[allow(non_camel_case_types)]
#[derive(Debug, Clone, Copy, PartialEq, Eq, Structural, Hash)]
pub enum AnalogUIRange {
    mA0To20,
    mA4To20,
    V0To10,
    VMinus10To10,
    V0To5,
    VMinus5To5,
    V1To5,
    V2To10,
    Disabled,
}

impl AnalogUIRange {
    /// The setting encoded by a parameter register.
    pub open spec fn spec_from_u16(v: u16) -> Option<AnalogUIRange> {
        if v == 0 {
            Some(AnalogUIRange::mA0To20)
        } else if v == 1 {
            Some(AnalogUIRange::mA4To20)
        } else if v == 2 {
            Some(AnalogUIRange::V0To10)
        } else if v == 3 {
            Some(AnalogUIRange::VMinus10To10)
        } else if v == 4 {
            Some(AnalogUIRange::V0To5)
        } else if v == 5 {
            Some(AnalogUIRange::VMinus5To5)
        } else if v == 6 {
            Some(AnalogUIRange::V1To5)
        } else if v == 7 {
            Some(AnalogUIRange::V2To10)
        } else if v == 8 {
            Some(AnalogUIRange::Disabled)
        } else {
            None
        }
    }

    /// Decodes a parameter register.
    pub fn from_u16(v: u16) -> (r: Option<AnalogUIRange>)
        ensures
            r == Self::spec_from_u16(v),
    {
        match v {
            0 => Some(AnalogUIRange::mA0To20),
            1 => Some(AnalogUIRange::mA4To20),
            2 => Some(AnalogUIRange::V0To10),
            3 => Some(AnalogUIRange::VMinus10To10),
            4 => Some(AnalogUIRange::V0To5),
            5 => Some(AnalogUIRange::VMinus5To5),
            6 => Some(AnalogUIRange::V1To5),
            7 => Some(AnalogUIRange::V2To10),
            8 => Some(AnalogUIRange::Disabled),
            _ => None,
        }
    }

    /// Encodes the setting as its parameter register value.
    pub fn to_u16(&self) -> (r: u16)
        ensures
            Self::spec_from_u16(r) == Some(*self),
    {
        match *self {
            AnalogUIRange::mA0To20 => 0,
            AnalogUIRange::mA4To20 => 1,
            AnalogUIRange::V0To10 => 2,
            AnalogUIRange::VMinus10To10 => 3,
            AnalogUIRange::V0To5 => 4,
            AnalogUIRange::VMinus5To5 => 5,
            AnalogUIRange::V1To5 => 6,
            AnalogUIRange::V2To10 => 7,
            AnalogUIRange::Disabled => 8,
        }
    }
}

/// Analog input or output range (current only).
#[allow(non_camel_case_types)]
#[derive(Debug, Clone, Copy, PartialEq, Eq, Structural, Hash)]
pub enum AnalogIRange {
    mA0To20,
    mA4To20,
    Disabled,
}

impl AnalogIRange {
    /// The setting encoded by a parameter register.
    pub open spec fn spec_from_u16(v: u16) -> Option<AnalogIRange> {
        if v == 0 {
            Some(AnalogIRange::mA0To20)
        } else if v == 1 {
            Some(AnalogIRange::mA4To20)
        } else if v == 2 {
            Some(AnalogIRange::Disabled)
        } else {
            None
        }
    }

    /// Decodes a parameter register.
    pub fn from_u16(v: u16) -> (r: Option<AnalogIRange>)
        ensures
            r == Self::spec_from_u16(v),
    {
        match v {
            0 => Some(AnalogIRange::mA0To20),
            1 => Some(AnalogIRange::mA4To20),
            2 => Some(AnalogIRange::Disabled),
            _ => None,
        }
    }

    /// Encodes the setting as its parameter register value.
    pub fn to_u16(&self) -> (r: u16)
        ensures
            Self::spec_from_u16(r) == Some(*self),
    {
        match *self {
            AnalogIRange::mA0To20 => 0,
            AnalogIRange::mA4To20 => 1,
            AnalogIRange::Disabled => 2,
        }
    }
}

/// Resistance thermometer measurement range.
#[derive(Debug, Clone, Copy, PartialEq, Eq, Structural, Hash)]
pub enum RtdRange {
    PT100,
    PT200,
    PT500,
    PT1000,
    NI100,
    NI120,
    NI200,
    NI500,
    NI1000,
    Cu10,
    R40,
    R80,
    R150,
    R300,
    R500,
    R1000,
    R2000,
    R4000,
    Disabled,
}

impl RtdRange {
    /// The setting encoded by a parameter register.
    pub open spec fn spec_from_u16(v: u16) -> Option<RtdRange> {
        if v == 0 {
            Some(RtdRange::PT100)
        } else if v == 1 {
            Some(RtdRange::PT200)
        } else if v == 2 {
            Some(RtdRange::PT500)
        } else if v == 3 {
            Some(RtdRange::PT1000)
        } else if v == 4 {
            Some(RtdRange::NI100)
        } else if v == 5 {
            Some(RtdRange::NI120)
        } else if v == 6 {
            Some(RtdRange::NI200)
        } else if v == 7 {
            Some(RtdRange::NI500)
        } else if v == 8 {
            Some(RtdRange::NI1000)
        } else if v == 9 {
            Some(RtdRange::Cu10)
        } else if v == 10 {
            Some(RtdRange::R40)
        } else if v == 11 {
            Some(RtdRange::R80)
        } else if v == 12 {
            Some(RtdRange::R150)
        } else if v == 13 {
            Some(RtdRange::R300)
        } else if v == 14 {
            Some(RtdRange::R500)
        } else if v == 15 {
            Some(RtdRange::R1000)
        } else if v == 16 {
            Some(RtdRange::R2000)
        } else if v == 17 {
            Some(RtdRange::R4000)
        } else if v == 18 {
            Some(RtdRange::Disabled)
        } else {
            None
        }
    }

    /// Decodes a parameter register.
    pub fn from_u16(v: u16) -> (r: Option<RtdRange>)
        ensures
            r == Self::spec_from_u16(v),
    {
        match v {
            0 => Some(RtdRange::PT100),
            1 => Some(RtdRange::PT200),
            2 => Some(RtdRange::PT500),
            3 => Some(RtdRange::PT1000),
            4 => Some(RtdRange::NI100),
            5 => Some(RtdRange::NI120),
            6 => Some(RtdRange::NI200),
            7 => Some(RtdRange::NI500),
            8 => Some(RtdRange::NI1000),
            9 => Some(RtdRange::Cu10),
            10 => Some(RtdRange::R40),
            11 => Some(RtdRange::R80),
            12 => Some(RtdRange::R150),
            13 => Some(RtdRange::R300),
            14 => Some(RtdRange::R500),
            15 => Some(RtdRange::R1000),
            16 => Some(RtdRange::R2000),
            17 => Some(RtdRange::R4000),
            18 => Some(RtdRange::Disabled),
            _ => None,
        }
    }

    /// Encodes the setting as its parameter register value.
    pub fn to_u16(&self) -> (r: u16)
        ensures
            Self::spec_from_u16(r) == Some(*self),
    {
        match *self {
            RtdRange::PT100 => 0,
            RtdRange::PT200 => 1,
            RtdRange::PT500 => 2,
            RtdRange::PT1000 => 3,
            RtdRange::NI100 => 4,
            RtdRange::NI120 => 5,
            RtdRange::NI200 => 6,
            RtdRange::NI500 => 7,
            RtdRange::NI1000 => 8,
            RtdRange::Cu10 => 9,
            RtdRange::R40 => 10,
            RtdRange::R80 => 11,
            RtdRange::R150 => 12,
            RtdRange::R300 => 13,
            RtdRange::R500 => 14,
            RtdRange::R1000 => 15,
            RtdRange::R2000 => 16,
            RtdRange::R4000 => 17,
            RtdRange::Disabled => 18,
        }
    }
}

/// The unit a temperature value is represented in.
#[derive(Debug, Clone, Copy, PartialEq, Eq, Structural, Hash)]
pub enum TemperatureUnit {
    Celsius,
    Fahrenheit,
    Kelvin,
}

impl TemperatureUnit {
    /// The setting encoded by a parameter register.
    pub open spec fn spec_from_u16(v: u16) -> Option<TemperatureUnit> {
        if v == 0 {
            Some(TemperatureUnit::Celsius)
        } else if v == 1 {
            Some(TemperatureUnit::Fahrenheit)
        } else if v == 2 {
            Some(TemperatureUnit::Kelvin)
        } else {
            None
        }
    }

    /// Decodes a parameter register.
    pub fn from_u16(v: u16) -> (r: Option<TemperatureUnit>)
        ensures
            r == Self::spec_from_u16(v),
    {
        match v {
            0 => Some(TemperatureUnit::Celsius),
            1 => Some(TemperatureUnit::Fahrenheit),
            2 => Some(TemperatureUnit::Kelvin),
            _ => None,
        }
    }

    /// Encodes the setting as its parameter register value.
    pub fn to_u16(&self) -> (r: u16)
        ensures
            Self::spec_from_u16(r) == Some(*self),
    {
        match *self {
            TemperatureUnit::Celsius => 0,
            TemperatureUnit::Fahrenheit => 1,
            TemperatureUnit::Kelvin => 2,
        }
    }
}

/// How the resistor is physically connected.
#[derive(Debug, Clone, Copy, PartialEq, Eq, Structural, Hash)]
pub enum ConnectionType {
    TwoWire,
    ThreeWire,
    FourWire,
}

impl ConnectionType {
    /// The setting encoded by a parameter register.
    pub open spec fn spec_from_u16(v: u16) -> Option<ConnectionType> {
        if v == 0 {
            Some(ConnectionType::TwoWire)
        } else if v == 1 {
            Some(ConnectionType::ThreeWire)
        } else if v == 2 {
            Some(ConnectionType::FourWire)
        } else {
            None
        }
    }

    /// Decodes a parameter register.
    pub fn from_u16(v: u16) -> (r: Option<ConnectionType>)
        ensures
            r == Self::spec_from_u16(v),
    {
        match v {
            0 => Some(ConnectionType::TwoWire),
            1 => Some(ConnectionType::ThreeWire),
            2 => Some(ConnectionType::FourWire),
            _ => None,
        }
    }

    /// Encodes the setting as its parameter register value.
    pub fn to_u16(&self) -> (r: u16)
        ensures
            Self::spec_from_u16(r) == Some(*self),
    {
        match *self {
            ConnectionType::TwoWire => 0,
            ConnectionType::ThreeWire => 1,
            ConnectionType::FourWire => 2,
        }
    }
}

/// Time to convert a signal.
#[allow(non_camel_case_types)]
#[derive(Debug, Clone, Copy, PartialEq, Eq, Structural, Hash)]
pub enum ConversionTime {
    ms240,
    ms130,
    ms80,
    ms55,
    ms43,
    ms36,
}

impl ConversionTime {
    /// The setting encoded by a parameter register.
    pub open spec fn spec_from_u16(v: u16) -> Option<ConversionTime> {
        if v == 0 {
            Some(ConversionTime::ms240)
        } else if v == 1 {
            Some(ConversionTime::ms130)
        } else if v == 2 {
            Some(ConversionTime::ms80)
        } else if v == 3 {
            Some(ConversionTime::ms55)
        } else if v == 4 {
            Some(ConversionTime::ms43)
        } else if v == 5 {
            Some(ConversionTime::ms36)
        } else {
            None
        }
    }

    /// Decodes a parameter register.
    pub fn from_u16(v: u16) -> (r: Option<ConversionTime>)
        ensures
            r == Self::spec_from_u16(v),
    {
        match v {
            0 => Some(ConversionTime::ms240),
            1 => Some(ConversionTime::ms130),
            2 => Some(ConversionTime::ms80),
            3 => Some(ConversionTime::ms55),
            4 => Some(ConversionTime::ms43),
            5 => Some(ConversionTime::ms36),
            _ => None,
        }
    }

    /// Encodes the setting as its parameter register value.
    pub fn to_u16(&self) -> (r: u16)
        ensures
            Self::spec_from_u16(r) == Some(*self),
    {
        match *self {
            ConversionTime::ms240 => 0,
            ConversionTime::ms130 => 1,
            ConversionTime::ms80 => 2,
            ConversionTime::ms55 => 3,
            ConversionTime::ms43 => 4,
            ConversionTime::ms36 => 5,
        }
    }
}

/// Filter signals by a minimal duration.
#[allow(non_camel_case_types)]
#[derive(Debug, Clone, Copy, PartialEq, Eq, Structural, Hash)]
pub enum InputFilter {
    us5,
    us11,
    us21,
    us43,
    us83,
    us167,
    us333,
    us667,
    ms1,
    ms3,
    ms5,
    ms11,
    ms22,
    ms43,
    ms91,
    ms167,
    ms333,
}

impl InputFilter {
    /// The setting encoded by a parameter register.
    pub open spec fn spec_from_u16(v: u16) -> Option<InputFilter> {
        if v == 0 {
            Some(InputFilter::us5)
        } else if v == 1 {
            Some(InputFilter::us11)
        } else if v == 2 {
            Some(InputFilter::us21)
        } else if v == 3 {
            Some(InputFilter::us43)
        } else if v == 4 {
            Some(InputFilter::us83)
        } else if v == 5 {
            Some(InputFilter::us167)
        } else if v == 6 {
            Some(InputFilter::us333)
        } else if v == 7 {
            Some(InputFilter::us667)
        } else if v == 8 {
            Some(InputFilter::ms1)
        } else if v == 9 {
            Some(InputFilter::ms3)
        } else if v == 10 {
            Some(InputFilter::ms5)
        } else if v == 11 {
            Some(InputFilter::ms11)
        } else if v == 12 {
            Some(InputFilter::ms22)
        } else if v == 13 {
            Some(InputFilter::ms43)
        } else if v == 14 {
            Some(InputFilter::ms91)
        } else if v == 15 {
            Some(InputFilter::ms167)
        } else if v == 16 {
            Some(InputFilter::ms333)
        } else {
            None
        }
    }

    /// Decodes a parameter register.
    pub fn from_u16(v: u16) -> (r: Option<InputFilter>)
        ensures
            r == Self::spec_from_u16(v),
    {
        match v {
            0 => Some(InputFilter::us5),
            1 => Some(InputFilter::us11),
            2 => Some(InputFilter::us21),
            3 => Some(InputFilter::us43),
            4 => Some(InputFilter::us83),
            5 => Some(InputFilter::us167),
            6 => Some(InputFilter::us333),
            7 => Some(InputFilter::us667),
            8 => Some(InputFilter::ms1),
            9 => Some(InputFilter::ms3),
            10 => Some(InputFilter::ms5),
            11 => Some(InputFilter::ms11),
            12 => Some(InputFilter::ms22),
            13 => Some(InputFilter::ms43),
            14 => Some(InputFilter::ms91),
            15 => Some(InputFilter::ms167),
            16 => Some(InputFilter::ms333),
            _ => None,
        }
    }

    /// Encodes the setting as its parameter register value.
    pub fn to_u16(&self) -> (r: u16)
        ensures
            Self::spec_from_u16(r) == Some(*self),
    {
        match *self {
            InputFilter::us5 => 0,
            InputFilter::us11 => 1,
            InputFilter::us21 => 2,
            InputFilter::us43 => 3,
            InputFilter::us83 => 4,
            InputFilter::us167 => 5,
            InputFilter::us333 => 6,
            InputFilter::us667 => 7,
            InputFilter::ms1 => 8,
            InputFilter::ms3 => 9,
            InputFilter::ms5 => 10,
            InputFilter::ms11 => 11,
            InputFilter::ms22 => 12,
            InputFilter::ms43 => 13,
            InputFilter::ms91 => 14,
            InputFilter::ms167 => 15,
            InputFilter::ms333 => 16,
        }
    }
}

/// Time to delay a signal.
#[allow(non_camel_case_types)]
#[derive(Debug, Clone, Copy, PartialEq, Eq, Structural, Hash)]
pub enum InputDelay {
    no,
    us300,
    ms3,
    ms10,
    ms20,
    ms40,
}

impl InputDelay {
    /// The setting encoded by a parameter register.
    pub open spec fn spec_from_u16(v: u16) -> Option<InputDelay> {
        if v == 0 {
            Some(InputDelay::no)
        } else if v == 1 {
            Some(InputDelay::us300)
        } else if v == 2 {
            Some(InputDelay::ms3)
        } else if v == 3 {
            Some(InputDelay::ms10)
        } else if v == 4 {
            Some(InputDelay::ms20)
        } else if v == 5 {
            Some(InputDelay::ms40)
        } else {
            None
        }
    }

    /// Decodes a parameter register.
    pub fn from_u16(v: u16) -> (r: Option<InputDelay>)
        ensures
            r == Self::spec_from_u16(v),
    {
        match v {
            0 => Some(InputDelay::no),
            1 => Some(InputDelay::us300),
            2 => Some(InputDelay::ms3),
            3 => Some(InputDelay::ms10),
            4 => Some(InputDelay::ms20),
            5 => Some(InputDelay::ms40),
            _ => None,
        }
    }

    /// Encodes the setting as its parameter register value.
    pub fn to_u16(&self) -> (r: u16)
        ensures
            Self::spec_from_u16(r) == Some(*self),
    {
        match *self {
            InputDelay::no => 0,
            InputDelay::us300 => 1,
            InputDelay::ms3 => 2,
            InputDelay::ms10 => 3,
            InputDelay::ms20 => 4,
            InputDelay::ms40 => 5,
        }
    }
}

/// Frequency suppression of an analog input.
#[derive(Debug, Clone, Copy, PartialEq, Eq, Structural, Hash)]
pub enum FrequencySuppression {
    Disabled,
    Hz50,
    Hz60,
    Average16,
}

impl FrequencySuppression {
    /// The setting encoded by a parameter register.
    pub open spec fn spec_from_u16(v: u16) -> Option<FrequencySuppression> {
        if v == 0 {
            Some(FrequencySuppression::Disabled)
        } else if v == 1 {
            Some(FrequencySuppression::Hz50)
        } else if v == 2 {
            Some(FrequencySuppression::Hz60)
        } else if v == 3 {
            Some(FrequencySuppression::Average16)
        } else {
            None
        }
    }

    /// Decodes a parameter register.
    pub fn from_u16(v: u16) -> (r: Option<FrequencySuppression>)
        ensures
            r == Self::spec_from_u16(v),
    {
        match v {
            0 => Some(FrequencySuppression::Disabled),
            1 => Some(FrequencySuppression::Hz50),
            2 => Some(FrequencySuppression::Hz60),
            3 => Some(FrequencySuppression::Average16),
            _ => None,
        }
    }

    /// Encodes the setting as its parameter register value.
    pub fn to_u16(&self) -> (r: u16)
        ensures
            Self::spec_from_u16(r) == Some(*self),
    {
        match *self {
            FrequencySuppression::Disabled => 0,
            FrequencySuppression::Hz50 => 1,
            FrequencySuppression::Hz60 => 2,
            FrequencySuppression::Average16 => 3,
        }
    }
}


impl core::str::FromStr for ModuleType {
    type Err = Error;

    fn from_str(s: &str) -> Result<Self, Error> {
        ModuleType::try_from_str(s)
    }
}

impl core::str::FromStr for ModuleCategory {
    type Err = Error;

    fn from_str(s: &str) -> Result<Self, Error> {
        ModuleCategory::try_from_str(s)
    }
}

} // verus!
