//! Safe power-feed module UR20-PF-O-1DI-SIL: decode of its status bits.

use vstd::prelude::*;

use crate::error::Error;
use crate::util::{spec_bit8, spec_hi, spec_lo, test_bit};
use crate::ChannelValue;

verus! {

/// Decoded process input data of the safe power-feed module.
#[derive(Debug, Clone, Copy, PartialEq, Eq, Structural, Hash)]
pub struct ProcessInput {
    /// Byte 0 bit 0: safety input 0.
    pub safety_input: bool,
    /// Byte 0 bit 2: autostart.
    pub autostart: bool,
    /// Byte 0 bit 3: manual start.
    pub manual_start: bool,
    /// Byte 0 bit 4: safety input 0, channel 1.
    pub safety_input_channel_1: bool,
    /// Byte 0 bit 5: safety input 0, channel 2.
    pub safety_input_channel_2: bool,
    /// Byte 1 bit 0: 24 V safe output.
    pub volt_24_safe_output: bool,
    /// Byte 1 bit 2: 24 V DC power feed-in pending.
    pub volt_24_dc: bool,
}

impl Default for ProcessInput {
    /// All status bits clear.
    fn default() -> (r: Self)
        ensures
            r == ProcessInput::spec_all_clear(),
    {
        ProcessInput {
            safety_input: false,
            autostart: false,
            manual_start: false,
            safety_input_channel_1: false,
            safety_input_channel_2: false,
            volt_24_safe_output: false,
            volt_24_dc: false,
        }
    }
}

impl ProcessInput {
    /// The frame with every status bit clear.
    pub open spec fn spec_all_clear() -> ProcessInput {
        ProcessInput {
            safety_input: false,
            autostart: false,
            manual_start: false,
            safety_input_channel_1: false,
            safety_input_channel_2: false,
            volt_24_safe_output: false,
            volt_24_dc: false,
        }
    }

    /// The decode of the module's first input word; the second word is
    /// reserved.
    pub open spec fn spec_from_word(word: u16) -> ProcessInput {
        let byte0 = spec_lo(word);
        let byte1 = spec_hi(word);
        ProcessInput {
            safety_input: spec_bit8(byte0, 0),
            autostart: spec_bit8(byte0, 2),
            manual_start: spec_bit8(byte0, 3),
            safety_input_channel_1: spec_bit8(byte0, 4),
            safety_input_channel_2: spec_bit8(byte0, 5),
            volt_24_safe_output: spec_bit8(byte1, 0),
            volt_24_dc: spec_bit8(byte1, 2),
        }
    }
}

/// The safe power-feed module; it carries no parameters.
#[derive(Debug, Clone, Copy, PartialEq, Eq, Structural, Hash)]
pub struct Mod;

impl Default for Mod {
    fn default() -> (r: Self) {
        Mod
    }
}

impl crate::Module for Mod {
    open spec fn spec_module_type(&self) -> crate::ModuleType {
        crate::ModuleType::UR20_PF_O_1DI_SIL
    }

    fn module_type(&self) -> (r: crate::ModuleType) {
        crate::ModuleType::UR20_PF_O_1DI_SIL
    }
}

impl Mod {
    /// Builds the module; it takes no parameter registers.
    pub fn from_modbus_parameter_data(data: &[u16]) -> (r: Result<Mod, Error>)
        ensures
            data@.len() == 0 ==> r == Ok::<Mod, Error>(Mod),
            data@.len() != 0 ==> r == Err::<Mod, Error>(Error::BufferLength),
    {
        if data.len() != 0 {
            return Err(Error::BufferLength);
        }
        Ok(Mod)
    }

    /// Bytes of the module's input process-data window.
    pub fn process_input_byte_count(&self) -> (r: usize)
        ensures
            r == 4,
    {
        4
    }

    /// Bytes of the module's output process-data window.
    pub fn process_output_byte_count(&self) -> (r: usize)
        ensures
            r == 0,
    {
        0
    }

    /// The decode of the module's input window into its single channel value.
    pub open spec fn spec_process_input_data(data: Seq<u16>) -> Result<
        Seq<crate::ChannelValueModel>,
        Error,
    > {
        if data.len() != 2 {
            Err(Error::BufferLength)
        } else {
            Ok(seq![crate::ChannelValueModel::SilPFIn(ProcessInput::spec_from_word(data[0]))])
        }
    }

    /// Decodes the module's input window into its single channel value.
    pub fn process_input_data(&self, data: &[u16]) -> (r: Result<Vec<ChannelValue>, Error>)
        ensures
            match r {
                Ok(v) => Self::spec_process_input_data(data@) == Ok::<_, Error>(v.deep_view()),
                Err(e) => Self::spec_process_input_data(data@) == Err::<
                    Seq<crate::ChannelValueModel>,
                    Error,
                >(e),
            },
    {
        if data.len() != 2 {
            return Err(Error::BufferLength);
        }
        let byte0 = (data[0] & 0xFF) as u8;
        let byte1 = (data[0] >> 8u16) as u8;
        let msg = ProcessInput {
            safety_input: test_bit(byte0, 0),
            autostart: test_bit(byte0, 2),
            manual_start: test_bit(byte0, 3),
            safety_input_channel_1: test_bit(byte0, 4),
            safety_input_channel_2: test_bit(byte0, 5),
            volt_24_safe_output: test_bit(byte1, 0),
            volt_24_dc: test_bit(byte1, 2),
        };
        let mut v: Vec<ChannelValue> = Vec::new();
        v.push(ChannelValue::SilPFIn(msg));
        proof {
            assert(v.deep_view() =~= Self::spec_process_input_data(data@).unwrap());
        }
        Ok(v)
    }
}

} // verus!
