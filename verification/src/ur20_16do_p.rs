//! Digital output module UR20-16DO-P: sixteen channel bits in one register
//! word, no configuration parameters.

use vstd::prelude::*;

use crate::digital;
use crate::error::Error;
use crate::{ChannelValue, Module, ModuleType};

verus! {

/// The sixteen-channel digital output module; it carries no parameters.
#[derive(Debug, Clone, Copy, PartialEq, Eq, Structural, Hash)]
pub struct Mod;

impl Default for Mod {
    fn default() -> (r: Self) {
        Mod
    }
}

impl Module for Mod {
    open spec fn spec_module_type(&self) -> ModuleType {
        ModuleType::UR20_16DO_P
    }

    fn module_type(&self) -> (r: ModuleType) {
        ModuleType::UR20_16DO_P
    }
}

impl Mod {
    /// Builds the module; it takes no parameter registers.
    pub fn from_modbus_parameter_data(data: &[u16]) -> (r: Result<Mod, Error>)
        ensures
            data@.len() == 0 ==> r == Ok::<Mod, Error>(Mod),
            data@.len() != 0 ==> r == Err::<Mod, Error>(Error::BufferLength),
    {
        if data.len() != 0 {
            return Err(Error::BufferLength);
        }
        Ok(Mod)
    }

    /// Bytes of the module's input process-data window: none.
    pub fn process_input_byte_count(&self) -> (r: usize)
        ensures
            r == 0,
    {
        0
    }

    /// Bytes of the module's output process-data window.
    pub fn process_output_byte_count(&self) -> (r: usize)
        ensures
            r == 2,
    {
        2
    }

    /// The module has no input process data: only an empty buffer decodes,
    /// into one empty value per channel.
    pub open spec fn spec_process_input_data(data: Seq<u16>) -> Result<
        Seq<crate::ChannelValueModel>,
        Error,
    > {
        if data.len() != 0 {
            Err(Error::BufferLength)
        } else {
            Ok(digital::spec_no_values(16))
        }
    }

    /// Decodes the module's (empty) input window.
    pub fn process_input_data(&self, data: &[u16]) -> (r: Result<Vec<ChannelValue>, Error>)
        ensures
            match r {
                Ok(v) => Self::spec_process_input_data(data@) == Ok::<_, Error>(v.deep_view()),
                Err(e) => Self::spec_process_input_data(data@) == Err::<
                    Seq<crate::ChannelValueModel>,
                    Error,
                >(e),
            },
    {
        if data.len() != 0 {
            return Err(Error::BufferLength);
        }
        Ok(digital::no_values(16))
    }

    /// The decode of the module's output word into its sixteen bit values.
    pub open spec fn spec_process_output_data(data: Seq<u16>) -> Result<
        Seq<crate::ChannelValueModel>,
        Error,
    > {
        if data.len() != 1 {
            Err(Error::BufferLength)
        } else {
            Ok(digital::spec_decode_bits(data[0], 16))
        }
    }

    /// Decodes the module's output word into its sixteen bit values.
    pub fn process_output_data(&self, data: &[u16]) -> (r: Result<Vec<ChannelValue>, Error>)
        ensures
            match r {
                Ok(v) => Self::spec_process_output_data(data@) == Ok::<_, Error>(v.deep_view()),
                Err(e) => Self::spec_process_output_data(data@) == Err::<
                    Seq<crate::ChannelValueModel>,
                    Error,
                >(e),
            },
    {
        if data.len() != 1 {
            return Err(Error::BufferLength);
        }
        Ok(digital::decode_bits(data[0], 16))
    }

    /// The encode of the sixteen bit values into the module's output word.
    pub open spec fn spec_process_output_values(values: Seq<crate::ChannelValueModel>) -> Result<
        Seq<u16>,
        Error,
    > {
        if values.len() != 16 {
            Err(Error::ChannelValue)
        } else {
            match digital::spec_encode_bits(values, values.len() as int) {
                Ok(w) => Ok(seq![w]),
                Err(e) => Err(e),
            }
        }
    }

    /// Encodes the sixteen bit values into the module's output word.
    pub fn process_output_values(&self, values: &[ChannelValue]) -> (r: Result<Vec<u16>, Error>)
        ensures
            match r {
                Ok(v) => Self::spec_process_output_values(values.deep_view()) == Ok::<_, Error>(
                    v@,
                ),
                Err(e) => Self::spec_process_output_values(values.deep_view()) == Err::<
                    Seq<u16>,
                    Error,
                >(e),
            },
    {
        proof {
            crate::util::lemma_slice_deep_view_index(values);
        }
        if values.len() != 16 {
            return Err(Error::ChannelValue);
        }
        match digital::encode_bits(values) {
            Ok(w) => {
                let mut out: Vec<u16> = Vec::new();
                out.push(w);
                proof {
                    assert(out@ =~= seq![w]);
                }
                Ok(out)
            },
            Err(e) => Err(e),
        }
    }
}

} // verus!
