//! Digital output modules UR20-4DO-P, UR20-4DO-P-2A, UR20-8DO-P and the
//! relay module UR20-4RO-CO-255: their channel bits share one register word;
//! their parameters set a substitute value per channel.

use vstd::prelude::*;

use crate::digital;
use crate::error::Error;
use crate::{ChannelValue, Module, ModuleType};

verus! {

/// Channel-level parameters of a digital output module.
#[derive(Debug, Clone, Copy, PartialEq, Eq, Structural, Hash, Default)]
pub struct ChannelParameters {
    /// Value the channel falls back to when the bus goes silent.
    pub substitute_value: bool,
}

/// Whether the module type is one of the digital output types this codec
/// handles.
pub open spec fn spec_is_supported(t: ModuleType) -> bool {
    t == ModuleType::UR20_4DO_P || t == ModuleType::UR20_4DO_P_2A || t == ModuleType::UR20_8DO_P
        || t == ModuleType::UR20_4RO_CO_255
}

/// The parse of a digital output module's parameter registers: one
/// substitute value per channel.
pub open spec fn spec_parameters_from_raw(channel_count: int, data: Seq<u16>) -> Result<
    Seq<ChannelParameters>,
    Error,
> {
    if data.len() < channel_count {
        Err(Error::BufferLength)
    } else if exists|i: int| 0 <= i < channel_count && data[i] > 1 {
        Err(Error::ChannelParameter)
    } else {
        Ok(
            Seq::new(channel_count as nat, |i: int| ChannelParameters {
                substitute_value: data[i] == 1,
            }),
        )
    }
}

/// Parses a digital output module's parameter registers: one substitute
/// value per channel of the given module type.
pub fn parameters_from_raw_data(module_type: ModuleType, data: &[u16]) -> (r: Result<
    Vec<ChannelParameters>,
    Error,
>)
    ensures
        match r {
            Ok(v) => spec_parameters_from_raw(module_type.spec_channel_count(), data@) == Ok::<
                Seq<ChannelParameters>,
                Error,
            >(v@),
            Err(e) => spec_parameters_from_raw(module_type.spec_channel_count(), data@) == Err::<
                Seq<ChannelParameters>,
                Error,
            >(e),
        },
{
    let channel_count = module_type.channel_count();
    if data.len() < channel_count {
        return Err(Error::BufferLength);
    }
    let mut params: Vec<ChannelParameters> = Vec::new();
    let mut i: usize = 0;
    while i < channel_count
        invariant
            channel_count <= data@.len(),
            channel_count == module_type.spec_channel_count(),
            i <= channel_count,
            params@.len() == i,
            forall|j: int| 0 <= j < i ==> data@[j] <= 1,
            forall|j: int|
                0 <= j < i ==> params@[j] == (ChannelParameters {
                    substitute_value: data@[j] == 1,
                }),
        decreases channel_count - i,
    {
        if data[i] > 1 {
            return Err(Error::ChannelParameter);
        }
        params.push(ChannelParameters { substitute_value: data[i] == 1 });
        i = i + 1;
    }
    proof {
        assert(params@ =~= spec_parameters_from_raw(
            module_type.spec_channel_count(),
            data@,
        ).unwrap());
    }
    Ok(params)
}

/// A digital output module: its type and its parameters, as parsed from the
/// configuration registers.
#[derive(Debug, Clone, PartialEq, Eq)]
pub struct Mod {
    /// The concrete module type; one of the digital output types.
    pub module_type: ModuleType,
    /// One parameter set per channel.
    pub ch_params: Vec<ChannelParameters>,
}

impl Module for Mod {
    open spec fn spec_module_type(&self) -> ModuleType {
        self.module_type
    }

    fn module_type(&self) -> (r: ModuleType) {
        self.module_type
    }
}

impl Mod {
    /// Builds the module from its type and parameter registers.
    pub fn from_modbus_parameter_data(module_type: ModuleType, data: &[u16]) -> (r: Result<
        Mod,
        Error,
    >)
        requires
            spec_is_supported(module_type),
        ensures
            match spec_parameters_from_raw(module_type.spec_channel_count(), data@) {
                Ok(cp) => r matches Ok(m) && m.module_type == module_type && m.ch_params@ == cp,
                Err(e) => r == Err::<Mod, Error>(e),
            },
    {
        match parameters_from_raw_data(module_type, data) {
            Ok(ch_params) => Ok(Mod { module_type, ch_params }),
            Err(e) => Err(e),
        }
    }

    /// Bytes of the module's input process-data window: none.
    pub fn process_input_byte_count(&self) -> (r: usize)
        ensures
            r == 0,
    {
        0
    }

    /// Bytes of the module's output process-data window: one bit per channel.
    pub fn process_output_byte_count(&self) -> (r: usize)
        ensures
            r == (self.module_type.spec_channel_count() + 7) / 8,
    {
        (self.module_type.channel_count() + 7) / 8
    }

    /// The module has no input process data: only an empty buffer decodes,
    /// into one empty value per channel.
    pub open spec fn spec_process_input_data(m: Mod, data: Seq<u16>) -> Result<
        Seq<crate::ChannelValueModel>,
        Error,
    > {
        if data.len() != 0 {
            Err(Error::BufferLength)
        } else {
            Ok(digital::spec_no_values(m.module_type.spec_channel_count()))
        }
    }

    /// Decodes the module's (empty) input window.
    pub fn process_input_data(&self, data: &[u16]) -> (r: Result<Vec<ChannelValue>, Error>)
        ensures
            match r {
                Ok(v) => Self::spec_process_input_data(*self, data@) == Ok::<_, Error>(
                    v.deep_view(),
                ),
                Err(e) => Self::spec_process_input_data(*self, data@) == Err::<
                    Seq<crate::ChannelValueModel>,
                    Error,
                >(e),
            },
    {
        if data.len() != 0 {
            return Err(Error::BufferLength);
        }
        Ok(digital::no_values(self.module_type.channel_count()))
    }

    /// The decode of the module's output word into one bit value per channel.
    pub open spec fn spec_process_output_data(m: Mod, data: Seq<u16>) -> Result<
        Seq<crate::ChannelValueModel>,
        Error,
    > {
        if data.len() != 1 {
            Err(Error::BufferLength)
        } else {
            Ok(digital::spec_decode_bits(data[0], m.module_type.spec_channel_count()))
        }
    }

    /// Decodes the module's output word into one bit value per channel.
    pub fn process_output_data(&self, data: &[u16]) -> (r: Result<Vec<ChannelValue>, Error>)
        ensures
            match r {
                Ok(v) => Self::spec_process_output_data(*self, data@) == Ok::<_, Error>(
                    v.deep_view(),
                ),
                Err(e) => Self::spec_process_output_data(*self, data@) == Err::<
                    Seq<crate::ChannelValueModel>,
                    Error,
                >(e),
            },
    {
        if data.len() != 1 {
            return Err(Error::BufferLength);
        }
        Ok(digital::decode_bits(data[0], self.module_type.channel_count()))
    }

    /// The encode of one bit value per channel into the module's output word.
    pub open spec fn spec_process_output_values(
        m: Mod,
        values: Seq<crate::ChannelValueModel>,
    ) -> Result<Seq<u16>, Error> {
        if values.len() != m.module_type.spec_channel_count() {
            Err(Error::ChannelValue)
        } else {
            match digital::spec_encode_bits(values, values.len() as int) {
                Ok(w) => Ok(seq![w]),
                Err(e) => Err(e),
            }
        }
    }

    /// Encodes one bit value per channel into the module's output word.
    pub fn process_output_values(&self, values: &[ChannelValue]) -> (r: Result<Vec<u16>, Error>)
        ensures
            match r {
                Ok(v) => Self::spec_process_output_values(*self, values.deep_view()) == Ok::<
                    _,
                    Error,
                >(v@),
                Err(e) => Self::spec_process_output_values(*self, values.deep_view()) == Err::<
                    Seq<u16>,
                    Error,
                >(e),
            },
    {
        proof {
            crate::util::lemma_slice_deep_view_index(values);
        }
        if values.len() != self.module_type.channel_count() {
            return Err(Error::ChannelValue);
        }
        match digital::encode_bits(values) {
            Ok(w) => {
                let mut out: Vec<u16> = Vec::new();
                out.push(w);
                proof {
                    assert(out@ =~= seq![w]);
                }
                Ok(out)
            },
            Err(e) => Err(e),
        }
    }
}

} // verus!
