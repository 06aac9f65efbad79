//! Digital input modules UR20-4DI-P and UR20-8DI-P-2W: their channel bits
//! share one register word; their parameters set an input delay per channel.

use vstd::prelude::*;

use crate::digital;
use crate::error::Error;
use crate::{ChannelValue, InputDelay, Module, ModuleType};

verus! {

/// Channel-level parameters of a digital input module.
#[derive(Debug, Clone, Copy, PartialEq, Eq, Structural, Hash)]
pub struct ChannelParameters {
    /// Minimal signal duration before an edge is reported.
    pub input_delay: InputDelay,
}

impl Default for ChannelParameters {
    /// The delay as configured out of the box.
    fn default() -> (r: Self)
        ensures
            r.input_delay == InputDelay::ms3,
    {
        ChannelParameters { input_delay: InputDelay::ms3 }
    }
}

/// Whether the module type is one of the digital input types this codec
/// handles.
pub open spec fn spec_is_supported(t: ModuleType) -> bool {
    t == ModuleType::UR20_4DI_P || t == ModuleType::UR20_8DI_P_2W
}

/// The parse of a digital input module's parameter registers: one input
/// delay per channel.
pub open spec fn spec_parameters_from_raw(channel_count: int, data: Seq<u16>) -> Result<
    Seq<ChannelParameters>,
    Error,
> {
    if data.len() < channel_count {
        Err(Error::BufferLength)
    } else if exists|i: int| 0 <= i < channel_count && InputDelay::spec_from_u16(data[i]) is None {
        Err(Error::ChannelParameter)
    } else {
        Ok(
            Seq::new(channel_count as nat, |i: int| ChannelParameters {
                input_delay: InputDelay::spec_from_u16(data[i]).unwrap(),
            }),
        )
    }
}

/// Parses a digital input module's parameter registers: one input delay per
/// channel of the given module type.
pub fn parameters_from_raw_data(module_type: ModuleType, data: &[u16]) -> (r: Result<
    Vec<ChannelParameters>,
    Error,
>)
    ensures
        match r {
            Ok(v) => spec_parameters_from_raw(module_type.spec_channel_count(), data@) == Ok::<
                Seq<ChannelParameters>,
                Error,
            >(v@),
            Err(e) => spec_parameters_from_raw(module_type.spec_channel_count(), data@) == Err::<
                Seq<ChannelParameters>,
                Error,
            >(e),
        },
{
    let channel_count = module_type.channel_count();
    if data.len() < channel_count {
        return Err(Error::BufferLength);
    }
    let mut params: Vec<ChannelParameters> = Vec::new();
    let mut i: usize = 0;
    while i < channel_count
        invariant
            channel_count <= data@.len(),
            channel_count == module_type.spec_channel_count(),
            i <= channel_count,
            params@.len() == i,
            forall|j: int| 0 <= j < i ==> InputDelay::spec_from_u16(data@[j]) is Some,
            forall|j: int|
                0 <= j < i ==> params@[j] == (ChannelParameters {
                    input_delay: InputDelay::spec_from_u16(data@[j]).unwrap(),
                }),
        decreases channel_count - i,
    {
        let input_delay = match InputDelay::from_u16(data[i]) {
            Some(x) => x,
            None => {
                return Err(Error::ChannelParameter);
            },
        };
        params.push(ChannelParameters { input_delay });
        i = i + 1;
    }
    proof {
        assert(params@ =~= spec_parameters_from_raw(
            module_type.spec_channel_count(),
            data@,
        ).unwrap());
    }
    Ok(params)
}

/// A digital input module: its type and its parameters, as parsed from the
/// configuration registers.
#[derive(Debug, Clone, PartialEq, Eq)]
pub struct Mod {
    /// The concrete module type; one of the digital input types.
    pub module_type: ModuleType,
    /// One parameter set per channel.
    pub ch_params: Vec<ChannelParameters>,
}

impl Module for Mod {
    open spec fn spec_module_type(&self) -> ModuleType {
        self.module_type
    }

    fn module_type(&self) -> (r: ModuleType) {
        self.module_type
    }
}

impl Mod {
    /// Builds the module from its type and parameter registers.
    pub fn from_modbus_parameter_data(module_type: ModuleType, data: &[u16]) -> (r: Result<
        Mod,
        Error,
    >)
        requires
            spec_is_supported(module_type),
        ensures
            match spec_parameters_from_raw(module_type.spec_channel_count(), data@) {
                Ok(cp) => r matches Ok(m) && m.module_type == module_type && m.ch_params@ == cp,
                Err(e) => r == Err::<Mod, Error>(e),
            },
    {
        match parameters_from_raw_data(module_type, data) {
            Ok(ch_params) => Ok(Mod { module_type, ch_params }),
            Err(e) => Err(e),
        }
    }

    /// Bytes of the module's input process-data window: one bit per channel.
    pub fn process_input_byte_count(&self) -> (r: usize)
        ensures
            r == (self.module_type.spec_channel_count() + 7) / 8,
    {
        (self.module_type.channel_count() + 7) / 8
    }

    /// Bytes of the module's output process-data window: none.
    pub fn process_output_byte_count(&self) -> (r: usize)
        ensures
            r == 0,
    {
        0
    }

    /// The decode of the module's input word into one bit value per channel.
    pub open spec fn spec_process_input_data(m: Mod, data: Seq<u16>) -> Result<
        Seq<crate::ChannelValueModel>,
        Error,
    > {
        if data.len() != 1 {
            Err(Error::BufferLength)
        } else {
            Ok(digital::spec_decode_bits(data[0], m.module_type.spec_channel_count()))
        }
    }

    /// Decodes the module's input word into one bit value per channel.
    pub fn process_input_data(&self, data: &[u16]) -> (r: Result<Vec<ChannelValue>, Error>)
        ensures
            match r {
                Ok(v) => Self::spec_process_input_data(*self, data@) == Ok::<_, Error>(
                    v.deep_view(),
                ),
                Err(e) => Self::spec_process_input_data(*self, data@) == Err::<
                    Seq<crate::ChannelValueModel>,
                    Error,
                >(e),
            },
    {
        if data.len() != 1 {
            return Err(Error::BufferLength);
        }
        Ok(digital::decode_bits(data[0], self.module_type.channel_count()))
    }

    /// The module has no output process data: only an empty buffer decodes,
    /// into one empty value per channel.
    pub open spec fn spec_process_output_data(m: Mod, data: Seq<u16>) -> Result<
        Seq<crate::ChannelValueModel>,
        Error,
    > {
        if data.len() != 0 {
            Err(Error::BufferLength)
        } else {
            Ok(digital::spec_no_values(m.module_type.spec_channel_count()))
        }
    }

    /// Decodes the module's (empty) output window.
    pub fn process_output_data(&self, data: &[u16]) -> (r: Result<Vec<ChannelValue>, Error>)
        ensures
            match r {
                Ok(v) => Self::spec_process_output_data(*self, data@) == Ok::<_, Error>(
                    v.deep_view(),
                ),
                Err(e) => Self::spec_process_output_data(*self, data@) == Err::<
                    Seq<crate::ChannelValueModel>,
                    Error,
                >(e),
            },
    {
        if data.len() != 0 {
            return Err(Error::BufferLength);
        }
        Ok(digital::no_values(self.module_type.channel_count()))
    }

    /// The module takes no output values: anything but an empty or
    /// channel-count-sized list is rejected, and nothing is encoded.
    pub open spec fn spec_process_output_values(
        m: Mod,
        values: Seq<crate::ChannelValueModel>,
    ) -> Result<Seq<u16>, Error> {
        if values.len() != 0 && values.len() != m.module_type.spec_channel_count() {
            Err(Error::ChannelValue)
        } else {
            Ok(Seq::empty())
        }
    }

    /// Encodes the module's (absent) output values.
    pub fn process_output_values(&self, values: &[ChannelValue]) -> (r: Result<Vec<u16>, Error>)
        ensures
            match r {
                Ok(v) => Self::spec_process_output_values(*self, values.deep_view()) == Ok::<
                    _,
                    Error,
                >(v@),
                Err(e) => Self::spec_process_output_values(*self, values.deep_view()) == Err::<
                    Seq<u16>,
                    Error,
                >(e),
            },
    {
        proof {
            crate::util::lemma_slice_deep_view_index(values);
        }
        if values.len() != 0 && values.len() != self.module_type.channel_count() {
            return Err(Error::ChannelValue);
        }
        let r: Vec<u16> = Vec::new();
        proof {
            assert(r@ =~= Seq::<u16>::empty());
        }
        Ok(r)
    }
}

} // verus!
