//! Digital frequency counter module UR20-2FCNT-100: decode and encode of its
//! two measurement channels. Durations are carried as plain nanosecond
//! counts.

use vstd::prelude::*;

use crate::error::Error;
use crate::ChannelValue;
use crate::InputFilter;

verus! {

/// The longest measurement cycle period the module accepts, in nanoseconds.
pub const MAX_MEASUREMENT_NANOS: u64 = 8_388_607_000;

/// Raw period values at or above this bound mean "no measurement yet".
pub const MAX_MEASUREMENT_PERIOD: u32 = 0x07FF_FFFF;

/// Decoded process input data of one counter channel.
#[derive(Debug, Clone, Copy, PartialEq, Eq)]
pub struct ProcessInput {
    /// Current period duration in nanoseconds; `None` while no full period
    /// has been measured.
    pub duration: Option<u64>,
    /// Number of rising edges within the current measurement cycle.
    pub count: u32,
    /// Measurement active.
    pub active: bool,
}

/// Measurement command.
#[derive(Debug, Clone, Copy, PartialEq, Eq, Structural, Hash)]
pub enum Command {
    /// Start the measurement.
    Start,
    /// Stop the measurement.
    Stop,
}

/// Decoded process output data of one counter channel.
#[derive(Debug, Clone, Copy, PartialEq, Eq)]
pub struct ProcessOutput {
    /// Preset value of the measurement cycle period, in nanoseconds.
    pub duration: u64,
    /// Command to start or stop the measurement.
    pub command: Option<Command>,
}

impl Default for ProcessOutput {
    /// A zero period and no command.
    fn default() -> (r: Self)
        ensures
            r.duration == 0 && r.command is None,
    {
        ProcessOutput { duration: 0, command: None }
    }
}

/// Channel-level parameters of the counter module.
#[derive(Debug, Clone, Copy, PartialEq, Eq, Structural, Hash)]
pub struct ChannelParameters {
    /// Signal filter.
    pub input_filter: InputFilter,
}

impl Default for ChannelParameters {
    /// The filter as configured out of the box.
    fn default() -> (r: Self)
        ensures
            r.input_filter == InputFilter::us5,
    {
        ChannelParameters { input_filter: InputFilter::us5 }
    }
}

/// The counter module: its parameters, as parsed from the configuration
/// registers.
#[derive(Debug, Clone, PartialEq, Eq)]
pub struct Mod {
    pub ch_params: Vec<ChannelParameters>,
}

/// The parse of the module's two parameter registers: one input filter per
/// channel.
pub open spec fn spec_parameters_from_raw(data: Seq<u16>) -> Result<
    Seq<ChannelParameters>,
    Error,
> {
    if data.len() < 2 {
        Err(Error::BufferLength)
    } else if InputFilter::spec_from_u16(data[0]) is None {
        Err(Error::ChannelParameter)
    } else if InputFilter::spec_from_u16(data[1]) is None {
        Err(Error::ChannelParameter)
    } else {
        Ok(
            seq![
                ChannelParameters { input_filter: InputFilter::spec_from_u16(data[0]).unwrap() },
                ChannelParameters { input_filter: InputFilter::spec_from_u16(data[1]).unwrap() },
            ],
        )
    }
}

/// Parses the module's two parameter registers.
pub fn parameters_from_raw_data(data: &[u16]) -> (r: Result<Vec<ChannelParameters>, Error>)
    ensures
        match r {
            Ok(v) => spec_parameters_from_raw(data@) == Ok::<Seq<ChannelParameters>, Error>(v@),
            Err(e) => spec_parameters_from_raw(data@) == Err::<Seq<ChannelParameters>, Error>(e),
        },
{
    if data.len() < 2 {
        return Err(Error::BufferLength);
    }
    let f0 = match InputFilter::from_u16(data[0]) {
        Some(x) => x,
        None => {
            return Err(Error::ChannelParameter);
        },
    };
    let f1 = match InputFilter::from_u16(data[1]) {
        Some(x) => x,
        None => {
            return Err(Error::ChannelParameter);
        },
    };
    let mut v: Vec<ChannelParameters> = Vec::new();
    v.push(ChannelParameters { input_filter: f0 });
    v.push(ChannelParameters { input_filter: f1 });
    proof {
        assert(v@ =~= spec_parameters_from_raw(data@).unwrap());
    }
    Ok(v)
}

/// The decode of one counter channel out of the module's ten input words.
pub open spec fn spec_channel_input(data: Seq<u16>, i: int) -> ProcessInput
    recommends
        data.len() == 10,
        0 <= i < 2,
{
    let raw_period = ((data[4 * i] as u32) << 16) | (data[4 * i + 1] as u32);
    ProcessInput {
        duration: if raw_period >= MAX_MEASUREMENT_PERIOD {
            None
        } else {
            Some((raw_period * 125) as u64)
        },
        count: ((data[4 * i + 2] as u32) << 16) | (data[4 * i + 3] as u32),
        active: crate::util::spec_bit16(data[8 + i], 8),
    }
}

/// The encode of one counter channel: the two period words and the control
/// word it contributes to the module's six output words.
pub open spec fn spec_channel_words(v: crate::ChannelValueModel) -> Result<(u16, u16, u16), Error> {
    match v {
        crate::ChannelValueModel::FcntOut(out) => {
            if out.duration > MAX_MEASUREMENT_NANOS {
                Err(Error::ChannelValue)
            } else {
                let micros = (out.duration / 1000) as u32;
                let control: u16 = match out.command {
                    Some(Command::Start) => 256,
                    Some(Command::Stop) => 512,
                    None => 0,
                };
                Ok((((micros >> 16) & 0xFFFF) as u16, (micros & 0xFFFF) as u16, control))
            }
        },
        crate::ChannelValueModel::Disabled => Ok((0, 0, 0)),
        _ => Err(Error::ChannelValue),
    }
}

impl crate::Module for Mod {
    open spec fn spec_module_type(&self) -> crate::ModuleType {
        crate::ModuleType::UR20_2FCNT_100
    }

    fn module_type(&self) -> (r: crate::ModuleType) {
        crate::ModuleType::UR20_2FCNT_100
    }
}

impl Mod {
    /// Builds the module from its parameter registers.
    pub fn from_modbus_parameter_data(data: &[u16]) -> (r: Result<Mod, Error>)
        ensures
            match spec_parameters_from_raw(data@) {
                Ok(cp) => r matches Ok(m) && m.ch_params@ == cp,
                Err(e) => r == Err::<Mod, Error>(e),
            },
    {
        match parameters_from_raw_data(data) {
            Ok(ch_params) => Ok(Mod { ch_params }),
            Err(e) => Err(e),
        }
    }

    /// Bytes of the module's input process-data window.
    pub fn process_input_byte_count(&self) -> (r: usize)
        ensures
            r == 20,
    {
        20
    }

    /// Bytes of the module's output process-data window.
    pub fn process_output_byte_count(&self) -> (r: usize)
        ensures
            r == 12,
    {
        12
    }

    /// The decode of the module's input window into its two channel values.
    pub open spec fn spec_process_input_data(m: Mod, data: Seq<u16>) -> Result<
        Seq<crate::ChannelValueModel>,
        Error,
    > {
        if data.len() != 10 {
            Err(Error::BufferLength)
        } else if m.ch_params@.len() != 2 {
            Err(Error::ChannelParameter)
        } else {
            Ok(
                seq![
                    crate::ChannelValueModel::FcntIn(spec_channel_input(data, 0)),
                    crate::ChannelValueModel::FcntIn(spec_channel_input(data, 1)),
                ],
            )
        }
    }

    /// Decodes the module's input window into its two channel values.
    pub fn process_input_data(&self, data: &[u16]) -> (r: Result<Vec<ChannelValue>, Error>)
        ensures
            match r {
                Ok(v) => Self::spec_process_input_data(*self, data@) == Ok::<_, Error>(
                    v.deep_view(),
                ),
                Err(e) => Self::spec_process_input_data(*self, data@) == Err::<
                    Seq<crate::ChannelValueModel>,
                    Error,
                >(e),
            },
    {
        if data.len() != 10 {
            return Err(Error::BufferLength);
        }
        if self.ch_params.len() != 2 {
            return Err(Error::ChannelParameter);
        }
        let ch0 = self.decode_input_channel(data, 0);
        let ch1 = self.decode_input_channel(data, 1);
        let mut v: Vec<ChannelValue> = Vec::new();
        v.push(ChannelValue::FcntIn(ch0));
        v.push(ChannelValue::FcntIn(ch1));
        proof {
            assert(v.deep_view() =~= Self::spec_process_input_data(*self, data@).unwrap());
        }
        Ok(v)
    }

    /// Decodes one channel out of the module's input window.
    fn decode_input_channel(&self, data: &[u16], i: usize) -> (r: ProcessInput)
        requires
            data.len() == 10,
            i < 2,
        ensures
            r == spec_channel_input(data@, i as int),
    {
        let raw_period: u32 = ((data[4 * i] as u32) << 16u32) | (data[4 * i + 1] as u32);
        let duration: Option<u64> = if raw_period >= MAX_MEASUREMENT_PERIOD {
            None
        } else {
            Some((raw_period as u64) * 125)
        };
        let count: u32 = ((data[4 * i + 2] as u32) << 16u32) | (data[4 * i + 3] as u32);
        let active = crate::util::test_bit_16(data[8 + i], 8);
        ProcessInput { duration, count, active }
    }

    /// The decode of the module's output window into its two channel values.
    pub open spec fn spec_process_output_data(data: Seq<u16>) -> Result<
        Seq<crate::ChannelValueModel>,
        Error,
    > {
        if data.len() != 6 {
            Err(Error::BufferLength)
        } else {
            Ok(
                seq![
                    crate::ChannelValueModel::FcntOut(spec_channel_output(data, 0)),
                    crate::ChannelValueModel::FcntOut(spec_channel_output(data, 1)),
                ],
            )
        }
    }

    /// Decodes the module's output window into its two channel values.
    pub fn process_output_data(&self, data: &[u16]) -> (r: Result<Vec<ChannelValue>, Error>)
        ensures
            match r {
                Ok(v) => Self::spec_process_output_data(data@) == Ok::<_, Error>(v.deep_view()),
                Err(e) => Self::spec_process_output_data(data@) == Err::<
                    Seq<crate::ChannelValueModel>,
                    Error,
                >(e),
            },
    {
        if data.len() != 6 {
            return Err(Error::BufferLength);
        }
        let ch0 = decode_output_channel(data, 0);
        let ch1 = decode_output_channel(data, 1);
        let mut v: Vec<ChannelValue> = Vec::new();
        v.push(ChannelValue::FcntOut(ch0));
        v.push(ChannelValue::FcntOut(ch1));
        proof {
            assert(v.deep_view() =~= Self::spec_process_output_data(data@).unwrap());
        }
        Ok(v)
    }

    /// The encode of the two channel values into the module's six output
    /// words.
    pub open spec fn spec_process_output_values(m: Mod, values: Seq<crate::ChannelValueModel>)
        -> Result<Seq<u16>, Error> {
        if values.len() != 2 {
            Err(Error::ChannelValue)
        } else if m.ch_params@.len() != 2 {
            Err(Error::ChannelParameter)
        } else {
            match (spec_channel_words(values[0]), spec_channel_words(values[1])) {
                (Ok((h0, l0, c0)), Ok((h1, l1, c1))) => Ok(seq![h0, l0, h1, l1, c0, c1]),
                (Err(e), _) => Err(e),
                (_, Err(e)) => Err(e),
            }
        }
    }

    /// Encodes the two channel values into the module's six output words.
    pub fn process_output_values(&self, values: &[ChannelValue]) -> (r: Result<Vec<u16>, Error>)
        ensures
            match r {
                Ok(v) => Self::spec_process_output_values(*self, values.deep_view()) == Ok::<
                    _,
                    Error,
                >(v@),
                Err(e) => Self::spec_process_output_values(*self, values.deep_view()) == Err::<
                    Seq<u16>,
                    Error,
                >(e),
            },
    {
        proof {
            crate::util::lemma_slice_deep_view_index(values);
        }
        if values.len() != 2 {
            return Err(Error::ChannelValue);
        }
        if self.ch_params.len() != 2 {
            return Err(Error::ChannelParameter);
        }
        let (h0, l0, c0) = match encode_output_channel(&values[0]) {
            Ok(t) => t,
            Err(e) => {
                return Err(e);
            },
        };
        let (h1, l1, c1) = match encode_output_channel(&values[1]) {
            Ok(t) => t,
            Err(e) => {
                return Err(e);
            },
        };
        let mut out: Vec<u16> = Vec::new();
        out.push(h0);
        out.push(l0);
        out.push(h1);
        out.push(l1);
        out.push(c0);
        out.push(c1);
        proof {
            assert(out@ =~= Self::spec_process_output_values(*self, values.deep_view()).unwrap());
        }
        Ok(out)
    }
}

/// The decode of one counter channel out of the module's six output words.
pub open spec fn spec_channel_output(data: Seq<u16>, i: int) -> ProcessOutput
    recommends
        data.len() == 6,
        0 <= i < 2,
{
    let raw_micros = ((data[2 * i] as u32) << 16) | (data[2 * i + 1] as u32);
    ProcessOutput {
        duration: ((raw_micros as int) * 1000) as u64,
        command: if crate::util::spec_bit16(data[4 + i], 8) {
            Some(Command::Start)
        } else if crate::util::spec_bit16(data[4 + i], 9) {
            Some(Command::Stop)
        } else {
            None
        },
    }
}

/// Decodes one channel out of the module's output window.
fn decode_output_channel(data: &[u16], i: usize) -> (r: ProcessOutput)
    requires
        data.len() == 6,
        i < 2,
    ensures
        r == spec_channel_output(data@, i as int),
{
    let raw_micros: u32 = ((data[2 * i] as u32) << 16u32) | (data[2 * i + 1] as u32);
    let control = data[4 + i];
    let command = if crate::util::test_bit_16(control, 8) {
        Some(Command::Start)
    } else if crate::util::test_bit_16(control, 9) {
        Some(Command::Stop)
    } else {
        None
    };
    let duration: u64 = (raw_micros as u64) * 1000;
    ProcessOutput { duration, command }
}

/// Encodes one channel value into its period and control words.
fn encode_output_channel(value: &ChannelValue) -> (r: Result<(u16, u16, u16), Error>)
    ensures
        r == spec_channel_words(value@),
{
    match value {
        ChannelValue::FcntOut(out) => {
            if out.duration > MAX_MEASUREMENT_NANOS {
                return Err(Error::ChannelValue);
            }
            let micros: u32 = (out.duration / 1000) as u32;
            let control: u16 = match out.command {
                Some(Command::Start) => 256,
                Some(Command::Stop) => 512,
                None => 0,
            };
            Ok((((micros >> 16u32) & 0xFFFF) as u16, (micros & 0xFFFF) as u16, control))
        },
        ChannelValue::Disabled => Ok((0, 0, 0)),
        _ => Err(Error::ChannelValue),
    }
}

} // verus!
