//! Analog voltage/current input modules UR20-4AI-UI-12 and kin: parsing of
//! their configuration registers. Scaling raw words to engineering values is
//! floating-point work and lives outside this crate.

use vstd::prelude::*;

use crate::error::Error;
use crate::DataFormat;
use crate::FrequencySuppression;
use crate::AnalogUIRange;

verus! {

/// Module-level parameters of the analog input module.
#[derive(Debug, Clone, Copy, PartialEq, Eq, Structural, Hash)]
pub struct ModuleParameters {
    /// Mains-frequency suppression of the converter.
    pub frequency_suppression: FrequencySuppression,
}

/// Channel-level parameters of the analog input module.
#[derive(Debug, Clone, Copy, PartialEq, Eq, Structural, Hash)]
pub struct ChannelParameters {
    /// How raw words are scaled.
    pub data_format: DataFormat,
    /// Electrical range of the channel.
    pub measurement_range: AnalogUIRange,
}

impl Default for ChannelParameters {
    /// The channel parameters as configured out of the box.
    fn default() -> (r: Self)
        ensures
            r.data_format == DataFormat::S7 && r.measurement_range == AnalogUIRange::Disabled,
    {
        ChannelParameters {
            data_format: DataFormat::S7,
            measurement_range: AnalogUIRange::Disabled,
        }
    }
}

/// Whether any parameter register of channel `i` holds an out-of-range
/// enumerator.
pub open spec fn spec_channel_bad(data: Seq<u16>, i: int) -> bool {
    DataFormat::spec_from_u16(data[1 + i * 2 + 0]) is None
        || AnalogUIRange::spec_from_u16(data[1 + i * 2 + 1]) is None
}

/// The parse of channel `i`'s parameter registers.
pub open spec fn spec_channel(data: Seq<u16>, i: int) -> ChannelParameters
    recommends
        !spec_channel_bad(data, i),
{
    ChannelParameters {
        data_format: DataFormat::spec_from_u16(data[1 + i * 2 + 0]).unwrap(),
        measurement_range: AnalogUIRange::spec_from_u16(data[1 + i * 2 + 1]).unwrap(),
    }
}

/// The parse of the module's 9 parameter registers.
pub open spec fn spec_parameters_from_raw(data: Seq<u16>) -> Result<
    (ModuleParameters, Seq<ChannelParameters>),
    Error,
> {
    if data.len() < 9 {
        Err(Error::BufferLength)
    } else if FrequencySuppression::spec_from_u16(data[0]) is None {
        Err(Error::ChannelParameter)
    } else if exists|i: int| 0 <= i < 4 && spec_channel_bad(data, i) {
        Err(Error::ChannelParameter)
    } else {
        Ok(
            (
                ModuleParameters { frequency_suppression: FrequencySuppression::spec_from_u16(data[0]).unwrap() },
                Seq::new(4, |i: int| spec_channel(data, i)),
            ),
        )
    }
}

/// Parses the module's parameter registers into module and channel
/// parameters.
pub fn parameters_from_raw_data(data: &[u16]) -> (r: Result<
    (ModuleParameters, Vec<ChannelParameters>),
    Error,
>)
    ensures
        match r {
            Ok((mp, cp)) => spec_parameters_from_raw(data@) == Ok::<_, Error>(
                (mp, cp@),
            ),
            Err(e) => spec_parameters_from_raw(data@) == Err::<
                (ModuleParameters, Seq<ChannelParameters>),
                Error,
            >(e),
        },
{
    if data.len() < 9 {
        return Err(Error::BufferLength);
    }
    let frequency_suppression = match FrequencySuppression::from_u16(data[0]) {
        Some(x) => x,
        None => {
            return Err(Error::ChannelParameter);
        },
    };
    let mut params: Vec<ChannelParameters> = Vec::new();
    let mut i: usize = 0;
    while i < 4
        invariant
            data@.len() >= 9,
            i <= 4,
            params@.len() == i,
            forall|j: int| 0 <= j < i ==> !spec_channel_bad(data@, j),
            forall|j: int| 0 <= j < i ==> params@[j] == spec_channel(data@, j),
        decreases 4 - i,
    {
        let data_format = match DataFormat::from_u16(data[1 + i * 2 + 0]) {
            Some(x) => x,
            None => {
                proof {
                    assert(spec_channel_bad(data@, i as int));
                }
                return Err(Error::ChannelParameter);
            },
        };
        let measurement_range = match AnalogUIRange::from_u16(data[1 + i * 2 + 1]) {
            Some(x) => x,
            None => {
                proof {
                    assert(spec_channel_bad(data@, i as int));
                }
                return Err(Error::ChannelParameter);
            },
        };
        params.push(ChannelParameters {
            data_format,
            measurement_range,
        });
        i = i + 1;
    }
    proof {
        assert(params@ =~= spec_parameters_from_raw(data@).unwrap().1);
    }
    Ok((ModuleParameters { frequency_suppression }, params))
}

} // verus!
