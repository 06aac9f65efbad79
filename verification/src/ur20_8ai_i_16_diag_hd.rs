//! Analog current input module UR20-8AI-I-16-DIAG-HD: parsing of its
//! configuration registers. Scaling raw words to engineering values is
//! floating-point work and lives outside this crate.

use vstd::prelude::*;

use crate::error::Error;
use crate::AnalogIRange;
use crate::DataFormat;
use crate::FrequencySuppression;

verus! {

/// Module-level parameters of the eight-channel current input module.
#[derive(Debug, Clone, Copy, PartialEq, Eq, Structural, Hash)]
pub struct ModuleParameters {
    /// Mains-frequency suppression of the converter.
    pub frequency_suppression: FrequencySuppression,
}

/// Channel-level parameters of the eight-channel current input module.
#[derive(Debug, Clone, Copy, PartialEq, Eq, Structural, Hash)]
pub struct ChannelParameters {
    /// Report channel diagnostics.
    pub channel_diagnostics: bool,
    /// Report short circuits.
    pub diag_short_circuit: bool,
    /// How raw words are scaled.
    pub data_format: DataFormat,
    /// Electrical range of the channel.
    pub measurement_range: AnalogIRange,
}

/// Whether any parameter register of channel `i` holds an out-of-range
/// enumerator.
pub open spec fn spec_channel_bad(data: Seq<u16>, i: int) -> bool {
    data[1 + i * 4 + 0] > 1
        || data[1 + i * 4 + 1] > 1
        || DataFormat::spec_from_u16(data[1 + i * 4 + 2]) is None
        || AnalogIRange::spec_from_u16(data[1 + i * 4 + 3]) is None
}

/// The parse of channel `i`'s parameter registers.
pub open spec fn spec_channel(data: Seq<u16>, i: int) -> ChannelParameters
    recommends
        !spec_channel_bad(data, i),
{
    ChannelParameters {
        channel_diagnostics: data[1 + i * 4 + 0] == 1,
        diag_short_circuit: data[1 + i * 4 + 1] == 1,
        data_format: DataFormat::spec_from_u16(data[1 + i * 4 + 2]).unwrap(),
        measurement_range: AnalogIRange::spec_from_u16(data[1 + i * 4 + 3]).unwrap(),
    }
}

/// The parse of the module's 33 parameter registers.
pub open spec fn spec_parameters_from_raw(data: Seq<u16>) -> Result<
    (ModuleParameters, Seq<ChannelParameters>),
    Error,
> {
    if data.len() < 33 {
        Err(Error::BufferLength)
    } else if FrequencySuppression::spec_from_u16(data[0]) is None {
        Err(Error::ChannelParameter)
    } else if exists|i: int| 0 <= i < 8 && spec_channel_bad(data, i) {
        Err(Error::ChannelParameter)
    } else {
        Ok(
            (
                ModuleParameters { frequency_suppression: FrequencySuppression::spec_from_u16(data[0]).unwrap() },
                Seq::new(8, |i: int| spec_channel(data, i)),
            ),
        )
    }
}

/// Parses the module's parameter registers into module and channel
/// parameters.
pub fn parameters_from_raw_data(data: &[u16]) -> (r: Result<
    (ModuleParameters, Vec<ChannelParameters>),
    Error,
>)
    ensures
        match r {
            Ok((mp, cp)) => spec_parameters_from_raw(data@) == Ok::<_, Error>(
                (mp, cp@),
            ),
            Err(e) => spec_parameters_from_raw(data@) == Err::<
                (ModuleParameters, Seq<ChannelParameters>),
                Error,
            >(e),
        },
{
    if data.len() < 33 {
        return Err(Error::BufferLength);
    }
    let frequency_suppression = match FrequencySuppression::from_u16(data[0]) {
        Some(x) => x,
        None => {
            return Err(Error::ChannelParameter);
        },
    };
    let mut params: Vec<ChannelParameters> = Vec::new();
    let mut i: usize = 0;
    while i < 8
        invariant
            data@.len() >= 33,
            i <= 8,
            params@.len() == i,
            forall|j: int| 0 <= j < i ==> !spec_channel_bad(data@, j),
            forall|j: int| 0 <= j < i ==> params@[j] == spec_channel(data@, j),
        decreases 8 - i,
    {
        if data[1 + i * 4 + 0] > 1 {
            proof {
                assert(spec_channel_bad(data@, i as int));
            }
            return Err(Error::ChannelParameter);
        }
        let channel_diagnostics = data[1 + i * 4 + 0] == 1;
        if data[1 + i * 4 + 1] > 1 {
            proof {
                assert(spec_channel_bad(data@, i as int));
            }
            return Err(Error::ChannelParameter);
        }
        let diag_short_circuit = data[1 + i * 4 + 1] == 1;
        let data_format = match DataFormat::from_u16(data[1 + i * 4 + 2]) {
            Some(x) => x,
            None => {
                proof {
                    assert(spec_channel_bad(data@, i as int));
                }
                return Err(Error::ChannelParameter);
            },
        };
        let measurement_range = match AnalogIRange::from_u16(data[1 + i * 4 + 3]) {
            Some(x) => x,
            None => {
                proof {
                    assert(spec_channel_bad(data@, i as int));
                }
                return Err(Error::ChannelParameter);
            },
        };
        params.push(ChannelParameters {
            channel_diagnostics,
            diag_short_circuit,
            data_format,
            measurement_range,
        });
        i = i + 1;
    }
    proof {
        assert(params@ =~= spec_parameters_from_raw(data@).unwrap().1);
    }
    Ok((ModuleParameters { frequency_suppression }, params))
}

} // verus!
