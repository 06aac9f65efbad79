//! Resistance thermometer input module UR20-4AI-RTD-DIAG: parsing of its
//! configuration registers. Converting raw words to temperatures is
//! floating-point work and lives outside this crate.

use vstd::prelude::*;

use crate::error::Error;
use crate::ConnectionType;
use crate::ConversionTime;
use crate::RtdRange;
use crate::TemperatureUnit;

verus! {

/// Module-level parameters of the resistance thermometer module.
#[derive(Debug, Clone, Copy, PartialEq, Eq, Structural, Hash)]
pub struct ModuleParameters {
    /// Unit of reported temperatures.
    pub temperature_unit: TemperatureUnit,
}

/// Channel-level parameters of the resistance thermometer module.
#[derive(Debug, Clone, Copy, PartialEq, Eq, Structural, Hash)]
pub struct ChannelParameters {
    /// Resistor type and range of the channel.
    pub measurement_range: RtdRange,
    /// How the resistor is wired.
    pub connection_type: ConnectionType,
    /// Conversion time of the channel.
    pub conversion_time: ConversionTime,
    /// Report channel diagnostics.
    pub channel_diagnostics: bool,
    /// Monitor the limit values.
    pub limit_value_monitoring: bool,
    /// Upper limit for monitoring.
    pub high_limit_value: i16,
    /// Lower limit for monitoring.
    pub low_limit_value: i16,
}

impl Default for ChannelParameters {
    /// The channel parameters as configured out of the box.
    fn default() -> (r: Self)
        ensures
            r.measurement_range == RtdRange::Disabled && r.connection_type == ConnectionType::TwoWire && r.conversion_time == ConversionTime::ms80 && r.channel_diagnostics == false && r.limit_value_monitoring == false && r.high_limit_value == 0 && r.low_limit_value == 0,
    {
        ChannelParameters {
            measurement_range: RtdRange::Disabled,
            connection_type: ConnectionType::TwoWire,
            conversion_time: ConversionTime::ms80,
            channel_diagnostics: false,
            limit_value_monitoring: false,
            high_limit_value: 0,
            low_limit_value: 0,
        }
    }
}

/// Whether any parameter register of channel `i` holds an out-of-range
/// enumerator.
pub open spec fn spec_channel_bad(data: Seq<u16>, i: int) -> bool {
    RtdRange::spec_from_u16(data[1 + i * 7 + 0]) is None
        || ConnectionType::spec_from_u16(data[1 + i * 7 + 1]) is None
        || ConversionTime::spec_from_u16(data[1 + i * 7 + 2]) is None
        || data[1 + i * 7 + 3] > 1
        || data[1 + i * 7 + 4] > 1
}

/// The parse of channel `i`'s parameter registers.
pub open spec fn spec_channel(data: Seq<u16>, i: int) -> ChannelParameters
    recommends
        !spec_channel_bad(data, i),
{
    ChannelParameters {
        measurement_range: RtdRange::spec_from_u16(data[1 + i * 7 + 0]).unwrap(),
        connection_type: ConnectionType::spec_from_u16(data[1 + i * 7 + 1]).unwrap(),
        conversion_time: ConversionTime::spec_from_u16(data[1 + i * 7 + 2]).unwrap(),
        channel_diagnostics: data[1 + i * 7 + 3] == 1,
        limit_value_monitoring: data[1 + i * 7 + 4] == 1,
        high_limit_value: data[1 + i * 7 + 5] as i16,
        low_limit_value: data[1 + i * 7 + 6] as i16,
    }
}

/// The parse of the module's 29 parameter registers.
pub open spec fn spec_parameters_from_raw(data: Seq<u16>) -> Result<
    (ModuleParameters, Seq<ChannelParameters>),
    Error,
> {
    if data.len() < 29 {
        Err(Error::BufferLength)
    } else if TemperatureUnit::spec_from_u16(data[0]) is None {
        Err(Error::ChannelParameter)
    } else if exists|i: int| 0 <= i < 4 && spec_channel_bad(data, i) {
        Err(Error::ChannelParameter)
    } else {
        Ok(
            (
                ModuleParameters { temperature_unit: TemperatureUnit::spec_from_u16(data[0]).unwrap() },
                Seq::new(4, |i: int| spec_channel(data, i)),
            ),
        )
    }
}

/// Parses the module's parameter registers into module and channel
/// parameters.
pub fn parameters_from_raw_data(data: &[u16]) -> (r: Result<
    (ModuleParameters, Vec<ChannelParameters>),
    Error,
>)
    ensures
        match r {
            Ok((mp, cp)) => spec_parameters_from_raw(data@) == Ok::<_, Error>(
                (mp, cp@),
            ),
            Err(e) => spec_parameters_from_raw(data@) == Err::<
                (ModuleParameters, Seq<ChannelParameters>),
                Error,
            >(e),
        },
{
    if data.len() < 29 {
        return Err(Error::BufferLength);
    }
    let temperature_unit = match TemperatureUnit::from_u16(data[0]) {
        Some(x) => x,
        None => {
            return Err(Error::ChannelParameter);
        },
    };
    let mut params: Vec<ChannelParameters> = Vec::new();
    let mut i: usize = 0;
    while i < 4
        invariant
            data@.len() >= 29,
            i <= 4,
            params@.len() == i,
            forall|j: int| 0 <= j < i ==> !spec_channel_bad(data@, j),
            forall|j: int| 0 <= j < i ==> params@[j] == spec_channel(data@, j),
        decreases 4 - i,
    {
        let measurement_range = match RtdRange::from_u16(data[1 + i * 7 + 0]) {
            Some(x) => x,
            None => {
                proof {
                    assert(spec_channel_bad(data@, i as int));
                }
                return Err(Error::ChannelParameter);
            },
        };
        let connection_type = match ConnectionType::from_u16(data[1 + i * 7 + 1]) {
            Some(x) => x,
            None => {
                proof {
                    assert(spec_channel_bad(data@, i as int));
                }
                return Err(Error::ChannelParameter);
            },
        };
        let conversion_time = match ConversionTime::from_u16(data[1 + i * 7 + 2]) {
            Some(x) => x,
            None => {
                proof {
                    assert(spec_channel_bad(data@, i as int));
                }
                return Err(Error::ChannelParameter);
            },
        };
        if data[1 + i * 7 + 3] > 1 {
            proof {
                assert(spec_channel_bad(data@, i as int));
            }
            return Err(Error::ChannelParameter);
        }
        let channel_diagnostics = data[1 + i * 7 + 3] == 1;
        if data[1 + i * 7 + 4] > 1 {
            proof {
                assert(spec_channel_bad(data@, i as int));
            }
            return Err(Error::ChannelParameter);
        }
        let limit_value_monitoring = data[1 + i * 7 + 4] == 1;
        let high_limit_value = data[1 + i * 7 + 5] as i16;
        let low_limit_value = data[1 + i * 7 + 6] as i16;
        params.push(ChannelParameters {
            measurement_range,
            connection_type,
            conversion_time,
            channel_diagnostics,
            limit_value_monitoring,
            high_limit_value,
            low_limit_value,
        });
        i = i + 1;
    }
    proof {
        assert(params@ =~= spec_parameters_from_raw(data@).unwrap().1);
    }
    Ok((ModuleParameters { temperature_unit }, params))
}

} // verus!
