//! Thermocouple input module UR20-4AI-TC-DIAG: parsing of its configuration
//! registers. Converting raw words to temperatures is floating-point work
//! and lives outside this crate.

use vstd::prelude::*;

use crate::error::Error;
use crate::ConversionTime;
use crate::TemperatureUnit;

verus! {

/// Thermocouple type or voltage range of a channel.
#[allow(non_camel_case_types)]
#[derive(Debug, Clone, Copy, PartialEq, Eq, Structural, Hash)]
pub enum MeasurementRange {
    TC_Type_J,
    TC_Type_K,
    TC_Type_N,
    TC_Type_R,
    TC_Type_S,
    TC_Type_T,
    TC_Type_B,
    TC_Type_C,
    TC_Type_E,
    TC_Type_L,
    TC_Type_U,
    uVPlusMinus15625,
    uVPlusMinus31250,
    uVPlusMinus62500,
    mVPlusMinus125,
    mVPlusMinus250,
    mVPlusMinus500,
    VPlusMinus1,
    VPlusMinus2,
    Disabled,
}

impl MeasurementRange {
    /// The setting encoded by a parameter register.
    pub open spec fn spec_from_u16(v: u16) -> Option<MeasurementRange> {
        if v == 0 {
            Some(MeasurementRange::TC_Type_J)
        } else if v == 1 {
            Some(MeasurementRange::TC_Type_K)
        } else if v == 2 {
            Some(MeasurementRange::TC_Type_N)
        } else if v == 3 {
            Some(MeasurementRange::TC_Type_R)
        } else if v == 4 {
            Some(MeasurementRange::TC_Type_S)
        } else if v == 5 {
            Some(MeasurementRange::TC_Type_T)
        } else if v == 6 {
            Some(MeasurementRange::TC_Type_B)
        } else if v == 7 {
            Some(MeasurementRange::TC_Type_C)
        } else if v == 8 {
            Some(MeasurementRange::TC_Type_E)
        } else if v == 9 {
            Some(MeasurementRange::TC_Type_L)
        } else if v == 10 {
            Some(MeasurementRange::TC_Type_U)
        } else if v == 11 {
            Some(MeasurementRange::uVPlusMinus15625)
        } else if v == 12 {
            Some(MeasurementRange::uVPlusMinus31250)
        } else if v == 13 {
            Some(MeasurementRange::uVPlusMinus62500)
        } else if v == 14 {
            Some(MeasurementRange::mVPlusMinus125)
        } else if v == 15 {
            Some(MeasurementRange::mVPlusMinus250)
        } else if v == 16 {
            Some(MeasurementRange::mVPlusMinus500)
        } else if v == 17 {
            Some(MeasurementRange::VPlusMinus1)
        } else if v == 18 {
            Some(MeasurementRange::VPlusMinus2)
        } else if v == 19 {
            Some(MeasurementRange::Disabled)
        } else {
            None
        }
    }

    /// Decodes a parameter register.
    pub fn from_u16(v: u16) -> (r: Option<MeasurementRange>)
        ensures
            r == Self::spec_from_u16(v),
    {
        match v {
            0 => Some(MeasurementRange::TC_Type_J),
            1 => Some(MeasurementRange::TC_Type_K),
            2 => Some(MeasurementRange::TC_Type_N),
            3 => Some(MeasurementRange::TC_Type_R),
            4 => Some(MeasurementRange::TC_Type_S),
            5 => Some(MeasurementRange::TC_Type_T),
            6 => Some(MeasurementRange::TC_Type_B),
            7 => Some(MeasurementRange::TC_Type_C),
            8 => Some(MeasurementRange::TC_Type_E),
            9 => Some(MeasurementRange::TC_Type_L),
            10 => Some(MeasurementRange::TC_Type_U),
            11 => Some(MeasurementRange::uVPlusMinus15625),
            12 => Some(MeasurementRange::uVPlusMinus31250),
            13 => Some(MeasurementRange::uVPlusMinus62500),
            14 => Some(MeasurementRange::mVPlusMinus125),
            15 => Some(MeasurementRange::mVPlusMinus250),
            16 => Some(MeasurementRange::mVPlusMinus500),
            17 => Some(MeasurementRange::VPlusMinus1),
            18 => Some(MeasurementRange::VPlusMinus2),
            19 => Some(MeasurementRange::Disabled),
            _ => None,
        }
    }

    /// Encodes the setting as its parameter register value.
    pub fn to_u16(&self) -> (r: u16)
        ensures
            Self::spec_from_u16(r) == Some(*self),
    {
        match *self {
            MeasurementRange::TC_Type_J => 0,
            MeasurementRange::TC_Type_K => 1,
            MeasurementRange::TC_Type_N => 2,
            MeasurementRange::TC_Type_R => 3,
            MeasurementRange::TC_Type_S => 4,
            MeasurementRange::TC_Type_T => 5,
            MeasurementRange::TC_Type_B => 6,
            MeasurementRange::TC_Type_C => 7,
            MeasurementRange::TC_Type_E => 8,
            MeasurementRange::TC_Type_L => 9,
            MeasurementRange::TC_Type_U => 10,
            MeasurementRange::uVPlusMinus15625 => 11,
            MeasurementRange::uVPlusMinus31250 => 12,
            MeasurementRange::uVPlusMinus62500 => 13,
            MeasurementRange::mVPlusMinus125 => 14,
            MeasurementRange::mVPlusMinus250 => 15,
            MeasurementRange::mVPlusMinus500 => 16,
            MeasurementRange::VPlusMinus1 => 17,
            MeasurementRange::VPlusMinus2 => 18,
            MeasurementRange::Disabled => 19,
        }
    }
}

/// Where the cold junction of a thermocouple is measured.
#[derive(Debug, Clone, Copy, PartialEq, Eq, Structural, Hash)]
pub enum ColdJunctionCompensation {
    Internal,
    ExternalChannel0,
    ExternalChannel1,
    ExternalChannel2,
    ExternalChannel3,
}

impl ColdJunctionCompensation {
    /// The setting encoded by a parameter register.
    pub open spec fn spec_from_u16(v: u16) -> Option<ColdJunctionCompensation> {
        if v == 0 {
            Some(ColdJunctionCompensation::Internal)
        } else if v == 1 {
            Some(ColdJunctionCompensation::ExternalChannel0)
        } else if v == 2 {
            Some(ColdJunctionCompensation::ExternalChannel1)
        } else if v == 3 {
            Some(ColdJunctionCompensation::ExternalChannel2)
        } else if v == 4 {
            Some(ColdJunctionCompensation::ExternalChannel3)
        } else {
            None
        }
    }

    /// Decodes a parameter register.
    pub fn from_u16(v: u16) -> (r: Option<ColdJunctionCompensation>)
        ensures
            r == Self::spec_from_u16(v),
    {
        match v {
            0 => Some(ColdJunctionCompensation::Internal),
            1 => Some(ColdJunctionCompensation::ExternalChannel0),
            2 => Some(ColdJunctionCompensation::ExternalChannel1),
            3 => Some(ColdJunctionCompensation::ExternalChannel2),
            4 => Some(ColdJunctionCompensation::ExternalChannel3),
            _ => None,
        }
    }

    /// Encodes the setting as its parameter register value.
    pub fn to_u16(&self) -> (r: u16)
        ensures
            Self::spec_from_u16(r) == Some(*self),
    {
        match *self {
            ColdJunctionCompensation::Internal => 0,
            ColdJunctionCompensation::ExternalChannel0 => 1,
            ColdJunctionCompensation::ExternalChannel1 => 2,
            ColdJunctionCompensation::ExternalChannel2 => 3,
            ColdJunctionCompensation::ExternalChannel3 => 4,
        }
    }
}

/// Module-level parameters of the thermocouple module.
#[derive(Debug, Clone, Copy, PartialEq, Eq, Structural, Hash)]
pub struct ModuleParameters {
    /// Unit of reported temperatures.
    pub temperature_unit: TemperatureUnit,
}

/// Channel-level parameters of the thermocouple module.
#[derive(Debug, Clone, Copy, PartialEq, Eq, Structural, Hash)]
pub struct ChannelParameters {
    /// Thermocouple type or voltage range of the channel.
    pub measurement_range: MeasurementRange,
    /// Where the cold junction is measured.
    pub cold_junction_compensation: ColdJunctionCompensation,
    /// Conversion time of the channel.
    pub conversion_time: ConversionTime,
    /// Report channel diagnostics.
    pub channel_diagnostics: bool,
    /// Monitor the limit values.
    pub limit_value_monitoring: bool,
    /// Upper limit for monitoring.
    pub high_limit_value: i16,
    /// Lower limit for monitoring.
    pub low_limit_value: i16,
}

impl Default for ChannelParameters {
    /// The channel parameters as configured out of the box.
    fn default() -> (r: Self)
        ensures
            r.measurement_range == MeasurementRange::Disabled && r.cold_junction_compensation == ColdJunctionCompensation::Internal && r.conversion_time == ConversionTime::ms80 && r.channel_diagnostics == false && r.limit_value_monitoring == false && r.high_limit_value == 32767 && r.low_limit_value == -32768,
    {
        ChannelParameters {
            measurement_range: MeasurementRange::Disabled,
            cold_junction_compensation: ColdJunctionCompensation::Internal,
            conversion_time: ConversionTime::ms80,
            channel_diagnostics: false,
            limit_value_monitoring: false,
            high_limit_value: 32767,
            low_limit_value: -32768,
        }
    }
}

/// Whether any parameter register of channel `i` holds an out-of-range
/// enumerator.
pub open spec fn spec_channel_bad(data: Seq<u16>, i: int) -> bool {
    MeasurementRange::spec_from_u16(data[1 + i * 7 + 0]) is None
        || ColdJunctionCompensation::spec_from_u16(data[1 + i * 7 + 1]) is None
        || ConversionTime::spec_from_u16(data[1 + i * 7 + 2]) is None
        || data[1 + i * 7 + 3] > 1
        || data[1 + i * 7 + 4] > 1
}

/// The parse of channel `i`'s parameter registers.
pub open spec fn spec_channel(data: Seq<u16>, i: int) -> ChannelParameters
    recommends
        !spec_channel_bad(data, i),
{
    ChannelParameters {
        measurement_range: MeasurementRange::spec_from_u16(data[1 + i * 7 + 0]).unwrap(),
        cold_junction_compensation: ColdJunctionCompensation::spec_from_u16(data[1 + i * 7 + 1]).unwrap(),
        conversion_time: ConversionTime::spec_from_u16(data[1 + i * 7 + 2]).unwrap(),
        channel_diagnostics: data[1 + i * 7 + 3] == 1,
        limit_value_monitoring: data[1 + i * 7 + 4] == 1,
        high_limit_value: data[1 + i * 7 + 5] as i16,
        low_limit_value: data[1 + i * 7 + 6] as i16,
    }
}

/// The parse of the module's 29 parameter registers.
pub open spec fn spec_parameters_from_raw(data: Seq<u16>) -> Result<
    (ModuleParameters, Seq<ChannelParameters>),
    Error,
> {
    if data.len() < 29 {
        Err(Error::BufferLength)
    } else if TemperatureUnit::spec_from_u16(data[0]) is None {
        Err(Error::ChannelParameter)
    } else if exists|i: int| 0 <= i < 4 && spec_channel_bad(data, i) {
        Err(Error::ChannelParameter)
    } else {
        Ok(
            (
                ModuleParameters { temperature_unit: TemperatureUnit::spec_from_u16(data[0]).unwrap() },
                Seq::new(4, |i: int| spec_channel(data, i)),
            ),
        )
    }
}

/// Parses the module's parameter registers into module and channel
/// parameters.
pub fn parameters_from_raw_data(data: &[u16]) -> (r: Result<
    (ModuleParameters, Vec<ChannelParameters>),
    Error,
>)
    ensures
        match r {
            Ok((mp, cp)) => spec_parameters_from_raw(data@) == Ok::<_, Error>(
                (mp, cp@),
            ),
            Err(e) => spec_parameters_from_raw(data@) == Err::<
                (ModuleParameters, Seq<ChannelParameters>),
                Error,
            >(e),
        },
{
    if data.len() < 29 {
        return Err(Error::BufferLength);
    }
    let temperature_unit = match TemperatureUnit::from_u16(data[0]) {
        Some(x) => x,
        None => {
            return Err(Error::ChannelParameter);
        },
    };
    let mut params: Vec<ChannelParameters> = Vec::new();
    let mut i: usize = 0;
    while i < 4
        invariant
            data@.len() >= 29,
            i <= 4,
            params@.len() == i,
            forall|j: int| 0 <= j < i ==> !spec_channel_bad(data@, j),
            forall|j: int| 0 <= j < i ==> params@[j] == spec_channel(data@, j),
        decreases 4 - i,
    {
        let measurement_range = match MeasurementRange::from_u16(data[1 + i * 7 + 0]) {
            Some(x) => x,
            None => {
                proof {
                    assert(spec_channel_bad(data@, i as int));
                }
                return Err(Error::ChannelParameter);
            },
        };
        let cold_junction_compensation = match ColdJunctionCompensation::from_u16(data[1 + i * 7 + 1]) {
            Some(x) => x,
            None => {
                proof {
                    assert(spec_channel_bad(data@, i as int));
                }
                return Err(Error::ChannelParameter);
            },
        };
        let conversion_time = match ConversionTime::from_u16(data[1 + i * 7 + 2]) {
            Some(x) => x,
            None => {
                proof {
                    assert(spec_channel_bad(data@, i as int));
                }
                return Err(Error::ChannelParameter);
            },
        };
        if data[1 + i * 7 + 3] > 1 {
            proof {
                assert(spec_channel_bad(data@, i as int));
            }
            return Err(Error::ChannelParameter);
        }
        let channel_diagnostics = data[1 + i * 7 + 3] == 1;
        if data[1 + i * 7 + 4] > 1 {
            proof {
                assert(spec_channel_bad(data@, i as int));
            }
            return Err(Error::ChannelParameter);
        }
        let limit_value_monitoring = data[1 + i * 7 + 4] == 1;
        let high_limit_value = data[1 + i * 7 + 5] as i16;
        let low_limit_value = data[1 + i * 7 + 6] as i16;
        params.push(ChannelParameters {
            measurement_range,
            cold_junction_compensation,
            conversion_time,
            channel_diagnostics,
            limit_value_monitoring,
            high_limit_value,
            low_limit_value,
        });
        i = i + 1;
    }
    proof {
        assert(params@ =~= spec_parameters_from_raw(data@).unwrap().1);
    }
    Ok((ModuleParameters { temperature_unit }, params))
}

} // verus!
