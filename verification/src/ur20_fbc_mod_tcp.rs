//! Modbus TCP fieldbus coupler UR20-FBC-MOD-TCP: the packed process-image
//! mapper and the coupler that drives one full cycle over it.

use vstd::prelude::*;

use crate::error::Error;
use crate::util::{spec_shift_words, u16_to_u8, shift_data};
use crate::{
    ur20_16do_p, ur20_1com_232_485_422, ur20_2fcnt_100, ur20_di_generic, ur20_do_generic,
    Address, ChannelValue, ChannelValueModel, ModuleType,
};
use crate::digital::spec_no_values;
use crate::ur20_1com_232_485_422::{InitState, MessageProcessor, MessageProcessorModel};

verus! {

/// Base register of the packed input process image.
pub const ADDR_PACKED_PROCESS_INPUT_DATA: u16 = 0x0000;

/// Base register of the packed output process image.
pub const ADDR_PACKED_PROCESS_OUTPUT_DATA: u16 = 0x0800;

/// Register holding the length of the output process image.
pub const ADDR_PROCESS_OUTPUT_LEN: u16 = 0x1010;

/// Register holding the length of the input process image.
pub const ADDR_PROCESS_INPUT_LEN: u16 = 0x1011;

/// Base register of the coupler identification.
pub const ADDR_COUPLER_ID: u16 = 0x1000;

/// Register holding the coupler status.
pub const ADDR_COUPLER_STATUS: u16 = 0x100C;

/// Register holding the number of detected modules.
pub const ADDR_CURRENT_MODULE_COUNT: u16 = 0x27FE;

/// Base register of the detected module-type identifiers.
pub const ADDR_CURRENT_MODULE_LIST: u16 = 0x2A00;

/// Base register of the per-module process-data offset pairs.
pub const ADDR_MODULE_OFFSETS: u16 = 0x2B00;

/// Base register of the per-module configuration parameters.
pub const ADDR_MODULE_PARAMETERS: u16 = 0xC000;

/// The register part of a bit address.
pub open spec fn spec_register_of(addr: u16) -> u16 {
    addr >> 4
}

/// The bit-number part of a bit address.
pub open spec fn spec_bit_of(addr: u16) -> int {
    (addr & 0x000F) as int
}

/// Splits a bit address into a register address and a bit number.
pub fn to_register_address(addr: u16) -> (r: (u16, usize))
    ensures
        r.0 == spec_register_of(addr),
        r.1 == spec_bit_of(addr),
{
    let register = (addr & 0xFFF0) >> 4u16;
    let bit = (addr & 0x000F) as usize;
    proof {
        assert((addr & 0xFFF0) >> 4u16 == addr >> 4u16) by (bit_vector);
    }
    (register, bit)
}

/// Merges a register address and a bit number into a bit address.
pub fn to_bit_address(addr: u16, bit: usize) -> (r: u16)
    requires
        bit < 16,
    ensures
        r == ((addr << 4u16) | (bit as u16)),
{
    (addr << 4u16) | (bit as u16)
}

/// Round trip of the bit addressing: for every register below 2^12 and the
/// two legal bit numbers, merging and splitting returns the same pair.
pub proof fn lemma_bit_address_round_trip(register: u16, bit: u16)
    requires
        register < 4096,
        bit == 0 || bit == 8,
    ensures
        spec_register_of((register << 4u16) | bit) == register,
        spec_bit_of((register << 4u16) | bit) == bit,
{
    assert(register < 4096 && (bit == 0 || bit == 8) ==> ((register << 4u16) | bit) >> 4u16
        == register && (((register << 4u16) | bit) & 0x000F) == bit) by (bit_vector);
}

/// The packed process data offset addresses of a module.
#[derive(Debug, Clone, Copy, PartialEq, Eq)]
pub struct ModuleOffset {
    /// Bit address of the module's window in the input image; `None` when
    /// the module has no input process data.
    pub input: Option<u16>,
    /// Bit address of the module's window in the output image; `None` when
    /// the module has no output process data.
    pub output: Option<u16>,
}

/// The offset a register word encodes: the sentinel `0xFFFF` means absent.
pub open spec fn spec_word_to_offset(word: u16) -> Option<u16> {
    if word == 0xFFFF {
        None
    } else {
        Some(word)
    }
}

fn word_to_offset(word: u16) -> (r: Option<u16>)
    ensures
        r == spec_word_to_offset(word),
{
    if word == 0xFFFF {
        None
    } else {
        Some(word)
    }
}

/// The module offsets a flat register list encodes: pairs of output and
/// input words, one pair per module.
pub open spec fn spec_offsets_of_process_data(data: Seq<u16>) -> Seq<ModuleOffset> {
    Seq::new((data.len() / 2) as nat, |i: int| ModuleOffset {
        input: spec_word_to_offset(data[2 * i + 1]),
        output: spec_word_to_offset(data[2 * i]),
    })
}

/// Converts the register data into a list of module offsets.
pub fn offsets_of_process_data(data: &[u16]) -> (r: Vec<ModuleOffset>)
    ensures
        r@ == spec_offsets_of_process_data(data@),
{
    let mut offsets: Vec<ModuleOffset> = Vec::new();
    let mut i: usize = 0;
    while i < data.len() / 2
        invariant
            i <= data@.len() / 2,
            offsets@.len() == i,
            forall|j: int| 0 <= j < i ==> offsets@[j] == spec_offsets_of_process_data(data@)[j],
        decreases data@.len() / 2 - i,
    {
        offsets.push(
            ModuleOffset {
                input: word_to_offset(data[i * 2 + 1]),
                output: word_to_offset(data[i * 2]),
            },
        );
        i = i + 1;
    }
    proof {
        assert(offsets@ =~= spec_offsets_of_process_data(data@));
    }
    offsets
}

/// One module's codec: the closed set of module types whose process data
/// this coupler maps.
#[derive(Debug, Clone, PartialEq, Eq)]
pub enum ModuleCodec {
    /// A digital input module.
    DigitalIn(ur20_di_generic::Mod),
    /// A digital output module with per-channel parameters.
    DigitalOut(ur20_do_generic::Mod),
    /// The sixteen-channel digital output module.
    DigitalOut16(ur20_16do_p::Mod),
    /// The frequency counter module.
    FrequencyCounter(ur20_2fcnt_100::Mod),
    /// The serial communication module.
    Serial(ur20_1com_232_485_422::Mod),
}

impl ModuleCodec {
    /// The concrete module type of the codec.
    pub open spec fn spec_module_type(self) -> ModuleType {
        match self {
            ModuleCodec::DigitalIn(m) => m.module_type,
            ModuleCodec::DigitalOut(m) => m.module_type,
            ModuleCodec::DigitalOut16(_) => ModuleType::UR20_16DO_P,
            ModuleCodec::FrequencyCounter(_) => ModuleType::UR20_2FCNT_100,
            ModuleCodec::Serial(_) => ModuleType::UR20_1COM_232_485_422,
        }
    }

    /// Returns the concrete module type of the codec.
    pub fn module_type(&self) -> (r: ModuleType)
        ensures
            r == self.spec_module_type(),
    {
        match self {
            ModuleCodec::DigitalIn(m) => m.module_type,
            ModuleCodec::DigitalOut(m) => m.module_type,
            ModuleCodec::DigitalOut16(_) => ModuleType::UR20_16DO_P,
            ModuleCodec::FrequencyCounter(_) => ModuleType::UR20_2FCNT_100,
            ModuleCodec::Serial(_) => ModuleType::UR20_1COM_232_485_422,
        }
    }

    /// The number of channels of the codec's module.
    pub open spec fn spec_channel_count(self) -> int {
        self.spec_module_type().spec_channel_count()
    }

    /// Returns the number of channels of the codec's module.
    pub fn channel_count(&self) -> (r: usize)
        ensures
            r == self.spec_channel_count(),
            r <= 16,
    {
        self.module_type().channel_count()
    }

    /// Bytes of the module's window in the input process image.
    pub open spec fn spec_process_input_byte_count(self) -> int {
        match self {
            ModuleCodec::DigitalIn(m) => (m.module_type.spec_channel_count() + 7) / 8,
            ModuleCodec::DigitalOut(_) => 0,
            ModuleCodec::DigitalOut16(_) => 0,
            ModuleCodec::FrequencyCounter(_) => 20,
            ModuleCodec::Serial(m) => m.mod_params.process_data_len.spec_byte_count(),
        }
    }

    /// Returns the bytes of the module's window in the input process image.
    pub fn process_input_byte_count(&self) -> (r: usize)
        ensures
            r == self.spec_process_input_byte_count(),
            r <= 20,
    {
        match self {
            ModuleCodec::DigitalIn(m) => m.process_input_byte_count(),
            ModuleCodec::DigitalOut(m) => m.process_input_byte_count(),
            ModuleCodec::DigitalOut16(m) => m.process_input_byte_count(),
            ModuleCodec::FrequencyCounter(m) => m.process_input_byte_count(),
            ModuleCodec::Serial(m) => m.process_input_byte_count(),
        }
    }

    /// Bytes of the module's window in the output process image.
    pub open spec fn spec_process_output_byte_count(self) -> int {
        match self {
            ModuleCodec::DigitalIn(_) => 0,
            ModuleCodec::DigitalOut(m) => (m.module_type.spec_channel_count() + 7) / 8,
            ModuleCodec::DigitalOut16(_) => 2,
            ModuleCodec::FrequencyCounter(_) => 12,
            ModuleCodec::Serial(m) => m.mod_params.process_data_len.spec_byte_count(),
        }
    }

    /// Returns the bytes of the module's window in the output process image.
    pub fn process_output_byte_count(&self) -> (r: usize)
        ensures
            r == self.spec_process_output_byte_count(),
            r <= 20,
    {
        match self {
            ModuleCodec::DigitalIn(m) => m.process_output_byte_count(),
            ModuleCodec::DigitalOut(m) => m.process_output_byte_count(),
            ModuleCodec::DigitalOut16(m) => m.process_output_byte_count(),
            ModuleCodec::FrequencyCounter(m) => m.process_output_byte_count(),
            ModuleCodec::Serial(m) => m.process_output_byte_count(),
        }
    }

    /// The decode of the module's input window into one value per channel.
    pub open spec fn spec_process_input_data(self, data: Seq<u16>) -> Result<
        Seq<ChannelValueModel>,
        Error,
    > {
        match self {
            ModuleCodec::DigitalIn(m) => ur20_di_generic::Mod::spec_process_input_data(m, data),
            ModuleCodec::DigitalOut(m) => ur20_do_generic::Mod::spec_process_input_data(m, data),
            ModuleCodec::DigitalOut16(_) => ur20_16do_p::Mod::spec_process_input_data(data),
            ModuleCodec::FrequencyCounter(m) => ur20_2fcnt_100::Mod::spec_process_input_data(
                m,
                data,
            ),
            ModuleCodec::Serial(_) => ur20_1com_232_485_422::Mod::spec_process_input_data(data),
        }
    }

    /// Decodes the module's input window into one value per channel.
    pub fn process_input_data(&self, data: &[u16]) -> (r: Result<Vec<ChannelValue>, Error>)
        requires
            2 * data@.len() <= usize::MAX,
        ensures
            match r {
                Ok(v) => self.spec_process_input_data(data@) == Ok::<_, Error>(v.deep_view()),
                Err(e) => self.spec_process_input_data(data@) == Err::<
                    Seq<ChannelValueModel>,
                    Error,
                >(e),
            },
    {
        match self {
            ModuleCodec::DigitalIn(m) => m.process_input_data(data),
            ModuleCodec::DigitalOut(m) => m.process_input_data(data),
            ModuleCodec::DigitalOut16(m) => m.process_input_data(data),
            ModuleCodec::FrequencyCounter(m) => m.process_input_data(data),
            ModuleCodec::Serial(m) => m.process_input_data(data),
        }
    }

    /// The decode of the module's output window into one value per channel.
    pub open spec fn spec_process_output_data(self, data: Seq<u16>) -> Result<
        Seq<ChannelValueModel>,
        Error,
    > {
        match self {
            ModuleCodec::DigitalIn(m) => ur20_di_generic::Mod::spec_process_output_data(m, data),
            ModuleCodec::DigitalOut(m) => ur20_do_generic::Mod::spec_process_output_data(m, data),
            ModuleCodec::DigitalOut16(_) => ur20_16do_p::Mod::spec_process_output_data(data),
            ModuleCodec::FrequencyCounter(_) => ur20_2fcnt_100::Mod::spec_process_output_data(
                data,
            ),
            ModuleCodec::Serial(_) => ur20_1com_232_485_422::Mod::spec_process_output_data(data),
        }
    }

    /// Decodes the module's output window into one value per channel.
    pub fn process_output_data(&self, data: &[u16]) -> (r: Result<Vec<ChannelValue>, Error>)
        requires
            2 * data@.len() <= usize::MAX,
        ensures
            match r {
                Ok(v) => self.spec_process_output_data(data@) == Ok::<_, Error>(v.deep_view()),
                Err(e) => self.spec_process_output_data(data@) == Err::<
                    Seq<ChannelValueModel>,
                    Error,
                >(e),
            },
    {
        match self {
            ModuleCodec::DigitalIn(m) => m.process_output_data(data),
            ModuleCodec::DigitalOut(m) => m.process_output_data(data),
            ModuleCodec::DigitalOut16(m) => m.process_output_data(data),
            ModuleCodec::FrequencyCounter(m) => m.process_output_data(data),
            ModuleCodec::Serial(m) => m.process_output_data(data),
        }
    }

    /// The encode of one value per channel into the module's output window.
    pub open spec fn spec_process_output_values(self, values: Seq<ChannelValueModel>) -> Result<
        Seq<u16>,
        Error,
    > {
        match self {
            ModuleCodec::DigitalIn(m) => ur20_di_generic::Mod::spec_process_output_values(
                m,
                values,
            ),
            ModuleCodec::DigitalOut(m) => ur20_do_generic::Mod::spec_process_output_values(
                m,
                values,
            ),
            ModuleCodec::DigitalOut16(_) => ur20_16do_p::Mod::spec_process_output_values(values),
            ModuleCodec::FrequencyCounter(m) => ur20_2fcnt_100::Mod::spec_process_output_values(
                m,
                values,
            ),
            ModuleCodec::Serial(m) => ur20_1com_232_485_422::Mod::spec_process_output_values(
                m.mod_params.process_data_len,
                values,
            ),
        }
    }

    /// Encodes one value per channel into the module's output window.
    pub fn process_output_values(&self, values: &[ChannelValue]) -> (r: Result<Vec<u16>, Error>)
        ensures
            match r {
                Ok(v) => self.spec_process_output_values(values.deep_view()) == Ok::<_, Error>(
                    v@,
                ),
                Err(e) => self.spec_process_output_values(values.deep_view()) == Err::<
                    Seq<u16>,
                    Error,
                >(e),
            },
    {
        match self {
            ModuleCodec::DigitalIn(m) => m.process_output_values(values),
            ModuleCodec::DigitalOut(m) => m.process_output_values(values),
            ModuleCodec::DigitalOut16(m) => m.process_output_values(values),
            ModuleCodec::FrequencyCounter(m) => m.process_output_values(values),
            ModuleCodec::Serial(m) => m.process_output_values(values),
        }
    }
}

/// The slice of the packed image that one module reads: the window starting
/// at its offset's register, shifted down one byte when the module owns only
/// the high bytes.
pub open spec fn spec_prepare(offset: u16, base: int, byte_count: int, data: Seq<u16>) -> Result<
    Seq<u16>,
    Error,
> {
    let register = spec_register_of(offset) as int;
    let bit = spec_bit_of(offset);
    if register < base {
        Err(Error::ModuleOffset)
    } else {
        let start = register - base;
        let word_count: int = if byte_count / 2 == 0 {
            1
        } else {
            byte_count / 2
        };
        if start + word_count > data.len() {
            Err(Error::BufferLength)
        } else {
            let window = data.subrange(start, start + word_count);
            if bit == 0 {
                Ok(window)
            } else if bit == 8 {
                Ok(spec_shift_words(window))
            } else {
                Err(Error::ModuleOffset)
            }
        }
    }
}

/// Slices one module's window out of a packed image.
fn prepare_raw_data_to_process(offset: u16, addr: u16, byte_count: usize, data: &[u16]) -> (r:
    Result<Vec<u16>, Error>)
    requires
        byte_count <= 20,
    ensures
        match r {
            Ok(v) => spec_prepare(offset, addr as int, byte_count as int, data@) == Ok::<
                _,
                Error,
            >(v@) && v@.len() <= 10,
            Err(e) => spec_prepare(offset, addr as int, byte_count as int, data@) == Err::<
                Seq<u16>,
                Error,
            >(e),
        },
{
    let (start, bit) = to_register_address(offset);
    if start < addr {
        return Err(Error::ModuleOffset);
    }
    let start = (start - addr) as usize;
    let word_count = {
        let cnt = byte_count / 2;
        if cnt == 0 {
            1
        } else {
            cnt
        }
    };
    if word_count > data.len() || start > data.len() - word_count {
        return Err(Error::BufferLength);
    }
    let end = start + word_count;
    let mut window: Vec<u16> = Vec::new();
    let mut i: usize = start;
    while i < end
        invariant
            start <= i <= end <= data@.len(),
            window@ == data@.subrange(start as int, i as int),
        decreases end - i,
    {
        window.push(data[i]);
        assert(window@ =~= data@.subrange(start as int, i + 1));
        i = i + 1;
    }
    if bit == 0 {
        Ok(window)
    } else if bit == 8 {
        Ok(shift_data(&window))
    } else {
        Err(Error::ModuleOffset)
    }
}

/// The decode of one module's window out of a packed image: a module without
/// an offset on this side reads one empty value per channel.
pub open spec fn spec_decode_one(
    m: ModuleCodec,
    offset: Option<u16>,
    base: int,
    data: Seq<u16>,
    input_side: bool,
) -> Result<Seq<ChannelValueModel>, Error> {
    match offset {
        None => Ok(spec_no_values(m.spec_channel_count())),
        Some(addr) => {
            let byte_count = if input_side {
                m.spec_process_input_byte_count()
            } else {
                m.spec_process_output_byte_count()
            };
            match spec_prepare(addr, base, byte_count, data) {
                Err(e) => Err(e),
                Ok(window) => if input_side {
                    m.spec_process_input_data(window)
                } else {
                    m.spec_process_output_data(window)
                },
            }
        },
    }
}

/// The decode of the modules from position `i` on: the rows of channel
/// values of modules `i..`, or the first error.
pub open spec fn spec_decode_from(
    modules: Seq<ModuleCodec>,
    offsets: Seq<ModuleOffset>,
    base: int,
    data: Seq<u16>,
    input_side: bool,
    i: int,
) -> Result<Seq<Seq<ChannelValueModel>>, Error>
    recommends
        modules.len() == offsets.len(),
        0 <= i <= modules.len(),
    decreases modules.len() - i,
{
    if i < 0 || i >= modules.len() {
        Ok(Seq::empty())
    } else {
        let offset = if input_side {
            offsets[i].input
        } else {
            offsets[i].output
        };
        match spec_decode_one(modules[i], offset, base, data, input_side) {
            Err(e) => Err(e),
            Ok(row) => match spec_decode_from(modules, offsets, base, data, input_side, i + 1) {
                Err(e) => Err(e),
                Ok(rest) => Ok(seq![row] + rest),
            },
        }
    }
}

/// Decodes one side of the packed process image into one row of channel
/// values per module.
fn decode_image(
    modules: &Vec<ModuleCodec>,
    offsets: &Vec<ModuleOffset>,
    base: u16,
    data: &[u16],
    input_side: bool,
) -> (r: Result<Vec<Vec<ChannelValue>>, Error>)
    requires
        modules@.len() == offsets@.len(),
    ensures
        match r {
            Ok(v) => spec_decode_from(modules@, offsets@, base as int, data@, input_side, 0)
                == Ok::<_, Error>(v.deep_view()),
            Err(e) => spec_decode_from(modules@, offsets@, base as int, data@, input_side, 0)
                == Err::<Seq<Seq<ChannelValueModel>>, Error>(e),
        },
{
    let ghost full = spec_decode_from(modules@, offsets@, base as int, data@, input_side, 0);
    let mut rows: Vec<Vec<ChannelValue>> = Vec::new();
    let mut i: usize = 0;
    while i < modules.len()
        invariant
            modules@.len() == offsets@.len(),
            i <= modules@.len(),
            full == spec_decode_from(modules@, offsets@, base as int, data@, input_side, 0),
            rows.deep_view().len() == i,
            ({
                let rest = spec_decode_from(
                    modules@,
                    offsets@,
                    base as int,
                    data@,
                    input_side,
                    i as int,
                );
                match rest {
                    Ok(tail) => full == Ok::<_, Error>(rows.deep_view() + tail),
                    Err(e) => full == Err::<Seq<Seq<ChannelValueModel>>, Error>(e),
                }
            }),
        decreases modules@.len() - i,
    {
        let ghost rows_before = rows.deep_view();
        let m = &modules[i];
        let offset = if input_side {
            offsets[i].input
        } else {
            offsets[i].output
        };
        let ghost head = spec_decode_one(modules@[i as int], offset, base as int, data@, input_side);
        let row = match offset {
            None => crate::digital::no_values(m.channel_count()),
            Some(addr) => {
                let byte_count = if input_side {
                    m.process_input_byte_count()
                } else {
                    m.process_output_byte_count()
                };
                let window = match prepare_raw_data_to_process(addr, base, byte_count, data) {
                    Ok(w) => w,
                    Err(e) => {
                        return Err(e);
                    },
                };
                let decoded = if input_side {
                    m.process_input_data(&window)
                } else {
                    m.process_output_data(&window)
                };
                match decoded {
                    Ok(v) => v,
                    Err(e) => {
                        return Err(e);
                    },
                }
            },
        };
        proof {
            assert(head == Ok::<Seq<ChannelValueModel>, Error>(row.deep_view()));
        }
        rows.push(row);
        proof {
            crate::util::lemma_vec_deep_view_index(rows);
            assert(rows.deep_view() =~= rows_before.push(row.deep_view()));
            let tail_i = spec_decode_from(
                modules@,
                offsets@,
                base as int,
                data@,
                input_side,
                i as int,
            );
            let tail_next = spec_decode_from(
                modules@,
                offsets@,
                base as int,
                data@,
                input_side,
                i + 1,
            );
            if tail_next is Ok {
                assert(tail_i == Ok::<Seq<Seq<ChannelValueModel>>, Error>(seq![row.deep_view()]
                    + tail_next.unwrap()));
                assert(rows.deep_view() + tail_next.unwrap() =~= rows_before + (seq![
                    row.deep_view(),
                ] + tail_next.unwrap()));
            } else {
                assert(tail_i == tail_next);
            }
        }
        i = i + 1;
    }
    proof {
        assert(spec_decode_from(modules@, offsets@, base as int, data@, input_side, i as int)
            == Ok::<Seq<Seq<ChannelValueModel>>, Error>(Seq::empty()));
        assert(rows.deep_view() + Seq::<Seq<ChannelValueModel>>::empty() =~= rows.deep_view());
    }
    Ok(rows)
}

/// Maps the raw input image into one row of channel values per module.
pub fn process_input_data(
    modules: &Vec<ModuleCodec>,
    offsets: &Vec<ModuleOffset>,
    data: &[u16],
) -> (r: Result<Vec<Vec<ChannelValue>>, Error>)
    requires
        modules@.len() == offsets@.len(),
    ensures
        match r {
            Ok(v) => spec_decode_from(
                modules@,
                offsets@,
                ADDR_PACKED_PROCESS_INPUT_DATA as int,
                data@,
                true,
                0,
            ) == Ok::<_, Error>(v.deep_view()),
            Err(e) => spec_decode_from(
                modules@,
                offsets@,
                ADDR_PACKED_PROCESS_INPUT_DATA as int,
                data@,
                true,
                0,
            ) == Err::<Seq<Seq<ChannelValueModel>>, Error>(e),
        },
{
    decode_image(modules, offsets, ADDR_PACKED_PROCESS_INPUT_DATA, data, true)
}

/// Maps the raw output image into one row of channel values per module.
pub fn process_output_data(
    modules: &Vec<ModuleCodec>,
    offsets: &Vec<ModuleOffset>,
    data: &[u16],
) -> (r: Result<Vec<Vec<ChannelValue>>, Error>)
    requires
        modules@.len() == offsets@.len(),
    ensures
        match r {
            Ok(v) => spec_decode_from(
                modules@,
                offsets@,
                ADDR_PACKED_PROCESS_OUTPUT_DATA as int,
                data@,
                false,
                0,
            ) == Ok::<_, Error>(v.deep_view()),
            Err(e) => spec_decode_from(
                modules@,
                offsets@,
                ADDR_PACKED_PROCESS_OUTPUT_DATA as int,
                data@,
                false,
                0,
            ) == Err::<Seq<Seq<ChannelValueModel>>, Error>(e),
        },
{
    decode_image(modules, offsets, ADDR_PACKED_PROCESS_OUTPUT_DATA, data, false)
}

/// The append of one module's encoded window to the image built so far: a
/// whole-register module must start exactly at the end of the image, a
/// high-byte module must merge into the last register already there.
pub open spec fn spec_encode_append(
    offset: u16,
    encoded: Seq<u16>,
    out: Seq<u16>,
) -> Result<Seq<u16>, Error> {
    let register = spec_register_of(offset) as int;
    let bit = spec_bit_of(offset);
    if register < ADDR_PACKED_PROCESS_OUTPUT_DATA as int {
        Err(Error::ModuleOffset)
    } else {
        let start = register - ADDR_PACKED_PROCESS_OUTPUT_DATA as int;
        if bit == 0 {
            if out.len() != start {
                Err(Error::ModuleOffset)
            } else {
                Ok(out + encoded)
            }
        } else if bit == 8 {
            if out.len() != start + 1 || encoded.len() == 0 {
                Err(Error::ModuleOffset)
            } else {
                let low = out[start] & 0x00FF;
                let high = (crate::util::spec_lo(encoded[0]) as u16) << 8;
                Ok(out.update(start, high | low))
            }
        } else {
            Err(Error::ModuleOffset)
        }
    }
}

/// The encode of the modules from position `i` on, appended to the image
/// built so far; modules without an output offset contribute nothing.
pub open spec fn spec_encode_from(
    modules: Seq<ModuleCodec>,
    offsets: Seq<ModuleOffset>,
    values: Seq<Seq<ChannelValueModel>>,
    i: int,
    out: Seq<u16>,
) -> Result<Seq<u16>, Error>
    recommends
        modules.len() == offsets.len(),
        modules.len() == values.len(),
        0 <= i <= modules.len(),
    decreases modules.len() - i,
{
    if i < 0 || i >= modules.len() {
        Ok(out)
    } else {
        match offsets[i].output {
            None => spec_encode_from(modules, offsets, values, i + 1, out),
            Some(addr) => match modules[i].spec_process_output_values(values[i]) {
                Err(e) => Err(e),
                Ok(encoded) => match spec_encode_append(addr, encoded, out) {
                    Err(e) => Err(e),
                    Ok(out2) => spec_encode_from(modules, offsets, values, i + 1, out2),
                },
            },
        }
    }
}

/// The encode of all modules' values into one output image.
pub open spec fn spec_process_output_values(
    modules: Seq<ModuleCodec>,
    offsets: Seq<ModuleOffset>,
    values: Seq<Seq<ChannelValueModel>>,
) -> Result<Seq<u16>, Error> {
    if modules.len() != values.len() {
        Err(Error::ChannelValue)
    } else {
        spec_encode_from(modules, offsets, values, 0, Seq::empty())
    }
}

/// Maps one row of channel values per module into the raw output image.
/// Modules must appear in ascending, gap-free offset order; anything else
/// fails with a module-offset error.
pub fn process_output_values(
    modules: &Vec<ModuleCodec>,
    offsets: &Vec<ModuleOffset>,
    values: &Vec<Vec<ChannelValue>>,
) -> (r: Result<Vec<u16>, Error>)
    requires
        modules@.len() == offsets@.len(),
    ensures
        match r {
            Ok(v) => spec_process_output_values(modules@, offsets@, values.deep_view()) == Ok::<
                _,
                Error,
            >(v@),
            Err(e) => spec_process_output_values(modules@, offsets@, values.deep_view()) == Err::<
                Seq<u16>,
                Error,
            >(e),
        },
{
    proof {
        crate::util::lemma_vec_deep_view_index(*values);
    }
    if modules.len() != values.len() {
        return Err(Error::ChannelValue);
    }
    let ghost vs = values.deep_view();
    let ghost full = spec_encode_from(modules@, offsets@, vs, 0, Seq::empty());
    let mut out: Vec<u16> = Vec::new();
    let mut i: usize = 0;
    proof {
        assert(out@ =~= Seq::<u16>::empty());
    }
    while i < modules.len()
        invariant
            modules@.len() == offsets@.len(),
            modules@.len() == values@.len(),
            vs == values.deep_view(),
            vs.len() == values@.len(),
            forall|j: int| 0 <= j < values@.len() ==> vs[j] == values@[j].deep_view(),
            i <= modules@.len(),
            full == spec_encode_from(modules@, offsets@, vs, 0, Seq::empty()),
            full == spec_encode_from(modules@, offsets@, vs, i as int, out@),
        decreases modules@.len() - i,
    {
        match offsets[i].output {
            None => {},
            Some(addr) => {
                let encoded = match modules[i].process_output_values(&values[i]) {
                    Ok(d) => d,
                    Err(e) => {
                        return Err(e);
                    },
                };
                let (start_reg, bit) = to_register_address(addr);
                if start_reg < ADDR_PACKED_PROCESS_OUTPUT_DATA {
                    return Err(Error::ModuleOffset);
                }
                let start = (start_reg - ADDR_PACKED_PROCESS_OUTPUT_DATA) as usize;
                if bit == 0 {
                    if out.len() != start {
                        return Err(Error::ModuleOffset);
                    }
                    let mut k: usize = 0;
                    let ghost out_before = out@;
                    while k < encoded.len()
                        invariant
                            k <= encoded@.len(),
                            out@ == out_before + encoded@.take(k as int),
                        decreases encoded@.len() - k,
                    {
                        out.push(encoded[k]);
                        assert(out@ =~= out_before + encoded@.take(k + 1));
                        k = k + 1;
                    }
                    assert(out@ =~= out_before + encoded@);
                } else if bit == 8 {
                    if out.len() != start + 1 || encoded.len() == 0 {
                        return Err(Error::ModuleOffset);
                    }
                    let shared_low_byte = out[start] & 0x00FF;
                    let buf = u16_to_u8(&encoded);
                    let shared_high_byte = (buf[0] as u16) << 8u16;
                    let word = shared_high_byte | shared_low_byte;
                    crate::util::set_element(&mut out, start, word);
                } else {
                    return Err(Error::ModuleOffset);
                }
            },
        }
        i = i + 1;
    }
    Ok(out)
}

/// Out-of-order or gapped offsets make the encode fail: whenever the modules
/// before position `i` encode to an image whose length does not meet module
/// `i`'s whole-register offset exactly (or, for a high-byte module, does not
/// end right after the shared register), the whole encode fails with a
/// module-offset error.
pub proof fn lemma_encode_offset_gap_fails(
    modules: Seq<ModuleCodec>,
    offsets: Seq<ModuleOffset>,
    values: Seq<Seq<ChannelValueModel>>,
    i: int,
    out: Seq<u16>,
)
    requires
        modules.len() == offsets.len(),
        0 <= i < modules.len(),
        offsets[i].output matches Some(addr) && spec_register_of(addr)
            >= ADDR_PACKED_PROCESS_OUTPUT_DATA && ({
            let start = spec_register_of(addr) - ADDR_PACKED_PROCESS_OUTPUT_DATA;
            (spec_bit_of(addr) == 0 && out.len() != start) || (spec_bit_of(addr) == 8 && out.len()
                != start + 1)
        }),
        modules[i].spec_process_output_values(values[i]) is Ok,
    ensures
        spec_encode_from(modules, offsets, values, i, out) == Err::<Seq<u16>, Error>(
            Error::ModuleOffset,
        ),
{
}

/// The 32-bit module identification formed by register pair `i`: high word
/// first.
pub open spec fn spec_module_id(registers: Seq<u16>, i: int) -> u32 {
    (((registers[2 * i] as u32) << 16) | (registers[2 * i + 1] as u32)) as u32
}

/// The module-type list a flat register list encodes: big-endian 32-bit
/// identifiers, two registers each.
pub open spec fn spec_module_list(registers: Seq<u16>) -> Result<Seq<ModuleType>, Error> {
    if registers.len() == 0 || registers.len() % 2 != 0 {
        Err(Error::RegisterCount)
    } else if exists|i: int|
        0 <= i < registers.len() / 2 && ModuleType::spec_from_u32(spec_module_id(registers, i))
            is None {
        Err(Error::UnknownModule)
    } else {
        Ok(
            Seq::new((registers.len() / 2) as nat, |i: int| ModuleType::spec_from_u32(
                spec_module_id(registers, i),
            ).unwrap()),
        )
    }
}

/// Converts the raw coupler register data into a list of module types.
pub fn module_list_from_registers(registers: &[u16]) -> (r: Result<Vec<ModuleType>, Error>)
    ensures
        match r {
            Ok(v) => spec_module_list(registers@) == Ok::<Seq<ModuleType>, Error>(v@),
            Err(e) => spec_module_list(registers@) == Err::<Seq<ModuleType>, Error>(e),
        },
{
    if registers.len() == 0 || registers.len() % 2 != 0 {
        return Err(Error::RegisterCount);
    }
    let mut list: Vec<ModuleType> = Vec::new();
    let mut i: usize = 0;
    while i < registers.len() / 2
        invariant
            registers@.len() % 2 == 0,
            registers@.len() > 0,
            i <= registers@.len() / 2,
            list@.len() == i,
            forall|j: int|
                0 <= j < i ==> ModuleType::spec_from_u32(spec_module_id(registers@, j)) is Some,
            forall|j: int|
                0 <= j < i ==> list@[j] == ModuleType::spec_from_u32(
                    spec_module_id(registers@, j),
                ).unwrap(),
        decreases registers@.len() / 2 - i,
    {
        let hi = registers[i * 2] as u32;
        let lo = registers[i * 2 + 1] as u32;
        let id = (hi << 16u32) | lo;
        let m = match ModuleType::try_from_u32(id) {
            Ok(m) => m,
            Err(e) => {
                proof {
                    assert(ModuleType::spec_from_u32(spec_module_id(registers@, i as int))
                        is None);
                }
                return Err(e);
            },
        };
        list.push(m);
        i = i + 1;
    }
    proof {
        assert(list@ =~= spec_module_list(registers@).unwrap());
    }
    Ok(list)
}

/// Modules whose parameter block size over the register interface is known.
pub trait ModbusParameterRegisterCount {
    /// The number of parameter registers, where the driver knows it.
    spec fn spec_param_register_count(&self) -> Option<u16>;

    /// Total number of Modbus registers of module parameters.
    fn param_register_count(&self) -> (r: u16)
        requires
            self.spec_param_register_count() is Some,
        ensures
            Some(r) == self.spec_param_register_count(),
    ;
}

impl ModbusParameterRegisterCount for ModuleType {
    /// The parameter block sizes of the module types this driver knows.
    open spec fn spec_param_register_count(&self) -> Option<u16> {
        match *self {
            ModuleType::UR20_4DI_P => Some(4),
            ModuleType::UR20_4DI_P_3W => Some(4),
            ModuleType::UR20_8DI_P_2W => Some(8),
            ModuleType::UR20_8DI_P_3W => Some(8),
            ModuleType::UR20_4DO_P => Some(4),
            ModuleType::UR20_16DO_P => Some(0),
            ModuleType::UR20_4RO_CO_255 => Some(4),
            ModuleType::UR20_8AI_I_16_DIAG_HD => Some(33),
            ModuleType::UR20_4AI_UI_16_DIAG => Some(21),
            ModuleType::UR20_4AI_UI_12 => Some(9),
            ModuleType::UR20_4AO_UI_16 => Some(12),
            ModuleType::UR20_4AO_UI_16_DIAG => Some(16),
            ModuleType::UR20_4AI_RTD_DIAG => Some(29),
            ModuleType::UR20_2FCNT_100 => Some(2),
            ModuleType::UR20_1COM_232_485_422 => Some(10),
            _ => None,
        }
    }

    fn param_register_count(&self) -> (r: u16) {
        match *self {
            ModuleType::UR20_4DI_P => 4,
            ModuleType::UR20_4DI_P_3W => 4,
            ModuleType::UR20_8DI_P_2W => 8,
            ModuleType::UR20_8DI_P_3W => 8,
            ModuleType::UR20_4DO_P => 4,
            ModuleType::UR20_16DO_P => 0,
            ModuleType::UR20_4RO_CO_255 => 4,
            ModuleType::UR20_8AI_I_16_DIAG_HD => 33,
            ModuleType::UR20_4AI_UI_16_DIAG => 21,
            ModuleType::UR20_4AI_UI_12 => 9,
            ModuleType::UR20_4AO_UI_16 => 12,
            ModuleType::UR20_4AO_UI_16_DIAG => 16,
            ModuleType::UR20_4AI_RTD_DIAG => 29,
            ModuleType::UR20_2FCNT_100 => 2,
            ModuleType::UR20_1COM_232_485_422 => 10,
            _ => 0,
        }
    }
}

/// Calculates the parameter addresses and register counts of a module list:
/// one 256-register stride per module position.
pub fn param_addresses_and_register_counts(modules: &[ModuleType]) -> (r: Vec<(u16, u16)>)
    requires
        modules@.len() <= 64,
        forall|i: int|
            0 <= i < modules@.len() ==> (#[trigger] modules@[i].spec_param_register_count())
                is Some,
    ensures
        r@.len() == modules@.len(),
        forall|i: int|
            0 <= i < modules@.len() ==> #[trigger] r@[i] == (
                (ADDR_MODULE_PARAMETERS + i * 256) as u16,
                modules@[i].spec_param_register_count().unwrap(),
            ),
{
    let mut out: Vec<(u16, u16)> = Vec::new();
    let mut i: usize = 0;
    while i < modules.len()
        invariant
            modules@.len() <= 64,
            forall|k: int|
                0 <= k < modules@.len() ==> (#[trigger] modules@[k].spec_param_register_count())
                    is Some,
            i <= modules@.len(),
            out@.len() == i,
            forall|k: int|
                0 <= k < i ==> #[trigger] out@[k] == (
                    (ADDR_MODULE_PARAMETERS + k * 256) as u16,
                    modules@[k].spec_param_register_count().unwrap(),
                ),
        decreases modules@.len() - i,
    {
        let addr: u16 = ADDR_MODULE_PARAMETERS + (i as u16) * 256;
        out.push((addr, modules[i].param_register_count()));
        i = i + 1;
    }
    out
}

/// Raw configuration data to create a coupler instance.
#[derive(Debug, Clone, PartialEq, Eq)]
pub struct CouplerConfig {
    /// The detected module types, in station order.
    pub modules: Vec<ModuleType>,
    /// Register content of the module-offset table: two registers per module.
    pub offsets: Vec<u16>,
    /// Parameter registers of each module.
    pub params: Vec<Vec<u16>>,
}

impl CouplerConfig {
    /// The shape check of a configuration: one parameter block and one
    /// offset pair per module.
    pub open spec fn spec_validate(&self) -> Result<(), Error> {
        if self.modules@.len() != self.params@.len() {
            Err(Error::BufferLength)
        } else if self.modules@.len() * 2 != self.offsets@.len() {
            Err(Error::ModuleOffset)
        } else {
            Ok(())
        }
    }

    /// Checks the shape of the configuration.
    pub fn validate(&self) -> (r: Result<(), Error>)
        ensures
            r == self.spec_validate(),
    {
        if self.modules.len() != self.params.len() {
            return Err(Error::BufferLength);
        }
        let n_modules = self.modules.len();
        let n_offsets = self.offsets.len();
        if n_modules > usize::MAX / 2 {
            proof {
                assert(2 * n_modules > usize::MAX >= n_offsets);
            }
            return Err(Error::ModuleOffset);
        }
        if n_modules * 2 != n_offsets {
            return Err(Error::ModuleOffset);
        }
        Ok(())
    }
}

/// The buffered value for an address, if one is pending: the first entry
/// with that address.
pub open spec fn spec_write_lookup(
    write: Seq<(Address, ChannelValueModel)>,
    addr: Address,
) -> Option<ChannelValueModel>
    decreases write.len(),
{
    if write.len() == 0 {
        None
    } else if write[0].0 == addr {
        Some(write[0].1)
    } else {
        spec_write_lookup(write.drop_first(), addr)
    }
}

/// The buffer without the first entry for an address.
pub open spec fn spec_write_remove(
    write: Seq<(Address, ChannelValueModel)>,
    addr: Address,
) -> Seq<(Address, ChannelValueModel)>
    decreases write.len(),
{
    if write.len() == 0 {
        write
    } else if write[0].0 == addr {
        write.drop_first()
    } else {
        seq![write[0]] + spec_write_remove(write.drop_first(), addr)
    }
}

/// The buffer with the entry for an address replaced, or appended when none
/// was pending.
pub open spec fn spec_write_upsert(
    write: Seq<(Address, ChannelValueModel)>,
    addr: Address,
    value: ChannelValueModel,
) -> Seq<(Address, ChannelValueModel)>
    decreases write.len(),
{
    if write.len() == 0 {
        seq![(addr, value)]
    } else if write[0].0 == addr {
        seq![(addr, value)] + write.drop_first()
    } else {
        seq![write[0]] + spec_write_upsert(write.drop_first(), addr, value)
    }
}

/// Removes and returns the pending value for an address, if any.
fn take_write(write: &mut Vec<(Address, ChannelValue)>, addr: Address) -> (r: Option<
    ChannelValue,
>)
    ensures
        match r {
            Some(v) => spec_write_lookup(old(write).deep_view(), addr) == Some(v.deep_view()),
            None => spec_write_lookup(old(write).deep_view(), addr) is None,
        },
        final(write).deep_view() == spec_write_remove(old(write).deep_view(), addr),
{
    proof {
        crate::util::lemma_vec_deep_view_index(*write);
    }
    let mut j: usize = 0;
    while j < write.len()
        invariant
            j <= write@.len(),
            write@ == old(write)@,
            forall|k: int| 0 <= k < j ==> old(write)@[k].0 != addr,
        decreases write@.len() - j,
    {
        if write[j].0 == addr {
            let (_, v) = write.remove(j);
            proof {
                crate::util::lemma_vec_deep_view_index(*old(write));
                crate::util::lemma_vec_deep_view_index(*write);
                lemma_write_ops_at(old(write).deep_view(), addr, j as int);
                assert(write.deep_view() =~= old(write).deep_view().remove(j as int));
                assert(write.deep_view() =~= spec_write_remove(old(write).deep_view(), addr));
            }
            return Some(v);
        }
        j = j + 1;
    }
    proof {
        crate::util::lemma_vec_deep_view_index(*old(write));
        lemma_write_ops_none(old(write).deep_view(), addr);
        assert(write.deep_view() =~= old(write).deep_view());
    }
    None
}

/// When the first entry for `addr` sits at position `j`, the lookup returns
/// its value and the removal drops exactly that position.
proof fn lemma_write_ops_at(write: Seq<(Address, ChannelValueModel)>, addr: Address, j: int)
    requires
        0 <= j < write.len(),
        write[j].0 == addr,
        forall|k: int| 0 <= k < j ==> (#[trigger] write[k]).0 != addr,
    ensures
        spec_write_lookup(write, addr) == Some(write[j].1),
        spec_write_remove(write, addr) == write.remove(j),
    decreases j,
{
    if j == 0 {
        assert(spec_write_remove(write, addr) =~= write.remove(0));
    } else {
        assert(forall|k: int|
            0 <= k < j - 1 ==> (#[trigger] write.drop_first()[k]).0 == write[k + 1].0);
        lemma_write_ops_at(write.drop_first(), addr, j - 1);
        assert(spec_write_remove(write, addr) =~= write.remove(j)) by {
            assert(spec_write_remove(write, addr) == seq![write[0]] + spec_write_remove(
                write.drop_first(),
                addr,
            ));
            assert(spec_write_remove(write.drop_first(), addr) == write.drop_first().remove(
                j - 1,
            ));
            assert(seq![write[0]] + write.drop_first().remove(j - 1) =~= write.remove(j));
        }
    }
}

/// When no entry carries `addr`, the lookup misses and the removal changes
/// nothing.
proof fn lemma_write_ops_none(write: Seq<(Address, ChannelValueModel)>, addr: Address)
    requires
        forall|k: int| 0 <= k < write.len() ==> (#[trigger] write[k]).0 != addr,
    ensures
        spec_write_lookup(write, addr) is None,
        spec_write_remove(write, addr) == write,
    decreases write.len(),
{
    if write.len() > 0 {
        assert(forall|k: int|
            0 <= k < write.len() - 1 ==> (#[trigger] write.drop_first()[k]).0 == write[k + 1].0);
        lemma_write_ops_none(write.drop_first(), addr);
        assert(spec_write_remove(write, addr) =~= write);
    }
}

/// The error, if any, that building a codec for a module of type `t` from
/// its parameter registers yields; module types outside the supported set
/// are reported as unknown.
pub open spec fn spec_codec_error(t: ModuleType, params: Seq<u16>) -> Option<Error> {
    match t {
        ModuleType::UR20_4DI_P | ModuleType::UR20_8DI_P_2W => match ur20_di_generic::spec_parameters_from_raw(
            t.spec_channel_count(),
            params,
        ) {
            Ok(_) => None,
            Err(e) => Some(e),
        },
        ModuleType::UR20_4DO_P | ModuleType::UR20_4DO_P_2A | ModuleType::UR20_8DO_P
            | ModuleType::UR20_4RO_CO_255 => match ur20_do_generic::spec_parameters_from_raw(
            t.spec_channel_count(),
            params,
        ) {
            Ok(_) => None,
            Err(e) => Some(e),
        },
        ModuleType::UR20_16DO_P => if params.len() != 0 {
            Some(Error::BufferLength)
        } else {
            None
        },
        ModuleType::UR20_2FCNT_100 => match ur20_2fcnt_100::spec_parameters_from_raw(params) {
            Ok(_) => None,
            Err(e) => Some(e),
        },
        ModuleType::UR20_1COM_232_485_422 => match ur20_1com_232_485_422::spec_parameters_from_raw(
            params,
        ) {
            Ok(_) => None,
            Err(e) => Some(e),
        },
        _ => Some(Error::UnknownModule),
    }
}

/// Whether `c` is exactly the codec that a module of type `t` with the
/// given parameter registers parses to.
pub open spec fn spec_codec_matches(c: ModuleCodec, t: ModuleType, params: Seq<u16>) -> bool {
    match t {
        ModuleType::UR20_4DI_P | ModuleType::UR20_8DI_P_2W => c matches ModuleCodec::DigitalIn(m)
            && m.module_type == t && Ok::<_, Error>(m.ch_params@)
            == ur20_di_generic::spec_parameters_from_raw(t.spec_channel_count(), params),
        ModuleType::UR20_4DO_P | ModuleType::UR20_4DO_P_2A | ModuleType::UR20_8DO_P
            | ModuleType::UR20_4RO_CO_255 => c matches ModuleCodec::DigitalOut(m)
            && m.module_type == t && Ok::<_, Error>(m.ch_params@)
            == ur20_do_generic::spec_parameters_from_raw(t.spec_channel_count(), params),
        ModuleType::UR20_16DO_P => c == ModuleCodec::DigitalOut16(ur20_16do_p::Mod),
        ModuleType::UR20_2FCNT_100 => c matches ModuleCodec::FrequencyCounter(m) && Ok::<
            _,
            Error,
        >(m.ch_params@) == ur20_2fcnt_100::spec_parameters_from_raw(params),
        ModuleType::UR20_1COM_232_485_422 => c matches ModuleCodec::Serial(m) && ({
            ur20_1com_232_485_422::spec_parameters_from_raw(params) matches Ok((mp, cp))
                && m.mod_params == mp && m.ch_params@ == seq![cp]
        }),
        _ => false,
    }
}

/// The first error that building the codecs of modules `i..` yields, if any.
pub open spec fn spec_first_codec_error(cfg: CouplerConfig, i: int) -> Option<Error>
    recommends
        cfg.modules@.len() == cfg.params@.len(),
        0 <= i <= cfg.modules@.len(),
    decreases cfg.modules@.len() - i,
{
    if i < 0 || i >= cfg.modules@.len() {
        None
    } else {
        match spec_codec_error(cfg.modules@[i], cfg.params@[i]@) {
            Some(e) => Some(e),
            None => spec_first_codec_error(cfg, i + 1),
        }
    }
}

/// Mathematical model of [`Coupler`].
pub ghost struct CouplerModel {
    /// Cached decoded inputs of the most recent cycle.
    pub in_values: Seq<Seq<ChannelValueModel>>,
    /// Cached decoded outputs of the most recent cycle.
    pub out_values: Seq<Seq<ChannelValueModel>>,
    /// Buffered one-shot output writes.
    pub write: Seq<(Address, ChannelValueModel)>,
    /// One codec per module position.
    pub modules: Seq<ModuleCodec>,
    /// One offset pair per module position.
    pub offsets: Seq<ModuleOffset>,
    /// One message processor per serial module position.
    pub processors: Seq<Option<MessageProcessorModel>>,
    /// Transmit counter seen in the previous cycle.
    pub last_tx_cnt: int,
}

/// Modbus TCP coupler: owns the module codecs, the offset table, the pending
/// writes and the per-module message processors, and drives one full cycle.
#[derive(Debug)]
pub struct Coupler {
    /// Cached decoded inputs of the most recent cycle.
    in_values: Vec<Vec<ChannelValue>>,
    /// Cached decoded outputs of the most recent cycle.
    out_values: Vec<Vec<ChannelValue>>,
    /// Buffered one-shot output writes.
    write: Vec<(Address, ChannelValue)>,
    /// One codec per module position.
    modules: Vec<ModuleCodec>,
    /// One offset pair per module position.
    offsets: Vec<ModuleOffset>,
    /// One message processor per serial module position.
    processors: Vec<Option<MessageProcessor>>,
    /// Transmit counter seen in the previous cycle.
    last_tx_cnt: usize,
}

impl View for Coupler {
    type V = CouplerModel;

    closed spec fn view(&self) -> CouplerModel {
        CouplerModel {
            in_values: self.in_values.deep_view(),
            out_values: self.out_values.deep_view(),
            write: self.write.deep_view(),
            modules: self.modules@,
            offsets: self.offsets@,
            processors: self.processors.deep_view(),
            last_tx_cnt: self.last_tx_cnt as int,
        }
    }
}

impl Coupler {
    /// Structural soundness of a coupler: offsets and processors are
    /// index-aligned with the modules, and exactly the serial modules carry
    /// a processor.
    pub open spec fn wf(&self) -> bool {
        &&& self@.offsets.len() == self@.modules.len()
        &&& self@.processors.len() == self@.modules.len()
        &&& forall|i: int|
            0 <= i < self@.modules.len() ==> ((#[trigger] self@.processors[i]) is Some <==> self@.modules[i] is Serial)
    }

    /// Builds a coupler from its configuration: the offset table is decoded,
    /// one codec is built per module from its parameter registers, and each
    /// serial module gets a message processor ready for its initialization
    /// handshake.
    pub fn new(cfg: &CouplerConfig) -> (r: Result<Coupler, Error>)
        ensures
            match cfg.spec_validate() {
                Err(e) => r == Err::<Coupler, Error>(e),
                Ok(_) => match spec_first_codec_error(*cfg, 0) {
                    Some(e) => r == Err::<Coupler, Error>(e),
                    None => r matches Ok(c) && {
                        &&& c.wf()
                        &&& c@.modules.len() == cfg.modules@.len()
                        &&& forall|i: int|
                            0 <= i < cfg.modules@.len() ==> spec_codec_matches(
                                #[trigger] c@.modules[i],
                                cfg.modules@[i],
                                cfg.params@[i]@,
                            )
                        &&& c@.offsets == spec_offsets_of_process_data(cfg.offsets@)
                        &&& forall|i: int|
                            0 <= i < cfg.modules@.len() ==> ((#[trigger] c@.processors[i])
                                matches Some(p) ==> p == (MessageProcessorModel {
                                init_state: InitState::ClearBuffers,
                                last_rx_cnt: 0,
                                in_data: Seq::empty(),
                                out_data: Seq::empty(),
                                process_data_len: ur20_1com_232_485_422::spec_parameters_from_raw(
                                    cfg.params@[i]@,
                                ).unwrap().0.process_data_len,
                            }))
                        &&& c@.in_values == Seq::<Seq<ChannelValueModel>>::empty()
                        &&& c@.out_values == Seq::<Seq<ChannelValueModel>>::empty()
                        &&& c@.write == Seq::<(Address, ChannelValueModel)>::empty()
                        &&& c@.last_tx_cnt == 0
                    },
                },
            },
    {
        match cfg.validate() {
            Ok(_) => {},
            Err(e) => {
                return Err(e);
            },
        }
        let offsets = offsets_of_process_data(&cfg.offsets);
        let mut modules: Vec<ModuleCodec> = Vec::new();
        let mut processors: Vec<Option<MessageProcessor>> = Vec::new();
        let mut i: usize = 0;
        while i < cfg.modules.len()
            invariant
                cfg.spec_validate() == Ok::<(), Error>(()),
                cfg.modules@.len() == cfg.params@.len(),
                i <= cfg.modules@.len(),
                modules@.len() == i,
                processors.deep_view().len() == i,
                processors@.len() == i,
                forall|j: int|
                    0 <= j < i ==> spec_codec_error(cfg.modules@[j], cfg.params@[j]@) is None,
                forall|j: int|
                    0 <= j < i ==> spec_codec_matches(
                        #[trigger] modules@[j],
                        cfg.modules@[j],
                        cfg.params@[j]@,
                    ),
                forall|j: int|
                    0 <= j < i ==> ((#[trigger] processors.deep_view()[j]) is Some <==> modules@[j] is Serial),
                forall|j: int|
                    0 <= j < i ==> ((#[trigger] processors.deep_view()[j]) matches Some(p) ==> p
                        == (MessageProcessorModel {
                        init_state: InitState::ClearBuffers,
                        last_rx_cnt: 0,
                        in_data: Seq::empty(),
                        out_data: Seq::empty(),
                        process_data_len: ur20_1com_232_485_422::spec_parameters_from_raw(
                            cfg.params@[j]@,
                        ).unwrap().0.process_data_len,
                    })),
            decreases cfg.modules@.len() - i,
        {
            let t = cfg.modules[i];
            let param_data: &Vec<u16> = &cfg.params[i];
            let built: Result<(ModuleCodec, Option<MessageProcessor>), Error> = match t {
                ModuleType::UR20_4DI_P | ModuleType::UR20_8DI_P_2W => {
                    match ur20_di_generic::Mod::from_modbus_parameter_data(t, param_data) {
                        Ok(m) => Ok((ModuleCodec::DigitalIn(m), None)),
                        Err(e) => Err(e),
                    }
                },
                ModuleType::UR20_4DO_P
                | ModuleType::UR20_4DO_P_2A
                | ModuleType::UR20_8DO_P
                | ModuleType::UR20_4RO_CO_255 => {
                    match ur20_do_generic::Mod::from_modbus_parameter_data(t, param_data) {
                        Ok(m) => Ok((ModuleCodec::DigitalOut(m), None)),
                        Err(e) => Err(e),
                    }
                },
                ModuleType::UR20_16DO_P => {
                    match ur20_16do_p::Mod::from_modbus_parameter_data(param_data) {
                        Ok(m) => Ok((ModuleCodec::DigitalOut16(m), None)),
                        Err(e) => Err(e),
                    }
                },
                ModuleType::UR20_2FCNT_100 => {
                    match ur20_2fcnt_100::Mod::from_modbus_parameter_data(param_data) {
                        Ok(m) => Ok((ModuleCodec::FrequencyCounter(m), None)),
                        Err(e) => Err(e),
                    }
                },
                ModuleType::UR20_1COM_232_485_422 => {
                    match ur20_1com_232_485_422::Mod::from_modbus_parameter_data(param_data) {
                        Ok(m) => {
                            let processor = MessageProcessor::new(
                                m.mod_params.process_data_len,
                            );
                            Ok((ModuleCodec::Serial(m), Some(processor)))
                        },
                        Err(e) => Err(e),
                    }
                },
                _ => Err(Error::UnknownModule),
            };
            match built {
                Ok((codec, proc)) => {
                    modules.push(codec);
                    crate::util::push_deep(&mut processors, proc);
                },
                Err(e) => {
                    proof {
                        lemma_first_codec_error_at(*cfg, i as int, e);
                    }
                    return Err(e);
                },
            }
            i = i + 1;
        }
        proof {
            lemma_no_codec_error(*cfg, i as int);
        }
        let coupler = Coupler {
            in_values: Vec::new(),
            out_values: Vec::new(),
            write: Vec::new(),
            last_tx_cnt: 0,
            modules,
            offsets,
            processors,
        };
        proof {
            assert(coupler.in_values.deep_view() =~= Seq::<Seq<ChannelValueModel>>::empty());
            assert(coupler.out_values.deep_view() =~= Seq::<Seq<ChannelValueModel>>::empty());
            assert(coupler.write.deep_view() =~= Seq::<(Address, ChannelValueModel)>::empty());
        }
        Ok(coupler)
    }

    /// The number of modules the coupler drives.
    pub fn module_count(&self) -> (r: usize)
        ensures
            r == self@.modules.len(),
    {
        self.modules.len()
    }

    /// The number of buffered one-shot writes not yet applied.
    pub fn pending_write_count(&self) -> (r: usize)
        ensures
            r == self@.write.len(),
    {
        proof {
            crate::util::lemma_vec_deep_view_index(self.write);
        }
        self.write.len()
    }

    /// Returns the decoded input values of the most recent cycle.
    pub fn inputs(&self) -> (r: &Vec<Vec<ChannelValue>>)
        ensures
            r.deep_view() == self@.in_values,
    {
        &self.in_values
    }

    /// Returns the decoded output values of the most recent cycle.
    pub fn outputs(&self) -> (r: &Vec<Vec<ChannelValue>>)
        ensures
            r.deep_view() == self@.out_values,
    {
        &self.out_values
    }

    /// Whether an address names an existing channel.
    pub open spec fn spec_is_valid_addr(c: CouplerModel, addr: Address) -> bool {
        addr.module < c.modules.len() && addr.channel < c.modules[
            addr.module as int
        ].spec_channel_count()
    }

    fn is_valid_addr(&self, addr: &Address) -> (r: bool)
        ensures
            r == Self::spec_is_valid_addr(self@, *addr),
    {
        addr.module < self.modules.len() && addr.channel < self.modules[
            addr.module
        ].channel_count()
    }

    /// Buffers a one-shot output value for a channel; it is applied and
    /// consumed by the next cycle, and a second write to the same address
    /// before that overwrites the first.
    pub fn set_output(&mut self, addr: &Address, value: ChannelValue) -> (r: Result<(), Error>)
        ensures
            !Self::spec_is_valid_addr(old(self)@, *addr) ==> r == Err::<(), Error>(
                Error::Address,
            ) && final(self)@ == old(self)@,
            Self::spec_is_valid_addr(old(self)@, *addr) ==> r == Ok::<(), Error>(())
                && final(self)@ == (CouplerModel {
                write: spec_write_upsert(old(self)@.write, *addr, value@),
                ..old(self)@
            }),
    {
        if !self.is_valid_addr(addr) {
            return Err(Error::Address);
        }
        proof {
            crate::util::lemma_vec_deep_view_index(self.write);
        }
        let mut j: usize = 0;
        while j < self.write.len()
            invariant
                j <= self.write@.len(),
                *self == *old(self),
                Self::spec_is_valid_addr(old(self)@, *addr),
                forall|k: int| 0 <= k < j ==> old(self).write@[k].0 != addr,
            decreases self.write@.len() - j,
        {
            if self.write[j].0 == *addr {
                proof {
                    crate::util::lemma_vec_deep_view_index(self.write);
                }
                crate::util::set_element(&mut self.write, j, (*addr, value));
                proof {
                    crate::util::lemma_vec_deep_view_index(self.write);
                    lemma_write_upsert_at(old(self).write.deep_view(), *addr, value@, j as int);
                    assert(self.write.deep_view() =~= old(self).write.deep_view().update(
                        j as int,
                        (*addr, value@),
                    ));
                    assert(self.write.deep_view() =~= spec_write_upsert(
                        old(self).write.deep_view(),
                        *addr,
                        value@,
                    ));
                }
                return Ok(());
            }
            j = j + 1;
        }
        crate::util::push_deep(&mut self.write, (*addr, value));
        proof {
            lemma_write_upsert_none(old(self).write.deep_view(), *addr, value@);
        }
        Ok(())
    }
}

impl Coupler {
    /// Drains and returns the byte stream reassembled by the named module's
    /// message processor; `None` when that module has no processor. The
    /// returned bytes may be empty when nothing arrived since the last read.
    pub fn reader(&mut self, module_nr: usize) -> (r: Option<Vec<u8>>)
        ensures
            (module_nr >= old(self)@.processors.len() || old(self)@.processors[
                module_nr as int
            ] is None) ==> r is None && final(self)@ == old(self)@,
            module_nr < old(self)@.processors.len() ==> ((old(self)@.processors[
                module_nr as int
            ]) matches Some(p) ==> (r matches Some(v) && v@ == p.in_data && final(self)@
                == (CouplerModel {
                processors: old(self)@.processors.update(
                    module_nr as int,
                    Some(MessageProcessorModel { in_data: Seq::empty(), ..p }),
                ),
                ..old(self)@
            }))),
    {
        proof {
            crate::util::lemma_vec_deep_view_index(self.processors);
        }
        if module_nr >= self.processors.len() {
            return None;
        }
        let slot = self.processors.remove(module_nr);
        match slot {
            Some(mut p) => {
                let drained = match p.read() {
                    Some(v) => v,
                    None => Vec::new(),
                };
                self.processors.insert(module_nr, Some(p));
                proof {
                    crate::util::lemma_vec_deep_view_index(self.processors);
                    assert(self.processors.deep_view() =~= old(self)@.processors.update(
                        module_nr as int,
                        self.processors@[module_nr as int].deep_view(),
                    ));
                }
                Some(drained)
            },
            None => {
                self.processors.insert(module_nr, None);
                proof {
                    assert(self.processors@ =~= old(self).processors@);
                    crate::util::lemma_vec_deep_view_index(self.processors);
                    assert(self.processors.deep_view() =~= old(self)@.processors);
                }
                None
            },
        }
    }

    /// Hands a byte stream to the named module's message processor, which
    /// chunks and queues it for transmission; returns whether that module
    /// has a processor.
    pub fn writer(&mut self, module_nr: usize, data: &[u8]) -> (r: bool)
        ensures
            (module_nr >= old(self)@.processors.len() || old(self)@.processors[
                module_nr as int
            ] is None) ==> !r && final(self)@ == old(self)@,
            module_nr < old(self)@.processors.len() ==> ((old(self)@.processors[
                module_nr as int
            ]) matches Some(p) ==> (r && final(self)@ == (CouplerModel {
                processors: old(self)@.processors.update(
                    module_nr as int,
                    Some(
                        MessageProcessorModel {
                            out_data: p.out_data + crate::ur20_1com_232_485_422::spec_chunks(
                                data@,
                                p.process_data_len.spec_user_data_len(),
                            ),
                            ..p
                        },
                    ),
                ),
                ..old(self)@
            }))),
    {
        proof {
            crate::util::lemma_vec_deep_view_index(self.processors);
        }
        if module_nr >= self.processors.len() {
            return false;
        }
        let slot = self.processors.remove(module_nr);
        match slot {
            Some(mut p) => {
                p.write(data);
                self.processors.insert(module_nr, Some(p));
                proof {
                    crate::util::lemma_vec_deep_view_index(self.processors);
                    assert(self.processors.deep_view() =~= old(self)@.processors.update(
                        module_nr as int,
                        self.processors@[module_nr as int].deep_view(),
                    ));
                }
                true
            },
            None => {
                self.processors.insert(module_nr, None);
                proof {
                    assert(self.processors@ =~= old(self).processors@);
                    crate::util::lemma_vec_deep_view_index(self.processors);
                    assert(self.processors.deep_view() =~= old(self)@.processors);
                }
                false
            },
        }
    }
}

/// When the first entry for `addr` sits at position `j`, the upsert replaces
/// exactly that position.
proof fn lemma_write_upsert_at(
    write: Seq<(Address, ChannelValueModel)>,
    addr: Address,
    value: ChannelValueModel,
    j: int,
)
    requires
        0 <= j < write.len(),
        write[j].0 == addr,
        forall|k: int| 0 <= k < j ==> (#[trigger] write[k]).0 != addr,
    ensures
        spec_write_upsert(write, addr, value) == write.update(j, (addr, value)),
    decreases j,
{
    if j == 0 {
        assert(spec_write_upsert(write, addr, value) =~= write.update(0, (addr, value)));
    } else {
        assert(forall|k: int|
            0 <= k < j - 1 ==> (#[trigger] write.drop_first()[k]).0 == write[k + 1].0);
        lemma_write_upsert_at(write.drop_first(), addr, value, j - 1);
        assert(seq![write[0]] + write.drop_first().update(j - 1, (addr, value)) =~= write.update(
            j,
            (addr, value),
        ));
    }
}

/// When no entry carries `addr`, the upsert appends.
proof fn lemma_write_upsert_none(
    write: Seq<(Address, ChannelValueModel)>,
    addr: Address,
    value: ChannelValueModel,
)
    requires
        forall|k: int| 0 <= k < write.len() ==> (#[trigger] write[k]).0 != addr,
    ensures
        spec_write_upsert(write, addr, value) == write.push((addr, value)),
    decreases write.len(),
{
    if write.len() == 0 {
        assert(spec_write_upsert(write, addr, value) =~= write.push((addr, value)));
    } else {
        assert(forall|k: int|
            0 <= k < write.len() - 1 ==> (#[trigger] write.drop_first()[k]).0 == write[k + 1].0);
        lemma_write_upsert_none(write.drop_first(), addr, value);
        assert(spec_write_upsert(write, addr, value) =~= write.push((addr, value)));
    }
}

/// A failing codec build at position `i`, after sound builds before it, is
/// the first codec error.
proof fn lemma_first_codec_error_at(cfg: CouplerConfig, i: int, e: Error)
    requires
        0 <= i < cfg.modules@.len(),
        spec_codec_error(cfg.modules@[i], cfg.params@[i]@) == Some(e),
        forall|j: int|
            0 <= j < i ==> spec_codec_error(cfg.modules@[j], (#[trigger] cfg.params@[j])@)
                is None,
    ensures
        spec_first_codec_error(cfg, 0) == Some(e),
    decreases i,
{
    lemma_first_codec_error_from(cfg, 0, i, e);
}

proof fn lemma_first_codec_error_from(cfg: CouplerConfig, k: int, i: int, e: Error)
    requires
        0 <= k <= i < cfg.modules@.len(),
        spec_codec_error(cfg.modules@[i], cfg.params@[i]@) == Some(e),
        forall|j: int|
            k <= j < i ==> spec_codec_error(cfg.modules@[j], (#[trigger] cfg.params@[j])@)
                is None,
    ensures
        spec_first_codec_error(cfg, k) == Some(e),
    decreases i - k,
{
    if k < i {
        lemma_first_codec_error_from(cfg, k + 1, i, e);
    }
}

/// Sound codec builds everywhere mean no first codec error.
proof fn lemma_no_codec_error(cfg: CouplerConfig, n: int)
    requires
        n == cfg.modules@.len(),
        forall|j: int|
            0 <= j < n ==> spec_codec_error(cfg.modules@[j], (#[trigger] cfg.params@[j])@)
                is None,
    ensures
        spec_first_codec_error(cfg, 0) is None,
{
    lemma_no_codec_error_from(cfg, 0, n);
}

proof fn lemma_no_codec_error_from(cfg: CouplerConfig, k: int, n: int)
    requires
        0 <= k <= n,
        n == cfg.modules@.len(),
        forall|j: int|
            k <= j < n ==> spec_codec_error(cfg.modules@[j], (#[trigger] cfg.params@[j])@)
                is None,
    ensures
        spec_first_codec_error(cfg, k) is None,
    decreases n - k,
{
    if k < n {
        lemma_no_codec_error_from(cfg, k + 1, n);
    }
}

/// The working state of one cycle, as it walks over the modules: the decoded
/// rows, the row being prepared for re-encoding, the pending writes, the
/// processors and the transmit-counter edge detector.
pub ghost struct CycleState {
    pub in_vals: Seq<Seq<ChannelValueModel>>,
    pub out_vals: Seq<Seq<ChannelValueModel>>,
    pub next_out: Seq<Seq<ChannelValueModel>>,
    pub write: Seq<(Address, ChannelValueModel)>,
    pub procs: Seq<Option<MessageProcessorModel>>,
    pub last_tx: int,
}

/// The pending writes for channels `0..ch` of module `m` applied to a row:
/// each buffered value overwrites its channel and leaves the buffer.
pub open spec fn spec_apply_writes_row(
    write: Seq<(Address, ChannelValueModel)>,
    m: int,
    row: Seq<ChannelValueModel>,
    ch: int,
) -> (Seq<ChannelValueModel>, Seq<(Address, ChannelValueModel)>)
    decreases ch,
{
    if ch <= 0 {
        (row, write)
    } else {
        let prev = spec_apply_writes_row(write, m, row, ch - 1);
        let addr = Address { module: m as usize, channel: (ch - 1) as usize };
        match spec_write_lookup(prev.1, addr) {
            Some(v) => (prev.0.update(ch - 1, v), spec_write_remove(prev.1, addr)),
            None => (prev.0, spec_write_remove(prev.1, addr)),
        }
    }
}

/// One module's share of the cycle. A module with a processor whose decoded
/// channel 0 carries the tunnel frames: the output cache gets the frame's
/// payload when a new transmission is detected, a pending write for channel
/// 0 feeds the processor's queue, the processor steps, its new frame
/// replaces the row to encode, and the input cache gets the inbound payload
/// when one was delivered. Any other module: pending writes overwrite its
/// output channels.
pub open spec fn spec_cycle_step(st: CycleState, m: int) -> CycleState
    recommends
        0 <= m < st.procs.len(),
{
    match st.procs[m] {
        Some(p) => {
            if st.in_vals[m].len() > 0 && st.out_vals[m].len() > 0 && st.next_out[m].len() > 0
                && st.in_vals[m][0] is ComRsIn && st.next_out[m][0] is ComRsOut {
                let in_f = st.in_vals[m][0]->ComRsIn_0;
                let out_f = st.next_out[m][0]->ComRsOut_0;
                let out_cache = if out_f.data.len() > 0 && out_f.tx_cnt != st.last_tx {
                    ChannelValueModel::Bytes(out_f.data)
                } else {
                    ChannelValueModel::NoValue
                };
                let addr = Address { module: m as usize, channel: 0 };
                let w = spec_write_lookup(st.write, addr);
                let write2 = spec_write_remove(st.write, addr);
                let p1 = match w {
                    Some(ChannelValueModel::Bytes(d)) => MessageProcessorModel {
                        out_data: p.out_data + crate::ur20_1com_232_485_422::spec_chunks(
                            d,
                            p.process_data_len.spec_user_data_len(),
                        ),
                        ..p
                    },
                    _ => p,
                };
                let stepped = MessageProcessor::spec_next(p1, in_f, out_f);
                let in_cache = if in_f.data_available && in_f.data.len() > 0 {
                    ChannelValueModel::Bytes(in_f.data)
                } else {
                    ChannelValueModel::NoValue
                };
                CycleState {
                    in_vals: st.in_vals.update(m, st.in_vals[m].update(0, in_cache)),
                    out_vals: st.out_vals.update(m, st.out_vals[m].update(0, out_cache)),
                    next_out: st.next_out.update(
                        m,
                        st.next_out[m].update(0, ChannelValueModel::ComRsOut(stepped.1)),
                    ),
                    write: write2,
                    procs: st.procs.update(m, Some(stepped.0)),
                    last_tx: out_f.tx_cnt,
                }
            } else {
                st
            }
        },
        None => {
            let applied = spec_apply_writes_row(
                st.write,
                m,
                st.next_out[m],
                st.next_out[m].len() as int,
            );
            CycleState { next_out: st.next_out.update(m, applied.0), write: applied.1, ..st }
        },
    }
}

/// The cycle walked over modules `m..n`.
pub open spec fn spec_cycle_from(st: CycleState, m: int, n: int) -> CycleState
    decreases n - m,
{
    if m < 0 || m >= n {
        st
    } else {
        spec_cycle_from(spec_cycle_step(st, m), m + 1, n)
    }
}

/// A sound decode has one row per module.
proof fn lemma_decode_from_len(
    modules: Seq<ModuleCodec>,
    offsets: Seq<ModuleOffset>,
    base: int,
    data: Seq<u16>,
    input_side: bool,
    i: int,
)
    requires
        0 <= i <= modules.len(),
        spec_decode_from(modules, offsets, base, data, input_side, i) is Ok,
    ensures
        spec_decode_from(modules, offsets, base, data, input_side, i).unwrap().len()
            == modules.len() - i,
    decreases modules.len() - i,
{
    if i < modules.len() {
        lemma_decode_from_len(modules, offsets, base, data, input_side, i + 1);
    }
}

impl Coupler {
    /// One full cycle over the two packed images.
    pub open spec fn spec_next(c: CouplerModel, pin: Seq<u16>, pout: Seq<u16>) -> Result<
        (CouplerModel, Seq<u16>),
        Error,
    > {
        match spec_decode_from(
            c.modules,
            c.offsets,
            ADDR_PACKED_PROCESS_INPUT_DATA as int,
            pin,
            true,
            0,
        ) {
            Err(e) => Err(e),
            Ok(in_vals) => match spec_decode_from(
                c.modules,
                c.offsets,
                ADDR_PACKED_PROCESS_OUTPUT_DATA as int,
                pout,
                false,
                0,
            ) {
                Err(e) => Err(e),
                Ok(out_vals) => {
                    let st0 = CycleState {
                        in_vals,
                        out_vals,
                        next_out: out_vals,
                        write: c.write,
                        procs: c.processors,
                        last_tx: c.last_tx_cnt,
                    };
                    let st = spec_cycle_from(st0, 0, c.modules.len() as int);
                    match spec_process_output_values(c.modules, c.offsets, st.next_out) {
                        Err(e) => Err(e),
                        Ok(words) => Ok(
                            (
                                CouplerModel {
                                    in_values: st.in_vals,
                                    out_values: st.out_vals,
                                    write: st.write,
                                    processors: st.procs,
                                    last_tx_cnt: st.last_tx,
                                    ..c
                                },
                                words,
                            ),
                        ),
                    }
                },
            },
        }
    }

    /// Drives one cycle: decodes both packed images, lets each serial
    /// module's processor consume its frames and pending writes, applies the
    /// buffered one-shot writes of the other modules, and re-encodes the
    /// output image. A cycle either completes, or fails without any
    /// observable mutation.
    pub fn next(&mut self, process_input: &[u16], process_output: &[u16]) -> (r: Result<
        Vec<u16>,
        Error,
    >)
        requires
            old(self).wf(),
        ensures
            final(self).wf(),
            match Self::spec_next(old(self)@, process_input@, process_output@) {
                Ok((c2, words)) => r matches Ok(v) && v@ == words && final(self)@ == c2,
                Err(e) => r == Err::<Vec<u16>, Error>(e) && final(self)@ == old(self)@,
            },
    {
        let n = self.modules.len();
        let mut in_vals = match process_input_data(&self.modules, &self.offsets, process_input) {
            Ok(v) => v,
            Err(e) => {
                return Err(e);
            },
        };
        let mut out_vals = match process_output_data(
            &self.modules,
            &self.offsets,
            process_output,
        ) {
            Ok(v) => v,
            Err(e) => {
                return Err(e);
            },
        };
        let mut next_out = clone_rows(&out_vals);
        let mut write_list = clone_writes(&self.write);
        let mut procs = clone_processors(&self.processors);
        let mut last_tx = self.last_tx_cnt;
        proof {
            lemma_decode_from_len(
                self@.modules,
                self@.offsets,
                ADDR_PACKED_PROCESS_INPUT_DATA as int,
                process_input@,
                true,
                0,
            );
            lemma_decode_from_len(
                self@.modules,
                self@.offsets,
                ADDR_PACKED_PROCESS_OUTPUT_DATA as int,
                process_output@,
                false,
                0,
            );
            crate::util::lemma_vec_deep_view_index(in_vals);
            crate::util::lemma_vec_deep_view_index(out_vals);
            crate::util::lemma_vec_deep_view_index(next_out);
            crate::util::lemma_vec_deep_view_index(procs);
        }
        let ghost st0 = CycleState {
            in_vals: in_vals.deep_view(),
            out_vals: out_vals.deep_view(),
            next_out: next_out.deep_view(),
            write: write_list.deep_view(),
            procs: procs.deep_view(),
            last_tx: last_tx as int,
        };
        let mut m: usize = 0;
        while m < n
            invariant
                old(self).wf(),
                *self == *old(self),
                n == self@.modules.len(),
                m <= n,
                in_vals@.len() == n,
                out_vals@.len() == n,
                next_out@.len() == n,
                procs@.len() == n,
                procs.deep_view().len() == n,
                forall|k: int|
                    0 <= k < n ==> ((#[trigger] procs.deep_view()[k]) is Some <==> self@.modules[k] is Serial),
                spec_cycle_from(st0, 0, n as int) == spec_cycle_from(
                    CycleState {
                        in_vals: in_vals.deep_view(),
                        out_vals: out_vals.deep_view(),
                        next_out: next_out.deep_view(),
                        write: write_list.deep_view(),
                        procs: procs.deep_view(),
                        last_tx: last_tx as int,
                    },
                    m as int,
                    n as int,
                ),
            decreases n - m,
        {
            let ghost st_pre = CycleState {
                in_vals: in_vals.deep_view(),
                out_vals: out_vals.deep_view(),
                next_out: next_out.deep_view(),
                write: write_list.deep_view(),
                procs: procs.deep_view(),
                last_tx: last_tx as int,
            };
            proof {
                crate::util::lemma_nested_deep_view_index(in_vals);
                crate::util::lemma_nested_deep_view_index(out_vals);
                crate::util::lemma_nested_deep_view_index(next_out);
                crate::util::lemma_vec_deep_view_index(procs);
            }
            let ghost pv = procs@;
            let slot = procs.remove(m);
            match slot {
                Some(mut p) => {
                    let guard = in_vals[m].len() > 0 && out_vals[m].len() > 0 && next_out[
                        m
                    ].len() > 0;
                    let mut maybe_in: Option<crate::ur20_1com_232_485_422::ProcessInput> = None;
                    let mut maybe_out: Option<crate::ur20_1com_232_485_422::ProcessOutput> =
                        None;
                    if guard {
                        maybe_in = match &in_vals[m][0] {
                            ChannelValue::ComRsIn(f) => Some(f.duplicate()),
                            _ => None,
                        };
                        maybe_out = match &next_out[m][0] {
                            ChannelValue::ComRsOut(f) => Some(f.duplicate()),
                            _ => None,
                        };
                    }
                    if guard && maybe_in.is_some() && maybe_out.is_some() {
                        let in_f = maybe_in.unwrap();
                        let out_f = maybe_out.unwrap();
                        let out_cache = if out_f.data.len() > 0 && out_f.tx_cnt != last_tx {
                            ChannelValue::Bytes(crate::util::copy_bytes(&out_f.data))
                        } else {
                            ChannelValue::NoValue
                        };
                        crate::util::set_nested_element(&mut out_vals, m, 0, out_cache);
                        last_tx = out_f.tx_cnt;
                        let w = take_write(
                            &mut write_list,
                            Address { module: m, channel: 0 },
                        );
                        match w {
                            Some(ChannelValue::Bytes(d)) => {
                                p.write(&d);
                            },
                            _ => {},
                        }
                        let rs_out = p.next(&in_f, &out_f);
                        crate::util::set_nested_element(
                            &mut next_out,
                            m,
                            0,
                            ChannelValue::ComRsOut(rs_out),
                        );
                        let in_cache = if in_f.data_available && in_f.data.len() > 0 {
                            ChannelValue::Bytes(in_f.data)
                        } else {
                            ChannelValue::NoValue
                        };
                        crate::util::set_nested_element(&mut in_vals, m, 0, in_cache);
                        procs.insert(m, Some(p));
                        proof {
                            assert(procs@ =~= pv.update(m as int, procs@[m as int]));
                            crate::util::lemma_vec_deep_view_index(procs);
                            assert(procs.deep_view() =~= st_pre.procs.update(
                                m as int,
                                procs@[m as int].deep_view(),
                            ));
                            assert(CycleState {
                                in_vals: in_vals.deep_view(),
                                out_vals: out_vals.deep_view(),
                                next_out: next_out.deep_view(),
                                write: write_list.deep_view(),
                                procs: procs.deep_view(),
                                last_tx: last_tx as int,
                            } == spec_cycle_step(st_pre, m as int));
                        }
                    } else {
                        procs.insert(m, Some(p));
                        proof {
                            assert(procs@ =~= pv);
                            crate::util::lemma_vec_deep_view_index(procs);
                            assert(procs.deep_view() =~= st_pre.procs);
                            assert(CycleState {
                                in_vals: in_vals.deep_view(),
                                out_vals: out_vals.deep_view(),
                                next_out: next_out.deep_view(),
                                write: write_list.deep_view(),
                                procs: procs.deep_view(),
                                last_tx: last_tx as int,
                            } == spec_cycle_step(st_pre, m as int));
                        }
                    }
                },
                None => {
                    procs.insert(m, None);
                    proof {
                        assert(procs@ =~= pv);
                        crate::util::lemma_vec_deep_view_index(procs);
                        assert(procs.deep_view() =~= st_pre.procs);
                    }
                    let row_len = next_out[m].len();
                    let ghost w0 = write_list.deep_view();
                    let ghost row0 = next_out.deep_view()[m as int];
                    let mut ch: usize = 0;
                    while ch < row_len
                        invariant
                            m < next_out@.len(),
                            ch <= row_len,
                            row_len == next_out@[m as int]@.len(),
                            next_out.deep_view().len() == st_pre.next_out.len(),
                            ({
                                let applied = spec_apply_writes_row(
                                    w0,
                                    m as int,
                                    row0,
                                    ch as int,
                                );
                                next_out.deep_view() == st_pre.next_out.update(
                                    m as int,
                                    applied.0,
                                ) && write_list.deep_view() == applied.1
                            }),
                        decreases row_len - ch,
                    {
                        let w = take_write(&mut write_list, Address { module: m, channel: ch });
                        match w {
                            Some(v) => {
                                crate::util::set_nested_element(&mut next_out, m, ch, v);
                            },
                            None => {},
                        }
                        ch = ch + 1;
                    }
                    proof {
                        assert(st_pre.next_out.update(m as int, st_pre.next_out[m as int])
                            =~= st_pre.next_out);
                        assert(CycleState {
                            in_vals: in_vals.deep_view(),
                            out_vals: out_vals.deep_view(),
                            next_out: next_out.deep_view(),
                            write: write_list.deep_view(),
                            procs: procs.deep_view(),
                            last_tx: last_tx as int,
                        } == spec_cycle_step(st_pre, m as int));
                    }
                },
            }
            m = m + 1;
        }
        let words = match process_output_values(&self.modules, &self.offsets, &next_out) {
            Ok(w) => w,
            Err(e) => {
                return Err(e);
            },
        };
        self.in_values = in_vals;
        self.out_values = out_vals;
        self.write = write_list;
        self.processors = procs;
        self.last_tx_cnt = last_tx;
        Ok(words)
    }
}

/// A copy of one row of channel values that carries the same model.
fn clone_row(row: &Vec<ChannelValue>) -> (r: Vec<ChannelValue>)
    ensures
        r.deep_view() == row.deep_view(),
        r@.len() == row@.len(),
{
    let mut out: Vec<ChannelValue> = Vec::new();
    let mut i: usize = 0;
    while i < row.len()
        invariant
            i <= row@.len(),
            out.deep_view() == row.deep_view().take(i as int),
            out@.len() == i,
        decreases row@.len() - i,
    {
        let v = row[i].duplicate();
        crate::util::push_deep(&mut out, v);
        proof {
            crate::util::lemma_vec_deep_view_index(*row);
            assert(out.deep_view() =~= row.deep_view().take(i + 1));
        }
        i = i + 1;
    }
    proof {
        assert(row.deep_view().take(i as int) =~= row.deep_view());
    }
    out
}

/// A copy of the decoded rows that carries the same model.
fn clone_rows(rows: &Vec<Vec<ChannelValue>>) -> (r: Vec<Vec<ChannelValue>>)
    ensures
        r.deep_view() == rows.deep_view(),
        r@.len() == rows@.len(),
        forall|k: int| 0 <= k < rows@.len() ==> (#[trigger] r@[k])@.len() == rows@[k]@.len(),
{
    let mut out: Vec<Vec<ChannelValue>> = Vec::new();
    let mut i: usize = 0;
    while i < rows.len()
        invariant
            i <= rows@.len(),
            out.deep_view() == rows.deep_view().take(i as int),
            out@.len() == i,
            forall|k: int| 0 <= k < i ==> (#[trigger] out@[k])@.len() == rows@[k]@.len(),
        decreases rows@.len() - i,
    {
        let row = clone_row(&rows[i]);
        proof {
            crate::util::lemma_vec_deep_view_index(*rows);
        }
        crate::util::push_deep(&mut out, row);
        proof {
            assert(out.deep_view() =~= rows.deep_view().take(i + 1));
        }
        i = i + 1;
    }
    proof {
        assert(rows.deep_view().take(i as int) =~= rows.deep_view());
    }
    out
}

/// A copy of the write buffer that carries the same model.
fn clone_writes(write: &Vec<(Address, ChannelValue)>) -> (r: Vec<(Address, ChannelValue)>)
    ensures
        r.deep_view() == write.deep_view(),
{
    let mut out: Vec<(Address, ChannelValue)> = Vec::new();
    let mut i: usize = 0;
    while i < write.len()
        invariant
            i <= write@.len(),
            out.deep_view() == write.deep_view().take(i as int),
        decreases write@.len() - i,
    {
        let (addr, v) = (write[i].0, write[i].1.duplicate());
        crate::util::push_deep(&mut out, (addr, v));
        proof {
            crate::util::lemma_vec_deep_view_index(*write);
            assert(out.deep_view() =~= write.deep_view().take(i + 1));
        }
        i = i + 1;
    }
    proof {
        assert(write.deep_view().take(i as int) =~= write.deep_view());
    }
    out
}

/// A copy of the processor table that carries the same model.
fn clone_processors(procs: &Vec<Option<MessageProcessor>>) -> (r: Vec<Option<MessageProcessor>>)
    ensures
        r.deep_view() == procs.deep_view(),
        r@.len() == procs@.len(),
{
    let mut out: Vec<Option<MessageProcessor>> = Vec::new();
    let mut i: usize = 0;
    while i < procs.len()
        invariant
            i <= procs@.len(),
            out.deep_view() == procs.deep_view().take(i as int),
            out@.len() == i,
        decreases procs@.len() - i,
    {
        let copy = match &procs[i] {
            Some(p) => Some(p.duplicate()),
            None => None,
        };
        crate::util::push_deep(&mut out, copy);
        proof {
            crate::util::lemma_vec_deep_view_index(*procs);
            assert(out.deep_view() =~= procs.deep_view().take(i + 1));
        }
        i = i + 1;
    }
    proof {
        assert(procs.deep_view().take(i as int) =~= procs.deep_view());
    }
    out
}

} // verus!
