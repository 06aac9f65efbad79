//! Serial communication module UR20-1COM-232-485-422: the structured decode
//! of its process-data window (status bits, 2-bit sequence counters, payload)
//! and the retransmission state machine that tunnels a byte stream through
//! that window.

use vstd::prelude::*;

use crate::error::Error;
use crate::ChannelValue;
use crate::util::{set_bit, spec_bit8, spec_with_bit8, test_bit};

verus! {

/// Serial operating mode of the channel.
#[derive(Debug, Clone, Copy, PartialEq, Eq, Structural, Hash)]
pub enum OperatingMode {
    Disabled,
    RS232,
    RS485,
    RS422,
}

impl OperatingMode {
    /// The operating mode encoded by a parameter register.
    pub open spec fn spec_from_u16(v: u16) -> Option<OperatingMode> {
        if v == 0 {
            Some(OperatingMode::Disabled)
        } else if v == 1 {
            Some(OperatingMode::RS232)
        } else if v == 2 {
            Some(OperatingMode::RS485)
        } else if v == 3 {
            Some(OperatingMode::RS422)
        } else {
            None
        }
    }

    /// Decodes a parameter register.
    pub fn from_u16(v: u16) -> (r: Option<OperatingMode>)
        ensures
            r == Self::spec_from_u16(v),
    {
        match v {
            0 => Some(OperatingMode::Disabled),
            1 => Some(OperatingMode::RS232),
            2 => Some(OperatingMode::RS485),
            3 => Some(OperatingMode::RS422),
            _ => None,
        }
    }

    /// Encodes the mode as its parameter register value.
    pub fn to_u16(&self) -> (r: u16)
        ensures
            Self::spec_from_u16(r) == Some(*self),
    {
        match *self {
            OperatingMode::Disabled => 0,
            OperatingMode::RS232 => 1,
            OperatingMode::RS485 => 2,
            OperatingMode::RS422 => 3,
        }
    }
}

/// Number of data bits per character.
#[derive(Debug, Clone, Copy, PartialEq, Eq, Structural, Hash)]
pub enum DataBits {
    SevenBits,
    EightBits,
}

impl DataBits {
    /// The data-bit setting encoded by a parameter register.
    pub open spec fn spec_from_u16(v: u16) -> Option<DataBits> {
        if v == 0 {
            Some(DataBits::SevenBits)
        } else if v == 1 {
            Some(DataBits::EightBits)
        } else {
            None
        }
    }

    /// Decodes a parameter register.
    pub fn from_u16(v: u16) -> (r: Option<DataBits>)
        ensures
            r == Self::spec_from_u16(v),
    {
        match v {
            0 => Some(DataBits::SevenBits),
            1 => Some(DataBits::EightBits),
            _ => None,
        }
    }

    /// Encodes the setting as its parameter register value.
    pub fn to_u16(&self) -> (r: u16)
        ensures
            Self::spec_from_u16(r) == Some(*self),
    {
        match *self {
            DataBits::SevenBits => 0,
            DataBits::EightBits => 1,
        }
    }
}

/// Baud rate of the serial line.
#[derive(Debug, Clone, Copy, PartialEq, Eq, Structural, Hash)]
pub enum BaudRate {
    Baud300,
    Baud600,
    Baud1200,
    Baud2400,
    Baud4800,
    Baud9600,
    Baud14400,
    Baud19200,
    Baud28800,
    Baud38400,
    Baud57600,
    Baud115200,
}

impl BaudRate {
    /// The baud rate encoded by a parameter register.
    pub open spec fn spec_from_u16(v: u16) -> Option<BaudRate> {
        if v == 0 {
            Some(BaudRate::Baud300)
        } else if v == 1 {
            Some(BaudRate::Baud600)
        } else if v == 2 {
            Some(BaudRate::Baud1200)
        } else if v == 3 {
            Some(BaudRate::Baud2400)
        } else if v == 4 {
            Some(BaudRate::Baud4800)
        } else if v == 5 {
            Some(BaudRate::Baud9600)
        } else if v == 6 {
            Some(BaudRate::Baud14400)
        } else if v == 7 {
            Some(BaudRate::Baud19200)
        } else if v == 8 {
            Some(BaudRate::Baud28800)
        } else if v == 9 {
            Some(BaudRate::Baud38400)
        } else if v == 10 {
            Some(BaudRate::Baud57600)
        } else if v == 11 {
            Some(BaudRate::Baud115200)
        } else {
            None
        }
    }

    /// Decodes a parameter register.
    pub fn from_u16(v: u16) -> (r: Option<BaudRate>)
        ensures
            r == Self::spec_from_u16(v),
    {
        match v {
            0 => Some(BaudRate::Baud300),
            1 => Some(BaudRate::Baud600),
            2 => Some(BaudRate::Baud1200),
            3 => Some(BaudRate::Baud2400),
            4 => Some(BaudRate::Baud4800),
            5 => Some(BaudRate::Baud9600),
            6 => Some(BaudRate::Baud14400),
            7 => Some(BaudRate::Baud19200),
            8 => Some(BaudRate::Baud28800),
            9 => Some(BaudRate::Baud38400),
            10 => Some(BaudRate::Baud57600),
            11 => Some(BaudRate::Baud115200),
            _ => None,
        }
    }

    /// Encodes the rate as its parameter register value.
    pub fn to_u16(&self) -> (r: u16)
        ensures
            Self::spec_from_u16(r) == Some(*self),
    {
        match *self {
            BaudRate::Baud300 => 0,
            BaudRate::Baud600 => 1,
            BaudRate::Baud1200 => 2,
            BaudRate::Baud2400 => 3,
            BaudRate::Baud4800 => 4,
            BaudRate::Baud9600 => 5,
            BaudRate::Baud14400 => 6,
            BaudRate::Baud19200 => 7,
            BaudRate::Baud28800 => 8,
            BaudRate::Baud38400 => 9,
            BaudRate::Baud57600 => 10,
            BaudRate::Baud115200 => 11,
        }
    }
}

/// Number of stop bits.
#[derive(Debug, Clone, Copy, PartialEq, Eq, Structural, Hash)]
pub enum StopBit {
    OneBit,
    TwoBits,
}

impl StopBit {
    /// The stop-bit setting encoded by a parameter register.
    pub open spec fn spec_from_u16(v: u16) -> Option<StopBit> {
        if v == 0 {
            Some(StopBit::OneBit)
        } else if v == 1 {
            Some(StopBit::TwoBits)
        } else {
            None
        }
    }

    /// Decodes a parameter register.
    pub fn from_u16(v: u16) -> (r: Option<StopBit>)
        ensures
            r == Self::spec_from_u16(v),
    {
        match v {
            0 => Some(StopBit::OneBit),
            1 => Some(StopBit::TwoBits),
            _ => None,
        }
    }

    /// Encodes the setting as its parameter register value.
    pub fn to_u16(&self) -> (r: u16)
        ensures
            Self::spec_from_u16(r) == Some(*self),
    {
        match *self {
            StopBit::OneBit => 0,
            StopBit::TwoBits => 1,
        }
    }
}

/// Parity of the serial line.
#[derive(Debug, Clone, Copy, PartialEq, Eq, Structural, Hash)]
pub enum Parity {
    NoParity,
    Even,
    Odd,
}

impl Parity {
    /// The parity encoded by a parameter register.
    pub open spec fn spec_from_u16(v: u16) -> Option<Parity> {
        if v == 0 {
            Some(Parity::NoParity)
        } else if v == 1 {
            Some(Parity::Even)
        } else if v == 2 {
            Some(Parity::Odd)
        } else {
            None
        }
    }

    /// Decodes a parameter register.
    pub fn from_u16(v: u16) -> (r: Option<Parity>)
        ensures
            r == Self::spec_from_u16(v),
    {
        match v {
            0 => Some(Parity::NoParity),
            1 => Some(Parity::Even),
            2 => Some(Parity::Odd),
            _ => None,
        }
    }

    /// Encodes the parity as its parameter register value.
    pub fn to_u16(&self) -> (r: u16)
        ensures
            Self::spec_from_u16(r) == Some(*self),
    {
        match *self {
            Parity::NoParity => 0,
            Parity::Even => 1,
            Parity::Odd => 2,
        }
    }
}

/// Flow control of the serial line.
#[derive(Debug, Clone, Copy, PartialEq, Eq, Structural, Hash)]
pub enum FlowControl {
    NoFlowControl,
    CtsRts,
    XonXoff,
}

impl FlowControl {
    /// The flow control encoded by a parameter register.
    pub open spec fn spec_from_u16(v: u16) -> Option<FlowControl> {
        if v == 0 {
            Some(FlowControl::NoFlowControl)
        } else if v == 1 {
            Some(FlowControl::CtsRts)
        } else if v == 2 {
            Some(FlowControl::XonXoff)
        } else {
            None
        }
    }

    /// Decodes a parameter register.
    pub fn from_u16(v: u16) -> (r: Option<FlowControl>)
        ensures
            r == Self::spec_from_u16(v),
    {
        match v {
            0 => Some(FlowControl::NoFlowControl),
            1 => Some(FlowControl::CtsRts),
            2 => Some(FlowControl::XonXoff),
            _ => None,
        }
    }

    /// Encodes the flow control as its parameter register value.
    pub fn to_u16(&self) -> (r: u16)
        ensures
            Self::spec_from_u16(r) == Some(*self),
    {
        match *self {
            FlowControl::NoFlowControl => 0,
            FlowControl::CtsRts => 1,
            FlowControl::XonXoff => 2,
        }
    }
}

/// Size of the module's process-data window.
#[derive(Debug, Clone, Copy, PartialEq, Eq, Structural, Hash)]
pub enum ProcessDataLength {
    EightBytes,
    SixteenBytes,
}

impl ProcessDataLength {
    /// The window size encoded by a parameter register.
    pub open spec fn spec_from_u16(v: u16) -> Option<ProcessDataLength> {
        if v == 0 {
            Some(ProcessDataLength::EightBytes)
        } else if v == 1 {
            Some(ProcessDataLength::SixteenBytes)
        } else {
            None
        }
    }

    /// Decodes a parameter register.
    pub fn from_u16(v: u16) -> (r: Option<ProcessDataLength>)
        ensures
            r == Self::spec_from_u16(v),
    {
        match v {
            0 => Some(ProcessDataLength::EightBytes),
            1 => Some(ProcessDataLength::SixteenBytes),
            _ => None,
        }
    }

    /// Encodes the window size as its parameter register value.
    pub fn to_u16(&self) -> (r: u16)
        ensures
            Self::spec_from_u16(r) == Some(*self),
    {
        match *self {
            ProcessDataLength::EightBytes => 0,
            ProcessDataLength::SixteenBytes => 1,
        }
    }

    /// Window size in bytes.
    pub open spec fn spec_byte_count(self) -> int {
        match self {
            ProcessDataLength::EightBytes => 8,
            ProcessDataLength::SixteenBytes => 16,
        }
    }

    /// Payload bytes available per frame: the window minus the status byte
    /// and the length byte.
    pub open spec fn spec_user_data_len(self) -> int {
        self.spec_byte_count() - 2
    }

    /// Payload bytes available per frame.
    pub fn user_data_len(&self) -> (r: usize)
        ensures
            r == self.spec_user_data_len(),
    {
        match *self {
            ProcessDataLength::EightBytes => 6,
            ProcessDataLength::SixteenBytes => 14,
        }
    }

    /// Window size in bytes.
    pub fn byte_count(&self) -> (r: usize)
        ensures
            r == self.spec_byte_count(),
    {
        match *self {
            ProcessDataLength::EightBytes => 8,
            ProcessDataLength::SixteenBytes => 16,
        }
    }
}

/// Decoded process input data of the module: what the module reports to the
/// coupler each cycle.
#[derive(Debug, Clone, PartialEq, Eq)]
pub struct ProcessInput {
    /// There is a telegram segment in the receive buffer.
    pub data_available: bool,
    /// Only 10 characters are left free in the receive buffer.
    pub buffer_nearly_full: bool,
    /// Receive sequence number (0,1,2,3,0,...).
    pub rx_cnt: usize,
    /// Acknowledges the transmit sequence number last taken over.
    pub tx_cnt_ack: usize,
    /// Communication with the device is without fault (`STAT`).
    pub ready: bool,
    /// User data of the transferred telegram segment.
    pub data: Vec<u8>,
}

/// Mathematical model of [`ProcessInput`].
pub ghost struct ProcessInputModel {
    pub data_available: bool,
    pub buffer_nearly_full: bool,
    pub rx_cnt: int,
    pub tx_cnt_ack: int,
    pub ready: bool,
    pub data: Seq<u8>,
}

impl View for ProcessInput {
    type V = ProcessInputModel;

    open spec fn view(&self) -> ProcessInputModel {
        ProcessInputModel {
            data_available: self.data_available,
            buffer_nearly_full: self.buffer_nearly_full,
            rx_cnt: self.rx_cnt as int,
            tx_cnt_ack: self.tx_cnt_ack as int,
            ready: self.ready,
            data: self.data@,
        }
    }
}

/// Decoded process output data of the module: what the coupler commands each
/// cycle.
#[derive(Debug, Clone, PartialEq, Eq)]
pub struct ProcessOutput {
    /// Clear the receive buffer.
    pub rx_buf_flush: bool,
    /// Clear the transmit buffer.
    pub tx_buf_flush: bool,
    /// Lock the hardware transmit buffer; characters are only sent once the
    /// flag is cleared again.
    pub disable_tx_hw_buffer: bool,
    /// Transmit sequence number (0,1,2,3,0,...).
    pub tx_cnt: usize,
    /// Acknowledges the receive sequence number last taken over.
    pub rx_cnt_ack: usize,
    /// Reset communication status (`STATRES`).
    pub reset: bool,
    /// User data of the transferred telegram segment.
    pub data: Vec<u8>,
}

/// Mathematical model of [`ProcessOutput`].
pub ghost struct ProcessOutputModel {
    pub rx_buf_flush: bool,
    pub tx_buf_flush: bool,
    pub disable_tx_hw_buffer: bool,
    pub tx_cnt: int,
    pub rx_cnt_ack: int,
    pub reset: bool,
    pub data: Seq<u8>,
}

impl View for ProcessOutput {
    type V = ProcessOutputModel;

    open spec fn view(&self) -> ProcessOutputModel {
        ProcessOutputModel {
            rx_buf_flush: self.rx_buf_flush,
            tx_buf_flush: self.tx_buf_flush,
            disable_tx_hw_buffer: self.disable_tx_hw_buffer,
            tx_cnt: self.tx_cnt as int,
            rx_cnt_ack: self.rx_cnt_ack as int,
            reset: self.reset,
            data: self.data@,
        }
    }
}

/// A `Result` carrying a value with a view, seen at the model level.
pub open spec fn res_view<T: View>(r: Result<T, Error>) -> Result<T::V, Error> {
    match r {
        Ok(t) => Ok(t@),
        Err(e) => Err(e),
    }
}

/// The receive sequence number held in bits 3 and 4 of the status byte.
pub open spec fn spec_cnt_from_status(byte: u8) -> int {
    ((byte >> 3) & 3) as int
}

/// The acknowledge sequence number held in bits 5 and 6 of the status byte.
pub open spec fn spec_cnt_ack_from_status(byte: u8) -> int {
    ((byte >> 5) & 3) as int
}

/// The status byte with the sequence number placed in bits 3 and 4.
pub open spec fn spec_cnt_to_status(cnt: int, byte: u8) -> u8 {
    byte | ((((cnt % 4) as u8) << 3) as u8)
}

/// The status byte with the acknowledge number placed in bits 5 and 6.
pub open spec fn spec_cnt_ack_to_status(cnt: int, byte: u8) -> u8 {
    byte | ((((cnt % 4) as u8) << 5) as u8)
}

/// Reads the receive sequence number from a status byte.
pub fn cnt_from_status_byte(byte: u8) -> (r: usize)
    ensures
        r == spec_cnt_from_status(byte),
        r <= 3,
{
    proof {
        assert(((0b0001_1000u8 & byte) >> 3u8) == ((byte >> 3u8) & 3u8) && ((byte >> 3u8) & 3u8)
            <= 3) by (bit_vector);
    }
    ((0b0001_1000u8 & byte) >> 3u8) as usize
}

/// Reads the acknowledge sequence number from a status byte.
pub fn cnt_ack_from_status_byte(byte: u8) -> (r: usize)
    ensures
        r == spec_cnt_ack_from_status(byte),
        r <= 3,
{
    proof {
        assert(((0b0110_0000u8 & byte) >> 5u8) == ((byte >> 5u8) & 3u8) && ((byte >> 5u8) & 3u8)
            <= 3) by (bit_vector);
    }
    ((0b0110_0000u8 & byte) >> 5u8) as usize
}

/// Writes a sequence number into bits 3 and 4 of a status byte.
pub fn cnt_to_status_byte(cnt: usize, byte: u8) -> (r: u8)
    ensures
        r == spec_cnt_to_status(cnt as int, byte),
{
    let r = byte | (0b0001_1000u8 & ((#[verifier::truncate] (cnt as u8)) << 3u8));
    proof {
        assert(byte | (0b0001_1000u8 & (((cnt as u8) as u8) << 3u8)) == byte | ((((cnt as int)
            % 4) as u8) << 3) as u8) by (bit_vector);
    }
    r
}

/// Writes an acknowledge number into bits 5 and 6 of a status byte.
pub fn cnt_ack_to_status_byte(cnt: usize, byte: u8) -> (r: u8)
    ensures
        r == spec_cnt_ack_to_status(cnt as int, byte),
{
    let r = byte | (0b0110_0000u8 & ((#[verifier::truncate] (cnt as u8)) << 5u8));
    proof {
        assert(byte | (0b0110_0000u8 & (((cnt as u8) as u8) << 5u8)) == byte | ((((cnt as int)
            % 4) as u8) << 5) as u8) by (bit_vector);
    }
    r
}

impl ProcessInput {
    /// The decode of a raw byte message into process input data: byte 0 is
    /// the status byte, byte 1 the payload length, bytes 2.. the payload.
    pub open spec fn spec_try_from_bytes(bytes: Seq<u8>) -> Result<ProcessInputModel, Error> {
        if bytes.len() < 2 {
            Err(Error::BufferLength)
        } else {
            let status = bytes[0];
            let data_len = bytes[1] as int;
            if bytes.len() < data_len + 2 {
                Err(Error::BufferLength)
            } else {
                Ok(ProcessInputModel {
                    data_available: spec_bit8(status, 0),
                    buffer_nearly_full: spec_bit8(status, 1),
                    rx_cnt: spec_cnt_from_status(status),
                    tx_cnt_ack: spec_cnt_ack_from_status(status),
                    ready: spec_bit8(status, 7),
                    data: bytes.subrange(2, data_len + 2),
                })
            }
        }
    }

    /// Decodes a raw byte message into process input data.
    pub fn try_from_byte_message(bytes: &[u8]) -> (r: Result<Self, Error>)
        ensures
            res_view(r) == Self::spec_try_from_bytes(bytes@),
    {
        if bytes.len() < 2 {
            return Err(Error::BufferLength);
        }
        let status = bytes[0];
        let data_len = bytes[1] as usize;
        if bytes.len() < data_len + 2 {
            return Err(Error::BufferLength);
        }
        let mut data: Vec<u8> = Vec::new();
        let mut i: usize = 0;
        assert(data@ =~= bytes@.subrange(2, 2));
        while i < data_len
            invariant
                i <= data_len,
                data_len <= 255,
                data_len + 2 <= bytes@.len(),
                data@ == bytes@.subrange(2, 2 + i as int),
            decreases data_len - i,
        {
            data.push(bytes[2 + i]);
            assert(data@ =~= bytes@.subrange(2, 2 + (i + 1)));
            i = i + 1;
        }
        let msg = ProcessInput {
            data_available: test_bit(status, 0),
            buffer_nearly_full: test_bit(status, 1),
            rx_cnt: cnt_from_status_byte(status),
            tx_cnt_ack: cnt_ack_from_status_byte(status),
            ready: test_bit(status, 7),
            data,
        };
        Ok(msg)
    }
}

impl Default for ProcessInput {
    /// An idle frame: no flags set, both counters zero, no payload.
    fn default() -> (r: Self)
        ensures
            r@ == (ProcessInputModel {
                data_available: false,
                buffer_nearly_full: false,
                rx_cnt: 0,
                tx_cnt_ack: 0,
                ready: false,
                data: Seq::empty(),
            }),
    {
        ProcessInput {
            data_available: false,
            buffer_nearly_full: false,
            rx_cnt: 0,
            tx_cnt_ack: 0,
            ready: false,
            data: Vec::new(),
        }
    }
}

impl Default for ProcessOutput {
    /// An idle frame: no flags set, both counters zero, no payload.
    fn default() -> (r: Self)
        ensures
            r@ == (ProcessOutputModel {
                rx_buf_flush: false,
                tx_buf_flush: false,
                disable_tx_hw_buffer: false,
                tx_cnt: 0,
                rx_cnt_ack: 0,
                reset: false,
                data: Seq::empty(),
            }),
    {
        ProcessOutput {
            rx_buf_flush: false,
            tx_buf_flush: false,
            disable_tx_hw_buffer: false,
            tx_cnt: 0,
            rx_cnt_ack: 0,
            reset: false,
            data: Vec::new(),
        }
    }
}

impl ProcessOutput {
    /// The status byte that encodes the frame's flags and counters.
    pub open spec fn spec_status_byte(m: ProcessOutputModel) -> u8 {
        let s0 = if m.rx_buf_flush {
            spec_with_bit8(0, 0)
        } else {
            0
        };
        let s1 = if m.tx_buf_flush {
            spec_with_bit8(s0, 1)
        } else {
            s0
        };
        let s2 = if m.disable_tx_hw_buffer {
            spec_with_bit8(s1, 2)
        } else {
            s1
        };
        let s3 = spec_cnt_to_status(m.tx_cnt, s2);
        let s4 = spec_cnt_ack_to_status(m.rx_cnt_ack, s3);
        if m.reset {
            spec_with_bit8(s4, 7)
        } else {
            s4
        }
    }

    /// The encode of process output data into a raw byte message of the
    /// window size: status byte, payload length, payload, zero padding.
    pub open spec fn spec_try_into_bytes(m: ProcessOutputModel, len: ProcessDataLength) -> Result<
        Seq<u8>,
        Error,
    > {
        if m.tx_cnt > 3 || m.rx_cnt_ack > 3 {
            Err(Error::SequenceNumber)
        } else if m.data.len() > len.spec_user_data_len() {
            Err(Error::DataLength)
        } else {
            Ok(
                Seq::new(len.spec_byte_count() as nat, |i: int| {
                    if i == 0 {
                        Self::spec_status_byte(m)
                    } else if i == 1 {
                        m.data.len() as u8
                    } else if i - 2 < m.data.len() {
                        m.data[i - 2]
                    } else {
                        0
                    }
                }),
            )
        }
    }

    /// Encodes the frame into the raw byte message written to the module's
    /// process-data window.
    pub fn try_into_byte_message(&self, process_data_length: &ProcessDataLength) -> (r: Result<
        Vec<u8>,
        Error,
    >)
        ensures
            res_view(r) == Self::spec_try_into_bytes(self@, *process_data_length),
    {
        if self.tx_cnt > 3 || self.rx_cnt_ack > 3 {
            return Err(Error::SequenceNumber);
        }
        if self.data.len() > process_data_length.user_data_len() {
            return Err(Error::DataLength);
        }
        let mut status: u8 = 0;
        if self.rx_buf_flush {
            status = set_bit(status, 0);
        }
        if self.tx_buf_flush {
            status = set_bit(status, 1);
        }
        if self.disable_tx_hw_buffer {
            status = set_bit(status, 2);
        }
        status = cnt_to_status_byte(self.tx_cnt, status);
        status = cnt_ack_to_status_byte(self.rx_cnt_ack, status);
        if self.reset {
            status = set_bit(status, 7);
        }
        let byte_count = process_data_length.byte_count();
        let mut msg: Vec<u8> = Vec::new();
        msg.push(status);
        msg.push(self.data.len() as u8);
        let mut i: usize = 0;
        while i < self.data.len()
            invariant
                i <= self.data@.len(),
                msg@.len() == 2 + i,
                msg@[0] == Self::spec_status_byte(self@),
                msg@[1] == self.data@.len() as u8,
                forall|j: int| 0 <= j < i ==> msg@[2 + j] == self.data@[j],
            decreases self.data.len() - i,
        {
            msg.push(self.data[i]);
            i = i + 1;
        }
        while msg.len() < byte_count
            invariant
                byte_count == process_data_length.spec_byte_count(),
                self.data@.len() + 2 <= msg@.len() <= byte_count,
                msg@[0] == Self::spec_status_byte(self@),
                msg@[1] == self.data@.len() as u8,
                forall|j: int| 0 <= j < self.data@.len() ==> msg@[2 + j] == self.data@[j],
                forall|j: int| self.data@.len() + 2 <= j < msg@.len() ==> msg@[j] == 0,
            decreases byte_count - msg.len(),
        {
            msg.push(0);
        }
        proof {
            let expected = Self::spec_try_into_bytes(self@, *process_data_length);
            assert(msg@ =~= expected.unwrap());
        }
        Ok(msg)
    }

    /// The decode of a raw byte message into process output data: byte 0 is
    /// the status byte, byte 1 the payload length, bytes 2.. the payload.
    pub open spec fn spec_try_from_bytes(bytes: Seq<u8>) -> Result<ProcessOutputModel, Error> {
        if bytes.len() < 2 {
            Err(Error::BufferLength)
        } else {
            let status = bytes[0];
            let data_len = bytes[1] as int;
            if bytes.len() < data_len + 2 {
                Err(Error::BufferLength)
            } else {
                Ok(ProcessOutputModel {
                    rx_buf_flush: spec_bit8(status, 0),
                    tx_buf_flush: spec_bit8(status, 1),
                    disable_tx_hw_buffer: spec_bit8(status, 2),
                    tx_cnt: spec_cnt_from_status(status),
                    rx_cnt_ack: spec_cnt_ack_from_status(status),
                    reset: spec_bit8(status, 7),
                    data: bytes.subrange(2, data_len + 2),
                })
            }
        }
    }

    /// Decodes a raw byte message into process output data.
    pub fn try_from_byte_message(bytes: &[u8]) -> (r: Result<Self, Error>)
        ensures
            res_view(r) == Self::spec_try_from_bytes(bytes@),
    {
        if bytes.len() < 2 {
            return Err(Error::BufferLength);
        }
        let status = bytes[0];
        let data_len = bytes[1] as usize;
        if bytes.len() < data_len + 2 {
            return Err(Error::BufferLength);
        }
        let mut data: Vec<u8> = Vec::new();
        let mut i: usize = 0;
        assert(data@ =~= bytes@.subrange(2, 2));
        while i < data_len
            invariant
                i <= data_len,
                data_len <= 255,
                data_len + 2 <= bytes@.len(),
                data@ == bytes@.subrange(2, 2 + i as int),
            decreases data_len - i,
        {
            data.push(bytes[2 + i]);
            assert(data@ =~= bytes@.subrange(2, 2 + (i + 1)));
            i = i + 1;
        }
        let msg = ProcessOutput {
            rx_buf_flush: test_bit(status, 0),
            tx_buf_flush: test_bit(status, 1),
            disable_tx_hw_buffer: test_bit(status, 2),
            tx_cnt: cnt_from_status_byte(status),
            rx_cnt_ack: cnt_ack_from_status_byte(status),
            reset: test_bit(status, 7),
            data,
        };
        Ok(msg)
    }
}

/// Initialization phase of the message processor.
#[derive(Debug, Clone, Copy, PartialEq, Eq, Structural, Hash)]
pub enum InitState {
    /// First cycle: ask the module to flush both buffers.
    ClearBuffers,
    /// Second cycle: raise the status-reset flag.
    Reset,
    /// Initialization finished; payload may flow.
    Done,
}

/// Module-level parameters of the serial module.
#[derive(Debug, Clone, Copy, PartialEq, Eq, Structural, Hash)]
pub struct ModuleParameters {
    pub process_data_len: ProcessDataLength,
}

impl Default for ModuleParameters {
    /// The sixteen-byte window, as configured out of the box.
    fn default() -> (r: Self)
        ensures
            r.process_data_len == ProcessDataLength::SixteenBytes,
    {
        ModuleParameters { process_data_len: ProcessDataLength::SixteenBytes }
    }
}

/// Channel-level parameters of the serial module.
#[derive(Debug, Clone, Copy, PartialEq, Eq, Structural, Hash)]
pub struct ChannelParameters {
    pub operating_mode: OperatingMode,
    pub data_bits: DataBits,
    pub baud_rate: BaudRate,
    pub stop_bit: StopBit,
    pub parity: Parity,
    pub flow_control: FlowControl,
    pub xon_char: u8,
    pub xoff_char: u8,
    pub terminating_resistor: bool,
}

impl ChannelParameters {
    /// The channel parameters as configured out of the box.
    pub open spec fn spec_default() -> ChannelParameters {
        ChannelParameters {
            operating_mode: OperatingMode::Disabled,
            data_bits: DataBits::EightBits,
            baud_rate: BaudRate::Baud9600,
            stop_bit: StopBit::OneBit,
            parity: Parity::NoParity,
            flow_control: FlowControl::NoFlowControl,
            xon_char: 17,
            xoff_char: 19,
            terminating_resistor: false,
        }
    }
}

impl Default for ChannelParameters {
    /// The channel parameters as configured out of the box.
    fn default() -> (r: Self)
        ensures
            r == Self::spec_default(),
    {
        ChannelParameters {
            operating_mode: OperatingMode::Disabled,
            data_bits: DataBits::EightBits,
            baud_rate: BaudRate::Baud9600,
            stop_bit: StopBit::OneBit,
            parity: Parity::NoParity,
            flow_control: FlowControl::NoFlowControl,
            xon_char: 17,
            xoff_char: 19,
            terminating_resistor: false,
        }
    }
}

/// The parse of the module's ten parameter registers.
pub open spec fn spec_parameters_from_raw(data: Seq<u16>) -> Result<
    (ModuleParameters, ChannelParameters),
    Error,
> {
    if data.len() < 10 {
        Err(Error::BufferLength)
    } else if ProcessDataLength::spec_from_u16(data[0]) is None {
        Err(Error::ChannelParameter)
    } else if OperatingMode::spec_from_u16(data[1]) is None {
        Err(Error::ChannelParameter)
    } else if BaudRate::spec_from_u16(data[2]) is None {
        Err(Error::ChannelParameter)
    } else if StopBit::spec_from_u16(data[3]) is None {
        Err(Error::ChannelParameter)
    } else if Parity::spec_from_u16(data[4]) is None {
        Err(Error::ChannelParameter)
    } else if FlowControl::spec_from_u16(data[5]) is None {
        Err(Error::ChannelParameter)
    } else if DataBits::spec_from_u16(data[6]) is None {
        Err(Error::ChannelParameter)
    } else if data[7] > 1 {
        Err(Error::ChannelParameter)
    } else if data[8] > 255 {
        Err(Error::ChannelParameter)
    } else if data[9] > 255 {
        Err(Error::ChannelParameter)
    } else {
        Ok(
            (
                ModuleParameters { process_data_len: ProcessDataLength::spec_from_u16(data[0]).unwrap() },
                ChannelParameters {
                    operating_mode: OperatingMode::spec_from_u16(data[1]).unwrap(),
                    data_bits: DataBits::spec_from_u16(data[6]).unwrap(),
                    baud_rate: BaudRate::spec_from_u16(data[2]).unwrap(),
                    stop_bit: StopBit::spec_from_u16(data[3]).unwrap(),
                    parity: Parity::spec_from_u16(data[4]).unwrap(),
                    flow_control: FlowControl::spec_from_u16(data[5]).unwrap(),
                    xon_char: data[8] as u8,
                    xoff_char: data[9] as u8,
                    terminating_resistor: data[7] == 1,
                },
            ),
        )
    }
}

/// Parses the module's ten parameter registers into module and channel
/// parameters.
pub fn parameters_from_raw_data(data: &[u16]) -> (r: Result<
    (ModuleParameters, ChannelParameters),
    Error,
>)
    ensures
        r == spec_parameters_from_raw(data@),
{
    if data.len() < 10 {
        return Err(Error::BufferLength);
    }
    let process_data_len = match ProcessDataLength::from_u16(data[0]) {
        Some(x) => x,
        None => {
            return Err(Error::ChannelParameter);
        },
    };
    let operating_mode = match OperatingMode::from_u16(data[1]) {
        Some(x) => x,
        None => {
            return Err(Error::ChannelParameter);
        },
    };
    let baud_rate = match BaudRate::from_u16(data[2]) {
        Some(x) => x,
        None => {
            return Err(Error::ChannelParameter);
        },
    };
    let stop_bit = match StopBit::from_u16(data[3]) {
        Some(x) => x,
        None => {
            return Err(Error::ChannelParameter);
        },
    };
    let parity = match Parity::from_u16(data[4]) {
        Some(x) => x,
        None => {
            return Err(Error::ChannelParameter);
        },
    };
    let flow_control = match FlowControl::from_u16(data[5]) {
        Some(x) => x,
        None => {
            return Err(Error::ChannelParameter);
        },
    };
    let data_bits = match DataBits::from_u16(data[6]) {
        Some(x) => x,
        None => {
            return Err(Error::ChannelParameter);
        },
    };
    let terminating_resistor = match data[7] {
        0 => false,
        1 => true,
        _ => {
            return Err(Error::ChannelParameter);
        },
    };
    if data[8] > 255 {
        return Err(Error::ChannelParameter);
    }
    if data[9] > 255 {
        return Err(Error::ChannelParameter);
    }
    Ok(
        (
            ModuleParameters { process_data_len },
            ChannelParameters {
                operating_mode,
                data_bits,
                baud_rate,
                stop_bit,
                parity,
                flow_control,
                xon_char: data[8] as u8,
                xoff_char: data[9] as u8,
                terminating_resistor,
            },
        ),
    )
}

/// The serial communication module: its parameters, as parsed from the
/// configuration registers.
#[derive(Debug, Clone, PartialEq, Eq)]
pub struct Mod {
    pub mod_params: ModuleParameters,
    pub ch_params: Vec<ChannelParameters>,
}

impl Mod {
    /// Builds the module from its parameter registers.
    pub fn from_modbus_parameter_data(data: &[u16]) -> (r: Result<Mod, Error>)
        ensures
            match spec_parameters_from_raw(data@) {
                Ok((mp, cp)) => r matches Ok(m) && m.mod_params == mp && m.ch_params@ == seq![cp],
                Err(e) => r == Err::<Mod, Error>(e),
            },
    {
        match parameters_from_raw_data(data) {
            Ok((mod_params, ch_params)) => {
                let mut v: Vec<ChannelParameters> = Vec::new();
                v.push(ch_params);
                proof {
                    assert(v@ =~= seq![ch_params]);
                }
                Ok(Mod { mod_params, ch_params: v })
            },
            Err(e) => Err(e),
        }
    }
}

impl Default for Mod {
    /// The module as configured out of the box.
    fn default() -> (r: Self)
        ensures
            r.mod_params.process_data_len == ProcessDataLength::SixteenBytes,
            r.ch_params@ == seq![ChannelParameters::spec_default()],
    {
        let mut v: Vec<ChannelParameters> = Vec::new();
        v.push(ChannelParameters::default());
        proof {
            assert(v@ =~= seq![ChannelParameters::spec_default()]);
        }
        Mod { mod_params: ModuleParameters::default(), ch_params: v }
    }
}

impl crate::Module for Mod {
    open spec fn spec_module_type(&self) -> crate::ModuleType {
        crate::ModuleType::UR20_1COM_232_485_422
    }

    fn module_type(&self) -> (r: crate::ModuleType) {
        crate::ModuleType::UR20_1COM_232_485_422
    }
}

impl Mod {
    /// Bytes of the module's input process-data window.
    pub fn process_input_byte_count(&self) -> (r: usize)
        ensures
            r == self.mod_params.process_data_len.spec_byte_count(),
    {
        self.mod_params.process_data_len.byte_count()
    }

    /// Bytes of the module's output process-data window.
    pub fn process_output_byte_count(&self) -> (r: usize)
        ensures
            r == self.mod_params.process_data_len.spec_byte_count(),
    {
        self.mod_params.process_data_len.byte_count()
    }

    /// The decode of the module's input window: its little-endian byte stream
    /// read as one input frame.
    pub open spec fn spec_process_input_data(data: Seq<u16>) -> Result<
        Seq<crate::ChannelValueModel>,
        Error,
    > {
        match ProcessInput::spec_try_from_bytes(crate::util::spec_le_bytes(data)) {
            Ok(m) => Ok(seq![crate::ChannelValueModel::ComRsIn(m)]),
            Err(e) => Err(e),
        }
    }

    /// Decodes the module's input window into its single channel value.
    pub fn process_input_data(&self, data: &[u16]) -> (r: Result<Vec<ChannelValue>, Error>)
        requires
            2 * data@.len() <= usize::MAX,
        ensures
            match r {
                Ok(v) => Self::spec_process_input_data(data@) == Ok::<_, Error>(v.deep_view()),
                Err(e) => Self::spec_process_input_data(data@) == Err::<
                    Seq<crate::ChannelValueModel>,
                    Error,
                >(e),
            },
    {
        let buf = crate::util::u16_to_u8(data);
        match ProcessInput::try_from_byte_message(&buf) {
            Ok(current_input) => {
                let mut v: Vec<ChannelValue> = Vec::new();
                v.push(ChannelValue::ComRsIn(current_input));
                proof {
                    assert(v.deep_view() =~= Self::spec_process_input_data(data@).unwrap());
                }
                Ok(v)
            },
            Err(e) => Err(e),
        }
    }

    /// The decode of the module's output window: its little-endian byte
    /// stream read as one output frame.
    pub open spec fn spec_process_output_data(data: Seq<u16>) -> Result<
        Seq<crate::ChannelValueModel>,
        Error,
    > {
        match ProcessOutput::spec_try_from_bytes(crate::util::spec_le_bytes(data)) {
            Ok(m) => Ok(seq![crate::ChannelValueModel::ComRsOut(m)]),
            Err(e) => Err(e),
        }
    }

    /// Decodes the module's output window into its single channel value.
    pub fn process_output_data(&self, data: &[u16]) -> (r: Result<Vec<ChannelValue>, Error>)
        requires
            2 * data@.len() <= usize::MAX,
        ensures
            match r {
                Ok(v) => Self::spec_process_output_data(data@) == Ok::<_, Error>(v.deep_view()),
                Err(e) => Self::spec_process_output_data(data@) == Err::<
                    Seq<crate::ChannelValueModel>,
                    Error,
                >(e),
            },
    {
        let buf = crate::util::u16_to_u8(data);
        match ProcessOutput::try_from_byte_message(&buf) {
            Ok(current_output) => {
                let mut v: Vec<ChannelValue> = Vec::new();
                v.push(ChannelValue::ComRsOut(current_output));
                proof {
                    assert(v.deep_view() =~= Self::spec_process_output_data(data@).unwrap());
                }
                Ok(v)
            },
            Err(e) => Err(e),
        }
    }

    /// The encode of the module's single channel value into its output
    /// window: the frame's byte message, read back as register words.
    pub open spec fn spec_process_output_values(
        pdl: ProcessDataLength,
        values: Seq<crate::ChannelValueModel>,
    ) -> Result<Seq<u16>, Error> {
        if values.len() != 1 {
            Err(Error::ChannelValue)
        } else {
            match values[0] {
                crate::ChannelValueModel::ComRsOut(out) => match ProcessOutput::spec_try_into_bytes(
                    out,
                    pdl,
                ) {
                    Ok(msg) => Ok(crate::util::spec_le_words(msg)),
                    Err(e) => Err(e),
                },
                _ => Err(Error::ChannelValue),
            }
        }
    }

    /// Encodes the module's single channel value into its output window.
    pub fn process_output_values(&self, values: &[ChannelValue]) -> (r: Result<Vec<u16>, Error>)
        ensures
            match r {
                Ok(v) => Self::spec_process_output_values(
                    self.mod_params.process_data_len,
                    values.deep_view(),
                ) == Ok::<_, Error>(v@),
                Err(e) => Self::spec_process_output_values(
                    self.mod_params.process_data_len,
                    values.deep_view(),
                ) == Err::<Seq<u16>, Error>(e),
            },
    {
        proof {
            crate::util::lemma_slice_deep_view_index(values);
        }
        if values.len() != 1 {
            return Err(Error::ChannelValue);
        }
        match &values[0] {
            ChannelValue::ComRsOut(current_output) => {
                match current_output.try_into_byte_message(&self.mod_params.process_data_len) {
                    Ok(msg) => Ok(crate::util::u8_to_u16(&msg)),
                    Err(e) => Err(e),
                }
            },
            _ => Err(Error::ChannelValue),
        }
    }
}

/// Splits a byte stream into chunks of at most `n` bytes, in order.
pub open spec fn spec_chunks(b: Seq<u8>, n: int) -> Seq<Seq<u8>>
    decreases b.len(),
{
    if n <= 0 || b.len() == 0 {
        Seq::empty()
    } else if b.len() <= n {
        seq![b]
    } else {
        seq![b.take(n)] + spec_chunks(b.skip(n), n)
    }
}

/// Chunking loses no byte and keeps the order: the chunks of a stream
/// concatenate back to the stream, every chunk but the last is full, and no
/// chunk is empty or over-long.
pub proof fn lemma_chunks_reassemble(b: Seq<u8>, n: int)
    requires
        n > 0,
    ensures
        spec_chunks(b, n).flatten() == b,
        forall|i: int|
            0 <= i < spec_chunks(b, n).len() - 1 ==> (#[trigger] spec_chunks(b, n)[i]).len() == n,
        forall|i: int|
            0 <= i < spec_chunks(b, n).len() ==> 0 < (#[trigger] spec_chunks(b, n)[i]).len() <= n,
    decreases b.len(),
{
    let cs = spec_chunks(b, n);
    if b.len() == 0 {
        assert(cs.flatten() =~= b);
    } else if b.len() <= n {
        assert(cs.len() == 1);
        cs.lemma_flatten_one_element();
        assert(cs.flatten() =~= b);
    } else {
        lemma_chunks_reassemble(b.skip(n), n);
        let rest = spec_chunks(b.skip(n), n);
        assert(cs == seq![b.take(n)] + rest);
        assert(cs.flatten() =~= b.take(n) + rest.flatten()) by {
            assert(cs.drop_first() =~= rest);
            assert(cs.flatten() == cs.first() + cs.drop_first().flatten());
        }
        assert(b.take(n) + b.skip(n) =~= b);
        assert(forall|i: int| 0 <= i < cs.len() - 1 ==> (#[trigger] cs[i]).len() == n) by {
            assert(forall|i: int|
                1 <= i < cs.len() - 1 ==> cs[i] == #[trigger] rest[i - 1] && i - 1 < rest.len()
                    - 1);
        }
    }
}

/// The retransmission state machine of one serial module: turns an outgoing
/// byte stream into acknowledged fixed-size chunks and reassembles the
/// incoming byte stream from acknowledged chunks.
#[derive(Debug, Clone, PartialEq, Eq)]
pub struct MessageProcessor {
    /// Initialization phase.
    pub init_state: InitState,
    /// Receive sequence number last taken over; 4 right after initialization,
    /// so that any real number 0..=3 counts as new.
    pub last_rx_cnt: usize,
    /// Reassembled incoming bytes not yet read by the caller.
    pub in_data: Vec<u8>,
    /// Outgoing chunks not yet handed to the module.
    pub out_data: Vec<Vec<u8>>,
    /// Window size the module was configured with.
    pub process_data_len: ProcessDataLength,
}

/// Mathematical model of [`MessageProcessor`].
pub ghost struct MessageProcessorModel {
    pub init_state: InitState,
    pub last_rx_cnt: int,
    pub in_data: Seq<u8>,
    pub out_data: Seq<Seq<u8>>,
    pub process_data_len: ProcessDataLength,
}

impl View for MessageProcessor {
    type V = MessageProcessorModel;

    open spec fn view(&self) -> MessageProcessorModel {
        MessageProcessorModel {
            init_state: self.init_state,
            last_rx_cnt: self.last_rx_cnt as int,
            in_data: self.in_data@,
            out_data: self.out_data.deep_view(),
            process_data_len: self.process_data_len,
        }
    }
}

/// The successor of a 2-bit sequence number: 0,1,2,3,0,...
pub open spec fn spec_inc(cnt: int) -> int {
    if cnt + 1 > 3 {
        0
    } else {
        cnt + 1
    }
}

impl MessageProcessor {
    /// One step of the state machine, as a function of the processor state,
    /// the decoded input frame and the previously written output frame; the
    /// result is the new state and the frame to write this cycle.
    pub open spec fn spec_next(
        m: MessageProcessorModel,
        input: ProcessInputModel,
        output: ProcessOutputModel,
    ) -> (MessageProcessorModel, ProcessOutputModel) {
        if m.init_state != InitState::Done {
            let cleared = ProcessOutputModel { data: Seq::empty(), ..output };
            if m.init_state == InitState::ClearBuffers {
                (
                    MessageProcessorModel { init_state: InitState::Reset, ..m },
                    ProcessOutputModel {
                        reset: false,
                        rx_buf_flush: true,
                        tx_buf_flush: true,
                        rx_cnt_ack: input.rx_cnt,
                        ..cleared
                    },
                )
            } else {
                (
                    MessageProcessorModel {
                        init_state: InitState::Done,
                        last_rx_cnt: 4,
                        ..m
                    },
                    ProcessOutputModel {
                        reset: true,
                        rx_buf_flush: false,
                        tx_buf_flush: false,
                        rx_cnt_ack: input.rx_cnt,
                        ..cleared
                    },
                )
            }
        } else {
            let (m1, out1) = if m.out_data.len() > 0 && spec_inc(input.tx_cnt_ack)
                != output.tx_cnt {
                (
                    MessageProcessorModel { out_data: m.out_data.drop_first(), ..m },
                    ProcessOutputModel {
                        tx_cnt: spec_inc(input.tx_cnt_ack),
                        data: m.out_data[0],
                        ..output
                    },
                )
            } else {
                (m, output)
            };
            let m2 = if input.data_available && m1.last_rx_cnt != input.rx_cnt {
                MessageProcessorModel {
                    in_data: m1.in_data + input.data,
                    last_rx_cnt: input.rx_cnt,
                    ..m1
                }
            } else {
                m1
            };
            (m2, ProcessOutputModel { rx_cnt_ack: input.rx_cnt, ..out1 })
        }
    }

    /// Creates a processor for a module with the given window size, at the
    /// start of its initialization handshake.
    pub fn new(process_data_len: ProcessDataLength) -> (r: MessageProcessor)
        ensures
            r@ == (MessageProcessorModel {
                init_state: InitState::ClearBuffers,
                last_rx_cnt: 0,
                in_data: Seq::empty(),
                out_data: Seq::<Seq<u8>>::empty(),
                process_data_len,
            }),
    {
        let r = MessageProcessor {
            init_state: InitState::ClearBuffers,
            last_rx_cnt: 0,
            in_data: Vec::new(),
            out_data: Vec::new(),
            process_data_len,
        };
        proof {
            assert(r.out_data.deep_view() =~= Seq::<Seq<u8>>::empty());
        }
        r
    }

    /// The successor of a 2-bit sequence number: 0,1,2,3,0,...
    pub fn inc_cnt(tx_cnt_ack: usize) -> (r: usize)
        ensures
            r == spec_inc(tx_cnt_ack as int),
    {
        if tx_cnt_ack >= 3 {
            0
        } else {
            tx_cnt_ack + 1
        }
    }

    /// Processes the current decoded input and output frames and returns the
    /// frame that shall be written this cycle.
    pub fn next(&mut self, input: &ProcessInput, output: &ProcessOutput) -> (r: ProcessOutput)
        ensures
            (final(self)@, r@) == Self::spec_next(old(self)@, input@, output@),
    {
        let mut out_msg = output.duplicate();
        if self.init_state != InitState::Done {
            out_msg.data.clear();
            match self.init_state {
                InitState::ClearBuffers => {
                    out_msg.reset = false;
                    out_msg.rx_buf_flush = true;
                    out_msg.tx_buf_flush = true;
                    self.init_state = InitState::Reset;
                },
                _ => {
                    out_msg.reset = true;
                    out_msg.rx_buf_flush = false;
                    out_msg.tx_buf_flush = false;
                    self.last_rx_cnt = 4;
                    self.init_state = InitState::Done;
                },
            }
        } else {
            if self.out_data.len() > 0 && Self::inc_cnt(input.tx_cnt_ack) != output.tx_cnt {
                out_msg.tx_cnt = Self::inc_cnt(input.tx_cnt_ack);
                let ghost dv = self.out_data.deep_view();
                let ghost vv = self.out_data@;
                out_msg.data = self.out_data.remove(0);
                proof {
                    crate::util::lemma_vec_deep_view_index(self.out_data);
                    assert(self.out_data@ =~= vv.drop_first());
                    assert(out_msg.data@ == dv[0]);
                    assert(self.out_data.deep_view() =~= dv.drop_first());
                }
            }
            if input.data_available && self.last_rx_cnt != input.rx_cnt {
                let mut i: usize = 0;
                let ghost m1 = self@;
                assert(self.in_data@ =~= m1.in_data + input.data@.take(0));
                while i < input.data.len()
                    invariant
                        i <= input.data@.len(),
                        self@ == (MessageProcessorModel {
                            in_data: m1.in_data + input.data@.take(i as int),
                            ..m1
                        }),
                    decreases input.data@.len() - i,
                {
                    self.in_data.push(input.data[i]);
                    assert(self.in_data@ =~= m1.in_data + input.data@.take(i + 1));
                    i = i + 1;
                }
                assert(self.in_data@ =~= m1.in_data + input.data@);
                self.last_rx_cnt = input.rx_cnt;
            }
        }
        out_msg.rx_cnt_ack = input.rx_cnt;
        out_msg
    }

    /// Splits `buf` into chunks of at most the frame's user-data size and
    /// queues them for transmission, in order.
    pub fn write(&mut self, buf: &[u8])
        ensures
            final(self)@ == (MessageProcessorModel {
                out_data: old(self)@.out_data + spec_chunks(
                    buf@,
                    old(self)@.process_data_len.spec_user_data_len(),
                ),
                ..old(self)@
            }),
    {
        let n = self.process_data_len.user_data_len();
        let ghost m0 = self@;
        let ghost mut done: Seq<Seq<u8>> = Seq::empty();
        let mut i: usize = 0;
        proof {
            assert(buf@.skip(0) =~= buf@);
            assert(done + spec_chunks(buf@, n as int) =~= spec_chunks(buf@, n as int));
            assert(m0.out_data + done =~= m0.out_data);
        }
        while i < buf.len()
            invariant
                6 <= n <= 14,
                n == m0.process_data_len.spec_user_data_len(),
                i <= buf@.len(),
                self@ == (MessageProcessorModel { out_data: m0.out_data + done, ..m0 }),
                spec_chunks(buf@, n as int) == done + spec_chunks(buf@.skip(i as int), n as int),
            decreases buf@.len() - i,
        {
            let end = if buf.len() - i > n {
                i + n
            } else {
                buf.len()
            };
            let mut chunk: Vec<u8> = Vec::new();
            let mut j: usize = i;
            while j < end
                invariant
                    i <= j <= end <= buf@.len(),
                    chunk@ == buf@.subrange(i as int, j as int),
                decreases end - j,
            {
                chunk.push(buf[j]);
                assert(chunk@ =~= buf@.subrange(i as int, j + 1));
                j = j + 1;
            }
            let ghost dv_before = self.out_data.deep_view();
            self.out_data.push(chunk);
            proof {
                crate::util::lemma_vec_deep_view_index(self.out_data);
                assert(chunk.deep_view() =~= chunk@);
                assert(self.out_data.deep_view() =~= dv_before.push(chunk@));
                let rest = buf@.skip(i as int);
                let tail = spec_chunks(buf@.skip(end as int), n as int);
                assert(rest.len() > 0);
                if rest.len() <= n {
                    assert(end == buf@.len());
                    assert(chunk@ =~= rest);
                    assert(buf@.skip(end as int) =~= Seq::<u8>::empty());
                    assert(spec_chunks(rest, n as int) =~= seq![chunk@] + tail);
                } else {
                    assert(end == i + n);
                    assert(chunk@ =~= rest.take(n as int));
                    assert(rest.skip(n as int) =~= buf@.skip(end as int));
                    assert(spec_chunks(rest, n as int) =~= seq![chunk@] + tail);
                }
                assert(done + spec_chunks(rest, n as int) =~= (done + seq![chunk@]) + tail);
                done = done + seq![chunk@];
                assert(dv_before.push(chunk@) =~= m0.out_data + done);
            }
            i = end;
        }
        proof {
            assert(buf@.skip(i as int) =~= Seq::<u8>::empty());
            assert(done + spec_chunks(buf@.skip(i as int), n as int) =~= done);
        }
    }

    /// Drains and returns everything reassembled from inbound frames since
    /// the last read; `None` when nothing arrived.
    pub fn read(&mut self) -> (r: Option<Vec<u8>>)
        ensures
            final(self)@ == (MessageProcessorModel { in_data: Seq::empty(), ..old(self)@ }),
            match r {
                Some(v) => v@ == old(self)@.in_data && old(self)@.in_data.len() > 0,
                None => old(self)@.in_data.len() == 0,
            },
    {
        if self.in_data.is_empty() {
            assert(self.in_data@ =~= Seq::<u8>::empty());
            return None;
        }
        let mut drained: Vec<u8> = Vec::new();
        core::mem::swap(&mut drained, &mut self.in_data);
        Some(drained)
    }
}

/// Flow-control stall: once initialization is done and a chunk is in flight
/// (the frame on the wire carries the transmit number that the acknowledge
/// has not yet caught up with), repeating the step with the same input
/// changes neither the processor state nor the emitted frame, and no queued
/// chunk is consumed.
pub proof fn lemma_stall_idempotent(
    m: MessageProcessorModel,
    input: ProcessInputModel,
    output: ProcessOutputModel,
)
    requires
        m.init_state == InitState::Done,
        m.out_data.len() > 0,
        spec_inc(input.tx_cnt_ack) == output.tx_cnt,
    ensures
        ({
            let (m1, o1) = MessageProcessor::spec_next(m, input, output);
            let (m2, o2) = MessageProcessor::spec_next(m1, input, o1);
            m1.out_data == m.out_data && o1.tx_cnt == output.tx_cnt && o1.data == output.data
                && m2 == m1 && o2 == o1
        }),
{
}

/// Sequence wraparound: the successor of sequence number 3 is 0, so a chunk
/// sent with transmit number 3 and acknowledged by 3 advances the next chunk
/// to transmit number 0.
pub proof fn lemma_sequence_wraparound(
    m: MessageProcessorModel,
    input: ProcessInputModel,
    output: ProcessOutputModel,
)
    requires
        m.init_state == InitState::Done,
        m.out_data.len() > 0,
        input.tx_cnt_ack == 3,
        output.tx_cnt == 3,
    ensures
        spec_inc(3) == 0,
        ({
            let (m1, o1) = MessageProcessor::spec_next(m, input, output);
            o1.tx_cnt == 0 && o1.data == m.out_data[0] && m1.out_data == m.out_data.drop_first()
        }),
{
}

/// Initialization sequence: a processor in its initial state walks through
/// the clear-buffers and reset cycles, emitting no payload on either, and
/// only the third step may hand out queued data.
pub proof fn lemma_initialization_sequence(
    m0: MessageProcessorModel,
    in1: ProcessInputModel,
    out0: ProcessOutputModel,
    in2: ProcessInputModel,
    in3: ProcessInputModel,
)
    requires
        m0.init_state == InitState::ClearBuffers,
    ensures
        ({
            let (m1, o1) = MessageProcessor::spec_next(m0, in1, out0);
            let (m2, o2) = MessageProcessor::spec_next(m1, in2, o1);
            let (m3, o3) = MessageProcessor::spec_next(m2, in3, o2);
            m1.init_state == InitState::Reset && o1.data.len() == 0 && o1.rx_buf_flush
                && o1.tx_buf_flush && !o1.reset && m2.init_state == InitState::Done
                && m2.last_rx_cnt == 4 && o2.data.len() == 0 && !o2.rx_buf_flush
                && !o2.tx_buf_flush && o2.reset && (m0.out_data.len() > 0 && spec_inc(
                in3.tx_cnt_ack,
            ) != o2.tx_cnt ==> o3.data == m0.out_data[0])
        }),
{
    let (m1, o1) = MessageProcessor::spec_next(m0, in1, out0);
    let (m2, o2) = MessageProcessor::spec_next(m1, in2, o1);
    assert(m2.out_data == m0.out_data);
}

impl ProcessInput {
    /// A field-for-field copy of the frame.
    pub fn duplicate(&self) -> (r: ProcessInput)
        ensures
            r@ == self@,
    {
        ProcessInput {
            data_available: self.data_available,
            buffer_nearly_full: self.buffer_nearly_full,
            rx_cnt: self.rx_cnt,
            tx_cnt_ack: self.tx_cnt_ack,
            ready: self.ready,
            data: crate::util::copy_bytes(&self.data),
        }
    }
}

impl DeepView for MessageProcessor {
    type V = MessageProcessorModel;

    open spec fn deep_view(&self) -> MessageProcessorModel {
        self.view()
    }
}

impl MessageProcessor {
    /// A copy of the processor that carries the same model.
    pub fn duplicate(&self) -> (r: MessageProcessor)
        ensures
            r@ == self@,
    {
        let mut out_data: Vec<Vec<u8>> = Vec::new();
        let mut i: usize = 0;
        while i < self.out_data.len()
            invariant
                i <= self.out_data@.len(),
                out_data.deep_view() == self.out_data.deep_view().take(i as int),
            decreases self.out_data@.len() - i,
        {
            let copied = crate::util::copy_bytes(&self.out_data[i]);
            let ghost dv_before = out_data.deep_view();
            proof {
                crate::util::lemma_vec_deep_view_index(out_data);
                assert(copied.deep_view() =~= copied@);
                assert(self.out_data@[i as int].deep_view() =~= self.out_data@[i as int]@);
            }
            out_data.push(copied);
            proof {
                crate::util::lemma_vec_deep_view_index(out_data);
                crate::util::lemma_vec_deep_view_index(self.out_data);
                assert(out_data.deep_view() =~= dv_before.push(copied.deep_view()));
                assert(out_data.deep_view() =~= self.out_data.deep_view().take(i + 1));
            }
            i = i + 1;
        }
        proof {
            assert(self.out_data.deep_view().take(i as int) =~= self.out_data.deep_view());
        }
        MessageProcessor {
            init_state: self.init_state,
            last_rx_cnt: self.last_rx_cnt,
            in_data: crate::util::copy_bytes(&self.in_data),
            out_data,
            process_data_len: self.process_data_len,
        }
    }
}

impl ProcessOutput {
    /// A field-for-field copy of the frame.
    pub fn duplicate(&self) -> (r: ProcessOutput)
        ensures
            r@ == self@,
    {
        let data = crate::util::copy_bytes(&self.data);
        ProcessOutput {
            rx_buf_flush: self.rx_buf_flush,
            tx_buf_flush: self.tx_buf_flush,
            disable_tx_hw_buffer: self.disable_tx_hw_buffer,
            tx_cnt: self.tx_cnt,
            rx_cnt_ack: self.rx_cnt_ack,
            reset: self.reset,
            data,
        }
    }
}

} // verus!
