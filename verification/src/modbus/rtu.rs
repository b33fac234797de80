//! The RTU side of a register read: the request frame that rmodbus builds,
//! the reply that rmodbus checks, and the reading of a reply frame.
use vstd::prelude::*;
use rmodbus::client::ModbusRequest;
use rmodbus::{ErrorKind, ModbusProto};
use crate::modbus::{
    read_function_code, ModbusDataType, ModbusError, ModbusReadRequest, ModbusReadRequestType,
};

verus! {

#[verifier::external_type_specification]
#[verifier::external_body]
pub struct ExModbusErrorKind(ErrorKind);

/// `crc` after shifting out `n` bits, as the CRC-16/Modbus loop does: a low
/// bit of 1 shifts in the polynomial `0xA001`.
pub open spec fn crc16_shift(crc: u16, n: nat) -> u16
    decreases n,
{
    if n == 0 {
        crc
    } else {
        let c = crc16_shift(crc, (n - 1) as nat);
        if c & 1 == 0 {
            c >> 1
        } else {
            (c >> 1) ^ 0xA001
        }
    }
}

/// The CRC-16/Modbus of `data`, continued from `crc`.
pub open spec fn crc16_from(crc: u16, data: Seq<u8>) -> u16
    decreases data.len(),
{
    if data.len() == 0 {
        crc
    } else {
        crc16_from(crc16_shift(crc ^ (data[0] as u16), 8), data.drop_first())
    }
}

/// The CRC-16/Modbus of `data` (starting value `0xFFFF`).
pub open spec fn crc16(data: Seq<u8>) -> u16 {
    crc16_from(0xFFFF, data)
}

/// `data` followed by its CRC, least significant byte first.
pub open spec fn with_crc(data: Seq<u8>) -> Seq<u8> {
    data + seq![(crc16(data) % 256) as u8, (crc16(data) / 256) as u8]
}

/// The six bytes that open a register-read frame: device, function code,
/// first register and register count, both most significant byte first.
pub open spec fn read_frame_header(unit_id: u8, func: u8, reg: u16, count: u16) -> Seq<u8> {
    seq![unit_id, func, (reg / 256) as u8, (reg % 256) as u8, (count / 256) as u8, (count % 256) as u8]
}

/// The function codes whose replies carry no byte count: writes of one or
/// many coils or holding registers.
pub open spec fn is_write_function(func: u8) -> bool {
    func == 5 || func == 6 || func == 15 || func == 16
}

/// The data that an RTU reply carries, or `None` where it is refused: it
/// must be 5 to 257 bytes long, end with the CRC of the rest, come from device
/// `unit_id` with function code `func`, and, for a read (codes 1 to 4), hold a
/// byte count whose double is at least the number of bytes between it and the
/// CRC. The data are the bytes before the CRC, after the byte count (after the
/// function code for a write).
pub open spec fn rtu_reply_data(unit_id: u8, func: u8, response: Seq<u8>) -> Option<Seq<u8>> {
    let n = response.len();
    if 5 <= n <= 257 && crc16(response.take(n - 2)) == response[n - 2] as int + response[n - 1]
        as int * 256 && response[0] == unit_id && response[1] == func && (0 < func < 5
        ==> response[2] * 2 >= n - 5) {
        if is_write_function(func) {
            Some(response.subrange(2, n - 2))
        } else {
            Some(response.subrange(3, n - 2))
        }
    } else {
        None
    }
}

/// `rmodbus::client::ModbusRequest::generate_get_inputs` on an RTU request
/// for `unit_id`. From its source: with a `Vec` to write into it does not fail;
/// it writes the header with function code 4, then its CRC-16/Modbus.
#[verifier::external_body]
fn rtu_generate_get_inputs(unit_id: u8, reg: u16, count: u16) -> (r: Result<Vec<u8>, ErrorKind>)
    ensures
        r is Ok,
        r matches Ok(frame) ==> frame@ == with_crc(read_frame_header(unit_id, 4, reg, count)),
{
    let mut request = ModbusRequest::new(unit_id, ModbusProto::Rtu);
    let mut frame = Vec::new();
    request.generate_get_inputs(reg, count, &mut frame).map(|()| frame)
}

/// `rmodbus::client::ModbusRequest::generate_get_holdings` on an RTU request
/// for `unit_id`; as `rtu_generate_get_inputs`, with function code 3.
#[verifier::external_body]
fn rtu_generate_get_holdings(unit_id: u8, reg: u16, count: u16) -> (r: Result<Vec<u8>, ErrorKind>)
    ensures
        r is Ok,
        r matches Ok(frame) ==> frame@ == with_crc(read_frame_header(unit_id, 3, reg, count)),
{
    let mut request = ModbusRequest::new(unit_id, ModbusProto::Rtu);
    let mut frame = Vec::new();
    request.generate_get_holdings(reg, count, &mut frame).map(|()| frame)
}

/// `rmodbus::client::ModbusRequest::parse_slice` on an RTU request for
/// `unit_id` with function code `func` (the only parts of the request that it
/// reads for RTU). From its source: it accepts exactly the replies that
/// `rtu_reply_data` accepts and gives their data; which error it gives for a
/// refused reply is not stated.
#[verifier::external_body]
fn rtu_parse_slice(unit_id: u8, func: u8, response: &[u8]) -> (r: Result<Vec<u8>, ErrorKind>)
    ensures
        r is Ok <==> rtu_reply_data(unit_id, func, response@) is Some,
        r matches Ok(data) ==> data@ == rtu_reply_data(unit_id, func, response@).unwrap(),
{
    let request = ModbusRequest { tr_id: 1, unit_id, func, reg: 0, count: 0, proto: ModbusProto::Rtu };
    request.parse_slice(response).map(|data| data.to_vec())
}

/// The frame that asks for `request`: a read of as many registers as the
/// requested value takes, from the address, on the device, with its CRC.
pub open spec fn request_frame(
    device_id: u8,
    address: u16,
    request_type: ModbusReadRequestType,
    data: ModbusDataType,
) -> Seq<u8> {
    with_crc(
        read_frame_header(
            device_id,
            read_function_code(request_type),
            address,
            data.register_count() as u16,
        ),
    )
}

/// The value that the RTU reply `response` carries for a request:
/// `FrameIntegrityError` where rmodbus refuses the reply, else the register
/// data read as the requested type.
pub open spec fn response_value(
    device_id: u8,
    request_type: ModbusReadRequestType,
    data: ModbusDataType,
    response: Seq<u8>,
) -> Result<ModbusDataType, ModbusError> {
    match rtu_reply_data(device_id, read_function_code(request_type), response) {
        None => Err(ModbusError::FrameIntegrityError),
        Some(d) => data.parsed(d),
    }
}

/// The frame sent for a read: the device, the function code (4 for input
/// registers, 3 for holding registers), the first register and the register
/// count, both most significant byte first, then the CRC-16/Modbus of those
/// six bytes, least significant byte first.
pub proof fn lemma_request_frame_layout(
    device_id: u8,
    address: u16,
    request_type: ModbusReadRequestType,
    data: ModbusDataType,
)
    ensures
        ({
            let f = request_frame(device_id, address, request_type, data);
            &&& f.len() == 8
            &&& f[0] == device_id
            &&& f[1] == (if request_type == ModbusReadRequestType::InputRegister {
                4u8
            } else {
                3u8
            })
            &&& f[2] as int * 256 + f[3] as int == address as int
            &&& f[4] as int * 256 + f[5] as int == 2
            &&& f[6] as int + f[7] as int * 256 == crc16(f.take(6)) as int
        }),
{
    let f = request_frame(device_id, address, request_type, data);
    let h = read_frame_header(
        device_id,
        read_function_code(request_type),
        address,
        data.register_count() as u16,
    );
    assert(f.take(6) =~= h);
    let crc = crc16(h);
    assert((crc % 256) as u8 as int + (crc / 256) as u8 as int * 256 == crc as int);
    assert((address / 256) as u8 as int * 256 + (address % 256) as u8 as int == address as int);
}

/// How a reply frame is read: bytes that arrive are kept in order, where all
/// of them fit in 256, and the next read waits one inter-frame delay; bytes
/// that would make more than 256 end the read with `ModbusReadOverflow` and
/// are dropped; a failed read ends it with `ModbusReadError`; silence ends it,
/// complete where some byte arrived and with `ModbusReadTimeout` where none
/// did. Nothing else changes what was received.
pub proof fn lemma_frame_reading(s: FrameReaderState, event: ReadEvent)
    ensures
        ({
            let (t, a) = frame_step(s, event);
            &&& t.max_interframe_us == s.max_interframe_us
            &&& t.first_bit_variance == s.first_bit_variance
            &&& match event {
                ReadEvent::Received(data) => if s.received.len() + data@.len() <= 256 {
                    &&& t.received == s.received + data@
                    &&& !t.awaiting_first
                    &&& a == FrameAction::Wait(s.max_interframe_us)
                } else {
                    &&& t == s
                    &&& a == FrameAction::Done(Err(ModbusError::ModbusReadOverflow))
                },
                ReadEvent::Failed => t == s && a == FrameAction::Done(
                    Err(ModbusError::ModbusReadError),
                ),
                ReadEvent::TimedOut => t == s && (s.received.len() == 0 ==> a == FrameAction::Done(
                    Err(ModbusError::ModbusReadTimeout),
                )) && (s.received.len() > 0 ==> a == FrameAction::Done(Ok(()))),
            }
        }),
        reader_wait_us(s) == if s.awaiting_first {
            s.max_interframe_us * s.first_bit_variance
        } else {
            s.max_interframe_us as int
        },
        fresh_reader(s.max_interframe_us, s.first_bit_variance).received.len() == 0,
        fresh_reader(s.max_interframe_us, s.first_bit_variance).awaiting_first,
{
}

/// A value is taken only from a reply of the asked device to the asked read:
/// function code 4 for input registers, 3 for holding registers; and it is
/// the big-endian value of the four bytes after the byte count.
pub proof fn lemma_reply_matches_request(
    device_id: u8,
    request_type: ModbusReadRequestType,
    data: ModbusDataType,
    response: Seq<u8>,
)
    ensures
        response_value(device_id, request_type, data, response) is Ok ==> {
            &&& response.len() == 9
            &&& response[0] == device_id
            &&& response[1] == (if request_type == ModbusReadRequestType::InputRegister {
                4u8
            } else {
                3u8
            })
            &&& response_value(device_id, request_type, data, response) matches Ok(
                ModbusDataType::F32(bits),
            ) && bits as int == response[3] as int * 0x1000000 + response[4] as int * 0x10000
                + response[5] as int * 0x100 + response[6] as int
        },
{
    let func = read_function_code(request_type);
    if let Some(d) = rtu_reply_data(device_id, func, response) {
        crate::modbus::lemma_parsed_is_big_endian(data, d);
    }
}

/// A well-formed reply of the asked device to the asked read, carrying four
/// data bytes after a byte count of 4, gives their big-endian value.
pub proof fn lemma_well_formed_reply_value(
    device_id: u8,
    request_type: ModbusReadRequestType,
    x: u32,
    b0: u8,
    b1: u8,
    b2: u8,
    b3: u8,
)
    ensures
        response_value(
            device_id,
            request_type,
            ModbusDataType::F32(x),
            with_crc(seq![device_id, read_function_code(request_type), 4u8, b0, b1, b2, b3]),
        ) matches Ok(ModbusDataType::F32(bits)) && bits as int == b0 as int * 0x1000000 + b1 as int
            * 0x10000 + b2 as int * 0x100 + b3 as int,
{
    let func = read_function_code(request_type);
    let body = seq![device_id, func, 4u8, b0, b1, b2, b3];
    let r = with_crc(body);
    let crc = crc16(body);
    assert(r.len() == 9);
    assert(r.take(7) =~= body);
    assert((crc % 256) as u8 as int + (crc / 256) as u8 as int * 256 == crc as int);
    assert(r.subrange(3, 7) =~= seq![b0, b1, b2, b3]);
    assert(rtu_reply_data(device_id, func, r) == Some(seq![b0, b1, b2, b3]));
    crate::modbus::lemma_parsed_is_big_endian(ModbusDataType::F32(x), seq![b0, b1, b2, b3]);
}

impl ModbusReadRequest {
    /// The RTU frame to send for this request: a read of as many registers as
    /// the requested value takes, from the request's address, on its device.
    pub fn request_frame(&self) -> (r: Result<Vec<u8>, ModbusError>)
        ensures
            r matches Ok(frame) && frame@ == request_frame(
                self.spec_device_id(),
                self.spec_address(),
                self.spec_request_type(),
                self.spec_requested_data(),
            ),
    {
        let count = self.requested_data().count() as u16;
        let generated = match self.request_type() {
            ModbusReadRequestType::InputRegister => rtu_generate_get_inputs(
                self.device_id(),
                self.address(),
                count,
            ),
            ModbusReadRequestType::HoldingRegister => rtu_generate_get_holdings(
                self.device_id(),
                self.address(),
                count,
            ),
        };
        match generated {
            Ok(frame) => Ok(frame),
            Err(_) => Err(ModbusError::CannotBuildRequest),
        }
    }

    /// The value that the RTU reply `response` carries for this request (see
    /// `response_value`).
    pub fn parse_response(&self, response: &[u8]) -> (r: Result<ModbusDataType, ModbusError>)
        ensures
            r == response_value(
                self.spec_device_id(),
                self.spec_request_type(),
                self.spec_requested_data(),
                response@,
            ),
            r is Ok ==> 5 <= response@.len() <= 257 && response@[0] == self.spec_device_id()
                && response@[1] == read_function_code(self.spec_request_type()) && r
                == self.spec_requested_data().parsed(response@.subrange(3, response@.len() - 2)),
    {
        let func: u8 = match self.request_type() {
            ModbusReadRequestType::InputRegister => 4,
            ModbusReadRequestType::HoldingRegister => 3,
        };
        match rtu_parse_slice(self.device_id(), func, response) {
            Ok(data) => self.requested_data().try_parse(data.as_slice()),
            Err(_) => Err(ModbusError::FrameIntegrityError),
        }
    }
}

#[verifier::external_type_specification]
#[verifier::external_body]
#[verifier::reject_recursive_types(T)]
pub struct ExHeaplessVec<T, const N: usize>(heapless::Vec<T, N>);

/// The largest RTU frame that a reply buffer holds.
pub const FRAME_CAPACITY: usize = 256;

/// The bytes held by a reply buffer.
pub uninterp spec fn frame_buffer_bytes(buffer: heapless::Vec<u8, 256>) -> Seq<u8>;

/// `heapless::Vec::new`: an empty buffer.
#[verifier::external_body]
fn frame_buffer_new() -> (r: heapless::Vec<u8, 256>)
    ensures
        frame_buffer_bytes(r) == Seq::<u8>::empty(),
{
    heapless::Vec::new()
}

/// `heapless::Vec::extend_from_slice`: appends `data` where the buffer has
/// room for all of it, and otherwise fails and leaves the buffer as it was.
#[verifier::external_body]
fn frame_buffer_extend(buffer: &mut heapless::Vec<u8, 256>, data: &[u8]) -> (r: Result<(), ()>)
    ensures
        frame_buffer_bytes(*old(buffer)).len() + data@.len() <= 256 ==> r is Ok
            && frame_buffer_bytes(*final(buffer)) == frame_buffer_bytes(*old(buffer)) + data@,
        frame_buffer_bytes(*old(buffer)).len() + data@.len() > 256 ==> r is Err
            && frame_buffer_bytes(*final(buffer)) == frame_buffer_bytes(*old(buffer)),
{
    buffer.extend_from_slice(data)
}

/// `heapless::Vec::is_empty`.
#[verifier::external_body]
fn frame_buffer_is_empty(buffer: &heapless::Vec<u8, 256>) -> (r: bool)
    ensures
        r == (frame_buffer_bytes(*buffer).len() == 0),
{
    buffer.is_empty()
}

/// `heapless::Vec::as_slice`: the bytes held.
#[verifier::external_body]
fn frame_buffer_as_slice(buffer: &heapless::Vec<u8, 256>) -> (r: &[u8])
    ensures
        r@ == frame_buffer_bytes(*buffer),
{
    buffer.as_slice()
}

/// What the serial line did while the reader waited on it.
pub enum ReadEvent {
    /// A read gave these bytes.
    Received(Vec<u8>),
    /// A read failed.
    Failed,
    /// The wait ran out before a read gave anything.
    TimedOut,
}

/// What the reader asks for next.
#[derive(Debug, PartialEq, Eq)]
pub enum FrameAction {
    /// Read again, for at most this many microseconds.
    Wait(u64),
    /// The frame is complete, or reading it failed.
    Done(Result<(), ModbusError>),
}

/// The state of a frame reader.
pub struct FrameReaderState {
    /// The bytes received so far.
    pub received: Seq<u8>,
    /// No read has given bytes yet.
    pub awaiting_first: bool,
    pub max_interframe_us: u64,
    pub first_bit_variance: u8,
}

/// A reader that has received nothing yet.
pub open spec fn fresh_reader(max_interframe_us: u64, first_bit_variance: u8) -> FrameReaderState {
    FrameReaderState {
        received: Seq::empty(),
        awaiting_first: true,
        max_interframe_us,
        first_bit_variance,
    }
}

/// How long the next read may wait, in microseconds: the inter-frame delay,
/// times `first_bit_variance` before the first bytes.
pub open spec fn reader_wait_us(s: FrameReaderState) -> int {
    if s.awaiting_first {
        s.max_interframe_us * s.first_bit_variance
    } else {
        s.max_interframe_us as int
    }
}

/// What a reader does with an event: received bytes are kept, where they all
/// fit, and the reader reads again for one inter-frame delay; bytes that do not
/// fit end the frame with `ModbusReadOverflow`; a failed read ends it with
/// `ModbusReadError`; silence ends it, complete where bytes were received and
/// with `ModbusReadTimeout` where none were.
pub open spec fn frame_step(s: FrameReaderState, event: ReadEvent) -> (FrameReaderState, FrameAction) {
    match event {
        ReadEvent::Received(data) => if s.received.len() + data@.len() <= FRAME_CAPACITY {
            (
                FrameReaderState { received: s.received + data@, awaiting_first: false, ..s },
                FrameAction::Wait(s.max_interframe_us),
            )
        } else {
            (s, FrameAction::Done(Err(ModbusError::ModbusReadOverflow)))
        },
        ReadEvent::Failed => (s, FrameAction::Done(Err(ModbusError::ModbusReadError))),
        ReadEvent::TimedOut => (
            s,
            FrameAction::Done(
                if s.received.len() > 0 {
                    Ok(())
                } else {
                    Err(ModbusError::ModbusReadTimeout)
                },
            ),
        ),
    }
}

/// Reads one RTU frame: it collects what the serial line gives until the line
/// has been silent for one inter-frame delay (for the first read, that delay
/// times `first_bit_variance`). A frame that outgrows the buffer, a failed read,
/// and silence before any byte end the read with an error.
pub struct RtuFrameReader {
    buffer: heapless::Vec<u8, 256>,
    first: bool,
    max_interframe_us: u64,
    first_bit_variance: u8,
}

impl View for RtuFrameReader {
    type V = FrameReaderState;

    closed spec fn view(&self) -> FrameReaderState {
        FrameReaderState {
            received: frame_buffer_bytes(self.buffer),
            awaiting_first: self.first,
            max_interframe_us: self.max_interframe_us,
            first_bit_variance: self.first_bit_variance,
        }
    }
}

impl RtuFrameReader {
    /// The buffer holds no more than it can.
    pub open spec fn wf(&self) -> bool {
        self@.received.len() <= FRAME_CAPACITY
    }

    pub fn new(max_interframe_us: u64, first_bit_variance: u8) -> (r: Self)
        ensures
            r.wf(),
            r@ == fresh_reader(max_interframe_us, first_bit_variance),
    {
        RtuFrameReader { buffer: frame_buffer_new(), first: true, max_interframe_us, first_bit_variance }
    }

    /// How long the next read may wait, in microseconds.
    pub fn wait_us(&self) -> (r: u64)
        requires
            reader_wait_us(self@) <= u64::MAX,
        ensures
            r == reader_wait_us(self@),
    {
        if self.first {
            self.max_interframe_us * self.first_bit_variance as u64
        } else {
            self.max_interframe_us
        }
    }

    /// The bytes received so far.
    pub fn frame(&self) -> (r: &[u8])
        ensures
            r@ == self@.received,
    {
        frame_buffer_as_slice(&self.buffer)
    }

    /// Takes in what the serial line did and says what to do next.
    pub fn step(&mut self, event: ReadEvent) -> (r: FrameAction)
        requires
            old(self).wf(),
        ensures
            final(self).wf(),
            (final(self)@, r) == frame_step(old(self)@, event),
    {
        match event {
            ReadEvent::Received(data) => {
                match frame_buffer_extend(&mut self.buffer, data.as_slice()) {
                    Ok(()) => {
                        self.first = false;
                        FrameAction::Wait(self.max_interframe_us)
                    },
                    Err(()) => FrameAction::Done(Err(ModbusError::ModbusReadOverflow)),
                }
            },
            ReadEvent::Failed => FrameAction::Done(Err(ModbusError::ModbusReadError)),
            ReadEvent::TimedOut => {
                if !frame_buffer_is_empty(&self.buffer) {
                    FrameAction::Done(Ok(()))
                } else {
                    FrameAction::Done(Err(ModbusError::ModbusReadTimeout))
                }
            },
        }
    }
}

/// Where an exchange stands.
#[derive(Debug, Clone, Copy, PartialEq, Eq, Structural)]
pub enum ExchangePhase {
    /// Emptying the line of what came before the request.
    Draining,
    /// Writing the request frame.
    Writing,
    /// Flushing the request frame out.
    Flushing,
    /// Reading the reply frame.
    Reading,
    /// The exchange is over.
    Finished,
}

/// What the serial line did for an exchange.
pub enum ExchangeEvent {
    /// A read ended as given.
    Read(ReadEvent),
    /// Writing the request frame succeeded (`true`) or failed.
    Written(bool),
    /// Flushing succeeded (`true`) or failed.
    Flushed(bool),
}

/// What an exchange asks for next.
pub enum ExchangeAction {
    /// Read from the line, for at most this many microseconds.
    Read(u64),
    /// Write this frame to the line.
    Write(Vec<u8>),
    /// Flush the line.
    Flush,
    /// The exchange is over, with this value or error.
    Done(Result<ModbusDataType, ModbusError>),
}

/// The event that a phase waits for.
pub open spec fn awaits(phase: ExchangePhase, event: ExchangeEvent) -> bool {
    match phase {
        ExchangePhase::Draining | ExchangePhase::Reading => event is Read,
        ExchangePhase::Writing => event is Written,
        ExchangePhase::Flushing => event is Flushed,
        ExchangePhase::Finished => false,
    }
}

/// One register read over an RTU line: first whatever is on the line is read
/// and dropped (until one inter-frame delay of silence, whatever the outcome),
/// then the request frame is written and flushed, then the reply frame is read
/// (see `RtuFrameReader`) and its value taken. A failed write or flush ends
/// the exchange with `ModbusWriteError`.
pub struct RtuExchange {
    request: ModbusReadRequest,
    phase: ExchangePhase,
    reader: RtuFrameReader,
    max_interframe_us: u64,
    first_bit_variance: u8,
}

impl RtuExchange {
    pub closed spec fn phase(&self) -> ExchangePhase {
        self.phase
    }

    pub closed spec fn reader(&self) -> FrameReaderState {
        self.reader@
    }

    pub closed spec fn request(&self) -> ModbusReadRequest {
        self.request
    }

    pub closed spec fn spec_max_interframe_us(&self) -> u64 {
        self.max_interframe_us
    }

    pub closed spec fn spec_first_bit_variance(&self) -> u8 {
        self.first_bit_variance
    }

    /// The reader holds no more than it can, and the first wait for the reply
    /// fits in a `u64`.
    pub closed spec fn wf(&self) -> bool {
        &&& self.reader.wf()
        &&& self.max_interframe_us * self.first_bit_variance <= u64::MAX
        &&& (self.phase == ExchangePhase::Draining ==> self.reader@.max_interframe_us
            == self.max_interframe_us && self.reader@.first_bit_variance == 1)
    }

    /// The value the reply read so far would give.
    pub open spec fn reply_value(&self) -> Result<ModbusDataType, ModbusError> {
        response_value(
            self.request().spec_device_id(),
            self.request().spec_request_type(),
            self.request().spec_requested_data(),
            self.reader().received,
        )
    }

    /// Starts an exchange for `request`: it first reads for one inter-frame
    /// delay to empty the line.
    pub fn start(request: ModbusReadRequest, max_interframe_us: u64, first_bit_variance: u8) -> (r: (
        Self,
        ExchangeAction,
    ))
        requires
            max_interframe_us * first_bit_variance <= u64::MAX,
        ensures
            r.0.wf(),
            r.0.phase() == ExchangePhase::Draining,
            r.0.request() == request,
            r.0.reader() == fresh_reader(max_interframe_us, 1),
            r.0.spec_max_interframe_us() == max_interframe_us,
            r.0.spec_first_bit_variance() == first_bit_variance,
            r.1 matches ExchangeAction::Read(wait) && wait == max_interframe_us,
    {
        let reader = RtuFrameReader::new(max_interframe_us, 1);
        let wait = reader.wait_us();
        (
            RtuExchange {
                request,
                phase: ExchangePhase::Draining,
                reader,
                max_interframe_us,
                first_bit_variance,
            },
            ExchangeAction::Read(wait),
        )
    }

    /// Takes in what the line did and says what to do next.
    pub fn step(&mut self, event: ExchangeEvent) -> (r: ExchangeAction)
        requires
            old(self).wf(),
            awaits(old(self).phase(), event),
        ensures
            final(self).wf(),
            final(self).request() == old(self).request(),
            final(self).spec_max_interframe_us() == old(self).spec_max_interframe_us(),
            final(self).spec_first_bit_variance() == old(self).spec_first_bit_variance(),
            match event {
                ExchangeEvent::Read(ev) => {
                    let (next, action) = frame_step(old(self).reader(), ev);
                    match action {
                        FrameAction::Wait(wait) => {
                            &&& final(self).phase() == old(self).phase()
                            &&& final(self).reader() == next
                            &&& r matches ExchangeAction::Read(w) && w == wait
                        },
                        FrameAction::Done(outcome) => if old(self).phase()
                            == ExchangePhase::Draining {
                            &&& final(self).phase() == ExchangePhase::Writing
                            &&& final(self).reader() == next
                            &&& r matches ExchangeAction::Write(frame) && frame@ == request_frame(
                                old(self).request().spec_device_id(),
                                old(self).request().spec_address(),
                                old(self).request().spec_request_type(),
                                old(self).request().spec_requested_data(),
                            )
                        } else {
                            &&& final(self).phase() == ExchangePhase::Finished
                            &&& final(self).reader() == next
                            &&& r matches ExchangeAction::Done(v) && v == match outcome {
                                Ok(()) => final(self).reply_value(),
                                Err(e) => Err(e),
                            }
                        },
                    }
                },
                ExchangeEvent::Written(ok) => if ok {
                    &&& final(self).phase() == ExchangePhase::Flushing
                    &&& final(self).reader() == old(self).reader()
                    &&& r is Flush
                } else {
                    &&& final(self).phase() == ExchangePhase::Finished
                    &&& final(self).reader() == old(self).reader()
                    &&& r matches ExchangeAction::Done(v) && v == Err::<ModbusDataType, ModbusError>(
                        ModbusError::ModbusWriteError,
                    )
                },
                ExchangeEvent::Flushed(ok) => if ok {
                    &&& final(self).phase() == ExchangePhase::Reading
                    &&& final(self).reader() == fresh_reader(
                        old(self).spec_max_interframe_us(),
                        old(self).spec_first_bit_variance(),
                    )
                    &&& r matches ExchangeAction::Read(w) && w == old(self).spec_max_interframe_us()
                        * old(self).spec_first_bit_variance()
                } else {
                    &&& final(self).phase() == ExchangePhase::Finished
                    &&& final(self).reader() == old(self).reader()
                    &&& r matches ExchangeAction::Done(v) && v == Err::<ModbusDataType, ModbusError>(
                        ModbusError::ModbusWriteError,
                    )
                },
            },
    {
        match event {
            ExchangeEvent::Read(ev) => {
                match self.reader.step(ev) {
                    FrameAction::Wait(wait) => ExchangeAction::Read(wait),
                    FrameAction::Done(outcome) => {
                        if self.phase == ExchangePhase::Draining {
                            self.phase = ExchangePhase::Writing;
                            match self.request.request_frame() {
                                Ok(frame) => ExchangeAction::Write(frame),
                                Err(e) => {
                                    self.phase = ExchangePhase::Finished;
                                    ExchangeAction::Done(Err(e))
                                },
                            }
                        } else {
                            self.phase = ExchangePhase::Finished;
                            match outcome {
                                Ok(()) => ExchangeAction::Done(
                                    self.request.parse_response(self.reader.frame()),
                                ),
                                Err(e) => ExchangeAction::Done(Err(e)),
                            }
                        }
                    },
                }
            },
            ExchangeEvent::Written(ok) => {
                if ok {
                    self.phase = ExchangePhase::Flushing;
                    ExchangeAction::Flush
                } else {
                    self.phase = ExchangePhase::Finished;
                    ExchangeAction::Done(Err(ModbusError::ModbusWriteError))
                }
            },
            ExchangeEvent::Flushed(ok) => {
                if ok {
                    self.phase = ExchangePhase::Reading;
                    self.reader = RtuFrameReader::new(self.max_interframe_us, self.first_bit_variance);
                    ExchangeAction::Read(self.reader.wait_us())
                } else {
                    self.phase = ExchangePhase::Finished;
                    ExchangeAction::Done(Err(ModbusError::ModbusWriteError))
                }
            },
        }
    }
}

} // verus!
