//! The firmware's Modbus request and error types, and its reply reader.
use core::marker::PhantomData;
use vstd::prelude::*;
use crate::modbus::rtu::{
    frame_step, fresh_reader, lemma_reply_matches_request, response_value, reader_wait_us, request_frame, rtu_reply_data, FrameAction,
    FrameReaderState, ReadEvent, RtuFrameReader,
};
use crate::modbus::{
    read_function_code, ModbusDataType, ModbusError, ModbusReadRequest, ModbusReadRequestType,
};

verus! {

/// A read of one value of type `T` from a device's registers.
pub enum ModBusReadRequest<T> where T: for <'a>From<&'a [u8]> + Sized {
    InputRegister { devide_id: u8, address: u16, marker: PhantomData<T> },
    HoldingRegister { devide_id: u8, address: u16, marker: PhantomData<T> },
}

/// What can go wrong while reading a value over Modbus.
#[derive(Debug, Clone, Copy, PartialEq, Eq, Structural)]
pub enum ModBusError {
    ModbusNotConnected,
    CannotRead,
    CannotParse,
}

/// The reply reader of the firmware: every read, the first one too, may wait
/// twice the inter-frame delay.
pub fn frame_reader(interframe_time: u64) -> (r: RtuFrameReader)
    requires
        interframe_time * 2 <= u64::MAX,
    ensures
        r.wf(),
        r@ == fresh_reader((interframe_time * 2) as u64, 1),
        reader_wait_us(r@) == interframe_time * 2,
{
    RtuFrameReader::new(interframe_time * 2, 1)
}

/// The value that the RTU reply `response` carries for a request, as the
/// firmware reads it: `CannotParse` where rmodbus refuses the reply, else the
/// register data read as the requested type.
pub open spec fn firmware_response_value(
    device_id: u8,
    request_type: ModbusReadRequestType,
    data: ModbusDataType,
    response: Seq<u8>,
) -> Result<ModbusDataType, ModbusError> {
    match rtu_reply_data(device_id, read_function_code(request_type), response) {
        None => Err(ModbusError::CannotParse),
        Some(d) => data.parsed(d),
    }
}

/// The firmware reads a reply as the core library does, for the request's
/// own register table, reporting a refused reply as `CannotParse` where the
/// core reports `FrameIntegrityError`: a value comes only from the asked
/// device's reply to the asked read (code 4 for input registers, 3 for holding
/// registers), and it is the big-endian value of the four data bytes.
pub proof fn lemma_firmware_reply_matches_request(
    device_id: u8,
    request_type: ModbusReadRequestType,
    data: ModbusDataType,
    response: Seq<u8>,
)
    ensures
        firmware_response_value(device_id, request_type, data, response) == match response_value(
            device_id,
            request_type,
            data,
            response,
        ) {
            Err(ModbusError::FrameIntegrityError) => Err(ModbusError::CannotParse),
            other => other,
        },
        firmware_response_value(device_id, request_type, data, response) is Ok ==> {
            &&& response.len() == 9
            &&& response[0] == device_id
            &&& response[1] == (if request_type == ModbusReadRequestType::InputRegister {
                4u8
            } else {
                3u8
            })
            &&& firmware_response_value(device_id, request_type, data, response) matches Ok(
                ModbusDataType::F32(bits),
            ) && bits as int == response[3] as int * 0x1000000 + response[4] as int * 0x10000
                + response[5] as int * 0x100 + response[6] as int
        },
{
    lemma_reply_matches_request(device_id, request_type, data, response);
    let func = read_function_code(request_type);
    if let Some(d) = rtu_reply_data(device_id, func, response) {
        crate::modbus::lemma_parsed_is_big_endian(data, d);
    }
}

/// Where a firmware exchange stands.
#[derive(Debug, Clone, Copy, PartialEq, Eq, Structural)]
pub enum FirmwarePhase {
    Writing,
    Flushing,
    /// Waiting one character time for the line to turn around.
    Settling,
    Reading,
    Finished,
}

/// What the serial line did for a firmware exchange.
pub enum FirmwareEvent {
    Read(ReadEvent),
    Written(bool),
    Flushed(bool),
    /// The wait of one character time is over.
    Settled,
}

/// What a firmware exchange asks for next.
pub enum FirmwareAction {
    /// Read from the line, for at most this many microseconds.
    Read(u64),
    /// Write this frame to the line.
    Write(Vec<u8>),
    /// Flush the line.
    Flush,
    /// Wait this many microseconds.
    Sleep(u64),
    /// The exchange is over, with this value or error.
    Done(Result<ModbusDataType, ModbusError>),
}

/// The event that a phase waits for.
pub open spec fn firmware_awaits(phase: FirmwarePhase, event: FirmwareEvent) -> bool {
    match phase {
        FirmwarePhase::Writing => event is Written,
        FirmwarePhase::Flushing => event is Flushed,
        FirmwarePhase::Settling => event is Settled,
        FirmwarePhase::Reading => event is Read,
        FirmwarePhase::Finished => false,
    }
}

/// One register read as the firmware does it: the request frame is written
/// and flushed, the line is given one character time, then the reply is read
/// with twice the inter-frame delay as its silence (see `frame_reader`). A
/// failed write or flush ends the exchange with `ModbusWriteError`, a reply
/// that rmodbus refuses or that does not hold the requested value with
/// `CannotParse`.
pub struct FirmwareExchange {
    request: ModbusReadRequest,
    phase: FirmwarePhase,
    reader: RtuFrameReader,
    t_1_char_us: u64,
}

impl FirmwareExchange {
    pub closed spec fn phase(&self) -> FirmwarePhase {
        self.phase
    }

    pub closed spec fn reader(&self) -> FrameReaderState {
        self.reader@
    }

    pub closed spec fn request(&self) -> ModbusReadRequest {
        self.request
    }

    pub closed spec fn spec_t_1_char_us(&self) -> u64 {
        self.t_1_char_us
    }

    pub closed spec fn wf(&self) -> bool {
        &&& self.reader.wf()
        &&& reader_wait_us(self.reader@) <= u64::MAX
    }

    /// The value the reply read so far would give.
    pub open spec fn reply_value(&self) -> Result<ModbusDataType, ModbusError> {
        firmware_response_value(
            self.request().spec_device_id(),
            self.request().spec_request_type(),
            self.request().spec_requested_data(),
            self.reader().received,
        )
    }

    /// Starts an exchange for `request`: it first writes the request frame.
    pub fn start(request: ModbusReadRequest, interframe_delay_us: u64, t_1_char_us: u64) -> (r: (
        Self,
        FirmwareAction,
    ))
        requires
            interframe_delay_us * 2 <= u64::MAX,
        ensures
            r.0.wf(),
            r.0.request() == request,
            r.0.reader() == fresh_reader((interframe_delay_us * 2) as u64, 1),
            r.0.spec_t_1_char_us() == t_1_char_us,
            match r.1 {
                FirmwareAction::Write(frame) => r.0.phase() == FirmwarePhase::Writing && frame@
                    == request_frame(
                    request.spec_device_id(),
                    request.spec_address(),
                    request.spec_request_type(),
                    request.spec_requested_data(),
                ),
                _ => false,
            },
    {
        let reader = frame_reader(interframe_delay_us);
        let (phase, action) = match request.request_frame() {
            Ok(frame) => (FirmwarePhase::Writing, FirmwareAction::Write(frame)),
            Err(e) => (FirmwarePhase::Finished, FirmwareAction::Done(Err(e))),
        };
        (FirmwareExchange { request, phase, reader, t_1_char_us }, action)
    }

    /// Takes in what the line did and says what to do next.
    pub fn step(&mut self, event: FirmwareEvent) -> (r: FirmwareAction)
        requires
            old(self).wf(),
            firmware_awaits(old(self).phase(), event),
        ensures
            final(self).wf(),
            final(self).request() == old(self).request(),
            final(self).spec_t_1_char_us() == old(self).spec_t_1_char_us(),
            match event {
                FirmwareEvent::Written(ok) => final(self).reader() == old(self).reader() && if ok {
                    &&& final(self).phase() == FirmwarePhase::Flushing
                    &&& r is Flush
                } else {
                    &&& final(self).phase() == FirmwarePhase::Finished
                    &&& r matches FirmwareAction::Done(v) && v == Err::<ModbusDataType, ModbusError>(
                        ModbusError::ModbusWriteError,
                    )
                },
                FirmwareEvent::Flushed(ok) => final(self).reader() == old(self).reader() && if ok {
                    &&& final(self).phase() == FirmwarePhase::Settling
                    &&& r matches FirmwareAction::Sleep(w) && w == old(self).spec_t_1_char_us()
                } else {
                    &&& final(self).phase() == FirmwarePhase::Finished
                    &&& r matches FirmwareAction::Done(v) && v == Err::<ModbusDataType, ModbusError>(
                        ModbusError::ModbusWriteError,
                    )
                },
                FirmwareEvent::Settled => {
                    &&& final(self).phase() == FirmwarePhase::Reading
                    &&& final(self).reader() == old(self).reader()
                    &&& r matches FirmwareAction::Read(w) && w == reader_wait_us(old(self).reader())
                },
                FirmwareEvent::Read(ev) => {
                    let (next, action) = frame_step(old(self).reader(), ev);
                    &&& final(self).reader() == next
                    &&& match action {
                        FrameAction::Wait(wait) => {
                            &&& final(self).phase() == FirmwarePhase::Reading
                            &&& r matches FirmwareAction::Read(w) && w == wait
                        },
                        FrameAction::Done(outcome) => {
                            &&& final(self).phase() == FirmwarePhase::Finished
                            &&& r matches FirmwareAction::Done(v) && v == match outcome {
                                Ok(()) => final(self).reply_value(),
                                Err(e) => Err(e),
                            }
                        },
                    }
                },
            },
    {
        match event {
            FirmwareEvent::Written(ok) => {
                if ok {
                    self.phase = FirmwarePhase::Flushing;
                    FirmwareAction::Flush
                } else {
                    self.phase = FirmwarePhase::Finished;
                    FirmwareAction::Done(Err(ModbusError::ModbusWriteError))
                }
            },
            FirmwareEvent::Flushed(ok) => {
                if ok {
                    self.phase = FirmwarePhase::Settling;
                    FirmwareAction::Sleep(self.t_1_char_us)
                } else {
                    self.phase = FirmwarePhase::Finished;
                    FirmwareAction::Done(Err(ModbusError::ModbusWriteError))
                }
            },
            FirmwareEvent::Settled => {
                self.phase = FirmwarePhase::Reading;
                FirmwareAction::Read(self.reader.wait_us())
            },
            FirmwareEvent::Read(ev) => {
                match self.reader.step(ev) {
                    FrameAction::Wait(wait) => FirmwareAction::Read(wait),
                    FrameAction::Done(outcome) => {
                        self.phase = FirmwarePhase::Finished;
                        match outcome {
                            Ok(()) => {
                                let response = self.reader.frame();
                                match self.request.parse_response(response) {
                                    Err(ModbusError::FrameIntegrityError) => FirmwareAction::Done(
                                        Err(ModbusError::CannotParse),
                                    ),
                                    other => FirmwareAction::Done(other),
                                }
                            },
                            Err(e) => FirmwareAction::Done(Err(e)),
                        }
                    },
                }
            },
        }
    }
}

} // verus!
