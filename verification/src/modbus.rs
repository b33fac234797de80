//! Modbus RTU register reads: the request, the frame sent for it, the
//! decoding of the reply, and the reading of a reply frame off the serial line.
use vstd::prelude::*;

pub mod rtu;

verus! {

/// Which register table a read request addresses.
#[derive(Debug, Clone, Copy, PartialEq, Eq, Structural)]
pub enum ModbusReadRequestType {
    InputRegister,
    HoldingRegister,
}

/// A value read from registers. A 32-bit float is held as its IEEE 754
/// bit pattern.
#[derive(Debug, Clone, Copy, PartialEq, Eq, Structural)]
#[non_exhaustive]
pub enum ModbusDataType {
    F32(u32),
}

/// What can go wrong while reading a value over Modbus.
#[derive(Debug, Clone, Copy, PartialEq, Eq, Structural)]
pub enum ModbusError {
    ModbusWriteError,
    CannotBuildRequest,
    ModbusReadError,
    ModbusReadOverflow,
    ModbusReadTimeout,
    CannotParse,
    FrameIntegrityError,
    CannotConvertToString { string_length: usize },
}

/// The big-endian value of four bytes.
pub open spec fn be_u32(b: Seq<u8>) -> u32
    recommends
        b.len() == 4,
{
    (b[0] as int * 0x1000000 + b[1] as int * 0x10000 + b[2] as int * 0x100 + b[3] as int) as u32
}

impl ModbusDataType {
    /// How many 16-bit registers hold a value of this type.
    pub open spec fn register_count(self) -> usize {
        match self {
            ModbusDataType::F32(_) => 2,
        }
    }

    /// The value of this type that the register contents `data` hold, or
    /// `CannotParse` where `data` is not the size of one.
    pub open spec fn parsed(self, data: Seq<u8>) -> Result<ModbusDataType, ModbusError> {
        match self {
            ModbusDataType::F32(_) => if data.len() == 4 {
                Ok(ModbusDataType::F32(be_u32(data)))
            } else {
                Err(ModbusError::CannotParse)
            },
        }
    }

    /// How many 16-bit registers hold a value of this type.
    pub fn count(&self) -> (r: usize)
        ensures
            r == self.register_count(),
    {
        match self {
            ModbusDataType::F32(_) => 2,
        }
    }

    /// Reads a value of this type from register contents, most significant
    /// byte first.
    pub fn try_parse(self, data: &[u8]) -> (r: Result<Self, ModbusError>)
        ensures
            r == self.parsed(data@),
            data@.len() == 4 ==> (r matches Ok(ModbusDataType::F32(bits)) && bits as int == data@[0]
                as int * 0x1000000 + data@[1] as int * 0x10000 + data@[2] as int * 0x100
                + data@[3] as int),
            data@.len() != 4 ==> r == Err::<Self, ModbusError>(ModbusError::CannotParse),
    {
        proof {
            lemma_parsed_is_big_endian(self, data@);
        }
        match self {
            ModbusDataType::F32(_) => {
                if data.len() != 4 {
                    return Err(ModbusError::CannotParse);
                }
                let bits: u32 = data[0] as u32 * 0x1000000 + data[1] as u32 * 0x10000
                    + data[2] as u32 * 0x100 + data[3] as u32;
                Ok(ModbusDataType::F32(bits))
            },
        }
    }
}

/// Register contents are read most significant byte first: four bytes give
/// the float whose bit pattern has them in the same order, and any other
/// number of bytes is refused.
pub proof fn lemma_parsed_is_big_endian(d: ModbusDataType, b: Seq<u8>)
    ensures
        b.len() == 4 ==> (d.parsed(b) matches Ok(ModbusDataType::F32(bits)) && bits as int == b[0]
            as int * 0x1000000 + b[1] as int * 0x10000 + b[2] as int * 0x100 + b[3] as int
            && bits / 0x1000000 == b[0] && (bits / 0x10000) % 0x100 == b[1] && (bits / 0x100)
            % 0x100 == b[2] && bits % 0x100 == b[3]),
        b.len() != 4 ==> d.parsed(b) == Err::<ModbusDataType, ModbusError>(
            ModbusError::CannotParse,
        ),
{
    if b.len() == 4 {
        let (b0, b1, b2, b3) = (b[0] as int, b[1] as int, b[2] as int, b[3] as int);
        let v = b0 * 0x1000000 + b1 * 0x10000 + b2 * 0x100 + b3;
        assert(0 <= v < 0x100000000);
        assert(v / 0x1000000 == b0 && (v / 0x10000) % 0x100 == b1 && (v / 0x100) % 0x100 == b2
            && v % 0x100 == b3) by (nonlinear_arith)
            requires
                0 <= b0 < 256,
                0 <= b1 < 256,
                0 <= b2 < 256,
                0 <= b3 < 256,
                v == b0 * 0x1000000 + b1 * 0x10000 + b2 * 0x100 + b3,
        ;
        assert(be_u32(b) as int == v);
    }
}

/// A read of one value from a device's registers.
pub struct ModbusReadRequest {
    device_id: u8,
    address: u16,
    request_type: ModbusReadRequestType,
    requested_data: ModbusDataType,
}

/// The Modbus function code that reads a register table: 4 for input
/// registers, 3 for holding registers.
pub open spec fn read_function_code(t: ModbusReadRequestType) -> u8 {
    match t {
        ModbusReadRequestType::InputRegister => 4,
        ModbusReadRequestType::HoldingRegister => 3,
    }
}

impl ModbusReadRequest {
    pub closed spec fn spec_device_id(&self) -> u8 {
        self.device_id
    }

    pub closed spec fn spec_address(&self) -> u16 {
        self.address
    }

    pub closed spec fn spec_request_type(&self) -> ModbusReadRequestType {
        self.request_type
    }

    pub closed spec fn spec_requested_data(&self) -> ModbusDataType {
        self.requested_data
    }

    pub fn new(
        device_id: u8,
        address: u16,
        request_type: ModbusReadRequestType,
        requested_data: ModbusDataType,
    ) -> (r: Self)
        ensures
            r.spec_device_id() == device_id,
            r.spec_address() == address,
            r.spec_request_type() == request_type,
            r.spec_requested_data() == requested_data,
    {
        Self { device_id, address, request_type, requested_data }
    }

    pub fn device_id(&self) -> (r: u8)
        ensures
            r == self.spec_device_id(),
    {
        self.device_id
    }

    pub fn address(&self) -> (r: u16)
        ensures
            r == self.spec_address(),
    {
        self.address
    }

    pub fn request_type(&self) -> (r: ModbusReadRequestType)
        ensures
            r == self.spec_request_type(),
    {
        self.request_type
    }

    pub fn requested_data(&self) -> (r: ModbusDataType)
        ensures
            r == self.spec_requested_data(),
    {
        self.requested_data
    }
}

} // verus!
