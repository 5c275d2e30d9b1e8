use vstd::prelude::*;

use crate::error::CoreError;

verus! {

/// Largest payload whose length prefix still fits the single length byte.
pub const MAX_FRAME_PAYLOAD: usize = 253;

/// Who sends a frame and who receives it.
#[derive(Debug, Clone, Copy, PartialEq, Eq, Structural)]
pub enum Direction {
    MasterToMotor,
    MotorToMaster,
}

/// Whether a frame reads a register or writes it.
#[derive(Debug, Clone, Copy, PartialEq, Eq, Structural)]
pub enum ReadWrite {
    Read,
    Write,
}

/// The register a frame addresses. `Other` holds any address without a
/// name of its own.
#[derive(Debug, Clone, Copy, PartialEq, Eq, Structural)]
pub enum Attribute {
    Lock,
    Unlock,
    TailLight,
    Other(u8),
}

pub open spec fn direction_code(d: Direction) -> u8 {
    match d {
        Direction::MasterToMotor => 0x20,
        Direction::MotorToMaster => 0x23,
    }
}

pub open spec fn direction_of_code(b: u8) -> Option<Direction> {
    if b == 0x20 {
        Some(Direction::MasterToMotor)
    } else if b == 0x23 {
        Some(Direction::MotorToMaster)
    } else {
        None
    }
}

pub open spec fn read_write_code(op: ReadWrite) -> u8 {
    match op {
        ReadWrite::Read => 0x01,
        ReadWrite::Write => 0x03,
    }
}

pub open spec fn read_write_of_code(b: u8) -> Option<ReadWrite> {
    if b == 0x01 {
        Some(ReadWrite::Read)
    } else if b == 0x03 {
        Some(ReadWrite::Write)
    } else {
        None
    }
}

pub open spec fn attribute_code(a: Attribute) -> u8 {
    match a {
        Attribute::Lock => 0x70,
        Attribute::Unlock => 0x71,
        Attribute::TailLight => 0x7D,
        Attribute::Other(b) => b,
    }
}

pub open spec fn attribute_of_code(b: u8) -> Attribute {
    if b == 0x70 {
        Attribute::Lock
    } else if b == 0x71 {
        Attribute::Unlock
    } else if b == 0x7D {
        Attribute::TailLight
    } else {
        Attribute::Other(b)
    }
}

/// An attribute is canonical when `Other` is not used for a named register,
/// so that each address byte has exactly one attribute.
pub open spec fn attribute_canonical(a: Attribute) -> bool {
    match a {
        Attribute::Other(b) => b != 0x70 && b != 0x71 && b != 0x7D,
        _ => true,
    }
}

/// The mathematical content of a command frame.
pub struct FrameModel {
    pub direction: Direction,
    pub read_write: ReadWrite,
    pub attribute: Attribute,
    pub payload: Seq<u8>,
}

/// A frame that can be written on the wire and read back as itself.
pub open spec fn frame_valid(f: FrameModel) -> bool {
    f.payload.len() <= MAX_FRAME_PAYLOAD && attribute_canonical(f.attribute)
}

/// `[length, direction, operation, attribute, payload...]`, where the length
/// counts the operation byte, the attribute byte and the payload.
pub open spec fn frame_bytes(f: FrameModel) -> Seq<u8> {
    seq![
        (f.payload.len() + 2) as u8,
        direction_code(f.direction),
        read_write_code(f.read_write),
        attribute_code(f.attribute),
    ] + f.payload
}

/// What a buffer reads as, or `None` where it breaks the wire layout.
pub open spec fn parse_frame(b: Seq<u8>) -> Option<FrameModel> {
    if b.len() >= 4 && b[0] + 2 == b.len() && direction_of_code(b[1]) is Some
        && read_write_of_code(b[2]) is Some {
        Some(
            FrameModel {
                direction: direction_of_code(b[1])->Some_0,
                read_write: read_write_of_code(b[2])->Some_0,
                attribute: attribute_of_code(b[3]),
                payload: b.subrange(4, b.len() as int),
            },
        )
    } else {
        None
    }
}

/// Decoding the encoding of a valid frame gives the frame back.
pub proof fn lemma_parse_frame_bytes(f: FrameModel)
    requires
        frame_valid(f),
    ensures
        parse_frame(frame_bytes(f)) == Some(f),
{
    let b = frame_bytes(f);
    assert(b.subrange(4, b.len() as int) =~= f.payload);
    assert(b[0] == f.payload.len() + 2);
}

/// A control frame: direction, operation, register address and payload.
#[derive(Debug, Clone, PartialEq, Eq)]
pub struct ScooterCommand {
    pub direction: Direction,
    pub read_write: ReadWrite,
    pub attribute: Attribute,
    pub payload: Vec<u8>,
}

impl View for ScooterCommand {
    type V = FrameModel;

    open spec fn view(&self) -> FrameModel {
        FrameModel {
            direction: self.direction,
            read_write: self.read_write,
            attribute: self.attribute,
            payload: self.payload@,
        }
    }
}

impl Direction {
    pub fn code(&self) -> (r: u8)
        ensures
            r == direction_code(*self),
    {
        match self {
            Direction::MasterToMotor => 0x20,
            Direction::MotorToMaster => 0x23,
        }
    }

    pub fn from_code(b: u8) -> (r: Option<Direction>)
        ensures
            r == direction_of_code(b),
    {
        if b == 0x20 {
            Some(Direction::MasterToMotor)
        } else if b == 0x23 {
            Some(Direction::MotorToMaster)
        } else {
            None
        }
    }
}

impl ReadWrite {
    pub fn code(&self) -> (r: u8)
        ensures
            r == read_write_code(*self),
    {
        match self {
            ReadWrite::Read => 0x01,
            ReadWrite::Write => 0x03,
        }
    }

    pub fn from_code(b: u8) -> (r: Option<ReadWrite>)
        ensures
            r == read_write_of_code(b),
    {
        if b == 0x01 {
            Some(ReadWrite::Read)
        } else if b == 0x03 {
            Some(ReadWrite::Write)
        } else {
            None
        }
    }
}

impl Attribute {
    pub fn code(&self) -> (r: u8)
        ensures
            r == attribute_code(*self),
    {
        match self {
            Attribute::Lock => 0x70,
            Attribute::Unlock => 0x71,
            Attribute::TailLight => 0x7D,
            Attribute::Other(b) => *b,
        }
    }

    pub fn from_code(b: u8) -> (r: Attribute)
        ensures
            r == attribute_of_code(b),
            attribute_canonical(r),
    {
        if b == 0x70 {
            Attribute::Lock
        } else if b == 0x71 {
            Attribute::Unlock
        } else if b == 0x7D {
            Attribute::TailLight
        } else {
            Attribute::Other(b)
        }
    }
}

impl ScooterCommand {
    /// The wire bytes of this frame.
    pub fn as_bytes(&self) -> (r: Vec<u8>)
        requires
            self.payload@.len() <= MAX_FRAME_PAYLOAD,
        ensures
            r@ == frame_bytes(self@),
    {
        let len: u8 = (self.payload.len() + 2) as u8;
        let mut out: Vec<u8> = Vec::with_capacity(self.payload.len() + 4);
        out.push(len);
        out.push(self.direction.code());
        out.push(self.read_write.code());
        out.push(self.attribute.code());
        let mut i: usize = 0;
        while i < self.payload.len()
            invariant
                i <= self.payload@.len(),
                out@ == seq![
                    len,
                    direction_code(self.direction),
                    read_write_code(self.read_write),
                    attribute_code(self.attribute),
                ] + self.payload@.subrange(0, i as int),
            decreases self.payload@.len() - i,
        {
            out.push(self.payload[i]);
            i += 1;
            assert(self.payload@.subrange(0, i as int) =~= self.payload@.subrange(
                0,
                i - 1,
            ).push(self.payload@[i - 1]));
        }
        assert(self.payload@.subrange(0, i as int) =~= self.payload@);
        out
    }

    /// Reads a frame from its wire bytes.
    pub fn decode(bytes: &[u8]) -> (r: Result<ScooterCommand, CoreError>)
        ensures
            match r {
                Ok(c) => parse_frame(bytes@) == Some(c@),
                Err(e) => parse_frame(bytes@) is None && e == CoreError::MalformedFrame,
            },
    {
        if bytes.len() < 4 {
            return Err(CoreError::MalformedFrame);
        }
        if bytes[0] as usize + 2 != bytes.len() {
            return Err(CoreError::MalformedFrame);
        }
        let direction = match Direction::from_code(bytes[1]) {
            Some(d) => d,
            None => return Err(CoreError::MalformedFrame),
        };
        let read_write = match ReadWrite::from_code(bytes[2]) {
            Some(op) => op,
            None => return Err(CoreError::MalformedFrame),
        };
        let attribute = Attribute::from_code(bytes[3]);
        let mut payload: Vec<u8> = Vec::new();
        let mut i: usize = 4;
        while i < bytes.len()
            invariant
                4 <= i <= bytes@.len(),
                payload@ == bytes@.subrange(4, i as int),
            decreases bytes@.len() - i,
        {
            payload.push(bytes[i]);
            i += 1;
            assert(payload@ =~= bytes@.subrange(4, i as int));
        }
        Ok(ScooterCommand { direction, read_write, attribute, payload })
    }
}

} // verus!
