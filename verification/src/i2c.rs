//! Talking to I2C devices behind a hub: write commands, the reads in flight, and what an answer
//! means.
use crate::base_lynx_command::{LynxCommand, LynxCommandView};
use crate::command::{Command, CommandView};
use crate::lynx_commands::{
    LynxI2CReadStatusQueryCommandData, LynxI2CSingleByteWriteCommandData,
    LynxI2cWriteMultipleBytesCommandData,
};
use crate::packet::Packet;
use crate::wire::{le_i16, le_i32, le_u16, le_u32, push_i16, push_i32, push_u16, push_u32};
use vstd::prelude::*;

verus! {

/// The command that writes `data` to `register` of the device at `i2c_addr_7bit` on `i2c_bus`:
/// the register byte followed by the data. A single data byte goes as a single-byte write, whose
/// value is the first byte of that payload, the register.
pub fn write_data_i(i2c_bus: u8, i2c_addr_7bit: u8, register: u8, data: &[u8]) -> (r: LynxCommand)
    ensures
        data@.len() == 1 ==> r@ == LynxCommandView::LynxI2CSingleByteWriteCommand(
            LynxI2CSingleByteWriteCommandData { i2c_bus, i2c_addr_7bit, value: register },
        ),
        data@.len() != 1 ==> r@ == LynxCommandView::LynxI2cWriteMultipleBytesCommand(
            (i2c_bus, i2c_addr_7bit, seq![register] + data@),
        ),
{
    let mut payload: Vec<u8> = Vec::new();
    payload.push(register);
    crate::wire::append_bytes(&mut payload, data);
    if data.len() == 1 {
        LynxCommand::LynxI2CSingleByteWriteCommand(
            LynxI2CSingleByteWriteCommandData { i2c_bus, i2c_addr_7bit, value: payload[0] },
        )
    } else {
        LynxCommand::LynxI2cWriteMultipleBytesCommand(
            LynxI2cWriteMultipleBytesCommandData { i2c_bus, i2c_addr_7bit, payload },
        )
    }
}

/// The command that asks the hub for the result of the last I2C read on `i2c_bus`.
pub fn fire_read_command(i2c_bus: u8) -> (r: LynxCommand)
    ensures
        r@ == LynxCommandView::LynxI2CReadStatusQueryCommand(
            LynxI2CReadStatusQueryCommandData { i2c_bus },
        ),
{
    LynxCommand::LynxI2CReadStatusQueryCommand(LynxI2CReadStatusQueryCommandData { i2c_bus })
}

/// The message numbers of the requests of a device whose answers have not come yet.
pub struct PacketsInFlight {
    pub ids: Vec<u8>,
}

impl PacketsInFlight {
    /// No request in flight.
    pub fn new() -> (r: PacketsInFlight)
        ensures
            r.ids@.len() == 0,
    {
        PacketsInFlight { ids: Vec::new() }
    }

    /// Records a request in flight.
    pub fn add_pif(&mut self, id: u8)
        ensures
            final(self).ids@ == old(self).ids@.push(id),
    {
        self.ids.push(id);
    }

    /// Whether an answer numbered `id` is awaited; if so, one record of it is dropped (the
    /// earliest).
    pub fn is_pif(&mut self, id: u8) -> (r: bool)
        ensures
            r == old(self).ids@.contains(id),
            r ==> final(self).ids@ == old(self).ids@.remove(old(self).ids@.index_of_first(id).unwrap()),
            !r ==> final(self).ids@ == old(self).ids@,
    {
        let ghost ids = self.ids@;
        let mut i: usize = 0;
        while i < self.ids.len()
            invariant
                self.ids@ == ids,
                ids == old(self).ids@,
                i <= ids.len(),
                forall|j: int| 0 <= j < i ==> ids[j] != id,
            decreases ids.len() - i,
        {
            if self.ids[i] == id {
                proof {
                    assert(ids[i as int] == id);
                    assert(ids.contains(id));
                    ids.index_of_first_ensures(id);
                    let k = ids.index_of_first(id).unwrap();
                    assert(k == i) by {
                        if k < i {
                            assert(ids[k] != id);
                        }
                        assert(k <= i);
                    }
                }
                self.ids.remove(i);
                return true;
            }
            i = i + 1;
        }
        false
    }
}

/// What a device makes of a packet.
#[derive(Debug)]
pub enum I2CResponse {
    /// The bytes it read.
    Data(Vec<u8>),
    /// Its request was refused ("Nack") or only acknowledged (""): there is nothing to read yet.
    Nack(String),
    /// Not its business: the packet goes on.
    Packet(Packet),
}

/// What the device does next about an answer.
#[derive(Debug, Clone, Copy, PartialEq, Eq, Structural)]
pub enum I2CFollowUp {
    Nothing,
    /// Asks for the read result again.
    ReadAgain,
    /// Tells the scheduler to pause for a moment, and asks for the read result again.
    PauseAndReadAgain,
}

/// How a device takes a packet: an answer it awaits (its number in flight, which is then
/// dropped) with read data gives the data; a refusal or a bare acknowledgement makes it ask
/// again; anything else is passed on.
pub fn try_interpret_response(pif: &mut PacketsInFlight, packet: Packet) -> (r: (I2CResponse, I2CFollowUp))
    ensures
        ({
            let awaited = old(pif).ids@.contains(packet.reference_number);
            &&& awaited ==> final(pif).ids@ == old(pif).ids@.remove(
                old(pif).ids@.index_of_first(packet.reference_number).unwrap(),
            )
            &&& !awaited ==> final(pif).ids@ == old(pif).ids@
            &&& if !awaited {
                r.0 matches I2CResponse::Packet(p) && p@ == packet@ && r.1 == I2CFollowUp::Nothing
            } else {
                match packet@.payload {
                    CommandView::LynxCommand(
                        (_, LynxCommandView::LynxI2CReadStatusQueryResponse((_, data))),
                    ) => r.0 matches I2CResponse::Data(d) && d@ == data && r.1 == I2CFollowUp::Nothing,
                    CommandView::Nack(_) => r.0 matches I2CResponse::Nack(s) && s@ == "Nack"@ && r.1
                        == I2CFollowUp::PauseAndReadAgain,
                    CommandView::Ack(_) => r.0 matches I2CResponse::Nack(s) && s@ == ""@ && r.1
                        == I2CFollowUp::ReadAgain,
                    _ => r.0 matches I2CResponse::Packet(p) && p@ == packet@ && r.1
                        == I2CFollowUp::Nothing,
                }
            }
        }),
{
    if pif.is_pif(packet.reference_number) {
        let is_data = match &packet.payload_data {
            Command::LynxCommand(cmd) => match &cmd.command {
                LynxCommand::LynxI2CReadStatusQueryResponse(_) => true,
                _ => false,
            },
            _ => false,
        };
        if is_data {
            match packet.payload_data {
                Command::LynxCommand(it) => match it.command {
                    LynxCommand::LynxI2CReadStatusQueryResponse(resp) => {
                        return (I2CResponse::Data(resp.data), I2CFollowUp::Nothing);
                    },
                    _ => {
                        return (I2CResponse::Data(Vec::new()), I2CFollowUp::Nothing);
                    },
                },
                _ => {
                    return (I2CResponse::Data(Vec::new()), I2CFollowUp::Nothing);
                },
            }
        }
        match &packet.payload_data {
            Command::Nack(_) => {
                return (I2CResponse::Nack("Nack".to_owned()), I2CFollowUp::PauseAndReadAgain);
            },
            Command::Ack(_) => {
                return (I2CResponse::Nack("".to_owned()), I2CFollowUp::ReadAgain);
            },
            _ => {},
        }
    }
    (I2CResponse::Packet(packet), I2CFollowUp::Nothing)
}

/// Integers that can be written to a device register, little-endian.
pub trait ToLeBytes: Sized {
    /// The little-endian bytes of the value.
    spec fn spec_le_bytes(&self) -> Seq<u8>;

    /// The little-endian bytes of the value.
    fn to_le_bytes_vec(self) -> (r: Vec<u8>)
        ensures
            r@ == self.spec_le_bytes(),
    ;
}

impl ToLeBytes for u8 {
    open spec fn spec_le_bytes(&self) -> Seq<u8> {
        seq![*self]
    }

    fn to_le_bytes_vec(self) -> (r: Vec<u8>) {
        let mut v: Vec<u8> = Vec::new();
        v.push(self);
        v
    }
}

impl ToLeBytes for i8 {
    open spec fn spec_le_bytes(&self) -> Seq<u8> {
        seq![*self as u8]
    }

    fn to_le_bytes_vec(self) -> (r: Vec<u8>) {
        let mut v: Vec<u8> = Vec::new();
        v.push(self as u8);
        v
    }
}

impl ToLeBytes for u16 {
    open spec fn spec_le_bytes(&self) -> Seq<u8> {
        le_u16(*self)
    }

    fn to_le_bytes_vec(self) -> (r: Vec<u8>) {
        let mut v: Vec<u8> = Vec::new();
        push_u16(&mut v, self);
        v
    }
}

impl ToLeBytes for i16 {
    open spec fn spec_le_bytes(&self) -> Seq<u8> {
        le_i16(*self)
    }

    fn to_le_bytes_vec(self) -> (r: Vec<u8>) {
        let mut v: Vec<u8> = Vec::new();
        push_i16(&mut v, self);
        v
    }
}

impl ToLeBytes for u32 {
    open spec fn spec_le_bytes(&self) -> Seq<u8> {
        le_u32(*self)
    }

    fn to_le_bytes_vec(self) -> (r: Vec<u8>) {
        let mut v: Vec<u8> = Vec::new();
        push_u32(&mut v, self);
        v
    }
}

impl ToLeBytes for i32 {
    open spec fn spec_le_bytes(&self) -> Seq<u8> {
        le_i32(*self)
    }

    fn to_le_bytes_vec(self) -> (r: Vec<u8>) {
        let mut v: Vec<u8> = Vec::new();
        push_i32(&mut v, self);
        v
    }
}

impl ToLeBytes for u64 {
    open spec fn spec_le_bytes(&self) -> Seq<u8> {
        le_u32((*self % 0x1_0000_0000) as u32) + le_u32((*self / 0x1_0000_0000) as u32)
    }

    fn to_le_bytes_vec(self) -> (r: Vec<u8>) {
        let lo = (self & 0xffff_ffff) as u32;
        let hi = (self >> 32) as u32;
        assert(lo == (self % 0x1_0000_0000) as u32 && hi == (self / 0x1_0000_0000) as u32)
            by (bit_vector)
            requires
                lo == (self & 0xffff_ffff) as u32,
                hi == (self >> 32) as u32,
        ;
        let mut v: Vec<u8> = Vec::new();
        push_u32(&mut v, lo);
        push_u32(&mut v, hi);
        v
    }
}

impl ToLeBytes for i64 {
    open spec fn spec_le_bytes(&self) -> Seq<u8> {
        (*self as u64).spec_le_bytes()
    }

    fn to_le_bytes_vec(self) -> (r: Vec<u8>) {
        (self as u64).to_le_bytes_vec()
    }
}

} // verus!
