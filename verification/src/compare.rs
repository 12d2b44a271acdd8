//! Value comparison of modules, payloads and packets.
use crate::base_lynx_command::LynxCommand;
use crate::command::{Command, CommandView};
use crate::command_utils::Module;
use crate::lynx_commands::LynxGetBulkDataResponseData;
use crate::packet::{bytes_equal, Packet, PacketView};
use vstd::prelude::*;

verus! {

/// Two modules are the same: equal fields, names equal as text.
pub open spec fn same_module(a: Module, b: Module) -> bool {
    &&& a.module_addr == b.module_addr
    &&& a.module_name@ == b.module_name@
    &&& a.number_command_first == b.number_command_first
    &&& a.number_of_commands == b.number_of_commands
    &&& a.is_parent == b.is_parent
    &&& a.module_type == b.module_type
}

/// Two payloads are the same: equal values, with modules compared by `same_module`.
pub open spec fn same_command(a: CommandView, b: CommandView) -> bool {
    match (a, b) {
        (CommandView::LynxCommand((m1, c1)), CommandView::LynxCommand((m2, c2))) => same_module(m1, m2) && c1 == c2,
        _ => a == b,
    }
}

/// Two packets are the same: equal header fields and checksum, the same payload.
pub open spec fn same_packet(a: PacketView, b: PacketView) -> bool {
    &&& a.packet_length == b.packet_length
    &&& a.dest_module_addr == b.dest_module_addr
    &&& a.src_module_addr == b.src_module_addr
    &&& a.message_number == b.message_number
    &&& a.reference_number == b.reference_number
    &&& a.packet_id == b.packet_id
    &&& same_command(a.payload, b.payload)
    &&& a.checksum == b.checksum
}

impl Module {
    /// Whether the two modules are the same.
    pub fn same_as(&self, other: &Module) -> (r: bool)
        ensures
            r == same_module(*self, *other),
    {
        let names = bytes_equal(self.module_name.as_bytes(), other.module_name.as_bytes());
        proof {
            vstd::utf8::encode_utf8_decode_utf8(self.module_name@);
            vstd::utf8::encode_utf8_decode_utf8(other.module_name@);
        }
        self.module_addr == other.module_addr && names && self.number_command_first
            == other.number_command_first && self.number_of_commands == other.number_of_commands
            && self.is_parent == other.is_parent && self.module_type == other.module_type
    }
}

impl LynxGetBulkDataResponseData {
    /// Whether the two readings are equal.
    pub fn same_as(&self, other: &LynxGetBulkDataResponseData) -> (r: bool)
        ensures
            r == (*self == *other),
    {
        if self.digital_inputs != other.digital_inputs || self.motor_status != other.motor_status {
            return false;
        }
        let mut i: usize = 0;
        while i < 4
            invariant
                i <= 4,
                forall|j: int| 0 <= j < i ==> self.motors[j] == other.motors[j] && self.analog[j] == other.analog[j],
            decreases 4 - i,
        {
            if self.motors[i] != other.motors[i] || self.analog[i] != other.analog[i] {
                return false;
            }
            i = i + 1;
        }
        assert(self.motors =~= other.motors);
        assert(self.analog =~= other.analog);
        true
    }
}

impl LynxCommand {
    /// Whether the two commands are equal.
    pub fn same_as(&self, other: &LynxCommand) -> (r: bool)
        ensures
            r == (self@ == other@),
    {
        match (self, other) {
            (LynxCommand::LynxGetADCCommand(x), LynxCommand::LynxGetADCCommand(y)) => *x == *y,
            (LynxCommand::LynxGetADCResponse(x), LynxCommand::LynxGetADCResponse(y)) => *x == *y,
            (LynxCommand::LynxGetBulkDataCommand(x), LynxCommand::LynxGetBulkDataCommand(y)) => *x == *y,
            (LynxCommand::LynxSetMotorPowerCommand(x), LynxCommand::LynxSetMotorPowerCommand(y)) => *x == *y,
            (LynxCommand::LynxSetServoPulseWidthCommand(x), LynxCommand::LynxSetServoPulseWidthCommand(y)) => *x == *y,
            (LynxCommand::LynxSetMotorChannelEnableCommand(x), LynxCommand::LynxSetMotorChannelEnableCommand(y)) => *x == *y,
            (LynxCommand::LynxGetMotorChannelModeCommand(x), LynxCommand::LynxGetMotorChannelModeCommand(y)) => *x == *y,
            (LynxCommand::LynxGetMotorChannelModeResponse(x), LynxCommand::LynxGetMotorChannelModeResponse(y)) => *x == *y,
            (LynxCommand::LynxSetMotorChannelModeCommand(x), LynxCommand::LynxSetMotorChannelModeCommand(y)) => *x == *y,
            (LynxCommand::LynxI2CSingleByteWriteCommand(x), LynxCommand::LynxI2CSingleByteWriteCommand(y)) => *x == *y,
            (LynxCommand::LynxI2CWriteReadMultipleBytesCommand(x), LynxCommand::LynxI2CWriteReadMultipleBytesCommand(y)) => *x == *y,
            (LynxCommand::LynxI2CReadStatusQueryCommand(x), LynxCommand::LynxI2CReadStatusQueryCommand(y)) => *x == *y,
            (LynxCommand::LynxSetMotorPIDFCommand(x), LynxCommand::LynxSetMotorPIDFCommand(y)) => *x == *y,
            (LynxCommand::LynxSetMotorVelocityTargetCommand(x), LynxCommand::LynxSetMotorVelocityTargetCommand(y)) => *x == *y,
            (LynxCommand::LynxSetMotorTargetPositionCommand(x), LynxCommand::LynxSetMotorTargetPositionCommand(y)) => *x == *y,
            (LynxCommand::LynxI2CWriteStatusQueryCommand(x), LynxCommand::LynxI2CWriteStatusQueryCommand(y)) => *x == *y,
            (LynxCommand::LynxI2CWriteStatusQueryResponse(x), LynxCommand::LynxI2CWriteStatusQueryResponse(y)) => *x == *y,
            (LynxCommand::LynxI2CConfigureChannelCommand(x), LynxCommand::LynxI2CConfigureChannelCommand(y)) => *x == *y,
            (LynxCommand::LynxGetBulkDataResponse(x), LynxCommand::LynxGetBulkDataResponse(y)) => x.same_as(y),
            (LynxCommand::LynxI2cWriteMultipleBytesCommand(x), LynxCommand::LynxI2cWriteMultipleBytesCommand(y)) => {
                x.i2c_bus == y.i2c_bus && x.i2c_addr_7bit == y.i2c_addr_7bit && bytes_equal(x.payload.as_slice(), y.payload.as_slice())
            },
            (LynxCommand::LynxI2CReadStatusQueryResponse(x), LynxCommand::LynxI2CReadStatusQueryResponse(y)) => {
                x.i2c_status == y.i2c_status && bytes_equal(x.data.as_slice(), y.data.as_slice())
            },
            (LynxCommand::LynxUnknownCommand(x), LynxCommand::LynxUnknownCommand(y)) => {
                x.pack_id() == y.pack_id() && bytes_equal(x.data().as_slice(), y.data().as_slice())
            },
            _ => false,
        }
    }
}

impl Command {
    /// Whether the two payloads are the same.
    pub fn same_as(&self, other: &Command) -> (r: bool)
        ensures
            r == same_command(self@, other@),
    {
        match (self, other) {
            (Command::Ack(x), Command::Ack(y)) => *x == *y,
            (Command::Nack(x), Command::Nack(y)) => *x == *y,
            (Command::KeepAlive(x), Command::KeepAlive(y)) => *x == *y,
            (Command::QueryInterface(x), Command::QueryInterface(y)) => bytes_equal(x.name().as_slice(), y.name().as_slice()),
            (Command::QueryInterfaceResponse(x), Command::QueryInterfaceResponse(y)) => *x == *y,
            (Command::LynxCommand(x), Command::LynxCommand(y)) => x.module.same_as(&y.module) && x.command.same_as(&y.command),
            (Command::Unknown(x), Command::Unknown(y)) => {
                x.pack_id() == y.pack_id() && bytes_equal(x.data().as_slice(), y.data().as_slice())
            },
            _ => false,
        }
    }
}

impl Packet {
    /// Whether the two packets are the same.
    pub fn same_as(&self, other: &Packet) -> (r: bool)
        ensures
            r == same_packet(self@, other@),
    {
        self.packet_length == other.packet_length && self.dest_module_addr == other.dest_module_addr
            && self.src_module_addr == other.src_module_addr && self.message_number
            == other.message_number && self.reference_number == other.reference_number
            && self.packet_id == other.packet_id && self.checksum == other.checksum
            && self.payload_data.same_as(&other.payload_data)
    }
}

} // verus!
