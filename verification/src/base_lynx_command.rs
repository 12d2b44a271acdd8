//! The hub's own commands as one type, and their binding to a module.
use crate::command_data::CommandData;
use crate::command_utils::{Module, spec_null_module};
use crate::lynx_commands::{LynxGetADCCommandData, LynxGetADCResponseData, LynxGetBulkDataCommandData, LynxGetBulkDataResponseData, LynxGetMotorChannelModeCommandData, LynxGetMotorChannelModeResponseData, LynxI2CConfigureChannelCommandData, LynxI2CReadStatusQueryCommandData, LynxI2CReadStatusQueryResponseData, LynxI2CSingleByteWriteCommandData, LynxI2CWriteReadMultipleBytesCommandData, LynxI2CWriteStatusQueryCommandData, LynxI2CWriteStatusQueryResponseData, LynxI2cWriteMultipleBytesCommandData, LynxSetMotorChannelEnableCommandData, LynxSetMotorChannelModeCommandData, LynxSetMotorPIDFCommandData, LynxSetMotorPowerCommandData, LynxSetMotorTargetPositionCommandData, LynxSetMotorVelocityTargetCommandData, LynxSetServoPulseWidthCommandData, LynxUnknownData, ADCCommandChannel, ADCCommandMode, DcMotorRunMode, DcMotorZeroPowerBehavior};
use vstd::prelude::*;

verus! {

/// Any command of the hub's own command set.
#[derive(Clone, Debug)]
pub enum LynxCommand {
    LynxGetADCCommand(LynxGetADCCommandData),
    LynxGetADCResponse(LynxGetADCResponseData),
    LynxGetBulkDataCommand(LynxGetBulkDataCommandData),
    LynxGetBulkDataResponse(LynxGetBulkDataResponseData),
    LynxSetMotorPowerCommand(LynxSetMotorPowerCommandData),
    LynxSetServoPulseWidthCommand(LynxSetServoPulseWidthCommandData),
    LynxSetMotorChannelEnableCommand(LynxSetMotorChannelEnableCommandData),
    LynxGetMotorChannelModeCommand(LynxGetMotorChannelModeCommandData),
    LynxGetMotorChannelModeResponse(LynxGetMotorChannelModeResponseData),
    LynxSetMotorChannelModeCommand(LynxSetMotorChannelModeCommandData),
    LynxI2CSingleByteWriteCommand(LynxI2CSingleByteWriteCommandData),
    LynxI2cWriteMultipleBytesCommand(LynxI2cWriteMultipleBytesCommandData),
    LynxI2CWriteReadMultipleBytesCommand(LynxI2CWriteReadMultipleBytesCommandData),
    LynxI2CReadStatusQueryCommand(LynxI2CReadStatusQueryCommandData),
    LynxI2CReadStatusQueryResponse(LynxI2CReadStatusQueryResponseData),
    LynxSetMotorPIDFCommand(LynxSetMotorPIDFCommandData),
    LynxSetMotorVelocityTargetCommand(LynxSetMotorVelocityTargetCommandData),
    LynxSetMotorTargetPositionCommand(LynxSetMotorTargetPositionCommandData),
    LynxI2CWriteStatusQueryCommand(LynxI2CWriteStatusQueryCommandData),
    LynxI2CWriteStatusQueryResponse(LynxI2CWriteStatusQueryResponseData),
    LynxI2CConfigureChannelCommand(LynxI2CConfigureChannelCommandData),
    LynxUnknownCommand(LynxUnknownData),
}

/// The mathematical value of a [`LynxCommand`].
pub enum LynxCommandView {
    LynxGetADCCommand(LynxGetADCCommandData),
    LynxGetADCResponse(LynxGetADCResponseData),
    LynxGetBulkDataCommand(LynxGetBulkDataCommandData),
    LynxGetBulkDataResponse(LynxGetBulkDataResponseData),
    LynxSetMotorPowerCommand(LynxSetMotorPowerCommandData),
    LynxSetServoPulseWidthCommand(LynxSetServoPulseWidthCommandData),
    LynxSetMotorChannelEnableCommand(LynxSetMotorChannelEnableCommandData),
    LynxGetMotorChannelModeCommand(LynxGetMotorChannelModeCommandData),
    LynxGetMotorChannelModeResponse(LynxGetMotorChannelModeResponseData),
    LynxSetMotorChannelModeCommand(LynxSetMotorChannelModeCommandData),
    LynxI2CSingleByteWriteCommand(LynxI2CSingleByteWriteCommandData),
    LynxI2cWriteMultipleBytesCommand((u8, u8, Seq<u8>)),
    LynxI2CWriteReadMultipleBytesCommand(LynxI2CWriteReadMultipleBytesCommandData),
    LynxI2CReadStatusQueryCommand(LynxI2CReadStatusQueryCommandData),
    LynxI2CReadStatusQueryResponse((u8, Seq<u8>)),
    LynxSetMotorPIDFCommand(LynxSetMotorPIDFCommandData),
    LynxSetMotorVelocityTargetCommand(LynxSetMotorVelocityTargetCommandData),
    LynxSetMotorTargetPositionCommand(LynxSetMotorTargetPositionCommandData),
    LynxI2CWriteStatusQueryCommand(LynxI2CWriteStatusQueryCommandData),
    LynxI2CWriteStatusQueryResponse(LynxI2CWriteStatusQueryResponseData),
    LynxI2CConfigureChannelCommand(LynxI2CConfigureChannelCommandData),
    LynxUnknownCommand((u16, Seq<u8>)),
}

impl View for LynxCommand {
    type V = LynxCommandView;

    open spec fn view(&self) -> LynxCommandView {
        match self {
            LynxCommand::LynxGetADCCommand(x) => LynxCommandView::LynxGetADCCommand(x@),
            LynxCommand::LynxGetADCResponse(x) => LynxCommandView::LynxGetADCResponse(x@),
            LynxCommand::LynxGetBulkDataCommand(x) => LynxCommandView::LynxGetBulkDataCommand(x@),
            LynxCommand::LynxGetBulkDataResponse(x) => LynxCommandView::LynxGetBulkDataResponse(x@),
            LynxCommand::LynxSetMotorPowerCommand(x) => LynxCommandView::LynxSetMotorPowerCommand(x@),
            LynxCommand::LynxSetServoPulseWidthCommand(x) => LynxCommandView::LynxSetServoPulseWidthCommand(x@),
            LynxCommand::LynxSetMotorChannelEnableCommand(x) => LynxCommandView::LynxSetMotorChannelEnableCommand(x@),
            LynxCommand::LynxGetMotorChannelModeCommand(x) => LynxCommandView::LynxGetMotorChannelModeCommand(x@),
            LynxCommand::LynxGetMotorChannelModeResponse(x) => LynxCommandView::LynxGetMotorChannelModeResponse(x@),
            LynxCommand::LynxSetMotorChannelModeCommand(x) => LynxCommandView::LynxSetMotorChannelModeCommand(x@),
            LynxCommand::LynxI2CSingleByteWriteCommand(x) => LynxCommandView::LynxI2CSingleByteWriteCommand(x@),
            LynxCommand::LynxI2cWriteMultipleBytesCommand(x) => LynxCommandView::LynxI2cWriteMultipleBytesCommand(x@),
            LynxCommand::LynxI2CWriteReadMultipleBytesCommand(x) => LynxCommandView::LynxI2CWriteReadMultipleBytesCommand(x@),
            LynxCommand::LynxI2CReadStatusQueryCommand(x) => LynxCommandView::LynxI2CReadStatusQueryCommand(x@),
            LynxCommand::LynxI2CReadStatusQueryResponse(x) => LynxCommandView::LynxI2CReadStatusQueryResponse(x@),
            LynxCommand::LynxSetMotorPIDFCommand(x) => LynxCommandView::LynxSetMotorPIDFCommand(x@),
            LynxCommand::LynxSetMotorVelocityTargetCommand(x) => LynxCommandView::LynxSetMotorVelocityTargetCommand(x@),
            LynxCommand::LynxSetMotorTargetPositionCommand(x) => LynxCommandView::LynxSetMotorTargetPositionCommand(x@),
            LynxCommand::LynxI2CWriteStatusQueryCommand(x) => LynxCommandView::LynxI2CWriteStatusQueryCommand(x@),
            LynxCommand::LynxI2CWriteStatusQueryResponse(x) => LynxCommandView::LynxI2CWriteStatusQueryResponse(x@),
            LynxCommand::LynxI2CConfigureChannelCommand(x) => LynxCommandView::LynxI2CConfigureChannelCommand(x@),
            LynxCommand::LynxUnknownCommand(x) => LynxCommandView::LynxUnknownCommand(x@),
        }
    }
}

impl LynxCommandView {
    /// The packet id relative to the module's first command number.
    pub open spec fn rel_packet_id(self) -> u16 {
        match self {
            LynxCommandView::LynxGetADCCommand(x) => x.spec_packet_id(),
            LynxCommandView::LynxGetADCResponse(x) => x.spec_packet_id(),
            LynxCommandView::LynxGetBulkDataCommand(x) => x.spec_packet_id(),
            LynxCommandView::LynxGetBulkDataResponse(x) => x.spec_packet_id(),
            LynxCommandView::LynxSetMotorPowerCommand(x) => x.spec_packet_id(),
            LynxCommandView::LynxSetServoPulseWidthCommand(x) => x.spec_packet_id(),
            LynxCommandView::LynxSetMotorChannelEnableCommand(x) => x.spec_packet_id(),
            LynxCommandView::LynxGetMotorChannelModeCommand(x) => x.spec_packet_id(),
            LynxCommandView::LynxGetMotorChannelModeResponse(x) => x.spec_packet_id(),
            LynxCommandView::LynxSetMotorChannelModeCommand(x) => x.spec_packet_id(),
            LynxCommandView::LynxI2CSingleByteWriteCommand(x) => x.spec_packet_id(),
            LynxCommandView::LynxI2cWriteMultipleBytesCommand(x) => 38u16,
            LynxCommandView::LynxI2CWriteReadMultipleBytesCommand(x) => x.spec_packet_id(),
            LynxCommandView::LynxI2CReadStatusQueryCommand(x) => x.spec_packet_id(),
            LynxCommandView::LynxI2CReadStatusQueryResponse(x) => 0x8029u16,
            LynxCommandView::LynxSetMotorPIDFCommand(x) => x.spec_packet_id(),
            LynxCommandView::LynxSetMotorVelocityTargetCommand(x) => x.spec_packet_id(),
            LynxCommandView::LynxSetMotorTargetPositionCommand(x) => x.spec_packet_id(),
            LynxCommandView::LynxI2CWriteStatusQueryCommand(x) => x.spec_packet_id(),
            LynxCommandView::LynxI2CWriteStatusQueryResponse(x) => x.spec_packet_id(),
            LynxCommandView::LynxI2CConfigureChannelCommand(x) => x.spec_packet_id(),
            LynxCommandView::LynxUnknownCommand(x) => x.0,
        }
    }

    /// The payload bytes.
    pub open spec fn bytes(self) -> Seq<u8> {
        match self {
            LynxCommandView::LynxGetADCCommand(x) => x.spec_bytes(),
            LynxCommandView::LynxGetADCResponse(x) => x.spec_bytes(),
            LynxCommandView::LynxGetBulkDataCommand(x) => x.spec_bytes(),
            LynxCommandView::LynxGetBulkDataResponse(x) => x.spec_bytes(),
            LynxCommandView::LynxSetMotorPowerCommand(x) => x.spec_bytes(),
            LynxCommandView::LynxSetServoPulseWidthCommand(x) => x.spec_bytes(),
            LynxCommandView::LynxSetMotorChannelEnableCommand(x) => x.spec_bytes(),
            LynxCommandView::LynxGetMotorChannelModeCommand(x) => x.spec_bytes(),
            LynxCommandView::LynxGetMotorChannelModeResponse(x) => x.spec_bytes(),
            LynxCommandView::LynxSetMotorChannelModeCommand(x) => x.spec_bytes(),
            LynxCommandView::LynxI2CSingleByteWriteCommand(x) => x.spec_bytes(),
            LynxCommandView::LynxI2cWriteMultipleBytesCommand(x) => seq![x.0, x.1, (x.2.len() % 256) as u8] + x.2,
            LynxCommandView::LynxI2CWriteReadMultipleBytesCommand(x) => x.spec_bytes(),
            LynxCommandView::LynxI2CReadStatusQueryCommand(x) => x.spec_bytes(),
            LynxCommandView::LynxI2CReadStatusQueryResponse(x) => seq![x.0, (x.1.len() % 256) as u8] + x.1,
            LynxCommandView::LynxSetMotorPIDFCommand(x) => x.spec_bytes(),
            LynxCommandView::LynxSetMotorVelocityTargetCommand(x) => x.spec_bytes(),
            LynxCommandView::LynxSetMotorTargetPositionCommand(x) => x.spec_bytes(),
            LynxCommandView::LynxI2CWriteStatusQueryCommand(x) => x.spec_bytes(),
            LynxCommandView::LynxI2CWriteStatusQueryResponse(x) => x.spec_bytes(),
            LynxCommandView::LynxI2CConfigureChannelCommand(x) => x.spec_bytes(),
            LynxCommandView::LynxUnknownCommand(x) => x.1,
        }
    }

    /// Writing the payload out does not fail.
    pub open spec fn encodable(self) -> bool {
        match self {
            LynxCommandView::LynxGetADCCommand(x) => true,
            LynxCommandView::LynxGetADCResponse(x) => true,
            LynxCommandView::LynxGetBulkDataCommand(x) => true,
            LynxCommandView::LynxGetBulkDataResponse(x) => true,
            LynxCommandView::LynxSetMotorPowerCommand(x) => true,
            LynxCommandView::LynxSetServoPulseWidthCommand(x) => true,
            LynxCommandView::LynxSetMotorChannelEnableCommand(x) => true,
            LynxCommandView::LynxGetMotorChannelModeCommand(x) => true,
            LynxCommandView::LynxGetMotorChannelModeResponse(x) => true,
            LynxCommandView::LynxSetMotorChannelModeCommand(x) => true,
            LynxCommandView::LynxI2CSingleByteWriteCommand(x) => true,
            LynxCommandView::LynxI2cWriteMultipleBytesCommand(x) => x.2.len() <= 255,
            LynxCommandView::LynxI2CWriteReadMultipleBytesCommand(x) => true,
            LynxCommandView::LynxI2CReadStatusQueryCommand(x) => true,
            LynxCommandView::LynxI2CReadStatusQueryResponse(x) => true,
            LynxCommandView::LynxSetMotorPIDFCommand(x) => true,
            LynxCommandView::LynxSetMotorVelocityTargetCommand(x) => true,
            LynxCommandView::LynxSetMotorTargetPositionCommand(x) => true,
            LynxCommandView::LynxI2CWriteStatusQueryCommand(x) => true,
            LynxCommandView::LynxI2CWriteStatusQueryResponse(x) => true,
            LynxCommandView::LynxI2CConfigureChannelCommand(x) => true,
            LynxCommandView::LynxUnknownCommand(x) => true,
        }
    }

    /// The command that `data` received under module-relative `id` decodes to.
    pub open spec fn decode(id: u16, data: Seq<u8>) -> LynxCommandView {
        if LynxGetADCCommandData::spec_parse(id, data) is Some {
            LynxCommandView::LynxGetADCCommand(LynxGetADCCommandData::spec_parse(id, data).unwrap())
        } else if LynxGetADCResponseData::spec_parse(id, data) is Some {
            LynxCommandView::LynxGetADCResponse(LynxGetADCResponseData::spec_parse(id, data).unwrap())
        } else if LynxGetBulkDataCommandData::spec_parse(id, data) is Some {
            LynxCommandView::LynxGetBulkDataCommand(LynxGetBulkDataCommandData::spec_parse(id, data).unwrap())
        } else if LynxGetBulkDataResponseData::spec_parse(id, data) is Some {
            LynxCommandView::LynxGetBulkDataResponse(LynxGetBulkDataResponseData::spec_parse(id, data).unwrap())
        } else if LynxSetMotorPowerCommandData::spec_parse(id, data) is Some {
            LynxCommandView::LynxSetMotorPowerCommand(LynxSetMotorPowerCommandData::spec_parse(id, data).unwrap())
        } else if LynxSetServoPulseWidthCommandData::spec_parse(id, data) is Some {
            LynxCommandView::LynxSetServoPulseWidthCommand(LynxSetServoPulseWidthCommandData::spec_parse(id, data).unwrap())
        } else if LynxSetMotorChannelEnableCommandData::spec_parse(id, data) is Some {
            LynxCommandView::LynxSetMotorChannelEnableCommand(LynxSetMotorChannelEnableCommandData::spec_parse(id, data).unwrap())
        } else if LynxGetMotorChannelModeCommandData::spec_parse(id, data) is Some {
            LynxCommandView::LynxGetMotorChannelModeCommand(LynxGetMotorChannelModeCommandData::spec_parse(id, data).unwrap())
        } else if LynxGetMotorChannelModeResponseData::spec_parse(id, data) is Some {
            LynxCommandView::LynxGetMotorChannelModeResponse(LynxGetMotorChannelModeResponseData::spec_parse(id, data).unwrap())
        } else if LynxSetMotorChannelModeCommandData::spec_parse(id, data) is Some {
            LynxCommandView::LynxSetMotorChannelModeCommand(LynxSetMotorChannelModeCommandData::spec_parse(id, data).unwrap())
        } else if LynxI2CSingleByteWriteCommandData::spec_parse(id, data) is Some {
            LynxCommandView::LynxI2CSingleByteWriteCommand(LynxI2CSingleByteWriteCommandData::spec_parse(id, data).unwrap())
        } else if LynxI2cWriteMultipleBytesCommandData::spec_parse(id, data) is Some {
            LynxCommandView::LynxI2cWriteMultipleBytesCommand(LynxI2cWriteMultipleBytesCommandData::spec_parse(id, data).unwrap())
        } else if LynxI2CWriteReadMultipleBytesCommandData::spec_parse(id, data) is Some {
            LynxCommandView::LynxI2CWriteReadMultipleBytesCommand(LynxI2CWriteReadMultipleBytesCommandData::spec_parse(id, data).unwrap())
        } else if LynxI2CReadStatusQueryCommandData::spec_parse(id, data) is Some {
            LynxCommandView::LynxI2CReadStatusQueryCommand(LynxI2CReadStatusQueryCommandData::spec_parse(id, data).unwrap())
        } else if LynxI2CReadStatusQueryResponseData::spec_parse(id, data) is Some {
            LynxCommandView::LynxI2CReadStatusQueryResponse(LynxI2CReadStatusQueryResponseData::spec_parse(id, data).unwrap())
        } else if LynxSetMotorPIDFCommandData::spec_parse(id, data) is Some {
            LynxCommandView::LynxSetMotorPIDFCommand(LynxSetMotorPIDFCommandData::spec_parse(id, data).unwrap())
        } else if LynxSetMotorVelocityTargetCommandData::spec_parse(id, data) is Some {
            LynxCommandView::LynxSetMotorVelocityTargetCommand(LynxSetMotorVelocityTargetCommandData::spec_parse(id, data).unwrap())
        } else if LynxSetMotorTargetPositionCommandData::spec_parse(id, data) is Some {
            LynxCommandView::LynxSetMotorTargetPositionCommand(LynxSetMotorTargetPositionCommandData::spec_parse(id, data).unwrap())
        } else if LynxI2CWriteStatusQueryCommandData::spec_parse(id, data) is Some {
            LynxCommandView::LynxI2CWriteStatusQueryCommand(LynxI2CWriteStatusQueryCommandData::spec_parse(id, data).unwrap())
        } else if LynxI2CWriteStatusQueryResponseData::spec_parse(id, data) is Some {
            LynxCommandView::LynxI2CWriteStatusQueryResponse(LynxI2CWriteStatusQueryResponseData::spec_parse(id, data).unwrap())
        } else if LynxI2CConfigureChannelCommandData::spec_parse(id, data) is Some {
            LynxCommandView::LynxI2CConfigureChannelCommand(LynxI2CConfigureChannelCommandData::spec_parse(id, data).unwrap())
        } else {
            LynxCommandView::LynxUnknownCommand((id, data))
        }
    }

    /// Decoding `data` under module-relative `id` does not fail.
    pub open spec fn decode_ok(id: u16, data: Seq<u8>) -> bool {
        &&& LynxGetADCCommandData::parse_ok(id, data)
        &&& LynxGetADCResponseData::parse_ok(id, data)
        &&& LynxGetBulkDataCommandData::parse_ok(id, data)
        &&& LynxGetBulkDataResponseData::parse_ok(id, data)
        &&& LynxSetMotorPowerCommandData::parse_ok(id, data)
        &&& LynxSetServoPulseWidthCommandData::parse_ok(id, data)
        &&& LynxSetMotorChannelEnableCommandData::parse_ok(id, data)
        &&& LynxGetMotorChannelModeCommandData::parse_ok(id, data)
        &&& LynxGetMotorChannelModeResponseData::parse_ok(id, data)
        &&& LynxSetMotorChannelModeCommandData::parse_ok(id, data)
        &&& LynxI2CSingleByteWriteCommandData::parse_ok(id, data)
        &&& LynxI2cWriteMultipleBytesCommandData::parse_ok(id, data)
        &&& LynxI2CWriteReadMultipleBytesCommandData::parse_ok(id, data)
        &&& LynxI2CReadStatusQueryCommandData::parse_ok(id, data)
        &&& LynxI2CReadStatusQueryResponseData::parse_ok(id, data)
        &&& LynxSetMotorPIDFCommandData::parse_ok(id, data)
        &&& LynxSetMotorVelocityTargetCommandData::parse_ok(id, data)
        &&& LynxSetMotorTargetPositionCommandData::parse_ok(id, data)
        &&& LynxI2CWriteStatusQueryCommandData::parse_ok(id, data)
        &&& LynxI2CWriteStatusQueryResponseData::parse_ok(id, data)
        &&& LynxI2CConfigureChannelCommandData::parse_ok(id, data)
    }
}

impl LynxCommand {
    /// The packet id relative to the module's first command number.
    pub fn rel_packet_id(&self) -> (r: u16)
        ensures
            r == self@.rel_packet_id(),
    {
        match self {
            LynxCommand::LynxGetADCCommand(x) => x.to_packet_id(),
            LynxCommand::LynxGetADCResponse(x) => x.to_packet_id(),
            LynxCommand::LynxGetBulkDataCommand(x) => x.to_packet_id(),
            LynxCommand::LynxGetBulkDataResponse(x) => x.to_packet_id(),
            LynxCommand::LynxSetMotorPowerCommand(x) => x.to_packet_id(),
            LynxCommand::LynxSetServoPulseWidthCommand(x) => x.to_packet_id(),
            LynxCommand::LynxSetMotorChannelEnableCommand(x) => x.to_packet_id(),
            LynxCommand::LynxGetMotorChannelModeCommand(x) => x.to_packet_id(),
            LynxCommand::LynxGetMotorChannelModeResponse(x) => x.to_packet_id(),
            LynxCommand::LynxSetMotorChannelModeCommand(x) => x.to_packet_id(),
            LynxCommand::LynxI2CSingleByteWriteCommand(x) => x.to_packet_id(),
            LynxCommand::LynxI2cWriteMultipleBytesCommand(x) => x.to_packet_id(),
            LynxCommand::LynxI2CWriteReadMultipleBytesCommand(x) => x.to_packet_id(),
            LynxCommand::LynxI2CReadStatusQueryCommand(x) => x.to_packet_id(),
            LynxCommand::LynxI2CReadStatusQueryResponse(x) => x.to_packet_id(),
            LynxCommand::LynxSetMotorPIDFCommand(x) => x.to_packet_id(),
            LynxCommand::LynxSetMotorVelocityTargetCommand(x) => x.to_packet_id(),
            LynxCommand::LynxSetMotorTargetPositionCommand(x) => x.to_packet_id(),
            LynxCommand::LynxI2CWriteStatusQueryCommand(x) => x.to_packet_id(),
            LynxCommand::LynxI2CWriteStatusQueryResponse(x) => x.to_packet_id(),
            LynxCommand::LynxI2CConfigureChannelCommand(x) => x.to_packet_id(),
            LynxCommand::LynxUnknownCommand(x) => x.to_packet_id(),
        }
    }

    /// The number of payload bytes.
    pub fn get_bytes_len(&self) -> (r: usize)
        requires
            self@.bytes().len() <= usize::MAX,
        ensures
            r == self@.bytes().len(),
    {
        match self {
            LynxCommand::LynxGetADCCommand(x) => x.get_bytes_len(),
            LynxCommand::LynxGetADCResponse(x) => x.get_bytes_len(),
            LynxCommand::LynxGetBulkDataCommand(x) => x.get_bytes_len(),
            LynxCommand::LynxGetBulkDataResponse(x) => x.get_bytes_len(),
            LynxCommand::LynxSetMotorPowerCommand(x) => x.get_bytes_len(),
            LynxCommand::LynxSetServoPulseWidthCommand(x) => x.get_bytes_len(),
            LynxCommand::LynxSetMotorChannelEnableCommand(x) => x.get_bytes_len(),
            LynxCommand::LynxGetMotorChannelModeCommand(x) => x.get_bytes_len(),
            LynxCommand::LynxGetMotorChannelModeResponse(x) => x.get_bytes_len(),
            LynxCommand::LynxSetMotorChannelModeCommand(x) => x.get_bytes_len(),
            LynxCommand::LynxI2CSingleByteWriteCommand(x) => x.get_bytes_len(),
            LynxCommand::LynxI2cWriteMultipleBytesCommand(x) => x.get_bytes_len(),
            LynxCommand::LynxI2CWriteReadMultipleBytesCommand(x) => x.get_bytes_len(),
            LynxCommand::LynxI2CReadStatusQueryCommand(x) => x.get_bytes_len(),
            LynxCommand::LynxI2CReadStatusQueryResponse(x) => x.get_bytes_len(),
            LynxCommand::LynxSetMotorPIDFCommand(x) => x.get_bytes_len(),
            LynxCommand::LynxSetMotorVelocityTargetCommand(x) => x.get_bytes_len(),
            LynxCommand::LynxSetMotorTargetPositionCommand(x) => x.get_bytes_len(),
            LynxCommand::LynxI2CWriteStatusQueryCommand(x) => x.get_bytes_len(),
            LynxCommand::LynxI2CWriteStatusQueryResponse(x) => x.get_bytes_len(),
            LynxCommand::LynxI2CConfigureChannelCommand(x) => x.get_bytes_len(),
            LynxCommand::LynxUnknownCommand(x) => x.get_bytes_len(),
        }
    }

    /// The payload bytes.
    pub fn to_bytes(self) -> (r: Vec<u8>)
        requires
            self@.encodable(),
        ensures
            r@ == self@.bytes(),
    {
        match self {
            LynxCommand::LynxGetADCCommand(x) => x.to_bytes(),
            LynxCommand::LynxGetADCResponse(x) => x.to_bytes(),
            LynxCommand::LynxGetBulkDataCommand(x) => x.to_bytes(),
            LynxCommand::LynxGetBulkDataResponse(x) => x.to_bytes(),
            LynxCommand::LynxSetMotorPowerCommand(x) => x.to_bytes(),
            LynxCommand::LynxSetServoPulseWidthCommand(x) => x.to_bytes(),
            LynxCommand::LynxSetMotorChannelEnableCommand(x) => x.to_bytes(),
            LynxCommand::LynxGetMotorChannelModeCommand(x) => x.to_bytes(),
            LynxCommand::LynxGetMotorChannelModeResponse(x) => x.to_bytes(),
            LynxCommand::LynxSetMotorChannelModeCommand(x) => x.to_bytes(),
            LynxCommand::LynxI2CSingleByteWriteCommand(x) => x.to_bytes(),
            LynxCommand::LynxI2cWriteMultipleBytesCommand(x) => x.to_bytes(),
            LynxCommand::LynxI2CWriteReadMultipleBytesCommand(x) => x.to_bytes(),
            LynxCommand::LynxI2CReadStatusQueryCommand(x) => x.to_bytes(),
            LynxCommand::LynxI2CReadStatusQueryResponse(x) => x.to_bytes(),
            LynxCommand::LynxSetMotorPIDFCommand(x) => x.to_bytes(),
            LynxCommand::LynxSetMotorVelocityTargetCommand(x) => x.to_bytes(),
            LynxCommand::LynxSetMotorTargetPositionCommand(x) => x.to_bytes(),
            LynxCommand::LynxI2CWriteStatusQueryCommand(x) => x.to_bytes(),
            LynxCommand::LynxI2CWriteStatusQueryResponse(x) => x.to_bytes(),
            LynxCommand::LynxI2CConfigureChannelCommand(x) => x.to_bytes(),
            LynxCommand::LynxUnknownCommand(x) => x.to_bytes(),
        }
    }

    /// Binds this command to the module it is sent to.
    pub fn to_command(self, module: Module) -> (r: crate::command::Command)
        ensures
            r@ == crate::command::CommandView::LynxCommand((module, self@)),
    {
        LynxCommandData::new(module, self)
    }
}

/// A command of the hub's own set, bound to the module it is addressed to.
#[derive(Clone, Debug)]
pub struct LynxCommandData {
    pub module: Module,
    pub command: LynxCommand,
}

impl View for LynxCommandData {
    type V = (Module, LynxCommandView);

    open spec fn view(&self) -> (Module, LynxCommandView) {
        (self.module, self.command@)
    }
}

/// The first known hub (`h0`, then `h1`) whose address is `addr`.
pub open spec fn spec_find_hub(h0: Option<Module>, h1: Option<Module>, addr: u8) -> Option<Module> {
    if h0 is Some && h0.unwrap().module_addr == addr {
        h0
    } else if h0 is Some && h1 is Some && h1.unwrap().module_addr == addr {
        h1
    } else {
        None
    }
}

/// The known hubs are consistent: a second hub only with a first, and every window fits a `u16`.
pub open spec fn hubs_ok(h0: Option<Module>, h1: Option<Module>) -> bool {
    &&& h1 is Some ==> h0 is Some
    &&& h0 matches Some(m) ==> m.wf()
    &&& h1 matches Some(m) ==> m.wf()
}

/// The first known hub whose address is `addr`.
pub fn find_hub(h0: Option<Module>, h1: Option<Module>, addr: u8) -> (r: Option<Module>)
    ensures
        r == spec_find_hub(h0, h1, addr),
{
    if let Some(m0) = h0 {
        if m0.module_addr == addr {
            return Some(m0);
        }
        if let Some(m1) = h1 {
            if m1.module_addr == addr {
                return Some(m1);
            }
        }
    }
    None
}

/// Whether the known hubs are consistent (the condition `hubs_ok`).
pub fn hubs_consistent(h0: Option<Module>, h1: Option<Module>) -> (r: bool)
    ensures
        r == hubs_ok(h0, h1),
{
    if h1.is_some() && h0.is_none() {
        return false;
    }
    let ok0 = match h0 {
        Some(m) => m.is_wf(),
        None => true,
    };
    let ok1 = match h1 {
        Some(m) => m.is_wf(),
        None => true,
    };
    ok0 && ok1
}

/// Whether `LynxCommandData::from_bytes` can be called with these arguments (the condition it
/// requires).
pub fn lynx_decodable(
    id: u16,
    data: &[u8],
    src_addr: u8,
    dest_addr: u8,
    h0: Option<Module>,
    h1: Option<Module>,
) -> (r: bool)
    ensures
        r == LynxCommandData::from_bytes_ok(id, data@, src_addr, dest_addr, h0, h1),
{
    if !hubs_consistent(h0, h1) {
        return false;
    }
    if h0.is_none() {
        return true;
    }
    if let Some(x) = find_hub(h0, h1, dest_addr) {
        match x.is_module_command(id) {
            Some(m) => lynx_payload_decodable(m, data),
            None => true,
        }
    } else if let Some(x) = find_hub(h0, h1, src_addr) {
        match x.is_module_response(id) {
            Some(m) => lynx_payload_decodable(m, data),
            None => true,
        }
    } else {
        true
    }
}

impl LynxCommandData {
    /// Decodes `data` received under the module-relative `id`; unknown ids keep their raw bytes.
    pub fn to_command(id: u16, data: &[u8], dest_addr: u8) -> (r: LynxCommand)
        requires
            LynxCommandView::decode_ok(id, data@),
        ensures
            r@ == LynxCommandView::decode(id, data@),
    {
        if let Some(cmd) = LynxGetADCCommandData::from_bytes(id, data, dest_addr) {
            LynxCommand::LynxGetADCCommand(cmd)
        } else if let Some(cmd) = LynxGetADCResponseData::from_bytes(id, data, dest_addr) {
            LynxCommand::LynxGetADCResponse(cmd)
        } else if let Some(cmd) = LynxGetBulkDataCommandData::from_bytes(id, data, dest_addr) {
            LynxCommand::LynxGetBulkDataCommand(cmd)
        } else if let Some(cmd) = LynxGetBulkDataResponseData::from_bytes(id, data, dest_addr) {
            LynxCommand::LynxGetBulkDataResponse(cmd)
        } else if let Some(cmd) = LynxSetMotorPowerCommandData::from_bytes(id, data, dest_addr) {
            LynxCommand::LynxSetMotorPowerCommand(cmd)
        } else if let Some(cmd) = LynxSetServoPulseWidthCommandData::from_bytes(id, data, dest_addr) {
            LynxCommand::LynxSetServoPulseWidthCommand(cmd)
        } else if let Some(cmd) = LynxSetMotorChannelEnableCommandData::from_bytes(id, data, dest_addr) {
            LynxCommand::LynxSetMotorChannelEnableCommand(cmd)
        } else if let Some(cmd) = LynxGetMotorChannelModeCommandData::from_bytes(id, data, dest_addr) {
            LynxCommand::LynxGetMotorChannelModeCommand(cmd)
        } else if let Some(cmd) = LynxGetMotorChannelModeResponseData::from_bytes(id, data, dest_addr) {
            LynxCommand::LynxGetMotorChannelModeResponse(cmd)
        } else if let Some(cmd) = LynxSetMotorChannelModeCommandData::from_bytes(id, data, dest_addr) {
            LynxCommand::LynxSetMotorChannelModeCommand(cmd)
        } else if let Some(cmd) = LynxI2CSingleByteWriteCommandData::from_bytes(id, data, dest_addr) {
            LynxCommand::LynxI2CSingleByteWriteCommand(cmd)
        } else if let Some(cmd) = LynxI2cWriteMultipleBytesCommandData::from_bytes(id, data, dest_addr) {
            LynxCommand::LynxI2cWriteMultipleBytesCommand(cmd)
        } else if let Some(cmd) = LynxI2CWriteReadMultipleBytesCommandData::from_bytes(id, data, dest_addr) {
            LynxCommand::LynxI2CWriteReadMultipleBytesCommand(cmd)
        } else if let Some(cmd) = LynxI2CReadStatusQueryCommandData::from_bytes(id, data, dest_addr) {
            LynxCommand::LynxI2CReadStatusQueryCommand(cmd)
        } else if let Some(cmd) = LynxI2CReadStatusQueryResponseData::from_bytes(id, data, dest_addr) {
            LynxCommand::LynxI2CReadStatusQueryResponse(cmd)
        } else if let Some(cmd) = LynxSetMotorPIDFCommandData::from_bytes(id, data, dest_addr) {
            LynxCommand::LynxSetMotorPIDFCommand(cmd)
        } else if let Some(cmd) = LynxSetMotorVelocityTargetCommandData::from_bytes(id, data, dest_addr) {
            LynxCommand::LynxSetMotorVelocityTargetCommand(cmd)
        } else if let Some(cmd) = LynxSetMotorTargetPositionCommandData::from_bytes(id, data, dest_addr) {
            LynxCommand::LynxSetMotorTargetPositionCommand(cmd)
        } else if let Some(cmd) = LynxI2CWriteStatusQueryCommandData::from_bytes(id, data, dest_addr) {
            LynxCommand::LynxI2CWriteStatusQueryCommand(cmd)
        } else if let Some(cmd) = LynxI2CWriteStatusQueryResponseData::from_bytes(id, data, dest_addr) {
            LynxCommand::LynxI2CWriteStatusQueryResponse(cmd)
        } else if let Some(cmd) = LynxI2CConfigureChannelCommandData::from_bytes(id, data, dest_addr) {
            LynxCommand::LynxI2CConfigureChannelCommand(cmd)
        } else {
            let u = LynxUnknownData::from_bytes(id, data, dest_addr);
            LynxCommand::LynxUnknownCommand(u.unwrap())
        }
    }

    /// What a hub command received under `id` from `src` to `dest` decodes to, given the known hubs.
    ///
    /// With no hub known, it is kept raw under the host module. Otherwise the hub addressed
    /// by `dest` claims it as a command in its window; failing that, the hub at `src` claims it
    /// as a response; a packet neither claims is not a hub command.
    pub open spec fn spec_from_bytes(
        id: u16,
        data: Seq<u8>,
        src_addr: u8,
        dest_addr: u8,
        h0: Option<Module>,
        h1: Option<Module>,
    ) -> Option<(Module, LynxCommandView)> {
        if h0 is None {
            Some((spec_null_module(), LynxCommandView::LynxUnknownCommand((id, data))))
        } else {
            match spec_find_hub(h0, h1, dest_addr) {
                Some(x) => match x.spec_module_command(id) {
                    Some(m) => Some((x, LynxCommandView::decode(m, data))),
                    None => None,
                },
                None => match spec_find_hub(h0, h1, src_addr) {
                    Some(x) => match x.spec_module_response(id) {
                        Some(m) => Some((x, LynxCommandView::decode(m, data))),
                        None => None,
                    },
                    None => None,
                },
            }
        }
    }

    /// Decoding a hub command does not fail.
    pub open spec fn from_bytes_ok(
        id: u16,
        data: Seq<u8>,
        src_addr: u8,
        dest_addr: u8,
        h0: Option<Module>,
        h1: Option<Module>,
    ) -> bool {
        &&& hubs_ok(h0, h1)
        &&& h0 is Some ==> match spec_find_hub(h0, h1, dest_addr) {
            Some(x) => x.spec_module_command(id) matches Some(m) ==> LynxCommandView::decode_ok(
                m,
                data,
            ),
            None => match spec_find_hub(h0, h1, src_addr) {
                Some(x) => x.spec_module_response(id) matches Some(m)
                    ==> LynxCommandView::decode_ok(m, data),
                None => true,
            },
        }
    }

    /// Decodes a hub command received under `id` from `src_addr` to `dest_addr`.
    /// `hub_0` and `hub_1` are the hubs known so far.
    pub fn from_bytes(
        id: u16,
        data: &[u8],
        src_addr: u8,
        dest_addr: u8,
        hub_0: Option<Module>,
        hub_1: Option<Module>,
    ) -> (r: Option<Self>)
        requires
            Self::from_bytes_ok(id, data@, src_addr, dest_addr, hub_0, hub_1),
        ensures
            r is Some <==> Self::spec_from_bytes(id, data@, src_addr, dest_addr, hub_0, hub_1) is Some,
            r matches Some(x) ==> Self::spec_from_bytes(id, data@, src_addr, dest_addr, hub_0, hub_1)
                == Some(x@),
    {
        if hub_0.is_none() {
            let u = LynxUnknownData::from_bytes(id, data, dest_addr);
            return Some(
                LynxCommandData {
                    module: Module::null(),
                    command: LynxCommand::LynxUnknownCommand(u.unwrap()),
                },
            );
        }
        if let Some(x) = find_hub(hub_0, hub_1, dest_addr) {
            if let Some(m) = x.is_module_command(id) {
                Some(LynxCommandData { module: x, command: LynxCommandData::to_command(m, data, dest_addr) })
            } else {
                None
            }
        } else if let Some(x) = find_hub(hub_0, hub_1, src_addr) {
            if let Some(m) = x.is_module_response(id) {
                Some(LynxCommandData { module: x, command: LynxCommandData::to_command(m, data, src_addr) })
            } else {
                None
            }
        } else {
            None
        }
    }

    /// Wraps a hub command for `module` as a packet payload.
    pub fn new(module: Module, lynx_command: LynxCommand) -> (r: crate::command::Command)
        ensures
            r@ == crate::command::CommandView::LynxCommand((module, lynx_command@)),
    {
        let data = LynxCommandData { module, command: lynx_command };
        crate::command::Command::LynxCommand(data)
    }
}

impl CommandData for LynxCommandData {
    open spec fn spec_packet_id(&self) -> u16 {
        (self.command@.rel_packet_id() + self.module.number_command_first) as u16
    }

    open spec fn spec_bytes(&self) -> Seq<u8> {
        self.command@.bytes()
    }

    open spec fn id_fits(&self) -> bool {
        self.command@.rel_packet_id() + self.module.number_command_first <= u16::MAX
    }

    open spec fn encodable(&self) -> bool {
        self.command@.encodable()
    }

    /// Decoding needs the source address and the known hubs, which this form lacks.
    open spec fn parse_ok(id: u16, data: Seq<u8>) -> bool {
        false
    }

    open spec fn spec_parse(id: u16, data: Seq<u8>) -> Option<(Module, LynxCommandView)> {
        None
    }

    fn to_packet_id(&self) -> (r: u16) {
        self.command.rel_packet_id() + self.module.number_command_first
    }

    fn from_bytes(id: u16, data: &[u8], dest_addr: u8) -> (r: Option<Self>) {
        None
    }

    fn get_bytes_len(&self) -> (r: usize) {
        self.command.get_bytes_len()
    }

    fn to_bytes(self) -> (r: Vec<u8>) {
        self.command.to_bytes()
    }
}

/// Whether `LynxCommandData::to_command` can be called on `data` under `id` (the condition it requires).
pub fn lynx_payload_decodable(id: u16, data: &[u8]) -> (r: bool)
    ensures
        r == LynxCommandView::decode_ok(id, data@),
{
    if id == 7u16 {
        data.len() >= 2 && ADCCommandChannel::try_from_u8(data[0]).is_some() && ADCCommandMode::try_from_u8(data[1]).is_some()
    } else if id == 0x8007u16 {
        data.len() >= 2
    } else if id == 0u16 {
        true
    } else if id == 15u16 {
        data.len() >= 3
    } else if id == 33u16 {
        data.len() >= 3
    } else if id == 10u16 {
        data.len() >= 2
    } else if id == 9u16 {
        data.len() >= 1
    } else if id == 0x8009u16 {
        data.len() >= 2 && DcMotorRunMode::try_from_u8(data[0]).is_some() && DcMotorZeroPowerBehavior::try_from_u8(data[1]).is_some()
    } else if id == 8u16 {
        data.len() >= 3 && DcMotorRunMode::try_from_u8(data[1]).is_some() && DcMotorZeroPowerBehavior::try_from_u8(data[2]).is_some()
    } else if id == 37u16 {
        data.len() >= 3
    } else if id == 41u16 {
        data.len() >= 1
    } else if id == 52u16 {
        data.len() >= 4
    } else if id == 51u16 {
        data.len() >= 19 && DcMotorRunMode::try_from_u8(data[1]).is_some()
    } else if id == 17u16 {
        data.len() >= 3
    } else if id == 19u16 {
        data.len() >= 7
    } else if id == 42u16 {
        data.len() >= 1
    } else if id == 0x802Au16 {
        data.len() >= 2
    } else if id == 0x8000u16 {
        data.len() >= 34
    } else if id == 38u16 {
        data.len() >= 3 && data.len() >= 3 + data[2] as usize
    } else if id == 0x8029u16 {
        data.len() >= 2 && data.len() >= 2 + data[1] as usize
    } else if id == 43u16 {
        data.len() >= 2
    } else {
        true
    }
}


impl LynxCommand {
    /// A copy with the same value.
    pub fn duplicate(&self) -> (r: LynxCommand)
        ensures
            r@ == self@,
    {
        match self {
            LynxCommand::LynxGetADCCommand(x) => LynxCommand::LynxGetADCCommand(*x),
            LynxCommand::LynxGetADCResponse(x) => LynxCommand::LynxGetADCResponse(*x),
            LynxCommand::LynxGetBulkDataCommand(x) => LynxCommand::LynxGetBulkDataCommand(*x),
            LynxCommand::LynxGetBulkDataResponse(x) => LynxCommand::LynxGetBulkDataResponse(*x),
            LynxCommand::LynxSetMotorPowerCommand(x) => LynxCommand::LynxSetMotorPowerCommand(*x),
            LynxCommand::LynxSetServoPulseWidthCommand(x) => LynxCommand::LynxSetServoPulseWidthCommand(*x),
            LynxCommand::LynxSetMotorChannelEnableCommand(x) => LynxCommand::LynxSetMotorChannelEnableCommand(*x),
            LynxCommand::LynxGetMotorChannelModeCommand(x) => LynxCommand::LynxGetMotorChannelModeCommand(*x),
            LynxCommand::LynxGetMotorChannelModeResponse(x) => LynxCommand::LynxGetMotorChannelModeResponse(*x),
            LynxCommand::LynxSetMotorChannelModeCommand(x) => LynxCommand::LynxSetMotorChannelModeCommand(*x),
            LynxCommand::LynxI2CSingleByteWriteCommand(x) => LynxCommand::LynxI2CSingleByteWriteCommand(*x),
            LynxCommand::LynxI2cWriteMultipleBytesCommand(x) => LynxCommand::LynxI2cWriteMultipleBytesCommand(x.duplicate()),
            LynxCommand::LynxI2CWriteReadMultipleBytesCommand(x) => LynxCommand::LynxI2CWriteReadMultipleBytesCommand(*x),
            LynxCommand::LynxI2CReadStatusQueryCommand(x) => LynxCommand::LynxI2CReadStatusQueryCommand(*x),
            LynxCommand::LynxI2CReadStatusQueryResponse(x) => LynxCommand::LynxI2CReadStatusQueryResponse(x.duplicate()),
            LynxCommand::LynxSetMotorPIDFCommand(x) => LynxCommand::LynxSetMotorPIDFCommand(*x),
            LynxCommand::LynxSetMotorVelocityTargetCommand(x) => LynxCommand::LynxSetMotorVelocityTargetCommand(*x),
            LynxCommand::LynxSetMotorTargetPositionCommand(x) => LynxCommand::LynxSetMotorTargetPositionCommand(*x),
            LynxCommand::LynxI2CWriteStatusQueryCommand(x) => LynxCommand::LynxI2CWriteStatusQueryCommand(*x),
            LynxCommand::LynxI2CWriteStatusQueryResponse(x) => LynxCommand::LynxI2CWriteStatusQueryResponse(*x),
            LynxCommand::LynxI2CConfigureChannelCommand(x) => LynxCommand::LynxI2CConfigureChannelCommand(*x),
            LynxCommand::LynxUnknownCommand(x) => LynxCommand::LynxUnknownCommand(x.duplicate()),
        }
    }
}

impl LynxCommandData {
    /// A copy with the same value.
    pub fn duplicate(&self) -> (r: LynxCommandData)
        ensures
            r@ == self@,
    {
        LynxCommandData { module: self.module, command: self.command.duplicate() }
    }
}

proof fn lemma_decode_roundtrip_0(x: LynxGetADCCommandData)
    requires
        true,
    ensures
        ({
            let c = LynxCommandView::LynxGetADCCommand(x);
            LynxCommandView::decode_ok(c.rel_packet_id(), c.bytes()) && LynxCommandView::decode(
                c.rel_packet_id(),
                c.bytes(),
            ) == c
        }),
{
    let c = LynxCommandView::LynxGetADCCommand(x);
    LynxGetADCCommandData::lemma_roundtrip(x);
}

proof fn lemma_decode_roundtrip_1(x: LynxGetADCResponseData)
    requires
        true,
    ensures
        ({
            let c = LynxCommandView::LynxGetADCResponse(x);
            LynxCommandView::decode_ok(c.rel_packet_id(), c.bytes()) && LynxCommandView::decode(
                c.rel_packet_id(),
                c.bytes(),
            ) == c
        }),
{
    let c = LynxCommandView::LynxGetADCResponse(x);
    LynxGetADCResponseData::lemma_roundtrip(x);
}

proof fn lemma_decode_roundtrip_2(x: LynxGetBulkDataCommandData)
    requires
        true,
    ensures
        ({
            let c = LynxCommandView::LynxGetBulkDataCommand(x);
            LynxCommandView::decode_ok(c.rel_packet_id(), c.bytes()) && LynxCommandView::decode(
                c.rel_packet_id(),
                c.bytes(),
            ) == c
        }),
{
    let c = LynxCommandView::LynxGetBulkDataCommand(x);
    LynxGetBulkDataCommandData::lemma_roundtrip(x);
}

proof fn lemma_decode_roundtrip_3(x: LynxGetBulkDataResponseData)
    requires
        true,
    ensures
        ({
            let c = LynxCommandView::LynxGetBulkDataResponse(x);
            LynxCommandView::decode_ok(c.rel_packet_id(), c.bytes()) && LynxCommandView::decode(
                c.rel_packet_id(),
                c.bytes(),
            ) == c
        }),
{
    let c = LynxCommandView::LynxGetBulkDataResponse(x);
    LynxGetBulkDataResponseData::lemma_roundtrip(x);
}

proof fn lemma_decode_roundtrip_4(x: LynxSetMotorPowerCommandData)
    requires
        true,
    ensures
        ({
            let c = LynxCommandView::LynxSetMotorPowerCommand(x);
            LynxCommandView::decode_ok(c.rel_packet_id(), c.bytes()) && LynxCommandView::decode(
                c.rel_packet_id(),
                c.bytes(),
            ) == c
        }),
{
    let c = LynxCommandView::LynxSetMotorPowerCommand(x);
    LynxSetMotorPowerCommandData::lemma_roundtrip(x);
}

proof fn lemma_decode_roundtrip_5(x: LynxSetServoPulseWidthCommandData)
    requires
        true,
    ensures
        ({
            let c = LynxCommandView::LynxSetServoPulseWidthCommand(x);
            LynxCommandView::decode_ok(c.rel_packet_id(), c.bytes()) && LynxCommandView::decode(
                c.rel_packet_id(),
                c.bytes(),
            ) == c
        }),
{
    let c = LynxCommandView::LynxSetServoPulseWidthCommand(x);
    LynxSetServoPulseWidthCommandData::lemma_roundtrip(x);
}

proof fn lemma_decode_roundtrip_6(x: LynxSetMotorChannelEnableCommandData)
    requires
        true,
    ensures
        ({
            let c = LynxCommandView::LynxSetMotorChannelEnableCommand(x);
            LynxCommandView::decode_ok(c.rel_packet_id(), c.bytes()) && LynxCommandView::decode(
                c.rel_packet_id(),
                c.bytes(),
            ) == c
        }),
{
    let c = LynxCommandView::LynxSetMotorChannelEnableCommand(x);
    LynxSetMotorChannelEnableCommandData::lemma_roundtrip(x);
}

proof fn lemma_decode_roundtrip_7(x: LynxGetMotorChannelModeCommandData)
    requires
        true,
    ensures
        ({
            let c = LynxCommandView::LynxGetMotorChannelModeCommand(x);
            LynxCommandView::decode_ok(c.rel_packet_id(), c.bytes()) && LynxCommandView::decode(
                c.rel_packet_id(),
                c.bytes(),
            ) == c
        }),
{
    let c = LynxCommandView::LynxGetMotorChannelModeCommand(x);
    LynxGetMotorChannelModeCommandData::lemma_roundtrip(x);
}

proof fn lemma_decode_roundtrip_8(x: LynxGetMotorChannelModeResponseData)
    requires
        true,
    ensures
        ({
            let c = LynxCommandView::LynxGetMotorChannelModeResponse(x);
            LynxCommandView::decode_ok(c.rel_packet_id(), c.bytes()) && LynxCommandView::decode(
                c.rel_packet_id(),
                c.bytes(),
            ) == c
        }),
{
    let c = LynxCommandView::LynxGetMotorChannelModeResponse(x);
    LynxGetMotorChannelModeResponseData::lemma_roundtrip(x);
}

proof fn lemma_decode_roundtrip_9(x: LynxSetMotorChannelModeCommandData)
    requires
        true,
    ensures
        ({
            let c = LynxCommandView::LynxSetMotorChannelModeCommand(x);
            LynxCommandView::decode_ok(c.rel_packet_id(), c.bytes()) && LynxCommandView::decode(
                c.rel_packet_id(),
                c.bytes(),
            ) == c
        }),
{
    let c = LynxCommandView::LynxSetMotorChannelModeCommand(x);
    LynxSetMotorChannelModeCommandData::lemma_roundtrip(x);
}

proof fn lemma_decode_roundtrip_10(x: LynxI2CSingleByteWriteCommandData)
    requires
        true,
    ensures
        ({
            let c = LynxCommandView::LynxI2CSingleByteWriteCommand(x);
            LynxCommandView::decode_ok(c.rel_packet_id(), c.bytes()) && LynxCommandView::decode(
                c.rel_packet_id(),
                c.bytes(),
            ) == c
        }),
{
    let c = LynxCommandView::LynxI2CSingleByteWriteCommand(x);
    LynxI2CSingleByteWriteCommandData::lemma_roundtrip(x);
}

#[verifier::rlimit(60)]
proof fn lemma_decode_roundtrip_11(x: (u8, u8, Seq<u8>))
    requires
        x.2.len() <= 255,
        true,
    ensures
        ({
            let c = LynxCommandView::LynxI2cWriteMultipleBytesCommand(x);
            LynxCommandView::decode_ok(c.rel_packet_id(), c.bytes()) && LynxCommandView::decode(
                c.rel_packet_id(),
                c.bytes(),
            ) == c
        }),
{
    let c = LynxCommandView::LynxI2cWriteMultipleBytesCommand(x);
    let b = c.bytes();
    assert(b.subrange(3, 3 + b[2]) =~= x.2);
    assert(LynxI2cWriteMultipleBytesCommandData::spec_parse(38u16, b) == Some(x));
}

proof fn lemma_decode_roundtrip_12(x: LynxI2CWriteReadMultipleBytesCommandData)
    requires
        true,
    ensures
        ({
            let c = LynxCommandView::LynxI2CWriteReadMultipleBytesCommand(x);
            LynxCommandView::decode_ok(c.rel_packet_id(), c.bytes()) && LynxCommandView::decode(
                c.rel_packet_id(),
                c.bytes(),
            ) == c
        }),
{
    let c = LynxCommandView::LynxI2CWriteReadMultipleBytesCommand(x);
    LynxI2CWriteReadMultipleBytesCommandData::lemma_roundtrip(x);
}

proof fn lemma_decode_roundtrip_13(x: LynxI2CReadStatusQueryCommandData)
    requires
        true,
    ensures
        ({
            let c = LynxCommandView::LynxI2CReadStatusQueryCommand(x);
            LynxCommandView::decode_ok(c.rel_packet_id(), c.bytes()) && LynxCommandView::decode(
                c.rel_packet_id(),
                c.bytes(),
            ) == c
        }),
{
    let c = LynxCommandView::LynxI2CReadStatusQueryCommand(x);
    LynxI2CReadStatusQueryCommandData::lemma_roundtrip(x);
}

#[verifier::rlimit(60)]
proof fn lemma_decode_roundtrip_14(x: (u8, Seq<u8>))
    requires
        x.1.len() <= 255,
        true,
    ensures
        ({
            let c = LynxCommandView::LynxI2CReadStatusQueryResponse(x);
            LynxCommandView::decode_ok(c.rel_packet_id(), c.bytes()) && LynxCommandView::decode(
                c.rel_packet_id(),
                c.bytes(),
            ) == c
        }),
{
    let c = LynxCommandView::LynxI2CReadStatusQueryResponse(x);
    let b = c.bytes();
    assert(b.subrange(2, 2 + b[1]) =~= x.1);
}

proof fn lemma_decode_roundtrip_15(x: LynxSetMotorPIDFCommandData)
    requires
        true,
    ensures
        ({
            let c = LynxCommandView::LynxSetMotorPIDFCommand(x);
            LynxCommandView::decode_ok(c.rel_packet_id(), c.bytes()) && LynxCommandView::decode(
                c.rel_packet_id(),
                c.bytes(),
            ) == c
        }),
{
    let c = LynxCommandView::LynxSetMotorPIDFCommand(x);
    LynxSetMotorPIDFCommandData::lemma_roundtrip(x);
}

proof fn lemma_decode_roundtrip_16(x: LynxSetMotorVelocityTargetCommandData)
    requires
        true,
    ensures
        ({
            let c = LynxCommandView::LynxSetMotorVelocityTargetCommand(x);
            LynxCommandView::decode_ok(c.rel_packet_id(), c.bytes()) && LynxCommandView::decode(
                c.rel_packet_id(),
                c.bytes(),
            ) == c
        }),
{
    let c = LynxCommandView::LynxSetMotorVelocityTargetCommand(x);
    LynxSetMotorVelocityTargetCommandData::lemma_roundtrip(x);
}

proof fn lemma_decode_roundtrip_17(x: LynxSetMotorTargetPositionCommandData)
    requires
        true,
    ensures
        ({
            let c = LynxCommandView::LynxSetMotorTargetPositionCommand(x);
            LynxCommandView::decode_ok(c.rel_packet_id(), c.bytes()) && LynxCommandView::decode(
                c.rel_packet_id(),
                c.bytes(),
            ) == c
        }),
{
    let c = LynxCommandView::LynxSetMotorTargetPositionCommand(x);
    LynxSetMotorTargetPositionCommandData::lemma_roundtrip(x);
}

proof fn lemma_decode_roundtrip_18(x: LynxI2CWriteStatusQueryCommandData)
    requires
        true,
    ensures
        ({
            let c = LynxCommandView::LynxI2CWriteStatusQueryCommand(x);
            LynxCommandView::decode_ok(c.rel_packet_id(), c.bytes()) && LynxCommandView::decode(
                c.rel_packet_id(),
                c.bytes(),
            ) == c
        }),
{
    let c = LynxCommandView::LynxI2CWriteStatusQueryCommand(x);
    LynxI2CWriteStatusQueryCommandData::lemma_roundtrip(x);
}

proof fn lemma_decode_roundtrip_19(x: LynxI2CWriteStatusQueryResponseData)
    requires
        true,
    ensures
        ({
            let c = LynxCommandView::LynxI2CWriteStatusQueryResponse(x);
            LynxCommandView::decode_ok(c.rel_packet_id(), c.bytes()) && LynxCommandView::decode(
                c.rel_packet_id(),
                c.bytes(),
            ) == c
        }),
{
    let c = LynxCommandView::LynxI2CWriteStatusQueryResponse(x);
    LynxI2CWriteStatusQueryResponseData::lemma_roundtrip(x);
}

proof fn lemma_decode_roundtrip_20(x: LynxI2CConfigureChannelCommandData)
    requires
        true,
    ensures
        ({
            let c = LynxCommandView::LynxI2CConfigureChannelCommand(x);
            LynxCommandView::decode_ok(c.rel_packet_id(), c.bytes()) && LynxCommandView::decode(
                c.rel_packet_id(),
                c.bytes(),
            ) == c
        }),
{
    let c = LynxCommandView::LynxI2CConfigureChannelCommand(x);
    LynxI2CConfigureChannelCommandData::lemma_roundtrip(x);
}

/// Decoding the bytes of a hub command under its module-relative id (what
/// `LynxCommandData::to_command` returns, whatever the destination address) gives the command
/// back. Raw commands are left out: their id may be that of a known kind.
pub proof fn lemma_lynx_decode_roundtrip(c: LynxCommandView)
    requires
        c.encodable(),
        !(c is LynxUnknownCommand),
        c matches LynxCommandView::LynxI2CReadStatusQueryResponse(x) ==> x.1.len() <= 255,
    ensures
        LynxCommandView::decode_ok(c.rel_packet_id(), c.bytes()),
        LynxCommandView::decode(c.rel_packet_id(), c.bytes()) == c,
{
    match c {
        LynxCommandView::LynxGetADCCommand(x) => lemma_decode_roundtrip_0(x),
        LynxCommandView::LynxGetADCResponse(x) => lemma_decode_roundtrip_1(x),
        LynxCommandView::LynxGetBulkDataCommand(x) => lemma_decode_roundtrip_2(x),
        LynxCommandView::LynxGetBulkDataResponse(x) => lemma_decode_roundtrip_3(x),
        LynxCommandView::LynxSetMotorPowerCommand(x) => lemma_decode_roundtrip_4(x),
        LynxCommandView::LynxSetServoPulseWidthCommand(x) => lemma_decode_roundtrip_5(x),
        LynxCommandView::LynxSetMotorChannelEnableCommand(x) => lemma_decode_roundtrip_6(x),
        LynxCommandView::LynxGetMotorChannelModeCommand(x) => lemma_decode_roundtrip_7(x),
        LynxCommandView::LynxGetMotorChannelModeResponse(x) => lemma_decode_roundtrip_8(x),
        LynxCommandView::LynxSetMotorChannelModeCommand(x) => lemma_decode_roundtrip_9(x),
        LynxCommandView::LynxI2CSingleByteWriteCommand(x) => lemma_decode_roundtrip_10(x),
        LynxCommandView::LynxI2cWriteMultipleBytesCommand(x) => lemma_decode_roundtrip_11(x),
        LynxCommandView::LynxI2CWriteReadMultipleBytesCommand(x) => lemma_decode_roundtrip_12(x),
        LynxCommandView::LynxI2CReadStatusQueryCommand(x) => lemma_decode_roundtrip_13(x),
        LynxCommandView::LynxI2CReadStatusQueryResponse(x) => lemma_decode_roundtrip_14(x),
        LynxCommandView::LynxSetMotorPIDFCommand(x) => lemma_decode_roundtrip_15(x),
        LynxCommandView::LynxSetMotorVelocityTargetCommand(x) => lemma_decode_roundtrip_16(x),
        LynxCommandView::LynxSetMotorTargetPositionCommand(x) => lemma_decode_roundtrip_17(x),
        LynxCommandView::LynxI2CWriteStatusQueryCommand(x) => lemma_decode_roundtrip_18(x),
        LynxCommandView::LynxI2CWriteStatusQueryResponse(x) => lemma_decode_roundtrip_19(x),
        LynxCommandView::LynxI2CConfigureChannelCommand(x) => lemma_decode_roundtrip_20(x),
        LynxCommandView::LynxUnknownCommand(x) => {},
    }
}

} // verus!
