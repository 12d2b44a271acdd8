//! Standard command numbers, the response bit, and the command window of a module.
use vstd::prelude::*;

verus! {

/// The commands that every module on the bus understands.
#[derive(Copy, Clone, Debug, PartialEq, Eq, Structural)]
pub enum StandardCommands {
    ACK,
    NACK,
    GetModuleStatus,
    KeepAlive,
    FailSafe,
    SetNewModuleAddr,
    QueryInterface,
    StartDownload,
    DownloadChunk,
    SetModuleLedColor,
    GetModuleLedColor,
    SetModuleLedPattern,
    GetModuleLedPattern,
    DebugLogLevel,
    Discovery,
}

/// Packet id of the acknowledgement.
pub const ACK_ID: u16 = 0x7F01u16;
/// Packet id of the negative acknowledgement.
pub const NACK_ID: u16 = 0x7F02u16;
/// Packet id of the keep-alive.
pub const KEEP_ALIVE_ID: u16 = 0x7F04u16;
/// Packet id of the interface query.
pub const QUERY_INTERFACE_ID: u16 = 0x7F07u16;
/// Packet id of the answer to an interface query (the query id with the response bit).
pub const QUERY_INTERFACE_RESPONSE_ID: u16 = 0xFF07u16;
/// The lowest standard command number.
pub const FIRST: u16 = 0x7F01u16;
/// The highest standard command number.
pub const LAST: u16 = 0x7F0Fu16;
/// The bit that marks a packet id as a response.
pub const RESPONSE_BIT: u16 = 0x8000u16;

impl StandardCommands {
    /// The packet id of each standard command.
    pub open spec fn spec_value(self) -> u16 {
        match self {
            StandardCommands::ACK => 0x7F01,
            StandardCommands::NACK => 0x7F02,
            StandardCommands::GetModuleStatus => 0x7F03,
            StandardCommands::KeepAlive => 0x7F04,
            StandardCommands::FailSafe => 0x7F05,
            StandardCommands::SetNewModuleAddr => 0x7F06,
            StandardCommands::QueryInterface => 0x7F07,
            StandardCommands::StartDownload => 0x7F08,
            StandardCommands::DownloadChunk => 0x7F09,
            StandardCommands::SetModuleLedColor => 0x7F0A,
            StandardCommands::GetModuleLedColor => 0x7F0B,
            StandardCommands::SetModuleLedPattern => 0x7F0C,
            StandardCommands::GetModuleLedPattern => 0x7F0D,
            StandardCommands::DebugLogLevel => 0x7F0E,
            StandardCommands::Discovery => 0x7F0F,
        }
    }

    /// The packet id of this command.
    pub fn value(self) -> (r: u16)
        ensures
            r == self.spec_value(),
    {
        match self {
            StandardCommands::ACK => 0x7F01,
            StandardCommands::NACK => 0x7F02,
            StandardCommands::GetModuleStatus => 0x7F03,
            StandardCommands::KeepAlive => 0x7F04,
            StandardCommands::FailSafe => 0x7F05,
            StandardCommands::SetNewModuleAddr => 0x7F06,
            StandardCommands::QueryInterface => 0x7F07,
            StandardCommands::StartDownload => 0x7F08,
            StandardCommands::DownloadChunk => 0x7F09,
            StandardCommands::SetModuleLedColor => 0x7F0A,
            StandardCommands::GetModuleLedColor => 0x7F0B,
            StandardCommands::SetModuleLedPattern => 0x7F0C,
            StandardCommands::GetModuleLedPattern => 0x7F0D,
            StandardCommands::DebugLogLevel => 0x7F0E,
            StandardCommands::Discovery => 0x7F0F,
        }
    }

    /// The standard command with packet id `v`, if there is one.
    pub fn try_from_u16(v: u16) -> (r: Option<StandardCommands>)
        ensures
            r is Some <==> FIRST <= v <= LAST,
            r matches Some(c) ==> c.spec_value() == v,
    {
        if v == 0x7F01 {
            Some(StandardCommands::ACK)
        } else if v == 0x7F02 {
            Some(StandardCommands::NACK)
        } else if v == 0x7F03 {
            Some(StandardCommands::GetModuleStatus)
        } else if v == 0x7F04 {
            Some(StandardCommands::KeepAlive)
        } else if v == 0x7F05 {
            Some(StandardCommands::FailSafe)
        } else if v == 0x7F06 {
            Some(StandardCommands::SetNewModuleAddr)
        } else if v == 0x7F07 {
            Some(StandardCommands::QueryInterface)
        } else if v == 0x7F08 {
            Some(StandardCommands::StartDownload)
        } else if v == 0x7F09 {
            Some(StandardCommands::DownloadChunk)
        } else if v == 0x7F0A {
            Some(StandardCommands::SetModuleLedColor)
        } else if v == 0x7F0B {
            Some(StandardCommands::GetModuleLedColor)
        } else if v == 0x7F0C {
            Some(StandardCommands::SetModuleLedPattern)
        } else if v == 0x7F0D {
            Some(StandardCommands::GetModuleLedPattern)
        } else if v == 0x7F0E {
            Some(StandardCommands::DebugLogLevel)
        } else if v == 0x7F0F {
            Some(StandardCommands::Discovery)
        } else {
            None
        }
    }
}

/// Whether `pack_id` lies in the range of the standard commands.
pub fn is_standard_command(pack_id: u16) -> (r: bool)
    ensures
        r == (FIRST <= pack_id <= LAST),
{
    pack_id >= FIRST && pack_id <= LAST
}

/// `pack_id` with the response bit cleared.
pub open spec fn spec_command_number(pack_id: u16) -> u16 {
    pack_id & !RESPONSE_BIT
}

/// Whether `pack_id` has the response bit set.
pub open spec fn spec_is_response(pack_id: u16) -> bool {
    (pack_id & RESPONSE_BIT) > 0
}

/// `pack_id` with the response bit cleared.
pub fn command_number(pack_id: u16) -> (r: u16)
    ensures
        r == spec_command_number(pack_id),
        r == pack_id % 0x8000,
{
    let r = pack_id & !RESPONSE_BIT;
    assert(r == pack_id % 0x8000) by (bit_vector)
        requires
            r == pack_id & !0x8000u16,
    ;
    r
}

/// Whether `pack_id` has the response bit set.
pub fn is_response(pack_id: u16) -> (r: bool)
    ensures
        r == spec_is_response(pack_id),
        r == (pack_id >= 0x8000),
{
    let r = (pack_id & RESPONSE_BIT) > 0;
    assert(r == (pack_id >= 0x8000)) by (bit_vector)
        requires
            r == ((pack_id & 0x8000u16) > 0),
    ;
    r
}

/// A packet id is its command number with the response bit added back when it is set.
pub proof fn lemma_command_number_split(pack_id: u16)
    ensures
        pack_id == spec_command_number(pack_id) + (if spec_is_response(pack_id) {
            0x8000int
        } else {
            0int
        }),
        spec_command_number(pack_id) < 0x8000,
{
    assert(pack_id == (pack_id & !0x8000u16) + (if (pack_id & 0x8000u16) > 0 {
        0x8000int
    } else {
        0int
    })) by (bit_vector);
    assert((pack_id & !0x8000u16) < 0x8000) by (bit_vector);
}

/// The kind of a module on the bus.
#[derive(Clone, Copy, Debug, PartialEq, Eq, Structural)]
pub enum ModuleType {
    Lynx,
    Host,
}

/// A module on the bus and the window of command numbers it answers to.
#[derive(Clone, Copy, Debug)]
pub struct Module {
    pub module_addr: u8,
    /// Used for printing only.
    pub module_name: &'static str,
    pub number_command_first: u16,
    pub number_of_commands: u16,
    pub is_parent: bool,
    pub module_type: ModuleType,
}

/// The host itself: it answers to no command.
pub open spec fn spec_null_module() -> Module {
    Module {
        module_addr: 0,
        module_name: "HOST",
        number_command_first: 0,
        number_of_commands: 0,
        is_parent: false,
        module_type: ModuleType::Host,
    }
}

impl Module {
    /// The end of the command window fits in a `u16`.
    pub open spec fn wf(&self) -> bool {
        self.number_command_first + self.number_of_commands <= u16::MAX
    }

    /// The command number a module-relative command `packet_id` maps to, if it is in the window.
    pub open spec fn spec_module_command(&self, packet_id: u16) -> Option<u16> {
        if packet_id >= self.number_command_first + self.number_of_commands || packet_id
            < self.number_command_first {
            None
        } else {
            Some((packet_id - self.number_command_first) as u16)
        }
    }

    /// The module-relative id of a response `packet_id`, if it answers this module.
    pub open spec fn spec_module_response(&self, packet_id: u16) -> Option<u16> {
        if self.spec_module_command(packet_id) is Some {
            None
        } else {
            let cmd_id = spec_command_number(packet_id);
            if cmd_id >= self.number_command_first + self.number_of_commands || cmd_id
                < self.number_command_first {
                None
            } else {
                Some((packet_id - self.number_command_first) as u16)
            }
        }
    }

    /// The host itself: it answers to no command.
    pub fn null() -> (r: Module)
        ensures
            r == spec_null_module(),
            r.wf(),
    {
        Module {
            module_addr: 0,
            module_name: "HOST",
            number_command_first: 0,
            number_of_commands: 0,
            is_parent: false,
            module_type: ModuleType::Host,
        }
    }

    /// A hub described by its answer to an interface query.
    pub fn from_deka_discovery(
        id: u8,
        data: &crate::commands::QueryInterfaceResponseData,
        is_parent: bool,
    ) -> (r: Module)
        ensures
            r.module_addr == id,
            r.module_name@ == "LYNX/DEKA"@,
            r.number_command_first == data.command_number_first,
            r.number_of_commands == data.number_of_commands,
            r.is_parent == is_parent,
            r.module_type == ModuleType::Lynx,
    {
        Module {
            module_addr: id,
            module_name: "LYNX/DEKA",
            number_command_first: data.command_number_first,
            number_of_commands: data.number_of_commands,
            is_parent,
            module_type: ModuleType::Lynx,
        }
    }

    /// The module-relative id of a response packet id, if it answers this module.
    pub fn is_module_response(&self, packet_id: u16) -> (r: Option<u16>)
        requires
            self.wf(),
        ensures
            r == self.spec_module_response(packet_id),
    {
        if self.is_module_command(packet_id).is_some() {
            return None;
        }
        let cmd_id = command_number(packet_id);
        if cmd_id >= self.number_command_first + self.number_of_commands || cmd_id
            < self.number_command_first {
            None
        } else {
            Some(packet_id - self.number_command_first)
        }
    }

    /// The module-relative id of a command packet id, if it is in this module's window.
    pub fn is_module_command(&self, packet_id: u16) -> (r: Option<u16>)
        requires
            self.wf(),
        ensures
            r == self.spec_module_command(packet_id),
    {
        if packet_id >= self.number_command_first + self.number_of_commands || packet_id
            < self.number_command_first {
            None
        } else {
            Some(packet_id - self.number_command_first)
        }
    }

    /// Whether the command window fits in a `u16` (the condition the window lookups need).
    pub fn is_wf(&self) -> (r: bool)
        ensures
            r == self.wf(),
    {
        self.number_command_first as u32 + self.number_of_commands as u32 <= 0xFFFF
    }
}

/// A packet id is never both a command and a response of the same module.
pub proof fn lemma_command_response_exclusive(m: Module, packet_id: u16)
    ensures
        !(m.spec_module_command(packet_id) is Some && m.spec_module_response(packet_id) is Some),
{
}

/// A command in the window (the first command number and the `number_of_commands - 1` after it)
/// maps to its offset from the first command number, and back.
pub proof fn lemma_module_command_offset(m: Module, packet_id: u16)
    requires
        m.wf(),
    ensures
        m.spec_module_command(packet_id) matches Some(x) ==> x + m.number_command_first
            == packet_id && x < m.number_of_commands,
        (m.number_command_first <= packet_id < m.number_command_first + m.number_of_commands)
            ==> m.spec_module_command(packet_id) is Some,
{
}

} // verus!
