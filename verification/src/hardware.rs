//! What a hub remembers about its motors, and the decisions made from it: which direction
//! readings are flipped, which power commands are skipped, and what is sent.
use crate::base_lynx_command::{LynxCommand, LynxCommandView};
use crate::command::{Command, CommandView};
use crate::command_utils::Module;
use crate::lynx_commands::{
    DcMotorRunMode, DcMotorZeroPowerBehavior, LynxGetBulkDataResponseData,
    LynxSetMotorChannelModeCommandData, LynxSetMotorPowerCommandData, MotorData,
};
use crate::packet::{Packet, PacketView};
use vstd::prelude::*;

verus! {

/// The way a motor turns for a positive power.
#[derive(Copy, Clone, Debug, PartialEq, Eq, Structural)]
pub enum Direction {
    Forwards,
    Backwards,
}

/// The motor state of one hub, and the module it is.
#[derive(Debug)]
pub struct HubState {
    pub module: Module,
    pub last_motor_powers: [i16; 4],
    /// `true` stands for forwards.
    pub motor_directions: [bool; 4],
    pub motor_zero_power_behaviors: [DcMotorZeroPowerBehavior; 4],
    pub motor_modes: [DcMotorRunMode; 4],
}

/// The bulk reading with the position and velocity of each backwards motor negated.
pub open spec fn spec_flip(data: LynxGetBulkDataResponseData, directions: Seq<bool>) -> LynxGetBulkDataResponseData {
    LynxGetBulkDataResponseData {
        motors: spec_flip_motors(data.motors, directions),
        ..data
    }
}

/// A motor reading, negated when the motor runs backwards.
pub open spec fn flip_one(m: MotorData, forwards: bool) -> MotorData {
    if forwards {
        m
    } else {
        MotorData { position: (-m.position) as i32, velocity: (-m.velocity) as i16 }
    }
}

/// Each motor reading, negated where the motor runs backwards.
pub open spec fn spec_flip_motors(motors: [MotorData; 4], directions: Seq<bool>) -> [MotorData; 4] {
    [
        flip_one(motors[0], directions[0]),
        flip_one(motors[1], directions[1]),
        flip_one(motors[2], directions[2]),
        flip_one(motors[3], directions[3]),
    ]
}

/// The bulk reading in a packet from `addr`, if the packet holds one.
pub open spec fn bulk_reading(p: PacketView, addr: u8) -> Option<LynxGetBulkDataResponseData> {
    if p.src_module_addr != addr {
        None
    } else {
        match p.payload {
            CommandView::LynxCommand((_, LynxCommandView::LynxGetBulkDataResponse(d))) => Some(d),
            _ => None,
        }
    }
}

/// Negating the readings of the backwards motors does not overflow.
pub open spec fn flippable(data: LynxGetBulkDataResponseData, directions: Seq<bool>) -> bool {
    forall|i: int|
        0 <= i < 4 && !directions[i] ==> (#[trigger] data.motors[i]).position != i32::MIN
            && data.motors[i].velocity != i16::MIN
}

/// The distance between the last power sent and the new one, and its absolute value, fit an
/// `i16`.
pub open spec fn power_step_fits(last: i16, power: i16) -> bool {
    -0x7fff <= last - power <= 0x7fff
}

/// Whether `motor_power_command` can take `power` after `last`: their distance fits.
pub fn power_step_fits_i16(last: i16, power: i16) -> (r: bool)
    ensures
        r == power_step_fits(last, power),
{
    let d = last as i32 - power as i32;
    -0x7fff <= d && d <= 0x7fff
}

/// The direction a stored flag stands for: `true` is forwards.
pub open spec fn spec_direction(forwards: bool) -> Direction {
    if forwards {
        Direction::Forwards
    } else {
        Direction::Backwards
    }
}

/// The direction set for a motor is the direction read back for it; other motors keep theirs.
pub proof fn lemma_direction_roundtrip(dirs: Seq<bool>, motor: int, other: int, d: Direction)
    requires
        0 <= motor < dirs.len(),
        0 <= other < dirs.len(),
        other != motor,
    ensures
        spec_direction(dirs.update(motor, d == Direction::Forwards)[motor]) == d,
        spec_direction(dirs.update(motor, d == Direction::Forwards)[other]) == spec_direction(dirs[other]),
{
}

/// Whether a power command is skipped: caching is on and the power is within `threshold` of the
/// last power sent.
pub open spec fn spec_power_skipped(last: i16, power: i16, threshold: i16, caching: bool) -> bool {
    let diff = if last - power < 0 {
        power - last
    } else {
        last - power
    };
    diff <= threshold && caching
}

/// Sending the power last sent again is skipped while caching is on, for any threshold that is
/// not negative.
pub proof fn lemma_repeated_power_skipped(power: i16, threshold: i16)
    requires
        threshold >= 0,
    ensures
        spec_power_skipped(power, power, threshold, true),
{
}

/// Reading a hub's bulk data through its motor directions: every motor set backwards, whichever
/// of the four, comes back with position and velocity negated; every motor set forwards comes
/// back as read; the other fields are kept.
pub proof fn lemma_flip_negates_backwards_motors(data: LynxGetBulkDataResponseData, directions: Seq<bool>)
    requires
        directions.len() == 4,
        flippable(data, directions),
    ensures
        spec_flip(data, directions).digital_inputs == data.digital_inputs,
        spec_flip(data, directions).motor_status == data.motor_status,
        spec_flip(data, directions).analog == data.analog,
        forall|i: int|
            0 <= i < 4 ==> {
                let got = (#[trigger] spec_flip(data, directions).motors[i]);
                &&& !directions[i] ==> got.position == -data.motors[i].position && got.velocity
                    == -data.motors[i].velocity
                &&& directions[i] ==> got == data.motors[i]
            },
{
    assert forall|i: int| 0 <= i < 4 implies {
        let got = (#[trigger] spec_flip(data, directions).motors[i]);
        &&& !directions[i] ==> got.position == -data.motors[i].position && got.velocity
            == -data.motors[i].velocity
        &&& directions[i] ==> got == data.motors[i]
    } by {
        assert(0 <= i < 4 && !directions[i] ==> data.motors[i].position != i32::MIN
            && data.motors[i].velocity != i16::MIN);
        if i == 0 {
        } else if i == 1 {
        } else if i == 2 {
        } else {
        }
    }
}

/// With caching on, a power is skipped exactly when its distance from the last power sent, in
/// either direction, is at most the threshold; with caching off nothing is skipped. So a power
/// further than the threshold from the last one, above or below it, is always sent.
pub proof fn lemma_power_skipped_iff_close(last: i16, power: i16, threshold: i16, caching: bool)
    ensures
        spec_power_skipped(last, power, threshold, caching) <==> (caching && last - threshold <= power
            && power <= last + threshold),
{
}

impl HubState {
    /// The last power sent to each motor.
    pub open spec fn powers(&self) -> Seq<i16> {
        self.last_motor_powers@
    }

    /// For each motor, whether it runs forwards.
    pub open spec fn directions(&self) -> Seq<bool> {
        self.motor_directions@
    }

    /// The zero power behavior of each motor.
    pub open spec fn zero_power_behaviors(&self) -> Seq<DcMotorZeroPowerBehavior> {
        self.motor_zero_power_behaviors@
    }

    /// The run mode of each motor.
    pub open spec fn modes(&self) -> Seq<DcMotorRunMode> {
        self.motor_modes@
    }

    /// All powers zero, all motors forwards, braking, without encoder.
    pub fn new(module: Module) -> (r: HubState)
        ensures
            r.module == module,
            r.powers() == seq![0i16, 0i16, 0i16, 0i16],
            r.directions() == seq![true, true, true, true],
            r.zero_power_behaviors() == seq![
                DcMotorZeroPowerBehavior::Brake,
                DcMotorZeroPowerBehavior::Brake,
                DcMotorZeroPowerBehavior::Brake,
                DcMotorZeroPowerBehavior::Brake,
            ],
            r.modes() == seq![
                DcMotorRunMode::RunWithoutEncoder,
                DcMotorRunMode::RunWithoutEncoder,
                DcMotorRunMode::RunWithoutEncoder,
                DcMotorRunMode::RunWithoutEncoder,
            ],
    {
        let r = HubState {
            module,
            last_motor_powers: [0i16, 0i16, 0i16, 0i16],
            motor_directions: [true, true, true, true],
            motor_zero_power_behaviors: [
                DcMotorZeroPowerBehavior::Brake,
                DcMotorZeroPowerBehavior::Brake,
                DcMotorZeroPowerBehavior::Brake,
                DcMotorZeroPowerBehavior::Brake,
            ],
            motor_modes: [
                DcMotorRunMode::RunWithoutEncoder,
                DcMotorRunMode::RunWithoutEncoder,
                DcMotorRunMode::RunWithoutEncoder,
                DcMotorRunMode::RunWithoutEncoder,
            ],
        };
        assert(r.powers() =~= seq![0i16, 0i16, 0i16, 0i16]);
        assert(r.directions() =~= seq![true, true, true, true]);
        assert(r.zero_power_behaviors() =~= seq![
            DcMotorZeroPowerBehavior::Brake,
            DcMotorZeroPowerBehavior::Brake,
            DcMotorZeroPowerBehavior::Brake,
            DcMotorZeroPowerBehavior::Brake,
        ]);
        assert(r.modes() =~= seq![
            DcMotorRunMode::RunWithoutEncoder,
            DcMotorRunMode::RunWithoutEncoder,
            DcMotorRunMode::RunWithoutEncoder,
            DcMotorRunMode::RunWithoutEncoder,
        ]);
        r
    }

    /// The direction of `motor`.
    pub fn get_motor_direction(&self, motor: usize) -> (r: Direction)
        requires
            motor < 4,
        ensures
            r == spec_direction(self.directions()[motor as int]),
    {
        if self.motor_directions[motor] {
            Direction::Forwards
        } else {
            Direction::Backwards
        }
    }

    /// Sets the direction of `motor`.
    pub fn set_direction(&mut self, motor: u8, direction: Direction)
        requires
            motor < 4,
        ensures
            final(self).directions() == old(self).directions().update(
                motor as int,
                direction == Direction::Forwards,
            ),
            final(self).module == old(self).module,
            final(self).powers() == old(self).powers(),
            final(self).zero_power_behaviors() == old(self).zero_power_behaviors(),
            final(self).modes() == old(self).modes(),
    {
        let i = motor as usize;
        self.motor_directions.set(i, direction == Direction::Forwards);
    }

    /// Whether `should_consume` can take `data`: flipping its reading does not overflow.
    pub fn can_consume(&self, data: &Packet) -> (r: bool)
        ensures
            r == (bulk_reading(data@, self.module.module_addr) matches Some(d) ==> flippable(
                d,
                self.directions(),
            )),
    {
        if data.src_module_addr != self.module.module_addr {
            return true;
        }
        match &data.payload_data {
            Command::LynxCommand(it) => match &it.command {
                LynxCommand::LynxGetBulkDataResponse(d) => {
                    assert(bulk_reading(data@, self.module.module_addr) == Some(*d));
                    let mut i: usize = 0;
                    while i < 4
                        invariant
                            i <= 4,
                            self.directions().len() == 4,
                            bulk_reading(data@, self.module.module_addr) == Some(*d),
                            forall|j: int|
                                0 <= j < i && !self.directions()[j] ==> (#[trigger] d.motors[j]).position
                                    != i32::MIN && d.motors[j].velocity != i16::MIN,
                        decreases 4 - i,
                    {
                        if !self.motor_directions[i] && (d.motors[i].position == i32::MIN
                            || d.motors[i].velocity == i16::MIN) {
                            assert(!self.directions()[i as int] && !(d.motors[i as int].position
                                != i32::MIN && d.motors[i as int].velocity != i16::MIN));
                            assert(bulk_reading(data@, self.module.module_addr) == Some(*d));
                            return false;
                        }
                        i = i + 1;
                    }
                    assert(flippable(*d, self.directions()));
                    assert(bulk_reading(data@, self.module.module_addr) == Some(*d));
                    true
                },
                _ => true,
            },
            _ => true,
        }
    }

    /// The bulk reading of this hub in `data`, with backwards motors negated; `None` when the
    /// packet is from another module or holds no bulk reading.
    pub fn should_consume(&self, data: &Packet) -> (r: Option<LynxGetBulkDataResponseData>)
        requires
            bulk_reading(data@, self.module.module_addr) matches Some(d) ==> flippable(
                d,
                self.directions(),
            ),
        ensures
            r == (match bulk_reading(data@, self.module.module_addr) {
                Some(d) => Some(spec_flip(d, self.directions())),
                None => None,
            }),
    {
        if data.src_module_addr == self.module.module_addr {
            match &data.payload_data {
                Command::LynxCommand(it) => match &it.command {
                    LynxCommand::LynxGetBulkDataResponse(d) => {
                        let ghost orig = *d;
                        let mut it = *d;
                        let mut i: usize = 0;
                        while i < 4
                            invariant
                                i <= 4,
                                self.directions().len() == 4,
                                flippable(orig, self.directions()),
                                it.digital_inputs == orig.digital_inputs,
                                it.motor_status == orig.motor_status,
                                it.analog == orig.analog,
                                forall|j: int|
                                    0 <= j < i ==> #[trigger] it.motors[j] == flip_one(
                                        orig.motors[j],
                                        self.directions()[j],
                                    ),
                                forall|j: int| i <= j < 4 ==> #[trigger] it.motors[j] == orig.motors[j],
                            decreases 4 - i,
                        {
                            if self.get_motor_direction(i) == Direction::Backwards {
                                assert(orig.motors[i as int].position != i32::MIN
                                    && orig.motors[i as int].velocity != i16::MIN);
                                let m = it.motors[i];
                                it.motors.set(
                                    i,
                                    MotorData { position: -m.position, velocity: -m.velocity },
                                );
                            }
                            i = i + 1;
                        }
                        proof {
                            let f = spec_flip_motors(orig.motors, self.directions());
                            assert(f =~= it.motors);
                        }
                        Some(it)
                    },
                    _ => None,
                },
                _ => None,
            }
        } else {
            None
        }
    }

    /// The command that sets `motor` to `power`, or `None` when caching is on and the power is
    /// within `threshold` of the last power sent. The power sent is remembered.
    pub fn motor_power_command(&mut self, motor: u8, power: i16, threshold: i16, caching: bool) -> (r:
        Option<LynxCommand>)
        requires
            motor < 4,
            power_step_fits(old(self).powers()[motor as int], power),
        ensures
            ({
                if spec_power_skipped(old(self).powers()[motor as int], power, threshold, caching) {
                    &&& r is None
                    &&& final(self).powers() == old(self).powers()
                } else {
                    &&& r matches Some(c) && c@ == LynxCommandView::LynxSetMotorPowerCommand(
                        LynxSetMotorPowerCommandData { motor, power },
                    )
                    &&& final(self).powers() == old(self).powers().update(motor as int, power)
                }
            }),
            final(self).module == old(self).module,
            final(self).directions() == old(self).directions(),
            final(self).zero_power_behaviors() == old(self).zero_power_behaviors(),
            final(self).modes() == old(self).modes(),
    {
        let i = motor as usize;
        let last = self.last_motor_powers[i];
        let step = last - power;
        let diff = if step < 0 {
            -step
        } else {
            step
        };
        if diff <= threshold {
            if caching {
                return None;
            }
        }
        self.last_motor_powers.set(i, power);
        Some(LynxCommand::LynxSetMotorPowerCommand(LynxSetMotorPowerCommandData { motor, power }))
    }

    /// The zero power behavior of `motor`.
    pub fn get_zero_power_behavior(&self, motor: u8) -> (r: DcMotorZeroPowerBehavior)
        requires
            motor < 4,
        ensures
            r == self.zero_power_behaviors()[motor as int],
    {
        self.motor_zero_power_behaviors[motor as usize]
    }

    /// The run mode of `motor`.
    pub fn get_motor_mode(&self, motor: u8) -> (r: DcMotorRunMode)
        requires
            motor < 4,
        ensures
            r == self.modes()[motor as int],
    {
        self.motor_modes[motor as usize]
    }

    /// Records the zero power behavior of `motor`.
    pub fn set_zero_power_behavior_inner_(&mut self, motor: u8, zpb: DcMotorZeroPowerBehavior)
        requires
            motor < 4,
        ensures
            final(self).zero_power_behaviors() == old(self).zero_power_behaviors().update(motor as int, zpb),
            final(self).module == old(self).module,
            final(self).powers() == old(self).powers(),
            final(self).directions() == old(self).directions(),
            final(self).modes() == old(self).modes(),
    {
        self.motor_zero_power_behaviors.set(motor as usize, zpb);
    }

    /// Records the run mode of `motor`.
    pub fn set_motor_mode_inner_(&mut self, motor: u8, mm: DcMotorRunMode)
        requires
            motor < 4,
        ensures
            final(self).modes() == old(self).modes().update(motor as int, mm),
            final(self).module == old(self).module,
            final(self).powers() == old(self).powers(),
            final(self).directions() == old(self).directions(),
            final(self).zero_power_behaviors() == old(self).zero_power_behaviors(),
    {
        self.motor_modes.set(motor as usize, mm);
    }

    /// The command that sets both the run mode and the zero power behavior of `motor`; both are
    /// recorded.
    pub fn set_behavior(
        &mut self,
        motor: u8,
        run_mode: DcMotorRunMode,
        zero_power_behavior: DcMotorZeroPowerBehavior,
    ) -> (r: LynxCommand)
        requires
            motor < 4,
        ensures
            r@ == LynxCommandView::LynxSetMotorChannelModeCommand(
                LynxSetMotorChannelModeCommandData { motor, run_mode, zero_power_behavior },
            ),
            final(self).modes() == old(self).modes().update(motor as int, run_mode),
            final(self).zero_power_behaviors() == old(self).zero_power_behaviors().update(
                motor as int,
                zero_power_behavior,
            ),
            final(self).module == old(self).module,
            final(self).powers() == old(self).powers(),
            final(self).directions() == old(self).directions(),
    {
        let c = LynxCommand::LynxSetMotorChannelModeCommand(
            LynxSetMotorChannelModeCommandData { motor, run_mode, zero_power_behavior },
        );
        self.set_motor_mode_inner_(motor, run_mode);
        self.set_zero_power_behavior_inner_(motor, zero_power_behavior);
        c
    }

    /// Changes the zero power behavior of `motor`, keeping its run mode.
    pub fn set_zero_power_behavior(&mut self, motor: u8, zpb: DcMotorZeroPowerBehavior) -> (r:
        LynxCommand)
        requires
            motor < 4,
        ensures
            r@ == LynxCommandView::LynxSetMotorChannelModeCommand(
                LynxSetMotorChannelModeCommandData {
                    motor,
                    run_mode: old(self).modes()[motor as int],
                    zero_power_behavior: zpb,
                },
            ),
            final(self).modes() == old(self).modes(),
            final(self).zero_power_behaviors() == old(self).zero_power_behaviors().update(motor as int, zpb),
            final(self).module == old(self).module,
            final(self).powers() == old(self).powers(),
            final(self).directions() == old(self).directions(),
    {
        let mode = self.get_motor_mode(motor);
        let r = self.set_behavior(motor, mode, zpb);
        proof {
            assert(old(self).modes().update(motor as int, mode) =~= old(self).modes());
        }
        r
    }

    /// Changes the run mode of `motor`, keeping its zero power behavior.
    pub fn set_motor_mode(&mut self, motor: u8, mode: DcMotorRunMode) -> (r: LynxCommand)
        requires
            motor < 4,
        ensures
            r@ == LynxCommandView::LynxSetMotorChannelModeCommand(
                LynxSetMotorChannelModeCommandData {
                    motor,
                    run_mode: mode,
                    zero_power_behavior: old(self).zero_power_behaviors()[motor as int],
                },
            ),
            final(self).modes() == old(self).modes().update(motor as int, mode),
            final(self).zero_power_behaviors() == old(self).zero_power_behaviors(),
            final(self).module == old(self).module,
            final(self).powers() == old(self).powers(),
            final(self).directions() == old(self).directions(),
    {
        let zpb = self.get_zero_power_behavior(motor);
        let r = self.set_behavior(motor, mode, zpb);
        proof {
            assert(old(self).zero_power_behaviors().update(motor as int, zpb)
                =~= old(self).zero_power_behaviors());
        }
        r
    }

    /// Whether `lynx_packet` can build the packet for `command`: its packet id fits, its payload
    /// is encodable and its length fits.
    pub fn lynx_packet_ok(&self, command: &LynxCommand) -> (r: bool)
        ensures
            r == (CommandView::LynxCommand((self.module, command@)).id_fits() && CommandView::LynxCommand(
                (self.module, command@),
            ).encodable() && CommandView::LynxCommand((self.module, command@)).bytes().len() + 11
                <= usize::MAX),
    {
        let id = command.rel_packet_id() as u32 + self.module.number_command_first as u32;
        if id > 0xffff {
            return false;
        }
        match command {
            LynxCommand::LynxI2cWriteMultipleBytesCommand(c) => c.payload.len() <= 255,
            LynxCommand::LynxI2CReadStatusQueryResponse(c) => c.data.len() <= usize::MAX - 13,
            LynxCommand::LynxUnknownCommand(c) => c.data().len() <= usize::MAX - 11,
            _ => true,
        }
    }

    /// The packet that carries `command` to this hub, with zero message and reference numbers.
    pub fn lynx_packet(&self, command: LynxCommand) -> (r: Packet)
        requires
            CommandView::LynxCommand((self.module, command@)).id_fits(),
            CommandView::LynxCommand((self.module, command@)).encodable(),
            CommandView::LynxCommand((self.module, command@)).bytes().len() + 11 <= usize::MAX,
        ensures
            r@ == Packet::spec_new_full(
                CommandView::LynxCommand((self.module, command@)),
                self.module.module_addr,
                0,
                0,
                0,
            ),
    {
        let c = crate::base_lynx_command::LynxCommandData::new(self.module, command);
        Packet::new_full(c, self.module.module_addr, 0, 0, 0)
    }
}

/// The packet numbered `num` for sending: message and reference number `num`, checksum
/// recomputed.
pub fn number_packet(packet: Packet, num: u8) -> (r: Packet)
    requires
        packet@.writable(),
    ensures
        ({
            let moved = PacketView { reference_number: num, message_number: num, ..packet@ };
            r@ == moved.with_checksum(moved.spec_checksum())
        }),
{
    let mut packet = packet;
    packet.message_number = num;
    packet.reference_number = num;
    packet.checksum = packet.checksum();
    packet
}

/// Which known hub a packet from `id` belongs to: hub 1 when its address is `id`, otherwise
/// hub 0 (when hub 1 is known, hub 0 must be too); `None` when no hub is known.
pub fn hub_for_id(id: u8, hub_0: Option<Module>, hub_1: Option<Module>) -> (r: Option<usize>)
    requires
        hub_1 is Some ==> hub_0 is Some || hub_1.unwrap().module_addr == id,
    ensures
        r == (match hub_1 {
            Some(h) => if h.module_addr == id {
                Some(1usize)
            } else {
                Some(0usize)
            },
            None => if hub_0 is Some {
                Some(0usize)
            } else {
                None
            },
        }),
{
    match hub_1 {
        Some(h) => {
            if h.module_addr == id {
                Some(1)
            } else {
                Some(0)
            }
        },
        None => {
            if hub_0.is_some() {
                Some(0)
            } else {
                None
            }
        },
    }
}


/// Which hub a packet for `addr` goes to: hub 0 when its address is `addr`, else hub 1 when
/// there is one with that address; `None` for an unknown destination.
pub fn hub_by_addr(addr: u8, hub_0: Module, hub_1: Option<Module>) -> (r: Option<usize>)
    ensures
        r == if hub_0.module_addr == addr {
            Some(0usize)
        } else if hub_1 matches Some(h) && h.module_addr == addr {
            Some(1usize)
        } else {
            None
        },
{
    if hub_0.module_addr == addr {
        return Some(0);
    }
    match hub_1 {
        Some(h) => {
            if h.module_addr == addr {
                Some(1)
            } else {
                None
            }
        },
        None => None,
    }
}

/// Which hub the SDK reads from on connection `connection`: hub 1 when there is one with that
/// address, hub 0 otherwise.
pub fn hub_for_connection(connection: u8, hub_1: Option<Module>) -> (r: usize)
    ensures
        r == if hub_1 matches Some(h) && h.module_addr == connection {
            1usize
        } else {
            0usize
        },
{
    match hub_1 {
        Some(h) => {
            if h.module_addr == connection {
                1
            } else {
                0
            }
        },
        None => 0,
    }
}

/// The query that asks the module at `id` for the window of its "DEKA" interface.
pub fn discovery_request(id: u8) -> (r: Packet)
    ensures
        r@ == Packet::spec_new_full(
            CommandView::QueryInterface(seq![68u8, 69u8, 75u8, 65u8, 0u8]),
            id,
            0,
            0,
            0,
        ),
{
    let c = Command::QueryInterface(crate::commands::QueryInterfaceData::new_deka());
    proof {
        assert(c@.bytes() =~= seq![68u8, 69u8, 75u8, 65u8, 0u8]);
    }
    Packet::new(c, id, 0)
}

/// The interface window an answer to a discovery query carries, if it is one.
pub fn interface_response(packet: &Packet) -> (r: Option<crate::commands::QueryInterfaceResponseData>)
    ensures
        r == match packet@.payload {
            CommandView::QueryInterfaceResponse(d) => Some(d),
            _ => None,
        },
{
    match &packet.payload_data {
        Command::QueryInterfaceResponse(d) => Some(*d),
        _ => None,
    }
}

} // verus!
