//! Payloads of the commands of the hub's own command set.
//!
//! Packet ids here are relative to the first command number of the hub they are sent to.
use crate::command_data::CommandData;
use crate::wire::{
    append_bytes, copy_range, get_i16, get_i32, get_u16, le_i16, le_i32, le_u16,
    lemma_get_i16_shift, lemma_get_i32_shift, lemma_i16_roundtrip, lemma_i32_roundtrip,
    lemma_u16_roundtrip, push_i16, push_i32, push_u16,
    read_i16, read_i32, read_u16,
};
use vstd::prelude::*;

verus! {

/// A payload of no known kind, kept as raw bytes.
#[derive(Clone, Debug)]
pub struct LynxUnknownData {
    pack_id: u16,
    data: Vec<u8>,
}

impl View for LynxUnknownData {
    type V = (u16, Seq<u8>);

    closed spec fn view(&self) -> (u16, Seq<u8>) {
        (self.pack_id, self.data@)
    }
}

impl LynxUnknownData {
    /// A copy with the same value.
    pub fn duplicate(&self) -> (r: LynxUnknownData)
        ensures
            r@ == self@,
    {
        LynxUnknownData { pack_id: self.pack_id, data: copy_range(self.data.as_slice(), 0, self.data.len()) }
    }

    /// The module-relative packet id it arrived under.
    pub fn pack_id(&self) -> (r: u16)
        ensures
            r == self@.0,
    {
        self.pack_id
    }

    /// The raw payload bytes.
    pub fn data(&self) -> (r: &Vec<u8>)
        ensures
            r@ == self@.1,
    {
        &self.data
    }
}

impl CommandData for LynxUnknownData {
    open spec fn spec_packet_id(&self) -> u16 {
        self@.0
    }

    open spec fn spec_bytes(&self) -> Seq<u8> {
        self@.1
    }

    open spec fn id_fits(&self) -> bool {
        true
    }

    open spec fn encodable(&self) -> bool {
        true
    }

    open spec fn parse_ok(id: u16, data: Seq<u8>) -> bool {
        true
    }

    open spec fn spec_parse(id: u16, data: Seq<u8>) -> Option<(u16, Seq<u8>)> {
        Some((id, data))
    }

    fn to_packet_id(&self) -> (r: u16) {
        self.pack_id
    }

    fn from_bytes(id: u16, data: &[u8], dest_addr: u8) -> (r: Option<Self>) {
        Some(LynxUnknownData { pack_id: id, data: copy_range(data, 0, data.len()) })
    }

    fn get_bytes_len(&self) -> (r: usize) {
        self.data.len()
    }

    fn to_bytes(self) -> (r: Vec<u8>) {
        self.data
    }
}

/// Encoder position and velocity of one motor.
#[derive(Clone, Copy, Debug, PartialEq, Eq, Structural)]
pub struct MotorData {
    pub position: i32,
    /// Counts per second.
    pub velocity: i16,
}

impl MotorData {
    /// A motor reading.
    pub fn new(position: i32, velocity: i16) -> (r: MotorData)
        ensures
            r.position == position,
            r.velocity == velocity,
    {
        MotorData { position, velocity }
    }

    /// Pairs the i-th position with the i-th velocity.
    pub fn from_vec(positions: Vec<i32>, velocity: Vec<i16>) -> (r: Vec<MotorData>)
        requires
            velocity@.len() >= positions@.len(),
        ensures
            r@.len() == positions@.len(),
            forall|i: int|
                0 <= i < positions@.len() ==> #[trigger] r@[i].position == positions@[i]
                    && r@[i].velocity == velocity@[i],
    {
        let mut r: Vec<MotorData> = Vec::new();
        let mut i: usize = 0;
        while i < positions.len()
            invariant
                i <= positions@.len() <= velocity@.len(),
                r@.len() == i,
                forall|j: int|
                    0 <= j < i ==> #[trigger] r@[j].position == positions@[j] && r@[j].velocity
                        == velocity@[j],
            decreases positions@.len() - i,
        {
            r.push(MotorData::new(positions[i], velocity[i]));
            i = i + 1;
        }
        r
    }
}

/// The bulk sensor data of a hub.
#[derive(Clone, Copy, Debug)]
pub struct LynxGetBulkDataResponseData {
    pub digital_inputs: u8,
    pub motor_status: u8,
    pub motors: [MotorData; 4],
    pub analog: [i16; 4],
}

impl View for LynxGetBulkDataResponseData {
    type V = LynxGetBulkDataResponseData;

    open spec fn view(&self) -> LynxGetBulkDataResponseData {
        *self
    }
}

/// `n` consecutive little-endian `i32`s starting at `offset`.
pub open spec fn spec_i32s(data: Seq<u8>, offset: int, n: nat) -> Seq<i32> {
    Seq::new(n, |x: int| get_i32(data, offset + 4 * x))
}

/// `n` consecutive little-endian `i16`s starting at `offset`.
pub open spec fn spec_i16s(data: Seq<u8>, offset: int, n: nat) -> Seq<i16> {
    Seq::new(n, |x: int| get_i16(data, offset + 2 * x))
}

impl LynxGetBulkDataResponseData {
    /// All readings zero.
    pub fn default() -> (r: Self)
        ensures
            r.digital_inputs == 0,
            r.motor_status == 0,
            forall|i: int|
                0 <= i < 4 ==> #[trigger] r.motors@[i].position == 0 && r.motors@[i].velocity == 0,
            forall|i: int| 0 <= i < 4 ==> #[trigger] r.analog@[i] == 0,
    {
        LynxGetBulkDataResponseData {
            digital_inputs: 0,
            motor_status: 0,
            motors: [MotorData::new(0, 0); 4],
            analog: [0i16; 4],
        }
    }

    /// Reads `len` consecutive little-endian `i32`s starting at `offset`.
    fn read_i32s(data: &[u8], offset: usize, len: usize) -> (r: Vec<i32>)
        requires
            offset + 4 * len <= data@.len(),
        ensures
            r@ == spec_i32s(data@, offset as int, len as nat),
    {
        let n = data.len();
        let mut out: Vec<i32> = Vec::new();
        let mut x: usize = 0;
        while x < len
            invariant
                x <= len,
                n == data@.len(),
                offset + 4 * len <= data@.len(),
                out@ == spec_i32s(data@, offset as int, x as nat),
            decreases len - x,
        {
            out.push(read_i32(data, offset + 4 * x));
            x = x + 1;
        }
        out
    }

    /// Reads `len` consecutive little-endian `i16`s starting at `offset`.
    fn read_i16s(data: &[u8], offset: usize, len: usize) -> (r: Vec<i16>)
        requires
            offset + 2 * len <= data@.len(),
        ensures
            r@ == spec_i16s(data@, offset as int, len as nat),
    {
        let n = data.len();
        let mut out: Vec<i16> = Vec::new();
        let mut x: usize = 0;
        while x < len
            invariant
                x <= len,
                n == data@.len(),
                offset + 2 * len <= data@.len(),
                out@ == spec_i16s(data@, offset as int, x as nat),
            decreases len - x,
        {
            out.push(read_i16(data, offset + 2 * x));
            x = x + 1;
        }
        out
    }
}

impl CommandData for LynxGetBulkDataResponseData {
    open spec fn spec_packet_id(&self) -> u16 {
        0x8000u16
    }

    open spec fn spec_bytes(&self) -> Seq<u8> {
        seq![self.digital_inputs] + le_i32(self.motors@[0].position) + le_i32(
            self.motors@[1].position,
        ) + le_i32(self.motors@[2].position) + le_i32(self.motors@[3].position) + seq![
            self.motor_status,
        ] + le_i16(self.motors@[0].velocity) + le_i16(self.motors@[1].velocity) + le_i16(
            self.motors@[2].velocity,
        ) + le_i16(self.motors@[3].velocity) + le_i16(self.analog@[0]) + le_i16(self.analog@[1])
            + le_i16(self.analog@[2]) + le_i16(self.analog@[3])
    }

    open spec fn id_fits(&self) -> bool {
        true
    }

    open spec fn encodable(&self) -> bool {
        true
    }

    open spec fn parse_ok(id: u16, data: Seq<u8>) -> bool {
        id == 0x8000u16 ==> data.len() >= 34
    }

    open spec fn spec_parse(id: u16, data: Seq<u8>) -> Option<LynxGetBulkDataResponseData> {
        if id == 0x8000u16 {
            Some(
                LynxGetBulkDataResponseData {
                    digital_inputs: data[0],
                    motor_status: data[17],
                    motors: [
                        MotorData { position: get_i32(data, 1), velocity: get_i16(data, 18) },
                        MotorData { position: get_i32(data, 5), velocity: get_i16(data, 20) },
                        MotorData { position: get_i32(data, 9), velocity: get_i16(data, 22) },
                        MotorData { position: get_i32(data, 13), velocity: get_i16(data, 24) },
                    ],
                    analog: [
                        get_i16(data, 26),
                        get_i16(data, 28),
                        get_i16(data, 30),
                        get_i16(data, 32),
                    ],
                },
            )
        } else {
            None
        }
    }

    fn to_packet_id(&self) -> (r: u16) {
        0x8000u16
    }

    fn from_bytes(id: u16, data: &[u8], dest_addr: u8) -> (r: Option<Self>) {
        if id == 0x8000u16 {
            let digital_inputs = data[0];
            let positions = Self::read_i32s(data, 1, 4);
            let motor_status = data[17];
            let velocities = Self::read_i16s(data, 18, 4);
            let analogs = Self::read_i16s(data, 26, 4);
            let ghost ps = positions@;
            let ghost vs = velocities@;
            let motors = MotorData::from_vec(positions, velocities);
            let r = LynxGetBulkDataResponseData {
                digital_inputs,
                motor_status,
                motors: [motors[0], motors[1], motors[2], motors[3]],
                analog: [analogs[0], analogs[1], analogs[2], analogs[3]],
            };
            proof {
                assert(ps[0] == get_i32(data@, 1) && vs[0] == get_i16(data@, 18));
                assert(motors@[0].position == ps[0] && motors@[0].velocity == vs[0]);
                assert(motors@[0] == MotorData { position: get_i32(data@, 1), velocity: get_i16(data@, 18) });
                assert(ps[1] == get_i32(data@, 5) && vs[1] == get_i16(data@, 20));
                assert(motors@[1].position == ps[1] && motors@[1].velocity == vs[1]);
                assert(motors@[1] == MotorData { position: get_i32(data@, 5), velocity: get_i16(data@, 20) });
                assert(ps[2] == get_i32(data@, 9) && vs[2] == get_i16(data@, 22));
                assert(motors@[2].position == ps[2] && motors@[2].velocity == vs[2]);
                assert(motors@[2] == MotorData { position: get_i32(data@, 9), velocity: get_i16(data@, 22) });
                assert(ps[3] == get_i32(data@, 13) && vs[3] == get_i16(data@, 24));
                assert(motors@[3].position == ps[3] && motors@[3].velocity == vs[3]);
                assert(motors@[3] == MotorData { position: get_i32(data@, 13), velocity: get_i16(data@, 24) });
                assert(analogs@[0] == get_i16(data@, 26));
                assert(analogs@[1] == get_i16(data@, 28));
                assert(analogs@[2] == get_i16(data@, 30));
                assert(analogs@[3] == get_i16(data@, 32));
            }
            Some(r)
        } else {
            None
        }
    }

    fn get_bytes_len(&self) -> (r: usize) {
        34
    }

    fn to_bytes(self) -> (r: Vec<u8>) {
        let mut v: Vec<u8> = Vec::new();
        v.push(self.digital_inputs);
        push_i32(&mut v, self.motors[0].position);
        push_i32(&mut v, self.motors[1].position);
        push_i32(&mut v, self.motors[2].position);
        push_i32(&mut v, self.motors[3].position);
        v.push(self.motor_status);
        push_i16(&mut v, self.motors[0].velocity);
        push_i16(&mut v, self.motors[1].velocity);
        push_i16(&mut v, self.motors[2].velocity);
        push_i16(&mut v, self.motors[3].velocity);
        push_i16(&mut v, self.analog[0]);
        push_i16(&mut v, self.analog[1]);
        push_i16(&mut v, self.analog[2]);
        push_i16(&mut v, self.analog[3]);
        v
    }
}

impl LynxGetBulkDataResponseData {
    /// The payload of a bulk read answer is the digital inputs, the four encoder positions as little-endian 32-bit words, the motor status, the four velocities and the four analog inputs as little-endian 16-bit words.
    #[verifier::rlimit(60)]
    pub proof fn lemma_layout(x: Self, data: Seq<u8>)
        ensures
            x.spec_packet_id() == 0x8000u16,
            x.spec_bytes() == seq![x.digital_inputs, ((x.motors[0].position as u32) % 256) as u8, (((x.motors[0].position as u32) / 256) % 256) as u8, (((x.motors[0].position as u32) / 65536) % 256) as u8, ((x.motors[0].position as u32) / 16777216) as u8, ((x.motors[1].position as u32) % 256) as u8, (((x.motors[1].position as u32) / 256) % 256) as u8, (((x.motors[1].position as u32) / 65536) % 256) as u8, ((x.motors[1].position as u32) / 16777216) as u8, ((x.motors[2].position as u32) % 256) as u8, (((x.motors[2].position as u32) / 256) % 256) as u8, (((x.motors[2].position as u32) / 65536) % 256) as u8, ((x.motors[2].position as u32) / 16777216) as u8, ((x.motors[3].position as u32) % 256) as u8, (((x.motors[3].position as u32) / 256) % 256) as u8, (((x.motors[3].position as u32) / 65536) % 256) as u8, ((x.motors[3].position as u32) / 16777216) as u8, x.motor_status, ((x.motors[0].velocity as u16) % 256) as u8, ((x.motors[0].velocity as u16) / 256) as u8, ((x.motors[1].velocity as u16) % 256) as u8, ((x.motors[1].velocity as u16) / 256) as u8, ((x.motors[2].velocity as u16) % 256) as u8, ((x.motors[2].velocity as u16) / 256) as u8, ((x.motors[3].velocity as u16) % 256) as u8, ((x.motors[3].velocity as u16) / 256) as u8, ((x.analog[0] as u16) % 256) as u8, ((x.analog[0] as u16) / 256) as u8, ((x.analog[1] as u16) % 256) as u8, ((x.analog[1] as u16) / 256) as u8, ((x.analog[2] as u16) % 256) as u8, ((x.analog[2] as u16) / 256) as u8, ((x.analog[3] as u16) % 256) as u8, ((x.analog[3] as u16) / 256) as u8],
            data.len() >= 34 ==> Self::spec_parse(0x8000u16, data) == Some(LynxGetBulkDataResponseData { digital_inputs: data[0], motor_status: data[17], motors: [MotorData { position: ((data[1] + 256 * data[2] + 65536 * data[3] + 16777216 * data[4]) as u32) as i32, velocity: ((data[18] + 256 * data[19]) as u16) as i16 }, MotorData { position: ((data[5] + 256 * data[6] + 65536 * data[7] + 16777216 * data[8]) as u32) as i32, velocity: ((data[20] + 256 * data[21]) as u16) as i16 }, MotorData { position: ((data[9] + 256 * data[10] + 65536 * data[11] + 16777216 * data[12]) as u32) as i32, velocity: ((data[22] + 256 * data[23]) as u16) as i16 }, MotorData { position: ((data[13] + 256 * data[14] + 65536 * data[15] + 16777216 * data[16]) as u32) as i32, velocity: ((data[24] + 256 * data[25]) as u16) as i16 }], analog: [((data[26] + 256 * data[27]) as u16) as i16, ((data[28] + 256 * data[29]) as u16) as i16, ((data[30] + 256 * data[31]) as u16) as i16, ((data[32] + 256 * data[33]) as u16) as i16] }),
    {
        assert(x.motors@[0] == x.motors[0] && x.motors@[1] == x.motors[1] && x.motors@[2] == x.motors[2] && x.motors@[3] == x.motors[3]);
        assert(x.analog@[0] == x.analog[0] && x.analog@[1] == x.analog[1] && x.analog@[2] == x.analog[2] && x.analog@[3] == x.analog[3]);
    }

    /// Parsing the bytes of the bulk data under its packet id gives it back.
    #[verifier::rlimit(60)]
    pub proof fn lemma_roundtrip(x: LynxGetBulkDataResponseData)
        ensures
            Self::parse_ok(x.spec_packet_id(), x.spec_bytes()),
            Self::spec_parse(x.spec_packet_id(), x.spec_bytes()) == Some(x),
    {
        let s = x.spec_bytes();
        let d = seq![x.digital_inputs];
        let p = le_i32(x.motors@[0].position) + le_i32(x.motors@[1].position) + le_i32(x.motors@[2].position) + le_i32(x.motors@[3].position);
        let st = seq![x.motor_status];
        let v = le_i16(x.motors@[0].velocity) + le_i16(x.motors@[1].velocity) + le_i16(x.motors@[2].velocity) + le_i16(x.motors@[3].velocity);
        let a = le_i16(x.analog@[0]) + le_i16(x.analog@[1]) + le_i16(x.analog@[2]) + le_i16(x.analog@[3]);
        assert(get_i32(p, 0) == x.motors@[0].position) by {
            assert(p =~= (Seq::<u8>::empty()) + le_i32(x.motors@[0].position) + (le_i32(x.motors@[1].position) + le_i32(x.motors@[2].position) + le_i32(x.motors@[3].position)));
            lemma_i32_roundtrip(x.motors@[0].position, Seq::<u8>::empty(), le_i32(x.motors@[1].position) + le_i32(x.motors@[2].position) + le_i32(x.motors@[3].position));
        }
        assert(get_i32(p, 4) == x.motors@[1].position) by {
            assert(p =~= (le_i32(x.motors@[0].position)) + le_i32(x.motors@[1].position) + (le_i32(x.motors@[2].position) + le_i32(x.motors@[3].position)));
            lemma_i32_roundtrip(x.motors@[1].position, le_i32(x.motors@[0].position), le_i32(x.motors@[2].position) + le_i32(x.motors@[3].position));
        }
        assert(get_i32(p, 8) == x.motors@[2].position) by {
            assert(p =~= (le_i32(x.motors@[0].position) + le_i32(x.motors@[1].position)) + le_i32(x.motors@[2].position) + (le_i32(x.motors@[3].position)));
            lemma_i32_roundtrip(x.motors@[2].position, le_i32(x.motors@[0].position) + le_i32(x.motors@[1].position), le_i32(x.motors@[3].position));
        }
        assert(get_i32(p, 12) == x.motors@[3].position) by {
            assert(p =~= (le_i32(x.motors@[0].position) + le_i32(x.motors@[1].position) + le_i32(x.motors@[2].position)) + le_i32(x.motors@[3].position) + (Seq::<u8>::empty()));
            lemma_i32_roundtrip(x.motors@[3].position, le_i32(x.motors@[0].position) + le_i32(x.motors@[1].position) + le_i32(x.motors@[2].position), Seq::<u8>::empty());
        }
        assert(get_i16(v, 0) == x.motors@[0].velocity) by {
            assert(v =~= (Seq::<u8>::empty()) + le_i16(x.motors@[0].velocity) + (le_i16(x.motors@[1].velocity) + le_i16(x.motors@[2].velocity) + le_i16(x.motors@[3].velocity)));
            lemma_i16_roundtrip(x.motors@[0].velocity, Seq::<u8>::empty(), le_i16(x.motors@[1].velocity) + le_i16(x.motors@[2].velocity) + le_i16(x.motors@[3].velocity));
        }
        assert(get_i16(v, 2) == x.motors@[1].velocity) by {
            assert(v =~= (le_i16(x.motors@[0].velocity)) + le_i16(x.motors@[1].velocity) + (le_i16(x.motors@[2].velocity) + le_i16(x.motors@[3].velocity)));
            lemma_i16_roundtrip(x.motors@[1].velocity, le_i16(x.motors@[0].velocity), le_i16(x.motors@[2].velocity) + le_i16(x.motors@[3].velocity));
        }
        assert(get_i16(v, 4) == x.motors@[2].velocity) by {
            assert(v =~= (le_i16(x.motors@[0].velocity) + le_i16(x.motors@[1].velocity)) + le_i16(x.motors@[2].velocity) + (le_i16(x.motors@[3].velocity)));
            lemma_i16_roundtrip(x.motors@[2].velocity, le_i16(x.motors@[0].velocity) + le_i16(x.motors@[1].velocity), le_i16(x.motors@[3].velocity));
        }
        assert(get_i16(v, 6) == x.motors@[3].velocity) by {
            assert(v =~= (le_i16(x.motors@[0].velocity) + le_i16(x.motors@[1].velocity) + le_i16(x.motors@[2].velocity)) + le_i16(x.motors@[3].velocity) + (Seq::<u8>::empty()));
            lemma_i16_roundtrip(x.motors@[3].velocity, le_i16(x.motors@[0].velocity) + le_i16(x.motors@[1].velocity) + le_i16(x.motors@[2].velocity), Seq::<u8>::empty());
        }
        assert(get_i16(a, 0) == x.analog@[0]) by {
            assert(a =~= (Seq::<u8>::empty()) + le_i16(x.analog@[0]) + (le_i16(x.analog@[1]) + le_i16(x.analog@[2]) + le_i16(x.analog@[3])));
            lemma_i16_roundtrip(x.analog@[0], Seq::<u8>::empty(), le_i16(x.analog@[1]) + le_i16(x.analog@[2]) + le_i16(x.analog@[3]));
        }
        assert(get_i16(a, 2) == x.analog@[1]) by {
            assert(a =~= (le_i16(x.analog@[0])) + le_i16(x.analog@[1]) + (le_i16(x.analog@[2]) + le_i16(x.analog@[3])));
            lemma_i16_roundtrip(x.analog@[1], le_i16(x.analog@[0]), le_i16(x.analog@[2]) + le_i16(x.analog@[3]));
        }
        assert(get_i16(a, 4) == x.analog@[2]) by {
            assert(a =~= (le_i16(x.analog@[0]) + le_i16(x.analog@[1])) + le_i16(x.analog@[2]) + (le_i16(x.analog@[3])));
            lemma_i16_roundtrip(x.analog@[2], le_i16(x.analog@[0]) + le_i16(x.analog@[1]), le_i16(x.analog@[3]));
        }
        assert(get_i16(a, 6) == x.analog@[3]) by {
            assert(a =~= (le_i16(x.analog@[0]) + le_i16(x.analog@[1]) + le_i16(x.analog@[2])) + le_i16(x.analog@[3]) + (Seq::<u8>::empty()));
            lemma_i16_roundtrip(x.analog@[3], le_i16(x.analog@[0]) + le_i16(x.analog@[1]) + le_i16(x.analog@[2]), Seq::<u8>::empty());
        }
        assert(get_i32(s, 1) == x.motors@[0].position && get_i32(s, 5) == x.motors@[1].position && get_i32(s, 9) == x.motors@[2].position && get_i32(s, 13) == x.motors@[3].position) by {
            assert(s =~= d + p + (st + v + a));
            lemma_get_i32_shift(d, p, st + v + a, 0);
            lemma_get_i32_shift(d, p, st + v + a, 4);
            lemma_get_i32_shift(d, p, st + v + a, 8);
            lemma_get_i32_shift(d, p, st + v + a, 12);
        }
        assert(get_i16(s, 18) == x.motors@[0].velocity && get_i16(s, 20) == x.motors@[1].velocity && get_i16(s, 22) == x.motors@[2].velocity && get_i16(s, 24) == x.motors@[3].velocity) by {
            assert(s =~= (d + p + st) + v + a);
            lemma_get_i16_shift(d + p + st, v, a, 0);
            lemma_get_i16_shift(d + p + st, v, a, 2);
            lemma_get_i16_shift(d + p + st, v, a, 4);
            lemma_get_i16_shift(d + p + st, v, a, 6);
        }
        assert(get_i16(s, 26) == x.analog@[0] && get_i16(s, 28) == x.analog@[1] && get_i16(s, 30) == x.analog@[2] && get_i16(s, 32) == x.analog@[3]) by {
            assert(s =~= (d + p + st + v) + a + Seq::<u8>::empty());
            lemma_get_i16_shift(d + p + st + v, a, Seq::<u8>::empty(), 0);
            lemma_get_i16_shift(d + p + st + v, a, Seq::<u8>::empty(), 2);
            lemma_get_i16_shift(d + p + st + v, a, Seq::<u8>::empty(), 4);
            lemma_get_i16_shift(d + p + st + v, a, Seq::<u8>::empty(), 6);
        }
        assert(s[0] == x.digital_inputs && s[17] == x.motor_status) by {
            assert(s =~= d + p + st + v + a);
        }
        let y = Self::spec_parse(x.spec_packet_id(), s).unwrap();
        assert(y.motors@[0] == x.motors@[0]);
        assert(y.motors@[1] == x.motors@[1]);
        assert(y.motors@[2] == x.motors@[2]);
        assert(y.motors@[3] == x.motors@[3]);
        assert(y.analog@[0] == x.analog@[0]);
        assert(y.analog@[1] == x.analog@[1]);
        assert(y.analog@[2] == x.analog@[2]);
        assert(y.analog@[3] == x.analog@[3]);
        assert(y.motors@ =~= x.motors@);
        assert(y.analog@ =~= x.analog@);
        assert(y.motors == x.motors);
        assert(y.analog == x.analog);
    }
}

/// Writes a register address followed by data bytes to an I2C device.
#[derive(Clone, Debug)]
pub struct LynxI2cWriteMultipleBytesCommandData {
    pub i2c_bus: u8,
    pub i2c_addr_7bit: u8,
    pub payload: Vec<u8>,
}

impl View for LynxI2cWriteMultipleBytesCommandData {
    type V = (u8, u8, Seq<u8>);

    open spec fn view(&self) -> (u8, u8, Seq<u8>) {
        (self.i2c_bus, self.i2c_addr_7bit, self.payload@)
    }
}

impl CommandData for LynxI2cWriteMultipleBytesCommandData {
    open spec fn spec_packet_id(&self) -> u16 {
        38u16
    }

    open spec fn spec_bytes(&self) -> Seq<u8> {
        seq![self.i2c_bus, self.i2c_addr_7bit, (self.payload@.len() % 256) as u8] + self.payload@
    }

    open spec fn id_fits(&self) -> bool {
        true
    }

    open spec fn encodable(&self) -> bool {
        self.payload@.len() <= 255
    }

    open spec fn parse_ok(id: u16, data: Seq<u8>) -> bool {
        id == 38u16 ==> (data.len() >= 3 && data.len() >= 3 + data[2])
    }

    open spec fn spec_parse(id: u16, data: Seq<u8>) -> Option<(u8, u8, Seq<u8>)> {
        if id == 38u16 {
            Some((data[0], data[1], data.subrange(3, 3 + data[2])))
        } else {
            None
        }
    }

    fn to_packet_id(&self) -> (r: u16) {
        38u16
    }

    fn from_bytes(id: u16, data: &[u8], dest_addr: u8) -> (r: Option<Self>) {
        if id == 38u16 {
            let length = data[2] as usize;
            let payload = copy_range(data, 3, length + 3);
            Some(
                LynxI2cWriteMultipleBytesCommandData {
                    i2c_bus: data[0],
                    i2c_addr_7bit: data[1],
                    payload,
                },
            )
        } else {
            None
        }
    }

    fn get_bytes_len(&self) -> (r: usize) {
        3 + self.payload.len()
    }

    fn to_bytes(self) -> (r: Vec<u8>) {
        let mut init: Vec<u8> = Vec::new();
        init.push(self.i2c_bus);
        init.push(self.i2c_addr_7bit);
        init.push(self.payload.len() as u8);
        append_bytes(&mut init, self.payload.as_slice());
        init
    }
}

impl LynxI2cWriteMultipleBytesCommandData {
    /// The payload of a multi-byte I2C write is the bus, the 7-bit address, the number of bytes (modulo 256) and the bytes; parsing takes as many bytes as the count says.
    pub proof fn lemma_layout(x: Self, data: Seq<u8>)
        ensures
            x.spec_packet_id() == 38u16,
            x.spec_bytes() == seq![x@.0, x@.1, (x@.2.len() % 256) as u8] + x@.2,
            (data.len() >= 3 && data.len() >= 3 + data[2]) ==> Self::spec_parse(38u16, data) == Some((data[0], data[1], data.subrange(3, 3 + data[2]))),
    {
    }

    /// A copy with the same value.
    pub fn duplicate(&self) -> (r: LynxI2cWriteMultipleBytesCommandData)
        ensures
            r@ == self@,
    {
        LynxI2cWriteMultipleBytesCommandData {
            i2c_bus: self.i2c_bus,
            i2c_addr_7bit: self.i2c_addr_7bit,
            payload: copy_range(self.payload.as_slice(), 0, self.payload.len()),
        }
    }

    /// Parsing the bytes of a payload of at most 255 bytes gives it back.
    pub proof fn lemma_roundtrip(x: LynxI2cWriteMultipleBytesCommandData)
        requires
            x.encodable(),
        ensures
            Self::parse_ok(x.spec_packet_id(), x.spec_bytes()),
            Self::spec_parse(x.spec_packet_id(), x.spec_bytes()) == Some(x@),
    {
        let b = x.spec_bytes();
        assert(b.subrange(3, 3 + b[2]) =~= x.payload@);
    }
}

/// The result of an I2C read: a status and the bytes read.
#[derive(Clone, Debug)]
pub struct LynxI2CReadStatusQueryResponseData {
    pub i2c_status: u8,
    pub data: Vec<u8>,
}

impl View for LynxI2CReadStatusQueryResponseData {
    type V = (u8, Seq<u8>);

    open spec fn view(&self) -> (u8, Seq<u8>) {
        (self.i2c_status, self.data@)
    }
}

impl CommandData for LynxI2CReadStatusQueryResponseData {
    open spec fn spec_packet_id(&self) -> u16 {
        0x8029u16
    }

    open spec fn spec_bytes(&self) -> Seq<u8> {
        seq![self.i2c_status, (self.data@.len() % 256) as u8] + self.data@
    }

    open spec fn id_fits(&self) -> bool {
        true
    }

    open spec fn encodable(&self) -> bool {
        true
    }

    open spec fn parse_ok(id: u16, data: Seq<u8>) -> bool {
        id == 0x8029u16 ==> (data.len() >= 2 && data.len() >= 2 + data[1])
    }

    open spec fn spec_parse(id: u16, data: Seq<u8>) -> Option<(u8, Seq<u8>)> {
        if id == 0x8029u16 {
            Some((data[0], data.subrange(2, 2 + data[1])))
        } else {
            None
        }
    }

    fn to_packet_id(&self) -> (r: u16) {
        0x8029u16
    }

    fn from_bytes(id: u16, data: &[u8], dest_addr: u8) -> (r: Option<Self>) {
        if id == 0x8029u16 {
            let len = data[1] as usize;
            Some(
                LynxI2CReadStatusQueryResponseData {
                    i2c_status: data[0],
                    data: copy_range(data, 2, 2 + len),
                },
            )
        } else {
            None
        }
    }

    fn get_bytes_len(&self) -> (r: usize) {
        2 + self.data.len()
    }

    fn to_bytes(self) -> (r: Vec<u8>) {
        let mut t: Vec<u8> = Vec::new();
        t.push(self.i2c_status);
        let len = self.data.len();
        let b = len as u8;
        assert(b == (len % 256) as u8) by (bit_vector)
            requires
                b == len as u8,
        ;
        t.push(b);
        append_bytes(&mut t, self.data.as_slice());
        t
    }
}

impl LynxI2CReadStatusQueryResponseData {
    /// The payload of an I2C read answer is the status, the number of bytes read (modulo 256) and the bytes; parsing takes as many bytes as the count says.
    pub proof fn lemma_layout(x: Self, data: Seq<u8>)
        ensures
            x.spec_packet_id() == 0x8029u16,
            x.spec_bytes() == seq![x@.0, (x@.1.len() % 256) as u8] + x@.1,
            (data.len() >= 2 && data.len() >= 2 + data[1]) ==> Self::spec_parse(0x8029u16, data) == Some((data[0], data.subrange(2, 2 + data[1]))),
    {
    }

    /// A copy with the same value.
    pub fn duplicate(&self) -> (r: LynxI2CReadStatusQueryResponseData)
        ensures
            r@ == self@,
    {
        LynxI2CReadStatusQueryResponseData {
            i2c_status: self.i2c_status,
            data: copy_range(self.data.as_slice(), 0, self.data.len()),
        }
    }

    /// Parsing the bytes of a result of at most 255 data bytes gives it back.
    pub proof fn lemma_roundtrip(x: LynxI2CReadStatusQueryResponseData)
        requires
            x.data@.len() <= 255,
        ensures
            Self::parse_ok(x.spec_packet_id(), x.spec_bytes()),
            Self::spec_parse(x.spec_packet_id(), x.spec_bytes()) == Some(x@),
    {
        let b = x.spec_bytes();
        assert(b.subrange(2, 2 + b[1]) =~= x.data@);
    }
}

/// Sets the bus speed of an I2C channel.
#[derive(Clone, Copy, Debug, PartialEq, Eq, Structural)]
pub struct LynxI2CConfigureChannelCommandData {
    pub i2c_bus: u8,
    pub speed_code: I2CSpeedCode,
}

impl View for LynxI2CConfigureChannelCommandData {
    type V = LynxI2CConfigureChannelCommandData;

    open spec fn view(&self) -> LynxI2CConfigureChannelCommandData {
        *self
    }
}

/// The speed code a byte stands for; bytes that stand for none read as `UNKNOWN`.
pub open spec fn spec_speed_code(b: u8) -> I2CSpeedCode {
    match I2CSpeedCode::spec_from_u8(b) {
        Some(c) => c,
        None => I2CSpeedCode::UNKNOWN,
    }
}

impl CommandData for LynxI2CConfigureChannelCommandData {
    open spec fn spec_packet_id(&self) -> u16 {
        43u16
    }

    open spec fn spec_bytes(&self) -> Seq<u8> {
        seq![self.i2c_bus, self.speed_code.spec_value()]
    }

    open spec fn id_fits(&self) -> bool {
        true
    }

    open spec fn encodable(&self) -> bool {
        true
    }

    open spec fn parse_ok(id: u16, data: Seq<u8>) -> bool {
        id == 43u16 ==> data.len() >= 2
    }

    open spec fn spec_parse(id: u16, data: Seq<u8>) -> Option<LynxI2CConfigureChannelCommandData> {
        if id == 43u16 {
            Some(
                LynxI2CConfigureChannelCommandData {
                    i2c_bus: data[0],
                    speed_code: spec_speed_code(data[1]),
                },
            )
        } else {
            None
        }
    }

    fn to_packet_id(&self) -> (r: u16) {
        43u16
    }

    fn from_bytes(id: u16, data: &[u8], dest_addr: u8) -> (r: Option<Self>) {
        if id == 43u16 {
            let speed_code = if let Some(it) = I2CSpeedCode::try_from_u8(data[1]) {
                it
            } else {
                I2CSpeedCode::UNKNOWN
            };
            Some(LynxI2CConfigureChannelCommandData { i2c_bus: data[0], speed_code })
        } else {
            None
        }
    }

    fn get_bytes_len(&self) -> (r: usize) {
        2
    }

    fn to_bytes(self) -> (r: Vec<u8>) {
        let mut t: Vec<u8> = Vec::new();
        t.push(self.i2c_bus);
        t.push(self.speed_code.value());
        t
    }
}

impl LynxI2CConfigureChannelCommandData {
    /// The payload of an I2C channel configuration is the bus, then the speed code byte.
    pub proof fn lemma_layout(x: Self, data: Seq<u8>)
        ensures
            x.spec_packet_id() == 43u16,
            x.spec_bytes() == seq![x.i2c_bus, x.speed_code.spec_value()],
            data.len() >= 2 ==> Self::spec_parse(43u16, data) == Some(LynxI2CConfigureChannelCommandData { i2c_bus: data[0], speed_code: spec_speed_code(data[1]) }),
    {
    }

    /// Parsing the bytes of a payload under its packet id gives the payload back.
    pub proof fn lemma_roundtrip(x: LynxI2CConfigureChannelCommandData)
        ensures
            Self::parse_ok(x.spec_packet_id(), x.spec_bytes()),
            Self::spec_parse(x.spec_packet_id(), x.spec_bytes()) == Some(x),
    {
        I2CSpeedCode::lemma_value_roundtrip(x.speed_code);
    }
}

impl LynxSetMotorPIDFCommandData {
    /// Whether the coefficients are for velocity control.
    pub fn is_vel(&self) -> (r: bool)
        ensures
            r == (self.mode == DcMotorRunMode::RunUsingEncoder),
    {
        self.mode == DcMotorRunMode::RunUsingEncoder
    }

    /// Whether the coefficients are for position control.
    pub fn is_pos(&self) -> (r: bool)
        ensures
            r == (self.mode == DcMotorRunMode::RunToPosition),
    {
        self.mode == DcMotorRunMode::RunToPosition
    }
}

/// How an analog reading is reported.
#[allow(non_camel_case_types)]
#[derive(Clone, Copy, Debug, PartialEq, Eq, Structural)]
pub enum ADCCommandMode {
    ENGINEERING,
    RAW,
}

impl ADCCommandMode {
    /// The byte of each value on the wire, and reading a byte gives back the value it stands for
    /// (other bytes stand for none).
    pub proof fn lemma_values(b: u8)
        ensures
            ADCCommandMode::ENGINEERING.spec_value() == 0u8,
            ADCCommandMode::RAW.spec_value() == 1u8,
            Self::spec_from_u8(b) matches Some(v) ==> v.spec_value() == b,
            Self::spec_from_u8(b) is None ==> (b != 0u8 && b != 1u8),
    {
    }

    /// The byte that stands for this value on the wire.
    pub open spec fn spec_value(self) -> u8 {
        match self {
            ADCCommandMode::ENGINEERING => 0u8,
            ADCCommandMode::RAW => 1u8,
        }
    }

    /// The value a byte stands for, if any.
    pub open spec fn spec_from_u8(b: u8) -> Option<ADCCommandMode> {
        match b {
            0u8 => Some(ADCCommandMode::ENGINEERING),
            1u8 => Some(ADCCommandMode::RAW),
            _ => None,
        }
    }

    /// The byte that stands for this value on the wire.
    pub fn value(self) -> (r: u8)
        ensures
            r == self.spec_value(),
    {
        match self {
            ADCCommandMode::ENGINEERING => 0u8,
            ADCCommandMode::RAW => 1u8,
        }
    }

    /// The value a byte stands for, if any.
    pub fn try_from_u8(b: u8) -> (r: Option<ADCCommandMode>)
        ensures
            r == Self::spec_from_u8(b),
    {
        if false {
            None
        } else if b == 0u8 {
            Some(ADCCommandMode::ENGINEERING)
        } else if b == 1u8 {
            Some(ADCCommandMode::RAW)
        } else {
            None
        }
    }

    /// Reading back the byte of a value gives the value.
    pub proof fn lemma_value_roundtrip(x: ADCCommandMode)
        ensures
            Self::spec_from_u8(x.spec_value()) == Some(x),
    {
    }
}

/// The analog channels of a hub.
#[allow(non_camel_case_types)]
#[derive(Clone, Copy, Debug, PartialEq, Eq, Structural)]
pub enum ADCCommandChannel {
    USER0,
    USER1,
    USER2,
    USER3,
    GPIO_CURRENT,
    I2C_BUS_CURRENT,
    SERVO_CURRENT,
    BATTERY_CURRENT,
    MOTOR0_CURRENT,
    MOTOR1_CURRENT,
    MOTOR2_CURRENT,
    MOTOR3_CURRENT,
    FIVE_VOLT_MONITOR,
    BATTERY_MONITOR,
    CONTROLLER_TEMPERATURE,
}

impl ADCCommandChannel {
    /// The byte of each value on the wire, and reading a byte gives back the value it stands for
    /// (other bytes stand for none).
    pub proof fn lemma_values(b: u8)
        ensures
            ADCCommandChannel::USER0.spec_value() == 0u8,
            ADCCommandChannel::USER1.spec_value() == 1u8,
            ADCCommandChannel::USER2.spec_value() == 2u8,
            ADCCommandChannel::USER3.spec_value() == 3u8,
            ADCCommandChannel::GPIO_CURRENT.spec_value() == 4u8,
            ADCCommandChannel::I2C_BUS_CURRENT.spec_value() == 5u8,
            ADCCommandChannel::SERVO_CURRENT.spec_value() == 6u8,
            ADCCommandChannel::BATTERY_CURRENT.spec_value() == 7u8,
            ADCCommandChannel::MOTOR0_CURRENT.spec_value() == 8u8,
            ADCCommandChannel::MOTOR1_CURRENT.spec_value() == 9u8,
            ADCCommandChannel::MOTOR2_CURRENT.spec_value() == 10u8,
            ADCCommandChannel::MOTOR3_CURRENT.spec_value() == 11u8,
            ADCCommandChannel::FIVE_VOLT_MONITOR.spec_value() == 12u8,
            ADCCommandChannel::BATTERY_MONITOR.spec_value() == 13u8,
            ADCCommandChannel::CONTROLLER_TEMPERATURE.spec_value() == 14u8,
            Self::spec_from_u8(b) matches Some(v) ==> v.spec_value() == b,
            Self::spec_from_u8(b) is None ==> (b != 0u8 && b != 1u8 && b != 2u8 && b != 3u8 && b != 4u8 && b != 5u8 && b != 6u8 && b != 7u8 && b != 8u8 && b != 9u8 && b != 10u8 && b != 11u8 && b != 12u8 && b != 13u8 && b != 14u8),
    {
    }

    /// The byte that stands for this value on the wire.
    pub open spec fn spec_value(self) -> u8 {
        match self {
            ADCCommandChannel::USER0 => 0u8,
            ADCCommandChannel::USER1 => 1u8,
            ADCCommandChannel::USER2 => 2u8,
            ADCCommandChannel::USER3 => 3u8,
            ADCCommandChannel::GPIO_CURRENT => 4u8,
            ADCCommandChannel::I2C_BUS_CURRENT => 5u8,
            ADCCommandChannel::SERVO_CURRENT => 6u8,
            ADCCommandChannel::BATTERY_CURRENT => 7u8,
            ADCCommandChannel::MOTOR0_CURRENT => 8u8,
            ADCCommandChannel::MOTOR1_CURRENT => 9u8,
            ADCCommandChannel::MOTOR2_CURRENT => 10u8,
            ADCCommandChannel::MOTOR3_CURRENT => 11u8,
            ADCCommandChannel::FIVE_VOLT_MONITOR => 12u8,
            ADCCommandChannel::BATTERY_MONITOR => 13u8,
            ADCCommandChannel::CONTROLLER_TEMPERATURE => 14u8,
        }
    }

    /// The value a byte stands for, if any.
    pub open spec fn spec_from_u8(b: u8) -> Option<ADCCommandChannel> {
        match b {
            0u8 => Some(ADCCommandChannel::USER0),
            1u8 => Some(ADCCommandChannel::USER1),
            2u8 => Some(ADCCommandChannel::USER2),
            3u8 => Some(ADCCommandChannel::USER3),
            4u8 => Some(ADCCommandChannel::GPIO_CURRENT),
            5u8 => Some(ADCCommandChannel::I2C_BUS_CURRENT),
            6u8 => Some(ADCCommandChannel::SERVO_CURRENT),
            7u8 => Some(ADCCommandChannel::BATTERY_CURRENT),
            8u8 => Some(ADCCommandChannel::MOTOR0_CURRENT),
            9u8 => Some(ADCCommandChannel::MOTOR1_CURRENT),
            10u8 => Some(ADCCommandChannel::MOTOR2_CURRENT),
            11u8 => Some(ADCCommandChannel::MOTOR3_CURRENT),
            12u8 => Some(ADCCommandChannel::FIVE_VOLT_MONITOR),
            13u8 => Some(ADCCommandChannel::BATTERY_MONITOR),
            14u8 => Some(ADCCommandChannel::CONTROLLER_TEMPERATURE),
            _ => None,
        }
    }

    /// The byte that stands for this value on the wire.
    pub fn value(self) -> (r: u8)
        ensures
            r == self.spec_value(),
    {
        match self {
            ADCCommandChannel::USER0 => 0u8,
            ADCCommandChannel::USER1 => 1u8,
            ADCCommandChannel::USER2 => 2u8,
            ADCCommandChannel::USER3 => 3u8,
            ADCCommandChannel::GPIO_CURRENT => 4u8,
            ADCCommandChannel::I2C_BUS_CURRENT => 5u8,
            ADCCommandChannel::SERVO_CURRENT => 6u8,
            ADCCommandChannel::BATTERY_CURRENT => 7u8,
            ADCCommandChannel::MOTOR0_CURRENT => 8u8,
            ADCCommandChannel::MOTOR1_CURRENT => 9u8,
            ADCCommandChannel::MOTOR2_CURRENT => 10u8,
            ADCCommandChannel::MOTOR3_CURRENT => 11u8,
            ADCCommandChannel::FIVE_VOLT_MONITOR => 12u8,
            ADCCommandChannel::BATTERY_MONITOR => 13u8,
            ADCCommandChannel::CONTROLLER_TEMPERATURE => 14u8,
        }
    }

    /// The value a byte stands for, if any.
    pub fn try_from_u8(b: u8) -> (r: Option<ADCCommandChannel>)
        ensures
            r == Self::spec_from_u8(b),
    {
        if false {
            None
        } else if b == 0u8 {
            Some(ADCCommandChannel::USER0)
        } else if b == 1u8 {
            Some(ADCCommandChannel::USER1)
        } else if b == 2u8 {
            Some(ADCCommandChannel::USER2)
        } else if b == 3u8 {
            Some(ADCCommandChannel::USER3)
        } else if b == 4u8 {
            Some(ADCCommandChannel::GPIO_CURRENT)
        } else if b == 5u8 {
            Some(ADCCommandChannel::I2C_BUS_CURRENT)
        } else if b == 6u8 {
            Some(ADCCommandChannel::SERVO_CURRENT)
        } else if b == 7u8 {
            Some(ADCCommandChannel::BATTERY_CURRENT)
        } else if b == 8u8 {
            Some(ADCCommandChannel::MOTOR0_CURRENT)
        } else if b == 9u8 {
            Some(ADCCommandChannel::MOTOR1_CURRENT)
        } else if b == 10u8 {
            Some(ADCCommandChannel::MOTOR2_CURRENT)
        } else if b == 11u8 {
            Some(ADCCommandChannel::MOTOR3_CURRENT)
        } else if b == 12u8 {
            Some(ADCCommandChannel::FIVE_VOLT_MONITOR)
        } else if b == 13u8 {
            Some(ADCCommandChannel::BATTERY_MONITOR)
        } else if b == 14u8 {
            Some(ADCCommandChannel::CONTROLLER_TEMPERATURE)
        } else {
            None
        }
    }

    /// Reading back the byte of a value gives the value.
    pub proof fn lemma_value_roundtrip(x: ADCCommandChannel)
        ensures
            Self::spec_from_u8(x.spec_value()) == Some(x),
    {
    }
}

/// How a motor channel is driven.
#[allow(non_camel_case_types)]
#[derive(Clone, Copy, Debug, PartialEq, Eq, Structural)]
pub enum DcMotorRunMode {
    RunWithoutEncoder,
    RunUsingEncoder,
    RunToPosition,
}

impl DcMotorRunMode {
    /// The byte of each value on the wire, and reading a byte gives back the value it stands for
    /// (other bytes stand for none).
    pub proof fn lemma_values(b: u8)
        ensures
            DcMotorRunMode::RunWithoutEncoder.spec_value() == 0u8,
            DcMotorRunMode::RunUsingEncoder.spec_value() == 1u8,
            DcMotorRunMode::RunToPosition.spec_value() == 2u8,
            Self::spec_from_u8(b) matches Some(v) ==> v.spec_value() == b,
            Self::spec_from_u8(b) is None ==> (b != 0u8 && b != 1u8 && b != 2u8),
    {
    }

    /// The byte that stands for this value on the wire.
    pub open spec fn spec_value(self) -> u8 {
        match self {
            DcMotorRunMode::RunWithoutEncoder => 0u8,
            DcMotorRunMode::RunUsingEncoder => 1u8,
            DcMotorRunMode::RunToPosition => 2u8,
        }
    }

    /// The value a byte stands for, if any.
    pub open spec fn spec_from_u8(b: u8) -> Option<DcMotorRunMode> {
        match b {
            0u8 => Some(DcMotorRunMode::RunWithoutEncoder),
            1u8 => Some(DcMotorRunMode::RunUsingEncoder),
            2u8 => Some(DcMotorRunMode::RunToPosition),
            _ => None,
        }
    }

    /// The byte that stands for this value on the wire.
    pub fn value(self) -> (r: u8)
        ensures
            r == self.spec_value(),
    {
        match self {
            DcMotorRunMode::RunWithoutEncoder => 0u8,
            DcMotorRunMode::RunUsingEncoder => 1u8,
            DcMotorRunMode::RunToPosition => 2u8,
        }
    }

    /// The value a byte stands for, if any.
    pub fn try_from_u8(b: u8) -> (r: Option<DcMotorRunMode>)
        ensures
            r == Self::spec_from_u8(b),
    {
        if false {
            None
        } else if b == 0u8 {
            Some(DcMotorRunMode::RunWithoutEncoder)
        } else if b == 1u8 {
            Some(DcMotorRunMode::RunUsingEncoder)
        } else if b == 2u8 {
            Some(DcMotorRunMode::RunToPosition)
        } else {
            None
        }
    }

    /// Reading back the byte of a value gives the value.
    pub proof fn lemma_value_roundtrip(x: DcMotorRunMode)
        ensures
            Self::spec_from_u8(x.spec_value()) == Some(x),
    {
    }
}

/// What a motor does at zero power.
#[allow(non_camel_case_types)]
#[derive(Clone, Copy, Debug, PartialEq, Eq, Structural)]
pub enum DcMotorZeroPowerBehavior {
    Brake,
    Float,
}

impl DcMotorZeroPowerBehavior {
    /// The byte of each value on the wire, and reading a byte gives back the value it stands for
    /// (other bytes stand for none).
    pub proof fn lemma_values(b: u8)
        ensures
            DcMotorZeroPowerBehavior::Brake.spec_value() == 0u8,
            DcMotorZeroPowerBehavior::Float.spec_value() == 1u8,
            Self::spec_from_u8(b) matches Some(v) ==> v.spec_value() == b,
            Self::spec_from_u8(b) is None ==> (b != 0u8 && b != 1u8),
    {
    }

    /// The byte that stands for this value on the wire.
    pub open spec fn spec_value(self) -> u8 {
        match self {
            DcMotorZeroPowerBehavior::Brake => 0u8,
            DcMotorZeroPowerBehavior::Float => 1u8,
        }
    }

    /// The value a byte stands for, if any.
    pub open spec fn spec_from_u8(b: u8) -> Option<DcMotorZeroPowerBehavior> {
        match b {
            0u8 => Some(DcMotorZeroPowerBehavior::Brake),
            1u8 => Some(DcMotorZeroPowerBehavior::Float),
            _ => None,
        }
    }

    /// The byte that stands for this value on the wire.
    pub fn value(self) -> (r: u8)
        ensures
            r == self.spec_value(),
    {
        match self {
            DcMotorZeroPowerBehavior::Brake => 0u8,
            DcMotorZeroPowerBehavior::Float => 1u8,
        }
    }

    /// The value a byte stands for, if any.
    pub fn try_from_u8(b: u8) -> (r: Option<DcMotorZeroPowerBehavior>)
        ensures
            r == Self::spec_from_u8(b),
    {
        if false {
            None
        } else if b == 0u8 {
            Some(DcMotorZeroPowerBehavior::Brake)
        } else if b == 1u8 {
            Some(DcMotorZeroPowerBehavior::Float)
        } else {
            None
        }
    }

    /// Reading back the byte of a value gives the value.
    pub proof fn lemma_value_roundtrip(x: DcMotorZeroPowerBehavior)
        ensures
            Self::spec_from_u8(x.spec_value()) == Some(x),
    {
    }
}

/// The bus speed of an I2C channel.
#[allow(non_camel_case_types)]
#[derive(Clone, Copy, Debug, PartialEq, Eq, Structural)]
pub enum I2CSpeedCode {
    UNKNOWN,
    Stand100k,
    Fast400K,
    Fastplus1M,
    High3_4M,
}

impl I2CSpeedCode {
    /// The byte of each value on the wire, and reading a byte gives back the value it stands for
    /// (other bytes stand for none).
    pub proof fn lemma_values(b: u8)
        ensures
            I2CSpeedCode::UNKNOWN.spec_value() == 255u8,
            I2CSpeedCode::Stand100k.spec_value() == 0u8,
            I2CSpeedCode::Fast400K.spec_value() == 1u8,
            I2CSpeedCode::Fastplus1M.spec_value() == 2u8,
            I2CSpeedCode::High3_4M.spec_value() == 3u8,
            Self::spec_from_u8(b) matches Some(v) ==> v.spec_value() == b,
            Self::spec_from_u8(b) is None ==> (b != 255u8 && b != 0u8 && b != 1u8 && b != 2u8 && b != 3u8),
    {
    }

    /// The byte that stands for this value on the wire.
    pub open spec fn spec_value(self) -> u8 {
        match self {
            I2CSpeedCode::UNKNOWN => 255u8,
            I2CSpeedCode::Stand100k => 0u8,
            I2CSpeedCode::Fast400K => 1u8,
            I2CSpeedCode::Fastplus1M => 2u8,
            I2CSpeedCode::High3_4M => 3u8,
        }
    }

    /// The value a byte stands for, if any.
    pub open spec fn spec_from_u8(b: u8) -> Option<I2CSpeedCode> {
        match b {
            255u8 => Some(I2CSpeedCode::UNKNOWN),
            0u8 => Some(I2CSpeedCode::Stand100k),
            1u8 => Some(I2CSpeedCode::Fast400K),
            2u8 => Some(I2CSpeedCode::Fastplus1M),
            3u8 => Some(I2CSpeedCode::High3_4M),
            _ => None,
        }
    }

    /// The byte that stands for this value on the wire.
    pub fn value(self) -> (r: u8)
        ensures
            r == self.spec_value(),
    {
        match self {
            I2CSpeedCode::UNKNOWN => 255u8,
            I2CSpeedCode::Stand100k => 0u8,
            I2CSpeedCode::Fast400K => 1u8,
            I2CSpeedCode::Fastplus1M => 2u8,
            I2CSpeedCode::High3_4M => 3u8,
        }
    }

    /// The value a byte stands for, if any.
    pub fn try_from_u8(b: u8) -> (r: Option<I2CSpeedCode>)
        ensures
            r == Self::spec_from_u8(b),
    {
        if false {
            None
        } else if b == 255u8 {
            Some(I2CSpeedCode::UNKNOWN)
        } else if b == 0u8 {
            Some(I2CSpeedCode::Stand100k)
        } else if b == 1u8 {
            Some(I2CSpeedCode::Fast400K)
        } else if b == 2u8 {
            Some(I2CSpeedCode::Fastplus1M)
        } else if b == 3u8 {
            Some(I2CSpeedCode::High3_4M)
        } else {
            None
        }
    }

    /// Reading back the byte of a value gives the value.
    pub proof fn lemma_value_roundtrip(x: I2CSpeedCode)
        ensures
            Self::spec_from_u8(x.spec_value()) == Some(x),
    {
    }
}

/// Asks for one analog reading.
#[derive(Clone, Copy, Debug, PartialEq, Eq, Structural)]
pub struct LynxGetADCCommandData {
    pub channel: ADCCommandChannel,
    pub mode: ADCCommandMode,
}

impl View for LynxGetADCCommandData {
    type V = LynxGetADCCommandData;

    open spec fn view(&self) -> LynxGetADCCommandData {
        *self
    }
}

impl CommandData for LynxGetADCCommandData {
    open spec fn spec_packet_id(&self) -> u16 {
        7u16
    }

    open spec fn spec_bytes(&self) -> Seq<u8> {
        seq![self.channel.spec_value()] + seq![self.mode.spec_value()]
    }

    open spec fn id_fits(&self) -> bool {
        true
    }

    open spec fn encodable(&self) -> bool {
        true
    }

    open spec fn parse_ok(id: u16, data: Seq<u8>) -> bool {
        id == 7u16 ==> (data.len() >= 2 && ADCCommandChannel::spec_from_u8(data[0]) is Some && ADCCommandMode::spec_from_u8(data[1]) is Some)
    }

    open spec fn spec_parse(id: u16, data: Seq<u8>) -> Option<LynxGetADCCommandData> {
        if id == 7u16 {
            Some(LynxGetADCCommandData { channel: ADCCommandChannel::spec_from_u8(data[0]).unwrap(), mode: ADCCommandMode::spec_from_u8(data[1]).unwrap() })
        } else {
            None
        }
    }

    fn to_packet_id(&self) -> (r: u16) {
        7u16
    }

    fn from_bytes(id: u16, data: &[u8], dest_addr: u8) -> (r: Option<Self>) {
        if id == 7u16 {
            Some(LynxGetADCCommandData { channel: ADCCommandChannel::try_from_u8(data[0]).unwrap(), mode: ADCCommandMode::try_from_u8(data[1]).unwrap() })
        } else {
            None
        }
    }

    fn get_bytes_len(&self) -> (r: usize) {
        2
    }

    fn to_bytes(self) -> (r: Vec<u8>) {
        let mut v: Vec<u8> = Vec::new();
        v.push(self.channel.value());
        v.push(self.mode.value());
        v
    }
}

impl LynxGetADCCommandData {
    /// The payload of an analog read command is the channel byte, then the mode byte.
    pub proof fn lemma_layout(x: Self, data: Seq<u8>)
        ensures
            x.spec_packet_id() == 7u16,
            x.spec_bytes() == seq![x.channel.spec_value(), x.mode.spec_value()],
            data.len() >= 2 && ADCCommandChannel::spec_from_u8(data[0]) is Some && ADCCommandMode::spec_from_u8(data[1]) is Some ==> Self::spec_parse(7u16, data) == Some(LynxGetADCCommandData { channel: ADCCommandChannel::spec_from_u8(data[0]).unwrap(), mode: ADCCommandMode::spec_from_u8(data[1]).unwrap() }),
    {
    }

    /// Parsing the bytes of a payload under its packet id gives the payload back.
    pub proof fn lemma_roundtrip(x: LynxGetADCCommandData)
        ensures
            Self::parse_ok(x.spec_packet_id(), x.spec_bytes()),
            Self::spec_parse(x.spec_packet_id(), x.spec_bytes()) == Some(x),
    {
        ADCCommandChannel::lemma_value_roundtrip(x.channel);
        ADCCommandMode::lemma_value_roundtrip(x.mode);
    }
}

/// One analog reading.
#[derive(Clone, Copy, Debug, PartialEq, Eq, Structural)]
pub struct LynxGetADCResponseData {
    pub value: i16,
}

impl View for LynxGetADCResponseData {
    type V = LynxGetADCResponseData;

    open spec fn view(&self) -> LynxGetADCResponseData {
        *self
    }
}

impl CommandData for LynxGetADCResponseData {
    open spec fn spec_packet_id(&self) -> u16 {
        0x8007u16
    }

    open spec fn spec_bytes(&self) -> Seq<u8> {
        le_i16(self.value)
    }

    open spec fn id_fits(&self) -> bool {
        true
    }

    open spec fn encodable(&self) -> bool {
        true
    }

    open spec fn parse_ok(id: u16, data: Seq<u8>) -> bool {
        id == 0x8007u16 ==> (data.len() >= 2)
    }

    open spec fn spec_parse(id: u16, data: Seq<u8>) -> Option<LynxGetADCResponseData> {
        if id == 0x8007u16 {
            Some(LynxGetADCResponseData { value: get_i16(data, 0) })
        } else {
            None
        }
    }

    fn to_packet_id(&self) -> (r: u16) {
        0x8007u16
    }

    fn from_bytes(id: u16, data: &[u8], dest_addr: u8) -> (r: Option<Self>) {
        if id == 0x8007u16 {
            Some(LynxGetADCResponseData { value: read_i16(data, 0) })
        } else {
            None
        }
    }

    fn get_bytes_len(&self) -> (r: usize) {
        2
    }

    fn to_bytes(self) -> (r: Vec<u8>) {
        let mut v: Vec<u8> = Vec::new();
        push_i16(&mut v, self.value);
        v
    }
}

impl LynxGetADCResponseData {
    /// The payload of an analog reading is its value as two little-endian bytes.
    pub proof fn lemma_layout(x: Self, data: Seq<u8>)
        ensures
            x.spec_packet_id() == 0x8007u16,
            x.spec_bytes() == seq![((x.value as u16) % 256) as u8, ((x.value as u16) / 256) as u8],
            data.len() >= 2 ==> Self::spec_parse(0x8007u16, data) == Some(LynxGetADCResponseData { value: ((data[0] + 256 * data[1]) as u16) as i16 }),
    {
    }

    /// Parsing the bytes of a payload under its packet id gives the payload back.
    pub proof fn lemma_roundtrip(x: LynxGetADCResponseData)
        ensures
            Self::parse_ok(x.spec_packet_id(), x.spec_bytes()),
            Self::spec_parse(x.spec_packet_id(), x.spec_bytes()) == Some(x),
    {
        assert(x.spec_bytes() =~= (Seq::<u8>::empty()) + le_i16(x.value) + (Seq::<u8>::empty()));
        lemma_i16_roundtrip(x.value, Seq::<u8>::empty(), Seq::<u8>::empty());
    }
}

/// Asks for the bulk sensor data of a hub.
#[derive(Clone, Copy, Debug, PartialEq, Eq, Structural)]
pub struct LynxGetBulkDataCommandData {
}

impl View for LynxGetBulkDataCommandData {
    type V = LynxGetBulkDataCommandData;

    open spec fn view(&self) -> LynxGetBulkDataCommandData {
        *self
    }
}

impl CommandData for LynxGetBulkDataCommandData {
    open spec fn spec_packet_id(&self) -> u16 {
        0u16
    }

    open spec fn spec_bytes(&self) -> Seq<u8> {
        Seq::empty()
    }

    open spec fn id_fits(&self) -> bool {
        true
    }

    open spec fn encodable(&self) -> bool {
        true
    }

    open spec fn parse_ok(id: u16, data: Seq<u8>) -> bool {
        id == 0u16 ==> (true)
    }

    open spec fn spec_parse(id: u16, data: Seq<u8>) -> Option<LynxGetBulkDataCommandData> {
        if id == 0u16 {
            Some(LynxGetBulkDataCommandData {  })
        } else {
            None
        }
    }

    fn to_packet_id(&self) -> (r: u16) {
        0u16
    }

    fn from_bytes(id: u16, data: &[u8], dest_addr: u8) -> (r: Option<Self>) {
        if id == 0u16 {
            Some(LynxGetBulkDataCommandData {  })
        } else {
            None
        }
    }

    fn get_bytes_len(&self) -> (r: usize) {
        0
    }

    fn to_bytes(self) -> (r: Vec<u8>) {
        let mut v: Vec<u8> = Vec::new();
        
        v
    }
}

impl LynxGetBulkDataCommandData {
    /// A bulk read request is id 0 with no payload bytes.
    pub proof fn lemma_layout(x: Self, data: Seq<u8>)
        ensures
            x.spec_packet_id() == 0u16,
            x.spec_bytes() == Seq::<u8>::empty(),
            Self::spec_parse(0u16, data) is Some,
    {
    }

    /// Parsing the bytes of a payload under its packet id gives the payload back.
    pub proof fn lemma_roundtrip(x: LynxGetBulkDataCommandData)
        ensures
            Self::parse_ok(x.spec_packet_id(), x.spec_bytes()),
            Self::spec_parse(x.spec_packet_id(), x.spec_bytes()) == Some(x),
    {

    }
}

/// Sets the power of a motor.
#[derive(Clone, Copy, Debug, PartialEq, Eq, Structural)]
pub struct LynxSetMotorPowerCommandData {
    pub motor: u8,
    pub power: i16,
}

impl View for LynxSetMotorPowerCommandData {
    type V = LynxSetMotorPowerCommandData;

    open spec fn view(&self) -> LynxSetMotorPowerCommandData {
        *self
    }
}

impl CommandData for LynxSetMotorPowerCommandData {
    open spec fn spec_packet_id(&self) -> u16 {
        15u16
    }

    open spec fn spec_bytes(&self) -> Seq<u8> {
        seq![self.motor] + le_i16(self.power)
    }

    open spec fn id_fits(&self) -> bool {
        true
    }

    open spec fn encodable(&self) -> bool {
        true
    }

    open spec fn parse_ok(id: u16, data: Seq<u8>) -> bool {
        id == 15u16 ==> (data.len() >= 3)
    }

    open spec fn spec_parse(id: u16, data: Seq<u8>) -> Option<LynxSetMotorPowerCommandData> {
        if id == 15u16 {
            Some(LynxSetMotorPowerCommandData { motor: data[0], power: get_i16(data, 1) })
        } else {
            None
        }
    }

    fn to_packet_id(&self) -> (r: u16) {
        15u16
    }

    fn from_bytes(id: u16, data: &[u8], dest_addr: u8) -> (r: Option<Self>) {
        if id == 15u16 {
            Some(LynxSetMotorPowerCommandData { motor: data[0], power: read_i16(data, 1) })
        } else {
            None
        }
    }

    fn get_bytes_len(&self) -> (r: usize) {
        3
    }

    fn to_bytes(self) -> (r: Vec<u8>) {
        let mut v: Vec<u8> = Vec::new();
        v.push(self.motor);
        push_i16(&mut v, self.power);
        v
    }
}

impl LynxSetMotorPowerCommandData {
    /// The payload of a motor power command is the motor, then the power as two little-endian bytes; parsing reads them from those offsets.
    pub proof fn lemma_layout(x: Self, data: Seq<u8>)
        ensures
            x.spec_packet_id() == 15u16,
            x.spec_bytes() == seq![x.motor, ((x.power as u16) % 256) as u8, ((x.power as u16) / 256) as u8],
            data.len() >= 3 ==> Self::spec_parse(15u16, data) == Some(LynxSetMotorPowerCommandData { motor: data[0], power: ((data[1] + 256 * data[2]) as u16) as i16 }),
    {
    }

    /// Parsing the bytes of a payload under its packet id gives the payload back.
    pub proof fn lemma_roundtrip(x: LynxSetMotorPowerCommandData)
        ensures
            Self::parse_ok(x.spec_packet_id(), x.spec_bytes()),
            Self::spec_parse(x.spec_packet_id(), x.spec_bytes()) == Some(x),
    {
        assert(x.spec_bytes() =~= (seq![x.motor]) + le_i16(x.power) + (Seq::<u8>::empty()));
        lemma_i16_roundtrip(x.power, seq![x.motor], Seq::<u8>::empty());
    }
}

/// Sets the pulse width of a servo.
#[derive(Clone, Copy, Debug, PartialEq, Eq, Structural)]
pub struct LynxSetServoPulseWidthCommandData {
    pub servo: u8,
    pub pulse_width: u16,
}

impl View for LynxSetServoPulseWidthCommandData {
    type V = LynxSetServoPulseWidthCommandData;

    open spec fn view(&self) -> LynxSetServoPulseWidthCommandData {
        *self
    }
}

impl CommandData for LynxSetServoPulseWidthCommandData {
    open spec fn spec_packet_id(&self) -> u16 {
        33u16
    }

    open spec fn spec_bytes(&self) -> Seq<u8> {
        seq![self.servo] + le_u16(self.pulse_width)
    }

    open spec fn id_fits(&self) -> bool {
        true
    }

    open spec fn encodable(&self) -> bool {
        true
    }

    open spec fn parse_ok(id: u16, data: Seq<u8>) -> bool {
        id == 33u16 ==> (data.len() >= 3)
    }

    open spec fn spec_parse(id: u16, data: Seq<u8>) -> Option<LynxSetServoPulseWidthCommandData> {
        if id == 33u16 {
            Some(LynxSetServoPulseWidthCommandData { servo: data[0], pulse_width: get_u16(data, 1) })
        } else {
            None
        }
    }

    fn to_packet_id(&self) -> (r: u16) {
        33u16
    }

    fn from_bytes(id: u16, data: &[u8], dest_addr: u8) -> (r: Option<Self>) {
        if id == 33u16 {
            Some(LynxSetServoPulseWidthCommandData { servo: data[0], pulse_width: read_u16(data, 1) })
        } else {
            None
        }
    }

    fn get_bytes_len(&self) -> (r: usize) {
        3
    }

    fn to_bytes(self) -> (r: Vec<u8>) {
        let mut v: Vec<u8> = Vec::new();
        v.push(self.servo);
        push_u16(&mut v, self.pulse_width);
        v
    }
}

impl LynxSetServoPulseWidthCommandData {
    /// The payload of a servo pulse-width command is the servo channel, then the width low byte and high byte; parsing reads them from those offsets.
    pub proof fn lemma_layout(x: Self, data: Seq<u8>)
        ensures
            x.spec_packet_id() == 33u16,
            x.spec_bytes() == seq![x.servo, (x.pulse_width % 256) as u8, (x.pulse_width / 256) as u8],
            data.len() >= 3 ==> Self::spec_parse(33u16, data) == Some(LynxSetServoPulseWidthCommandData { servo: data[0], pulse_width: (data[1] + 256 * data[2]) as u16 }),
    {
    }

    /// Parsing the bytes of a payload under its packet id gives the payload back.
    pub proof fn lemma_roundtrip(x: LynxSetServoPulseWidthCommandData)
        ensures
            Self::parse_ok(x.spec_packet_id(), x.spec_bytes()),
            Self::spec_parse(x.spec_packet_id(), x.spec_bytes()) == Some(x),
    {
        assert(x.spec_bytes() =~= (seq![x.servo]) + le_u16(x.pulse_width) + (Seq::<u8>::empty()));
        lemma_u16_roundtrip(x.pulse_width, seq![x.servo], Seq::<u8>::empty());
    }
}

/// Enables or disables a motor channel.
#[derive(Clone, Copy, Debug, PartialEq, Eq, Structural)]
pub struct LynxSetMotorChannelEnableCommandData {
    pub motor: u8,
    pub enabled: bool,
}

impl View for LynxSetMotorChannelEnableCommandData {
    type V = LynxSetMotorChannelEnableCommandData;

    open spec fn view(&self) -> LynxSetMotorChannelEnableCommandData {
        *self
    }
}

impl CommandData for LynxSetMotorChannelEnableCommandData {
    open spec fn spec_packet_id(&self) -> u16 {
        10u16
    }

    open spec fn spec_bytes(&self) -> Seq<u8> {
        seq![self.motor] + seq![if self.enabled { 1u8 } else { 0u8 }]
    }

    open spec fn id_fits(&self) -> bool {
        true
    }

    open spec fn encodable(&self) -> bool {
        true
    }

    open spec fn parse_ok(id: u16, data: Seq<u8>) -> bool {
        id == 10u16 ==> (data.len() >= 2)
    }

    open spec fn spec_parse(id: u16, data: Seq<u8>) -> Option<LynxSetMotorChannelEnableCommandData> {
        if id == 10u16 {
            Some(LynxSetMotorChannelEnableCommandData { motor: data[0], enabled: data[1] != 0 })
        } else {
            None
        }
    }

    fn to_packet_id(&self) -> (r: u16) {
        10u16
    }

    fn from_bytes(id: u16, data: &[u8], dest_addr: u8) -> (r: Option<Self>) {
        if id == 10u16 {
            Some(LynxSetMotorChannelEnableCommandData { motor: data[0], enabled: data[1] != 0 })
        } else {
            None
        }
    }

    fn get_bytes_len(&self) -> (r: usize) {
        2
    }

    fn to_bytes(self) -> (r: Vec<u8>) {
        let mut v: Vec<u8> = Vec::new();
        v.push(self.motor);
        v.push(if self.enabled { 1u8 } else { 0u8 });
        v
    }
}

impl LynxSetMotorChannelEnableCommandData {
    /// The payload of a motor enable command is the motor, then 1 for enabled or 0 for disabled; parsing takes any byte but 0 as enabled.
    pub proof fn lemma_layout(x: Self, data: Seq<u8>)
        ensures
            x.spec_packet_id() == 10u16,
            x.spec_bytes() == seq![x.motor, if x.enabled { 1u8 } else { 0u8 }],
            data.len() >= 2 ==> Self::spec_parse(10u16, data) == Some(LynxSetMotorChannelEnableCommandData { motor: data[0], enabled: data[1] != 0 }),
    {
    }

    /// Parsing the bytes of a payload under its packet id gives the payload back.
    pub proof fn lemma_roundtrip(x: LynxSetMotorChannelEnableCommandData)
        ensures
            Self::parse_ok(x.spec_packet_id(), x.spec_bytes()),
            Self::spec_parse(x.spec_packet_id(), x.spec_bytes()) == Some(x),
    {

    }
}

/// Asks for the mode of a motor channel.
#[derive(Clone, Copy, Debug, PartialEq, Eq, Structural)]
pub struct LynxGetMotorChannelModeCommandData {
    pub motor: u8,
}

impl View for LynxGetMotorChannelModeCommandData {
    type V = LynxGetMotorChannelModeCommandData;

    open spec fn view(&self) -> LynxGetMotorChannelModeCommandData {
        *self
    }
}

impl CommandData for LynxGetMotorChannelModeCommandData {
    open spec fn spec_packet_id(&self) -> u16 {
        9u16
    }

    open spec fn spec_bytes(&self) -> Seq<u8> {
        seq![self.motor]
    }

    open spec fn id_fits(&self) -> bool {
        true
    }

    open spec fn encodable(&self) -> bool {
        true
    }

    open spec fn parse_ok(id: u16, data: Seq<u8>) -> bool {
        id == 9u16 ==> (data.len() >= 1)
    }

    open spec fn spec_parse(id: u16, data: Seq<u8>) -> Option<LynxGetMotorChannelModeCommandData> {
        if id == 9u16 {
            Some(LynxGetMotorChannelModeCommandData { motor: data[0] })
        } else {
            None
        }
    }

    fn to_packet_id(&self) -> (r: u16) {
        9u16
    }

    fn from_bytes(id: u16, data: &[u8], dest_addr: u8) -> (r: Option<Self>) {
        if id == 9u16 {
            Some(LynxGetMotorChannelModeCommandData { motor: data[0] })
        } else {
            None
        }
    }

    fn get_bytes_len(&self) -> (r: usize) {
        1
    }

    fn to_bytes(self) -> (r: Vec<u8>) {
        let mut v: Vec<u8> = Vec::new();
        v.push(self.motor);
        v
    }
}

impl LynxGetMotorChannelModeCommandData {
    /// The payload of a motor mode query is the motor.
    pub proof fn lemma_layout(x: Self, data: Seq<u8>)
        ensures
            x.spec_packet_id() == 9u16,
            x.spec_bytes() == seq![x.motor],
            data.len() >= 1 ==> Self::spec_parse(9u16, data) == Some(LynxGetMotorChannelModeCommandData { motor: data[0] }),
    {
    }

    /// Parsing the bytes of a payload under its packet id gives the payload back.
    pub proof fn lemma_roundtrip(x: LynxGetMotorChannelModeCommandData)
        ensures
            Self::parse_ok(x.spec_packet_id(), x.spec_bytes()),
            Self::spec_parse(x.spec_packet_id(), x.spec_bytes()) == Some(x),
    {

    }
}

/// The mode of a motor channel.
#[derive(Clone, Copy, Debug, PartialEq, Eq, Structural)]
pub struct LynxGetMotorChannelModeResponseData {
    pub run_mode: DcMotorRunMode,
    pub zero_power_behavior: DcMotorZeroPowerBehavior,
}

impl View for LynxGetMotorChannelModeResponseData {
    type V = LynxGetMotorChannelModeResponseData;

    open spec fn view(&self) -> LynxGetMotorChannelModeResponseData {
        *self
    }
}

impl CommandData for LynxGetMotorChannelModeResponseData {
    open spec fn spec_packet_id(&self) -> u16 {
        0x8009u16
    }

    open spec fn spec_bytes(&self) -> Seq<u8> {
        seq![self.run_mode.spec_value()] + seq![self.zero_power_behavior.spec_value()]
    }

    open spec fn id_fits(&self) -> bool {
        true
    }

    open spec fn encodable(&self) -> bool {
        true
    }

    open spec fn parse_ok(id: u16, data: Seq<u8>) -> bool {
        id == 0x8009u16 ==> (data.len() >= 2 && DcMotorRunMode::spec_from_u8(data[0]) is Some && DcMotorZeroPowerBehavior::spec_from_u8(data[1]) is Some)
    }

    open spec fn spec_parse(id: u16, data: Seq<u8>) -> Option<LynxGetMotorChannelModeResponseData> {
        if id == 0x8009u16 {
            Some(LynxGetMotorChannelModeResponseData { run_mode: DcMotorRunMode::spec_from_u8(data[0]).unwrap(), zero_power_behavior: DcMotorZeroPowerBehavior::spec_from_u8(data[1]).unwrap() })
        } else {
            None
        }
    }

    fn to_packet_id(&self) -> (r: u16) {
        0x8009u16
    }

    fn from_bytes(id: u16, data: &[u8], dest_addr: u8) -> (r: Option<Self>) {
        if id == 0x8009u16 {
            Some(LynxGetMotorChannelModeResponseData { run_mode: DcMotorRunMode::try_from_u8(data[0]).unwrap(), zero_power_behavior: DcMotorZeroPowerBehavior::try_from_u8(data[1]).unwrap() })
        } else {
            None
        }
    }

    fn get_bytes_len(&self) -> (r: usize) {
        2
    }

    fn to_bytes(self) -> (r: Vec<u8>) {
        let mut v: Vec<u8> = Vec::new();
        v.push(self.run_mode.value());
        v.push(self.zero_power_behavior.value());
        v
    }
}

impl LynxGetMotorChannelModeResponseData {
    /// The payload of a motor mode answer is the run mode byte, then the zero power behavior byte.
    pub proof fn lemma_layout(x: Self, data: Seq<u8>)
        ensures
            x.spec_packet_id() == 0x8009u16,
            x.spec_bytes() == seq![x.run_mode.spec_value(), x.zero_power_behavior.spec_value()],
            data.len() >= 2 && DcMotorRunMode::spec_from_u8(data[0]) is Some && DcMotorZeroPowerBehavior::spec_from_u8(data[1]) is Some ==> Self::spec_parse(0x8009u16, data) == Some(LynxGetMotorChannelModeResponseData { run_mode: DcMotorRunMode::spec_from_u8(data[0]).unwrap(), zero_power_behavior: DcMotorZeroPowerBehavior::spec_from_u8(data[1]).unwrap() }),
    {
    }

    /// Parsing the bytes of a payload under its packet id gives the payload back.
    pub proof fn lemma_roundtrip(x: LynxGetMotorChannelModeResponseData)
        ensures
            Self::parse_ok(x.spec_packet_id(), x.spec_bytes()),
            Self::spec_parse(x.spec_packet_id(), x.spec_bytes()) == Some(x),
    {
        DcMotorRunMode::lemma_value_roundtrip(x.run_mode);
        DcMotorZeroPowerBehavior::lemma_value_roundtrip(x.zero_power_behavior);
    }
}

/// Sets the mode of a motor channel.
#[derive(Clone, Copy, Debug, PartialEq, Eq, Structural)]
pub struct LynxSetMotorChannelModeCommandData {
    pub motor: u8,
    pub run_mode: DcMotorRunMode,
    pub zero_power_behavior: DcMotorZeroPowerBehavior,
}

impl View for LynxSetMotorChannelModeCommandData {
    type V = LynxSetMotorChannelModeCommandData;

    open spec fn view(&self) -> LynxSetMotorChannelModeCommandData {
        *self
    }
}

impl CommandData for LynxSetMotorChannelModeCommandData {
    open spec fn spec_packet_id(&self) -> u16 {
        8u16
    }

    open spec fn spec_bytes(&self) -> Seq<u8> {
        seq![self.motor] + seq![self.run_mode.spec_value()] + seq![self.zero_power_behavior.spec_value()]
    }

    open spec fn id_fits(&self) -> bool {
        true
    }

    open spec fn encodable(&self) -> bool {
        true
    }

    open spec fn parse_ok(id: u16, data: Seq<u8>) -> bool {
        id == 8u16 ==> (data.len() >= 3 && DcMotorRunMode::spec_from_u8(data[1]) is Some && DcMotorZeroPowerBehavior::spec_from_u8(data[2]) is Some)
    }

    open spec fn spec_parse(id: u16, data: Seq<u8>) -> Option<LynxSetMotorChannelModeCommandData> {
        if id == 8u16 {
            Some(LynxSetMotorChannelModeCommandData { motor: data[0], run_mode: DcMotorRunMode::spec_from_u8(data[1]).unwrap(), zero_power_behavior: DcMotorZeroPowerBehavior::spec_from_u8(data[2]).unwrap() })
        } else {
            None
        }
    }

    fn to_packet_id(&self) -> (r: u16) {
        8u16
    }

    fn from_bytes(id: u16, data: &[u8], dest_addr: u8) -> (r: Option<Self>) {
        if id == 8u16 {
            Some(LynxSetMotorChannelModeCommandData { motor: data[0], run_mode: DcMotorRunMode::try_from_u8(data[1]).unwrap(), zero_power_behavior: DcMotorZeroPowerBehavior::try_from_u8(data[2]).unwrap() })
        } else {
            None
        }
    }

    fn get_bytes_len(&self) -> (r: usize) {
        3
    }

    fn to_bytes(self) -> (r: Vec<u8>) {
        let mut v: Vec<u8> = Vec::new();
        v.push(self.motor);
        v.push(self.run_mode.value());
        v.push(self.zero_power_behavior.value());
        v
    }
}

impl LynxSetMotorChannelModeCommandData {
    /// The payload of a motor mode command is the motor, the run mode byte and the zero power behavior byte.
    pub proof fn lemma_layout(x: Self, data: Seq<u8>)
        ensures
            x.spec_packet_id() == 8u16,
            x.spec_bytes() == seq![x.motor, x.run_mode.spec_value(), x.zero_power_behavior.spec_value()],
            data.len() >= 3 && DcMotorRunMode::spec_from_u8(data[1]) is Some && DcMotorZeroPowerBehavior::spec_from_u8(data[2]) is Some ==> Self::spec_parse(8u16, data) == Some(LynxSetMotorChannelModeCommandData { motor: data[0], run_mode: DcMotorRunMode::spec_from_u8(data[1]).unwrap(), zero_power_behavior: DcMotorZeroPowerBehavior::spec_from_u8(data[2]).unwrap() }),
    {
    }

    /// Parsing the bytes of a payload under its packet id gives the payload back.
    pub proof fn lemma_roundtrip(x: LynxSetMotorChannelModeCommandData)
        ensures
            Self::parse_ok(x.spec_packet_id(), x.spec_bytes()),
            Self::spec_parse(x.spec_packet_id(), x.spec_bytes()) == Some(x),
    {
        DcMotorRunMode::lemma_value_roundtrip(x.run_mode);
        DcMotorZeroPowerBehavior::lemma_value_roundtrip(x.zero_power_behavior);
    }
}

/// Writes one byte to an I2C device.
#[derive(Clone, Copy, Debug, PartialEq, Eq, Structural)]
pub struct LynxI2CSingleByteWriteCommandData {
    pub i2c_bus: u8,
    pub i2c_addr_7bit: u8,
    pub value: u8,
}

impl View for LynxI2CSingleByteWriteCommandData {
    type V = LynxI2CSingleByteWriteCommandData;

    open spec fn view(&self) -> LynxI2CSingleByteWriteCommandData {
        *self
    }
}

impl CommandData for LynxI2CSingleByteWriteCommandData {
    open spec fn spec_packet_id(&self) -> u16 {
        37u16
    }

    open spec fn spec_bytes(&self) -> Seq<u8> {
        seq![self.i2c_bus] + seq![self.i2c_addr_7bit] + seq![self.value]
    }

    open spec fn id_fits(&self) -> bool {
        true
    }

    open spec fn encodable(&self) -> bool {
        true
    }

    open spec fn parse_ok(id: u16, data: Seq<u8>) -> bool {
        id == 37u16 ==> (data.len() >= 3)
    }

    open spec fn spec_parse(id: u16, data: Seq<u8>) -> Option<LynxI2CSingleByteWriteCommandData> {
        if id == 37u16 {
            Some(LynxI2CSingleByteWriteCommandData { i2c_bus: data[0], i2c_addr_7bit: data[1], value: data[2] })
        } else {
            None
        }
    }

    fn to_packet_id(&self) -> (r: u16) {
        37u16
    }

    fn from_bytes(id: u16, data: &[u8], dest_addr: u8) -> (r: Option<Self>) {
        if id == 37u16 {
            Some(LynxI2CSingleByteWriteCommandData { i2c_bus: data[0], i2c_addr_7bit: data[1], value: data[2] })
        } else {
            None
        }
    }

    fn get_bytes_len(&self) -> (r: usize) {
        3
    }

    fn to_bytes(self) -> (r: Vec<u8>) {
        let mut v: Vec<u8> = Vec::new();
        v.push(self.i2c_bus);
        v.push(self.i2c_addr_7bit);
        v.push(self.value);
        v
    }
}

impl LynxI2CSingleByteWriteCommandData {
    /// The payload of a single-byte I2C write is the bus, the 7-bit address and the byte.
    pub proof fn lemma_layout(x: Self, data: Seq<u8>)
        ensures
            x.spec_packet_id() == 37u16,
            x.spec_bytes() == seq![x.i2c_bus, x.i2c_addr_7bit, x.value],
            data.len() >= 3 ==> Self::spec_parse(37u16, data) == Some(LynxI2CSingleByteWriteCommandData { i2c_bus: data[0], i2c_addr_7bit: data[1], value: data[2] }),
    {
    }

    /// Parsing the bytes of a payload under its packet id gives the payload back.
    pub proof fn lemma_roundtrip(x: LynxI2CSingleByteWriteCommandData)
        ensures
            Self::parse_ok(x.spec_packet_id(), x.spec_bytes()),
            Self::spec_parse(x.spec_packet_id(), x.spec_bytes()) == Some(x),
    {

    }
}

/// Asks for the result of an I2C read.
#[derive(Clone, Copy, Debug, PartialEq, Eq, Structural)]
pub struct LynxI2CReadStatusQueryCommandData {
    pub i2c_bus: u8,
}

impl View for LynxI2CReadStatusQueryCommandData {
    type V = LynxI2CReadStatusQueryCommandData;

    open spec fn view(&self) -> LynxI2CReadStatusQueryCommandData {
        *self
    }
}

impl CommandData for LynxI2CReadStatusQueryCommandData {
    open spec fn spec_packet_id(&self) -> u16 {
        41u16
    }

    open spec fn spec_bytes(&self) -> Seq<u8> {
        seq![self.i2c_bus]
    }

    open spec fn id_fits(&self) -> bool {
        true
    }

    open spec fn encodable(&self) -> bool {
        true
    }

    open spec fn parse_ok(id: u16, data: Seq<u8>) -> bool {
        id == 41u16 ==> (data.len() >= 1)
    }

    open spec fn spec_parse(id: u16, data: Seq<u8>) -> Option<LynxI2CReadStatusQueryCommandData> {
        if id == 41u16 {
            Some(LynxI2CReadStatusQueryCommandData { i2c_bus: data[0] })
        } else {
            None
        }
    }

    fn to_packet_id(&self) -> (r: u16) {
        41u16
    }

    fn from_bytes(id: u16, data: &[u8], dest_addr: u8) -> (r: Option<Self>) {
        if id == 41u16 {
            Some(LynxI2CReadStatusQueryCommandData { i2c_bus: data[0] })
        } else {
            None
        }
    }

    fn get_bytes_len(&self) -> (r: usize) {
        1
    }

    fn to_bytes(self) -> (r: Vec<u8>) {
        let mut v: Vec<u8> = Vec::new();
        v.push(self.i2c_bus);
        v
    }
}

impl LynxI2CReadStatusQueryCommandData {
    /// The payload of an I2C read status query is the bus.
    pub proof fn lemma_layout(x: Self, data: Seq<u8>)
        ensures
            x.spec_packet_id() == 41u16,
            x.spec_bytes() == seq![x.i2c_bus],
            data.len() >= 1 ==> Self::spec_parse(41u16, data) == Some(LynxI2CReadStatusQueryCommandData { i2c_bus: data[0] }),
    {
    }

    /// Parsing the bytes of a payload under its packet id gives the payload back.
    pub proof fn lemma_roundtrip(x: LynxI2CReadStatusQueryCommandData)
        ensures
            Self::parse_ok(x.spec_packet_id(), x.spec_bytes()),
            Self::spec_parse(x.spec_packet_id(), x.spec_bytes()) == Some(x),
    {

    }
}

/// Starts an I2C read of several bytes from a register.
#[derive(Clone, Copy, Debug, PartialEq, Eq, Structural)]
pub struct LynxI2CWriteReadMultipleBytesCommandData {
    pub i2c_bus: u8,
    pub i2c_addr_7bit: u8,
    pub bytes_to_read: u8,
    pub i2c_start_addr: u8,
}

impl View for LynxI2CWriteReadMultipleBytesCommandData {
    type V = LynxI2CWriteReadMultipleBytesCommandData;

    open spec fn view(&self) -> LynxI2CWriteReadMultipleBytesCommandData {
        *self
    }
}

impl CommandData for LynxI2CWriteReadMultipleBytesCommandData {
    open spec fn spec_packet_id(&self) -> u16 {
        52u16
    }

    open spec fn spec_bytes(&self) -> Seq<u8> {
        seq![self.i2c_bus] + seq![self.i2c_addr_7bit] + seq![self.bytes_to_read] + seq![self.i2c_start_addr]
    }

    open spec fn id_fits(&self) -> bool {
        true
    }

    open spec fn encodable(&self) -> bool {
        true
    }

    open spec fn parse_ok(id: u16, data: Seq<u8>) -> bool {
        id == 52u16 ==> (data.len() >= 4)
    }

    open spec fn spec_parse(id: u16, data: Seq<u8>) -> Option<LynxI2CWriteReadMultipleBytesCommandData> {
        if id == 52u16 {
            Some(LynxI2CWriteReadMultipleBytesCommandData { i2c_bus: data[0], i2c_addr_7bit: data[1], bytes_to_read: data[2], i2c_start_addr: data[3] })
        } else {
            None
        }
    }

    fn to_packet_id(&self) -> (r: u16) {
        52u16
    }

    fn from_bytes(id: u16, data: &[u8], dest_addr: u8) -> (r: Option<Self>) {
        if id == 52u16 {
            Some(LynxI2CWriteReadMultipleBytesCommandData { i2c_bus: data[0], i2c_addr_7bit: data[1], bytes_to_read: data[2], i2c_start_addr: data[3] })
        } else {
            None
        }
    }

    fn get_bytes_len(&self) -> (r: usize) {
        4
    }

    fn to_bytes(self) -> (r: Vec<u8>) {
        let mut v: Vec<u8> = Vec::new();
        v.push(self.i2c_bus);
        v.push(self.i2c_addr_7bit);
        v.push(self.bytes_to_read);
        v.push(self.i2c_start_addr);
        v
    }
}

impl LynxI2CWriteReadMultipleBytesCommandData {
    /// The payload of an I2C register read is the bus, the 7-bit address, the number of bytes to read and the first register.
    pub proof fn lemma_layout(x: Self, data: Seq<u8>)
        ensures
            x.spec_packet_id() == 52u16,
            x.spec_bytes() == seq![x.i2c_bus, x.i2c_addr_7bit, x.bytes_to_read, x.i2c_start_addr],
            data.len() >= 4 ==> Self::spec_parse(52u16, data) == Some(LynxI2CWriteReadMultipleBytesCommandData { i2c_bus: data[0], i2c_addr_7bit: data[1], bytes_to_read: data[2], i2c_start_addr: data[3] }),
    {
    }

    /// Parsing the bytes of a payload under its packet id gives the payload back.
    pub proof fn lemma_roundtrip(x: LynxI2CWriteReadMultipleBytesCommandData)
        ensures
            Self::parse_ok(x.spec_packet_id(), x.spec_bytes()),
            Self::spec_parse(x.spec_packet_id(), x.spec_bytes()) == Some(x),
    {

    }
}

/// Sets the PIDF coefficients of a motor (16.16 fixed point on the wire).
#[derive(Clone, Copy, Debug, PartialEq, Eq, Structural)]
pub struct LynxSetMotorPIDFCommandData {
    pub motor: u8,
    pub mode: DcMotorRunMode,
    pub proportional: i32,
    pub integral: i32,
    pub derivative: i32,
    pub feedforward: i32,
    pub algorithm: u8,
}

impl View for LynxSetMotorPIDFCommandData {
    type V = LynxSetMotorPIDFCommandData;

    open spec fn view(&self) -> LynxSetMotorPIDFCommandData {
        *self
    }
}

impl CommandData for LynxSetMotorPIDFCommandData {
    open spec fn spec_packet_id(&self) -> u16 {
        51u16
    }

    open spec fn spec_bytes(&self) -> Seq<u8> {
        seq![self.motor] + seq![self.mode.spec_value()] + le_i32(self.proportional) + le_i32(self.integral) + le_i32(self.derivative) + le_i32(self.feedforward) + seq![self.algorithm]
    }

    open spec fn id_fits(&self) -> bool {
        true
    }

    open spec fn encodable(&self) -> bool {
        true
    }

    open spec fn parse_ok(id: u16, data: Seq<u8>) -> bool {
        id == 51u16 ==> (data.len() >= 19 && DcMotorRunMode::spec_from_u8(data[1]) is Some)
    }

    open spec fn spec_parse(id: u16, data: Seq<u8>) -> Option<LynxSetMotorPIDFCommandData> {
        if id == 51u16 {
            Some(LynxSetMotorPIDFCommandData { motor: data[0], mode: DcMotorRunMode::spec_from_u8(data[1]).unwrap(), proportional: get_i32(data, 2), integral: get_i32(data, 6), derivative: get_i32(data, 10), feedforward: get_i32(data, 14), algorithm: data[18] })
        } else {
            None
        }
    }

    fn to_packet_id(&self) -> (r: u16) {
        51u16
    }

    fn from_bytes(id: u16, data: &[u8], dest_addr: u8) -> (r: Option<Self>) {
        if id == 51u16 {
            Some(LynxSetMotorPIDFCommandData { motor: data[0], mode: DcMotorRunMode::try_from_u8(data[1]).unwrap(), proportional: read_i32(data, 2), integral: read_i32(data, 6), derivative: read_i32(data, 10), feedforward: read_i32(data, 14), algorithm: data[18] })
        } else {
            None
        }
    }

    fn get_bytes_len(&self) -> (r: usize) {
        19
    }

    fn to_bytes(self) -> (r: Vec<u8>) {
        let mut v: Vec<u8> = Vec::new();
        v.push(self.motor);
        v.push(self.mode.value());
        push_i32(&mut v, self.proportional);
        push_i32(&mut v, self.integral);
        push_i32(&mut v, self.derivative);
        push_i32(&mut v, self.feedforward);
        v.push(self.algorithm);
        v
    }
}

impl LynxSetMotorPIDFCommandData {
    /// The payload of a PIDF command is the motor, the run mode byte, the four coefficients as little-endian 32-bit words (P, I, D, F) and the algorithm byte.
    pub proof fn lemma_layout(x: Self, data: Seq<u8>)
        ensures
            x.spec_packet_id() == 51u16,
            x.spec_bytes() == seq![x.motor, x.mode.spec_value(), ((x.proportional as u32) % 256) as u8, (((x.proportional as u32) / 256) % 256) as u8, (((x.proportional as u32) / 65536) % 256) as u8, ((x.proportional as u32) / 16777216) as u8, ((x.integral as u32) % 256) as u8, (((x.integral as u32) / 256) % 256) as u8, (((x.integral as u32) / 65536) % 256) as u8, ((x.integral as u32) / 16777216) as u8, ((x.derivative as u32) % 256) as u8, (((x.derivative as u32) / 256) % 256) as u8, (((x.derivative as u32) / 65536) % 256) as u8, ((x.derivative as u32) / 16777216) as u8, ((x.feedforward as u32) % 256) as u8, (((x.feedforward as u32) / 256) % 256) as u8, (((x.feedforward as u32) / 65536) % 256) as u8, ((x.feedforward as u32) / 16777216) as u8, x.algorithm],
            data.len() >= 19 && DcMotorRunMode::spec_from_u8(data[1]) is Some ==> Self::spec_parse(51u16, data) == Some(LynxSetMotorPIDFCommandData { motor: data[0], mode: DcMotorRunMode::spec_from_u8(data[1]).unwrap(), proportional: ((data[2] + 256 * data[3] + 65536 * data[4] + 16777216 * data[5]) as u32) as i32, integral: ((data[6] + 256 * data[7] + 65536 * data[8] + 16777216 * data[9]) as u32) as i32, derivative: ((data[10] + 256 * data[11] + 65536 * data[12] + 16777216 * data[13]) as u32) as i32, feedforward: ((data[14] + 256 * data[15] + 65536 * data[16] + 16777216 * data[17]) as u32) as i32, algorithm: data[18] }),
    {
    }

    /// Parsing the bytes of a payload under its packet id gives the payload back.
    pub proof fn lemma_roundtrip(x: LynxSetMotorPIDFCommandData)
        ensures
            Self::parse_ok(x.spec_packet_id(), x.spec_bytes()),
            Self::spec_parse(x.spec_packet_id(), x.spec_bytes()) == Some(x),
    {
        DcMotorRunMode::lemma_value_roundtrip(x.mode);
        assert(x.spec_bytes() =~= (seq![x.motor] + seq![x.mode.spec_value()]) + le_i32(x.proportional) + (le_i32(x.integral) + le_i32(x.derivative) + le_i32(x.feedforward) + seq![x.algorithm]));
        lemma_i32_roundtrip(x.proportional, seq![x.motor] + seq![x.mode.spec_value()], le_i32(x.integral) + le_i32(x.derivative) + le_i32(x.feedforward) + seq![x.algorithm]);
        assert(x.spec_bytes() =~= (seq![x.motor] + seq![x.mode.spec_value()] + le_i32(x.proportional)) + le_i32(x.integral) + (le_i32(x.derivative) + le_i32(x.feedforward) + seq![x.algorithm]));
        lemma_i32_roundtrip(x.integral, seq![x.motor] + seq![x.mode.spec_value()] + le_i32(x.proportional), le_i32(x.derivative) + le_i32(x.feedforward) + seq![x.algorithm]);
        assert(x.spec_bytes() =~= (seq![x.motor] + seq![x.mode.spec_value()] + le_i32(x.proportional) + le_i32(x.integral)) + le_i32(x.derivative) + (le_i32(x.feedforward) + seq![x.algorithm]));
        lemma_i32_roundtrip(x.derivative, seq![x.motor] + seq![x.mode.spec_value()] + le_i32(x.proportional) + le_i32(x.integral), le_i32(x.feedforward) + seq![x.algorithm]);
        assert(x.spec_bytes() =~= (seq![x.motor] + seq![x.mode.spec_value()] + le_i32(x.proportional) + le_i32(x.integral) + le_i32(x.derivative)) + le_i32(x.feedforward) + (seq![x.algorithm]));
        lemma_i32_roundtrip(x.feedforward, seq![x.motor] + seq![x.mode.spec_value()] + le_i32(x.proportional) + le_i32(x.integral) + le_i32(x.derivative), seq![x.algorithm]);
    }
}

/// Sets the velocity target of a motor.
#[derive(Clone, Copy, Debug, PartialEq, Eq, Structural)]
pub struct LynxSetMotorVelocityTargetCommandData {
    pub motor: u8,
    pub velocity: i16,
}

impl View for LynxSetMotorVelocityTargetCommandData {
    type V = LynxSetMotorVelocityTargetCommandData;

    open spec fn view(&self) -> LynxSetMotorVelocityTargetCommandData {
        *self
    }
}

impl CommandData for LynxSetMotorVelocityTargetCommandData {
    open spec fn spec_packet_id(&self) -> u16 {
        17u16
    }

    open spec fn spec_bytes(&self) -> Seq<u8> {
        seq![self.motor] + le_i16(self.velocity)
    }

    open spec fn id_fits(&self) -> bool {
        true
    }

    open spec fn encodable(&self) -> bool {
        true
    }

    open spec fn parse_ok(id: u16, data: Seq<u8>) -> bool {
        id == 17u16 ==> (data.len() >= 3)
    }

    open spec fn spec_parse(id: u16, data: Seq<u8>) -> Option<LynxSetMotorVelocityTargetCommandData> {
        if id == 17u16 {
            Some(LynxSetMotorVelocityTargetCommandData { motor: data[0], velocity: get_i16(data, 1) })
        } else {
            None
        }
    }

    fn to_packet_id(&self) -> (r: u16) {
        17u16
    }

    fn from_bytes(id: u16, data: &[u8], dest_addr: u8) -> (r: Option<Self>) {
        if id == 17u16 {
            Some(LynxSetMotorVelocityTargetCommandData { motor: data[0], velocity: read_i16(data, 1) })
        } else {
            None
        }
    }

    fn get_bytes_len(&self) -> (r: usize) {
        3
    }

    fn to_bytes(self) -> (r: Vec<u8>) {
        let mut v: Vec<u8> = Vec::new();
        v.push(self.motor);
        push_i16(&mut v, self.velocity);
        v
    }
}

impl LynxSetMotorVelocityTargetCommandData {
    /// The payload of a velocity target is the motor, then the velocity as two little-endian bytes.
    pub proof fn lemma_layout(x: Self, data: Seq<u8>)
        ensures
            x.spec_packet_id() == 17u16,
            x.spec_bytes() == seq![x.motor, ((x.velocity as u16) % 256) as u8, ((x.velocity as u16) / 256) as u8],
            data.len() >= 3 ==> Self::spec_parse(17u16, data) == Some(LynxSetMotorVelocityTargetCommandData { motor: data[0], velocity: ((data[1] + 256 * data[2]) as u16) as i16 }),
    {
    }

    /// Parsing the bytes of a payload under its packet id gives the payload back.
    pub proof fn lemma_roundtrip(x: LynxSetMotorVelocityTargetCommandData)
        ensures
            Self::parse_ok(x.spec_packet_id(), x.spec_bytes()),
            Self::spec_parse(x.spec_packet_id(), x.spec_bytes()) == Some(x),
    {
        assert(x.spec_bytes() =~= (seq![x.motor]) + le_i16(x.velocity) + (Seq::<u8>::empty()));
        lemma_i16_roundtrip(x.velocity, seq![x.motor], Seq::<u8>::empty());
    }
}

/// Sets the position target of a motor.
#[derive(Clone, Copy, Debug, PartialEq, Eq, Structural)]
pub struct LynxSetMotorTargetPositionCommandData {
    pub motor: u8,
    pub position: i32,
    pub tolerance: u16,
}

impl View for LynxSetMotorTargetPositionCommandData {
    type V = LynxSetMotorTargetPositionCommandData;

    open spec fn view(&self) -> LynxSetMotorTargetPositionCommandData {
        *self
    }
}

impl CommandData for LynxSetMotorTargetPositionCommandData {
    open spec fn spec_packet_id(&self) -> u16 {
        19u16
    }

    open spec fn spec_bytes(&self) -> Seq<u8> {
        seq![self.motor] + le_i32(self.position) + le_u16(self.tolerance)
    }

    open spec fn id_fits(&self) -> bool {
        true
    }

    open spec fn encodable(&self) -> bool {
        true
    }

    open spec fn parse_ok(id: u16, data: Seq<u8>) -> bool {
        id == 19u16 ==> (data.len() >= 7)
    }

    open spec fn spec_parse(id: u16, data: Seq<u8>) -> Option<LynxSetMotorTargetPositionCommandData> {
        if id == 19u16 {
            Some(LynxSetMotorTargetPositionCommandData { motor: data[0], position: get_i32(data, 1), tolerance: get_u16(data, 5) })
        } else {
            None
        }
    }

    fn to_packet_id(&self) -> (r: u16) {
        19u16
    }

    fn from_bytes(id: u16, data: &[u8], dest_addr: u8) -> (r: Option<Self>) {
        if id == 19u16 {
            Some(LynxSetMotorTargetPositionCommandData { motor: data[0], position: read_i32(data, 1), tolerance: read_u16(data, 5) })
        } else {
            None
        }
    }

    fn get_bytes_len(&self) -> (r: usize) {
        7
    }

    fn to_bytes(self) -> (r: Vec<u8>) {
        let mut v: Vec<u8> = Vec::new();
        v.push(self.motor);
        push_i32(&mut v, self.position);
        push_u16(&mut v, self.tolerance);
        v
    }
}

impl LynxSetMotorTargetPositionCommandData {
    /// The payload of a position target is the motor, the position as four little-endian bytes and the tolerance as two.
    pub proof fn lemma_layout(x: Self, data: Seq<u8>)
        ensures
            x.spec_packet_id() == 19u16,
            x.spec_bytes() == seq![x.motor, ((x.position as u32) % 256) as u8, (((x.position as u32) / 256) % 256) as u8, (((x.position as u32) / 65536) % 256) as u8, ((x.position as u32) / 16777216) as u8, (x.tolerance % 256) as u8, (x.tolerance / 256) as u8],
            data.len() >= 7 ==> Self::spec_parse(19u16, data) == Some(LynxSetMotorTargetPositionCommandData { motor: data[0], position: ((data[1] + 256 * data[2] + 65536 * data[3] + 16777216 * data[4]) as u32) as i32, tolerance: (data[5] + 256 * data[6]) as u16 }),
    {
    }

    /// Parsing the bytes of a payload under its packet id gives the payload back.
    pub proof fn lemma_roundtrip(x: LynxSetMotorTargetPositionCommandData)
        ensures
            Self::parse_ok(x.spec_packet_id(), x.spec_bytes()),
            Self::spec_parse(x.spec_packet_id(), x.spec_bytes()) == Some(x),
    {
        assert(x.spec_bytes() =~= (seq![x.motor]) + le_i32(x.position) + (le_u16(x.tolerance)));
        lemma_i32_roundtrip(x.position, seq![x.motor], le_u16(x.tolerance));
        assert(x.spec_bytes() =~= (seq![x.motor] + le_i32(x.position)) + le_u16(x.tolerance) + (Seq::<u8>::empty()));
        lemma_u16_roundtrip(x.tolerance, seq![x.motor] + le_i32(x.position), Seq::<u8>::empty());
    }
}

/// Asks for the result of an I2C write.
#[derive(Clone, Copy, Debug, PartialEq, Eq, Structural)]
pub struct LynxI2CWriteStatusQueryCommandData {
    pub i2c_bus: u8,
}

impl View for LynxI2CWriteStatusQueryCommandData {
    type V = LynxI2CWriteStatusQueryCommandData;

    open spec fn view(&self) -> LynxI2CWriteStatusQueryCommandData {
        *self
    }
}

impl CommandData for LynxI2CWriteStatusQueryCommandData {
    open spec fn spec_packet_id(&self) -> u16 {
        42u16
    }

    open spec fn spec_bytes(&self) -> Seq<u8> {
        seq![self.i2c_bus]
    }

    open spec fn id_fits(&self) -> bool {
        true
    }

    open spec fn encodable(&self) -> bool {
        true
    }

    open spec fn parse_ok(id: u16, data: Seq<u8>) -> bool {
        id == 42u16 ==> (data.len() >= 1)
    }

    open spec fn spec_parse(id: u16, data: Seq<u8>) -> Option<LynxI2CWriteStatusQueryCommandData> {
        if id == 42u16 {
            Some(LynxI2CWriteStatusQueryCommandData { i2c_bus: data[0] })
        } else {
            None
        }
    }

    fn to_packet_id(&self) -> (r: u16) {
        42u16
    }

    fn from_bytes(id: u16, data: &[u8], dest_addr: u8) -> (r: Option<Self>) {
        if id == 42u16 {
            Some(LynxI2CWriteStatusQueryCommandData { i2c_bus: data[0] })
        } else {
            None
        }
    }

    fn get_bytes_len(&self) -> (r: usize) {
        1
    }

    fn to_bytes(self) -> (r: Vec<u8>) {
        let mut v: Vec<u8> = Vec::new();
        v.push(self.i2c_bus);
        v
    }
}

impl LynxI2CWriteStatusQueryCommandData {
    /// The payload of an I2C write status query is the bus.
    pub proof fn lemma_layout(x: Self, data: Seq<u8>)
        ensures
            x.spec_packet_id() == 42u16,
            x.spec_bytes() == seq![x.i2c_bus],
            data.len() >= 1 ==> Self::spec_parse(42u16, data) == Some(LynxI2CWriteStatusQueryCommandData { i2c_bus: data[0] }),
    {
    }

    /// Parsing the bytes of a payload under its packet id gives the payload back.
    pub proof fn lemma_roundtrip(x: LynxI2CWriteStatusQueryCommandData)
        ensures
            Self::parse_ok(x.spec_packet_id(), x.spec_bytes()),
            Self::spec_parse(x.spec_packet_id(), x.spec_bytes()) == Some(x),
    {

    }
}

/// The result of an I2C write.
#[derive(Clone, Copy, Debug, PartialEq, Eq, Structural)]
pub struct LynxI2CWriteStatusQueryResponseData {
    pub i2c_status: u8,
    pub bytes_written: u8,
}

impl View for LynxI2CWriteStatusQueryResponseData {
    type V = LynxI2CWriteStatusQueryResponseData;

    open spec fn view(&self) -> LynxI2CWriteStatusQueryResponseData {
        *self
    }
}

impl CommandData for LynxI2CWriteStatusQueryResponseData {
    open spec fn spec_packet_id(&self) -> u16 {
        0x802Au16
    }

    open spec fn spec_bytes(&self) -> Seq<u8> {
        seq![self.i2c_status] + seq![self.bytes_written]
    }

    open spec fn id_fits(&self) -> bool {
        true
    }

    open spec fn encodable(&self) -> bool {
        true
    }

    open spec fn parse_ok(id: u16, data: Seq<u8>) -> bool {
        id == 0x802Au16 ==> (data.len() >= 2)
    }

    open spec fn spec_parse(id: u16, data: Seq<u8>) -> Option<LynxI2CWriteStatusQueryResponseData> {
        if id == 0x802Au16 {
            Some(LynxI2CWriteStatusQueryResponseData { i2c_status: data[0], bytes_written: data[1] })
        } else {
            None
        }
    }

    fn to_packet_id(&self) -> (r: u16) {
        0x802Au16
    }

    fn from_bytes(id: u16, data: &[u8], dest_addr: u8) -> (r: Option<Self>) {
        if id == 0x802Au16 {
            Some(LynxI2CWriteStatusQueryResponseData { i2c_status: data[0], bytes_written: data[1] })
        } else {
            None
        }
    }

    fn get_bytes_len(&self) -> (r: usize) {
        2
    }

    fn to_bytes(self) -> (r: Vec<u8>) {
        let mut v: Vec<u8> = Vec::new();
        v.push(self.i2c_status);
        v.push(self.bytes_written);
        v
    }
}

impl LynxI2CWriteStatusQueryResponseData {
    /// The payload of an I2C write status answer is the status, then the number of bytes written.
    pub proof fn lemma_layout(x: Self, data: Seq<u8>)
        ensures
            x.spec_packet_id() == 0x802Au16,
            x.spec_bytes() == seq![x.i2c_status, x.bytes_written],
            data.len() >= 2 ==> Self::spec_parse(0x802Au16, data) == Some(LynxI2CWriteStatusQueryResponseData { i2c_status: data[0], bytes_written: data[1] }),
    {
    }

    /// Parsing the bytes of a payload under its packet id gives the payload back.
    pub proof fn lemma_roundtrip(x: LynxI2CWriteStatusQueryResponseData)
        ensures
            Self::parse_ok(x.spec_packet_id(), x.spec_bytes()),
            Self::spec_parse(x.spec_packet_id(), x.spec_bytes()) == Some(x),
    {

    }
}

} // verus!
