use crate::buffer::Buffer;
use crate::controller_state::{flip_vert_seq, pair_mate, ControllerState, ControllerView, LedState};
use vstd::prelude::*;

verus! {

/// The supported controller hardware.
#[derive(Clone, Copy, PartialEq, Eq, Structural, Debug)]
pub enum HardwareSpec {
    TasollerOne,
    TasollerTwo,
    Yuancon,
}

/// How LED frames travel to the device.
#[derive(Clone, Copy, PartialEq, Eq, Structural, Debug)]
pub enum WriteType {
    Bulk,
    Interrupt,
}

/// Bit `k` of a report, counting from the least significant bit of byte 0.
pub open spec fn report_bit(report: Seq<u8>, k: int) -> u8 {
    (report[k / 8] >> ((k % 8) as u8)) & 1u8
}

/// Bit `i` of one byte.
pub open spec fn byte_bit(b: u8, i: int) -> u8 {
    (b >> (i as u8)) & 1u8
}

proof fn lemma_bit_is_binary(b: u8, s: u8)
    ensures
        (b >> s) & 1u8 <= 1u8,
{
    assert((b >> s) & 1u8 <= 1u8) by (bit_vector);
}

impl HardwareSpec {
    /// Length of a well-formed input report.
    pub open spec fn report_size(self) -> nat {
        match self {
            HardwareSpec::TasollerOne => 11,
            HardwareSpec::TasollerTwo => 36,
            HardwareSpec::Yuancon => 34,
        }
    }

    /// The state after decoding `report` on top of `prev`.
    pub open spec fn decode_view(self, report: Seq<u8>, prev: ControllerView) -> ControllerView {
        if report.len() != self.report_size() {
            prev
        } else {
            match self {
                HardwareSpec::TasollerOne => ControllerView {
                    ground: flip_vert_seq(
                        Seq::new(32, |i: int| (report_bit(report, 34 + i) * 255) as u8),
                    ),
                    air: Seq::new(6, |i: int| report_bit(report, 28 + i)),
                    extra: prev.extra.update(0, report_bit(report, 26)).update(
                        1,
                        report_bit(report, 27),
                    ),
                },
                HardwareSpec::TasollerTwo => ControllerView {
                    ground: flip_vert_seq(report.subrange(4, 36)),
                    air: Seq::new(6, |i: int| byte_bit(report[3], i)),
                    extra: prev.extra.update(0, byte_bit(report[3], 6)).update(
                        1,
                        byte_bit(report[3], 7),
                    ),
                },
                HardwareSpec::Yuancon => ControllerView {
                    ground: report.subrange(2, 34),
                    air: Seq::new(6, |j: int| byte_bit(report[0], pair_mate(j))),
                    extra: Seq::new(3, |j: int| byte_bit(report[1], 2 - j)),
                },
            }
        }
    }

    pub open spec fn spec_write_type(self) -> WriteType {
        match self {
            HardwareSpec::Yuancon => WriteType::Interrupt,
            _ => WriteType::Bulk,
        }
    }

    /// Whether `out` is the LED frame for `led`.
    pub open spec fn is_led_frame(self, out: Seq<u8>, led: Seq<u8>) -> bool {
        match self.spec_write_type() {
            WriteType::Bulk => is_bulk_frame(out, led),
            WriteType::Interrupt => is_interrupt_frame(out, led),
        }
    }

    pub fn vid(&self) -> (r: u16)
        ensures
            r == (if *self == HardwareSpec::Yuancon { 0x1973u16 } else { 0x1ccfu16 }),
    {
        match self {
            HardwareSpec::Yuancon => 0x1973,
            _ => 0x1ccf,
        }
    }

    pub fn pid(&self) -> (r: u16)
        ensures
            r == (if *self == HardwareSpec::Yuancon { 0x2001u16 } else { 0x2333u16 }),
    {
        match self {
            HardwareSpec::Yuancon => 0x2001,
            _ => 0x2333,
        }
    }

    /// Endpoint that input reports are read from.
    pub fn read_endpoint(&self) -> (r: u8)
        ensures
            r == (if *self == HardwareSpec::Yuancon { 0x81u8 } else { 0x84u8 }),
    {
        match self {
            HardwareSpec::Yuancon => 0x81,
            _ => 0x84,
        }
    }

    /// Endpoint that LED frames are written to.
    pub fn led_endpoint(&self) -> (r: u8)
        ensures
            r == (if *self == HardwareSpec::Yuancon { 0x02u8 } else { 0x03u8 }),
    {
        match self {
            HardwareSpec::Yuancon => 0x02,
            _ => 0x03,
        }
    }

    pub fn write_type(&self) -> (r: WriteType)
        ensures
            r == self.spec_write_type(),
    {
        match self {
            HardwareSpec::Yuancon => WriteType::Interrupt,
            _ => WriteType::Bulk,
        }
    }

    /// Decodes the report in `buf` into `state`; a report of the wrong length
    /// leaves `state` untouched.
    pub fn decode(&self, buf: &Buffer, state: &mut ControllerState)
        requires
            buf.wf(),
        ensures
            final(state)@ == self.decode_view(buf.contents(), old(state)@),
    {
        match self {
            HardwareSpec::TasollerOne => decode_tasoller_one(buf, state),
            HardwareSpec::TasollerTwo => decode_tasoller_two(buf, state),
            HardwareSpec::Yuancon => decode_yuancon(buf, state),
        }
    }

    /// Encodes the LED pattern into `buf` in this hardware's frame format.
    pub fn encode_led(&self, buf: &mut Buffer, led: &LedState)
        ensures
            final(buf).wf(),
            self.is_led_frame(final(buf).contents(), led.led_state@),
    {
        match self {
            HardwareSpec::Yuancon => encode_interrupt_frame(buf, led),
            _ => encode_bulk_frame(buf, led),
        }
    }
}

/// Decoder for the 11-byte bit-packed reports.
pub fn decode_tasoller_one(buf: &Buffer, state: &mut ControllerState)
    requires
        buf.wf(),
    ensures
        final(state)@ == HardwareSpec::TasollerOne.decode_view(buf.contents(), old(state)@),
{
    if buf.len != 11 {
        return;
    }
    let ghost report = buf.contents();
    let mut i: usize = 0;
    while i < 32
        invariant
            0 <= i <= 32,
            buf.len == 11,
            report == buf.contents(),
            state.ground_state@.len() == 32,
            forall|j: int| 0 <= j < i ==> state.ground_state@[j] == (report_bit(report, 34 + j) * 255) as u8,
            state.air_state@ == old(state)@.air,
            state.extra_state@ == old(state)@.extra,
        decreases 32 - i,
    {
        let k: usize = 34 + i;
        let bit = (buf.data[k / 8] >> ((k % 8) as u8)) & 1u8;
        proof {
            lemma_bit_is_binary(buf.data@[(k / 8) as int], (k % 8) as u8);
        }
        state.ground_state[i] = bit * 255;
        i = i + 1;
    }
    let ghost g = state.ground_state@;
    assert(g =~= Seq::new(32, |i: int| (report_bit(report, 34 + i) * 255) as u8));
    state.flip_vert();
    let mut i: usize = 0;
    while i < 6
        invariant
            0 <= i <= 6,
            buf.len == 11,
            report == buf.contents(),
            state.air_state@.len() == 6,
            forall|j: int| 0 <= j < i ==> state.air_state@[j] == report_bit(report, 28 + j),
            state.ground_state@ == flip_vert_seq(g),
            state.extra_state@ == old(state)@.extra,
        decreases 6 - i,
    {
        let k: usize = 28 + i;
        state.air_state[i] = (buf.data[k / 8] >> ((k % 8) as u8)) & 1u8;
        i = i + 1;
    }
    state.extra_state[0] = (buf.data[3] >> 2u8) & 1u8;
    state.extra_state[1] = (buf.data[3] >> 3u8) & 1u8;
    assert(state.air_state@ =~= Seq::new(6, |i: int| report_bit(report, 28 + i)));
    assert(state.extra_state@ =~= old(state)@.extra.update(0, report_bit(report, 26)).update(
        1,
        report_bit(report, 27),
    ));
}

/// Decoder for the 36-byte reports with one byte per ground cell.
pub fn decode_tasoller_two(buf: &Buffer, state: &mut ControllerState)
    requires
        buf.wf(),
    ensures
        final(state)@ == HardwareSpec::TasollerTwo.decode_view(buf.contents(), old(state)@),
{
    if buf.len != 36 {
        return;
    }
    let ghost report = buf.contents();
    let mut i: usize = 0;
    while i < 32
        invariant
            0 <= i <= 32,
            buf.len == 36,
            report == buf.contents(),
            state.ground_state@.len() == 32,
            forall|j: int| 0 <= j < i ==> state.ground_state@[j] == report[4 + j],
            state.air_state@ == old(state)@.air,
            state.extra_state@ == old(state)@.extra,
        decreases 32 - i,
    {
        state.ground_state[i] = buf.data[4 + i];
        i = i + 1;
    }
    let ghost g = state.ground_state@;
    assert(g =~= report.subrange(4, 36));
    state.flip_vert();
    let b = buf.data[3];
    let mut i: usize = 0;
    while i < 6
        invariant
            0 <= i <= 6,
            b == report[3],
            buf.len == 36,
            report == buf.contents(),
            state.air_state@.len() == 6,
            forall|j: int| 0 <= j < i ==> state.air_state@[j] == byte_bit(b, j),
            state.ground_state@ == flip_vert_seq(g),
            state.extra_state@ == old(state)@.extra,
        decreases 6 - i,
    {
        state.air_state[i] = (b >> (i as u8)) & 1u8;
        i = i + 1;
    }
    state.extra_state[0] = (b >> 6u8) & 1u8;
    state.extra_state[1] = (b >> 7u8) & 1u8;
    assert(state.air_state@ =~= Seq::new(6, |i: int| byte_bit(b, i)));
    assert(state.extra_state@ =~= old(state)@.extra.update(0, byte_bit(b, 6)).update(
        1,
        byte_bit(b, 7),
    ));
}

/// Decoder for the 34-byte reports with swapped air pairs and reversed buttons.
pub fn decode_yuancon(buf: &Buffer, state: &mut ControllerState)
    requires
        buf.wf(),
    ensures
        final(state)@ == HardwareSpec::Yuancon.decode_view(buf.contents(), old(state)@),
{
    if buf.len != 34 {
        return;
    }
    let ghost report = buf.contents();
    let mut i: usize = 0;
    while i < 32
        invariant
            0 <= i <= 32,
            buf.len == 34,
            report == buf.contents(),
            state.ground_state@.len() == 32,
            forall|j: int| 0 <= j < i ==> state.ground_state@[j] == report[2 + j],
        decreases 32 - i,
    {
        state.ground_state[i] = buf.data[2 + i];
        i = i + 1;
    }
    let b0 = buf.data[0];
    let mut i: usize = 0;
    while i < 6
        invariant
            0 <= i <= 6,
            i % 2 == 0,
            buf.len == 34,
            report == buf.contents(),
            b0 == report[0],
            state.ground_state@.len() == 32,
            state.air_state@.len() == 6,
            forall|j: int|
                0 <= j < i ==> state.air_state@[j] == byte_bit(b0, pair_mate(j)),
            forall|j: int| 0 <= j < 32 ==> state.ground_state@[j] == report[2 + j],
        decreases 6 - i,
    {
        state.air_state[i + 1] = (b0 >> (i as u8)) & 1u8;
        state.air_state[i] = (b0 >> ((i + 1) as u8)) & 1u8;
        i = i + 2;
    }
    let b1 = buf.data[1];
    let mut i: usize = 0;
    while i < 3
        invariant
            0 <= i <= 3,
            buf.len == 34,
            report == buf.contents(),
            b1 == report[1],
            state.ground_state@.len() == 32,
            state.air_state@.len() == 6,
            state.extra_state@.len() == 3,
            forall|j: int| 0 <= j < 32 ==> state.ground_state@[j] == report[2 + j],
            forall|j: int|
                0 <= j < 6 ==> state.air_state@[j] == byte_bit(b0, pair_mate(j)),
            b0 == report[0],
            forall|j: int| 2 - i < j < 3 ==> state.extra_state@[j] == byte_bit(b1, 2 - j),
        decreases 3 - i,
    {
        state.extra_state[2 - i] = (b1 >> (i as u8)) & 1u8;
        i = i + 1;
    }
    assert(state.ground_state@ =~= report.subrange(2, 34));
    assert(state.air_state@ =~= Seq::new(6, |j: int| byte_bit(report[0], pair_mate(j))));
    assert(state.extra_state@ =~= Seq::new(3, |j: int| byte_bit(report[1], 2 - j)));
}

/// Index of the first byte of the triplet sent in slot `k`: LEDs go out last first.
pub open spec fn led_base(k: int) -> int {
    3 * (30 - k)
}

/// A bulk frame: the header "BL\0", one (G, R, B) triplet per LED in reverse
/// order, then zeros up to 240 bytes.
pub open spec fn is_bulk_frame(out: Seq<u8>, led: Seq<u8>) -> bool {
    &&& out.len() == 240
    &&& out[0] == 66u8
    &&& out[1] == 76u8
    &&& out[2] == 0u8
    &&& forall|k: int|
        #![trigger led_base(k)]
        0 <= k < 31 ==> {
            &&& out[3 + 3 * k] == led[led_base(k) + 1]
            &&& out[3 + 3 * k + 1] == led[led_base(k)]
            &&& out[3 + 3 * k + 2] == led[led_base(k) + 2]
        }
    &&& forall|i: int| 96 <= i < 240 ==> out[i] == 0u8
}

/// The first byte of an interrupt-frame pair: red's low bits over blue's high bits.
pub open spec fn pack_rb(r: u8, b: u8) -> u8 {
    ((r << 3u8) & 0xe0u8) | (b >> 3u8)
}

/// The second byte of an interrupt-frame pair: green's high bits over red's top bits.
pub open spec fn pack_gr(g: u8, r: u8) -> u8 {
    (g & 0xf8u8) | (r >> 5u8)
}

/// An interrupt frame: two packed bytes per LED in reverse order, 62 bytes, no header.
pub open spec fn is_interrupt_frame(out: Seq<u8>, led: Seq<u8>) -> bool {
    &&& out.len() == 62
    &&& forall|k: int|
        #![trigger led_base(k)]
        0 <= k < 31 ==> {
            &&& out[2 * k] == pack_rb(led[led_base(k)], led[led_base(k) + 2])
            &&& out[2 * k + 1] == pack_gr(led[led_base(k) + 1], led[led_base(k)])
        }
}

/// Writes the bulk LED frame for `led` into `buf`.
pub fn encode_bulk_frame(buf: &mut Buffer, led: &LedState)
    ensures
        final(buf).wf(),
        is_bulk_frame(final(buf).contents(), led.led_state@),
{
    buf.len = 240;
    buf.data[0] = 66u8;
    buf.data[1] = 76u8;
    buf.data[2] = 0u8;
    let mut k: usize = 0;
    while k < 31
        invariant
            0 <= k <= 31,
            buf.len == 240,
            buf.data@.len() == 256,
            led.led_state@.len() == 93,
            buf.data@[0] == 66u8,
            buf.data@[1] == 76u8,
            buf.data@[2] == 0u8,
            forall|m: int|
                #![trigger led_base(m)]
                0 <= m < k ==> {
                    &&& buf.data@[3 + 3 * m] == led.led_state@[led_base(m) + 1]
                    &&& buf.data@[3 + 3 * m + 1] == led.led_state@[led_base(m)]
                    &&& buf.data@[3 + 3 * m + 2] == led.led_state@[led_base(m) + 2]
                },
        decreases 31 - k,
    {
        let base: usize = 3 * (30 - k);
        assert(base == led_base(k as int));
        buf.data[3 + 3 * k] = led.led_state[base + 1];
        buf.data[3 + 3 * k + 1] = led.led_state[base];
        buf.data[3 + 3 * k + 2] = led.led_state[base + 2];
        k = k + 1;
    }
    let mut i: usize = 96;
    while i < 240
        invariant
            96 <= i <= 240,
            buf.len == 240,
            buf.data@.len() == 256,
            led.led_state@.len() == 93,
            buf.data@[0] == 66u8,
            buf.data@[1] == 76u8,
            buf.data@[2] == 0u8,
            forall|m: int|
                #![trigger led_base(m)]
                0 <= m < 31 ==> {
                    &&& buf.data@[3 + 3 * m] == led.led_state@[led_base(m) + 1]
                    &&& buf.data@[3 + 3 * m + 1] == led.led_state@[led_base(m)]
                    &&& buf.data@[3 + 3 * m + 2] == led.led_state@[led_base(m) + 2]
                },
            forall|j: int| 96 <= j < i ==> buf.data@[j] == 0u8,
        decreases 240 - i,
    {
        buf.data[i] = 0u8;
        i = i + 1;
    }
}

/// Writes the interrupt LED frame for `led` into `buf`.
pub fn encode_interrupt_frame(buf: &mut Buffer, led: &LedState)
    ensures
        final(buf).wf(),
        is_interrupt_frame(final(buf).contents(), led.led_state@),
{
    buf.len = 62;
    let mut k: usize = 0;
    while k < 31
        invariant
            0 <= k <= 31,
            buf.len == 62,
            buf.data@.len() == 256,
            led.led_state@.len() == 93,
            forall|m: int|
                #![trigger led_base(m)]
                0 <= m < k ==> {
                    &&& buf.data@[2 * m] == pack_rb(
                        led.led_state@[led_base(m)],
                        led.led_state@[led_base(m) + 2],
                    )
                    &&& buf.data@[2 * m + 1] == pack_gr(
                        led.led_state@[led_base(m) + 1],
                        led.led_state@[led_base(m)],
                    )
                },
        decreases 31 - k,
    {
        let base: usize = 3 * (30 - k);
        assert(base == led_base(k as int));
        let r = led.led_state[base];
        let g = led.led_state[base + 1];
        let b = led.led_state[base + 2];
        buf.data[2 * k] = ((r << 3u8) & 0xe0u8) | (b >> 3u8);
        buf.data[2 * k + 1] = (g & 0xf8u8) | (r >> 5u8);
        k = k + 1;
    }
}

/// A report of the wrong length is ignored: decoding it changes nothing.
pub proof fn lemma_malformed_report_is_ignored(
    hardware: HardwareSpec,
    report: Seq<u8>,
    prev: ControllerView,
)
    requires
        report.len() != hardware.report_size(),
    ensures
        hardware.decode_view(report, prev) == prev,
{
}

} // verus!
