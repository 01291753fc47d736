//! Single-wire LED serial protocol: colors and pulse encoding.
//!
//! The strip's protocol sends each color as three bytes in wire order,
//! most-significant bit first, one high/low pulse pair per bit, with the
//! pulse widths chosen by a [`BitTiming`] profile. The output line is
//! modelled by [`PulseLine`], which records every emitted edge, so the
//! encoder's exact pulse train is stated and proved.

use vstd::prelude::*;

verus! {

broadcast use vstd::array::group_array_axioms;

/// A color sample. Stored in wire order (green, red, blue): the
/// logical-to-wire reordering happens once, at construction.
#[derive(Clone, Copy)]
pub struct LEDColor {
    grb: [u8; 3],
}

impl View for LEDColor {
    type V = Seq<u8>;

    /// The three channel bytes in wire order.
    closed spec fn view(&self) -> Seq<u8> {
        self.grb@
    }
}

impl LEDColor {
    /// The color with every channel dark.
    pub fn black() -> (c: Self)
        ensures
            c@ == seq![0u8, 0u8, 0u8],
    {
        Self::from_rgb(0x00, 0x00, 0x00)
    }

    /// Build a color from logical red/green/blue intensities.
    pub fn from_rgb(r: u8, g: u8, b: u8) -> (c: Self)
        ensures
            c@ == seq![g, r, b],
    {
        let c = Self { grb: [g, r, b] };
        proof {
            assert(c@ =~= seq![g, r, b]);
        }
        c
    }

    /// The channel bytes in the order the wire wants them.
    pub fn as_grb(&self) -> (channels: &[u8; 3])
        ensures
            channels@ == self@,
    {
        &self.grb
    }

    /// Mutable access to the green channel.
    pub fn g(&mut self) -> (channel: &mut u8)
        ensures
            *channel == old(self)@[0],
            final(self)@ == old(self)@.update(0, *final(channel)),
    {
        &mut self.grb[0]
    }

    /// Mutable access to the red channel.
    pub fn r(&mut self) -> (channel: &mut u8)
        ensures
            *channel == old(self)@[1],
            final(self)@ == old(self)@.update(1, *final(channel)),
    {
        &mut self.grb[1]
    }

    /// Mutable access to the blue channel.
    pub fn b(&mut self) -> (channel: &mut u8)
        ensures
            *channel == old(self)@[2],
            final(self)@ == old(self)@.update(2, *final(channel)),
    {
        &mut self.grb[2]
    }
}

/// Nominal bit period of the line protocol at the target clock, in cycles.
pub const BIT_PERIOD_CYCLES: u8 = 20;

/// Largest deviation from the nominal bit period the receivers tolerate,
/// in cycles.
pub const BIT_PERIOD_TOLERANCE_CYCLES: u8 = 6;

/// Pulse widths, in core clock cycles, for the two logical bit values:
/// a one is (long high, short low), a zero is (short high, long low).
#[derive(Clone, Copy)]
pub struct BitTiming {
    pub t1h: u8,
    pub t1l: u8,
    pub t0h: u8,
    pub t0l: u8,
}

impl BitTiming {
    /// A usable profile: every phase has some width, a one's high phase is
    /// longer than a zero's (and its low phase shorter), and each pair sums
    /// to the protocol's bit period within the device's clock tolerance.
    /// A low phase held in a `u8` cycle count stays far below the
    /// protocol's frame-reset threshold by type alone.
    pub open spec fn wf(self) -> bool {
        &&& self.t1h > 0 && self.t1l > 0 && self.t0h > 0 && self.t0l > 0
        &&& self.t1h > self.t0h
        &&& self.t0l > self.t1l
        &&& BIT_PERIOD_CYCLES - BIT_PERIOD_TOLERANCE_CYCLES <= self.t1h + self.t1l
            <= BIT_PERIOD_CYCLES + BIT_PERIOD_TOLERANCE_CYCLES
        &&& BIT_PERIOD_CYCLES - BIT_PERIOD_TOLERANCE_CYCLES <= self.t0h + self.t0l
            <= BIT_PERIOD_CYCLES + BIT_PERIOD_TOLERANCE_CYCLES
    }

    /// The profile the target's hand-counted pulse loops implement.
    pub fn target_profile() -> (t: BitTiming)
        ensures
            t.wf(),
            t.t1h == 12 && t.t1l == 7 && t.t0h == 4 && t.t0l == 12,
    {
        BitTiming { t1h: 12, t1l: 7, t0h: 4, t0l: 12 }
    }
}

/// One edge of the pulse train: the line is driven to `high` for `cycles`
/// core clock cycles.
#[derive(Clone, Copy, PartialEq, Eq, Structural, Debug)]
pub struct PulseEdge {
    pub high: bool,
    pub cycles: u8,
}

/// Model of the one output line the encoder owns: a record of every edge
/// driven onto it, in order.
pub struct PulseLine {
    pub edges: Vec<PulseEdge>,
}

impl PulseLine {
    /// A line on which nothing has been emitted yet.
    pub fn new() -> (line: Self)
        ensures
            line.edges@.len() == 0,
    {
        PulseLine { edges: Vec::new() }
    }
}

/// Bit `i` of `byte`, most-significant first (`i` ranges over `0..8`).
pub open spec fn spec_bit(byte: u8, i: int) -> bool {
    (byte >> ((7 - i) as u8)) & 1 == 1
}

/// The high/low pulse pair for one logical bit value.
pub open spec fn bit_edges(bit: bool, t: BitTiming) -> Seq<PulseEdge> {
    if bit {
        seq![
            PulseEdge { high: true, cycles: t.t1h },
            PulseEdge { high: false, cycles: t.t1l },
        ]
    } else {
        seq![
            PulseEdge { high: true, cycles: t.t0h },
            PulseEdge { high: false, cycles: t.t0l },
        ]
    }
}

/// Edges for the first `n` bits of `byte`, most-significant first.
pub open spec fn byte_edges_upto(byte: u8, t: BitTiming, n: int) -> Seq<PulseEdge>
    decreases n,
{
    if n <= 0 {
        Seq::empty()
    } else {
        byte_edges_upto(byte, t, n - 1) + bit_edges(spec_bit(byte, n - 1), t)
    }
}

/// Edges for all eight bits of `byte`.
pub open spec fn byte_edges(byte: u8, t: BitTiming) -> Seq<PulseEdge> {
    byte_edges_upto(byte, t, 8)
}

/// Edges for one color: its three wire-order bytes back to back.
pub open spec fn color_edges(grb: Seq<u8>, t: BitTiming) -> Seq<PulseEdge> {
    byte_edges(grb[0], t) + byte_edges(grb[1], t) + byte_edges(grb[2], t)
}

/// Edges for a whole frame of samples, in order, with zero gap.
pub open spec fn frame_edges(samples: Seq<LEDColor>, t: BitTiming) -> Seq<PulseEdge>
    decreases samples.len(),
{
    if samples.len() == 0 {
        Seq::empty()
    } else {
        frame_edges(samples.drop_last(), t) + color_edges(samples.last()@, t)
    }
}

/// Each bit contributes one high and one low edge.
pub proof fn lemma_byte_edges_upto_len(byte: u8, t: BitTiming, n: int)
    requires
        0 <= n,
    ensures
        byte_edges_upto(byte, t, n).len() == 2 * n,
    decreases n,
{
    if n > 0 {
        lemma_byte_edges_upto_len(byte, t, n - 1);
    }
}

/// A frame of `k` samples is exactly `2 * 8 * 3 * k` edges: a high and a
/// low edge per bit, eight bits per channel, three channels per sample.
pub proof fn lemma_frame_edges_len(samples: Seq<LEDColor>, t: BitTiming)
    ensures
        frame_edges(samples, t).len() == 2 * 8 * 3 * samples.len(),
    decreases samples.len(),
{
    if samples.len() > 0 {
        lemma_frame_edges_len(samples.drop_last(), t);
        lemma_byte_edges_upto_len(samples.last()@[0], t, 8);
        lemma_byte_edges_upto_len(samples.last()@[1], t, 8);
        lemma_byte_edges_upto_len(samples.last()@[2], t, 8);
        assert(frame_edges(samples.drop_last(), t).len() == 48 * (samples.len() - 1));
        assert(color_edges(samples.last()@, t).len() == 48);
        assert(frame_edges(samples, t).len() == 48 * samples.len());
    }
}

/// Emit the pulse pair for every bit of `byte`, most-significant first.
fn write_byte(line: &mut PulseLine, byte: u8, t: &BitTiming)
    requires
        t.wf(),
    ensures
        final(line).edges@ == old(line).edges@ + byte_edges(byte, *t),
{
    let mut i: usize = 0;
    while i < 8
        invariant
            i <= 8,
            line.edges@ == old(line).edges@ + byte_edges_upto(byte, *t, i as int),
        decreases 8 - i,
    {
        let shift: u8 = 7 - (i as u8);
        let bit_set = (byte & (1u8 << shift)) != 0;
        proof {
            let b = byte;
            let s = shift;
            assert(((b & (1u8 << s)) != 0) == ((b >> s) & 1 == 1)) by (bit_vector)
                requires
                    s < 8,
            ;
        }
        if bit_set {
            line.edges.push(PulseEdge { high: true, cycles: t.t1h });
            line.edges.push(PulseEdge { high: false, cycles: t.t1l });
        } else {
            line.edges.push(PulseEdge { high: true, cycles: t.t0h });
            line.edges.push(PulseEdge { high: false, cycles: t.t0l });
        }
        proof {
            assert(line.edges@ =~= old(line).edges@ + byte_edges_upto(byte, *t, i + 1));
        }
        i = i + 1;
    }
}

/// Emit one color onto the line: 48 edges, two per bit, with zero gap
/// between consecutive bits.
pub fn write_led(line: &mut PulseLine, color: LEDColor, t: &BitTiming)
    requires
        t.wf(),
    ensures
        final(line).edges@ == old(line).edges@ + color_edges(color@, *t),
        final(line).edges@.len() == old(line).edges@.len() + 2 * 8 * 3,
{
    let grb = color.as_grb();
    write_byte(line, grb[0], t);
    write_byte(line, grb[1], t);
    write_byte(line, grb[2], t);
    proof {
        assert(line.edges@ =~= old(line).edges@ + color_edges(color@, *t));
        lemma_byte_edges_upto_len(color@[0], *t, 8);
        lemma_byte_edges_upto_len(color@[1], *t, 8);
        lemma_byte_edges_upto_len(color@[2], *t, 8);
    }
}

/// Encode a whole frame: every sample's pulse train, in order. An empty
/// frame emits nothing.
pub fn encode_frame(line: &mut PulseLine, samples: &Vec<LEDColor>, t: &BitTiming)
    requires
        t.wf(),
    ensures
        final(line).edges@ == old(line).edges@ + frame_edges(samples@, *t),
        final(line).edges@.len() == old(line).edges@.len() + 2 * 8 * 3 * samples@.len(),
{
    let mut i: usize = 0;
    while i < samples.len()
        invariant
            i <= samples@.len(),
            t.wf(),
            line.edges@ == old(line).edges@ + frame_edges(samples@.take(i as int), *t),
        decreases samples@.len() - i,
    {
        write_led(line, samples[i], t);
        proof {
            assert(samples@.take(i + 1).drop_last() =~= samples@.take(i as int));
            assert(samples@.take(i + 1).last() == samples@[i as int]);
            assert(line.edges@ =~= old(line).edges@ + frame_edges(samples@.take(i + 1), *t));
        }
        i = i + 1;
    }
    proof {
        assert(samples@.take(samples@.len() as int) =~= samples@);
        lemma_frame_edges_len(samples@, *t);
    }
}

/// Saturating add, as the channel arithmetic uses it.
pub open spec fn sat_add(a: u8, b: u8) -> u8 {
    if a + b > 0xFF {
        0xFF
    } else {
        (a + b) as u8
    }
}

/// Saturating subtract, as the channel arithmetic uses it.
pub open spec fn sat_sub(a: u8, b: u8) -> u8 {
    if a - b < 0 {
        0
    } else {
        (a - b) as u8
    }
}

/// One step of the hue walk on a wire-order color: each channel is nudged
/// up or down by `speed` depending on which corner of the color wheel the
/// other two channels sit at, in the fixed order green, blue, red, each
/// test reading the channels as already updated by the earlier steps.
pub open spec fn hue_step(grb: Seq<u8>, speed: u8) -> Seq<u8> {
    let g0 = grb[0];
    let r0 = grb[1];
    let b0 = grb[2];
    let g1 = sat_add(g0, if r0 == 0xFF && b0 == 0x00 { speed } else { 0 });
    let g2 = sat_sub(g1, if b0 == 0xFF && r0 == 0x00 { speed } else { 0 });
    let b1 = sat_add(b0, if g2 == 0xFF && r0 == 0x00 { speed } else { 0 });
    let b2 = sat_sub(b1, if r0 == 0xFF && g2 == 0x00 { speed } else { 0 });
    let r1 = sat_add(r0, if b2 == 0xFF && g2 == 0x00 { speed } else { 0 });
    let r2 = sat_sub(r1, if g2 == 0xFF && b2 == 0x00 { speed } else { 0 });
    seq![g2, r2, b2]
}

/// Advance `color` one step along the hue walk.
pub fn hue_cycle(color: &mut LEDColor, speed: u8)
    ensures
        final(color)@ == hue_step(old(color)@, speed),
{
    let mut g = color.grb[0];
    let r0 = color.grb[1];
    let mut b = color.grb[2];
    g = g.saturating_add(if r0 == 0xFF && b == 0x00 { speed } else { 0 });
    g = g.saturating_sub(if b == 0xFF && r0 == 0x00 { speed } else { 0 });
    b = b.saturating_add(if g == 0xFF && r0 == 0x00 { speed } else { 0 });
    b = b.saturating_sub(if r0 == 0xFF && g == 0x00 { speed } else { 0 });
    let mut r = r0;
    r = r.saturating_add(if b == 0xFF && g == 0x00 { speed } else { 0 });
    r = r.saturating_sub(if g == 0xFF && b == 0x00 { speed } else { 0 });
    color.grb = [g, r, b];
    proof {
        assert(color@ =~= hue_step(old(color)@, speed));
    }
}

/// The color after `n` hue steps from `start`.
pub open spec fn hue_iter(start: Seq<u8>, speed: u8, n: int) -> Seq<u8>
    decreases n,
{
    if n <= 0 {
        start
    } else {
        hue_step(hue_iter(start, speed, n - 1), speed)
    }
}

/// The samples of one animated frame: `count` colors walking the hue
/// wheel from `start` at `speed`.
pub fn hue_frame(start: LEDColor, count: u16, speed: u8) -> (frame: Vec<LEDColor>)
    ensures
        frame@.len() == count,
        forall|i: int| 0 <= i < count ==> (#[trigger] frame@[i])@ == hue_iter(start@, speed, i),
{
    let mut frame: Vec<LEDColor> = Vec::new();
    let mut current = start;
    let mut i: u16 = 0;
    while i < count
        invariant
            i <= count,
            frame@.len() == i,
            current@ == hue_iter(start@, speed, i as int),
            forall|j: int| 0 <= j < i ==> (#[trigger] frame@[j])@ == hue_iter(start@, speed, j),
        decreases count - i,
    {
        frame.push(current);
        hue_cycle(&mut current, speed);
        i = i + 1;
    }
    frame
}

} // verus!
