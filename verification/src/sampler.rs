//! The ore-vein sampler: a deterministic, position-seeded decision procedure
//! that tells a chunk generator, voxel by voxel, whether to override a block
//! and with which of the selected vein's three blocks.
//!
//! The sampler's numeric tests run on IEEE-754 floats, which stay outside the
//! verified library. Everything the floats decide enters here as a boolean
//! event, and everything else — vein selection, the vertical band gate, the
//! order of router queries and RNG draws, and the final choice of block — is
//! verified. A `SampleRun` is a small state machine: the driver asks it for
//! the next [`SampleAction`] (a router query, an RNG draw, or a numeric gate),
//! performs it, and hands back the outcome as a [`SampleEvent`] until the
//! action is [`SampleAction::Finish`].
use vstd::prelude::*;

use crate::vein::BlockKind;
use crate::vein::VeinType;
use crate::vein::copper;
use crate::vein::copper_spec;
use crate::vein::iron;
use crate::vein::iron_spec;
use crate::vein::MAX_Y;
use crate::vein::MIN_Y;

verus! {

/// An immutable seed holder. Splitting it at a position (outside this
/// library) yields a deterministic RNG whose stream depends only on the seed
/// and the position.
#[derive(Clone, Copy, Debug, PartialEq, Eq, Structural)]
pub struct RandomDeriver {
    pub seed: i64,
}

/// The sampler: owns the random deriver whose position-derived streams gate
/// ore placement. Immutable after construction.
#[derive(Clone, Copy, Debug, PartialEq, Eq, Structural)]
pub struct OreVeinSampler {
    pub random_deriver: RandomDeriver,
}

/// What the driver must do next for a sample run.
#[derive(Clone, Copy, Debug, PartialEq, Eq)]
pub enum SampleAction {
    /// Query the router's `vein_toggle` density at the run's position and
    /// report whether it is strictly positive.
    QueryVeinToggle,
    /// Evaluate the entry gate: with `mapped_diff` the clamped linear map of
    /// `closest` from [0, 20] to [-0.2, 0.0] in doubles, report whether
    /// `|vein_toggle| + mapped_diff >= 0.4f32 as f64`.
    EvalEntryGate { closest: i32 },
    /// Split the deriver at `(x, y, z)`, draw the first `f32` from the derived
    /// RNG, and report whether it is `<= 0.7f32`.
    SplitAndDrawFirst { x: i32, y: i32, z: i32 },
    /// Query the router's `vein_ridged` density and report whether it is
    /// strictly negative.
    QueryVeinRidged,
    /// Evaluate the ore gate: compute `clamped_sample` (the clamped linear map
    /// of `|vein_toggle|` from [0.4, 0.6] to [0.1, 0.3], all bounds f32
    /// literals widened to doubles), query the router's `vein_gap` density,
    /// draw the second `f32`, and report whether the draw (as a double) is
    /// `< clamped_sample` and `vein_gap > -0.3f32 as f64`.
    EvalOreGate,
    /// Draw the third `f32` and report whether it is `< 0.02f32`.
    DrawRawCheck,
    /// The run is over: `None` leaves the voxel alone, `Some` overrides it.
    Finish { result: Option<BlockKind> },
}

/// The driver's answer to the pending action, always a single boolean: the
/// floats themselves never cross into the verified machine.
#[derive(Clone, Copy, Debug, PartialEq, Eq, Structural)]
pub enum SampleEvent {
    /// `vein_toggle > 0` (strict, so an exact zero selects iron).
    VeinToggleSign { positive: bool },
    /// `|vein_toggle| + mapped_diff >= 0.4f32 as f64`.
    EntryGate { pass: bool },
    /// First RNG draw `<= 0.7f32`.
    FirstDraw { within: bool },
    /// `vein_ridged < 0` (an exact zero rejects).
    RidgedSample { negative: bool },
    /// Second draw below `clamped_sample` and `vein_gap > -0.3f32 as f64`
    /// (an exactly equal gap rejects).
    OreGate { open: bool },
    /// Third draw `< 0.02f32`.
    RawCheck { raw: bool },
}

/// Where a run stands: which answer it is waiting for, or its result.
#[derive(Clone, Copy, Debug, PartialEq, Eq)]
pub enum SamplePhase {
    AwaitToggle,
    AwaitEntryGate { vein: VeinType },
    AwaitFirstDraw { vein: VeinType },
    AwaitRidged { vein: VeinType },
    AwaitOreGate { vein: VeinType },
    AwaitRawCheck { vein: VeinType },
    Done { result: Option<BlockKind> },
}

/// One in-flight evaluation of the sampler at a voxel position. `draws`
/// counts the RNG draws made so far: each of `SplitAndDrawFirst`,
/// `EvalOreGate` and `DrawRawCheck` makes exactly one.
#[derive(Clone, Copy, Debug, PartialEq, Eq)]
pub struct SampleRun {
    pub x: i32,
    pub y: i32,
    pub z: i32,
    pub phase: SamplePhase,
    pub draws: u32,
}

/// The vein the toggle density selects: copper on a strictly positive
/// toggle, iron otherwise.
pub open spec fn spec_vein(toggle_positive: bool) -> VeinType {
    if toggle_positive {
        copper_spec()
    } else {
        iron_spec()
    }
}

/// Whether `y` lies in the vein's inclusive vertical band.
pub open spec fn spec_in_band(vein: VeinType, y: int) -> bool {
    vein.min_y <= y && y <= vein.max_y
}

/// Distance from `y` to the nearer edge of the vein's band.
pub open spec fn spec_closest(vein: VeinType, y: int) -> int {
    let max_to_y = vein.max_y - y;
    let y_to_min = y - vein.min_y;
    if max_to_y <= y_to_min {
        max_to_y
    } else {
        y_to_min
    }
}

/// Whether the event answers the question the phase is waiting on.
pub open spec fn event_matches(phase: SamplePhase, event: SampleEvent) -> bool {
    match phase {
        SamplePhase::AwaitToggle => event is VeinToggleSign,
        SamplePhase::AwaitEntryGate { .. } => event is EntryGate,
        SamplePhase::AwaitFirstDraw { .. } => event is FirstDraw,
        SamplePhase::AwaitRidged { .. } => event is RidgedSample,
        SamplePhase::AwaitOreGate { .. } => event is OreGate,
        SamplePhase::AwaitRawCheck { .. } => event is RawCheck,
        SamplePhase::Done { .. } => false,
    }
}

/// A fresh run at position `(x, y, z)`: no draws yet, waiting on the toggle.
pub open spec fn spec_begin(x: i32, y: i32, z: i32) -> SampleRun {
    SampleRun { x, y, z, phase: SamplePhase::AwaitToggle, draws: 0 }
}

/// The machine's transition function. Each arm is one step of the sampling
/// algorithm; an event that does not match the phase leaves the run unchanged
/// (the executable `step` excludes that case by precondition).
pub open spec fn spec_step(run: SampleRun, event: SampleEvent) -> SampleRun {
    match (run.phase, event) {
        (SamplePhase::AwaitToggle, SampleEvent::VeinToggleSign { positive }) => {
            let vein = spec_vein(positive);
            if spec_in_band(vein, run.y as int) {
                SampleRun { phase: SamplePhase::AwaitEntryGate { vein }, ..run }
            } else {
                SampleRun { phase: SamplePhase::Done { result: None }, ..run }
            }
        },
        (SamplePhase::AwaitEntryGate { vein }, SampleEvent::EntryGate { pass }) => {
            if pass {
                SampleRun { phase: SamplePhase::AwaitFirstDraw { vein }, ..run }
            } else {
                SampleRun { phase: SamplePhase::Done { result: None }, ..run }
            }
        },
        (SamplePhase::AwaitFirstDraw { vein }, SampleEvent::FirstDraw { within }) => {
            let drawn = SampleRun { draws: (run.draws + 1) as u32, ..run };
            if within {
                SampleRun { phase: SamplePhase::AwaitRidged { vein }, ..drawn }
            } else {
                SampleRun { phase: SamplePhase::Done { result: None }, ..drawn }
            }
        },
        (SamplePhase::AwaitRidged { vein }, SampleEvent::RidgedSample { negative }) => {
            if negative {
                SampleRun { phase: SamplePhase::AwaitOreGate { vein }, ..run }
            } else {
                SampleRun { phase: SamplePhase::Done { result: None }, ..run }
            }
        },
        (SamplePhase::AwaitOreGate { vein }, SampleEvent::OreGate { open }) => {
            let drawn = SampleRun { draws: (run.draws + 1) as u32, ..run };
            if open {
                SampleRun { phase: SamplePhase::AwaitRawCheck { vein }, ..drawn }
            } else {
                SampleRun { phase: SamplePhase::Done { result: Some(vein.stone) }, ..drawn }
            }
        },
        (SamplePhase::AwaitRawCheck { vein }, SampleEvent::RawCheck { raw }) => {
            let drawn = SampleRun { draws: (run.draws + 1) as u32, ..run };
            let block = if raw {
                vein.raw_ore
            } else {
                vein.ore
            };
            SampleRun { phase: SamplePhase::Done { result: Some(block) }, ..drawn }
        },
        _ => run,
    }
}

/// What the driver must do next, given where the run stands.
pub open spec fn spec_action(run: SampleRun) -> SampleAction {
    match run.phase {
        SamplePhase::AwaitToggle => SampleAction::QueryVeinToggle,
        SamplePhase::AwaitEntryGate { vein } => SampleAction::EvalEntryGate {
            closest: spec_closest(vein, run.y as int) as i32,
        },
        SamplePhase::AwaitFirstDraw { .. } => SampleAction::SplitAndDrawFirst {
            x: run.x,
            y: run.y,
            z: run.z,
        },
        SamplePhase::AwaitRidged { .. } => SampleAction::QueryVeinRidged,
        SamplePhase::AwaitOreGate { .. } => SampleAction::EvalOreGate,
        SamplePhase::AwaitRawCheck { .. } => SampleAction::DrawRawCheck,
        SamplePhase::Done { result } => SampleAction::Finish { result },
    }
}

impl SampleRun {
    /// Every reachable run satisfies this: the selected vein is one of the
    /// two catalog entries, the position is inside its band past the first
    /// gate, and the draw counter matches the phase.
    pub open spec fn wf(self) -> bool {
        match self.phase {
            SamplePhase::AwaitToggle => self.draws == 0,
            SamplePhase::AwaitEntryGate { vein } => {
                &&& (vein == copper_spec() || vein == iron_spec())
                &&& spec_in_band(vein, self.y as int)
                &&& self.draws == 0
            },
            SamplePhase::AwaitFirstDraw { vein } => {
                &&& (vein == copper_spec() || vein == iron_spec())
                &&& spec_in_band(vein, self.y as int)
                &&& self.draws == 0
            },
            SamplePhase::AwaitRidged { vein } => {
                &&& (vein == copper_spec() || vein == iron_spec())
                &&& spec_in_band(vein, self.y as int)
                &&& self.draws == 1
            },
            SamplePhase::AwaitOreGate { vein } => {
                &&& (vein == copper_spec() || vein == iron_spec())
                &&& spec_in_band(vein, self.y as int)
                &&& self.draws == 1
            },
            SamplePhase::AwaitRawCheck { vein } => {
                &&& (vein == copper_spec() || vein == iron_spec())
                &&& spec_in_band(vein, self.y as int)
                &&& self.draws == 2
            },
            SamplePhase::Done { .. } => self.draws <= 3,
        }
    }

    /// The action the driver must perform next.
    pub fn action(&self) -> (a: SampleAction)
        requires
            self.wf(),
        ensures
            a == spec_action(*self),
    {
        match self.phase {
            SamplePhase::AwaitToggle => SampleAction::QueryVeinToggle,
            SamplePhase::AwaitEntryGate { vein } => {
                let max_to_y: i64 = vein.max_y as i64 - self.y as i64;
                let y_to_min: i64 = self.y as i64 - vein.min_y as i64;
                let closest: i64 = if max_to_y <= y_to_min {
                    max_to_y
                } else {
                    y_to_min
                };
                SampleAction::EvalEntryGate { closest: closest as i32 }
            },
            SamplePhase::AwaitFirstDraw { .. } => SampleAction::SplitAndDrawFirst {
                x: self.x,
                y: self.y,
                z: self.z,
            },
            SamplePhase::AwaitRidged { .. } => SampleAction::QueryVeinRidged,
            SamplePhase::AwaitOreGate { .. } => SampleAction::EvalOreGate,
            SamplePhase::AwaitRawCheck { .. } => SampleAction::DrawRawCheck,
            SamplePhase::Done { result } => SampleAction::Finish { result },
        }
    }

    /// Advance the run by one answered action.
    pub fn step(&mut self, event: SampleEvent)
        requires
            old(self).wf(),
            event_matches(old(self).phase, event),
        ensures
            *final(self) == spec_step(*old(self), event),
            final(self).wf(),
    {
        let current = *self;
        match (current.phase, event) {
            (SamplePhase::AwaitToggle, SampleEvent::VeinToggleSign { positive }) => {
                let vein = if positive {
                    copper()
                } else {
                    iron()
                };
                if vein.min_y <= self.y && self.y <= vein.max_y {
                    self.phase = SamplePhase::AwaitEntryGate { vein };
                } else {
                    self.phase = SamplePhase::Done { result: None };
                }
            },
            (SamplePhase::AwaitEntryGate { vein }, SampleEvent::EntryGate { pass }) => {
                if pass {
                    self.phase = SamplePhase::AwaitFirstDraw { vein };
                } else {
                    self.phase = SamplePhase::Done { result: None };
                }
            },
            (SamplePhase::AwaitFirstDraw { vein }, SampleEvent::FirstDraw { within }) => {
                self.draws = self.draws + 1;
                if within {
                    self.phase = SamplePhase::AwaitRidged { vein };
                } else {
                    self.phase = SamplePhase::Done { result: None };
                }
            },
            (SamplePhase::AwaitRidged { vein }, SampleEvent::RidgedSample { negative }) => {
                if negative {
                    self.phase = SamplePhase::AwaitOreGate { vein };
                } else {
                    self.phase = SamplePhase::Done { result: None };
                }
            },
            (SamplePhase::AwaitOreGate { vein }, SampleEvent::OreGate { open }) => {
                self.draws = self.draws + 1;
                if open {
                    self.phase = SamplePhase::AwaitRawCheck { vein };
                } else {
                    self.phase = SamplePhase::Done { result: Some(vein.stone) };
                }
            },
            (SamplePhase::AwaitRawCheck { vein }, SampleEvent::RawCheck { raw }) => {
                self.draws = self.draws + 1;
                let block = if raw {
                    vein.raw_ore
                } else {
                    vein.ore
                };
                self.phase = SamplePhase::Done { result: Some(block) };
            },
            _ => {},
        }
    }
}

/// The sampler's decision table: the outcome of a run as a function of the
/// six boolean answers. `in_band` abbreviates the vertical-band test on the
/// selected vein; the remaining booleans are the gates in the order the
/// machine asks them.
pub open spec fn spec_sample_result(
    toggle_positive: bool,
    in_band: bool,
    entry_pass: bool,
    first_within: bool,
    ridged_negative: bool,
    ore_open: bool,
    raw: bool,
) -> Option<BlockKind> {
    let vein = spec_vein(toggle_positive);
    if !in_band {
        None
    } else if !entry_pass {
        None
    } else if !first_within {
        None
    } else if !ridged_negative {
        None
    } else if ore_open {
        if raw {
            Some(vein.raw_ore)
        } else {
            Some(vein.ore)
        }
    } else {
        Some(vein.stone)
    }
}

/// How many RNG draws a run makes, as a function of where it stops: none up
/// to the entry gate, one through the first draw and the ridged query, two
/// when the ore gate stays shut, three when it opens.
pub open spec fn spec_draw_count(
    in_band: bool,
    entry_pass: bool,
    first_within: bool,
    ridged_negative: bool,
    ore_open: bool,
) -> nat {
    if !in_band || !entry_pass {
        0
    } else if !first_within {
        1
    } else if !ridged_negative {
        1
    } else if !ore_open {
        2
    } else {
        3
    }
}

/// A whole run of the machine, folded over the events a driver would hand
/// back when the floats evaluate to the given booleans. Events past the
/// run's end are not delivered: the fold stops at `Done`.
pub open spec fn spec_run_all(
    x: i32,
    y: i32,
    z: i32,
    toggle_positive: bool,
    entry_pass: bool,
    first_within: bool,
    ridged_negative: bool,
    ore_open: bool,
    raw: bool,
) -> SampleRun {
    let r1 = spec_step(spec_begin(x, y, z), SampleEvent::VeinToggleSign { positive: toggle_positive });
    if r1.phase is Done {
        r1
    } else {
        let r2 = spec_step(r1, SampleEvent::EntryGate { pass: entry_pass });
        if r2.phase is Done {
            r2
        } else {
            let r3 = spec_step(r2, SampleEvent::FirstDraw { within: first_within });
            if r3.phase is Done {
                r3
            } else {
                let r4 = spec_step(r3, SampleEvent::RidgedSample { negative: ridged_negative });
                if r4.phase is Done {
                    r4
                } else {
                    let r5 = spec_step(r4, SampleEvent::OreGate { open: ore_open });
                    if r5.phase is Done {
                        r5
                    } else {
                        spec_step(r5, SampleEvent::RawCheck { raw })
                    }
                }
            }
        }
    }
}

/// Law: a full run always terminates in `Done`, its outcome is exactly the
/// decision table's, and its draw counter is exactly the table's draw count.
pub proof fn lemma_run_complete(
    x: i32,
    y: i32,
    z: i32,
    toggle_positive: bool,
    entry_pass: bool,
    first_within: bool,
    ridged_negative: bool,
    ore_open: bool,
    raw: bool,
)
    ensures
        ({
            let end = spec_run_all(
                x, y, z, toggle_positive, entry_pass, first_within, ridged_negative, ore_open, raw,
            );
            let in_band = spec_in_band(spec_vein(toggle_positive), y as int);
            &&& end.phase == (SamplePhase::Done {
                result: spec_sample_result(
                    toggle_positive, in_band, entry_pass, first_within, ridged_negative, ore_open, raw,
                ),
            })
            &&& end.draws == spec_draw_count(
                in_band, entry_pass, first_within, ridged_negative, ore_open,
            )
            &&& end.x == x && end.y == y && end.z == z
        }),
{
}

/// Law: a position whose height lies outside the global vein bounds is
/// rejected whatever the router and the RNG would have produced, and the run
/// makes no RNG draw at all.
pub proof fn lemma_out_of_bounds_rejects(
    x: i32,
    y: i32,
    z: i32,
    toggle_positive: bool,
    entry_pass: bool,
    first_within: bool,
    ridged_negative: bool,
    ore_open: bool,
    raw: bool,
)
    requires
        y < MIN_Y || y > MAX_Y,
    ensures
        ({
            let end = spec_run_all(
                x, y, z, toggle_positive, entry_pass, first_within, ridged_negative, ore_open, raw,
            );
            &&& end.phase == (SamplePhase::Done { result: Option::<BlockKind>::None })
            &&& end.draws == 0
        }),
{
}

/// Whether a block belongs to the copper vein's three-block set.
pub open spec fn is_copper_block(b: BlockKind) -> bool {
    b == BlockKind::CopperOre || b == BlockKind::RawCopperBlock || b == BlockKind::Granite
}

/// Whether a block belongs to the iron vein's three-block set.
pub open spec fn is_iron_block(b: BlockKind) -> bool {
    b == BlockKind::DeepslateIronOre || b == BlockKind::RawIronBlock || b == BlockKind::Tuff
}

/// Law: when the sampler places a block, that block belongs to exactly one
/// vein's three-block set — the copper set when the toggle was strictly
/// positive, the iron set otherwise, never both.
pub proof fn lemma_vein_selection(
    toggle_positive: bool,
    in_band: bool,
    entry_pass: bool,
    first_within: bool,
    ridged_negative: bool,
    ore_open: bool,
    raw: bool,
)
    ensures
        ({
            let r = spec_sample_result(
                toggle_positive, in_band, entry_pass, first_within, ridged_negative, ore_open, raw,
            );
            r matches Some(b) ==> {
                &&& is_copper_block(b) <==> toggle_positive
                &&& is_iron_block(b) <==> !toggle_positive
                &&& !(is_copper_block(b) && is_iron_block(b))
            }
        }),
{
}

/// Law: the RNG-draw economy. A run draws nothing when the band or the entry
/// gate rejects, once when the first draw or the ridged density rejects,
/// twice when the ore gate stays shut (host stone), three times when it opens
/// (ore or raw ore). In particular the first draw is made before the ridged
/// density is consulted.
pub proof fn lemma_draw_economy(
    in_band: bool,
    entry_pass: bool,
    first_within: bool,
    ridged_negative: bool,
    ore_open: bool,
)
    ensures
        (!in_band || !entry_pass) ==> spec_draw_count(
            in_band, entry_pass, first_within, ridged_negative, ore_open,
        ) == 0,
        (in_band && entry_pass && !first_within) ==> spec_draw_count(
            in_band, entry_pass, first_within, ridged_negative, ore_open,
        ) == 1,
        (in_band && entry_pass && first_within && !ridged_negative) ==> spec_draw_count(
            in_band, entry_pass, first_within, ridged_negative, ore_open,
        ) == 1,
        (in_band && entry_pass && first_within && ridged_negative && !ore_open) ==> spec_draw_count(
            in_band, entry_pass, first_within, ridged_negative, ore_open,
        ) == 2,
        (in_band && entry_pass && first_within && ridged_negative && ore_open) ==> spec_draw_count(
            in_band, entry_pass, first_within, ridged_negative, ore_open,
        ) == 3,
{
}

/// Law: the sampler is deterministic and idempotent. Two runs given equal
/// positions and equal boolean answers end in equal states — the same
/// outcome and the same number of RNG draws.
pub proof fn lemma_deterministic(
    x1: i32,
    y1: i32,
    z1: i32,
    t1: bool,
    e1: bool,
    f1: bool,
    n1: bool,
    o1: bool,
    w1: bool,
    x2: i32,
    y2: i32,
    z2: i32,
    t2: bool,
    e2: bool,
    f2: bool,
    n2: bool,
    o2: bool,
    w2: bool,
)
    requires
        x1 == x2,
        y1 == y2,
        z1 == z2,
        t1 == t2,
        e1 == e2,
        f1 == f2,
        n1 == n2,
        o1 == o2,
        w1 == w2,
    ensures
        spec_run_all(x1, y1, z1, t1, e1, f1, n1, o1, w1) == spec_run_all(
            x2, y2, z2, t2, e2, f2, n2, o2, w2,
        ),
{
}

/// Exact-arithmetic model of the band penalty `clamped_map(closest as f64,
/// 0.0, 20.0, -0.2, 0.0)`, scaled by 100 to stay in integers: -20 at a band
/// edge, 0 from twenty blocks inward, linear in between. The endpoints are
/// bit-exact in the double evaluation; interior points follow it up to
/// rounding.
pub open spec fn band_penalty_hundredths(closest: int) -> int {
    if closest <= 0 {
        -20
    } else if closest >= 20 {
        0
    } else {
        closest - 20
    }
}

/// Law: the band penalty is monotone. Moving inward from a band edge never
/// strengthens the entry rejection: the penalty rises from -20 hundredths
/// (-0.2) at the edge to 0 twenty blocks in, and saturates there.
pub proof fn lemma_band_penalty_monotone(c1: int, c2: int)
    requires
        0 <= c1 <= c2,
    ensures
        band_penalty_hundredths(c1) <= band_penalty_hundredths(c2),
        band_penalty_hundredths(0) == -20,
        c1 >= 20 ==> band_penalty_hundredths(c1) == 0,
{
}

/// Law: at a band's edge the distance to the nearer bound is zero, so the
/// entry penalty is at its strongest; this holds at the copper ceiling and,
/// symmetrically, at the iron floor.
pub proof fn lemma_band_edge()
    ensures
        spec_closest(copper_spec(), copper_spec().max_y as int) == 0,
        spec_closest(iron_spec(), iron_spec().min_y as int) == 0,
        band_penalty_hundredths(spec_closest(copper_spec(), copper_spec().max_y as int)) == -20,
        band_penalty_hundredths(spec_closest(iron_spec(), iron_spec().min_y as int)) == -20,
{
}

impl OreVeinSampler {
    pub fn new(random_deriver: RandomDeriver) -> (s: Self)
        ensures
            s.random_deriver == random_deriver,
    {
        Self { random_deriver }
    }

    /// Open a sample run at voxel position `(x, y, z)`.
    pub fn begin_sample(&self, x: i32, y: i32, z: i32) -> (run: SampleRun)
        ensures
            run == spec_begin(x, y, z),
            run.wf(),
    {
        SampleRun { x, y, z, phase: SamplePhase::AwaitToggle, draws: 0 }
    }
}

} // verus!
