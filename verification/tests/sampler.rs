use pumpkin_core::sampler::{
    OreVeinSampler, RandomDeriver, SampleAction, SampleEvent, SampleRun,
};
use pumpkin_core::vein::{copper, iron, BlockKind, MAX_Y, MIN_Y};

/// Piecewise-linear map from [a, b] to [c, d] with saturation outside, in
/// doubles — the numeric companion the sampler's gates are evaluated with.
fn clamped_map(x: f64, a: f64, b: f64, c: f64, d: f64) -> f64 {
    if x <= a {
        c
    } else if x >= b {
        d
    } else {
        c + (d - c) * (x - a) / (b - a)
    }
}

/// Drive one sample run: constant router densities, a scripted RNG stream.
/// Returns the outcome and how many draws the run consumed.
fn drive(
    sampler: &OreVeinSampler,
    pos: (i32, i32, i32),
    vein_toggle: f64,
    vein_ridged: f64,
    vein_gap: f64,
    rng: &[f32],
) -> (Option<BlockKind>, u32) {
    let mut next_draw: usize = 0;
    let mut run: SampleRun = sampler.begin_sample(pos.0, pos.1, pos.2);
    loop {
        match run.action() {
            SampleAction::Finish { result } => return (result, run.draws),
            SampleAction::QueryVeinToggle => run.step(SampleEvent::VeinToggleSign {
                positive: vein_toggle > 0f64,
            }),
            SampleAction::EvalEntryGate { closest } => {
                let mapped_diff = clamped_map(closest as f64, 0f64, 20f64, -0.2f64, 0f64);
                let abs_sample = vein_toggle.abs();
                run.step(SampleEvent::EntryGate {
                    pass: abs_sample + mapped_diff >= 0.4f32 as f64,
                });
            }
            SampleAction::SplitAndDrawFirst { .. } => {
                let r1 = rng[next_draw];
                next_draw += 1;
                run.step(SampleEvent::FirstDraw { within: r1 <= 0.7f32 });
            }
            SampleAction::QueryVeinRidged => run.step(SampleEvent::RidgedSample {
                negative: vein_ridged < 0f64,
            }),
            SampleAction::EvalOreGate => {
                let abs_sample = vein_toggle.abs();
                let clamped_sample = clamped_map(
                    abs_sample,
                    0.4f32 as f64,
                    0.6f32 as f64,
                    0.1f32 as f64,
                    0.3f32 as f64,
                );
                let r2 = rng[next_draw];
                next_draw += 1;
                run.step(SampleEvent::OreGate {
                    open: (r2 as f64) < clamped_sample && vein_gap > (-0.3f32) as f64,
                });
            }
            SampleAction::DrawRawCheck => {
                let r3 = rng[next_draw];
                next_draw += 1;
                run.step(SampleEvent::RawCheck { raw: r3 < 0.02f32 });
            }
        }
    }
}

fn sampler() -> OreVeinSampler {
    OreVeinSampler::new(RandomDeriver { seed: 0 })
}

#[test]
fn catalog_blocks_and_bands() {
    let c = copper();
    assert_eq!(c.ore, BlockKind::CopperOre);
    assert_eq!(c.raw_ore, BlockKind::RawCopperBlock);
    assert_eq!(c.stone, BlockKind::Granite);
    assert_eq!(c.min_y, 0);
    assert_eq!(c.max_y, 50);
    let i = iron();
    assert_eq!(i.ore, BlockKind::DeepslateIronOre);
    assert_eq!(i.raw_ore, BlockKind::RawIronBlock);
    assert_eq!(i.stone, BlockKind::Tuff);
    assert_eq!(i.min_y, -60);
    assert_eq!(i.max_y, -8);
    assert_eq!(MIN_Y, i.min_y);
    assert_eq!(MAX_Y, c.max_y);
}

#[test]
fn sampler_holds_its_deriver() {
    let s = OreVeinSampler::new(RandomDeriver { seed: 42 });
    assert_eq!(s.random_deriver.seed, 42);
}

#[test]
fn below_min_y_rejects_without_draws() {
    let (result, draws) = drive(&sampler(), (0, -100, 0), 0.9, -0.9, 0.9, &[]);
    assert_eq!(result, None);
    assert_eq!(draws, 0);
}

#[test]
fn above_max_y_rejects_without_draws() {
    for y in [51, 80, 1000] {
        let (result, draws) = drive(&sampler(), (0, y, 0), 0.9, -0.9, 0.9, &[]);
        assert_eq!(result, None);
        assert_eq!(draws, 0);
    }
}

#[test]
fn copper_ore_path_three_draws() {
    // Vein toggle 0.5 selects copper; closest = 25 so no band penalty; the
    // second draw 0.1 lies below clamped_sample = 0.2 and the gap passes.
    let (result, draws) = drive(&sampler(), (0, 25, 0), 0.5, -0.1, 0.0, &[0.5, 0.1, 0.5]);
    assert_eq!(result, Some(BlockKind::CopperOre));
    assert_eq!(draws, 3);
}

#[test]
fn raw_copper_on_small_third_draw() {
    let (result, draws) = drive(&sampler(), (0, 25, 0), 0.5, -0.1, 0.0, &[0.5, 0.1, 0.01]);
    assert_eq!(result, Some(BlockKind::RawCopperBlock));
    assert_eq!(draws, 3);
}

#[test]
fn nonnegative_ridged_rejects_after_one_draw() {
    let (result, draws) = drive(&sampler(), (0, 25, 0), 0.5, 0.5, 0.0, &[0.5]);
    assert_eq!(result, None);
    assert_eq!(draws, 1);
}

#[test]
fn ridged_exactly_zero_rejects() {
    let (result, draws) = drive(&sampler(), (0, 25, 0), 0.5, 0.0, 0.0, &[0.5]);
    assert_eq!(result, None);
    assert_eq!(draws, 1);
}

#[test]
fn first_draw_above_limit_rejects_after_one_draw() {
    let (result, draws) = drive(&sampler(), (0, 25, 0), 0.5, -0.1, 0.0, &[0.71]);
    assert_eq!(result, None);
    assert_eq!(draws, 1);
}

#[test]
fn iron_band_miss_rejects_without_draws() {
    // A non-positive toggle selects iron, whose band tops out at -8: y = -5
    // lies above it though inside the global bounds.
    let (result, draws) = drive(&sampler(), (0, -5, 0), -0.9, -0.9, 0.9, &[]);
    assert_eq!(result, None);
    assert_eq!(draws, 0);
}

#[test]
fn stone_path_two_draws() {
    // Iron vein at y = -30: closest = 22 saturates the band penalty to 0;
    // the gap -0.5 fails the ore gate, so the host stone is placed.
    let (result, draws) = drive(&sampler(), (0, -30, 0), -0.9, -0.5, -0.5, &[0.5, 0.5]);
    assert_eq!(result, Some(BlockKind::Tuff));
    assert_eq!(draws, 2);
}

#[test]
fn band_edge_penalty_rejects_weak_toggle() {
    // At y = 0 the copper band's edge gives the full -0.2 penalty:
    // 0.3 - 0.2 < 0.4, so the entry gate rejects without any draw.
    let (result, draws) = drive(&sampler(), (1, 0, 0), 0.3, -0.9, 0.9, &[]);
    assert_eq!(result, None);
    assert_eq!(draws, 0);
}

#[test]
fn copper_ceiling_needs_strong_toggle() {
    // At y = 50 the penalty is -0.2, so passing the entry gate takes an
    // absolute toggle of about 0.6 or more.
    let (result, draws) = drive(&sampler(), (0, 50, 0), 0.59, -0.1, 0.0, &[]);
    assert_eq!(result, None);
    assert_eq!(draws, 0);
    let (result, draws) = drive(&sampler(), (0, 50, 0), 0.61, -0.1, 0.0, &[0.5, 0.9]);
    assert_eq!(result, Some(BlockKind::Granite));
    assert_eq!(draws, 2);
}

#[test]
fn iron_floor_needs_strong_toggle() {
    let (result, draws) = drive(&sampler(), (0, -60, 0), -0.59, -0.1, 0.0, &[]);
    assert_eq!(result, None);
    assert_eq!(draws, 0);
    let (result, draws) = drive(&sampler(), (0, -60, 0), -0.61, -0.1, 0.0, &[0.5, 0.9]);
    assert_eq!(result, Some(BlockKind::Tuff));
    assert_eq!(draws, 2);
}

#[test]
fn zero_toggle_selects_iron() {
    // A toggle of exactly zero selects the iron vein (strict positivity
    // test): at y = 25 the run ends at once, without ever reaching the
    // entry gate a copper selection would have offered.
    let s = sampler();
    let mut run = s.begin_sample(0, 25, 0);
    assert_eq!(run.action(), SampleAction::QueryVeinToggle);
    run.step(SampleEvent::VeinToggleSign { positive: 0.0f64 > 0f64 });
    assert_eq!(run.action(), SampleAction::Finish { result: None });
    // At y = -30 the same toggle is inside the iron band and the run asks
    // for the entry gate with iron's closest-bound distance of 22.
    let mut run = s.begin_sample(0, -30, 0);
    run.step(SampleEvent::VeinToggleSign { positive: false });
    assert_eq!(run.action(), SampleAction::EvalEntryGate { closest: 22 });
}

#[test]
fn gap_at_threshold_rejects_ore_path() {
    // vein_gap exactly -0.3 (widened from single precision) fails the strict
    // `>` test: even a tiny second draw yields the host stone, not ore.
    let gap = (-0.3f32) as f64;
    let (result, draws) = drive(&sampler(), (0, 25, 0), 0.5, -0.1, gap, &[0.5, 0.01]);
    assert_eq!(result, Some(BlockKind::Granite));
    assert_eq!(draws, 2);
}

#[test]
fn identical_inputs_give_identical_runs() {
    let s = sampler();
    let first = drive(&s, (3, 12, -7), 0.47, -0.2, 0.1, &[0.3, 0.15, 0.5]);
    let second = drive(&s, (3, 12, -7), 0.47, -0.2, 0.1, &[0.3, 0.15, 0.5]);
    assert_eq!(first, second);
}

#[test]
fn band_penalty_is_monotone_in_doubles() {
    // The double evaluation of the band penalty follows the library's
    // exact-arithmetic model: -0.2 at the edge, 0 from 20 inward, and never
    // decreasing in between.
    assert_eq!(clamped_map(0.0, 0.0, 20.0, -0.2, 0.0), -0.2);
    assert_eq!(clamped_map(20.0, 0.0, 20.0, -0.2, 0.0), 0.0);
    assert_eq!(clamped_map(25.0, 0.0, 20.0, -0.2, 0.0), 0.0);
    let mut previous = -0.2f64;
    for c in 0..=20 {
        let penalty = clamped_map(c as f64, 0.0, 20.0, -0.2, 0.0);
        assert!(penalty >= previous);
        previous = penalty;
    }
}
