use fighting_game::fixed_timestep::FixedTimestep;
use fighting_game::fx::FX_ONE;

#[test]
fn sixty_fps_delta() {
    let ts = FixedTimestep::with_fixed_fps(60);
    assert_eq!(ts.fixed_delta, 16_666_666);
    assert_eq!(ts.accumulator, 0);
    assert_eq!(ts.interpolation, 0);
}

#[test]
fn chunked_deltas_drain_to_the_same_state() {
    let mut one_chunk = FixedTimestep::with_fixed_fps(60);
    let mut two_chunks = FixedTimestep::with_fixed_fps(60);

    let steps_one = one_chunk.update(33_000_000);
    let steps_two = two_chunks.update(16_500_000) + two_chunks.update(16_500_000);

    assert_eq!(steps_one, steps_two);
    assert_eq!(one_chunk.accumulator, two_chunks.accumulator);
    assert_eq!(one_chunk.interpolation, two_chunks.interpolation);
}

#[test]
fn steps_and_leftover_are_exact() {
    let mut ts = FixedTimestep::with_fixed_fps(60);
    assert_eq!(ts.update(16_666_665), 0);
    assert_eq!(ts.accumulator, 16_666_665);
    assert_eq!(ts.update(1), 1);
    assert_eq!(ts.accumulator, 0);
    assert_eq!(ts.interpolation, 0);
    assert_eq!(ts.update(100_000_000), 6);
    assert_eq!(ts.accumulator, 100_000_000 - 6 * 16_666_666);
}

#[test]
fn interpolation_is_the_leftover_fraction() {
    let mut ts = FixedTimestep::with_fixed_fps(1000);
    // fixed_delta is exactly one millisecond here.
    assert_eq!(ts.fixed_delta, 1_000_000);
    ts.update(2_500_000);
    assert_eq!(ts.accumulator, 500_000);
    assert_eq!(ts.interpolation, FX_ONE / 2);
    assert!(ts.interpolation >= 0 && ts.interpolation < FX_ONE);
}

#[test]
fn identical_delta_sequences_are_deterministic() {
    let deltas = [13_000_000u64, 1_000_000, 40_000_000, 16_666_666, 9_999_999];
    let mut a = FixedTimestep::with_fixed_fps(60);
    let mut b = FixedTimestep::with_fixed_fps(60);
    let mut steps_a = 0u64;
    let mut steps_b = 0u64;
    for d in deltas {
        steps_a += a.update(d);
    }
    for d in deltas {
        steps_b += b.update(d);
    }
    assert_eq!(steps_a, steps_b);
    assert_eq!(a.accumulator, b.accumulator);
}
