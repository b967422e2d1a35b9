use wavesim::arithmetic::{Axis, SimulationParameters, Update};
use wavesim::boundary::{BoundaryBand, BoundaryPolicy, Edge};
use wavesim::error::SimulationError;
use wavesim::field::{Field, Region};
use wavesim::obstacle::{Obstacle, ObstaclePolicy};
use wavesim::simulation::Simulation;
use wavesim::source::Source;

// The arithmetic of the scheme on floating-point samples.
fn wave(p: SimulationParameters<f64>, u: Update<f64>) -> f64 {
    match u {
        Update::Interior { center, x_minus, x_plus, y_minus, y_plus, previous } => {
            let dudx = (x_plus - 2.0 * center + x_minus) / (p.dx * p.dx);
            let dudy = (y_plus - 2.0 * center + y_minus) / (p.dy * p.dy);
            let friction = p.f * (center - previous);
            p.c * p.c * p.dt * p.dt * (dudx + dudy) + 2.0 * center - previous - friction
        }
        Update::Outflow { axis, center, inward } => {
            let spacing = match axis {
                Axis::X => p.dx,
                Axis::Y => p.dy,
            };
            center - p.c * (p.dt / spacing) * (center - inward)
        }
        Update::Scale { value, factor } => value * factor,
        Update::Emit { source, time } => source.amplitude * (source.frequency * time + source.phase).sin(),
    }
}

// The stability check: c dt <= sqrt(dx^2 + dy^2), on positive steps.
fn cfl(p: SimulationParameters<f64>) -> bool {
    p.c > 0.0
        && p.dx > 0.0
        && p.dy > 0.0
        && p.dt > 0.0
        && p.f >= 0.0
        && p.c * p.dt <= (p.dx * p.dx + p.dy * p.dy).sqrt()
}

fn params(f: f64) -> SimulationParameters<f64> {
    SimulationParameters { c: 1.0, dx: 0.125, dy: 0.125, dt: 0.025, f }
}

fn impulse(n: usize) -> Field<f64> {
    let mut field = Field::filled(n, n, 0.0);
    field.set(n / 2, n / 2, 1.0);
    field
}

fn bits(field: &Field<f64>) -> Vec<u64> {
    let mut all = Vec::new();
    for x in 0..field.nx() {
        for y in 0..field.ny() {
            all.push(field.at(x, y).to_bits());
        }
    }
    all
}

fn sum_of_squares(field: &Field<f64>) -> f64 {
    let mut sum = 0.0;
    for x in 0..field.nx() {
        for y in 0..field.ny() {
            sum += field.at(x, y) * field.at(x, y);
        }
    }
    sum
}

#[test]
fn construction_rejects_parameters_that_violate_the_cfl_bound() {
    let fast = SimulationParameters { c: 10.0, dx: 0.1, dy: 0.1, dt: 1.0, f: 0.0 };
    let made = Simulation::new(80, 80, fast, 0.0, &cfl);
    assert!(matches!(made, Err(SimulationError::UnstableParameters)));
}

#[test]
fn construction_accepts_parameters_within_the_cfl_bound() {
    let slow = SimulationParameters { c: 1.0, dx: 0.125, dy: 0.125, dt: 0.025, f: 0.0 };
    assert!((0.125_f64 * 0.125 + 0.125 * 0.125).sqrt() >= 0.025);
    let made = Simulation::new(80, 80, slow, 0.0, &cfl);
    assert!(made.is_ok());
}

#[test]
fn a_live_parameter_change_is_checked_again() {
    let mut sim = Simulation::new(80, 80, params(0.01), 0.0, &cfl).unwrap();
    assert_eq!(sim.set_wave_speed(10.0, &cfl), Err(SimulationError::UnstableParameters));
    assert_eq!(sim.parameters(), params(0.01));
    assert_eq!(sim.set_wave_speed(2.0, &cfl), Ok(()));
    assert_eq!(sim.parameters().c, 2.0);
    assert_eq!(sim.set_damping(-1.0, &cfl), Err(SimulationError::UnstableParameters));
    assert_eq!(sim.parameters().f, 0.01);
}

#[test]
fn example_scenario_after_one_tick() {
    let p = params(0.01);
    let mut sim = Simulation::new(80, 80, p, 0.0, &cfl).unwrap();
    let speaker = Source { x: 40, y: 40, amplitude: 1.0, frequency: 1.0, phase: 0.0 };
    sim.add_source(speaker).unwrap();
    for edge in [Edge::Left, Edge::Right, Edge::Top, Edge::Bottom] {
        sim.set_boundary(edge, BoundaryBand { width: 5, policy: BoundaryPolicy::Sponge(0.99) }).unwrap();
    }
    let time = 0.025;
    assert_eq!(sim.tick(time, &wave), Ok(()));

    let injected = time.sin();
    assert_eq!(sim.previous_field().at(40, 40), injected);
    let spread = p.c * p.c * p.dt * p.dt * (injected / (p.dx * p.dx));
    let kept = p.c * p.c * p.dt * p.dt * ((0.0 - 2.0 * injected + 0.0) / (p.dx * p.dx) * 2.0)
        + 2.0 * injected
        - 0.0
        - p.f * (injected - 0.0);
    let now = sim.current_field();
    for x in 0..80_usize {
        for y in 0..80_usize {
            let away = x.abs_diff(40) + y.abs_diff(40);
            let expected = match away {
                0 => kept,
                1 => spread,
                _ => 0.0,
            };
            assert_eq!(now.at(x, y), expected, "cell ({x}, {y})");
            if away > 0 {
                assert_eq!(sim.previous_field().at(x, y), 0.0);
            }
        }
    }
    assert!(kept != 0.0 && spread > 0.0);
}

#[test]
fn example_scenario_at_time_zero_injects_zero() {
    let mut sim = Simulation::new(80, 80, params(0.01), 0.0, &cfl).unwrap();
    sim.add_source(Source { x: 40, y: 40, amplitude: 1.0, frequency: 1.0, phase: 0.0 }).unwrap();
    for edge in [Edge::Left, Edge::Right, Edge::Top, Edge::Bottom] {
        sim.set_boundary(edge, BoundaryBand { width: 5, policy: BoundaryPolicy::Sponge(0.99) }).unwrap();
    }
    sim.tick(0.0, &wave).unwrap();
    assert_eq!(sim.previous_field().at(40, 40), 0.0);
    assert_eq!(sim.current_field().at(40, 40), sim.previous_field().at(40, 40));
    for x in 0..80 {
        for y in 0..80 {
            assert_eq!(sim.current_field().at(x, y), 0.0);
        }
    }
}

#[test]
fn a_field_at_rest_without_sources_stays_at_rest() {
    let mut sim = Simulation::new(20, 30, params(0.01), 0.0, &cfl).unwrap();
    sim.set_boundary(Edge::Left, BoundaryBand { width: 4, policy: BoundaryPolicy::Absorbing }).unwrap();
    sim.set_boundary(Edge::Top, BoundaryBand { width: 4, policy: BoundaryPolicy::Sponge(0.99) }).unwrap();
    for n in 0..200 {
        sim.tick(n as f64 * 0.025, &wave).unwrap();
        for x in 0..20 {
            for y in 0..30 {
                assert_eq!(sim.current_field().at(x, y), 0.0);
            }
        }
    }
}

#[test]
fn an_edge_without_a_band_is_held_at_zero() {
    let mut sim = Simulation::new(21, 21, params(0.0), 0.0, &cfl).unwrap();
    sim.load(impulse(21)).unwrap();
    sim.set_boundary(Edge::Left, BoundaryBand { width: 3, policy: BoundaryPolicy::Absorbing }).unwrap();
    let mut left_moved = false;
    for n in 0..300 {
        sim.tick(n as f64 * 0.025, &wave).unwrap();
        let now = sim.current_field();
        for k in 0..21 {
            assert_eq!(now.at(20, k), 0.0);
            assert_eq!(now.at(k, 0), 0.0);
            assert_eq!(now.at(k, 20), 0.0);
        }
        assert_eq!(now.at(0, 0), 0.0);
        assert_eq!(now.at(0, 20), 0.0);
        left_moved |= now.at(0, 10) != 0.0;
    }
    assert!(left_moved);
}

#[test]
fn two_runs_are_bit_identical() {
    let run = || {
        let mut sim = Simulation::new(30, 30, params(0.01), 0.0, &cfl).unwrap();
        sim.load(impulse(30)).unwrap();
        sim.add_source(Source { x: 7, y: 9, amplitude: 5.0, frequency: 3.0, phase: 0.5 }).unwrap();
        sim.add_obstacle(Obstacle {
            region: Region { x0: 12, y0: 3, x1: 14, y1: 20 },
            policy: ObstaclePolicy::Attenuate(0.5),
        })
        .unwrap();
        sim.set_boundary(Edge::Right, BoundaryBand { width: 5, policy: BoundaryPolicy::Absorbing }).unwrap();
        sim.set_boundary(Edge::Bottom, BoundaryBand { width: 5, policy: BoundaryPolicy::Sponge(0.99) }).unwrap();
        let mut history = Vec::new();
        for n in 0..150 {
            sim.tick(n as f64 * 0.1, &wave).unwrap();
            history.push(bits(sim.current_field()));
        }
        history
    };
    let first = run();
    let second = run();
    assert!(first == second);
    assert!(first[149].iter().any(|&b| b != 0));
}

#[test]
fn an_absorbing_band_reflects_less_than_a_hard_wall() {
    // The front travels 0.2 cells a tick: it reaches the edge, 20 cells
    // away, at tick 100 and is back at the centre at tick 200.
    let peak_after_reflection = |band: Option<BoundaryBand<f64>>| {
        let mut sim = Simulation::new(41, 41, params(0.0), 0.0, &cfl).unwrap();
        sim.load(impulse(41)).unwrap();
        if let Some(band) = band {
            for edge in [Edge::Left, Edge::Right, Edge::Top, Edge::Bottom] {
                sim.set_boundary(edge, band).unwrap();
            }
        }
        let mut peak = 0.0_f64;
        for n in 0..600 {
            sim.tick(n as f64 * 0.025, &wave).unwrap();
            if n >= 200 {
                peak = peak.max(sim.current_field().at(20, 20).abs());
            }
        }
        peak
    };
    let wall = peak_after_reflection(None);
    let absorbing = peak_after_reflection(Some(BoundaryBand { width: 5, policy: BoundaryPolicy::Absorbing }));
    assert!(absorbing < wall, "absorbing {absorbing}, wall {wall}");
    assert!(absorbing < 0.5 * wall, "absorbing {absorbing}, wall {wall}");
    assert!(wall > 0.1);
}

#[test]
fn a_block_between_source_and_probe_keeps_the_wave_out() {
    let amplitude_at_probe = |walled: bool| {
        let mut sim = Simulation::new(41, 41, params(0.0), 0.0, &cfl).unwrap();
        sim.add_source(Source { x: 20, y: 8, amplitude: 1.0, frequency: 4.0, phase: 0.0 }).unwrap();
        if walled {
            sim.add_obstacle(Obstacle {
                region: Region { x0: 0, y0: 18, x1: 41, y1: 23 },
                policy: ObstaclePolicy::Block,
            })
            .unwrap();
        }
        let mut peak = 0.0_f64;
        for n in 0..300 {
            sim.tick(n as f64 * 0.025, &wave).unwrap();
            peak = peak.max(sim.current_field().at(20, 32).abs());
            if walled {
                for x in 0..41 {
                    for y in 18..23 {
                        assert_eq!(sim.current_field().at(x, y), 0.0);
                    }
                }
            }
        }
        peak
    };
    let blocked = amplitude_at_probe(true);
    let open = amplitude_at_probe(false);
    assert_eq!(blocked, 0.0);
    assert!(open > 0.01, "open {open}");
}

#[test]
fn a_block_with_a_gap_lets_the_wave_through() {
    let mut sim = Simulation::new(41, 41, params(0.0), 0.0, &cfl).unwrap();
    sim.add_source(Source { x: 20, y: 8, amplitude: 1.0, frequency: 4.0, phase: 0.0 }).unwrap();
    for region in [Region { x0: 0, y0: 18, x1: 18, y1: 23 }, Region { x0: 23, y0: 18, x1: 41, y1: 23 }] {
        sim.add_obstacle(Obstacle { region, policy: ObstaclePolicy::Block }).unwrap();
    }
    let mut peak = 0.0_f64;
    for n in 0..300 {
        sim.tick(n as f64 * 0.025, &wave).unwrap();
        peak = peak.max(sim.current_field().at(20, 32).abs());
    }
    assert!(peak > 0.001, "peak {peak}");
}

#[test]
fn a_strongly_damped_impulse_loses_sum_of_squares_at_every_tick() {
    let mut sim = Simulation::new(21, 21, params(0.5), 0.0, &cfl).unwrap();
    sim.load(impulse(21)).unwrap();
    let mut last = sum_of_squares(sim.current_field());
    assert_eq!(last, 1.0);
    for n in 0..400 {
        sim.tick(n as f64 * 0.025, &wave).unwrap();
        let now = sum_of_squares(sim.current_field());
        assert!(now <= last * (1.0 + 1e-12), "tick {n}: {now} after {last}");
        last = now;
    }
    assert!(last < 0.01);
}

#[test]
fn the_samples_are_not_clamped() {
    let mut sim = Simulation::new(5, 5, params(0.0), 0.0, &cfl).unwrap();
    sim.add_source(Source { x: 2, y: 2, amplitude: 1.0e30, frequency: 0.0, phase: 1.5 }).unwrap();
    sim.add_source(Source { x: 1, y: 2, amplitude: -1.0e30, frequency: 0.0, phase: 1.5 }).unwrap();
    sim.tick(0.0, &wave).unwrap();
    assert_eq!(sim.previous_field().at(2, 2), 1.0e30 * 1.5_f64.sin());
    assert_eq!(sim.previous_field().at(1, 2), -1.0e30 * 1.5_f64.sin());
    assert!(sim.current_field().at(2, 2) > 1.0e29);
}
