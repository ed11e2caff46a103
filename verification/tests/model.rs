//! Evaluates the verified formula trees over IEEE-754 doubles and checks the
//! numeric behavior of the model: the kinematics, the piecewise corrections,
//! the bracket decomposition, and the full sweeps.

use bethe_bloch::constants::{DEFAULT_A_BITS, DEFAULT_C_BITS, DEFAULT_M_BITS, DEFAULT_X0_BITS,
    DEFAULT_X1_BITS, TWO_BITS, WATER_ATOMIC_NUMBER_BITS};
use bethe_bloch::curve::{curve_points, sweep_plan};
use bethe_bloch::expr::Expr;
use bethe_bloch::model::{beta_gamma, beta_of, corrected_bracket, density_correction,
    derive_kinematics, energy_in_ev, ionization_constant, shell_correction, stopping_power,
    Variant};
use bethe_bloch::params::{default_parameters, resolve_parameters, CorrectionParameters};

/// Reduces a formula tree to a double at the given energy in MeV.
fn eval(e: &Expr, energy_mev: f64) -> f64 {
    match e {
        Expr::Const(bits) => f64::from_bits(*bits),
        Expr::Energy => energy_mev,
        Expr::Add(a, b) => eval(a, energy_mev) + eval(b, energy_mev),
        Expr::Sub(a, b) => eval(a, energy_mev) - eval(b, energy_mev),
        Expr::Mul(a, b) => eval(a, energy_mev) * eval(b, energy_mev),
        Expr::Div(a, b) => eval(a, energy_mev) / eval(b, energy_mev),
        Expr::Sqrt(a) => eval(a, energy_mev).sqrt(),
        Expr::Ln(a) => eval(a, energy_mev).ln(),
        Expr::Log10(a) => eval(a, energy_mev).log10(),
        Expr::Pow(a, b) => eval(a, energy_mev).powf(eval(b, energy_mev)),
        Expr::IfAtLeast(a, b, above, below) => {
            if eval(a, energy_mev) >= eval(b, energy_mev) {
                eval(above, energy_mev)
            } else {
                eval(below, energy_mev)
            }
        },
    }
}

/// The speed fraction of the swept sample, as a tree over the energy in MeV.
fn sweep_beta_tree() -> Expr {
    beta_of(&energy_in_ev(), &derive_kinematics().proton_mass_ev)
}

#[test]
fn test_beta_stays_in_unit_interval_over_sweep() {
    let beta = sweep_beta_tree();
    let mut previous: f64 = 0.0;
    let mut i: u32 = 1;
    while i <= 1000 {
        let b = eval(&beta, 10.0 * i as f64);
        assert!(b > 0.0, "beta not positive at {} MeV", 10 * i);
        assert!(b < 1.0, "beta reached one at {} MeV", 10 * i);
        assert!(b > previous, "beta not increasing at {} MeV", 10 * i);
        previous = b;
        i += 1;
    }
}

#[test]
fn test_beta_is_zero_at_zero_energy() {
    let beta = sweep_beta_tree();
    assert_eq!(eval(&beta, 0.0), 0.0);
}

#[test]
fn test_sweep_energies_run_from_ten_to_ten_thousand() {
    let p = default_parameters();
    let plan = sweep_plan(1000, Variant::NoCorrection, &p);
    assert_eq!(plan.energies_mev.len(), 1000);
    assert_eq!(plan.energies_mev[0] as f64, 10.0);
    assert_eq!(plan.energies_mev[999] as f64, 10000.0);
    for i in 1..1000 {
        assert_eq!(plan.energies_mev[i], plan.energies_mev[i - 1] + 10);
    }
}

#[test]
fn test_empty_sweep_has_no_points() {
    let p = default_parameters();
    let plan = sweep_plan(0, Variant::AllCorrections, &p);
    assert_eq!(plan.energies_mev.len(), 0);
}

#[test]
fn test_curve_points_pair_in_energy_order() {
    let p = default_parameters();
    let plan = sweep_plan(5, Variant::NoCorrection, &p);
    let mut values: Vec<u64> = Vec::new();
    for &e in plan.energies_mev.iter() {
        values.push(eval(&plan.formula, e as f64).to_bits());
    }
    let points = curve_points(&plan.energies_mev, &values);
    assert_eq!(points.len(), 5);
    for (i, point) in points.iter().enumerate() {
        assert_eq!(point.energy_mev, 10 * (i as u64 + 1));
        assert_eq!(point.stopping_power_bits, values[i]);
    }
}

#[test]
fn test_density_correction_is_exactly_zero_below_lower_threshold() {
    // At 100 MeV, beta-gamma is well below ten to the 0.24, so the abscissa
    // lies under the default x0 and the correction must be the exact zero.
    let p = default_parameters();
    let beta = sweep_beta_tree();
    let x = eval(&beta_gamma(&beta).log_base_ten(), 100.0);
    assert!(x < 0.24);
    let delta = eval(&density_correction(&beta, &p), 100.0);
    assert_eq!(delta.to_bits(), 0.0f64.to_bits());
}

#[test]
fn test_density_correction_middle_branch_formula() {
    // At 2000 MeV the abscissa lies between the default thresholds.
    let p = default_parameters();
    let beta = sweep_beta_tree();
    let x = eval(&beta_gamma(&beta).log_base_ten(), 2000.0);
    assert!(0.24 <= x && x < 2.8004);
    let delta = eval(&density_correction(&beta, &p), 2000.0);
    let expected = 2.0 * std::f64::consts::LN_10 * x + 3.5017
        + 0.09116 * (2.8004 - x).powf(3.4773);
    assert_eq!(delta.to_bits(), expected.to_bits());
}

#[test]
fn test_density_correction_tie_at_upper_threshold_takes_high_branch() {
    // With x1 set to the exact abscissa of the sample, the tie goes to the
    // high branch, whose value carries no power term.
    let beta = sweep_beta_tree();
    let x = eval(&beta_gamma(&beta).log_base_ten(), 2000.0);
    let p = CorrectionParameters {
        a: DEFAULT_A_BITS,
        x0: DEFAULT_X0_BITS,
        x1: x.to_bits(),
        m_param: DEFAULT_M_BITS,
        c_param: DEFAULT_C_BITS,
    };
    let delta = eval(&density_correction(&beta, &p), 2000.0);
    let high = 2.0 * std::f64::consts::LN_10 * x + 3.5017;
    assert_eq!(delta.to_bits(), high.to_bits());
    // The middle-branch formula at the threshold itself agrees with the high
    // branch, since its extra term is a times zero to a positive power.
    let middle_at_threshold = high + 0.09116 * (x - x).powf(3.4773);
    assert_eq!(middle_at_threshold.to_bits(), high.to_bits());
}

#[test]
fn test_density_correction_tie_at_lower_threshold_takes_middle_branch() {
    let beta = sweep_beta_tree();
    let x = eval(&beta_gamma(&beta).log_base_ten(), 2000.0);
    let p = CorrectionParameters {
        a: DEFAULT_A_BITS,
        x0: x.to_bits(),
        x1: DEFAULT_X1_BITS,
        m_param: DEFAULT_M_BITS,
        c_param: DEFAULT_C_BITS,
    };
    let delta = eval(&density_correction(&beta, &p), 2000.0);
    let middle = 2.0 * std::f64::consts::LN_10 * x + 3.5017
        + 0.09116 * (2.8004 - x).powf(3.4773);
    assert_eq!(delta.to_bits(), middle.to_bits());
    assert!(delta != 0.0);
}

#[test]
fn test_ionization_constant_of_water_is_exact() {
    // Atomic number nine takes the light branch: (12 * 9 + 7) / 1e6.
    let ion = ionization_constant(9);
    let value = eval(&ion, 0.0);
    assert_eq!(value, 115.0 / 1e6);
    assert_eq!(value, 0.000115);
}

#[test]
fn test_ionization_constant_light_branch_boundary() {
    // Twelve still takes the light branch; thirteen takes the heavy one.
    assert_eq!(eval(&ionization_constant(12), 0.0), 151.0 / 1e6);
    let heavy = eval(&ionization_constant(13), 0.0);
    let expected = (9.76 * 1.0 + 58.8 * 13.0f64.powf(-0.19)) / 1e6;
    assert_eq!(heavy.to_bits(), expected.to_bits());
}

#[test]
fn test_all_corrections_bracket_decomposes_term_for_term() {
    // The all-corrections bracket at 100 MeV equals the bare bracket minus
    // the density term minus the shell term, operation for operation.
    let p = default_parameters();
    let at: f64 = 100.0;
    let base = eval(&corrected_bracket(Variant::NoCorrection, &p), at);
    let with_density = eval(&corrected_bracket(Variant::DensityCorrection, &p), at);
    let with_shell = eval(&corrected_bracket(Variant::ShellCorrection, &p), at);
    let with_all = eval(&corrected_bracket(Variant::AllCorrections, &p), at);
    let beta = sweep_beta_tree();
    let delta = eval(&density_correction(&beta, &p), at);
    let sc = shell_correction(&beta_gamma(&beta), &ionization_constant(9));
    let shell_term = eval(
        &Expr::Const(TWO_BITS).times(sc.over(Expr::Const(WATER_ATOMIC_NUMBER_BITS))),
        at,
    );
    assert_eq!(with_density.to_bits(), (base - delta).to_bits());
    assert_eq!(with_shell.to_bits(), (base - shell_term).to_bits());
    assert_eq!(with_all.to_bits(), ((base - delta) - shell_term).to_bits());
}

#[test]
fn test_bare_stopping_power_matches_handwritten_formula() {
    // The full no-correction formula at 100 MeV, written out by hand over
    // doubles, operation for operation and constant for constant.
    let electron_charge = 1.602176634e-19;
    let speed_of_light = 299792458.0;
    let proton_mass = 1.6726219e-27 * speed_of_light * speed_of_light / electron_charge;
    let electron_mass = 9.10938356e-31 * speed_of_light * speed_of_light;
    let electron_mass_ev = electron_mass / electron_charge;
    let charge_fourth =
        (electron_charge * electron_charge) * (electron_charge * electron_charge);
    let const_general = 4.0 * std::f64::consts::PI * charge_fourth * (8.99e9 * 8.99e9)
        / (electron_mass * electron_charge * 1.0e8);
    let energy_ev = 1.0 * 100.0 * 1e6;
    let beta = (energy_ev * (energy_ev + 2.0 * proton_mass)).sqrt() / (energy_ev + proton_mass);
    let beta2 = beta * beta;
    let bracket = (2.0 * electron_mass_ev * beta2 / 74.6).ln() - (1.0 - beta2).ln() - beta2;
    let expected = const_general * (1.0 * 1.0) * 3.3429 / (beta * beta) * bracket;

    let p = default_parameters();
    let value = eval(&stopping_power(Variant::NoCorrection, &p), 100.0);
    assert_eq!(value.to_bits(), expected.to_bits());
}

#[test]
fn test_full_sweeps_are_finite_for_every_variant() {
    let p = default_parameters();
    let variants = [
        Variant::NoCorrection,
        Variant::DensityCorrection,
        Variant::ShellCorrection,
        Variant::AllCorrections,
    ];
    for &variant in variants.iter() {
        let plan = sweep_plan(1000, variant, &p);
        assert_eq!(plan.energies_mev.len(), 1000);
        let first = eval(&plan.formula, plan.energies_mev[0] as f64);
        assert_eq!(plan.energies_mev[0] as f64, 10.0);
        assert!(first.is_finite() && first > 0.0);
        for &e in plan.energies_mev.iter() {
            let value = eval(&plan.formula, e as f64);
            assert!(value.is_finite(), "not finite at {} MeV", e);
            assert!(!value.is_nan(), "not a number at {} MeV", e);
        }
    }
}

#[test]
fn test_sink_lines_round_trip() {
    // One line per point, energy to one decimal and the value in exponential
    // form: reading the line back recovers the energy exactly (the grid is
    // whole MeV) and the value to the bit (the exponential form round-trips).
    let p = default_parameters();
    let plan = sweep_plan(1000, Variant::AllCorrections, &p);
    for &i in [0usize, 499, 999].iter() {
        let energy = plan.energies_mev[i] as f64;
        let value = eval(&plan.formula, energy);
        let line = format!("{:.1}\t{:e}", energy, value);
        let mut fields = line.split('\t');
        let energy_back: f64 = fields.next().unwrap().parse().unwrap();
        let value_back: f64 = fields.next().unwrap().parse().unwrap();
        assert_eq!(energy_back, energy);
        assert_eq!(value_back.to_bits(), value.to_bits());
    }
}

#[test]
fn test_unparameterized_variants_ignore_the_parameters() {
    // The bare and shell-corrected formulas take no correction parameters:
    // changing all five fields changes neither tree, so neither value.
    let defaults = default_parameters();
    let other = CorrectionParameters {
        a: 7.5f64.to_bits(),
        x0: (-2.0f64).to_bits(),
        x1: 9.25f64.to_bits(),
        m_param: 0.5f64.to_bits(),
        c_param: 100.0f64.to_bits(),
    };
    for &energy in [10.0f64, 500.0, 10000.0].iter() {
        let bare_a = eval(&stopping_power(Variant::NoCorrection, &defaults), energy);
        let bare_b = eval(&stopping_power(Variant::NoCorrection, &other), energy);
        assert_eq!(bare_a.to_bits(), bare_b.to_bits());
        let shell_a = eval(&stopping_power(Variant::ShellCorrection, &defaults), energy);
        let shell_b = eval(&stopping_power(Variant::ShellCorrection, &other), energy);
        assert_eq!(shell_a.to_bits(), shell_b.to_bits());
        let density_a = eval(&stopping_power(Variant::DensityCorrection, &defaults), energy);
        let density_b = eval(&stopping_power(Variant::DensityCorrection, &other), energy);
        assert_ne!(density_a.to_bits(), density_b.to_bits());
    }
}

#[test]
fn test_default_parameters_hold_documented_values() {
    let p = default_parameters();
    assert_eq!(f64::from_bits(p.a), 0.09116);
    assert_eq!(f64::from_bits(p.x0), 0.24);
    assert_eq!(f64::from_bits(p.x1), 2.8004);
    assert_eq!(f64::from_bits(p.c_param), 3.5017);
    assert_eq!(f64::from_bits(p.m_param), 3.4773);
}

#[test]
fn test_resolve_parameters_falls_back_per_field() {
    let supplied_a = 0.125f64.to_bits();
    let supplied_c = 4.0f64.to_bits();
    let p = resolve_parameters(Some(supplied_a), None, None, None, Some(supplied_c));
    assert_eq!(p.a, supplied_a);
    assert_eq!(f64::from_bits(p.x0), 0.24);
    assert_eq!(f64::from_bits(p.x1), 2.8004);
    assert_eq!(f64::from_bits(p.m_param), 3.4773);
    assert_eq!(p.c_param, supplied_c);
}
