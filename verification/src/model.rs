use vstd::prelude::*;
use crate::constants::{ELECTRON_CHARGE_BITS, ELECTRON_REST_MASS_BITS, SPEED_OF_LIGHT_BITS,
    WATER_ATOMIC_NUMBER_BITS, WATER_ATOMIC_NUMBER, PROTON_ENERGY_UNIT_BITS, PROTON_REST_MASS_BITS,
    WATER_EXCITATION_ENERGY_BITS, WATER_ELECTRON_DENSITY_BITS, COULOMB_CONSTANT_BITS,
    PROTON_CHARGE_NUMBER_BITS, PI_BITS, LN_10_BITS, ZERO_BITS, ONE_BITS, TWO_BITS, FOUR_BITS,
    MEGA_BITS, HUNDRED_MEGA_BITS, MICRO_BITS, NANO_BITS, SHELL_A2_BITS, SHELL_A4_BITS,
    SHELL_A6_BITS, SHELL_B2_BITS, SHELL_B4_BITS, SHELL_B6_BITS, ION_HEAVY_LINEAR_BITS,
    ION_HEAVY_POWER_BITS, ION_HEAVY_EXPONENT_BITS};
use crate::expr::{Expr, lit, e_add, e_sub, e_mul, e_div, e_sqrt, e_ln, e_log10, e_pow,
    e_if_at_least, is_grounded};
use crate::ieee::{double_bits_of, double_bits_of_int};
use crate::params::CorrectionParameters;

verus! {

/// Which correction terms the bracket of the Bethe-Bloch formula subtracts.
#[derive(Clone, Copy, PartialEq, Eq, Structural, Debug)]
pub enum Variant {
    /// The bare formula.
    NoCorrection,
    /// The density-effect correction alone.
    DensityCorrection,
    /// The shell correction alone.
    ShellCorrection,
    /// Both corrections.
    AllCorrections,
}

// ---------------------------------------------------------------------------
// Derived kinematic constants.

/// Proton rest energy in eV: the rest mass times the speed of light squared,
/// divided by the electron charge.
pub open spec fn spec_proton_mass_ev() -> Expr {
    e_div(
        e_mul(e_mul(lit(PROTON_REST_MASS_BITS), lit(SPEED_OF_LIGHT_BITS)), lit(SPEED_OF_LIGHT_BITS)),
        lit(ELECTRON_CHARGE_BITS),
    )
}

/// Electron rest energy in Joules: the rest mass times the speed of light
/// squared.
pub open spec fn spec_electron_mass_joule() -> Expr {
    e_mul(e_mul(lit(ELECTRON_REST_MASS_BITS), lit(SPEED_OF_LIGHT_BITS)), lit(SPEED_OF_LIGHT_BITS))
}

/// Electron rest energy in eV.
pub open spec fn spec_electron_mass_ev() -> Expr {
    e_div(spec_electron_mass_joule(), lit(ELECTRON_CHARGE_BITS))
}

/// The electron charge to the fourth power, paired as two squares.
pub open spec fn spec_charge_fourth() -> Expr {
    e_mul(
        e_mul(lit(ELECTRON_CHARGE_BITS), lit(ELECTRON_CHARGE_BITS)),
        e_mul(lit(ELECTRON_CHARGE_BITS), lit(ELECTRON_CHARGE_BITS)),
    )
}

/// The general multiplicative constant of the formula: four pi times the
/// electron charge to the fourth times the Coulomb constant squared, divided
/// by the electron rest energy in Joules times the electron charge times one
/// hundred million — the unit conversion that makes the result MeV/cm.
pub open spec fn spec_general_constant() -> Expr {
    e_div(
        e_mul(
            e_mul(e_mul(lit(FOUR_BITS), lit(PI_BITS)), spec_charge_fourth()),
            e_mul(lit(COULOMB_CONSTANT_BITS), lit(COULOMB_CONSTANT_BITS)),
        ),
        e_mul(e_mul(spec_electron_mass_joule(), lit(ELECTRON_CHARGE_BITS)), lit(HUNDRED_MEGA_BITS)),
    )
}

/// The constants that every energy sample reuses: they are derived once from
/// the physical constants, and none of them depends on the energy variable.
pub struct Kinematics {
    /// Proton rest energy in eV.
    pub proton_mass_ev: Expr,
    /// Electron rest energy in Joules.
    pub electron_mass_joule: Expr,
    /// Electron rest energy in eV.
    pub electron_mass_ev: Expr,
    /// The general multiplicative constant.
    pub general_constant: Expr,
}

/// Derives the kinematic constants from the physical constants.
pub fn derive_kinematics() -> (k: Kinematics)
    ensures
        k.proton_mass_ev == spec_proton_mass_ev(),
        k.electron_mass_joule == spec_electron_mass_joule(),
        k.electron_mass_ev == spec_electron_mass_ev(),
        k.general_constant == spec_general_constant(),
{
    Kinematics {
        proton_mass_ev: Expr::Const(PROTON_REST_MASS_BITS)
            .times(Expr::Const(SPEED_OF_LIGHT_BITS))
            .times(Expr::Const(SPEED_OF_LIGHT_BITS))
            .over(Expr::Const(ELECTRON_CHARGE_BITS)),
        electron_mass_joule: electron_mass_joule(),
        electron_mass_ev: electron_mass_joule().over(Expr::Const(ELECTRON_CHARGE_BITS)),
        general_constant: general_constant(),
    }
}

/// Electron rest energy in Joules.
fn electron_mass_joule() -> (r: Expr)
    ensures
        r == spec_electron_mass_joule(),
{
    Expr::Const(ELECTRON_REST_MASS_BITS)
        .times(Expr::Const(SPEED_OF_LIGHT_BITS))
        .times(Expr::Const(SPEED_OF_LIGHT_BITS))
}

/// The general multiplicative constant.
fn general_constant() -> (r: Expr)
    ensures
        r == spec_general_constant(),
{
    let charge_fourth = Expr::Const(ELECTRON_CHARGE_BITS)
        .times(Expr::Const(ELECTRON_CHARGE_BITS))
        .times(Expr::Const(ELECTRON_CHARGE_BITS).times(Expr::Const(ELECTRON_CHARGE_BITS)));
    let numerator = Expr::Const(FOUR_BITS)
        .times(Expr::Const(PI_BITS))
        .times(charge_fourth)
        .times(Expr::Const(COULOMB_CONSTANT_BITS).times(Expr::Const(COULOMB_CONSTANT_BITS)));
    let denominator = electron_mass_joule()
        .times(Expr::Const(ELECTRON_CHARGE_BITS))
        .times(Expr::Const(HUNDRED_MEGA_BITS));
    numerator.over(denominator)
}

// ---------------------------------------------------------------------------
// Relativistic kinematics of one sample.

/// The swept energy in eV: the energy variable in MeV, scaled by the reference
/// proton energy unit and by one million.
pub open spec fn spec_energy_ev() -> Expr {
    e_mul(e_mul(lit(PROTON_ENERGY_UNIT_BITS), Expr::Energy), lit(MEGA_BITS))
}

/// The swept energy in eV, as a tree over the energy variable.
pub fn energy_in_ev() -> (r: Expr)
    ensures
        r == spec_energy_ev(),
{
    Expr::Const(PROTON_ENERGY_UNIT_BITS).times(Expr::Energy).times(Expr::Const(MEGA_BITS))
}

/// The relativistic speed fraction: the square root of E(E + 2M) over E + M,
/// for kinetic energy E and rest energy M, both in eV. At zero energy the
/// numerator is zero and the denominator is M, so the fraction is zero; the
/// value lies in [0, 1) for every nonnegative energy.
pub open spec fn spec_beta(energy_ev: Expr, proton_mass_ev: Expr) -> Expr {
    e_div(
        e_sqrt(e_mul(energy_ev, e_add(energy_ev, e_mul(lit(TWO_BITS), proton_mass_ev)))),
        e_add(energy_ev, proton_mass_ev),
    )
}

/// The relativistic speed fraction of a projectile of the given kinetic energy
/// and rest energy, both in eV.
pub fn beta_of(energy_ev: &Expr, proton_mass_ev: &Expr) -> (r: Expr)
    ensures
        r == spec_beta(*energy_ev, *proton_mass_ev),
{
    energy_ev
        .clone()
        .times(energy_ev.clone().plus(Expr::Const(TWO_BITS).times(proton_mass_ev.clone())))
        .square_root()
        .over(energy_ev.clone().plus(proton_mass_ev.clone()))
}

/// Beta-gamma, the relativistic momentum parameter: beta over the square root
/// of one minus beta squared. It grows without bound as beta approaches one,
/// which the sweep's energies do not reach.
pub open spec fn spec_beta_gamma(beta: Expr) -> Expr {
    e_div(beta, e_sqrt(e_sub(lit(ONE_BITS), e_mul(beta, beta))))
}

/// Beta-gamma of the given speed fraction.
pub fn beta_gamma(beta: &Expr) -> (r: Expr)
    ensures
        r == spec_beta_gamma(*beta),
{
    beta.clone().over(
        Expr::Const(ONE_BITS).minus(beta.clone().times(beta.clone())).square_root(),
    )
}

// ---------------------------------------------------------------------------
// The ionization constant.

/// The ionization constant in MeV for the element with atomic number `z`:
/// (12 z + 7) / 1e6 below atomic number thirteen, else
/// (9.76 z_projectile + 58.8 z^-0.19) / 1e6. In the light branch the numerator
/// is an integer, so its double is exact.
pub open spec fn spec_ionization_constant(z: u64) -> Expr {
    if z < 13 {
        e_div(lit(double_bits_of((12 * z + 7) as nat)), lit(MEGA_BITS))
    } else {
        e_div(
            e_add(
                e_mul(lit(ION_HEAVY_LINEAR_BITS), lit(PROTON_CHARGE_NUMBER_BITS)),
                e_mul(
                    lit(ION_HEAVY_POWER_BITS),
                    e_pow(lit(double_bits_of(z as nat)), lit(ION_HEAVY_EXPONENT_BITS)),
                ),
            ),
            lit(MEGA_BITS),
        )
    }
}

/// The ionization constant for atomic number `z`, choosing the branch on the
/// integer atomic number itself. Only the shell correction consumes this
/// value: the bare and density-corrected variants never do.
pub fn ionization_constant(z: u64) -> (r: Expr)
    requires
        12 * z + 7 < 0x20000000000000,
    ensures
        r == spec_ionization_constant(z),
{
    if z < 13 {
        Expr::Const(double_bits_of_int(12 * z + 7)).over(Expr::Const(MEGA_BITS))
    } else {
        Expr::Const(ION_HEAVY_LINEAR_BITS)
            .times(Expr::Const(PROTON_CHARGE_NUMBER_BITS))
            .plus(Expr::Const(ION_HEAVY_POWER_BITS).times(
                Expr::Const(double_bits_of_int(z)).to_power(Expr::Const(ION_HEAVY_EXPONENT_BITS)),
            ))
            .over(Expr::Const(MEGA_BITS))
    }
}

// ---------------------------------------------------------------------------
// The density-effect correction.

/// The Sternheimer abscissa: the base-ten logarithm of beta-gamma.
pub open spec fn spec_density_x(beta: Expr) -> Expr {
    e_log10(spec_beta_gamma(beta))
}

/// The high branch of the density correction, for x at least x1:
/// two ln(10) x plus the offset c (the offset is added, not subtracted).
pub open spec fn spec_density_high(x: Expr, p: CorrectionParameters) -> Expr {
    e_add(e_mul(e_mul(lit(TWO_BITS), lit(LN_10_BITS)), x), lit(p.c_param))
}

/// The middle branch of the density correction, for x in [x0, x1): the high
/// branch plus a (x1 - x)^m.
pub open spec fn spec_density_middle(x: Expr, p: CorrectionParameters) -> Expr {
    e_add(
        spec_density_high(x, p),
        e_mul(lit(p.a), e_pow(e_sub(lit(p.x1), x), lit(p.m_param))),
    )
}

/// The density-effect correction: piecewise in x = log10(beta-gamma) against
/// the thresholds x0 and x1. The comparison against x1 is made first, so a tie
/// at x1 takes the high branch; a tie at x0 takes the middle branch; and below
/// x0 the correction is the exact positive-zero constant.
pub open spec fn spec_density_correction(beta: Expr, p: CorrectionParameters) -> Expr {
    let x = spec_density_x(beta);
    e_if_at_least(
        x,
        lit(p.x1),
        spec_density_high(x, p),
        e_if_at_least(x, lit(p.x0), spec_density_middle(x, p), lit(ZERO_BITS)),
    )
}

/// The density-effect correction for the given speed fraction and parameters.
pub fn density_correction(beta: &Expr, params: &CorrectionParameters) -> (r: Expr)
    ensures
        r == spec_density_correction(*beta, *params),
{
    let x = beta_gamma(beta).log_base_ten();
    let high = Expr::Const(TWO_BITS)
        .times(Expr::Const(LN_10_BITS))
        .times(x.clone())
        .plus(Expr::Const(params.c_param));
    let middle = high.clone().plus(Expr::Const(params.a).times(
        Expr::Const(params.x1).minus(x.clone()).to_power(Expr::Const(params.m_param)),
    ));
    let below_high = x.clone().if_at_least(
        Expr::Const(params.x0),
        middle,
        Expr::Const(ZERO_BITS),
    );
    x.if_at_least(Expr::Const(params.x1), high, below_high)
}

// ---------------------------------------------------------------------------
// The shell correction.

/// The shell correction: two polynomials in the inverse second, fourth and
/// sixth powers of beta-gamma, scaled by the second and third powers of the
/// ionization constant and by fixed decimal coefficients.
pub open spec fn spec_shell_correction(bg: Expr, ion: Expr) -> Expr {
    let inv2 = e_div(lit(ONE_BITS), e_mul(bg, bg));
    let inv4 = e_mul(inv2, inv2);
    let inv6 = e_mul(inv4, inv2);
    let poly_a = e_sub(
        e_add(e_mul(lit(SHELL_A2_BITS), inv2), e_mul(lit(SHELL_A4_BITS), inv4)),
        e_mul(lit(SHELL_A6_BITS), inv6),
    );
    let poly_b = e_add(
        e_sub(e_mul(lit(SHELL_B2_BITS), inv2), e_mul(lit(SHELL_B4_BITS), inv4)),
        e_mul(lit(SHELL_B6_BITS), inv6),
    );
    e_add(
        e_mul(e_mul(poly_a, lit(MICRO_BITS)), e_mul(e_mul(ion, ion), lit(MICRO_BITS))),
        e_mul(e_mul(poly_b, lit(NANO_BITS)), e_mul(e_mul(e_mul(ion, ion), ion), lit(MICRO_BITS))),
    )
}

/// The shell correction for the given beta-gamma and ionization constant.
pub fn shell_correction(bg: &Expr, ion: &Expr) -> (r: Expr)
    ensures
        r == spec_shell_correction(*bg, *ion),
{
    let inv2 = Expr::Const(ONE_BITS).over(bg.clone().times(bg.clone()));
    let inv4 = inv2.clone().times(inv2.clone());
    let inv6 = inv4.clone().times(inv2.clone());
    let poly_a = Expr::Const(SHELL_A2_BITS)
        .times(inv2.clone())
        .plus(Expr::Const(SHELL_A4_BITS).times(inv4.clone()))
        .minus(Expr::Const(SHELL_A6_BITS).times(inv6.clone()));
    let poly_b = Expr::Const(SHELL_B2_BITS)
        .times(inv2)
        .minus(Expr::Const(SHELL_B4_BITS).times(inv4))
        .plus(Expr::Const(SHELL_B6_BITS).times(inv6));
    let ion_squared = ion.clone().times(ion.clone());
    let ion_cubed = ion.clone().times(ion.clone()).times(ion.clone());
    poly_a
        .times(Expr::Const(MICRO_BITS))
        .times(ion_squared.times(Expr::Const(MICRO_BITS)))
        .plus(poly_b.times(Expr::Const(NANO_BITS)).times(
            ion_cubed.times(Expr::Const(MICRO_BITS)),
        ))
}

// ---------------------------------------------------------------------------
// The stopping power.

/// The speed fraction of the swept sample: beta of the swept energy in eV and
/// the proton rest energy.
pub open spec fn spec_sweep_beta() -> Expr {
    spec_beta(spec_energy_ev(), spec_proton_mass_ev())
}

/// The bracket of the bare formula: ln of (two electron rest energies times
/// beta squared over the water excitation energy), minus ln(1 - beta squared),
/// minus beta squared. The excitation energy here is the fixed water constant,
/// not the computed ionization constant.
pub open spec fn spec_base_bracket(beta: Expr) -> Expr {
    let beta2 = e_mul(beta, beta);
    e_sub(
        e_sub(
            e_ln(e_div(
                e_mul(e_mul(lit(TWO_BITS), spec_electron_mass_ev()), beta2),
                lit(WATER_EXCITATION_ENERGY_BITS),
            )),
            e_ln(e_sub(lit(ONE_BITS), beta2)),
        ),
        beta2,
    )
}

/// The density term of the bracket: the density correction at the swept beta.
pub open spec fn spec_density_term(p: CorrectionParameters) -> Expr {
    spec_density_correction(spec_sweep_beta(), p)
}

/// The shell term of the bracket, over the given ionization constant: twice
/// the shell correction at the swept beta-gamma, divided by the atomic number.
pub open spec fn spec_shell_term_with(ion: Expr) -> Expr {
    e_mul(
        lit(TWO_BITS),
        e_div(
            spec_shell_correction(spec_beta_gamma(spec_sweep_beta()), ion),
            lit(WATER_ATOMIC_NUMBER_BITS),
        ),
    )
}

/// The shell term of the bracket, with the ionization constant of water.
pub open spec fn spec_shell_term() -> Expr {
    spec_shell_term_with(spec_ionization_constant(WATER_ATOMIC_NUMBER))
}

/// The corrected bracket, over the given ionization constant: the base bracket
/// minus whichever correction terms the variant selects.
pub open spec fn spec_corrected_bracket_with(
    variant: Variant,
    p: CorrectionParameters,
    ion: Expr,
) -> Expr {
    let base = spec_base_bracket(spec_sweep_beta());
    match variant {
        Variant::NoCorrection => base,
        Variant::DensityCorrection => e_sub(base, spec_density_term(p)),
        Variant::ShellCorrection => e_sub(base, spec_shell_term_with(ion)),
        Variant::AllCorrections => e_sub(
            e_sub(base, spec_density_term(p)),
            spec_shell_term_with(ion),
        ),
    }
}

/// The corrected bracket of the formula, with the ionization constant of
/// water.
pub open spec fn spec_corrected_bracket(variant: Variant, p: CorrectionParameters) -> Expr {
    spec_corrected_bracket_with(variant, p, spec_ionization_constant(WATER_ATOMIC_NUMBER))
}

/// The prefactor of the formula: the general constant times the projectile
/// charge number squared times the electron density of water, over beta
/// squared.
pub open spec fn spec_prefactor(beta: Expr) -> Expr {
    e_div(
        e_mul(
            e_mul(
                spec_general_constant(),
                e_mul(lit(PROTON_CHARGE_NUMBER_BITS), lit(PROTON_CHARGE_NUMBER_BITS)),
            ),
            lit(WATER_ELECTRON_DENSITY_BITS),
        ),
        e_mul(beta, beta),
    )
}

/// The stopping power in MeV/cm, as a tree over the energy variable in MeV:
/// the prefactor times the corrected bracket.
pub open spec fn spec_stopping_power(variant: Variant, p: CorrectionParameters) -> Expr {
    e_mul(spec_prefactor(spec_sweep_beta()), spec_corrected_bracket(variant, p))
}

/// The speed fraction of the swept sample.
fn sweep_beta() -> (r: Expr)
    ensures
        r == spec_sweep_beta(),
{
    let kinematics = derive_kinematics();
    beta_of(&energy_in_ev(), &kinematics.proton_mass_ev)
}

/// The bracket of the bare formula at the given speed fraction.
fn base_bracket(beta: &Expr) -> (r: Expr)
    ensures
        r == spec_base_bracket(*beta),
{
    let beta2 = beta.clone().times(beta.clone());
    let kinematics = derive_kinematics();
    Expr::Const(TWO_BITS)
        .times(kinematics.electron_mass_ev)
        .times(beta2.clone())
        .over(Expr::Const(WATER_EXCITATION_ENERGY_BITS))
        .natural_log()
        .minus(Expr::Const(ONE_BITS).minus(beta2.clone()).natural_log())
        .minus(beta2)
}

/// The shell term of the bracket, with the ionization constant of water.
fn shell_term() -> (r: Expr)
    ensures
        r == spec_shell_term(),
{
    let bg = beta_gamma(&sweep_beta());
    let ion = ionization_constant(WATER_ATOMIC_NUMBER);
    Expr::Const(TWO_BITS).times(
        shell_correction(&bg, &ion).over(Expr::Const(WATER_ATOMIC_NUMBER_BITS)),
    )
}

/// The corrected bracket of the formula for the given variant and parameters.
pub fn corrected_bracket(variant: Variant, params: &CorrectionParameters) -> (r: Expr)
    ensures
        r == spec_corrected_bracket(variant, *params),
{
    let base = base_bracket(&sweep_beta());
    match variant {
        Variant::NoCorrection => base,
        Variant::DensityCorrection => base.minus(density_correction(&sweep_beta(), params)),
        Variant::ShellCorrection => base.minus(shell_term()),
        Variant::AllCorrections => base
            .minus(density_correction(&sweep_beta(), params))
            .minus(shell_term()),
    }
}

/// The stopping power in MeV/cm for the given variant and parameters, as a
/// tree over the energy variable in MeV.
pub fn stopping_power(variant: Variant, params: &CorrectionParameters) -> (r: Expr)
    ensures
        r == spec_stopping_power(variant, *params),
{
    let beta = sweep_beta();
    let kinematics = derive_kinematics();
    let prefactor = kinematics
        .general_constant
        .times(Expr::Const(PROTON_CHARGE_NUMBER_BITS).times(Expr::Const(PROTON_CHARGE_NUMBER_BITS)))
        .times(Expr::Const(WATER_ELECTRON_DENSITY_BITS))
        .over(beta.clone().times(beta));
    prefactor.times(corrected_bracket(variant, params))
}

// ---------------------------------------------------------------------------
// Laws of the model.

/// The bracket with all corrections is exactly the bare bracket minus the
/// density term minus the shell term: the variants differ term for term, in
/// the order the brackets subtract them, and in nothing else. The same holds
/// of the whole formula, under the shared prefactor.
pub proof fn lemma_all_corrections_structure(p: CorrectionParameters)
    ensures
        spec_corrected_bracket(Variant::AllCorrections, p) == e_sub(
            e_sub(spec_corrected_bracket(Variant::NoCorrection, p), spec_density_term(p)),
            spec_shell_term(),
        ),
        spec_stopping_power(Variant::AllCorrections, p) == e_mul(
            spec_prefactor(spec_sweep_beta()),
            e_sub(
                e_sub(spec_corrected_bracket(Variant::NoCorrection, p), spec_density_term(p)),
                spec_shell_term(),
            ),
        ),
{
}

/// The bare and density-corrected brackets do not consume the ionization
/// constant: whatever tree stands for it, those two brackets are the same.
pub proof fn lemma_plain_variants_ignore_ionization(
    p: CorrectionParameters,
    ion_a: Expr,
    ion_b: Expr,
)
    ensures
        spec_corrected_bracket_with(Variant::NoCorrection, p, ion_a)
            == spec_corrected_bracket_with(Variant::NoCorrection, p, ion_b),
        spec_corrected_bracket_with(Variant::DensityCorrection, p, ion_a)
            == spec_corrected_bracket_with(Variant::DensityCorrection, p, ion_b),
{
}

/// The bare and shell-corrected brackets do not consume the correction
/// parameters: whatever the five parameters hold, those two brackets are the
/// same tree, which is why their sweeps need no parameter source.
pub proof fn lemma_unparameterized_variants(p1: CorrectionParameters, p2: CorrectionParameters)
    ensures
        spec_corrected_bracket(Variant::NoCorrection, p1)
            == spec_corrected_bracket(Variant::NoCorrection, p2),
        spec_corrected_bracket(Variant::ShellCorrection, p1)
            == spec_corrected_bracket(Variant::ShellCorrection, p2),
        spec_stopping_power(Variant::NoCorrection, p1)
            == spec_stopping_power(Variant::NoCorrection, p2),
        spec_stopping_power(Variant::ShellCorrection, p1)
            == spec_stopping_power(Variant::ShellCorrection, p2),
{
}

/// The constants that `derive_kinematics` returns never mention the energy
/// variable, and neither does any ionization constant: they are derived once
/// and hold at every sample of a sweep.
pub proof fn lemma_derived_constants_energy_free(z: u64)
    ensures
        is_grounded(spec_proton_mass_ev()),
        is_grounded(spec_electron_mass_joule()),
        is_grounded(spec_electron_mass_ev()),
        is_grounded(spec_general_constant()),
        is_grounded(spec_ionization_constant(z)),
{
    reveal_with_fuel(is_grounded, 10);
}

/// The density correction tests its thresholds in a fixed order: a tie at x1
/// takes the high branch, a tie at x0 takes the middle branch, and below both
/// thresholds the correction is the exact positive-zero constant.
pub proof fn lemma_density_tie_breaking(beta: Expr, p: CorrectionParameters)
    ensures
        spec_density_correction(beta, p) == e_if_at_least(
            spec_density_x(beta),
            lit(p.x1),
            spec_density_high(spec_density_x(beta), p),
            e_if_at_least(
                spec_density_x(beta),
                lit(p.x0),
                spec_density_middle(spec_density_x(beta), p),
                lit(ZERO_BITS),
            ),
        ),
{
}

} // verus!
