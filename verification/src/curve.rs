use vstd::prelude::*;
use crate::expr::Expr;
use crate::model::{Variant, spec_stopping_power, stopping_power};
use crate::params::CorrectionParameters;

verus! {

/// One curve, ready to evaluate: the swept energies in MeV, in increasing
/// order, and the stopping-power formula to reduce at each of them. The order
/// of the energies is the order of the output points, which the file and plot
/// sinks consume as given.
pub struct CurvePlan {
    /// The swept energies in MeV: sample `i` holds `10 (i + 1)`, an exact
    /// integer, so the doubles the evaluator forms from them are exact too.
    pub energies_mev: Vec<u64>,
    /// The stopping power as a tree over the energy variable in MeV.
    pub formula: Expr,
}

/// One sample of an evaluated curve: the energy in MeV (an exact integer of
/// the sweep grid) and the stopping power in MeV/cm, as the bit pattern of the
/// double the evaluator produced.
#[derive(Clone, Copy, PartialEq, Eq, Structural, Debug)]
pub struct EnergyPoint {
    /// The energy of the sample in MeV.
    pub energy_mev: u64,
    /// The stopping power at that energy, as double bits.
    pub stopping_power_bits: u64,
}

/// Pairs each swept energy with the stopping power evaluated for that sample,
/// position by position: the points come out in the order the energies came
/// in, which for a sweep is increasing energy — the order the file and plot
/// sinks rely on.
pub fn curve_points(energies_mev: &Vec<u64>, stopping_power_bits: &Vec<u64>) -> (points: Vec<
    EnergyPoint,
>)
    requires
        energies_mev@.len() == stopping_power_bits@.len(),
    ensures
        points@.len() == energies_mev@.len(),
        forall|i: int| 0 <= i < points@.len() ==> points@[i].energy_mev == energies_mev@[i]
            && points@[i].stopping_power_bits == stopping_power_bits@[i],
{
    let mut points: Vec<EnergyPoint> = Vec::new();
    let mut i: usize = 0;
    while i < energies_mev.len()
        invariant
            energies_mev@.len() == stopping_power_bits@.len(),
            i <= energies_mev@.len(),
            points@.len() == i,
            forall|j: int| 0 <= j < i ==> points@[j].energy_mev == energies_mev@[j]
                && points@[j].stopping_power_bits == stopping_power_bits@[j],
        decreases energies_mev@.len() - i,
    {
        points.push(EnergyPoint {
            energy_mev: energies_mev[i],
            stopping_power_bits: stopping_power_bits[i],
        });
        i = i + 1;
    }
    points
}

/// Plans one sweep: `n_points` energies from 10 MeV upward in steps of 10 MeV,
/// in strictly increasing order, under the formula of the given variant. The
/// first sample is 10 MeV and the last is `10 n_points` MeV.
pub fn sweep_plan(
    n_points: u32,
    variant: Variant,
    params: &CorrectionParameters,
) -> (plan: CurvePlan)
    ensures
        plan.energies_mev@.len() == n_points,
        forall|i: int| 0 <= i < n_points ==> plan.energies_mev@[i] == 10 * (i + 1),
        forall|i: int, j: int| 0 <= i < j < n_points
            ==> plan.energies_mev@[i] < plan.energies_mev@[j],
        plan.formula == spec_stopping_power(variant, *params),
{
    let mut energies: Vec<u64> = Vec::new();
    let mut i: u32 = 0;
    while i < n_points
        invariant
            i <= n_points,
            energies@.len() == i,
            forall|j: int| 0 <= j < i ==> energies@[j] == 10 * (j + 1),
        decreases n_points - i,
    {
        energies.push((i as u64 + 1) * 10);
        i = i + 1;
    }
    CurvePlan { energies_mev: energies, formula: stopping_power(variant, params) }
}

} // verus!
