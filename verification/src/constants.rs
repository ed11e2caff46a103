use vstd::prelude::*;
use vstd::arithmetic::power2::{lemma2_to64, lemma2_to64_rest};
use crate::ieee::{double_bits_of, highest_bit};

verus! {

// Physical constants of the model, each as the bit pattern of the IEEE-754
// double it stands for (SI units; energies in eV unless noted). The companion
// tests pin every pattern to its decimal value.

/// Electron charge, 1.602176634e-19 C.
pub const ELECTRON_CHARGE_BITS: u64 = 0x3c07a4da290c1653;

/// Electron rest mass, 9.10938356e-31 kg.
pub const ELECTRON_REST_MASS_BITS: u64 = 0x39b279dcc3e61461;

/// Speed of light, 299792458 m/s.
pub const SPEED_OF_LIGHT_BITS: u64 = 0x41b1de784a000000;

/// Atomic number used for water, 9, as a double.
pub const WATER_ATOMIC_NUMBER_BITS: u64 = 0x4022000000000000;

/// Atomic number used for water, 9, as an integer.
pub const WATER_ATOMIC_NUMBER: u64 = 9;

/// Reference proton energy unit, 1 MeV, by which the swept energies are scaled.
pub const PROTON_ENERGY_UNIT_BITS: u64 = 0x3ff0000000000000;

/// Proton rest mass, 1.6726219e-27 kg.
pub const PROTON_REST_MASS_BITS: u64 = 0x3a609099adfaf983;

/// Mean excitation energy of water, 74.6 eV.
pub const WATER_EXCITATION_ENERGY_BITS: u64 = 0x4052a66666666666;

/// Electron density of water, 3.3429 (electrons per volume, in the unit system
/// folded into the general constant).
pub const WATER_ELECTRON_DENSITY_BITS: u64 = 0x400abe425aee6320;

/// Coulomb constant, 8.99e9 N m^2 / C^2.
pub const COULOMB_CONSTANT_BITS: u64 = 0x4200bec41c000000;

/// Charge number of the projectile (a proton), 1.
pub const PROTON_CHARGE_NUMBER_BITS: u64 = 0x3ff0000000000000;

// Mathematical constants and decimal coefficients of the correction terms.

/// The double nearest to pi.
pub const PI_BITS: u64 = 0x400921fb54442d18;

/// The double nearest to ln(10).
pub const LN_10_BITS: u64 = 0x40026bb1bbb55516;

/// Positive zero.
pub const ZERO_BITS: u64 = 0x0000000000000000;

/// One.
pub const ONE_BITS: u64 = 0x3ff0000000000000;

/// Two.
pub const TWO_BITS: u64 = 0x4000000000000000;

/// Four.
pub const FOUR_BITS: u64 = 0x4010000000000000;

/// One million: converts MeV to eV.
pub const MEGA_BITS: u64 = 0x412e848000000000;

/// One hundred million: the unit-conversion divisor of the general constant.
pub const HUNDRED_MEGA_BITS: u64 = 0x4197d78400000000;

/// One millionth.
pub const MICRO_BITS: u64 = 0x3eb0c6f7a0b5ed8d;

/// One billionth.
pub const NANO_BITS: u64 = 0x3e112e0be826d695;

/// Shell-correction coefficient 0.422377 of the first polynomial, on the
/// inverse second power of beta-gamma.
pub const SHELL_A2_BITS: u64 = 0x3fdb08398a654930;

/// Shell-correction coefficient 0.0304043 of the first polynomial, on the
/// inverse fourth power of beta-gamma.
pub const SHELL_A4_BITS: u64 = 0x3f9f224e08a18f31;

/// Shell-correction coefficient 0.00038106 of the first polynomial, on the
/// inverse sixth power of beta-gamma (subtracted).
pub const SHELL_A6_BITS: u64 = 0x3f38f9203ce15cd2;

/// Shell-correction coefficient 3.850190 of the second polynomial, on the
/// inverse second power of beta-gamma.
pub const SHELL_B2_BITS: u64 = 0x400ecd306a2b1705;

/// Shell-correction coefficient 0.1667989 of the second polynomial, on the
/// inverse fourth power of beta-gamma (subtracted).
pub const SHELL_B4_BITS: u64 = 0x3fc559aa96411f85;

/// Shell-correction coefficient 0.00157955 of the second polynomial, on the
/// inverse sixth power of beta-gamma.
pub const SHELL_B6_BITS: u64 = 0x3f59e11ce5e9d445;

/// Coefficient 9.76 on the projectile charge number in the ionization constant
/// for atomic numbers of at least thirteen.
pub const ION_HEAVY_LINEAR_BITS: u64 = 0x4023851eb851eb85;

/// Coefficient 58.8 on the power term in the ionization constant for atomic
/// numbers of at least thirteen.
pub const ION_HEAVY_POWER_BITS: u64 = 0x404d666666666666;

/// Exponent -0.19 of the power term in the ionization constant for atomic
/// numbers of at least thirteen.
pub const ION_HEAVY_EXPONENT_BITS: u64 = 0xbfc851eb851eb852;

// Default density-effect correction parameters.

/// Default Sternheimer coefficient a, 0.09116.
pub const DEFAULT_A_BITS: u64 = 0x3fb7564302b40f67;

/// Default lower threshold x0, 0.24.
pub const DEFAULT_X0_BITS: u64 = 0x3fceb851eb851eb8;

/// Default upper threshold x1, 2.8004.
pub const DEFAULT_X1_BITS: u64 = 0x400667381d7dbf48;

/// Default offset C, 3.5017.
pub const DEFAULT_C_BITS: u64 = 0x400c037b4a2339c1;

/// Default Sternheimer exponent m, 3.4773.
pub const DEFAULT_M_BITS: u64 = 0x400bd182a9930be1;

/// Every constant above whose value is a whole number carries exactly the bit
/// pattern that the verified integer encoder gives that number: the hex
/// literals are not free-standing claims.
pub proof fn lemma_integer_constants_encode()
    ensures
        ZERO_BITS == double_bits_of(0),
        ONE_BITS == double_bits_of(1),
        TWO_BITS == double_bits_of(2),
        FOUR_BITS == double_bits_of(4),
        WATER_ATOMIC_NUMBER_BITS == double_bits_of(WATER_ATOMIC_NUMBER as nat),
        PROTON_ENERGY_UNIT_BITS == double_bits_of(1),
        PROTON_CHARGE_NUMBER_BITS == double_bits_of(1),
        MEGA_BITS == double_bits_of(1000000),
        HUNDRED_MEGA_BITS == double_bits_of(100000000),
        SPEED_OF_LIGHT_BITS == double_bits_of(299792458),
{
    lemma2_to64();
    lemma2_to64_rest();
    reveal_with_fuel(highest_bit, 32);
    assert(highest_bit(9) == 3);
    assert(highest_bit(1000000) == 19);
    assert(highest_bit(100000000) == 26);
    assert(highest_bit(299792458) == 28);
}

} // verus!
