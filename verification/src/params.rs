use vstd::prelude::*;
use crate::constants::{DEFAULT_A_BITS, DEFAULT_C_BITS, DEFAULT_M_BITS, DEFAULT_X0_BITS, DEFAULT_X1_BITS};

verus! {

/// The five Sternheimer density-effect parameters, each as the bit pattern of
/// an IEEE-754 double: the coefficient `a`, the thresholds `x0` and `x1` on the
/// base-ten logarithm of beta-gamma, the exponent `m_param` and the offset
/// `c_param`.
#[derive(Clone, Copy, PartialEq, Eq, Structural, Debug)]
pub struct CorrectionParameters {
    pub a: u64,
    pub x0: u64,
    pub x1: u64,
    pub m_param: u64,
    pub c_param: u64,
}

/// The documented default correction parameters.
pub open spec fn spec_default_parameters() -> CorrectionParameters {
    CorrectionParameters {
        a: DEFAULT_A_BITS,
        x0: DEFAULT_X0_BITS,
        x1: DEFAULT_X1_BITS,
        m_param: DEFAULT_M_BITS,
        c_param: DEFAULT_C_BITS,
    }
}

/// The default correction parameters: a = 0.09116, x0 = 0.24, x1 = 2.8004,
/// c_param = 3.5017, m_param = 3.4773.
pub fn default_parameters() -> (p: CorrectionParameters)
    ensures
        p == spec_default_parameters(),
{
    CorrectionParameters {
        a: DEFAULT_A_BITS,
        x0: DEFAULT_X0_BITS,
        x1: DEFAULT_X1_BITS,
        m_param: DEFAULT_M_BITS,
        c_param: DEFAULT_C_BITS,
    }
}

/// Resolves one field of the correction parameters: the supplied value where
/// parsing gave one, else the documented default for that field alone.
pub open spec fn spec_resolved(supplied: Option<u64>, default: u64) -> u64 {
    match supplied {
        Some(bits) => bits,
        None => default,
    }
}

/// Builds the correction parameters from whatever fields the caller could
/// parse, falling back to the documented default for each missing field on its
/// own: a parse failure is never fatal and never touches the other fields.
pub fn resolve_parameters(
    a: Option<u64>,
    x0: Option<u64>,
    x1: Option<u64>,
    m_param: Option<u64>,
    c_param: Option<u64>,
) -> (p: CorrectionParameters)
    ensures
        p.a == spec_resolved(a, DEFAULT_A_BITS),
        p.x0 == spec_resolved(x0, DEFAULT_X0_BITS),
        p.x1 == spec_resolved(x1, DEFAULT_X1_BITS),
        p.m_param == spec_resolved(m_param, DEFAULT_M_BITS),
        p.c_param == spec_resolved(c_param, DEFAULT_C_BITS),
{
    CorrectionParameters {
        a: match a {
            Some(bits) => bits,
            None => DEFAULT_A_BITS,
        },
        x0: match x0 {
            Some(bits) => bits,
            None => DEFAULT_X0_BITS,
        },
        x1: match x1 {
            Some(bits) => bits,
            None => DEFAULT_X1_BITS,
        },
        m_param: match m_param {
            Some(bits) => bits,
            None => DEFAULT_M_BITS,
        },
        c_param: match c_param {
            Some(bits) => bits,
            None => DEFAULT_C_BITS,
        },
    }
}

} // verus!
