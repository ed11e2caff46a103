use vstd::prelude::*;

verus! {

/// A stopping-power formula, written out as an expression tree.
///
/// Verus does not reason about floating-point arithmetic, so the library never
/// computes with doubles itself. Instead it builds, and proves exact statements
/// about, the tree of operations that a caller is to evaluate over IEEE-754
/// doubles. Every numeric leaf carries the bit pattern of the double it stands
/// for, so a tree pins the evaluated formula down to the last bit.
pub enum Expr {
    /// A constant, given as the bit pattern of an IEEE-754 double.
    Const(u64),
    /// The kinetic energy of the projectile in MeV: the one free variable of a
    /// stopping-power formula, supplied by the evaluator for each sample.
    Energy,
    /// The sum of the two operands.
    Add(Box<Expr>, Box<Expr>),
    /// The first operand minus the second.
    Sub(Box<Expr>, Box<Expr>),
    /// The product of the two operands.
    Mul(Box<Expr>, Box<Expr>),
    /// The first operand divided by the second.
    Div(Box<Expr>, Box<Expr>),
    /// The square root of the operand.
    Sqrt(Box<Expr>),
    /// The natural logarithm of the operand.
    Ln(Box<Expr>),
    /// The base-ten logarithm of the operand.
    Log10(Box<Expr>),
    /// The first operand raised to the second.
    Pow(Box<Expr>, Box<Expr>),
    /// The third operand where the first is at least the second, else the
    /// fourth. The comparison is the evaluator's `>=` on doubles, so ties go to
    /// the third operand.
    IfAtLeast(Box<Expr>, Box<Expr>, Box<Expr>, Box<Expr>),
}

impl Clone for Expr {
    /// An exact copy of the tree.
    fn clone(&self) -> (r: Self)
        ensures
            r == *self,
        decreases *self,
    {
        match self {
            Expr::Const(bits) => Expr::Const(*bits),
            Expr::Energy => Expr::Energy,
            Expr::Add(a, b) => Expr::Add(Box::new((**a).clone()), Box::new((**b).clone())),
            Expr::Sub(a, b) => Expr::Sub(Box::new((**a).clone()), Box::new((**b).clone())),
            Expr::Mul(a, b) => Expr::Mul(Box::new((**a).clone()), Box::new((**b).clone())),
            Expr::Div(a, b) => Expr::Div(Box::new((**a).clone()), Box::new((**b).clone())),
            Expr::Sqrt(a) => Expr::Sqrt(Box::new((**a).clone())),
            Expr::Ln(a) => Expr::Ln(Box::new((**a).clone())),
            Expr::Log10(a) => Expr::Log10(Box::new((**a).clone())),
            Expr::Pow(a, b) => Expr::Pow(Box::new((**a).clone()), Box::new((**b).clone())),
            Expr::IfAtLeast(a, b, c, d) => Expr::IfAtLeast(
                Box::new((**a).clone()),
                Box::new((**b).clone()),
                Box::new((**c).clone()),
                Box::new((**d).clone()),
            ),
        }
    }
}

// Shorthand for stating trees in specifications.

/// The constant with the given double bit pattern.
pub open spec fn lit(bits: u64) -> Expr {
    Expr::Const(bits)
}

/// The sum of the two trees.
pub open spec fn e_add(a: Expr, b: Expr) -> Expr {
    Expr::Add(Box::new(a), Box::new(b))
}

/// The first tree minus the second.
pub open spec fn e_sub(a: Expr, b: Expr) -> Expr {
    Expr::Sub(Box::new(a), Box::new(b))
}

/// The product of the two trees.
pub open spec fn e_mul(a: Expr, b: Expr) -> Expr {
    Expr::Mul(Box::new(a), Box::new(b))
}

/// The first tree divided by the second.
pub open spec fn e_div(a: Expr, b: Expr) -> Expr {
    Expr::Div(Box::new(a), Box::new(b))
}

/// The square root of the tree.
pub open spec fn e_sqrt(a: Expr) -> Expr {
    Expr::Sqrt(Box::new(a))
}

/// The natural logarithm of the tree.
pub open spec fn e_ln(a: Expr) -> Expr {
    Expr::Ln(Box::new(a))
}

/// The base-ten logarithm of the tree.
pub open spec fn e_log10(a: Expr) -> Expr {
    Expr::Log10(Box::new(a))
}

/// The first tree raised to the second.
pub open spec fn e_pow(a: Expr, b: Expr) -> Expr {
    Expr::Pow(Box::new(a), Box::new(b))
}

/// `above` where `a` is at least `b`, else `below`.
pub open spec fn e_if_at_least(a: Expr, b: Expr, above: Expr, below: Expr) -> Expr {
    Expr::IfAtLeast(Box::new(a), Box::new(b), Box::new(above), Box::new(below))
}

impl Expr {
    /// The sum of `self` and `other`.
    pub fn plus(self, other: Expr) -> (r: Expr)
        ensures
            r == e_add(self, other),
    {
        Expr::Add(Box::new(self), Box::new(other))
    }

    /// `self` minus `other`.
    pub fn minus(self, other: Expr) -> (r: Expr)
        ensures
            r == e_sub(self, other),
    {
        Expr::Sub(Box::new(self), Box::new(other))
    }

    /// The product of `self` and `other`.
    pub fn times(self, other: Expr) -> (r: Expr)
        ensures
            r == e_mul(self, other),
    {
        Expr::Mul(Box::new(self), Box::new(other))
    }

    /// `self` divided by `other`.
    pub fn over(self, other: Expr) -> (r: Expr)
        ensures
            r == e_div(self, other),
    {
        Expr::Div(Box::new(self), Box::new(other))
    }

    /// The square root of `self`.
    pub fn square_root(self) -> (r: Expr)
        ensures
            r == e_sqrt(self),
    {
        Expr::Sqrt(Box::new(self))
    }

    /// The natural logarithm of `self`.
    pub fn natural_log(self) -> (r: Expr)
        ensures
            r == e_ln(self),
    {
        Expr::Ln(Box::new(self))
    }

    /// The base-ten logarithm of `self`.
    pub fn log_base_ten(self) -> (r: Expr)
        ensures
            r == e_log10(self),
    {
        Expr::Log10(Box::new(self))
    }

    /// `self` raised to `other`.
    pub fn to_power(self, other: Expr) -> (r: Expr)
        ensures
            r == e_pow(self, other),
    {
        Expr::Pow(Box::new(self), Box::new(other))
    }

    /// `above` where `self` is at least `bound`, else `below`.
    pub fn if_at_least(self, bound: Expr, above: Expr, below: Expr) -> (r: Expr)
        ensures
            r == e_if_at_least(self, bound, above, below),
    {
        Expr::IfAtLeast(Box::new(self), Box::new(bound), Box::new(above), Box::new(below))
    }
}

/// Whether the tree mentions the energy variable nowhere, so that its value is
/// the same at every sample of a sweep and an evaluator may reduce it once.
pub open spec fn is_grounded(e: Expr) -> bool
    decreases e,
{
    match e {
        Expr::Const(_) => true,
        Expr::Energy => false,
        Expr::Add(a, b) => is_grounded(*a) && is_grounded(*b),
        Expr::Sub(a, b) => is_grounded(*a) && is_grounded(*b),
        Expr::Mul(a, b) => is_grounded(*a) && is_grounded(*b),
        Expr::Div(a, b) => is_grounded(*a) && is_grounded(*b),
        Expr::Sqrt(a) => is_grounded(*a),
        Expr::Ln(a) => is_grounded(*a),
        Expr::Log10(a) => is_grounded(*a),
        Expr::Pow(a, b) => is_grounded(*a) && is_grounded(*b),
        Expr::IfAtLeast(a, b, c, d) => is_grounded(*a) && is_grounded(*b) && is_grounded(*c)
            && is_grounded(*d),
    }
}

} // verus!
