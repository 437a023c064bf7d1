//! The base field, by its order, and what the tables need to know of the extension.
use vstd::prelude::*;

verus! {

/// A prime base field and its extension, as far as tables depend on them. Elements of the base
/// field are canonical representatives below `modulus`.
#[derive(Clone, Copy, Debug, PartialEq, Eq)]
pub struct FieldParams {
    /// Order of the base field.
    pub modulus: u64,
    /// `W` of the extension `x^D - W`, if it is of that form.
    pub binomial_w: Option<u64>,
    /// Whether the extension is the quintic trinomial one.
    pub quintic_trinomial: bool,
}

impl FieldParams {
    /// Zero and one are distinct.
    pub open spec fn well_formed(self) -> bool {
        self.modulus > 1
    }

    /// `n` as a field element.
    pub open spec fn element(self, n: u32) -> u64 {
        (n as int % self.modulus as int) as u64
    }

    /// `a - b`.
    pub open spec fn difference(self, a: u64, b: u64) -> u64 {
        ((a - b) % (self.modulus as int)) as u64
    }

    /// `n` as a field element.
    pub fn from_u32(&self, n: u32) -> (res: u64)
        requires
            self.well_formed(),
        ensures
            res == self.element(n),
            res < self.modulus,
    {
        n as u64 % self.modulus
    }

    /// `a - b`.
    pub fn minus(&self, a: u64, b: u64) -> (res: u64)
        requires
            self.well_formed(),
        ensures
            res == self.difference(a, b),
            res < self.modulus,
    {
        let x: u64 = a % self.modulus;
        let y: u64 = b % self.modulus;
        let ghost p = self.modulus as int;
        proof {
            vstd::arithmetic::div_mod::lemma_sub_mod_noop(a as int, b as int, p);
            assert((a - b) % p == (x - y) % p);
            if x >= y {
                vstd::arithmetic::div_mod::lemma_small_mod((x - y) as nat, p as nat);
            } else {
                vstd::arithmetic::div_mod::lemma_mod_add_multiples_vanish(x - y, p);
                vstd::arithmetic::div_mod::lemma_small_mod((p + (x - y)) as nat, p as nat);
            }
        }
        if x >= y {
            x - y
        } else {
            self.modulus - (y - x)
        }
    }
}

/// How the ALU table multiplies extension elements.
#[derive(Clone, Copy, Debug, PartialEq, Eq, Structural)]
pub enum AluExtMulKind {
    /// Base field only.
    Base,
    /// Modulo `x^D - w`.
    Binomial {
        /// The constant `w`.
        w: u64,
    },
    /// Modulo the quintic trinomial.
    QuinticTrinomial,
}

impl AluExtMulKind {
    /// The multiplication for degree `d`: none is needed for degree 1, and otherwise the
    /// extension is the quintic trinomial one or has a binomial `W`.
    pub open spec fn resolved(
        d: usize,
        binomial_w: Option<u64>,
        quintic_trinomial: bool,
    ) -> Option<AluExtMulKind> {
        if d == 1 {
            Some(AluExtMulKind::Base)
        } else if quintic_trinomial {
            Some(AluExtMulKind::QuinticTrinomial)
        } else {
            match binomial_w {
                Some(w) => Some(AluExtMulKind::Binomial { w }),
                None => None,
            }
        }
    }

    /// The multiplication for degree `d`, if the field has one.
    pub fn resolve(d: usize, binomial_w: Option<u64>, quintic_trinomial: bool) -> (res: Option<
        AluExtMulKind,
    >)
        ensures
            res == Self::resolved(d, binomial_w, quintic_trinomial),
    {
        if d == 1 {
            Some(AluExtMulKind::Base)
        } else if quintic_trinomial {
            Some(AluExtMulKind::QuinticTrinomial)
        } else {
            match binomial_w {
                Some(w) => Some(AluExtMulKind::Binomial { w }),
                None => None,
            }
        }
    }
}

} // verus!
