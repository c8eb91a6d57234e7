use vstd::prelude::*;

verus! {

/// The least integer not below `n * numerator / denominator`.
pub open spec fn ceil_scaled(n: nat, numerator: nat, denominator: nat) -> nat
    recommends
        denominator > 0,
{
    ((n * numerator + denominator - 1) / (denominator as int)) as nat
}

/// A train/test split ratio held exactly as `numerator / denominator`, with
/// `0 <= numerator <= denominator` and `denominator > 0`.
pub struct SplitRatio {
    numerator: u64,
    denominator: u64,
}

impl SplitRatio {
    pub closed spec fn num(&self) -> nat {
        self.numerator as nat
    }

    pub closed spec fn den(&self) -> nat {
        self.denominator as nat
    }

    /// Every ratio this type can hold lies in `[0, 1]`.
    pub closed spec fn wf(&self) -> bool {
        0 < self.denominator && self.numerator <= self.denominator
    }

    /// Builds the ratio `numerator / denominator`; `None` unless it is a
    /// fraction in `[0, 1]` with a non-zero denominator.
    pub fn new(numerator: u64, denominator: u64) -> (r: Option<SplitRatio>)
        ensures
            r is Some <==> (0 < denominator && numerator <= denominator),
            r matches Some(s) ==> s.wf() && s.num() == numerator && s.den() == denominator,
    {
        if 0 < denominator && numerator <= denominator {
            Some(SplitRatio { numerator, denominator })
        } else {
            None
        }
    }

    pub fn numerator(&self) -> (r: u64)
        ensures
            r == self.num(),
    {
        self.numerator
    }

    pub fn denominator(&self) -> (r: u64)
        ensures
            r == self.den(),
    {
        self.denominator
    }

    /// The number of leading rows that go to the training set when `n` rows
    /// are split: `ceil(n * ratio)`, never more than `n`.
    pub fn split_index(&self, n: usize) -> (k: usize)
        requires
            self.wf(),
        ensures
            k == ceil_scaled(n as nat, self.num(), self.den()),
            k <= n,
    {
        let ghost big = n as int * self.num();
        assert(0 <= big <= (n as int) * (u64::MAX as int)) by (nonlinear_arith)
            requires
                big == n as int * self.num(),
                self.num() <= u64::MAX,
        ;
        assert((n as int) * (u64::MAX as int) <= (u64::MAX as int) * (u64::MAX as int))
            by (nonlinear_arith)
            requires
                n <= u64::MAX,
        ;
        let p: u128 = (n as u128) * (self.numerator as u128);
        let d: u128 = self.denominator as u128;
        proof {
            lemma_ceil_scaled_bounded(n as nat, self.num(), self.den());
            lemma_ceil_div(p as int, d as int);
        }
        let q: u128 = p / d;
        let k: u128 = if p % d == 0 {
            q
        } else {
            q + 1
        };
        k as usize
    }
}

proof fn lemma_ceil_div(p: int, d: int)
    requires
        p >= 0,
        d > 0,
    ensures
        (p + d - 1) / d == if p % d == 0 {
            p / d
        } else {
            p / d + 1
        },
{
    let q = p / d;
    let r = p % d;
    vstd::arithmetic::div_mod::lemma_fundamental_div_mod(p, d);
    vstd::arithmetic::div_mod::lemma_mod_pos_bound(p, d);
    assert(d * q == q * d) by (nonlinear_arith);
    assert((q + 1) * d == q * d + d) by (nonlinear_arith);
    if r == 0 {
        vstd::arithmetic::div_mod::lemma_fundamental_div_mod_converse(p + d - 1, d, q, d - 1);
    } else {
        vstd::arithmetic::div_mod::lemma_fundamental_div_mod_converse(p + d - 1, d, q + 1, r - 1);
    }
}

proof fn lemma_ceil_scaled_bounded(n: nat, numerator: nat, denominator: nat)
    requires
        0 < denominator,
        numerator <= denominator,
    ensures
        ceil_scaled(n, numerator, denominator) <= n,
{
    assert(n * numerator <= n * denominator) by (nonlinear_arith)
        requires
            numerator <= denominator,
    ;
    assert((n * numerator + denominator - 1) / (denominator as int) <= n) by {
        vstd::arithmetic::div_mod::lemma_div_is_ordered(
            n * numerator + denominator - 1,
            n * denominator + denominator - 1,
            denominator as int,
        );
        vstd::arithmetic::div_mod::lemma_fundamental_div_mod_converse(
            n * denominator + denominator - 1,
            denominator as int,
            n as int,
            denominator - 1,
        );
    }
}

} // verus!
