use vstd::prelude::*;
use vstd::arithmetic::div_mod::lemma_div_multiples_vanish;
use vstd::arithmetic::div_mod::lemma_div_is_ordered;

verus! {

/// The spawn cadence: the current interval between spawns and the factor
/// `multiplier_num / multiplier_den` applied to it at each growth step.
#[derive(Clone, Copy, Debug, PartialEq, Eq, Structural)]
pub struct SpawnPacing {
    pub interval: u64,
    pub multiplier_num: u64,
    pub multiplier_den: u64,
}

/// `b` raised to the power `e`.
pub open spec fn power(b: int, e: nat) -> int
    decreases e,
{
    if e == 0 {
        1
    } else {
        b * power(b, (e - 1) as nat)
    }
}

impl SpawnPacing {
    /// The factor is positive-denominated and does not lengthen the interval.
    pub open spec fn wf(self) -> bool {
        0 < self.multiplier_den && self.multiplier_num <= self.multiplier_den
    }

    /// The pacing after one growth step; the interval is rounded down.
    pub open spec fn grown(self) -> SpawnPacing {
        SpawnPacing {
            interval: (self.interval as int * self.multiplier_num as int / self.multiplier_den as int) as u64,
            ..self
        }
    }

    /// The pacing after `k` growth steps.
    pub open spec fn grown_times(self, k: nat) -> SpawnPacing
        decreases k,
    {
        if k == 0 {
            self
        } else {
            self.grown_times((k - 1) as nat).grown()
        }
    }

    pub fn new(interval: u64, multiplier_num: u64, multiplier_den: u64) -> (r: SpawnPacing)
        requires
            0 < multiplier_den,
            multiplier_num <= multiplier_den,
        ensures
            r.wf(),
            r == (SpawnPacing { interval, multiplier_num, multiplier_den }),
    {
        SpawnPacing { interval, multiplier_num, multiplier_den }
    }

    /// Applies one growth step: the interval is multiplied by the factor.
    pub fn grow(&mut self)
        requires
            old(self).wf(),
        ensures
            final(self).wf(),
            *final(self) == old(self).grown(),
    {
        assert(self.interval as int * self.multiplier_num as int <= 0xffff_ffff_ffff_ffff
            * 0xffff_ffff_ffff_ffffint) by (nonlinear_arith)
            requires
                self.interval <= 0xffff_ffff_ffff_ffff,
                self.multiplier_num <= 0xffff_ffff_ffff_ffff,
        ;
        let scaled: u128 = self.interval as u128 * self.multiplier_num as u128;
        proof {
            let x = self.interval as int;
            let n = self.multiplier_num as int;
            let d = self.multiplier_den as int;
            assert(x * n <= x * d) by (nonlinear_arith)
                requires
                    0 <= x,
                    n <= d,
            ;
            lemma_div_is_ordered(x * n, x * d, d);
            vstd::arithmetic::div_mod::lemma_div_by_multiple(x, d);
        }
        self.interval = (scaled / self.multiplier_den as u128) as u64;
    }
}

/// Growth steps only shrink the interval, and every step keeps the pacing
/// well formed.
pub proof fn lemma_grown_times_wf(p: SpawnPacing, k: nat)
    requires
        p.wf(),
    ensures
        p.grown_times(k).wf(),
        p.grown_times(k).multiplier_num == p.multiplier_num,
        p.grown_times(k).multiplier_den == p.multiplier_den,
    decreases k,
{
    if k > 0 {
        lemma_grown_times_wf(p, (k - 1) as nat);
    }
}

/// After `k` growth steps the interval is `interval * num^k / den^k`, exactly
/// whenever no step had to round, that is when `den^k` divides the initial
/// interval; and it never exceeds that value otherwise.
pub proof fn lemma_growth_compounds(p: SpawnPacing, k: nat)
    requires
        p.wf(),
    ensures
        p.grown_times(k).interval * power(p.multiplier_den as int, k) <= p.interval * power(
            p.multiplier_num as int,
            k,
        ),
        p.interval as int % power(p.multiplier_den as int, k) == 0 ==> p.grown_times(k).interval == p.interval
            * power(p.multiplier_num as int, k) / power(p.multiplier_den as int, k),
{
    lemma_growth_upper_bound(p, k);
    if p.interval as int % power(p.multiplier_den as int, k) == 0 {
        lemma_power_positive(p.multiplier_den as int, k);
        let m = p.interval as int / power(p.multiplier_den as int, k);
        vstd::arithmetic::div_mod::lemma_fundamental_div_mod(
            p.interval as int,
            power(p.multiplier_den as int, k),
        );
        assert(p.interval == power(p.multiplier_den as int, k) * m);
        lemma_growth_exact(p, m, k, k);
        assert(p.interval * power(p.multiplier_num as int, k) == power(p.multiplier_den as int, k) * (m
            * power(p.multiplier_num as int, k))) by (nonlinear_arith)
            requires
                p.interval == power(p.multiplier_den as int, k) * m,
        ;
        lemma_div_multiples_vanish(m * power(p.multiplier_num as int, k), power(p.multiplier_den as int, k));
    }
}

proof fn lemma_power_positive(b: int, e: nat)
    requires
        0 < b,
    ensures
        0 < power(b, e),
    decreases e,
{
    if e > 0 {
        lemma_power_positive(b, (e - 1) as nat);
        assert(0 < b * power(b, (e - 1) as nat)) by (nonlinear_arith)
            requires
                0 < b,
                0 < power(b, (e - 1) as nat),
        ;
    }
}

proof fn lemma_power_nonneg(b: int, e: nat)
    requires
        0 <= b,
    ensures
        0 <= power(b, e),
    decreases e,
{
    if e > 0 {
        lemma_power_nonneg(b, (e - 1) as nat);
        assert(0 <= b * power(b, (e - 1) as nat)) by (nonlinear_arith)
            requires
                0 <= b,
                0 <= power(b, (e - 1) as nat),
        ;
    }
}

proof fn lemma_growth_upper_bound(p: SpawnPacing, k: nat)
    requires
        p.wf(),
    ensures
        p.grown_times(k).interval * power(p.multiplier_den as int, k) <= p.interval * power(
            p.multiplier_num as int,
            k,
        ),
    decreases k,
{
    if k > 0 {
        let j = (k - 1) as nat;
        lemma_growth_upper_bound(p, j);
        lemma_grown_times_wf(p, j);
        lemma_power_nonneg(p.multiplier_den as int, j);
        let q = p.grown_times(j);
        let n = p.multiplier_num as int;
        let d = p.multiplier_den as int;
        let x = q.interval as int;
        assert(x * n <= x * d) by (nonlinear_arith)
            requires
                0 <= x,
                n <= d,
        ;
        assert(q.grown().interval == x * n / d) by {
            assert(x * n / d <= x * d / d) by {
                lemma_div_is_ordered(x * n, x * d, d);
            }
            vstd::arithmetic::div_mod::lemma_div_by_multiple(x, d);
            vstd::arithmetic::div_mod::lemma_div_pos_is_pos(x * n, d);
        }
        vstd::arithmetic::div_mod::lemma_fundamental_div_mod(x * n, d);
        vstd::arithmetic::div_mod::lemma_mod_bound(x * n, d);
        let y = x * n / d;
        assert(y * d <= x * n) by (nonlinear_arith)
            requires
                x * n == d * y + (x * n) % d,
                0 <= (x * n) % d,
        ;
        let pd = power(d, j);
        let pn = power(n, j);
        assert(y * (d * pd) <= p.interval * (n * pn)) by (nonlinear_arith)
            requires
                y * d <= x * n,
                x * pd <= p.interval * pn,
                0 <= pd,
                0 <= n,
        ;
    }
}

proof fn lemma_growth_exact(p: SpawnPacing, m: int, k: nat, j: nat)
    requires
        p.wf(),
        0 <= m,
        j <= k,
        p.interval == power(p.multiplier_den as int, k) * m,
    ensures
        p.grown_times(j).interval == m * power(p.multiplier_den as int, (k - j) as nat) * power(
            p.multiplier_num as int,
            j,
        ),
    decreases j,
{
    let n = p.multiplier_num as int;
    let d = p.multiplier_den as int;
    if j == 0 {
        assert(p.interval == m * power(d, k) * 1) by (nonlinear_arith)
            requires
                p.interval == power(d, k) * m,
        ;
    } else {
        let i = (j - 1) as nat;
        lemma_growth_exact(p, m, k, i);
        lemma_grown_times_wf(p, i);
        let rest = (k - j) as nat;
        assert(power(d, (k - i) as nat) == d * power(d, rest));
        let x = p.grown_times(i).interval as int;
        let big = m * power(d, rest) * (power(n, i) * n);
        assert(x * n == d * big) by (nonlinear_arith)
            requires
                x == m * power(d, (k - i) as nat) * power(n, i),
                power(d, (k - i) as nat) == d * power(d, rest),
                big == m * power(d, rest) * (power(n, i) * n),
        ;
        lemma_div_multiples_vanish(big, d);
        assert(power(n, j) == n * power(n, i));
        assert(big == m * power(d, rest) * power(n, j)) by (nonlinear_arith)
            requires
                big == m * power(d, rest) * (power(n, i) * n),
                power(n, j) == n * power(n, i),
        ;
        lemma_power_nonneg(d, rest);
        lemma_power_nonneg(n, j);
        assert(0 <= big) by (nonlinear_arith)
            requires
                big == m * power(d, rest) * power(n, j),
                0 <= m,
                0 <= power(d, rest),
                0 <= power(n, j),
        ;
        assert(x * n / d <= x) by {
            assert(x * n <= x * d) by (nonlinear_arith)
                requires
                    0 <= x,
                    n <= d,
            ;
            lemma_div_is_ordered(x * n, x * d, d);
            vstd::arithmetic::div_mod::lemma_div_by_multiple(x, d);
        }
    }
}

} // verus!
