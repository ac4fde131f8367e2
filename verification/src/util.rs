use vstd::prelude::*;

verus! {

/// The count after one tick from count `c` with period `p`.
pub open spec fn tick_count(c: u64, p: u64) -> u64 {
    if c + 1 >= p {
        0
    } else {
        (c + 1) as u64
    }
}

/// A tick from count `c` with period `p` fires.
pub open spec fn tick_fires(c: u64, p: u64) -> bool {
    c + 1 >= p
}

/// The count after `n` ticks from count `c` with period `p`.
pub open spec fn count_after(c: u64, p: u64, n: nat) -> u64
    decreases n,
{
    if n == 0 {
        c
    } else {
        tick_count(count_after(c, p, (n - 1) as nat), p)
    }
}

/// The `n`-th tick (counting from 1) from count `c` with period `p` fires.
pub open spec fn fires_at(c: u64, p: u64, n: nat) -> bool {
    n >= 1 && tick_fires(count_after(c, p, (n - 1) as nat), p)
}

proof fn lemma_mod_step(x: int, p: int)
    requires
        p >= 1,
        x >= 0,
    ensures
        (x + 1) % p == (if x % p + 1 == p {
            0
        } else {
            x % p + 1
        }),
{
    vstd::arithmetic::div_mod::lemma_fundamental_div_mod(x, p);
    vstd::arithmetic::div_mod::lemma_mod_bound(x, p);
    let q = x / p;
    let m = x % p;
    if m + 1 == p {
        assert(x + 1 == (q + 1) * p) by (nonlinear_arith)
            requires
                x == p * q + m,
                m + 1 == p,
        ;
        vstd::arithmetic::div_mod::lemma_mod_multiples_basic(q + 1, p);
    } else {
        assert(x + 1 == p * q + (m + 1));
        vstd::arithmetic::div_mod::lemma_mod_multiples_vanish(q, m + 1, p);
        vstd::arithmetic::div_mod::lemma_small_mod((m + 1) as nat, p as nat);
    }
}

/// A divider with period `p` fires once every `p` ticks: from count `c`, after `n` ticks
/// the count is `(c + n) % p`, and the `n`-th tick fires exactly when that is 0. So from
/// a fresh, reset or re-periodded divider (count 0), tick `n` fires exactly when `p`
/// divides `n`.
pub proof fn lemma_divider_fires_every_period(c: u64, p: u64, n: nat)
    requires
        p >= 1,
        c < p,
    ensures
        count_after(c, p, n) == (c + n) % (p as int),
        n >= 1 ==> (fires_at(c, p, n) <==> (c + n) % (p as int) == 0),
    decreases n,
{
    if n == 0 {
        vstd::arithmetic::div_mod::lemma_small_mod(c as nat, p as nat);
    } else {
        lemma_divider_fires_every_period(c, p, (n - 1) as nat);
        lemma_mod_step(c + n - 1, p as int);
        vstd::arithmetic::div_mod::lemma_mod_bound(c + n - 1, p as int);
    }
}

/// A divider with period 0 fires on every tick.
pub proof fn lemma_divider_period_zero(n: nat)
    ensures
        count_after(0, 0, n) == 0,
        n >= 1 ==> fires_at(0, 0, n),
    decreases n,
{
    if n > 0 {
        lemma_divider_period_zero((n - 1) as nat);
    }
}

/// A counter that fires once every `period` ticks.
pub struct ClockDivider {
    count: u64,
    period: u64,
}

impl ClockDivider {
    pub closed spec fn count(&self) -> u64 {
        self.count
    }

    pub closed spec fn period(&self) -> u64 {
        self.period
    }

    /// The counter never reaches the period (or stays at zero when the period is zero).
    pub open spec fn wf(&self) -> bool {
        self.count() == 0 || self.count() < self.period()
    }

    pub fn new() -> (r: Self)
        ensures
            r.wf(),
            r.count() == 0,
            r.period() == 0,
    {
        ClockDivider { count: 0, period: 0 }
    }

    pub fn with_period(period: u64) -> (r: Self)
        ensures
            r.wf(),
            r.count() == 0,
            r.period() == period,
    {
        ClockDivider { count: 0, period }
    }

    pub fn reset(&mut self)
        ensures
            final(self).wf(),
            final(self).count() == 0,
            final(self).period() == old(self).period(),
    {
        self.count = 0;
    }

    pub fn set_period(&mut self, period: u64)
        ensures
            final(self).wf(),
            final(self).count() == 0,
            final(self).period() == period,
    {
        self.count = 0;
        self.period = period;
    }

    /// Advances the counter; returns `true` on the tick that reaches the period.
    pub fn tick(&mut self) -> (fired: bool)
        requires
            old(self).wf(),
        ensures
            final(self).wf(),
            final(self).period() == old(self).period(),
            fired == (old(self).count() + 1 >= old(self).period()),
            fired == tick_fires(old(self).count(), old(self).period()),
            final(self).count() == tick_count(old(self).count(), old(self).period()),
            fired ==> final(self).count() == 0,
            !fired ==> final(self).count() == old(self).count() + 1,
    {
        self.count = self.count + 1;
        if self.count >= self.period {
            self.count = 0;
            true
        } else {
            false
        }
    }
}

} // verus!
