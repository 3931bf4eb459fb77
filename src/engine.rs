use vstd::prelude::*;
use vstd::arithmetic::div_mod::lemma_fundamental_div_mod_converse;

verus! {

/// Whether position `k` of an `n`-by-`n` row-major buffer lies strictly above
/// the diagonal (its column exceeds its row).
pub open spec fn strictly_upper(n: nat, k: int) -> bool {
    k % (n as int) > k / (n as int)
}

/// The row-major buffer `f` with every strictly-upper entry replaced by `zero`.
pub open spec fn lower_part<T>(f: Seq<T>, n: nat, zero: T) -> Seq<T> {
    Seq::new(f.len(), |k: int| if strictly_upper(n, k) { zero } else { f[k] })
}

/// Position `i * n + j` of an `n`-by-`n` row-major buffer is row `i`, column `j`.
pub proof fn lemma_row_major_position(n: nat, i: int, j: int)
    requires
        0 <= i < n,
        0 <= j < n,
    ensures
        0 <= i * n + j < n * n,
        (i * n + j) / (n as int) == i,
        (i * n + j) % (n as int) == j,
{
    lemma_fundamental_div_mod_converse(i * n + j, n as int, i, j);
    assert(0 <= i * n + j < n * n) by (nonlinear_arith)
        requires
            0 <= i < n,
            0 <= j < n,
    ;
}

/// The packed outcome of one scenario: adjusted drift and volatility, the
/// Cholesky factor in row-major order with its strictly-upper entries zero, the
/// asset count, and the jump-diffusion parameters handed through unchanged.
pub struct EngineResult<T> {
    adjusted_drift: Vec<T>,
    adjusted_vol: Vec<T>,
    cholesky_l: Vec<T>,
    num_assets: usize,
    jump_lambda: T,
    jump_mean: T,
    jump_vol: T,
}

impl<T> EngineResult<T> {
    pub closed spec fn drift_values(&self) -> Seq<T> {
        self.adjusted_drift@
    }

    pub closed spec fn vol_values(&self) -> Seq<T> {
        self.adjusted_vol@
    }

    pub closed spec fn factor_values(&self) -> Seq<T> {
        self.cholesky_l@
    }

    pub closed spec fn asset_count(&self) -> nat {
        self.num_assets as nat
    }

    /// Jump intensity, jump mean and jump volatility, in that order.
    pub closed spec fn jump_values(&self) -> (T, T, T) {
        (self.jump_lambda, self.jump_mean, self.jump_vol)
    }
}

impl<T: Copy> EngineResult<T> {
    pub fn adjusted_drift(&self) -> (r: &Vec<T>)
        ensures
            r@ == self.drift_values(),
    {
        &self.adjusted_drift
    }

    pub fn adjusted_vol(&self) -> (r: &Vec<T>)
        ensures
            r@ == self.vol_values(),
    {
        &self.adjusted_vol
    }

    /// The Cholesky factor, row-major.
    pub fn cholesky_l(&self) -> (r: &Vec<T>)
        ensures
            r@ == self.factor_values(),
    {
        &self.cholesky_l
    }

    pub fn num_assets(&self) -> (r: usize)
        ensures
            r == self.asset_count(),
    {
        self.num_assets
    }

    pub fn jump_lambda(&self) -> (r: T)
        ensures
            r == self.jump_values().0,
    {
        self.jump_lambda
    }

    pub fn jump_mean(&self) -> (r: T)
        ensures
            r == self.jump_values().1,
    {
        self.jump_mean
    }

    pub fn jump_vol(&self) -> (r: T)
        ensures
            r == self.jump_values().2,
    {
        self.jump_vol
    }
}

/// Packs the outcome of a scenario over `num_assets` assets. `factor` is the
/// Cholesky factor in row-major order; every entry above its diagonal is
/// written as exactly `zero`, the others are kept.
pub fn pack_result<T: Copy>(
    num_assets: usize,
    adjusted_drift: Vec<T>,
    adjusted_vol: Vec<T>,
    factor: &Vec<T>,
    zero: T,
    jump_lambda: T,
    jump_mean: T,
    jump_vol: T,
) -> (r: EngineResult<T>)
    requires
        adjusted_drift.len() == num_assets,
        adjusted_vol.len() == num_assets,
        factor.len() == num_assets * num_assets,
    ensures
        r.asset_count() == num_assets,
        r.drift_values() == adjusted_drift@,
        r.vol_values() == adjusted_vol@,
        r.factor_values() == lower_part(factor@, num_assets as nat, zero),
        r.jump_values() == (jump_lambda, jump_mean, jump_vol),
        forall|i: int, j: int|
            #![trigger r.factor_values()[i * num_assets + j]]
            0 <= i < num_assets && 0 <= j < num_assets ==> r.factor_values()[i * num_assets + j]
                == if j > i {
                zero
            } else {
                factor@[i * num_assets + j]
            },
{
    let n = num_assets;
    let total = factor.len();
    let mut packed: Vec<T> = Vec::with_capacity(total);
    let mut k: usize = 0;
    while k < total
        invariant
            total == factor.len(),
            total == n * n,
            k <= total,
            packed@ == lower_part(factor@, n as nat, zero).take(k as int),
        decreases total - k,
    {
        assert(n > 0) by (nonlinear_arith)
            requires
                k < total,
                total == n * n,
        ;
        if k % n > k / n {
            packed.push(zero);
        } else {
            packed.push(factor[k]);
        }
        assert(packed@ =~= lower_part(factor@, n as nat, zero).take(k + 1));
        k = k + 1;
    }
    assert(packed@ =~= lower_part(factor@, n as nat, zero));
    let r = EngineResult {
        adjusted_drift,
        adjusted_vol,
        cholesky_l: packed,
        num_assets,
        jump_lambda,
        jump_mean,
        jump_vol,
    };
    assert forall|i: int, j: int|
        #![trigger r.factor_values()[i * num_assets + j]]
        0 <= i < num_assets && 0 <= j < num_assets implies r.factor_values()[i * num_assets + j]
            == if j > i {
            zero
        } else {
            factor@[i * num_assets + j]
        } by {
        lemma_row_major_position(n as nat, i, j);
    }
    r
}

} // verus!
