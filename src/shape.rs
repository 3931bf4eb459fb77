use vstd::prelude::*;

verus! {

/// The lengths of the five input buffers of one scenario.
#[derive(Clone, Copy, Debug, PartialEq, Eq, Structural)]
pub struct BufferLengths {
    pub drift: usize,
    pub vol: usize,
    pub correlation: usize,
    pub drift_shift: usize,
    pub vol_multiplier: usize,
}

/// The two ways a scenario can fail.
#[derive(Clone, Debug)]
pub enum ShockError {
    /// Some buffer does not have the length that the asset count asks for.
    /// Carries the asset count and the actual length of every buffer.
    DimensionMismatch { num_assets: usize, actual: BufferLengths },
    /// The covariance matrix could not be factorized.
    FactorizationFailure { reason: String },
}

/// Every vector buffer holds `n` values and the correlation buffer `n * n`.
pub open spec fn lengths_fit(n: nat, l: BufferLengths) -> bool {
    &&& l.drift == n
    &&& l.vol == n
    &&& l.correlation == n * n
    &&& l.drift_shift == n
    &&& l.vol_multiplier == n
}

/// Checks the buffer lengths against the asset count before any computation.
/// On a mismatch the error reports the lengths of all buffers, not only the
/// first one that is wrong.
pub fn check_lengths(num_assets: usize, lengths: BufferLengths) -> (r: Result<(), ShockError>)
    ensures
        r is Ok <==> lengths_fit(num_assets as nat, lengths),
        r is Err ==> r->Err_0 == (ShockError::DimensionMismatch {
            num_assets,
            actual: lengths,
        }),
{
    let square_fits = match num_assets.checked_mul(num_assets) {
        Some(sq) => lengths.correlation == sq,
        None => false,
    };
    if lengths.drift == num_assets && lengths.vol == num_assets && square_fits
        && lengths.drift_shift == num_assets && lengths.vol_multiplier == num_assets {
        Ok(())
    } else {
        Err(ShockError::DimensionMismatch { num_assets, actual: lengths })
    }
}

/// Checks the five input buffers of a scenario over `num_assets` assets: base
/// drift, base volatility, base correlation (row-major), drift shift and
/// volatility multiplier.
pub fn check_buffers<T>(
    num_assets: usize,
    base_drift: &[T],
    base_vol: &[T],
    base_correlation: &[T],
    drift_shift: &[T],
    vol_multiplier: &[T],
) -> (r: Result<(), ShockError>)
    ensures
        r is Ok <==> lengths_fit(num_assets as nat, buffer_lengths(base_drift@, base_vol@, base_correlation@, drift_shift@, vol_multiplier@)),
        r is Err ==> r->Err_0 == (ShockError::DimensionMismatch {
            num_assets,
            actual: buffer_lengths(base_drift@, base_vol@, base_correlation@, drift_shift@, vol_multiplier@),
        }),
{
    let lengths = BufferLengths {
        drift: base_drift.len(),
        vol: base_vol.len(),
        correlation: base_correlation.len(),
        drift_shift: drift_shift.len(),
        vol_multiplier: vol_multiplier.len(),
    };
    check_lengths(num_assets, lengths)
}

/// The lengths of five buffers, in the order of `BufferLengths`.
pub open spec fn buffer_lengths<T>(a: Seq<T>, b: Seq<T>, c: Seq<T>, d: Seq<T>, e: Seq<T>) -> BufferLengths {
    BufferLengths {
        drift: a.len() as usize,
        vol: b.len() as usize,
        correlation: c.len() as usize,
        drift_shift: d.len() as usize,
        vol_multiplier: e.len() as usize,
    }
}

impl ShockError {
    /// Whether this is a dimension mismatch.
    pub fn is_dimension_mismatch(&self) -> (r: bool)
        ensures
            r == (self is DimensionMismatch),
    {
        match self {
            ShockError::DimensionMismatch { .. } => true,
            ShockError::FactorizationFailure { .. } => false,
        }
    }
}

} // verus!
