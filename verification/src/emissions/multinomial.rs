use vstd::prelude::*;

use crate::base::keys_distinct;

use crate::error::{is_invalid_parameter, is_not_fitted, HmmError};

use crate::utils::{named_shape, names_distinct, shape_table};

verus! {

/// Free scalars of a multinomial emission model with `n_components` states
/// over `n_features` outcomes: `n_features - 1` free probabilities per
/// state, listed under the flag `e`.
pub fn n_fit_scalars_per_param(n_components: usize, n_features: usize) -> (r: Vec<(char, usize)>)
    requires
        n_features >= 1,
        n_components * (n_features - 1) <= usize::MAX,
    ensures
        keys_distinct(r@),
        r@ == seq![('e', (n_components * (n_features - 1)) as usize)],
{
    vec![('e', n_components * (n_features - 1))]
}

/// Validates the shape of the emission probability matrix: it must be
/// present and have one row per state and one column per outcome (the
/// number of outcomes defaults to the number of columns when unknown).
pub fn check_shape(
    n_components: usize,
    n_features: Option<usize>,
    emissionprob_shape: Option<(usize, usize)>,
) -> (r: Result<(), HmmError>)
    ensures
        emissionprob_shape is None ==> is_not_fitted(r, "emissionprob_ not set"@),
        emissionprob_shape matches Some((rows, cols)) ==> {
            let nf = match n_features {
                Some(n) => n,
                None => cols,
            };
            if rows == n_components && cols == nf {
                r is Ok
            } else {
                is_invalid_parameter(r, "emissionprob_ shape mismatch"@)
            }
        },
{
    match emissionprob_shape {
        None => Err(HmmError::NotFitted("emissionprob_ not set".to_owned())),
        Some((rows, cols)) => {
            let nf = match n_features {
                Some(n) => n,
                None => cols,
            };
            if rows == n_components && cols == nf {
                Ok(())
            } else {
                Err(HmmError::InvalidParameter("emissionprob_ shape mismatch".to_owned()))
            }
        },
    }
}

/// Names and shapes of the statistics that the expectation step
/// accumulates for a model with `n_components` states over `n_features`
/// outcomes: the expected outcome counts of each state.
pub fn sufficient_statistics_shapes(n_components: usize, n_features: usize) -> (r: Vec<(String, Vec<usize>)>)
    ensures
        names_distinct(shape_table(r@)),
        shape_table(r@) == seq![
            ("obs"@, seq![n_components, n_features]),
        ],
{
    proof {
        reveal_strlit("obs");
    }
    let nc = n_components;
    let nf = n_features;
    let e0 = named_shape("obs", vec![nc, nf]);
    assert(e0.1@ =~= seq![nc, nf]);
    let r = vec![e0];
    assert(shape_table(r@) =~= seq![
        ("obs"@, seq![nc, nf]),
    ]);
    r
}

/// Whether `n_fit_scalars_per_param` is defined for these sizes: there is
/// at least one symbol and the count fits in a `usize`.
pub fn n_fit_scalars_defined(n_components: usize, n_features: usize) -> (r: bool)
    ensures
        r == (n_features >= 1 && n_components * (n_features - 1) <= usize::MAX),
{
    n_features >= 1 && n_components.checked_mul(n_features - 1).is_some()
}

} // verus!
