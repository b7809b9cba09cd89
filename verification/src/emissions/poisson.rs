use vstd::prelude::*;

use crate::base::keys_distinct;

use crate::error::{decimal_text, is_invalid_parameter, is_not_fitted, usize_text, HmmError};

use crate::utils::{named_shape, names_distinct, shape_table};

verus! {

/// Free scalars of a Poisson emission model with `n_components` states
/// over `n_features` count features: one rate per state and feature,
/// listed under the flag `l`.
pub fn n_fit_scalars_per_param(n_components: usize, n_features: usize) -> (r: Vec<(char, usize)>)
    requires
        n_components * n_features <= usize::MAX,
    ensures
        keys_distinct(r@),
        r@ == seq![('l', (n_components * n_features) as usize)],
{
    vec![('l', n_components * n_features)]
}

/// Message for a rate matrix of the wrong shape.
pub open spec fn shape_message(n_components: usize, n_features: usize) -> Seq<char> {
    "lambdas_ must have shape ("@ + decimal_text(n_components as nat) + ", "@ + decimal_text(
        n_features as nat,
    ) + ")"@
}

/// Validates the shape of the rate matrix: it must be present and have one
/// row per state and one column per feature (the number of features
/// defaults to the number of columns when unknown).
pub fn check_shape(
    n_components: usize,
    n_features: Option<usize>,
    lambdas_shape: Option<(usize, usize)>,
) -> (r: Result<(), HmmError>)
    ensures
        lambdas_shape is None ==> is_not_fitted(r, "lambdas_ not set"@),
        lambdas_shape matches Some((rows, cols)) ==> {
            let nf = match n_features {
                Some(n) => n,
                None => cols,
            };
            if rows == n_components && cols == nf {
                r is Ok
            } else {
                is_invalid_parameter(r, shape_message(n_components, nf))
            }
        },
{
    match lambdas_shape {
        None => Err(HmmError::NotFitted("lambdas_ not set".to_owned())),
        Some((rows, cols)) => {
            let nf = match n_features {
                Some(n) => n,
                None => cols,
            };
            if rows == n_components && cols == nf {
                Ok(())
            } else {
                let m = "lambdas_ must have shape (".to_owned().concat(
                    usize_text(n_components).as_str(),
                ).concat(", ").concat(usize_text(nf).as_str()).concat(")");
                Err(HmmError::InvalidParameter(m))
            }
        },
    }
}

/// Names and shapes of the statistics that the expectation step
/// accumulates for a model with `n_components` states over `n_features`
/// count features: the expected occupancy of each state and the expected
/// counts of each state.
pub fn sufficient_statistics_shapes(n_components: usize, n_features: usize) -> (r: Vec<(String, Vec<usize>)>)
    ensures
        names_distinct(shape_table(r@)),
        shape_table(r@) == seq![
            ("post"@, seq![n_components]),
            ("obs"@, seq![n_components, n_features]),
        ],
{
    proof {
        reveal_strlit("obs");
        reveal_strlit("post");
    }
    let nc = n_components;
    let nf = n_features;
    let e0 = named_shape("post", vec![nc]);
    assert(e0.1@ =~= seq![nc]);
    let e1 = named_shape("obs", vec![nc, nf]);
    assert(e1.1@ =~= seq![nc, nf]);
    let r = vec![e0, e1];
    assert(shape_table(r@) =~= seq![
        ("post"@, seq![nc]),
        ("obs"@, seq![nc, nf]),
    ]);
    assert forall|i: int, j: int|
        0 <= i < j < shape_table(r@).len() implies #[trigger] shape_table(r@)[i].0
        != #[trigger] shape_table(r@)[j].0 by {
        assert(i == 0 || i == 1);
        assert(j == 0 || j == 1);
        assert(shape_table(r@)[0].0 != shape_table(r@)[1].0) by {
            assert("post"@.len() == 4);
            assert("obs"@.len() == 3);
        }
    }
    r
}

/// Whether `n_fit_scalars_per_param` is defined for these sizes: the count
/// fits in a `usize`.
pub fn n_fit_scalars_defined(n_components: usize, n_features: usize) -> (r: bool)
    ensures
        r == (n_components * n_features <= usize::MAX),
{
    n_components.checked_mul(n_features).is_some()
}

} // verus!
