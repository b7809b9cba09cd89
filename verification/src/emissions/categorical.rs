use vstd::prelude::*;

use crate::base::{keys_distinct, free_params, lookup_count};
use crate::error::{decimal_text, is_invalid_parameter, is_not_fitted, usize_text, HmmError};
use crate::utils::{named_shape, names_distinct, shape_table};

verus! {

/// Free scalars of a categorical emission model with `n_components` states
/// over `n_features` symbols: each state's emission distribution has
/// `n_features - 1` free probabilities, listed under the flag `e`.
pub fn n_fit_scalars_per_param(n_components: usize, n_features: usize) -> (r: Vec<(char, usize)>)
    requires
        n_features >= 1,
        n_components * (n_features - 1) <= usize::MAX,
    ensures
        keys_distinct(r@),
        r@ == seq![('e', (n_components * (n_features - 1)) as usize)],
{
    vec![('e', n_components * (n_features - 1))]
}

/// Message for an emission probability matrix of the wrong shape.
pub open spec fn shape_message(n_components: usize, n_features: usize, rows: usize, cols: usize) -> Seq<char> {
    "emissionprob_ must have shape ("@ + decimal_text(n_components as nat) + ", "@ + decimal_text(
        n_features as nat,
    ) + "), got ["@ + decimal_text(rows as nat) + ", "@ + decimal_text(cols as nat) + "]"@
}

/// Validates the shape of the emission probability matrix: it must be
/// present and have one row per state and one column per symbol (the
/// number of symbols defaults to the number of columns when unknown).
pub fn check_shape(
    n_components: usize,
    n_features: Option<usize>,
    emissionprob_shape: Option<(usize, usize)>,
) -> (r: Result<(), HmmError>)
    ensures
        emissionprob_shape is None ==> is_not_fitted(r, "emissionprob_ not set"@),
        emissionprob_shape matches Some((rows, cols)) ==> {
            let nf = match n_features {
                Some(n) => n,
                None => cols,
            };
            if rows == n_components && cols == nf {
                r is Ok
            } else {
                is_invalid_parameter(r, shape_message(n_components, nf, rows, cols))
            }
        },
{
    match emissionprob_shape {
        None => Err(HmmError::NotFitted("emissionprob_ not set".to_owned())),
        Some((rows, cols)) => {
            let nf = match n_features {
                Some(n) => n,
                None => cols,
            };
            if rows == n_components && cols == nf {
                Ok(())
            } else {
                let m = "emissionprob_ must have shape (".to_owned().concat(
                    usize_text(n_components).as_str(),
                ).concat(", ").concat(usize_text(nf).as_str()).concat("), got [").concat(
                    usize_text(rows).as_str(),
                ).concat(", ").concat(usize_text(cols).as_str()).concat("]");
                Err(HmmError::InvalidParameter(m))
            }
        },
    }
}

/// Names and shapes of the statistics that the expectation step
/// accumulates for a model with `n_components` states over `n_features`
/// symbols: the expected symbol counts of each state.
pub fn sufficient_statistics_shapes(n_components: usize, n_features: usize) -> (r: Vec<(String, Vec<usize>)>)
    ensures
        names_distinct(shape_table(r@)),
        shape_table(r@) == seq![
            ("obs"@, seq![n_components, n_features]),
        ],
{
    proof {
        reveal_strlit("obs");
    }
    let nc = n_components;
    let nf = n_features;
    let e0 = named_shape("obs", vec![nc, nf]);
    assert(e0.1@ =~= seq![nc, nf]);
    let r = vec![e0];
    assert(shape_table(r@) =~= seq![
        ("obs"@, seq![nc, nf]),
    ]);
    r
}

/// Whether `n_fit_scalars_per_param` is defined for these sizes: there is
/// at least one symbol and the count fits in a `usize`.
pub fn n_fit_scalars_defined(n_components: usize, n_features: usize) -> (r: bool)
    ensures
        r == (n_features >= 1 && n_components * (n_features - 1) <= usize::MAX),
{
    n_features >= 1 && n_components.checked_mul(n_features - 1).is_some()
}

/// With the default update flags `ste`, a categorical model with `nc`
/// states over `nf` symbols has `nc - 1` free start probabilities,
/// `nc * (nc - 1)` free transition probabilities and `nc * (nf - 1)` free
/// emission probabilities.
pub proof fn lemma_default_flags_free_params(nc: usize, nf: usize)
    requires
        nc >= 1,
        nf >= 1,
        nc * (nf - 1) <= usize::MAX,
    ensures
        free_params("ste"@, nc as nat, seq![('e', (nc * (nf - 1)) as usize)]) == (nc - 1) + nc * (
        nc - 1) + nc * (nf - 1),
{
    reveal_strlit("ste");
    reveal_with_fuel(free_params, 4);
    reveal_with_fuel(lookup_count, 2);
    let s = "ste"@;
    assert(s.drop_last() =~= seq!['s', 't']);
    assert(s.drop_last().drop_last() =~= seq!['s']);
    assert(s.drop_last().drop_last().drop_last() =~= Seq::<char>::empty());
}

} // verus!
