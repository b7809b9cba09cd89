use vstd::prelude::*;

use crate::error::{is_invalid_parameter, is_not_fitted, HmmError};
use crate::utils::{named_shape, names_distinct, shape_table};

verus! {

/// Decoder algorithm selection.
#[derive(Clone, Copy, Debug, PartialEq, Eq, Structural)]
pub enum DecoderAlgorithm {
    /// Most likely state sequence (Viterbi).
    Viterbi,
    /// Most likely state at each time step (maximum a posteriori).
    MaxPosterior,
}

/// Forward-backward implementation selection.
#[derive(Clone, Copy, Debug, PartialEq, Eq, Structural)]
pub enum Implementation {
    Log,
    Scaling,
}

/// Flags controlling which parameters to update during training.
///
/// Each character names one parameter group (for instance `s` for the start
/// probabilities and `t` for the transition matrix).
#[derive(Clone, Debug)]
pub struct ParamFlags {
    flags: String,
}

impl View for ParamFlags {
    type V = Seq<char>;

    closed spec fn view(&self) -> Seq<char> {
        self.flags@
    }
}

impl ParamFlags {
    /// Builds the flag set holding exactly the characters of `s`, in order.
    pub fn new(s: &str) -> (r: Self)
        ensures
            r@ == s@,
    {
        ParamFlags { flags: s.to_owned() }
    }

    /// Whether the character `c` is one of the flags.
    pub fn contains(&self, c: char) -> (r: bool)
        ensures
            r == self@.contains(c),
    {
        let s = self.flags.as_str();
        let mut found = false;
        for ch in it: s.chars()
            invariant
                it.seq() == s@,
                found <==> exists|j: int| 0 <= j < it.index() && it.seq()[j] == c,
        {
            if ch == c {
                found = true;
            }
        }
        found
    }

    /// The flags as text.
    pub fn as_str(&self) -> (r: &str)
        ensures
            r@ == self@,
    {
        self.flags.as_str()
    }
}

/// The count that `pairs` lists for the flag `c`: the first pair whose
/// character is `c`, if any.
pub open spec fn lookup_count(pairs: Seq<(char, usize)>, c: char) -> Option<usize>
    decreases pairs.len(),
{
    if pairs.len() == 0 {
        None
    } else if pairs[0].0 == c {
        Some(pairs[0].1)
    } else {
        lookup_count(pairs.drop_first(), c)
    }
}

/// No character is listed twice, as in a map from flag characters to
/// counts.
pub open spec fn keys_distinct(pairs: Seq<(char, usize)>) -> bool {
    forall|i: int, j: int| 0 <= i < j < pairs.len() ==> #[trigger] pairs[i].0 != #[trigger] pairs[j].0
}

/// With distinct characters, the count listed for `c` is the count of the
/// one pair whose character is `c`, as a map lookup gives it.
pub proof fn lemma_lookup_distinct(pairs: Seq<(char, usize)>, c: char, k: int)
    requires
        keys_distinct(pairs),
        0 <= k < pairs.len(),
        pairs[k].0 == c,
    ensures
        lookup_count(pairs, c) == Some(pairs[k].1),
    decreases pairs.len(),
{
    if k > 0 {
        let rest = pairs.drop_first();
        assert(pairs[0].0 != pairs[k].0);
        assert(rest[k - 1] == pairs[k]);
        assert forall|i: int, j: int| 0 <= i < j < rest.len() implies #[trigger] rest[i].0
            != #[trigger] rest[j].0 by {
            assert(rest[i] == pairs[i + 1]);
            assert(rest[j] == pairs[j + 1]);
        }
        lemma_lookup_distinct(rest, c, k - 1);
    }
}

/// Free scalars that the flag `c` contributes to a model with `nc` states:
/// `nc - 1` start probabilities for `s`, `nc * (nc - 1)` transition
/// probabilities for `t`, and otherwise what the emission model lists for
/// `c` (nothing when it lists nothing).
pub open spec fn flag_scalars(c: char, nc: nat, emission: Seq<(char, usize)>) -> nat {
    if c == 's' {
        (nc - 1) as nat
    } else if c == 't' {
        nc * ((nc - 1) as nat)
    } else {
        match lookup_count(emission, c) {
            Some(n) => n as nat,
            None => 0,
        }
    }
}

/// Total number of free scalars over the flags, each flag counted once
/// per occurrence.
pub open spec fn free_params(flags: Seq<char>, nc: nat, emission: Seq<(char, usize)>) -> nat
    decreases flags.len(),
{
    if flags.len() == 0 {
        0
    } else {
        free_params(flags.drop_last(), nc, emission) + flag_scalars(flags.last(), nc, emission)
    }
}

/// The free-parameter count is additive: the flags `a` followed by the
/// flags `b` count as many free scalars as `a` and `b` do separately.
pub proof fn lemma_free_params_additive(
    a: Seq<char>,
    b: Seq<char>,
    nc: nat,
    emission: Seq<(char, usize)>,
)
    ensures
        free_params(a + b, nc, emission) == free_params(a, nc, emission) + free_params(
            b,
            nc,
            emission,
        ),
    decreases b.len(),
{
    if b.len() == 0 {
        assert(a + b =~= a);
    } else {
        lemma_free_params_additive(a, b.drop_last(), nc, emission);
        assert((a + b).drop_last() =~= a + b.drop_last());
        assert((a + b).last() == b.last());
    }
}

/// What each single flag counts: `s` the `nc - 1` free start
/// probabilities, `t` the `nc * (nc - 1)` free transition probabilities,
/// and any other flag the count that the emission model pairs with it,
/// wherever that pair stands in the list (nothing when the flag is not
/// listed). Together with additivity this fixes the count of every flag
/// string.
pub proof fn lemma_free_params_single_flag(
    c: char,
    nc: nat,
    emission: Seq<(char, usize)>,
    k: int,
)
    requires
        keys_distinct(emission),
    ensures
        nc >= 1 ==> free_params(seq!['s'], nc, emission) == nc - 1,
        nc >= 1 ==> free_params(seq!['t'], nc, emission) == nc * (nc - 1),
        c != 's' && c != 't' && 0 <= k < emission.len() && emission[k].0 == c ==> free_params(
            seq![c],
            nc,
            emission,
        ) == emission[k].1,
        c != 's' && c != 't' && (forall|i: int| 0 <= i < emission.len() ==> emission[i].0 != c)
            ==> free_params(seq![c], nc, emission) == 0,
{
    let one = seq![c];
    assert(free_params(Seq::<char>::empty(), nc, emission) == 0);
    assert(one.drop_last() =~= Seq::<char>::empty());
    assert(free_params(one, nc, emission) == flag_scalars(c, nc, emission));
    assert(one.last() == c);
    assert(seq!['s'].drop_last() =~= Seq::<char>::empty());
    assert(seq!['s'].last() == 's');
    assert(seq!['t'].drop_last() =~= Seq::<char>::empty());
    assert(seq!['t'].last() == 't');
    assert(free_params(seq!['s'], nc, emission) == flag_scalars('s', nc, emission));
    assert(free_params(seq!['t'], nc, emission) == flag_scalars('t', nc, emission));
    if c != 's' && c != 't' && 0 <= k < emission.len() && emission[k].0 == c {
        lemma_lookup_distinct(emission, c, k);
    }
    if c != 's' && c != 't' && (forall|i: int| 0 <= i < emission.len() ==> emission[i].0 != c) {
        lemma_lookup_absent(emission, c);
    }
}

/// The count listed for a character that no pair has is nothing.
pub proof fn lemma_lookup_absent(pairs: Seq<(char, usize)>, c: char)
    requires
        forall|i: int| 0 <= i < pairs.len() ==> pairs[i].0 != c,
    ensures
        lookup_count(pairs, c) is None,
    decreases pairs.len(),
{
    if pairs.len() > 0 {
        let rest = pairs.drop_first();
        assert forall|i: int| 0 <= i < rest.len() implies rest[i].0 != c by {
            assert(rest[i] == pairs[i + 1]);
        }
        assert(pairs[0].0 != c);
        lemma_lookup_absent(rest, c);
    }
}

/// The order of the flags does not matter: `a` followed by `b` counts as
/// many free scalars as `b` followed by `a`.
pub proof fn lemma_free_params_order_free(
    a: Seq<char>,
    b: Seq<char>,
    nc: nat,
    emission: Seq<(char, usize)>,
)
    ensures
        free_params(a + b, nc, emission) == free_params(b + a, nc, emission),
{
    lemma_free_params_additive(a, b, nc, emission);
    lemma_free_params_additive(b, a, nc, emission);
}

/// Flags built from a text hold exactly the characters of that text: a
/// character is a flag if and only if it occurs in the text.
pub proof fn lemma_flags_hold_their_text(p: ParamFlags, s: Seq<char>)
    requires
        p@ == s,
    ensures
        forall|c: char| #[trigger] p@.contains(c) <==> s.contains(c),
{
}

/// A prefix of the flags never counts more free scalars than the whole.
pub proof fn lemma_free_params_prefix(
    s: Seq<char>,
    k: int,
    nc: nat,
    emission: Seq<(char, usize)>,
)
    requires
        0 <= k <= s.len(),
    ensures
        free_params(s.take(k), nc, emission) <= free_params(s, nc, emission),
{
    lemma_free_params_additive(s.take(k), s.skip(k), nc, emission);
    assert(s.take(k) + s.skip(k) =~= s);
}

/// The count that `pairs` lists for `c`, looked up as `lookup_count` says.
fn find_count(pairs: &Vec<(char, usize)>, c: char) -> (r: Option<usize>)
    ensures
        r == lookup_count(pairs@, c),
{
    let mut i: usize = 0;
    assert(pairs@.skip(0) =~= pairs@);
    while i < pairs.len()
        invariant
            0 <= i <= pairs.len(),
            lookup_count(pairs@, c) == lookup_count(pairs@.skip(i as int), c),
        decreases pairs.len() - i,
    {
        assert(pairs@.skip(i as int).drop_first() =~= pairs@.skip(i + 1));
        if pairs[i].0 == c {
            return Some(pairs[i].1);
        }
        i = i + 1;
    }
    assert(pairs@.skip(i as int).len() == 0);
    None
}

/// Total number of free parameters of a model with `n_components` states
/// whose update flags are `params` and whose emission model has the free
/// scalar counts `emission_params` (one pair per flag character).
pub fn n_free_params(
    params: &ParamFlags,
    n_components: usize,
    emission_params: &Vec<(char, usize)>,
) -> (r: usize)
    requires
        n_components >= 1,
        n_components * (n_components - 1) <= usize::MAX,
        free_params(params@, n_components as nat, emission_params@) <= usize::MAX,
    ensures
        r == free_params(params@, n_components as nat, emission_params@),
{
    let nc = n_components;
    let base_s: usize = nc - 1;
    let base_t: usize = nc * (nc - 1);
    let ghost all = params@;
    let ghost em = emission_params@;
    let s = params.flags.as_str();
    let mut total: usize = 0;
    for ch in it: s.chars()
        invariant
            it.seq() == all,
            all == params@,
            em == emission_params@,
            base_s == nc - 1,
            base_t == nc * (nc - 1),
            free_params(all, nc as nat, em) <= usize::MAX,
            total == free_params(all.take(it.index() as int), nc as nat, em),
    {
        let ghost i = it.index() as int;
        proof {
            assert(all.take(i + 1).drop_last() =~= all.take(i));
            assert(all.take(i + 1).last() == ch);
            lemma_free_params_prefix(all, i + 1, nc as nat, em);
        }
        let add: usize = if ch == 's' {
            base_s
        } else if ch == 't' {
            base_t
        } else {
            match find_count(emission_params, ch) {
                Some(n) => n,
                None => 0,
            }
        };
        total = total + add;
    }
    proof {
        assert(all.take(all.len() as int) =~= all);
    }
    total
}

/// Validates the shapes of the start probabilities and of the transition
/// matrix against the number of states.
pub fn check_base_shapes(
    n_components: usize,
    startprob_len: usize,
    transmat_shape: (usize, usize),
) -> (r: Result<(), HmmError>)
    ensures
        startprob_len != n_components ==> is_invalid_parameter(
            r,
            "startprob_ must have length n_components"@,
        ),
        startprob_len == n_components && transmat_shape != (n_components, n_components)
            ==> is_invalid_parameter(r, "transmat_ must have shape (n_components, n_components)"@),
        startprob_len == n_components && transmat_shape == (n_components, n_components)
            ==> r is Ok,
{
    if startprob_len != n_components {
        return Err(HmmError::InvalidParameter("startprob_ must have length n_components".to_owned()));
    }
    if transmat_shape.0 != n_components || transmat_shape.1 != n_components {
        return Err(
            HmmError::InvalidParameter(
                "transmat_ must have shape (n_components, n_components)".to_owned(),
            ),
        );
    }
    Ok(())
}

/// Names and shapes of the statistics that the expectation step
/// accumulates for the start and transition probabilities of a model with
/// `n_components` states: the number of sequences seen, the expected first
/// states and the expected transition counts.
pub fn sufficient_statistics_shapes(n_components: usize) -> (r: Vec<(String, Vec<usize>)>)
    ensures
        names_distinct(shape_table(r@)),
        shape_table(r@) == seq![
            ("nobs"@, seq![1usize]),
            ("start"@, seq![n_components]),
            ("trans"@, seq![n_components, n_components]),
        ],
{
    proof {
        reveal_strlit("nobs");
        reveal_strlit("start");
        reveal_strlit("trans");
    }
    let nc = n_components;
    let a = named_shape("nobs", vec![1]);
    let b = named_shape("start", vec![nc]);
    let c = named_shape("trans", vec![nc, nc]);
    assert(a.1@ =~= seq![1usize]);
    assert(b.1@ =~= seq![nc]);
    assert(c.1@ =~= seq![nc, nc]);
    let r = vec![a, b, c];
    assert(shape_table(r@) =~= seq![
        ("nobs"@, seq![1usize]),
        ("start"@, seq![nc]),
        ("trans"@, seq![nc, nc]),
    ]);
    assert forall|i: int, j: int|
        0 <= i < j < shape_table(r@).len() implies #[trigger] shape_table(r@)[i].0
        != #[trigger] shape_table(r@)[j].0 by {
        assert(i == 0 || i == 1 || i == 2);
        assert(j == 0 || j == 1 || j == 2);
        assert(shape_table(r@)[0].0 != shape_table(r@)[1].0) by {
            assert("nobs"@.len() == 4);
            assert("start"@.len() == 5);
        }
        assert(shape_table(r@)[0].0 != shape_table(r@)[2].0) by {
            assert("nobs"@.len() == 4);
            assert("trans"@.len() == 5);
        }
        assert(shape_table(r@)[1].0 != shape_table(r@)[2].0) by {
            assert("start"@[0] == 's');
            assert("trans"@[0] == 't');
        }
    }
    r
}

/// Refuses a model that has not been fitted.
pub fn check_fitted(fitted: bool) -> (r: Result<(), HmmError>)
    ensures
        fitted ==> r is Ok,
        !fitted ==> is_not_fitted(r, "model has not been fitted yet"@),
{
    if !fitted {
        return Err(HmmError::NotFitted("model has not been fitted yet".to_owned()));
    }
    Ok(())
}

/// Whether `n_free_params` is defined for these arguments: there is at
/// least one state and every count and partial sum it computes fits in a
/// `usize`.
pub fn n_free_params_defined(
    params: &ParamFlags,
    n_components: usize,
    emission_params: &Vec<(char, usize)>,
) -> (r: bool)
    ensures
        r == (n_components >= 1 && n_components * (n_components - 1) <= usize::MAX
            && free_params(params@, n_components as nat, emission_params@) <= usize::MAX),
{
    let nc = n_components;
    if nc < 1 {
        return false;
    }
    let base_t: usize = match nc.checked_mul(nc - 1) {
        None => {
            return false;
        },
        Some(v) => v,
    };
    let ghost all = params@;
    let ghost em = emission_params@;
    let s = params.flags.as_str();
    let mut total: usize = 0;
    for ch in it: s.chars()
        invariant
            it.seq() == all,
            all == params@,
            em == emission_params@,
            nc >= 1,
            nc == n_components,
            base_t == nc * (nc - 1),
            total == free_params(all.take(it.index() as int), nc as nat, em),
    {
        let ghost i = it.index() as int;
        proof {
            assert(all.take(i + 1).drop_last() =~= all.take(i));
            assert(all.take(i + 1).last() == ch);
            lemma_free_params_prefix(all, i + 1, nc as nat, em);
        }
        let add: usize = if ch == 's' {
            nc - 1
        } else if ch == 't' {
            base_t
        } else {
            match find_count(emission_params, ch) {
                Some(n) => n,
                None => 0,
            }
        };
        match total.checked_add(add) {
            None => {
                assert(free_params(all.take(i + 1), nc as nat, em) == total + add);
                return false;
            },
            Some(t) => {
                total = t;
            },
        }
    }
    proof {
        assert(all.take(all.len() as int) =~= all);
    }
    true
}

} // verus!
