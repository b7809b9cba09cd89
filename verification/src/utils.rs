use vstd::prelude::*;

verus! {

/// Sum of the sequence lengths.
pub open spec fn total_length(lengths: Seq<usize>) -> nat
    decreases lengths.len(),
{
    if lengths.len() == 0 {
        0
    } else {
        total_length(lengths.drop_last()) + lengths.last() as nat
    }
}

/// Row at which the sequence `i` starts in the concatenated observations:
/// the total length of the sequences before it.
pub open spec fn sequence_start(lengths: Seq<usize>, i: int) -> nat {
    total_length(lengths.take(i))
}

/// Splits `n_samples` concatenated observation rows into the row ranges of
/// the sequences whose lengths are `lengths`, in order. Range `i` is
/// `(start, end)`: the rows `start .. end` belong to sequence `i`.
///
/// The ranges partition `0 .. n_samples`: the first starts at 0, each one
/// starts where the previous ends, and the last ends at `n_samples`.
pub fn split_x_lengths(n_samples: usize, lengths: &[usize]) -> (r: Vec<(usize, usize)>)
    requires
        total_length(lengths@) == n_samples,
    ensures
        r.len() == lengths.len(),
        forall|i: int|
            0 <= i < r.len() ==> {
                &&& #[trigger] r[i].0 == sequence_start(lengths@, i)
                &&& r[i].1 == r[i].0 + lengths@[i]
            },
        r.len() > 0 ==> r[0].0 == 0,
        forall|i: int| 0 <= i < r.len() - 1 ==> #[trigger] r[i].1 == r[i + 1].0,
        r.len() > 0 ==> r[r.len() - 1].1 == n_samples,
        r.len() == 0 ==> n_samples == 0,
{
    let mut result: Vec<(usize, usize)> = Vec::new();
    let mut start: usize = 0;
    let mut i: usize = 0;
    while i < lengths.len()
        invariant
            0 <= i <= lengths.len(),
            total_length(lengths@) == n_samples,
            start == sequence_start(lengths@, i as int),
            result.len() == i,
            forall|j: int|
                0 <= j < i ==> {
                    &&& #[trigger] result[j].0 == sequence_start(lengths@, j)
                    &&& result[j].1 == result[j].0 + lengths@[j]
                },
        decreases lengths.len() - i,
    {
        proof {
            assert(lengths@.take(i + 1).drop_last() =~= lengths@.take(i as int));
            assert(lengths@.take(i + 1).last() == lengths@[i as int]);
            lemma_total_length_prefix(lengths@, i + 1);
        }
        let end = start + lengths[i];
        result.push((start, end));
        start = end;
        i = i + 1;
    }
    proof {
        assert(lengths@.take(0) =~= Seq::<usize>::empty());
        assert(lengths@.take(lengths@.len() as int) =~= lengths@);
        assert forall|j: int| 0 <= j < result.len() - 1 implies #[trigger] result[j].1 == result[
            j + 1
        ].0 by {
            assert(lengths@.take(j + 1).drop_last() =~= lengths@.take(j));
            assert(lengths@.take(j + 1).last() == lengths@[j]);
            assert(result[j + 1].0 == sequence_start(lengths@, j + 1));
            assert(result[j].0 == sequence_start(lengths@, j));
        }
        if result.len() > 0 {
            let k = result.len() - 1;
            assert(lengths@.take(k + 1).drop_last() =~= lengths@.take(k as int));
            assert(lengths@.take(k + 1).last() == lengths@[k as int]);
            assert(result[k as int].0 == sequence_start(lengths@, k as int));
        }
    }
    result
}

/// A prefix of the lengths never sums to more than all of them.
pub proof fn lemma_total_length_prefix(lengths: Seq<usize>, k: int)
    requires
        0 <= k <= lengths.len(),
    ensures
        total_length(lengths.take(k)) <= total_length(lengths),
    decreases lengths.len() - k,
{
    if k < lengths.len() {
        lemma_total_length_prefix(lengths, k + 1);
        assert(lengths.take(k + 1).drop_last() =~= lengths.take(k));
    } else {
        assert(lengths.take(k) =~= lengths);
    }
}

/// The concatenation of the sequences of `parts`, in order.
pub open spec fn concat_all(parts: Seq<Seq<usize>>) -> Seq<usize>
    decreases parts.len(),
{
    if parts.len() == 0 {
        Seq::empty()
    } else {
        concat_all(parts.drop_last()) + parts.last()
    }
}

/// Total number of entries over all the parts.
pub open spec fn parts_length(parts: Seq<Seq<usize>>) -> nat
    decreases parts.len(),
{
    if parts.len() == 0 {
        0
    } else {
        parts_length(parts.drop_last()) + parts.last().len()
    }
}

/// Appending one more part appends its entries after all the others.
pub proof fn lemma_concat_all_push(parts: Seq<Seq<usize>>, p: Seq<usize>)
    ensures
        concat_all(parts.push(p)) == concat_all(parts) + p,
{
    assert(parts.push(p).drop_last() =~= parts);
    assert(parts.push(p).last() == p);
}

/// The joined sequence has one entry per entry of the parts, and part `i`
/// stands in it, unchanged, right after the entries of the parts before
/// it: the parts keep their order and their contents.
pub proof fn lemma_concat_all_places_parts(parts: Seq<Seq<usize>>, i: int)
    requires
        0 <= i < parts.len(),
    ensures
        concat_all(parts).len() == parts_length(parts),
        parts_length(parts.take(i)) + parts[i].len() <= parts_length(parts),
        concat_all(parts).subrange(
            parts_length(parts.take(i)) as int,
            (parts_length(parts.take(i)) + parts[i].len()) as int,
        ) == parts[i],
    decreases parts.len(),
{
    let n = parts.len() as int;
    let dl = parts.drop_last();
    lemma_concat_all_len_total(parts);
    lemma_concat_all_len_total(dl);
    assert(dl =~= parts.take(n - 1));
    if i == n - 1 {
        assert(concat_all(parts) == concat_all(dl) + parts.last());
        assert(concat_all(parts).subrange(
            parts_length(parts.take(i)) as int,
            (parts_length(parts.take(i)) + parts[i].len()) as int,
        ) =~= parts[i]);
    } else {
        lemma_concat_all_places_parts(dl, i);
        assert(dl.take(i) =~= parts.take(i));
        assert(dl[i] == parts[i]);
        assert(concat_all(parts) == concat_all(dl) + parts.last());
        assert(concat_all(parts).subrange(
            parts_length(parts.take(i)) as int,
            (parts_length(parts.take(i)) + parts[i].len()) as int,
        ) =~= concat_all(dl).subrange(
            parts_length(dl.take(i)) as int,
            (parts_length(dl.take(i)) + dl[i].len()) as int,
        ));
    }
}

/// The joined sequence is exactly as long as the parts together.
pub proof fn lemma_concat_all_len_total(parts: Seq<Seq<usize>>)
    ensures
        concat_all(parts).len() == parts_length(parts),
    decreases parts.len(),
{
    if parts.len() > 0 {
        lemma_concat_all_len_total(parts.drop_last());
    }
}

/// Joins the state sequences decoded for each observation sequence into
/// one state sequence, in order.
pub fn concatenate_states(parts: &Vec<Vec<usize>>) -> (r: Vec<usize>)
    ensures
        r@ == concat_all(parts@.map_values(|v: Vec<usize>| v@)),
        r@.len() == parts_length(parts@.map_values(|v: Vec<usize>| v@)),
        forall|i: int|
            0 <= i < parts.len() ==> parts_length(parts@.map_values(|v: Vec<usize>| v@).take(i))
                + parts[i]@.len() <= r@.len() && r@.subrange(
                parts_length(parts@.map_values(|v: Vec<usize>| v@).take(i)) as int,
                (parts_length(parts@.map_values(|v: Vec<usize>| v@).take(i)) + parts[i]@.len()) as int,
            ) == #[trigger] parts[i]@,
{
    let ghost views = parts@.map_values(|v: Vec<usize>| v@);
    let mut result: Vec<usize> = Vec::new();
    let mut i: usize = 0;
    while i < parts.len()
        invariant
            0 <= i <= parts.len(),
            views == parts@.map_values(|v: Vec<usize>| v@),
            result@ == concat_all(views.take(i as int)),
        decreases parts.len() - i,
    {
        let part = &parts[i];
        let ghost before = result@;
        let mut j: usize = 0;
        while j < part.len()
            invariant
                0 <= j <= part.len(),
                result@ == before + part@.take(j as int),
            decreases part.len() - j,
        {
            result.push(part[j]);
            proof {
                assert(part@.take(j + 1) =~= part@.take(j as int).push(part@[j as int]));
            }
            j = j + 1;
        }
        proof {
            assert(part@.take(part.len() as int) =~= part@);
            assert(views.take(i + 1).drop_last() =~= views.take(i as int));
            assert(views.take(i + 1).last() == part@);
        }
        i = i + 1;
    }
    proof {
        assert(views.take(parts.len() as int) =~= views);
        lemma_concat_all_len_total(views);
        assert forall|i: int| 0 <= i < parts.len() implies parts_length(views.take(i))
            + parts[i]@.len() <= result@.len() && result@.subrange(
            parts_length(views.take(i)) as int,
            (parts_length(views.take(i)) + parts[i]@.len()) as int,
        ) == #[trigger] parts[i]@
        by {
            lemma_concat_all_places_parts(views, i);
            assert(views[i] == parts[i]@);
        }
    }
    result
}

/// Joining per-sequence results with one entry per row of each sequence
/// gives one entry per row of all the sequences together: the total length
/// of the joined sequence is the sum of the lengths.
pub proof fn lemma_concat_all_len(parts: Seq<Seq<usize>>, lengths: Seq<usize>)
    requires
        parts.len() == lengths.len(),
        forall|i: int| 0 <= i < parts.len() ==> #[trigger] parts[i].len() == lengths[i],
    ensures
        concat_all(parts).len() == total_length(lengths),
    decreases parts.len(),
{
    if parts.len() > 0 {
        let pl = parts.drop_last();
        let ll = lengths.drop_last();
        assert forall|i: int| 0 <= i < pl.len() implies #[trigger] pl[i].len() == ll[i] by {
            assert(pl[i] == parts[i]);
        }
        lemma_concat_all_len(pl, ll);
        assert(parts.last().len() == lengths.last()) by {
            assert(parts[parts.len() - 1].len() == lengths[parts.len() - 1]);
        }
    }
}

/// Names and shapes of accumulated statistics, as plain values.
pub open spec fn shape_table(v: Seq<(String, Vec<usize>)>) -> Seq<(Seq<char>, Seq<usize>)> {
    v.map_values(|p: (String, Vec<usize>)| (p.0@, p.1@))
}

/// No name occurs twice, as in a map from names to shapes.
pub open spec fn names_distinct(t: Seq<(Seq<char>, Seq<usize>)>) -> bool {
    forall|i: int, j: int| 0 <= i < j < t.len() ==> #[trigger] t[i].0 != #[trigger] t[j].0
}

/// A named shape.
pub(crate) fn named_shape(name: &str, shape: Vec<usize>) -> (r: (String, Vec<usize>))
    ensures
        r.0@ == name@,
        r.1@ == shape@,
{
    (name.to_owned(), shape)
}

} // verus!
