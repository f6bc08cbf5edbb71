//! Splitting a bulk write into fixed-size chunks, and joining the results.
use vstd::prelude::*;

verus! {

broadcast use Seq::lemma_flatten_push;

/// Rows per statement of a chunked bulk insert, small enough to stay within
/// the store's practical statement size.
pub const INSERT_CHUNK_SIZE: usize = 50000;

/// The contents of each part.
pub open spec fn part_views<T>(parts: Seq<Vec<T>>) -> Seq<Seq<T>> {
    parts.map_values(|p: Vec<T>| p@)
}

/// Every part holds between one and `size` items, and every part but the
/// last holds exactly `size`.
pub open spec fn well_chunked<T>(parts: Seq<Seq<T>>, size: nat) -> bool {
    forall|i: int|
        0 <= i < parts.len() ==> 0 < #[trigger] parts[i].len() <= size && (i < parts.len() - 1
            ==> parts[i].len() == size)
}

/// Splits `data` into consecutive chunks of `size` items, the last one
/// possibly shorter; an empty input gives no chunk.
pub fn split_chunks<T>(data: Vec<T>, size: usize) -> (r: Vec<Vec<T>>)
    requires
        size > 0,
    ensures
        part_views(r@).flatten() == data@,
        well_chunked(part_views(r@), size as nat),
{
    let ghost whole = data@;
    let mut parts: Vec<Vec<T>> = Vec::new();
    let mut rest = data;
    while rest.len() > size
        invariant
            size > 0,
            part_views(parts@).flatten() + rest@ == whole,
            forall|i: int| 0 <= i < parts@.len() ==> (#[trigger] parts@[i])@.len() == size,
        decreases rest@.len(),
    {
        let ghost pv = part_views(parts@);
        let ghost old_rest = rest@;
        let tail = rest.split_off(size);
        parts.push(rest);
        proof {
            assert(part_views(parts@) =~= pv.push(old_rest.subrange(0, size as int)));
            assert(old_rest =~= old_rest.subrange(0, size as int) + tail@);
            assert(pv.flatten() + old_rest.subrange(0, size as int) + tail@ =~= pv.flatten() + (
            old_rest.subrange(0, size as int) + tail@));
        }
        rest = tail;
    }
    let ghost pv = part_views(parts@);
    if rest.len() > 0 {
        let ghost last = rest@;
        parts.push(rest);
        proof {
            assert(part_views(parts@) =~= pv.push(last));
        }
    } else {
        assert(pv.flatten() + rest@ =~= pv.flatten());
    }
    parts
}

/// The concatenation of `parts`, in order.
pub fn concat_chunks<T>(parts: Vec<Vec<T>>) -> (r: Vec<T>)
    ensures
        r@ == part_views(parts@).flatten(),
{
    let ghost all = part_views(parts@).flatten();
    let mut out: Vec<T> = Vec::new();
    let mut rest = parts;
    while rest.len() > 0
        invariant
            out@ + part_views(rest@).flatten() == all,
        decreases rest@.len(),
    {
        let ghost before = part_views(rest@);
        let mut p = rest.remove(0);
        proof {
            assert(part_views(rest@) =~= before.drop_first());
            assert(before.flatten() == before.first() + before.drop_first().flatten());
        }
        out.append(&mut p);
        proof {
            assert(out@ + part_views(rest@).flatten() =~= all);
        }
    }
    assert(part_views(rest@).flatten() =~= Seq::<T>::empty());
    assert(out@ =~= all);
    out
}

/// Where each chunk of a bulk write yields one result per input row, the
/// joined results are exactly as many as the input rows.
pub proof fn lemma_chunk_results_match_input<T, U>(inputs: Seq<Seq<T>>, outputs: Seq<Seq<U>>)
    requires
        inputs.len() == outputs.len(),
        forall|i: int| 0 <= i < inputs.len() ==> (#[trigger] outputs[i]).len() == inputs[i].len(),
    ensures
        outputs.flatten().len() == inputs.flatten().len(),
    decreases inputs.len(),
{
    if inputs.len() > 0 {
        lemma_chunk_results_match_input(inputs.drop_first(), outputs.drop_first());
        assert forall|i: int| 0 <= i < inputs.drop_first().len() implies (
        #[trigger] outputs.drop_first()[i]).len() == inputs.drop_first()[i].len() by {
            assert(outputs.drop_first()[i] == outputs[i + 1]);
        }
    }
}

} // verus!
