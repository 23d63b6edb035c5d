use crate::producer::{
    chunk_len, chunk_of, done_reports, output_after, progress_after,
    reports_done, step, stream, teardown_ending, Ending, MAX_CHUNK,
};
use vstd::prelude::*;

verus! {

/// After `k` pulls of a producer for `size` bytes, the bytes owed are
/// `size - k * MAX_CHUNK` while that is positive and 0 after; the end has been
/// reported exactly when an earlier pull already found nothing owed.
pub proof fn lemma_progress_after(size: nat, k: nat)
    ensures
        progress_after(size, k).remaining == if size > k * MAX_CHUNK {
            (size - k * MAX_CHUNK) as nat
        } else {
            0nat
        },
        progress_after(size, k).done_reported == (k > 0 && size <= (k - 1) * MAX_CHUNK),
    decreases k,
{
    if k > 0 {
        lemma_progress_after(size, (k - 1) as nat);
        assert((k - 1) * MAX_CHUNK + MAX_CHUNK == k * MAX_CHUNK) by (nonlinear_arith);
    }
}

/// Whatever the number of pulls, the bytes handed out so far are the start of
/// the seeded stream, and they and the bytes still owed add up to the size
/// that was asked for.
pub proof fn law_output_is_stream_prefix(size: nat, k: nat)
    ensures
        output_after(size, k) == stream(0, (size - progress_after(size, k).remaining) as nat),
        output_after(size, k).len() + progress_after(size, k).remaining == size,
    decreases k,
{
    lemma_progress_after(size, k);
    if k > 0 {
        let j = (k - 1) as nat;
        law_output_is_stream_prefix(size, j);
        lemma_progress_after(size, j);
        let p = progress_after(size, j);
        if p.remaining > 0 {
            let done = (size - p.remaining) as nat;
            assert(output_after(size, k) =~= stream(0, (done + chunk_len(p.remaining)) as nat));
        }
    }
}

/// Once `k * MAX_CHUNK` reaches the size, the producer owes nothing more and
/// the bytes it has handed out, across all its pulls, are exactly `size` of
/// them, the first `size` bytes of the seeded stream.
pub proof fn law_total_is_size(size: nat, k: nat)
    requires
        size <= k * MAX_CHUNK,
    ensures
        progress_after(size, k).remaining == 0,
        output_after(size, k) == stream(0, size),
        output_after(size, k).len() == size,
{
    lemma_progress_after(size, k);
    law_output_is_stream_prefix(size, k);
}

/// Every chunk of a producer for `size` bytes is `min(remaining, MAX_CHUNK)`
/// long, so never longer than `MAX_CHUNK`; every chunk but the last is
/// exactly `MAX_CHUNK` long.
pub proof fn law_chunk_lengths(size: nat, k: nat)
    requires
        progress_after(size, k).remaining > 0,
    ensures
        chunk_of(size, progress_after(size, k).remaining).len() == chunk_len(
            progress_after(size, k).remaining,
        ),
        chunk_len(progress_after(size, k).remaining) <= MAX_CHUNK,
        progress_after(size, k + 1).remaining > 0 ==> chunk_of(
            size,
            progress_after(size, k).remaining,
        ).len() == MAX_CHUNK,
{
}

/// Producers for the same size emit the same bytes: after `j` pulls and after
/// `k >= j` pulls, the output of the first is a prefix of the output of the
/// second, both taken from the one seeded stream whatever the instance.
pub proof fn law_same_size_same_bytes(size: nat, j: nat, k: nat)
    requires
        j <= k,
    ensures
        output_after(size, j) == output_after(size, k).subrange(0, output_after(size, j).len() as int),
{
    law_output_is_stream_prefix(size, j);
    law_output_is_stream_prefix(size, k);
    lemma_progress_after(size, j);
    lemma_progress_after(size, k);
    assert(j * MAX_CHUNK <= k * MAX_CHUNK) by (nonlinear_arith)
        requires
            j <= k,
    ;
    assert(output_after(size, j) =~= output_after(size, k).subrange(
        0,
        output_after(size, j).len() as int,
    ));
}

/// Once a producer has reported the end of its stream, it stays there: later
/// pulls owe nothing, hand out nothing, and report nothing.
pub proof fn law_end_is_final(size: nat, k: nat, j: nat)
    requires
        progress_after(size, k).remaining == 0,
        k <= j,
    ensures
        progress_after(size, j).remaining == 0,
        output_after(size, j) == output_after(size, k),
        j > k ==> !reports_done(progress_after(size, j)),
        j > k ==> step(progress_after(size, j)) == progress_after(size, j),
    decreases j - k,
{
    lemma_progress_after(size, k);
    lemma_progress_after(size, j);
    assert(k * MAX_CHUNK <= j * MAX_CHUNK) by (nonlinear_arith)
        requires
            k <= j,
    ;
    if j > k {
        law_end_is_final(size, k, (j - 1) as nat);
        assert((j - 1) * MAX_CHUNK >= k * MAX_CHUNK) by (nonlinear_arith)
            requires
                k <= j - 1,
        ;
    }
}

/// Pulls report `Done` as often as the progress says the end was reported:
/// once if it was, never if not.
proof fn lemma_done_reports(size: nat, k: nat)
    ensures
        done_reports(size, k) == if progress_after(size, k).done_reported {
            1nat
        } else {
            0nat
        },
        progress_after(size, k).done_reported ==> progress_after(size, k).remaining == 0,
    decreases k,
{
    if k > 0 {
        lemma_done_reports(size, (k - 1) as nat);
    }
}

/// Whatever the number of pulls before teardown, a producer reports exactly
/// one ending over its life: `Abandoned` at teardown if bytes were still
/// owed, and otherwise `Done`, from a pull or from the teardown, never both.
pub proof fn law_one_ending(size: nat, k: nat)
    ensures
        done_reports(size, k) + (if teardown_ending(progress_after(size, k)) is Some {
            1nat
        } else {
            0nat
        }) == 1,
        teardown_ending(progress_after(size, k)) == Some(Ending::Abandoned) <==> progress_after(
            size,
            k,
        ).remaining > 0,
{
    lemma_done_reports(size, k);
}

} // verus!
