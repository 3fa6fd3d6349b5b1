use vstd::prelude::*;

use crate::hashing::sha256_hex_of;
use crate::status::{STATUS_CREATED, STATUS_FAILURE, STATUS_IN_PROGRESS, STATUS_NOT_FOUND, STATUS_SUCCESS};
use crate::store::{
    claim_ok_post, claimed_row, complete_ok_post, completable, create_ok_post, eligible,
    get_result, is_choice, is_not_found_row, lemma_row_idx_unique, row_has, row_idx,
    row_times_le, rows_same_except, store_inv, ResultRow,
};
use crate::text::text_le;

verus! {

/// A ticket that was never submitted reads as not found, with every other
/// field empty.
pub proof fn lemma_unknown_ticket_reads_empty(rows: Seq<ResultRow>, t: Seq<char>, r: ResultRow)
    requires
        !row_has(rows, t),
        get_result(rows, t, r),
    ensures
        is_not_found_row(r),
        r.status == STATUS_NOT_FOUND,
        r.txid@.len() == 0,
        r.output@.len() == 0,
        r.output_hash@.len() == 0,
        r.start_time@.len() == 0,
        r.end_time@.len() == 0,
{
}

/// Immediately after a valid submission is stored, the ticket reads back as
/// created, carrying the prompt, and neither a start nor a completion
/// timestamp has been set.
pub proof fn lemma_created_reads_created(
    pre: Seq<ResultRow>,
    post: Seq<ResultRow>,
    t: Seq<char>,
    ctx: Seq<char>,
    inp: Seq<char>,
    now: Seq<char>,
    r: ResultRow,
)
    requires
        store_inv(pre),
        store_inv(post),
        create_ok_post(pre, post, t, ctx, inp, now),
        get_result(post, t, r),
    ensures
        r.status == STATUS_CREATED,
        r.txid@ == t,
        r.context@ == ctx,
        r.input@ == inp,
        r.create_time@ == now,
        r.start_time@.len() == 0,
        r.end_time@.len() == 0,
        r.output@.len() == 0,
        r.output_hash@.len() == 0,
{
    if row_has(pre, t) {
        let i = row_idx(pre, t);
        lemma_row_idx_unique(post, t, i);
    } else {
        lemma_row_idx_unique(post, t, pre.len() as int);
    }
}

/// Immediately after a claim, the ticket reads back as in progress, its
/// start timestamp is set, and work started no earlier than the record was
/// created.
pub proof fn lemma_claimed_reads_in_progress(
    pre: Seq<ResultRow>,
    post: Seq<ResultRow>,
    t: Seq<char>,
    now: Seq<char>,
    r: ResultRow,
)
    requires
        store_inv(pre),
        store_inv(post),
        row_has(pre, t),
        eligible(pre[row_idx(pre, t)]),
        row_times_le(pre[row_idx(pre, t)], now),
        now.len() > 0,
        claim_ok_post(pre, post, t, now),
        get_result(post, t, r),
    ensures
        r.status == STATUS_IN_PROGRESS,
        r.txid@ == t,
        r.start_time@ == now,
        r.start_time@.len() > 0,
        text_le(r.create_time@, r.start_time@),
{
    let i = row_idx(pre, t);
    lemma_row_idx_unique(post, t, i);
}

/// Immediately after a success completion, the ticket reads back with the
/// output, the stored fingerprint is the fingerprint of that output, and
/// work ended no earlier than it started.
pub proof fn lemma_success_reads_output(
    pre: Seq<ResultRow>,
    post: Seq<ResultRow>,
    t: Seq<char>,
    out: Seq<char>,
    now: Seq<char>,
    r: ResultRow,
)
    requires
        store_inv(pre),
        store_inv(post),
        row_has(pre, t),
        completable(pre[row_idx(pre, t)]),
        row_times_le(pre[row_idx(pre, t)], now),
        now.len() > 0,
        complete_ok_post(pre, post, t, out, sha256_hex_of(out), STATUS_SUCCESS, now),
        get_result(post, t, r),
    ensures
        r.status == STATUS_SUCCESS,
        r.txid@ == t,
        r.output@ == out,
        r.output_hash@ == sha256_hex_of(out),
        r.output_hash@ == sha256_hex_of(r.output@),
        r.end_time@ == now,
        text_le(r.start_time@, r.end_time@),
{
    let i = row_idx(pre, t);
    lemma_row_idx_unique(post, t, i);
}

/// A record that ended in success is frozen: it is neither eligible for a
/// claim nor addressable by a completion, so both operations refuse it and
/// leave the store unchanged.
pub proof fn lemma_success_record_is_frozen(rows: Seq<ResultRow>, t: Seq<char>)
    requires
        store_inv(rows),
        row_has(rows, t),
        rows[row_idx(rows, t)].status == STATUS_SUCCESS,
    ensures
        !eligible(rows[row_idx(rows, t)]),
        !completable(rows[row_idx(rows, t)]),
{
}

/// A record that ended in failure can never be completed again; it stays
/// eligible for exactly the worker's retry claim, by design.
pub proof fn lemma_failure_record_not_completable(rows: Seq<ResultRow>, t: Seq<char>)
    requires
        store_inv(rows),
        row_has(rows, t),
        rows[row_idx(rows, t)].status == STATUS_FAILURE,
    ensures
        !completable(rows[row_idx(rows, t)]),
        eligible(rows[row_idx(rows, t)]),
{
}

/// The worker's selection rule is deterministic: at most one position of
/// the store satisfies it.
pub proof fn lemma_choice_unique(rows: Seq<ResultRow>, i: int, j: int)
    requires
        is_choice(rows, i),
        is_choice(rows, j),
    ensures
        i == j,
{
    if i < j {
        assert(text_le(rows[i].create_time@, rows[j].create_time@));
        assert(!text_le(rows[i].create_time@, rows[j].create_time@));
    } else if j < i {
        assert(text_le(rows[j].create_time@, rows[i].create_time@));
        assert(!text_le(rows[j].create_time@, rows[i].create_time@));
    }
}

/// A claim on a store with nothing in progress leaves exactly one record
/// in progress: the claimed one. The single worker therefore never has two
/// records in flight.
pub proof fn lemma_claim_leaves_one_in_progress(
    pre: Seq<ResultRow>,
    post: Seq<ResultRow>,
    now: Seq<char>,
    i: int,
)
    requires
        store_inv(pre),
        forall|j: int| 0 <= j < pre.len() ==> (#[trigger] pre[j]).status != STATUS_IN_PROGRESS,
        0 <= i < pre.len(),
        rows_same_except(pre, post, i),
        claimed_row(post[i], pre[i], now),
    ensures
        post[i].status == STATUS_IN_PROGRESS,
        forall|j: int|
            0 <= j < post.len() && j != i ==> (#[trigger] post[j]).status != STATUS_IN_PROGRESS,
{
}

/// In every well-formed store, a successful record's fingerprint is the
/// fingerprint of its stored output, and its timestamps stand in lifecycle
/// order.
pub proof fn lemma_success_hash_always_agrees(rows: Seq<ResultRow>, i: int)
    requires
        store_inv(rows),
        0 <= i < rows.len(),
        rows[i].status == STATUS_SUCCESS,
    ensures
        rows[i].output_hash@ == sha256_hex_of(rows[i].output@),
        text_le(rows[i].create_time@, rows[i].start_time@),
        text_le(rows[i].start_time@, rows[i].end_time@),
{
}

} // verus!
