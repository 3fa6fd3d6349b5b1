use vstd::prelude::*;

use crate::hashing::{sha256_hex, sha256_hex_of};
use crate::status::{
    InferStatus, LlmError, STATUS_CREATED, STATUS_FAILURE, STATUS_IN_PROGRESS, STATUS_NOT_FOUND,
    STATUS_SUCCESS,
};
use crate::text::{lemma_text_le_refl, lemma_text_le_total, lemma_text_le_trans, str_eq, str_le, text_le};

verus! {

/// One durable job record, keyed by `txid`. Timestamps are sortable text, so
/// that lexicographic order equals chronological order.
#[derive(Debug)]
pub struct ResultRow {
    pub txid: String,
    pub context: String,
    pub input: String,
    pub output: String,
    pub output_hash: String,
    pub status: u8,
    pub create_time: String,
    pub start_time: String,
    pub end_time: String,
}

impl Clone for ResultRow {
    fn clone(&self) -> (r: Self)
        ensures
            r == *self,
    {
        ResultRow {
            txid: self.txid.clone(),
            context: self.context.clone(),
            input: self.input.clone(),
            output: self.output.clone(),
            output_hash: self.output_hash.clone(),
            status: self.status,
            create_time: self.create_time.clone(),
            start_time: self.start_time.clone(),
            end_time: self.end_time.clone(),
        }
    }
}

/// A row a worker may pick up next: freshly created, or failed and therefore
/// owed one further attempt.
pub open spec fn eligible(r: ResultRow) -> bool {
    r.status == STATUS_CREATED || r.status == STATUS_FAILURE
}

/// A row a completion may address: exactly the rows being worked on.
pub open spec fn completable(r: ResultRow) -> bool {
    r.status == STATUS_IN_PROGRESS
}

/// Some stored row carries the ticket `t`.
pub open spec fn row_has(rows: Seq<ResultRow>, t: Seq<char>) -> bool {
    exists|i: int| 0 <= i < rows.len() && rows[i].txid@ == t
}

/// The position of the row carrying ticket `t`; with unique tickets it is
/// the only one.
pub open spec fn row_idx(rows: Seq<ResultRow>, t: Seq<char>) -> int {
    choose|i: int| 0 <= i < rows.len() && rows[i].txid@ == t
}

/// Every timestamp already set in `r` is no later than `t`.
pub open spec fn row_times_le(r: ResultRow, t: Seq<char>) -> bool {
    &&& text_le(r.create_time@, t)
    &&& text_le(r.start_time@, t)
    &&& text_le(r.end_time@, t)
}

/// What every stored row satisfies: a legal status code, a non-empty prompt,
/// timestamps set in lifecycle order, output and its fingerprint set exactly
/// on success, and nothing but emptiness before their stage is reached.
pub open spec fn row_inv(r: ResultRow) -> bool {
    &&& r.input@.len() > 0
    &&& r.create_time@.len() > 0
    &&& (r.status == STATUS_CREATED || r.status == STATUS_IN_PROGRESS || r.status == STATUS_SUCCESS
        || r.status == STATUS_FAILURE)
    &&& (r.status == STATUS_CREATED ==> r.start_time@.len() == 0 && r.end_time@.len() == 0
        && r.output@.len() == 0 && r.output_hash@.len() == 0)
    &&& (r.status != STATUS_CREATED ==> r.start_time@.len() > 0 && text_le(
        r.create_time@,
        r.start_time@,
    ))
    &&& (r.status == STATUS_IN_PROGRESS ==> r.output@.len() == 0 && r.output_hash@.len() == 0)
    &&& (r.status == STATUS_SUCCESS || r.status == STATUS_FAILURE ==> r.end_time@.len() > 0
        && text_le(r.start_time@, r.end_time@))
    &&& (r.status == STATUS_SUCCESS ==> r.output_hash@ == sha256_hex_of(r.output@))
    &&& (r.status == STATUS_FAILURE ==> r.output@.len() == 0 && r.output_hash@.len() == 0)
}

/// The store's invariant: tickets are unique and every row is well-formed.
pub open spec fn store_inv(rows: Seq<ResultRow>) -> bool {
    &&& forall|i: int, j: int|
        0 <= i < j < rows.len() ==> rows[i].txid@ != rows[j].txid@
    &&& forall|i: int| 0 <= i < rows.len() ==> row_inv(#[trigger] rows[i])
}

pub proof fn lemma_row_idx_unique(rows: Seq<ResultRow>, t: Seq<char>, i: int)
    requires
        store_inv(rows),
        0 <= i < rows.len(),
        rows[i].txid@ == t,
    ensures
        row_has(rows, t),
        row_idx(rows, t) == i,
{
    assert(row_has(rows, t));
    let j = row_idx(rows, t);
    assert(0 <= j < rows.len() && rows[j].txid@ == t);
    if i < j {
        assert(rows[i].txid@ != rows[j].txid@);
    } else if j < i {
        assert(rows[j].txid@ != rows[i].txid@);
    }
}

/// The record a fresh submission stores.
pub open spec fn created_row(r: ResultRow, t: Seq<char>, ctx: Seq<char>, inp: Seq<char>, now: Seq<char>) -> bool {
    &&& r.txid@ == t
    &&& r.context@ == ctx
    &&& r.input@ == inp
    &&& r.output@.len() == 0
    &&& r.output_hash@.len() == 0
    &&& r.status == STATUS_CREATED
    &&& r.create_time@ == now
    &&& r.start_time@.len() == 0
    &&& r.end_time@.len() == 0
}

/// What a claim writes: the row moves to in-progress and records when work
/// started; every other field is kept.
pub open spec fn claimed_row(post: ResultRow, pre: ResultRow, now: Seq<char>) -> bool {
    &&& post.txid == pre.txid
    &&& post.context == pre.context
    &&& post.input == pre.input
    &&& post.output == pre.output
    &&& post.output_hash == pre.output_hash
    &&& post.status == STATUS_IN_PROGRESS
    &&& post.start_time@ == now
    &&& post.create_time == pre.create_time
    &&& post.end_time == pre.end_time
}

/// What a completion writes: the outcome, its fingerprint, the terminal
/// status, and when work ended; on failure the output fields are written
/// as empty.
pub open spec fn completed_row(
    post: ResultRow,
    pre: ResultRow,
    out: Seq<char>,
    hash: Seq<char>,
    status: u8,
    now: Seq<char>,
) -> bool {
    &&& post.txid == pre.txid
    &&& post.context == pre.context
    &&& post.input == pre.input
    &&& (status == STATUS_SUCCESS ==> post.output@ == out && post.output_hash@ == hash)
    &&& (status == STATUS_FAILURE ==> post.output@.len() == 0 && post.output_hash@.len() == 0)
    &&& post.status == status
    &&& post.create_time == pre.create_time
    &&& post.start_time == pre.start_time
    &&& post.end_time@ == now
}

/// All rows but the one at `i` are kept as they were.
pub open spec fn rows_same_except(pre: Seq<ResultRow>, post: Seq<ResultRow>, i: int) -> bool {
    &&& post.len() == pre.len()
    &&& forall|j: int| 0 <= j < pre.len() && j != i ==> post[j] == pre[j]
}

/// What a successful submission leaves behind: the freshly created record
/// replaces the prior one for the ticket, or is appended after all others.
pub open spec fn create_ok_post(
    pre: Seq<ResultRow>,
    post: Seq<ResultRow>,
    t: Seq<char>,
    ctx: Seq<char>,
    inp: Seq<char>,
    now: Seq<char>,
) -> bool {
    if row_has(pre, t) {
        &&& rows_same_except(pre, post, row_idx(pre, t))
        &&& created_row(post[row_idx(pre, t)], t, ctx, inp, now)
    } else {
        &&& post.len() == pre.len() + 1
        &&& post.subrange(0, pre.len() as int) == pre
        &&& created_row(post[pre.len() as int], t, ctx, inp, now)
    }
}

/// What a successful claim leaves behind: the record for `t` moved to
/// in-progress, everything else untouched.
pub open spec fn claim_ok_post(pre: Seq<ResultRow>, post: Seq<ResultRow>, t: Seq<char>, now: Seq<char>) -> bool {
    &&& rows_same_except(pre, post, row_idx(pre, t))
    &&& claimed_row(post[row_idx(pre, t)], pre[row_idx(pre, t)], now)
}

/// What a successful completion leaves behind: the record for `t` moved to
/// the given terminal status, everything else untouched.
pub open spec fn complete_ok_post(
    pre: Seq<ResultRow>,
    post: Seq<ResultRow>,
    t: Seq<char>,
    out: Seq<char>,
    hash: Seq<char>,
    status: u8,
    now: Seq<char>,
) -> bool {
    &&& rows_same_except(pre, post, row_idx(pre, t))
    &&& completed_row(post[row_idx(pre, t)], pre[row_idx(pre, t)], out, hash, status, now)
}

/// What a lookup returns: the stored record for a known ticket, the
/// synthetic not-found record otherwise.
pub open spec fn get_result(rows: Seq<ResultRow>, t: Seq<char>, r: ResultRow) -> bool {
    if row_has(rows, t) {
        r == rows[row_idx(rows, t)]
    } else {
        is_not_found_row(r)
    }
}

/// The record `get` synthesizes for an unknown ticket: absence is a value,
/// not an error.
pub open spec fn is_not_found_row(r: ResultRow) -> bool {
    &&& r.txid@.len() == 0
    &&& r.context@.len() == 0
    &&& r.input@.len() == 0
    &&& r.output@.len() == 0
    &&& r.output_hash@.len() == 0
    &&& r.status == STATUS_NOT_FOUND
    &&& r.create_time@.len() == 0
    &&& r.start_time@.len() == 0
    &&& r.end_time@.len() == 0
}

/// The worker's selection rule: an eligible row, no eligible row was created
/// earlier, and among ties the first stored wins.
pub open spec fn is_choice(rows: Seq<ResultRow>, i: int) -> bool {
    &&& 0 <= i < rows.len()
    &&& eligible(rows[i])
    &&& forall|j: int|
        0 <= j < rows.len() && eligible(#[trigger] rows[j]) ==> text_le(
            rows[i].create_time@,
            rows[j].create_time@,
        )
    &&& forall|j: int|
        0 <= j < i && eligible(#[trigger] rows[j]) ==> !text_le(
            rows[j].create_time@,
            rows[i].create_time@,
        )
}

/// The job store: every record of every submission, in submission order.
/// Each operation is one atomic transition of a single record.
pub struct JobStore {
    rows: Vec<ResultRow>,
}

impl View for JobStore {
    type V = Seq<ResultRow>;

    closed spec fn view(&self) -> Seq<ResultRow> {
        self.rows@
    }
}

impl JobStore {
    pub open spec fn wf(&self) -> bool {
        store_inv(self@)
    }

    /// An empty store; every ticket is unknown to it.
    pub fn new() -> (s: JobStore)
        ensures
            s.wf(),
            s@.len() == 0,
    {
        JobStore { rows: Vec::new() }
    }

    /// The position of the row carrying `txid`, if one is stored.
    fn find_idx(&self, txid: &str) -> (r: Option<usize>)
        requires
            self.wf(),
        ensures
            r is Some ==> 0 <= r->0 < self@.len() && self@[r->0 as int].txid@ == txid@
                && row_idx(self@, txid@) == r->0,
            r is None ==> !row_has(self@, txid@),
    {
        let mut i: usize = 0;
        while i < self.rows.len()
            invariant
                self.wf(),
                i <= self@.len(),
                forall|j: int| 0 <= j < i ==> self@[j].txid@ != txid@,
            decreases self@.len() - i,
        {
            if str_eq(self.rows[i].as_str_txid(), txid) {
                proof {
                    lemma_row_idx_unique(self@, txid@, i as int);
                }
                return Some(i);
            }
            i = i + 1;
        }
        None
    }

    /// Inserts or replaces the record for `txid` with a freshly created one,
    /// stamped `now`; an empty prompt is rejected and nothing is altered.
    /// Replacing an existing ticket discards its prior state: last writer
    /// wins at the submission stage.
    pub fn create(&mut self, txid: &str, context: &str, input: &str, now: &str) -> (r: Result<
        (),
        LlmError,
    >)
        requires
            old(self).wf(),
            now@.len() > 0,
        ensures
            final(self).wf(),
            input@.len() == 0 ==> r == Err::<(), LlmError>(LlmError::InvalidInput) && final(self)@
                == old(self)@,
            input@.len() > 0 ==> r == Ok::<(), LlmError>(()) && create_ok_post(
                old(self)@,
                final(self)@,
                txid@,
                context@,
                input@,
                now@,
            ),
    {
        if input.unicode_len() == 0 {
            return Err(LlmError::InvalidInput);
        }
        let fresh = ResultRow {
            txid: txid.to_string(),
            context: context.to_string(),
            input: input.to_string(),
            output: String::new(),
            output_hash: String::new(),
            status: STATUS_CREATED,
            create_time: now.to_string(),
            start_time: String::new(),
            end_time: String::new(),
        };
        match self.find_idx(txid) {
            Some(i) => {
                self.rows.set(i, fresh);
                proof {
                    assert(self@ =~= old(self)@.update(i as int, self@[i as int]));
                }
                Ok(())
            },
            None => {
                let ghost pre = self@;
                self.rows.push(fresh);
                proof {
                    assert(self@.subrange(0, pre.len() as int) =~= pre);
                    assert forall|i: int, j: int| 0 <= i < j < self@.len() implies self@[i].txid@
                        != self@[j].txid@ by {
                        if j == pre.len() as int {
                            assert(!row_has(pre, txid@));
                            assert(pre[i].txid@ != txid@);
                        }
                    }
                }
                Ok(())
            },
        }
    }

    /// Marks the eligible record for `txid` as being worked on, stamped
    /// `now`. A ticket with no eligible record fails with `NotFoundError`
    /// and nothing is altered: a record never moves backward out of work or
    /// out of a terminal state.
    pub fn claim(&mut self, txid: &str, now: &str) -> (r: Result<(), LlmError>)
        requires
            old(self).wf(),
            now@.len() > 0,
            row_has(old(self)@, txid@) ==> row_times_le(
                old(self)@[row_idx(old(self)@, txid@)],
                now@,
            ),
        ensures
            final(self).wf(),
            if row_has(old(self)@, txid@) && eligible(old(self)@[row_idx(old(self)@, txid@)]) {
                &&& r == Ok::<(), LlmError>(())
                &&& claim_ok_post(old(self)@, final(self)@, txid@, now@)
            } else {
                r == Err::<(), LlmError>(LlmError::NotFoundError) && final(self)@ == old(self)@
            },
    {
        match self.find_idx(txid) {
            None => Err(LlmError::NotFoundError),
            Some(i) => {
                let status = self.rows[i].status;
                if status == STATUS_CREATED || status == STATUS_FAILURE {
                    let r = &self.rows[i];
                    let updated = ResultRow {
                        txid: r.txid.clone(),
                        context: r.context.clone(),
                        input: r.input.clone(),
                        output: r.output.clone(),
                        output_hash: r.output_hash.clone(),
                        status: STATUS_IN_PROGRESS,
                        create_time: r.create_time.clone(),
                        start_time: now.to_string(),
                        end_time: r.end_time.clone(),
                    };
                    self.rows.set(i, updated);
                    proof {
                        assert(self@ =~= old(self)@.update(i as int, self@[i as int]));
                    }
                    Ok(())
                } else {
                    Err(LlmError::NotFoundError)
                }
            },
        }
    }

    /// Writes the outcome for the in-progress record of `txid`, stamped
    /// `now`: the output and its fingerprint on success, empty output fields
    /// on failure. A ticket with no in-progress record fails with
    /// `NotFoundError` and nothing is altered, so a terminal record is never
    /// written twice.
    pub fn complete(
        &mut self,
        txid: &str,
        output: &str,
        output_hash: &str,
        status: InferStatus,
        now: &str,
    ) -> (r: Result<(), LlmError>)
        requires
            old(self).wf(),
            now@.len() > 0,
            status == InferStatus::Success || status == InferStatus::Failure,
            status == InferStatus::Success ==> output_hash@ == sha256_hex_of(output@),
            row_has(old(self)@, txid@) ==> row_times_le(
                old(self)@[row_idx(old(self)@, txid@)],
                now@,
            ),
        ensures
            final(self).wf(),
            if row_has(old(self)@, txid@) && completable(old(self)@[row_idx(old(self)@, txid@)]) {
                &&& r == Ok::<(), LlmError>(())
                &&& complete_ok_post(
                    old(self)@,
                    final(self)@,
                    txid@,
                    output@,
                    output_hash@,
                    status.as_code(),
                    now@,
                )
            } else {
                r == Err::<(), LlmError>(LlmError::NotFoundError) && final(self)@ == old(self)@
            },
    {
        match self.find_idx(txid) {
            None => Err(LlmError::NotFoundError),
            Some(i) => {
                if self.rows[i].status == STATUS_IN_PROGRESS {
                    let success = matches!(status, InferStatus::Success);
                    let r = &self.rows[i];
                    let updated = ResultRow {
                        txid: r.txid.clone(),
                        context: r.context.clone(),
                        input: r.input.clone(),
                        output: if success {
                            output.to_string()
                        } else {
                            String::new()
                        },
                        output_hash: if success {
                            output_hash.to_string()
                        } else {
                            String::new()
                        },
                        status: if success {
                            STATUS_SUCCESS
                        } else {
                            STATUS_FAILURE
                        },
                        create_time: r.create_time.clone(),
                        start_time: r.start_time.clone(),
                        end_time: now.to_string(),
                    };
                    self.rows.set(i, updated);
                    proof {
                        assert(self@ =~= old(self)@.update(i as int, self@[i as int]));
                    }
                    Ok(())
                } else {
                    Err(LlmError::NotFoundError)
                }
            },
        }
    }

    /// Returns the full record for `txid`, or the synthetic not-found record
    /// when the ticket is unknown. A read, never an error.
    pub fn get(&self, txid: &str) -> (r: ResultRow)
        requires
            self.wf(),
        ensures
            get_result(self@, txid@, r),
    {
        match self.find_idx(txid) {
            Some(i) => self.rows[i].clone(),
            None => ResultRow {
                txid: String::new(),
                context: String::new(),
                input: String::new(),
                output: String::new(),
                output_hash: String::new(),
                status: STATUS_NOT_FOUND,
                create_time: String::new(),
                start_time: String::new(),
                end_time: String::new(),
            },
        }
    }

    /// The position of the next record a worker should take: the oldest
    /// eligible one by creation time, ties broken by storage order.
    fn choose_pending(&self) -> (r: Option<usize>)
        requires
            self.wf(),
        ensures
            r is Some ==> is_choice(self@, r->0 as int),
            r is None ==> forall|i: int| 0 <= i < self@.len() ==> !eligible(#[trigger] self@[i]),
    {
        let mut best: Option<usize> = None;
        let mut i: usize = 0;
        while i < self.rows.len()
            invariant
                self.wf(),
                i <= self@.len(),
                best is None ==> forall|j: int| 0 <= j < i ==> !eligible(#[trigger] self@[j]),
                best is Some ==> {
                    let b = best->0 as int;
                    &&& 0 <= b < i as int
                    &&& eligible(self@[b])
                    &&& forall|j: int|
                        0 <= j < i && eligible(#[trigger] self@[j]) ==> text_le(
                            self@[b].create_time@,
                            self@[j].create_time@,
                        )
                    &&& forall|j: int|
                        0 <= j < b && eligible(#[trigger] self@[j]) ==> !text_le(
                            self@[j].create_time@,
                            self@[b].create_time@,
                        )
                },
            decreases self@.len() - i,
        {
            let status = self.rows[i].status;
            if status == STATUS_CREATED || status == STATUS_FAILURE {
                match best {
                    None => {
                        proof {
                            lemma_text_le_refl(self@[i as int].create_time@);
                        }
                        best = Some(i);
                    },
                    Some(b) => {
                        if !str_le(self.rows[b].as_str_create_time(), self.rows[i].as_str_create_time()) {
                            proof {
                                lemma_text_le_total(
                                    self@[b as int].create_time@,
                                    self@[i as int].create_time@,
                                );
                                assert forall|j: int|
                                    0 <= j < i + 1 && eligible(#[trigger] self@[j]) implies text_le(
                                    self@[i as int].create_time@,
                                    self@[j].create_time@,
                                ) by {
                                    if j < i {
                                        lemma_text_le_trans(
                                            self@[i as int].create_time@,
                                            self@[b as int].create_time@,
                                            self@[j].create_time@,
                                        );
                                    } else {
                                        lemma_text_le_refl(self@[i as int].create_time@);
                                    }
                                }
                                assert forall|j: int|
                                    0 <= j < i && eligible(#[trigger] self@[j]) implies !text_le(
                                    self@[j].create_time@,
                                    self@[i as int].create_time@,
                                ) by {
                                    if text_le(self@[j].create_time@, self@[i as int].create_time@) {
                                        lemma_text_le_trans(
                                            self@[b as int].create_time@,
                                            self@[j].create_time@,
                                            self@[i as int].create_time@,
                                        );
                                    }
                                }
                            }
                            best = Some(i);
                        }
                    },
                }
            }
            i = i + 1;
        }
        best
    }

    /// Returns a copy of the record the worker should take next, or nothing
    /// when no record is eligible.
    pub fn select_pending(&self) -> (r: Option<ResultRow>)
        requires
            self.wf(),
        ensures
            r is None <==> (forall|i: int| 0 <= i < self@.len() ==> !eligible(#[trigger] self@[i])),
            r is Some ==> exists|i: int| is_choice(self@, i) && r->0 == self@[i],
    {
        match self.choose_pending() {
            Some(i) => Some(self.rows[i].clone()),
            None => None,
        }
    }

    /// Selects the next eligible record and claims it in one step, so that
    /// no two such calls can take the same record. Returns a copy of the
    /// record as it was selected, before the claim.
    pub fn claim_next(&mut self, now: &str) -> (r: Option<ResultRow>)
        requires
            old(self).wf(),
            now@.len() > 0,
            forall|i: int| 0 <= i < old(self)@.len() ==> row_times_le(#[trigger] old(self)@[i], now@),
        ensures
            final(self).wf(),
            r is None ==> final(self)@ == old(self)@ && (forall|i: int|
                0 <= i < final(self)@.len() ==> !eligible(#[trigger] final(self)@[i])),
            r is Some ==> exists|i: int|
                {
                    &&& is_choice(old(self)@, i)
                    &&& r->0 == old(self)@[i]
                    &&& rows_same_except(old(self)@, final(self)@, i)
                    &&& claimed_row(final(self)@[i], old(self)@[i], now@)
                },
    {
        match self.choose_pending() {
            None => None,
            Some(i) => {
                let picked = self.rows[i].clone();
                let r = &self.rows[i];
                let updated = ResultRow {
                    txid: r.txid.clone(),
                    context: r.context.clone(),
                    input: r.input.clone(),
                    output: r.output.clone(),
                    output_hash: r.output_hash.clone(),
                    status: STATUS_IN_PROGRESS,
                    create_time: r.create_time.clone(),
                    start_time: now.to_string(),
                    end_time: r.end_time.clone(),
                };
                self.rows.set(i, updated);
                proof {
                    assert(self@ =~= old(self)@.update(i as int, self@[i as int]));
                }
                Some(picked)
            },
        }
    }

    /// Completes the in-progress record for `txid` as a success: the
    /// fingerprint is computed from the output, so `hash(output)` and the
    /// stored fingerprint always agree.
    pub fn finish_success(&mut self, txid: &str, output: &str, now: &str) -> (r: Result<
        (),
        LlmError,
    >)
        requires
            old(self).wf(),
            now@.len() > 0,
            row_has(old(self)@, txid@) ==> row_times_le(
                old(self)@[row_idx(old(self)@, txid@)],
                now@,
            ),
        ensures
            final(self).wf(),
            if row_has(old(self)@, txid@) && completable(old(self)@[row_idx(old(self)@, txid@)]) {
                &&& r == Ok::<(), LlmError>(())
                &&& complete_ok_post(
                    old(self)@,
                    final(self)@,
                    txid@,
                    output@,
                    sha256_hex_of(output@),
                    STATUS_SUCCESS,
                    now@,
                )
            } else {
                r == Err::<(), LlmError>(LlmError::NotFoundError) && final(self)@ == old(self)@
            },
    {
        let hash = sha256_hex(output);
        self.complete(txid, output, hash.as_str(), InferStatus::Success, now)
    }

    /// Completes the in-progress record for `txid` as a failure: output and
    /// fingerprint are written as empty, and the record becomes eligible for
    /// one further attempt.
    pub fn finish_failure(&mut self, txid: &str, now: &str) -> (r: Result<(), LlmError>)
        requires
            old(self).wf(),
            now@.len() > 0,
            row_has(old(self)@, txid@) ==> row_times_le(
                old(self)@[row_idx(old(self)@, txid@)],
                now@,
            ),
        ensures
            final(self).wf(),
            if row_has(old(self)@, txid@) && completable(old(self)@[row_idx(old(self)@, txid@)]) {
                &&& r == Ok::<(), LlmError>(())
                &&& complete_ok_post(
                    old(self)@,
                    final(self)@,
                    txid@,
                    Seq::<char>::empty(),
                    Seq::<char>::empty(),
                    STATUS_FAILURE,
                    now@,
                )
            } else {
                r == Err::<(), LlmError>(LlmError::NotFoundError) && final(self)@ == old(self)@
            },
    {
        let empty = String::new();
        self.complete(txid, empty.as_str(), empty.as_str(), InferStatus::Failure, now)
    }

    /// Records what the backend returned for the claimed record `txid`:
    /// an output becomes a success completion with its fingerprint, no
    /// output becomes a failure completion with empty output fields. The
    /// backend's failure is swallowed into the record, never propagated.
    pub fn record_outcome(&mut self, txid: &str, outcome: &Option<String>, now: &str) -> (r: Result<
        (),
        LlmError,
    >)
        requires
            old(self).wf(),
            now@.len() > 0,
            row_has(old(self)@, txid@) ==> row_times_le(
                old(self)@[row_idx(old(self)@, txid@)],
                now@,
            ),
        ensures
            final(self).wf(),
            if row_has(old(self)@, txid@) && completable(old(self)@[row_idx(old(self)@, txid@)]) {
                &&& r == Ok::<(), LlmError>(())
                &&& (outcome is Some ==> complete_ok_post(
                    old(self)@,
                    final(self)@,
                    txid@,
                    outcome->0@,
                    sha256_hex_of(outcome->0@),
                    STATUS_SUCCESS,
                    now@,
                ))
                &&& (outcome is None ==> complete_ok_post(
                    old(self)@,
                    final(self)@,
                    txid@,
                    Seq::<char>::empty(),
                    Seq::<char>::empty(),
                    STATUS_FAILURE,
                    now@,
                ))
            } else {
                r == Err::<(), LlmError>(LlmError::NotFoundError) && final(self)@ == old(self)@
            },
    {
        match outcome {
            Some(output) => self.finish_success(txid, output.as_str(), now),
            None => self.finish_failure(txid, now),
        }
    }
}

impl ResultRow {
    fn as_str_txid(&self) -> (r: &str)
        ensures
            r@ == self.txid@,
    {
        self.txid.as_str()
    }

    fn as_str_create_time(&self) -> (r: &str)
        ensures
            r@ == self.create_time@,
    {
        self.create_time.as_str()
    }
}

} // verus!
