use vstd::prelude::*;

use crate::status::{InferStatus, LlmError, STATUS_CREATED};
use crate::store::{create_ok_post, row_has, row_idx, JobStore};

verus! {

/// The caller-visible view of one job record: what the read endpoint hands
/// to the transport layer.
#[derive(Debug, Clone, PartialEq)]
pub struct InferResult {
    pub txid: String,
    pub status: InferStatus,
    pub input: String,
    pub output: String,
    pub output_hash: String,
}

/// What `query` returns for a ticket: the stored record's visible fields,
/// or the not-found result with everything empty.
pub open spec fn query_result(rows: Seq<crate::store::ResultRow>, t: Seq<char>, r: InferResult) -> bool {
    if row_has(rows, t) {
        let row = rows[row_idx(rows, t)];
        &&& r.txid@ == row.txid@
        &&& r.status.as_code() == row.status
        &&& r.input@ == row.input@
        &&& r.output@ == row.output@
        &&& r.output_hash@ == row.output_hash@
    } else {
        &&& r.txid@.len() == 0
        &&& r.status == InferStatus::NotFound
        &&& r.input@.len() == 0
        &&& r.output@.len() == 0
        &&& r.output_hash@.len() == 0
    }
}

/// Looks a ticket up and returns its full visible record. An unknown ticket
/// is not an error: it reads as a record with status `NotFound`.
pub fn query(store: &JobStore, txid: String) -> (r: Result<InferResult, LlmError>)
    requires
        store.wf(),
    ensures
        r is Ok,
        query_result(store@, txid@, r->Ok_0),
{
    let row = store.get(txid.as_str());
    proof {
        if row_has(store@, txid@) {
            let i = row_idx(store@, txid@);
            assert(crate::store::row_inv(store@[i]));
        }
    }
    let status = match InferStatus::from_code(row.status) {
        Some(s) => s,
        None => {
            proof {
                assert(false);
            }
            InferStatus::NotFound
        },
    };
    Ok(
        InferResult {
            txid: row.txid,
            status,
            input: row.input,
            output: row.output,
            output_hash: row.output_hash,
        },
    )
}

/// Like `query`, but redacted for callers that must not see payload
/// content: only the status and the output's fingerprint are returned,
/// prompt and output read as empty.
pub fn query_hash(store: &JobStore, txid: String) -> (r: Result<InferResult, LlmError>)
    requires
        store.wf(),
    ensures
        r is Ok,
        ({
            let q = r->Ok_0;
            &&& q.input@.len() == 0
            &&& q.output@.len() == 0
            &&& (if row_has(store@, txid@) {
                let row = store@[row_idx(store@, txid@)];
                &&& q.txid@ == row.txid@
                &&& q.status.as_code() == row.status
                &&& q.output_hash@ == row.output_hash@
            } else {
                &&& q.txid@.len() == 0
                &&& q.status == InferStatus::NotFound
                &&& q.output_hash@.len() == 0
            })
        }),
{
    let row = store.get(txid.as_str());
    proof {
        if row_has(store@, txid@) {
            let i = row_idx(store@, txid@);
            assert(crate::store::row_inv(store@[i]));
        }
    }
    let status = match InferStatus::from_code(row.status) {
        Some(s) => s,
        None => {
            proof {
                assert(false);
            }
            InferStatus::NotFound
        },
    };
    Ok(
        InferResult {
            txid: row.txid,
            status,
            input: String::new(),
            output: String::new(),
            output_hash: row.output_hash,
        },
    )
}

/// Submits a ticket with its prompt: the record is stored as created, with
/// an empty context, and the created status is handed back. An empty prompt
/// is rejected and nothing is altered.
pub fn infer_chain(store: &mut JobStore, txid: String, user_input: &str, now: &str) -> (r: Result<
    InferStatus,
    LlmError,
>)
    requires
        old(store).wf(),
        now@.len() > 0,
    ensures
        final(store).wf(),
        user_input@.len() == 0 ==> r == Err::<InferStatus, LlmError>(LlmError::InvalidInput)
            && final(store)@ == old(store)@,
        user_input@.len() > 0 ==> r == Ok::<InferStatus, LlmError>(InferStatus::Created)
            && create_ok_post(
            old(store)@,
            final(store)@,
            txid@,
            Seq::<char>::empty(),
            user_input@,
            now@,
        ),
{
    proof {
        reveal_strlit("");
        assert(""@ =~= Seq::<char>::empty());
    }
    match store.create(txid.as_str(), "", user_input, now) {
        Ok(()) => {
            proof {
                assert(InferStatus::Created.as_code() == STATUS_CREATED);
            }
            Ok(InferStatus::Created)
        },
        Err(e) => Err(e),
    }
}

} // verus!
