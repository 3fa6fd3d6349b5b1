use vstd::prelude::*;

use crate::facade::query;
use crate::status::{InferStatus, LlmError};
use crate::store::{row_has, row_idx, JobStore};

verus! {

/// The path under which one job's result is served.
pub open spec fn infer_path_prefix() -> Seq<char> {
    "/v2/infer_res/"@
}

/// A character a ticket may carry in a request path: an ASCII digit or
/// letter.
pub open spec fn is_tx_char(c: char) -> bool {
    ||| ('0' as u32) <= (c as u32) <= ('9' as u32)
    ||| ('a' as u32) <= (c as u32) <= ('z' as u32)
    ||| ('A' as u32) <= (c as u32) <= ('Z' as u32)
}

/// A request path names the ticket `t` exactly when it is the fixed prefix
/// followed by `t`, and `t` is one or more digits or letters.
pub open spec fn path_decodes_to(p: Seq<char>, t: Seq<char>) -> bool {
    &&& p.len() > infer_path_prefix().len()
    &&& p.subrange(0, infer_path_prefix().len() as int) == infer_path_prefix()
    &&& t == p.skip(infer_path_prefix().len() as int)
    &&& forall|i: int| 0 <= i < t.len() ==> is_tx_char(#[trigger] t[i])
}

fn tx_char_ok(c: char) -> (r: bool)
    ensures
        r == is_tx_char(c),
{
    let u = c as u32;
    (('0' as u32) <= u && u <= ('9' as u32)) || (('a' as u32) <= u && u <= ('z' as u32)) || (('A'
        as u32) <= u && u <= ('Z' as u32))
}

/// Extracts the ticket a request path names, or nothing when the path names
/// none.
pub fn parse_infer_result_path(path: &str) -> (r: Option<String>)
    ensures
        r is Some ==> path_decodes_to(path@, r->0@),
        r is None ==> forall|t: Seq<char>| !path_decodes_to(path@, t),
{
    let prefix = "/v2/infer_res/";
    let plen = prefix.unicode_len();
    let len = path.unicode_len();
    if len <= plen {
        return None;
    }
    let mut i: usize = 0;
    while i < plen
        invariant
            i <= plen,
            plen == infer_path_prefix().len(),
            prefix@ == infer_path_prefix(),
            len == path@.len(),
            len > plen,
            forall|j: int| 0 <= j < i ==> path@[j] == infer_path_prefix()[j],
        decreases plen - i,
    {
        if path.get_char(i) != prefix.get_char(i) {
            proof {
                assert forall|t: Seq<char>| !path_decodes_to(path@, t) by {
                    if path_decodes_to(path@, t) {
                        assert(path@.subrange(0, plen as int)[i as int] == path@[i as int]);
                    }
                }
            }
            return None;
        }
        i = i + 1;
    }
    let mut k: usize = plen;
    while k < len
        invariant
            plen <= k <= len,
            plen == infer_path_prefix().len(),
            len == path@.len(),
            len > plen,
            forall|j: int| 0 <= j < plen ==> path@[j] == infer_path_prefix()[j],
            forall|j: int| plen <= j < k ==> is_tx_char(#[trigger] path@[j]),
        decreases len - k,
    {
        if !tx_char_ok(path.get_char(k)) {
            proof {
                assert forall|t: Seq<char>| !path_decodes_to(path@, t) by {
                    if path_decodes_to(path@, t) {
                        assert(t[k - plen] == path@[k as int]);
                    }
                }
            }
            return None;
        }
        k = k + 1;
    }
    let tail = path.substring_char(plen, len);
    proof {
        assert(path@.subrange(0, plen as int) =~= infer_path_prefix());
        assert(tail@ =~= path@.skip(plen as int));
    }
    Some(tail.to_string())
}

/// Builds the request path that names the ticket `tx_id`.
pub fn make_infer_result_path(tx_id: &str) -> (r: String)
    ensures
        r@ == infer_path_prefix() + tx_id@,
{
    let mut s = "/v2/infer_res/".to_string();
    s.append(tx_id);
    s
}

/// A path built from a well-formed ticket decodes back to that very ticket:
/// building and parsing are inverse to one another.
pub proof fn lemma_path_round_trip(t: Seq<char>)
    requires
        t.len() > 0,
        forall|i: int| 0 <= i < t.len() ==> is_tx_char(#[trigger] t[i]),
    ensures
        path_decodes_to(infer_path_prefix() + t, t),
{
    let p = infer_path_prefix() + t;
    assert(p.subrange(0, infer_path_prefix().len() as int) =~= infer_path_prefix());
    assert(p.skip(infer_path_prefix().len() as int) =~= t);
}

/// The handler state for a request that reads one job's result.
#[derive(Clone)]
pub struct RPCInferResultRequestHandler {
    pub tx_id: Option<String>,
}

impl RPCInferResultRequestHandler {
    pub fn new() -> (h: Self)
        ensures
            h.tx_id is None,
    {
        RPCInferResultRequestHandler { tx_id: None }
    }

    /// The request method this handler serves.
    pub fn verb(&self) -> (r: &'static str)
        ensures
            r@ == "GET"@,
    {
        "GET"
    }

    /// The identifier under which calls of this handler are counted.
    pub fn metrics_identifier(&self) -> (r: &'static str)
        ensures
            r@ == "/v2/infer_res/:tx_id"@,
    {
        "/v2/infer_res/:tx_id"
    }

    /// Clears the handler's state between requests.
    pub fn restart(&mut self)
        ensures
            final(self).tx_id is None,
    {
        self.tx_id = None;
    }

    /// Accepts a request when its body is empty and its path names a ticket,
    /// and remembers that ticket; any other request is rejected unseen and
    /// the handler is left as it was.
    pub fn try_parse_request(&mut self, content_length: usize, path: &str) -> (r: Result<
        (),
        LlmError,
    >)
        ensures
            r is Ok <==> content_length == 0 && (exists|t: Seq<char>| path_decodes_to(path@, t)),
            r is Ok ==> final(self).tx_id is Some && path_decodes_to(
                path@,
                final(self).tx_id->0@,
            ),
            r is Err ==> r == Err::<(), LlmError>(LlmError::InvalidInput) && final(self).tx_id
                == old(self).tx_id,
    {
        if content_length != 0 {
            return Err(LlmError::InvalidInput);
        }
        match parse_infer_result_path(path) {
            Some(tx_id) => {
                self.tx_id = Some(tx_id);
                Ok(())
            },
            None => Err(LlmError::InvalidInput),
        }
    }
}

/// The data served for one job: the record's visible fields under the
/// ticket the caller asked for.
#[derive(Debug, Clone, PartialEq)]
pub struct RPCInferResultData {
    pub txid: String,
    pub status: InferStatus,
    pub input: String,
    pub output: String,
    pub output_hash: String,
}

impl RPCInferResultData {
    /// Reads the record for `tx_id` out of the store. Absence is served as a
    /// record with status `NotFound`, never as an error.
    pub fn from_llm(tx_id: String, store: &JobStore) -> (r: Result<RPCInferResultData, LlmError>)
        requires
            store.wf(),
        ensures
            r is Ok,
            ({
                let d = r->Ok_0;
                &&& d.txid@ == tx_id@
                &&& (if row_has(store@, tx_id@) {
                    let row = store@[row_idx(store@, tx_id@)];
                    &&& d.status.as_code() == row.status
                    &&& d.input@ == row.input@
                    &&& d.output@ == row.output@
                    &&& d.output_hash@ == row.output_hash@
                } else {
                    &&& d.status == InferStatus::NotFound
                    &&& d.input@.len() == 0
                    &&& d.output@.len() == 0
                    &&& d.output_hash@.len() == 0
                })
            }),
    {
        let result = match query(store, tx_id.clone()) {
            Ok(result) => result,
            Err(_) => {
                proof {
                    assert(false);
                }
                return Err(LlmError::NotFoundError);
            },
        };
        Ok(
            RPCInferResultData {
                txid: tx_id,
                status: result.status,
                input: result.input,
                output: result.output,
                output_hash: result.output_hash,
            },
        )
    }
}

/// The ticket a response stream is serving.
#[derive(Debug, Clone, PartialEq)]
pub struct InferResultStream {
    pub tx_id: String,
}

} // verus!
