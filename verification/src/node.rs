//! The decisions a node makes while it answers a query.
//!
//! A query runs in steps: a block tag is resolved against the verified head;
//! the raw value is fetched from the primary execution endpoint; in a
//! verifiable mode the proof endpoint is asked too, and the raw value is
//! handed back only if the proof confirms it. Fetching is the caller's work.
//! What to do with each answer is decided here, and no failure is ever
//! turned into a value.

use url::Url;
use vstd::prelude::*;

use crate::error::{
    head_unavailable_text, proof_mismatch_text, ClientError, ErrorKind, Failure,
};
use crate::execution_mode::ExecutionMode;

verus! {

/// A reference to a block: fixed, by height or hash, or relative to the head
/// of the chain.
#[derive(Clone, Copy, Debug, PartialEq, Eq)]
pub enum BlockTag {
    Latest,
    Finalized,
    Safe,
    Pending,
    Number(u64),
    Hash([u8; 32]),
}

/// A reference to one block, by height or by hash.
#[derive(Clone, Copy, Debug, PartialEq, Eq)]
pub enum BlockId {
    Number(u64),
    Hash([u8; 32]),
}

impl BlockTag {
    /// Whether the tag names a block by its place relative to the head.
    pub open spec fn relative(&self) -> bool {
        !(self is Number || self is Hash)
    }

    /// The block a tag stands for, given the verified head if there is one.
    /// A fixed tag stands for itself; a relative tag stands for the head, and
    /// for nothing while no head is known.
    pub open spec fn resolved(&self, head: Option<BlockId>) -> Option<BlockId> {
        match self {
            BlockTag::Number(height) => Some(BlockId::Number(*height)),
            BlockTag::Hash(digest) => Some(BlockId::Hash(*digest)),
            _ => head,
        }
    }

    /// Whether the tag names a block by its place relative to the head.
    pub fn is_relative(&self) -> (b: bool)
        ensures
            b == self.relative(),
    {
        match self {
            BlockTag::Number(_) => false,
            BlockTag::Hash(_) => false,
            _ => true,
        }
    }

    /// Resolves the tag to one block. `head` is the head that the consensus
    /// layer has verified at the time of the call, if it has one. A relative
    /// tag without a head cannot be resolved and fails the call.
    pub fn resolve(&self, head: Option<BlockId>) -> (r: Result<BlockId, ClientError>)
        ensures
            match self.resolved(head) {
                Some(block) => r == Ok::<BlockId, ClientError>(block),
                None => r is Err && r->Err_0@ == (Failure {
                    kind: ErrorKind::VerificationFailed,
                    text: head_unavailable_text(),
                }),
            },
    {
        match self {
            BlockTag::Number(height) => Ok(BlockId::Number(*height)),
            BlockTag::Hash(digest) => Ok(BlockId::Hash(*digest)),
            _ => match head {
                Some(block) => Ok(block),
                None => Err(ClientError::head_unavailable()),
            },
        }
    }
}

/// What the proof endpoint reports for a value: the value it can prove and
/// whether the proof holds, or that the verified head needed for the check
/// is missing.
#[derive(Clone, Debug, PartialEq, Eq)]
pub enum ProofReport {
    HeadUnavailable,
    Answer { value: Vec<u8>, valid: bool },
}

/// Whether a report confirms a raw value: the proof holds, and it proves
/// that very value.
pub open spec fn proof_confirms(raw: Seq<u8>, report: ProofReport) -> bool {
    report matches ProofReport::Answer { value, valid } && valid && value@ == raw
}

/// The result of holding a raw value against a report.
pub open spec fn checked(raw: Seq<u8>, report: ProofReport) -> Result<Seq<u8>, Failure> {
    match report {
        ProofReport::HeadUnavailable => Err(
            Failure { kind: ErrorKind::VerificationFailed, text: head_unavailable_text() },
        ),
        ProofReport::Answer { value, valid } => if valid && value@ == raw {
            Ok(raw)
        } else {
            Err(Failure { kind: ErrorKind::VerificationFailed, text: proof_mismatch_text() })
        },
    }
}

/// The result of a whole query: of the raw fetch, and in a verifiable mode of
/// the check against the proof endpoint's report.
pub open spec fn outcome(
    mode: ExecutionMode,
    answer: Result<Seq<u8>, Seq<char>>,
    report: ProofReport,
) -> Result<Seq<u8>, Failure> {
    match answer {
        Err(detail) => Err(Failure { kind: ErrorKind::UpstreamRpcError, text: detail }),
        Ok(raw) => if mode.verifiable() {
            checked(raw, report)
        } else {
            Ok(raw)
        },
    }
}

/// In a verifiable mode, a raw value that the proof endpoint does not
/// confirm is never handed back: the query fails, and the failure says that
/// verification failed.
pub proof fn lemma_unconfirmed_value_is_refused(
    mode: ExecutionMode,
    raw: Seq<u8>,
    report: ProofReport,
)
    requires
        mode.verifiable(),
        !proof_confirms(raw, report),
    ensures
        outcome(mode, Ok(raw), report) is Err,
        outcome(mode, Ok(raw), report)->Err_0.kind == ErrorKind::VerificationFailed,
{
}

/// A query hands back a value only if the execution endpoint returned that
/// value and, in a verifiable mode, the proof endpoint confirmed it.
pub proof fn lemma_reply_is_confirmed(
    mode: ExecutionMode,
    answer: Result<Seq<u8>, Seq<char>>,
    report: ProofReport,
)
    ensures
        outcome(mode, answer, report) matches Ok(value) ==> answer == Ok::<
            Seq<u8>,
            Seq<char>,
        >(value) && (mode.verifiable() ==> proof_confirms(value, report)),
{
}

/// Whether two byte strings hold the same bytes.
fn same_bytes(a: &Vec<u8>, b: &Vec<u8>) -> (same: bool)
    ensures
        same == (a@ == b@),
{
    if a.len() != b.len() {
        return false;
    }
    let mut i: usize = 0;
    while i < a.len()
        invariant
            a@.len() == b@.len(),
            i <= a@.len(),
            forall|j: int| 0 <= j < i ==> a@[j] == b@[j],
        decreases a.len() - i,
    {
        if a[i] != b[i] {
            return false;
        }
        i += 1;
    }
    assert(a@ =~= b@);
    true
}

/// Holds a raw value against the proof endpoint's report. The value comes
/// back only if the report confirms it; a proof that does not hold, a proof
/// of another value and a missing head each fail the call.
pub fn check_against_proof(raw: Vec<u8>, report: &ProofReport) -> (r: Result<Vec<u8>, ClientError>)
    ensures
        match checked(raw@, *report) {
            Ok(_) => r == Ok::<Vec<u8>, ClientError>(raw),
            Err(failure) => r is Err && r->Err_0@ == failure,
        },
{
    match report {
        ProofReport::HeadUnavailable => Err(ClientError::head_unavailable()),
        ProofReport::Answer { value, valid } => {
            if *valid && same_bytes(value, &raw) {
                Ok(raw)
            } else {
                Err(ClientError::proof_mismatch())
            }
        },
    }
}

/// What a query does once the execution endpoint has answered.
#[derive(Debug)]
pub enum AfterRaw<'a> {
    /// Hand the value back: the mode asks for no proof.
    Reply(Vec<u8>),
    /// Ask the proof endpoint about the value before anything is handed back.
    Verify(Vec<u8>, &'a Url),
    /// Fail the call.
    Fail(ClientError),
}

/// Decides what follows the raw fetch. A failed fetch fails the call with
/// what the endpoint reported. A value is handed back at once in a full
/// mode; in a verifiable mode it goes to the check, together with the proof
/// endpoint to ask.
pub fn after_raw<'a>(mode: &'a ExecutionMode, answer: Result<Vec<u8>, String>) -> (step: AfterRaw<
    'a,
>)
    ensures
        match answer {
            Err(detail) => step matches AfterRaw::Fail(e) && e.kind == ErrorKind::UpstreamRpcError
                && e.message == detail,
            Ok(raw) => match mode.proof_endpoint() {
                None => step == AfterRaw::Reply(raw),
                Some(api) => step == AfterRaw::Verify(raw, &api),
            },
        },
{
    match answer {
        Err(detail) => AfterRaw::Fail(ClientError::upstream(detail)),
        Ok(raw) => match mode.get_verifiable_api() {
            None => AfterRaw::Reply(raw),
            Some(api) => AfterRaw::Verify(raw, api),
        },
    }
}

/// Decides what follows the proof fetch. A failed fetch fails the call with
/// what the proof endpoint reported; a report is held against the raw value.
pub fn after_proof(raw: Vec<u8>, answer: Result<ProofReport, String>) -> (r: Result<
    Vec<u8>,
    ClientError,
>)
    ensures
        match answer {
            Err(detail) => r is Err && r->Err_0.kind == ErrorKind::UpstreamRpcError
                && r->Err_0.message == detail,
            Ok(report) => match checked(raw@, report) {
                Ok(_) => r == Ok::<Vec<u8>, ClientError>(raw),
                Err(failure) => r is Err && r->Err_0@ == failure,
            },
        },
{
    match answer {
        Err(detail) => Err(ClientError::upstream(detail)),
        Ok(report) => check_against_proof(raw, &report),
    }
}

} // verus!
