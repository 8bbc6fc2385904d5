//! How the outcome of sending one contract call is judged: which failures are
//! worth a retry, what a reverted call reports, and when the sender retries.

use vstd::prelude::*;
use vstd::utf8::{valid_utf8, decode_utf8, pop_first_scalar, decode_first_scalar, valid_first_scalar};

verus! {

/// Why a send failed: worth retrying, or not.
#[derive(Debug, PartialEq)]
pub enum SendError {
    RepeatableError(String),
    NonRepeatableError(String),
}

/// The kinds of failure that the provider reports while a sent call is pending.
#[derive(Debug, PartialEq, Eq, Clone, Copy)]
pub enum ProviderFailure {
    JsonRpcClientError,
    EnsError,
    EnsNotOwned,
    SerdeJson,
    HexError,
    HTTPError,
    CustomError,
    UnsupportedRPC,
    UnsupportedNodeClient,
    SignerUnavailable,
}

/// The kinds of failure that submitting a call reports. A revert carries
/// the data that the contract reverted with.
#[derive(Debug, PartialEq)]
pub enum SubmitFailure {
    Revert(Vec<u8>),
    DecodingError,
    AbiError,
    DetokenizationError,
    MiddlewareError,
    ProviderError,
    ConstructorError,
    ContractNotDeployed,
}

/// Everything that one send can end in: the call was not accepted, it was
/// accepted and then failed, or it was mined, with the block hash of its
/// receipt when there is a receipt. `message` is the failure's text.
#[derive(Debug, PartialEq)]
pub enum SendAttempt {
    Rejected { failure: SubmitFailure, message: String },
    Dropped { cause: ProviderFailure, message: String },
    Mined { receipt: Option<Option<Vec<u8>>> },
}

/// The bytes of `s` before its first zero byte (all of them when there is none).
pub open spec fn before_nul(s: Seq<u8>) -> Seq<u8>
    decreases s.len(),
{
    if s.len() == 0 {
        s
    } else if s[0] == 0 {
        Seq::<u8>::empty()
    } else {
        seq![s[0]] + before_nul(s.drop_first())
    }
}

/// Where the reason text of revert data starts.
pub open spec fn revert_reason_offset() -> int {
    67
}

/// The reason text of revert data: the bytes from offset 67 up to the first
/// zero byte, read as UTF-8; `None` where they are not UTF-8.
pub open spec fn revert_reason(data: Seq<u8>) -> Option<Seq<char>> {
    let bytes = before_nul(data.skip(revert_reason_offset()));
    if valid_utf8(bytes) {
        Some(decode_utf8(bytes))
    } else {
        None
    }
}

proof fn lemma_before_nul(s: Seq<u8>, k: int)
    requires
        0 <= k <= s.len(),
        forall|j: int| 0 <= j < k ==> s[j] != 0,
        k == s.len() || s[k] == 0,
    ensures
        before_nul(s) == s.take(k),
    decreases k,
{
    if k == 0 {
        if s.len() == 0 {
            assert(s.take(0) =~= s);
        } else {
            assert(s.take(0) =~= Seq::<u8>::empty());
        }
    } else {
        lemma_before_nul(s.drop_first(), k - 1);
        assert(s.take(k) =~= seq![s[0]] + s.drop_first().take(k - 1));
    }
}

/// `String::from_utf8(bytes).ok()`; its contract is vstd's definition of
/// UTF-8 and of decoding, which std's documentation describes.
#[verifier::external_body]
fn utf8_string(bytes: Vec<u8>) -> (r: Option<String>)
    ensures
        match r {
            Some(s) => valid_utf8(bytes@) && s@ == decode_utf8(bytes@),
            None => !valid_utf8(bytes@),
        },
{
    String::from_utf8(bytes).ok()
}

/// The bytes of revert data from offset 67 up to the first zero byte.
pub fn revert_reason_bytes(bytes: &[u8]) -> (r: Vec<u8>)
    requires
        bytes.len() >= 67,
    ensures
        r@ == before_nul(bytes@.skip(revert_reason_offset())),
{
    let ghost tail = bytes@.skip(67);
    let mut reason: Vec<u8> = Vec::new();
    let mut i: usize = 67;
    while i < bytes.len() && bytes[i] != 0
        invariant
            67 <= i <= bytes.len(),
            tail == bytes@.skip(67),
            reason@ == tail.take(i - 67),
            forall|j: int| 0 <= j < i - 67 ==> tail[j] != 0,
        decreases bytes.len() - i,
    {
        reason.push(bytes[i]);
        i = i + 1;
        assert(reason@ =~= tail.take(i - 67));
    }
    proof {
        lemma_before_nul(tail, i - 67);
    }
    reason
}

/// Whether the reason bytes of revert data are UTF-8.
pub fn revert_reason_is_text(bytes: &[u8]) -> (r: bool)
    requires
        bytes.len() >= 67,
    ensures
        r == revert_reason(bytes@) is Some,
{
    utf8_string(revert_reason_bytes(bytes)).is_some()
}

/// The reason text of revert data. Data shorter than 67 bytes, or whose
/// reason bytes are not UTF-8, is outside the precondition: the relay stops
/// on such data.
pub fn get_revert_message(bytes: &[u8]) -> (r: String)
    requires
        bytes.len() >= 67,
        revert_reason(bytes@) is Some,
    ensures
        revert_reason(bytes@) == Some(r@),
{
    utf8_string(revert_reason_bytes(bytes)).unwrap()
}

/// The failure of a pending call, judged: only a failure of the JSON-RPC
/// client is worth a retry.
pub open spec fn pending_verdict(failure: ProviderFailure, message: Seq<char>) -> (bool, Seq<char>) {
    (failure == ProviderFailure::JsonRpcClientError, message)
}

/// The view of a judgement: whether it is worth a retry, and its text.
pub open spec fn verdict_of(e: SendError) -> (bool, Seq<char>) {
    match e {
        SendError::RepeatableError(m) => (true, m@),
        SendError::NonRepeatableError(m) => (false, m@),
    }
}

/// Judges the failure of a call that was sent and then failed.
pub fn pending_failure(failure: ProviderFailure, message: String) -> (r: SendError)
    ensures
        verdict_of(r) == pending_verdict(failure, message@),
{
    match failure {
        ProviderFailure::JsonRpcClientError => SendError::RepeatableError(message),
        _ => SendError::NonRepeatableError(message),
    }
}

/// The judgement of a call that was not accepted: a failure in the
/// middleware is worth a retry, a revert reports its reason text, anything
/// else is final. `None` where revert data has no readable reason.
pub open spec fn rejected_verdict(failure: SubmitFailure, message: Seq<char>) -> Option<(bool, Seq<char>)> {
    match failure {
        SubmitFailure::MiddlewareError => Some((true, message)),
        SubmitFailure::Revert(data) => if data.len() >= 67 {
            match revert_reason(data@) {
                Some(reason) => Some((false, reason)),
                None => None,
            }
        } else {
            None
        },
        _ => Some((false, message)),
    }
}

/// Judges the failure of a call that was not accepted.
pub fn rejected_failure(failure: SubmitFailure, message: String) -> (r: Option<SendError>)
    ensures
        match r {
            Some(e) => rejected_verdict(failure, message@) == Some(verdict_of(e)),
            None => rejected_verdict(failure, message@) is None,
        },
{
    match failure {
        SubmitFailure::MiddlewareError => Some(SendError::RepeatableError(message)),
        SubmitFailure::Revert(data) => {
            if data.len() < 67 || !revert_reason_is_text(data.as_slice()) {
                return None;
            }
            Some(SendError::NonRepeatableError(get_revert_message(data.as_slice())))
        },
        _ => Some(SendError::NonRepeatableError(message)),
    }
}

/// The outcome of a mined call: the block hash of its receipt, or why there is none.
pub open spec fn mined_verdict(receipt: Option<Option<Vec<u8>>>) -> Result<Seq<u8>, (bool, Seq<char>)> {
    match receipt {
        Some(Some(hash)) => Ok(hash@),
        Some(None) => Err((false, "Receipt without hash"@)),
        None => Err((false, "No Receipt"@)),
    }
}

/// Judges a mined call by its receipt.
pub fn mined_outcome(receipt: Option<Option<Vec<u8>>>) -> (r: Result<Vec<u8>, SendError>)
    ensures
        match r {
            Ok(hash) => mined_verdict(receipt) == Ok::<Seq<u8>, (bool, Seq<char>)>(hash@),
            Err(e) => mined_verdict(receipt) == Err::<Seq<u8>, (bool, Seq<char>)>(verdict_of(e)),
        },
{
    match receipt {
        Some(Some(hash)) => Ok(hash),
        Some(None) => Err(SendError::NonRepeatableError(String::from_str("Receipt without hash"))),
        None => Err(SendError::NonRepeatableError(String::from_str("No Receipt"))),
    }
}

/// The outcome of one send: the block hash, or the judged failure; `None`
/// where revert data has no readable reason (where the sender stops).
pub fn execute_send(attempt: SendAttempt) -> (r: Option<Result<Vec<u8>, SendError>>)
    ensures
        match (attempt, r) {
            (SendAttempt::Rejected { failure, message }, Some(Err(e))) => rejected_verdict(
                failure,
                message@,
            ) == Some(verdict_of(e)),
            (SendAttempt::Rejected { failure, message }, None) => rejected_verdict(
                failure,
                message@,
            ) is None,
            (SendAttempt::Dropped { cause, message }, Some(Err(e))) => verdict_of(e)
                == pending_verdict(cause, message@),
            (SendAttempt::Mined { receipt }, Some(Ok(hash))) => mined_verdict(receipt) == Ok::<
                Seq<u8>,
                (bool, Seq<char>),
            >(hash@),
            (SendAttempt::Mined { receipt }, Some(Err(e))) => mined_verdict(receipt) == Err::<
                Seq<u8>,
                (bool, Seq<char>),
            >(verdict_of(e)),
            _ => false,
        },
{
    match attempt {
        SendAttempt::Rejected { failure, message } => match rejected_failure(failure, message) {
            Some(e) => Some(Err(e)),
            None => None,
        },
        SendAttempt::Dropped { cause, message } => Some(Err(pending_failure(cause, message))),
        SendAttempt::Mined { receipt } => Some(mined_outcome(receipt)),
    }
}

/// Whether the sender tries the same call again after `outcome`: exactly
/// when it failed in a way worth a retry.
pub fn should_retry(outcome: &Result<Vec<u8>, SendError>) -> (r: bool)
    ensures
        r == (outcome matches Err(SendError::RepeatableError(_))),
{
    match outcome {
        Err(SendError::RepeatableError(_)) => true,
        _ => false,
    }
}


/// No byte is zero.
pub open spec fn nul_free(s: Seq<u8>) -> bool {
    forall|i: int| 0 <= i < s.len() ==> s[i] != 0
}

proof fn lemma_before_nul_is_nul_free(s: Seq<u8>)
    ensures
        nul_free(before_nul(s)),
    decreases s.len(),
{
    if s.len() > 0 && s[0] != 0 {
        lemma_before_nul_is_nul_free(s.drop_first());
        let r = before_nul(s.drop_first());
        assert forall|i: int| 0 <= i < before_nul(s).len() implies before_nul(s)[i] != 0 by {
            if i > 0 {
                assert(before_nul(s)[i] == r[i - 1]);
            }
        }
    }
}

proof fn lemma_decode_nul_free(bytes: Seq<u8>)
    requires
        valid_utf8(bytes),
        nul_free(bytes),
    ensures
        forall|i: int| 0 <= i < decode_utf8(bytes).len() ==> decode_utf8(bytes)[i] != '\0',
    decreases bytes.len(),
{
    if bytes.len() > 0 {
        let rest = pop_first_scalar(bytes);
        assert(valid_first_scalar(bytes));
        let b0 = bytes[0];
        assert(b0 != 0);
        let c = decode_first_scalar(bytes);
        if 0x00 <= b0 && b0 <= 0x7f {
            assert(b0 != 0 && b0 <= 0x7f ==> (b0 & 0x7f) != 0u8 && (b0 & 0x7f) <= 0x7fu8) by (bit_vector);
        } else if 0xc0 <= b0 && b0 <= 0xdf {
            let b1 = bytes[1];
            assert((((b0 & 0x1f) as u32) << 6u32 | ((b1 & 0x3f) as u32)) <= 0x7ffu32) by (bit_vector);
        } else if 0xe0 <= b0 && b0 <= 0xef {
            let b1 = bytes[1];
            let b2 = bytes[2];
            assert((((b0 & 0x0f) as u32) << 12u32 | ((b1 & 0x3f) as u32) << 6u32 | ((b2 & 0x3f) as u32)) <= 0xffffu32) by (bit_vector);
        }
        assert(c != 0);
        assert(c <= 0x10ffff);
        assert(!(0xd800 <= c && c <= 0xdfff));
        assert((c as char) as u32 == c);
        assert((c as char) != '\0');
        assert(rest.len() < bytes.len());
        assert(nul_free(rest)) by {
            assert forall|i: int| 0 <= i < rest.len() implies rest[i] != 0 by {
                assert(rest[i] == bytes[i + (bytes.len() - rest.len())]);
            }
        }
        lemma_decode_nul_free(rest);
        let d = decode_utf8(bytes);
        assert(d == seq![decode_first_scalar(bytes) as char] + decode_utf8(rest));
        assert forall|i: int| 0 <= i < d.len() implies d[i] != '\0' by {
            if i > 0 {
                assert(d[i] == decode_utf8(rest)[i - 1]);
            }
        }
    }
}

/// The reason text of revert data never holds a NUL character: it ends
/// where the data has its first zero byte.
pub proof fn lemma_revert_reason_has_no_nul(data: Seq<u8>)
    ensures
        revert_reason(data) matches Some(reason) ==> forall|i: int|
            0 <= i < reason.len() ==> reason[i] != '\0',
{
    let bytes = before_nul(data.skip(revert_reason_offset()));
    lemma_before_nul_is_nul_free(data.skip(revert_reason_offset()));
    if valid_utf8(bytes) {
        lemma_decode_nul_free(bytes);
    }
}

} // verus!
