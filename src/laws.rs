//! Laws that tie the library's functions together.

use vstd::prelude::*;
use crate::text::decoded;
use crate::slots::{copied_len, filled_buffer, set_credentials_code};
use crate::resolve::{Offer, OfferedCred, offer_for};
use crate::clone::{CloneError, answers, clone_allowed, clone_code, clone_message, engine_maps};
use crate::describe::{OperationView, document_text, offered_operations};

verus! {

/// A clone that the engine completes has result code 0, and settling it
/// leaves the error slot as it was.
pub proof fn lemma_completed_clone_succeeds(r: Result<(), CloneError>)
    requires
        engine_maps(Ok(()), r),
    ensures
        clone_code(r) == 0,
        r is Ok,
{
}

/// A clone with a null locator or destination has result code -1, and the
/// message that settling it records is not empty.
pub proof fn lemma_null_handle_fails(url: Option<Seq<u8>>, path: Option<Seq<u8>>, r: Result<(), CloneError>)
    requires
        url is None || path is None,
        clone_allowed(url, path, r),
    ensures
        clone_code(r) == -1,
        r matches Err(e) && clone_message(e).len() > 0,
{
    reveal_strlit("null pointer");
    assert(r matches Err(CloneError::NullArgument));
}

/// A clone that the engine fails (an authentication the remote rejected or
/// that nothing could answer, a destination that is not empty, a network
/// failure) has result code -4, and settling it records the engine's
/// description word for word; a non-empty description leaves a non-empty
/// error slot.
pub proof fn lemma_engine_failure(text: Seq<char>, r: Result<(), CloneError>)
    requires
        engine_maps(Err(text), r),
    ensures
        clone_code(r) == -4,
        r matches Err(e) && clone_message(e) == text,
        text.len() > 0 ==> clone_message(r->Err_0).len() > 0,
{
}

/// With no credentials stored and no identity suggested by the remote, an
/// authentication challenge gets no offer.
pub proof fn lemma_no_credentials_no_offer()
    ensures
        offer_for(None, None) == Offer::Unavailable,
{
}

/// Once credentials are stored from two handles, the next authentication
/// challenge is offered exactly that identity and secret, whatever identity
/// the remote suggests (`answer_with` then asks the engine for exactly that
/// credential).
pub proof fn lemma_stored_credentials_offered(user: Seq<u8>, pass: Seq<u8>, suggested: Option<Seq<char>>)
    requires
        set_credentials_code(Some(user), Some(pass)) == 0,
    ensures
        offer_for(Some((decoded(Some(user))->Ok_0, decoded(Some(pass))->Ok_0)), suggested)
            == Offer::UserPass(decoded(Some(user))->Ok_0, decoded(Some(pass))->Ok_0),
        forall|r: Result<OfferedCred, git2::Error>|
            #[trigger] answers(Some((decoded(Some(user))->Ok_0, decoded(Some(pass))->Ok_0)), suggested, r)
                && r is Ok ==> r->Ok_0.offer() == Offer::UserPass(
                decoded(Some(user))->Ok_0,
                decoded(Some(pass))->Ok_0,
            ),
{
}

/// Copying a message into a buffer shorter than it keeps the buffer's
/// length, fills all but the last byte with the message's first bytes and
/// ends in a NUL; the length reported is the message's, not the buffer's.
pub proof fn lemma_truncated_copy(msg: Seq<u8>, buf: Seq<u8>)
    requires
        0 < buf.len() <= msg.len(),
    ensures
        filled_buffer(msg, buf).len() == buf.len(),
        filled_buffer(msg, buf)[buf.len() - 1] == 0u8,
        filled_buffer(msg, buf).subrange(0, buf.len() - 1) == msg.subrange(0, buf.len() - 1),
        copied_len(msg.len(), buf.len()) < msg.len(),
{
    let f = filled_buffer(msg, buf);
    assert(f.subrange(0, buf.len() - 1) =~= msg.subrange(0, buf.len() - 1));
}

/// The self-description lists the clone operation, with its two parameters,
/// and its document is not empty.
pub proof fn lemma_description_lists_clone()
    ensures
        exists|i: int|
            0 <= i < offered_operations().len() && (#[trigger] offered_operations()[i]).0 == "clone"@
                && offered_operations()[i].2.len() == 2,
        document_text(offered_operations()).len() > 0,
{
    let op: OperationView = offered_operations()[0];
    assert(op.0 == "clone"@);
    reveal_strlit("[");
}

} // verus!
