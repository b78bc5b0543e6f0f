//! Cloning a repository: validate the two host handles, configure the
//! engine (with a credential callback only when credentials are stored),
//! run it, and map what happened to a result code and an error message.

use vstd::prelude::*;
use crate::text::{decode_text, decoded, handle_view};
use crate::slots::{ErrorSlot, CredentialSlot};
use crate::resolve::{
    CredentialOffer, CredentialSource, OfferedCred, Offer, nul_free, offer_for, resolve_offer, str_view,
};
use crate::engine::{
    new_builder, new_callbacks, install_credentials, new_fetch_options, set_remote_callbacks,
    set_fetch_options, run_clone, error_text, userpass_credential, agent_credential, engine_error,
};

verus! {

/// Why a clone failed.
pub enum CloneError {
    /// The locator or the destination handle was null.
    NullArgument,
    /// The locator is not valid UTF-8.
    BadLocator,
    /// The destination is not valid UTF-8.
    BadDestination,
    /// The engine reported a failure, described by the text.
    Transfer(String),
}

/// The result code of a clone: 0 on success, -1 to -4 by cause.
pub open spec fn clone_code(r: Result<(), CloneError>) -> int {
    match r {
        Ok(()) => 0,
        Err(CloneError::NullArgument) => -1,
        Err(CloneError::BadLocator) => -2,
        Err(CloneError::BadDestination) => -3,
        Err(CloneError::Transfer(_)) => -4,
    }
}

/// The message recorded for a failed clone.
pub open spec fn clone_message(e: CloneError) -> Seq<char> {
    match e {
        CloneError::NullArgument => "null pointer"@,
        CloneError::BadLocator => "bad url utf8"@,
        CloneError::BadDestination => "bad path utf8"@,
        CloneError::Transfer(m) => m@,
    }
}

/// The view of what the engine reported: success, or its failure text.
pub open spec fn engine_view(outcome: Result<(), String>) -> Result<(), Seq<char>> {
    match outcome {
        Ok(()) => Ok(()),
        Err(t) => Err(t@),
    }
}

/// How the engine's outcome becomes the clone's result: success stays
/// success, a failure becomes `Transfer` with the engine's text, word for word.
pub open spec fn engine_maps(outcome: Result<(), Seq<char>>, r: Result<(), CloneError>) -> bool {
    match outcome {
        Ok(()) => r is Ok,
        Err(t) => r matches Err(CloneError::Transfer(m)) && m@ == t,
    }
}

impl CloneError {
    /// The result code of this failure.
    pub fn code(&self) -> (r: i32)
        ensures
            r == clone_code(Err(*self)),
    {
        match self {
            CloneError::NullArgument => -1,
            CloneError::BadLocator => -2,
            CloneError::BadDestination => -3,
            CloneError::Transfer(_) => -4,
        }
    }

    /// The human-readable description of this failure.
    pub fn message(&self) -> (r: String)
        ensures
            r@ == clone_message(*self),
    {
        match self {
            CloneError::NullArgument => String::from_str("null pointer"),
            CloneError::BadLocator => String::from_str("bad url utf8"),
            CloneError::BadDestination => String::from_str("bad path utf8"),
            CloneError::Transfer(m) => m.clone(),
        }
    }
}

/// The failure for an engine error described by `text`, kept as it came.
pub fn transfer_failure(text: String) -> (r: CloneError)
    ensures
        r matches CloneError::Transfer(m) && m@ == text@,
{
    CloneError::Transfer(text)
}

/// Maps what the engine reported to the clone's result.
pub fn engine_outcome(outcome: Result<(), String>) -> (r: Result<(), CloneError>)
    ensures
        engine_maps(engine_view(outcome), r),
{
    match outcome {
        Ok(()) => Ok(()),
        Err(text) => Err(transfer_failure(text)),
    }
}

impl ErrorSlot {
    /// Settles a finished clone: records the failure's message, or leaves the
    /// slot as it was on success, and returns the result code.
    pub fn settle(&mut self, outcome: Result<(), CloneError>) -> (r: i32)
        ensures
            r == clone_code(outcome),
            match outcome {
                Ok(()) => final(self)@ == old(self)@,
                Err(e) => final(self)@ == Some(clone_message(e)),
            },
    {
        match outcome {
            Ok(()) => 0,
            Err(e) => {
                let code = e.code();
                self.record(e.message());
                code
            },
        }
    }
}

/// What a clone of `url` into `path` owes before the engine is involved:
/// `None` when both handles decode, else the result code of the failure.
pub open spec fn boundary_failure(url: Option<Seq<u8>>, path: Option<Seq<u8>>) -> Option<int> {
    if url is None || path is None {
        Some(-1)
    } else if decoded(url) is Err {
        Some(-2)
    } else if decoded(path) is Err {
        Some(-3)
    } else {
        None
    }
}

/// The outcomes a clone may have: a boundary failure is fixed by the handles;
/// past the boundary the result is what the engine reported, mapped by
/// `engine_maps`.
pub open spec fn clone_allowed(url: Option<Seq<u8>>, path: Option<Seq<u8>>, r: Result<(), CloneError>) -> bool {
    match boundary_failure(url, path) {
        Some(c) => r is Err && clone_code(r) == c,
        None => exists|o: Result<(), Seq<char>>| #[trigger] engine_maps(o, r),
    }
}

/// What an answer to a challenge may be, given the slot `stored` and the
/// identity the remote suggested: the credential for `offer_for`'s choice,
/// which the engine makes unless a text holds a NUL, or a failure when there
/// is nothing to offer.
pub open spec fn answers(
    stored: Option<(Seq<char>, Seq<char>)>,
    suggested: Option<Seq<char>>,
    r: Result<OfferedCred, git2::Error>,
) -> bool {
    &&& match offer_for(stored, suggested) {
        Offer::UserPass(u, p) => (r is Ok <==> nul_free(u) && nul_free(p)),
        Offer::Agent(n) => (r is Ok <==> nul_free(n)),
        Offer::Unavailable => r is Err,
    }
    &&& r matches Ok(c) ==> c.offer() == offer_for(stored, suggested)
}

/// Answers one authentication challenge from `slot`: the stored pair, else
/// the identity agent for the identity the remote suggested, else the
/// failure "no credentials available".
pub fn answer_with(slot: &CredentialSlot, suggested: Option<&str>) -> (r: Result<OfferedCred, git2::Error>)
    ensures
        answers(slot@, str_view(suggested), r),
{
    match resolve_offer(slot, suggested) {
        CredentialOffer::UserPass(u, p) => userpass_credential(u.as_str(), p.as_str()),
        CredentialOffer::Agent(n) => agent_credential(n.as_str()),
        CredentialOffer::Unavailable => Err(engine_error("no credentials available")),
    }
}

/// Answers one authentication challenge from the slot as it stands now,
/// read afresh from `source`: the answer is the one for some whole value of
/// the slot.
pub fn answer_challenge<S: CredentialSource>(source: &S, suggested: Option<&str>) -> (r: Result<OfferedCred, git2::Error>)
    ensures
        exists|stored: Option<(Seq<char>, Seq<char>)>| #[trigger] answers(stored, str_view(suggested), r),
{
    let slot = source.current();
    let r = answer_with(&slot, suggested);
    assert(answers(slot@, str_view(suggested), r));
    r
}

/// The engine's clone builder, with whether it answers authentication
/// challenges through the credential callback.
pub struct CloneSetup<'a> {
    builder: git2::build::RepoBuilder<'a>,
    callback: Ghost<bool>,
}

impl<'a> CloneSetup<'a> {
    /// Whether the credential callback is installed.
    pub closed spec fn answers_challenges(&self) -> bool {
        self.callback@
    }
}

/// Prepares the engine for a clone. The credential callback, which reads
/// `credentials` afresh at each challenge, is installed exactly when
/// `at_start` (the slot as read when the clone began) holds a pair;
/// otherwise the transfer is anonymous.
pub fn prepare_clone<'a, S: CredentialSource>(credentials: &'a S, at_start: &CredentialSlot) -> (r: CloneSetup<'a>)
    ensures
        r.answers_challenges() == at_start@ is Some,
{
    let mut builder = new_builder();
    if at_start.is_set() {
        let mut callbacks = new_callbacks();
        install_credentials(&mut callbacks, credentials);
        let mut options = new_fetch_options();
        set_remote_callbacks(&mut options, callbacks);
        set_fetch_options(&mut builder, options);
        CloneSetup { builder, callback: Ghost(true) }
    } else {
        CloneSetup { builder, callback: Ghost(false) }
    }
}

/// Clones the repository at `url` into the directory `path`. Null or badly
/// encoded handles fail before the engine is called; otherwise the engine
/// decides, and any failure it reports comes back as `Transfer`.
pub fn gitffi_clone<S: CredentialSource>(
    credentials: &S,
    url: Option<&[u8]>,
    path: Option<&[u8]>,
) -> (r: Result<(), CloneError>)
    ensures
        clone_allowed(handle_view(url), handle_view(path), r),
{
    if url.is_none() || path.is_none() {
        return Err(CloneError::NullArgument);
    }
    let url = match decode_text(url) {
        Ok(s) => s,
        Err(_) => return Err(CloneError::BadLocator),
    };
    let path = match decode_text(path) {
        Ok(s) => s,
        Err(_) => return Err(CloneError::BadDestination),
    };
    let at_start = credentials.current();
    let mut setup = prepare_clone(credentials, &at_start);
    let outcome = match run_clone(&mut setup.builder, url.as_str(), path.as_str()) {
        Ok(()) => Ok(()),
        Err(e) => Err(error_text(&e)),
    };
    let ghost reported = engine_view(outcome);
    let r = engine_outcome(outcome);
    assert(engine_maps(reported, r));
    r
}

} // verus!
