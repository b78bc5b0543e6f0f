//! Deciding which credentials to offer when the remote asks for them.

use vstd::prelude::*;
use crate::slots::CredentialSlot;

verus! {

/// What is offered to the remote at an authentication challenge.
pub enum CredentialOffer {
    /// Identity and secret from the credential slot.
    UserPass(String, String),
    /// The identity-agent mechanism, for the identity the remote suggested.
    Agent(String),
    /// Nothing can be offered.
    Unavailable,
}

/// The mathematical form of a `CredentialOffer`.
pub enum Offer {
    UserPass(Seq<char>, Seq<char>),
    Agent(Seq<char>),
    Unavailable,
}

impl View for CredentialOffer {
    type V = Offer;

    open spec fn view(&self) -> Offer {
        match self {
            CredentialOffer::UserPass(u, p) => Offer::UserPass(u@, p@),
            CredentialOffer::Agent(u) => Offer::Agent(u@),
            CredentialOffer::Unavailable => Offer::Unavailable,
        }
    }
}

/// The offer for a challenge, first match wins: the stored pair, else the
/// agent for an identity the remote suggested, else nothing.
pub open spec fn offer_for(stored: Option<(Seq<char>, Seq<char>)>, suggested: Option<Seq<char>>) -> Offer {
    match stored {
        Some((u, p)) => Offer::UserPass(u, p),
        None => match suggested {
            Some(n) => Offer::Agent(n),
            None => Offer::Unavailable,
        },
    }
}

/// The view of an optional string slice.
pub open spec fn str_view(s: Option<&str>) -> Option<Seq<char>> {
    match s {
        None => None,
        Some(t) => Some(t@),
    }
}

/// A credential made for the engine, with the offer it was made from.
pub struct OfferedCred {
    pub(crate) cred: git2::Cred,
    pub(crate) made_for: Ghost<Offer>,
}

impl OfferedCred {
    /// The offer this credential was made from.
    pub closed spec fn offer(&self) -> Offer {
        self.made_for@
    }
}

/// Whether `s` holds no NUL character, so that it can pass to the engine
/// as a C string.
pub open spec fn nul_free(s: Seq<char>) -> bool {
    forall|i: int| 0 <= i < s.len() ==> s[i] != '\0'
}

/// Picks the offer for a challenge from the slot as it stands and the
/// identity the remote suggested, if any.
pub fn resolve_offer(stored: &CredentialSlot, suggested: Option<&str>) -> (r: CredentialOffer)
    ensures
        r@ == offer_for(stored@, str_view(suggested)),
{
    match stored.pair() {
        Some((u, p)) => CredentialOffer::UserPass(u.clone(), p.clone()),
        None => match suggested {
            Some(n) => CredentialOffer::Agent(n.to_owned()),
            None => CredentialOffer::Unavailable,
        },
    }
}

/// Where the credential slot is read from. It is read afresh at the start of
/// a clone and at every authentication challenge during it, so a source
/// shared between threads hands back whichever whole value was stored last.
pub trait CredentialSource {
    /// The slot as it stands now, taken whole.
    fn current(&self) -> CredentialSlot;
}

impl CredentialSource for CredentialSlot {
    fn current(&self) -> CredentialSlot {
        self.snapshot()
    }
}

} // verus!
