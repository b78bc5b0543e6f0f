//! The calls into the version-control engine (git2) that a clone makes.
//! Each engine type is opaque here; each call has its own small wrapper.

use vstd::prelude::*;
use crate::resolve::{CredentialSource, Offer, OfferedCred, nul_free};
use crate::clone::answer_challenge;

verus! {

#[verifier::external_type_specification]
#[verifier::external_body]
pub struct ExRepoBuilder<'cb>(git2::build::RepoBuilder<'cb>);

#[verifier::external_type_specification]
#[verifier::external_body]
pub struct ExRemoteCallbacks<'a>(git2::RemoteCallbacks<'a>);

#[verifier::external_type_specification]
#[verifier::external_body]
pub struct ExFetchOptions<'cb>(git2::FetchOptions<'cb>);

#[verifier::external_type_specification]
#[verifier::external_body]
pub struct ExCred(git2::Cred);

#[verifier::external_type_specification]
#[verifier::external_body]
pub struct ExError(git2::Error);

/// Relies on git2::build::RepoBuilder::new: a builder with default options.
#[verifier::external_body]
pub(crate) fn new_builder<'cb>() -> git2::build::RepoBuilder<'cb> {
    git2::build::RepoBuilder::new()
}

/// Relies on git2::RemoteCallbacks::new: a set of callbacks with none installed.
#[verifier::external_body]
pub(crate) fn new_callbacks<'a>() -> git2::RemoteCallbacks<'a> {
    git2::RemoteCallbacks::new()
}

/// Relies on git2::RemoteCallbacks::credentials: installs the callback that
/// the engine calls at each authentication challenge; here it answers from
/// `source`, read afresh each time.
#[verifier::external_body]
pub(crate) fn install_credentials<'a, S: CredentialSource>(
    callbacks: &mut git2::RemoteCallbacks<'a>,
    source: &'a S,
) {
    callbacks.credentials(move |_url, suggested, _allowed| {
        answer_challenge(source, suggested).map(|c| c.cred)
    });
}

/// Relies on git2::FetchOptions::new: fetch options with their defaults.
#[verifier::external_body]
pub(crate) fn new_fetch_options<'cb>() -> git2::FetchOptions<'cb> {
    git2::FetchOptions::new()
}

/// Relies on git2::FetchOptions::remote_callbacks: the fetch uses `callbacks`.
#[verifier::external_body]
pub(crate) fn set_remote_callbacks<'cb>(
    options: &mut git2::FetchOptions<'cb>,
    callbacks: git2::RemoteCallbacks<'cb>,
) {
    options.remote_callbacks(callbacks);
}

/// Relies on git2::build::RepoBuilder::fetch_options: the clone fetches with
/// `options`.
#[verifier::external_body]
pub(crate) fn set_fetch_options<'cb>(
    builder: &mut git2::build::RepoBuilder<'cb>,
    options: git2::FetchOptions<'cb>,
) {
    builder.fetch_options(options);
}

/// Relies on git2::build::RepoBuilder::clone: clones `url` into the
/// directory `path` with the builder's options. The repository handle it
/// returns on success is dropped.
#[verifier::external_body]
pub(crate) fn run_clone(
    builder: &mut git2::build::RepoBuilder<'_>,
    url: &str,
    path: &str,
) -> Result<(), git2::Error> {
    builder.clone(url, std::path::Path::new(path)).map(|_| ())
}

/// Relies on the Display impl of git2::Error: the engine's message, with its
/// class and code where they are not the generic ones.
#[verifier::external_body]
pub(crate) fn error_text(error: &git2::Error) -> String {
    error.to_string()
}

/// Relies on git2::Cred::userpass_plaintext: a plain identity and secret
/// credential; it fails only when either text holds a NUL, which cannot
/// cross into the engine (allocation failure aside).
#[verifier::external_body]
pub(crate) fn userpass_credential(identity: &str, secret: &str) -> (r: Result<OfferedCred, git2::Error>)
    ensures
        r.is_ok() == (nul_free(identity@) && nul_free(secret@)),
        r matches Ok(c) ==> c.offer() == Offer::UserPass(identity@, secret@),
{
    git2::Cred::userpass_plaintext(identity, secret)
        .map(|cred| OfferedCred { cred, made_for: Ghost(Offer::UserPass(identity@, secret@)) })
}

/// Relies on git2::Cred::ssh_key_from_agent: a credential that asks the
/// local identity agent for `identity`'s key when the transfer uses it; it
/// fails only when the identity holds a NUL (allocation failure aside).
#[verifier::external_body]
pub(crate) fn agent_credential(identity: &str) -> (r: Result<OfferedCred, git2::Error>)
    ensures
        r.is_ok() == nul_free(identity@),
        r matches Ok(c) ==> c.offer() == Offer::Agent(identity@),
{
    git2::Cred::ssh_key_from_agent(identity)
        .map(|cred| OfferedCred { cred, made_for: Ghost(Offer::Agent(identity@)) })
}

/// Relies on git2::Error::from_str: an engine error carrying `message`.
#[verifier::external_body]
pub(crate) fn engine_error(message: &str) -> git2::Error {
    git2::Error::from_str(message)
}

} // verus!
