use vstd::prelude::*;
use crate::session::SessionTokenProvider;
use crate::store::CredentialStore;
use crate::store::store_after_save;

verus! {

/// How a login request is to be carried out, decided before any network or
/// user interaction happens.
#[derive(PartialEq, Eq, Structural, Clone, Copy, Debug)]
pub enum LoginDecision {
    /// The process already resolved a token: return it, do nothing else.
    AlreadyLoggedIn,
    /// A cached credential exists and re-authentication was not forced:
    /// adopt the cached token.
    AdoptCached,
    /// A cached credential exists but re-authentication was forced and
    /// prompting is allowed: ask the user before discarding it.
    ConfirmReauth,
    /// No cached credential, but the environment supplies an override
    /// token: adopt that.
    AdoptOverride,
    /// No usable token yet: run the device-authorization flow.
    RunDeviceFlow,
    /// No token source is available and prompting is not allowed: fail
    /// fast, making no network call.
    FailNonInteractive,
}

/// The login strategy, from what is known at the moment of the call:
/// whether this process already holds a token, whether a credential file
/// was found, whether the environment supplies an override token, whether
/// the caller forces re-authentication, and whether prompting is allowed.
///
/// A cached file outranks the environment override; the override is
/// consulted only when no file exists.
pub open spec fn spec_login_decision(
    session_set: bool,
    has_cached: bool,
    has_override: bool,
    force_reauth: bool,
    allow_interactive: bool,
) -> LoginDecision {
    if session_set {
        LoginDecision::AlreadyLoggedIn
    } else if has_cached {
        if !force_reauth {
            LoginDecision::AdoptCached
        } else if allow_interactive {
            LoginDecision::ConfirmReauth
        } else {
            LoginDecision::RunDeviceFlow
        }
    } else if has_override {
        LoginDecision::AdoptOverride
    } else if allow_interactive {
        LoginDecision::RunDeviceFlow
    } else {
        LoginDecision::FailNonInteractive
    }
}

/// Decide the login strategy. `cached` is what the credential store
/// loaded; `env_override` is the token the environment supplies, if any.
pub fn decide_login(
    provider: &SessionTokenProvider,
    cached: &Option<String>,
    env_override: &Option<String>,
    force_reauth: bool,
    allow_interactive: bool,
) -> (d: LoginDecision)
    ensures
        d == spec_login_decision(
            provider@ is Some,
            *cached is Some,
            *env_override is Some,
            force_reauth,
            allow_interactive,
        ),
{
    if provider.is_set() {
        LoginDecision::AlreadyLoggedIn
    } else if cached.is_some() {
        if !force_reauth {
            LoginDecision::AdoptCached
        } else if allow_interactive {
            LoginDecision::ConfirmReauth
        } else {
            LoginDecision::RunDeviceFlow
        }
    } else if env_override.is_some() {
        LoginDecision::AdoptOverride
    } else if allow_interactive {
        LoginDecision::RunDeviceFlow
    } else {
        LoginDecision::FailNonInteractive
    }
}

/// After [`LoginDecision::ConfirmReauth`] was prompted: a confirmed prompt
/// discards the cached token and runs the device flow; a declined one
/// adopts the cached token unchanged.
pub fn decide_after_reauth_prompt(confirmed: bool) -> (d: LoginDecision)
    ensures
        confirmed ==> d == LoginDecision::RunDeviceFlow,
        !confirmed ==> d == LoginDecision::AdoptCached,
{
    if confirmed {
        LoginDecision::RunDeviceFlow
    } else {
        LoginDecision::AdoptCached
    }
}

/// Publish a token that did not come from the device flow (a cached or an
/// environment-supplied one) as the process's current token.
pub fn adopt_token(provider: &mut SessionTokenProvider, token: String)
    requires
        old(provider)@ is None,
    ensures
        final(provider)@ == Some(token@),
{
    provider.set_once(token);
}

/// Finish a granted device flow: persist the fresh token through the
/// credential store first, then publish it as the process's current token,
/// so a crash right after acquisition still leaves a usable cached
/// credential.
pub fn complete_login(store: &mut CredentialStore, provider: &mut SessionTokenProvider, token: &str)
    requires
        old(provider)@ is None,
    ensures
        final(store)@ == store_after_save(old(store)@, token@),
        final(provider)@ == Some(token@),
{
    store.save(token);
    provider.set_once(token.to_owned());
}

/// How a logout request is to be carried out.
#[derive(PartialEq, Eq, Structural, Clone, Copy, Debug)]
pub enum LogoutDecision {
    /// A cached credential exists: confirm with the user, then clear it.
    ConfirmAndClear,
    /// No cached credential exists: report that state, not an error.
    NothingToClear,
}

/// Decide the logout strategy from whether a credential file was found.
pub fn decide_logout(has_cached: bool) -> (d: LogoutDecision)
    ensures
        has_cached ==> d == LogoutDecision::ConfirmAndClear,
        !has_cached ==> d == LogoutDecision::NothingToClear,
{
    if has_cached {
        LogoutDecision::ConfirmAndClear
    } else {
        LogoutDecision::NothingToClear
    }
}

/// Idempotent adoption: once this process holds a token, every further
/// login decision is to return immediately, whatever is cached, supplied
/// or forced — so network I/O happens at most once per process.
pub proof fn lemma_login_idempotent(
    has_cached: bool,
    has_override: bool,
    force_reauth: bool,
    allow_interactive: bool,
)
    ensures
        spec_login_decision(true, has_cached, has_override, force_reauth, allow_interactive)
            == LoginDecision::AlreadyLoggedIn,
{
}

/// Non-interactive login requires a pre-provisioned token: with no token
/// held, none cached and none supplied by the environment, a
/// non-interactive call fails fast — it never reaches the device flow, so
/// it makes no network call.
pub proof fn lemma_non_interactive_fails_fast(force_reauth: bool)
    ensures
        spec_login_decision(false, false, false, force_reauth, false)
            == LoginDecision::FailNonInteractive,
{
}

} // verus!
