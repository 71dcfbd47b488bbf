use vstd::prelude::*;

verus! {

/// Everything that can end a login attempt or a store operation, each
/// fatal for the current command and reported to the user; expected
/// non-error states (nothing cached, nothing to clear) are never
/// represented here.
pub enum AuthError {
    /// The credential file was unreadable or unwritable for a reason other
    /// than absence; the message is the operating system's.
    Storage(String),
    /// A network failure reaching an authorization endpoint; fatal for the
    /// attempt, never retried automatically.
    Transport(String),
    /// An authorization endpoint answered with something that is not the
    /// JSON this client consumes.
    MalformedResponse,
    /// The token endpoint reported a terminal error other than expiry; the
    /// server-supplied reason is carried verbatim.
    GrantDenied(String),
    /// The token endpoint reported that the device code expired.
    GrantExpired,
    /// Interactive prompting is not allowed and no pre-provisioned token
    /// was found.
    NonInteractiveRequired,
}

/// The mathematical shape of an [`AuthError`].
pub enum AuthErrorView {
    Storage(Seq<char>),
    Transport(Seq<char>),
    MalformedResponse,
    GrantDenied(Seq<char>),
    GrantExpired,
    NonInteractiveRequired,
}

impl View for AuthError {
    type V = AuthErrorView;

    open spec fn view(&self) -> AuthErrorView {
        match self {
            AuthError::Storage(m) => AuthErrorView::Storage(m@),
            AuthError::Transport(m) => AuthErrorView::Transport(m@),
            AuthError::MalformedResponse => AuthErrorView::MalformedResponse,
            AuthError::GrantDenied(m) => AuthErrorView::GrantDenied(m@),
            AuthError::GrantExpired => AuthErrorView::GrantExpired,
            AuthError::NonInteractiveRequired => AuthErrorView::NonInteractiveRequired,
        }
    }
}

} // verus!
