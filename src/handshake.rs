//! The login handshake. An identity check that succeeds ends it at once; a
//! refusal makes the user visit the login URL and paste a token, which is
//! installed and checked once more. Whoever drives it performs the checks and
//! the prompt, and stores the credentials when it reports them changed.

use vstd::prelude::*;

use crate::client::{trimmed, HeyError, PastaClient, UserInfo};

verus! {

/// Where the handshake stands.
#[derive(Clone, Copy, Debug, PartialEq, Eq, Structural)]
pub enum LoginPhase {
    /// The first identity check is under way.
    Checking,
    /// The user has been shown the login URL; a token is awaited.
    AwaitingToken,
    /// The identity check with the new token is under way.
    Confirming,
    /// The user is logged in.
    Finished,
    /// The handshake failed.
    Failed,
}

/// What the handshake is told.
#[derive(Debug)]
pub enum LoginInput {
    /// The outcome of an identity check.
    Authenticated(Result<UserInfo, HeyError>),
    /// The token that the user pasted.
    Token(String),
}

/// What the handshake asks of its driver.
#[derive(Debug)]
pub enum LoginAction {
    /// Show this login URL and ask for a token.
    PromptForToken(String),
    /// Check the identity again, with the token now installed.
    Authenticate,
    /// Done: the user is known; `updated` says that new credentials were
    /// installed and are to be stored.
    LoggedIn { user: UserInfo, updated: bool },
    /// Give up with this error.
    Abort(HeyError),
}

/// One step of the handshake.
pub open spec fn login_step(phase: LoginPhase, input: LoginInput) -> (LoginPhase, LoginAction) {
    match (phase, input) {
        (LoginPhase::Checking, LoginInput::Authenticated(Ok(user))) => (
            LoginPhase::Finished,
            LoginAction::LoggedIn { user, updated: false },
        ),
        (LoginPhase::Checking, LoginInput::Authenticated(Err(HeyError::NotLoggedIn(url)))) => (
            LoginPhase::AwaitingToken,
            LoginAction::PromptForToken(url),
        ),
        (LoginPhase::Checking, LoginInput::Authenticated(Err(e))) => (
            LoginPhase::Failed,
            LoginAction::Abort(e),
        ),
        (LoginPhase::AwaitingToken, LoginInput::Token(_)) => (
            LoginPhase::Confirming,
            LoginAction::Authenticate,
        ),
        (LoginPhase::Confirming, LoginInput::Authenticated(Ok(user))) => (
            LoginPhase::Finished,
            LoginAction::LoggedIn { user, updated: true },
        ),
        (LoginPhase::Confirming, LoginInput::Authenticated(Err(e))) => (
            LoginPhase::Failed,
            LoginAction::Abort(e),
        ),
        (LoginPhase::Finished, _) => (LoginPhase::Finished, LoginAction::Abort(HeyError::LoginError)),
        (_, _) => (LoginPhase::Failed, LoginAction::Abort(HeyError::LoginError)),
    }
}

/// The handshake's state.
pub struct LoginFlow {
    pub phase: LoginPhase,
}

impl LoginFlow {
    /// A handshake whose first identity check is under way.
    pub fn new() -> (flow: LoginFlow)
        ensures
            flow.phase is Checking,
    {
        LoginFlow { phase: LoginPhase::Checking }
    }

    /// Takes one input. A pasted token awaited by the handshake is installed
    /// in `client`, trimmed, for the client's current host; the client is left
    /// alone otherwise.
    pub fn step(&mut self, client: &mut PastaClient, input: LoginInput) -> (action: LoginAction)
        ensures
            (final(self).phase, action) == login_step(old(self).phase, input),
            final(client).client == old(client).client,
            final(client).config_path == old(client).config_path,
            match (old(self).phase, input) {
                (LoginPhase::AwaitingToken, LoginInput::Token(token)) => final(client).config matches Some(c)
                    && c.token@ == trimmed(token@) && c.host@ == old(client).host(),
                _ => final(client).config == old(client).config,
            },
    {
        let phase = self.phase;
        let (next, action) = match (phase, input) {
            (LoginPhase::Checking, LoginInput::Authenticated(Ok(user))) => (
                LoginPhase::Finished,
                LoginAction::LoggedIn { user, updated: false },
            ),
            (
                LoginPhase::Checking,
                LoginInput::Authenticated(Err(HeyError::NotLoggedIn(url))),
            ) => (LoginPhase::AwaitingToken, LoginAction::PromptForToken(url)),
            (LoginPhase::Checking, LoginInput::Authenticated(Err(e))) => (
                LoginPhase::Failed,
                LoginAction::Abort(e),
            ),
            (LoginPhase::AwaitingToken, LoginInput::Token(token)) => {
                client.install_token(token.as_str());
                (LoginPhase::Confirming, LoginAction::Authenticate)
            },
            (LoginPhase::Confirming, LoginInput::Authenticated(Ok(user))) => (
                LoginPhase::Finished,
                LoginAction::LoggedIn { user, updated: true },
            ),
            (LoginPhase::Confirming, LoginInput::Authenticated(Err(e))) => (
                LoginPhase::Failed,
                LoginAction::Abort(e),
            ),
            (LoginPhase::Finished, _) => (
                LoginPhase::Finished,
                LoginAction::Abort(HeyError::LoginError),
            ),
            (_, _) => (LoginPhase::Failed, LoginAction::Abort(HeyError::LoginError)),
        };
        self.phase = next;
        action
    }
}

/// The handshake's phase before input `i` of a run.
pub open spec fn login_phase_at(inputs: Seq<LoginInput>, i: nat) -> LoginPhase
    decreases i,
{
    if i == 0 {
        LoginPhase::Checking
    } else {
        let k = (i - 1) as nat;
        login_step(login_phase_at(inputs, k), inputs[k as int]).0
    }
}

/// What the handshake asks for on input `i` of a run.
pub open spec fn login_action_at(inputs: Seq<LoginInput>, i: nat) -> LoginAction {
    login_step(login_phase_at(inputs, i), inputs[i as int]).1
}

proof fn login_finished_stays(inputs: Seq<LoginInput>, i: nat, j: nat)
    requires
        i <= j <= inputs.len(),
        login_phase_at(inputs, i) is Finished,
    ensures
        login_phase_at(inputs, j) is Finished,
    decreases j - i,
{
    if i < j {
        login_finished_stays(inputs, i, (j - 1) as nat);
    }
}

/// With a valid token the first identity check returns the user, the
/// credentials stay as they are, and the handshake never shows a login URL.
pub proof fn valid_token_never_prompts(inputs: Seq<LoginInput>)
    requires
        inputs.len() > 0,
        inputs[0] matches LoginInput::Authenticated(Ok(_)),
    ensures
        inputs[0] matches LoginInput::Authenticated(Ok(user)) && login_action_at(inputs, 0)
            == (LoginAction::LoggedIn { user, updated: false }),
        forall|k: nat|
            k < inputs.len() ==> !(#[trigger] login_action_at(inputs, k) is PromptForToken),
{
    assert forall|k: nat| k < inputs.len() implies !(#[trigger] login_action_at(
        inputs,
        k,
    ) is PromptForToken) by {
        if k > 0 {
            login_finished_stays(inputs, 1, k);
        }
    }
}

/// A refused first identity check is answered by showing the user exactly the
/// login URL that the refusal carried.
pub proof fn refusal_prompts_with_its_url(inputs: Seq<LoginInput>)
    requires
        inputs.len() > 0,
        inputs[0] matches LoginInput::Authenticated(Err(HeyError::NotLoggedIn(_))),
    ensures
        inputs[0] matches LoginInput::Authenticated(Err(HeyError::NotLoggedIn(url)))
            && login_action_at(inputs, 0) == LoginAction::PromptForToken(url),
        login_phase_at(inputs, 1) is AwaitingToken,
{
}

} // verus!
