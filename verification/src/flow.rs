//! The flow engine: one login attempt from the redirect to the token.
//!
//! The engine decides and never acts. Each step takes what happened outside
//! (the redirect was built, a callback came in, the exchange ended) and
//! answers with what to do next. The caller sends the redirect, keeps the
//! pending state in the user's session between the two requests, and runs
//! the exchange.

use vstd::prelude::*;

use crate::error::{fails_about, Error, ErrorKind};
use crate::form::field_texts;
use crate::state::CsrfState;
use crate::text::str_eq;
use crate::token::{TokenRequest, TokenResponse};
use crate::uri::AbsoluteUri;

verus! {

/// Where a login attempt stands.
#[derive(Debug, Clone, Copy, PartialEq, Eq, Structural)]
pub enum Phase {
    /// A state was generated; the redirect is being issued.
    Initiated,
    /// The redirect is out and the state is pending in the session.
    AwaitingCallback,
    /// The callback's state matched; the code is to be exchanged.
    Validated,
    /// The token was obtained. Final.
    Exchanged,
    /// The attempt failed. Final.
    Failed(ErrorKind),
}

impl Phase {
    /// Whether the attempt has ended.
    pub open spec fn is_final(self) -> bool {
        self is Exchanged || self is Failed
    }
}

/// The query of the request that the provider sends the user back with.
#[derive(Debug, Clone, PartialEq, Eq)]
pub struct Callback {
    /// The authorization code.
    pub code: Option<String>,
    /// The state that the provider echoes.
    pub state: Option<String>,
    /// The provider's error, where it denied the request.
    pub error: Option<String>,
    /// The provider's words on that error.
    pub error_description: Option<String>,
}

/// A callback as texts.
pub struct CallbackView {
    pub code: Option<Seq<char>>,
    pub state: Option<Seq<char>>,
    pub error: Option<Seq<char>>,
    pub error_description: Option<Seq<char>>,
}

/// The text of an optional string.
pub open spec fn text_of(value: Option<String>) -> Option<Seq<char>> {
    match value {
        Some(text) => Some(text@),
        None => None,
    }
}

impl View for Callback {
    type V = CallbackView;

    open spec fn view(&self) -> CallbackView {
        CallbackView {
            code: text_of(self.code),
            state: text_of(self.state),
            error: text_of(self.error),
            error_description: text_of(self.error_description),
        }
    }
}

/// The value of the first field called `name`, if there is one.
pub open spec fn first_value(fields: Seq<(Seq<char>, Seq<char>)>, name: Seq<char>) -> Option<
    Seq<char>,
>
    decreases fields.len(),
{
    if fields.len() == 0 {
        None
    } else if fields[0].0 == name {
        Some(fields[0].1)
    } else {
        first_value(fields.drop_first(), name)
    }
}

fn first_field(fields: &Vec<(String, String)>, name: &str) -> (found: Option<String>)
    ensures
        text_of(found) == first_value(field_texts(fields@), name@),
{
    let ghost texts = field_texts(fields@);
    let mut i: usize = 0;
    assert(texts.skip(0) =~= texts);
    while i < fields.len()
        invariant
            i <= fields@.len(),
            texts == field_texts(fields@),
            first_value(texts, name@) == first_value(texts.skip(i as int), name@),
        decreases fields@.len() - i,
    {
        let ghost rest = texts.skip(i as int);
        assert(rest.len() > 0 && rest[0] == texts[i as int]);
        assert(rest.drop_first() =~= texts.skip(i + 1));
        if str_eq(fields[i].0.as_str(), name) {
            return Some(fields[i].1.clone());
        }
        i += 1;
    }
    None
}

impl Callback {
    /// Reads a callback out of the decoded fields of a query: `code`,
    /// `state`, `error` and `error_description`, each the first field of its
    /// name. Other fields are passed over.
    pub fn from_fields(fields: &Vec<(String, String)>) -> (callback: Callback)
        ensures
            callback@ == (CallbackView {
                code: first_value(field_texts(fields@), "code"@),
                state: first_value(field_texts(fields@), "state"@),
                error: first_value(field_texts(fields@), "error"@),
                error_description: first_value(field_texts(fields@), "error_description"@),
            }),
    {
        Callback {
            code: first_field(fields, "code"),
            state: first_field(fields, "state"),
            error: first_field(fields, "error"),
            error_description: first_field(fields, "error_description"),
        }
    }
}

/// What a callback leads to.
pub enum Verdict {
    /// The code is to be exchanged.
    Exchange(Seq<char>),
    /// The attempt fails, with this kind and detail.
    Reject(ErrorKind, Seq<char>),
}

/// What the provider said when it denied the request: its error, then a
/// colon, a space and its description where it gave one.
pub open spec fn denial_text(error: Seq<char>, description: Option<Seq<char>>) -> Seq<char> {
    match description {
        Some(words) => error + seq![':', ' '] + words,
        None => error,
    }
}

/// The rule for callbacks. The state comes first: without a pending state,
/// without a state in the callback, or with two that differ, the verdict is
/// `StateMismatch`. Then a provider error gives `ProviderDenied`, a missing
/// code `MissingCode`, and a code is exchanged.
pub open spec fn judge(pending: Option<Seq<char>>, callback: CallbackView) -> Verdict {
    if pending is None || callback.state != pending {
        Verdict::Reject(ErrorKind::StateMismatch, Seq::empty())
    } else if callback.error is Some {
        Verdict::Reject(
            ErrorKind::ProviderDenied,
            denial_text(callback.error->0, callback.error_description),
        )
    } else if callback.code is None {
        Verdict::Reject(ErrorKind::MissingCode, Seq::empty())
    } else {
        Verdict::Exchange(callback.code->0)
    }
}

/// A login attempt as the rules see it: its phase, and the state that is
/// pending, if any.
pub struct AttemptView {
    pub phase: Phase,
    pub pending: Option<Seq<char>>,
}

impl AttemptView {
    /// The attempt after the redirect was built, or could not be.
    pub open spec fn after_redirect(self, built: bool, failure: ErrorKind) -> AttemptView {
        if self.phase is Initiated && built {
            AttemptView { phase: Phase::AwaitingCallback, pending: self.pending }
        } else if self.phase is Initiated {
            AttemptView { phase: Phase::Failed(failure), pending: None }
        } else {
            self.rejected()
        }
    }

    /// The result of a callback: that of [`judge`] while a callback is
    /// awaited, `StateMismatch` in every other phase.
    pub open spec fn verdict(self, callback: CallbackView) -> Verdict {
        if self.phase is AwaitingCallback {
            judge(self.pending, callback)
        } else {
            Verdict::Reject(ErrorKind::StateMismatch, Seq::empty())
        }
    }

    /// The attempt after a callback. Nothing is pending any more.
    pub open spec fn after_callback(self, callback: CallbackView) -> AttemptView {
        if self.phase.is_final() {
            AttemptView { phase: self.phase, pending: None }
        } else {
            match self.verdict(callback) {
                Verdict::Exchange(_) => AttemptView { phase: Phase::Validated, pending: None },
                Verdict::Reject(kind, _) => AttemptView { phase: Phase::Failed(kind), pending: None },
            }
        }
    }

    /// The attempt after the exchange ended, with a token or with a failure
    /// of the given kind.
    pub open spec fn after_exchange(self, obtained: bool, failure: ErrorKind) -> AttemptView {
        if self.phase is Validated && obtained {
            AttemptView { phase: Phase::Exchanged, pending: None }
        } else if self.phase is Validated {
            AttemptView { phase: Phase::Failed(failure), pending: None }
        } else {
            self.rejected()
        }
    }

    /// The attempt after a step that its phase does not allow: a final phase
    /// stays, any other fails with `StateMismatch`; nothing is pending.
    pub open spec fn rejected(self) -> AttemptView {
        if self.phase.is_final() {
            AttemptView { phase: self.phase, pending: None }
        } else {
            AttemptView { phase: Phase::Failed(ErrorKind::StateMismatch), pending: None }
        }
    }

    /// A state is pending only while the attempt has not got past the
    /// callback, and always before the redirect is out.
    pub open spec fn wf(self) -> bool {
        &&& self.pending is Some ==> (self.phase is Initiated || self.phase is AwaitingCallback)
        &&& self.phase is Initiated ==> self.pending is Some
    }
}

/// A callback whose state is not the pending one is rejected with
/// `StateMismatch`, whatever else it holds; so is every callback when nothing
/// is pending.
pub proof fn lemma_state_must_match(attempt: AttemptView, callback: CallbackView)
    requires
        attempt.pending is None || callback.state != attempt.pending,
    ensures
        attempt.verdict(callback) == Verdict::Reject(ErrorKind::StateMismatch, Seq::empty()),
        !attempt.phase.is_final() ==> attempt.after_callback(callback).phase == Phase::Failed(
            ErrorKind::StateMismatch,
        ),
{
}

/// A callback uses the pending state up, whatever the verdict.
pub proof fn lemma_callback_clears_state(attempt: AttemptView, callback: CallbackView)
    ensures
        attempt.after_callback(callback).pending is None,
        attempt.after_callback(callback).phase != Phase::AwaitingCallback,
        attempt.after_callback(callback).phase != Phase::Initiated,
{
}

/// A state serves once. After any callback, the attempt rejects every further
/// callback with `StateMismatch`; and so does the attempt that is taken up
/// again from what the first one left pending, which is nothing.
pub proof fn lemma_replay_is_rejected(
    attempt: AttemptView,
    first: CallbackView,
    second: CallbackView,
)
    ensures
        attempt.after_callback(first).verdict(second) == Verdict::Reject(
            ErrorKind::StateMismatch,
            Seq::empty(),
        ),
        (AttemptView {
            phase: Phase::AwaitingCallback,
            pending: attempt.after_callback(first).pending,
        }).verdict(second) == Verdict::Reject(ErrorKind::StateMismatch, Seq::empty()),
{
}

/// A code is exchanged only if the callback's state is the pending one, the
/// provider reported no error, and the code is the callback's.
pub proof fn lemma_exchange_needs_matching_state(attempt: AttemptView, callback: CallbackView)
    requires
        attempt.verdict(callback) is Exchange,
    ensures
        attempt.phase is AwaitingCallback,
        attempt.pending is Some,
        callback.state == attempt.pending,
        callback.error is None,
        callback.code == Some(attempt.verdict(callback)->Exchange_0),
        attempt.after_callback(callback).phase == Phase::Validated,
{
}

/// A provider error never leads to an exchange: with the right state the
/// verdict is `ProviderDenied`, code or no code.
pub proof fn lemma_denial_is_never_exchanged(attempt: AttemptView, callback: CallbackView)
    requires
        callback.error is Some,
    ensures
        !(attempt.verdict(callback) is Exchange),
        attempt.phase is AwaitingCallback && attempt.pending is Some && callback.state
            == attempt.pending ==> attempt.verdict(callback) == Verdict::Reject(
            ErrorKind::ProviderDenied,
            denial_text(callback.error->0, callback.error_description),
        ),
{
}

/// The final phases are final: no step leads out of them. And a token is
/// delivered only by an exchange that follows a validated callback.
pub proof fn lemma_final_phases_stay(
    attempt: AttemptView,
    callback: CallbackView,
    flag: bool,
    failure: ErrorKind,
)
    ensures
        attempt.phase.is_final() ==> attempt.after_redirect(flag, failure).phase == attempt.phase,
        attempt.phase.is_final() ==> attempt.after_callback(callback).phase == attempt.phase,
        attempt.phase.is_final() ==> attempt.after_exchange(flag, failure).phase == attempt.phase,
        !attempt.phase.is_final() && attempt.after_exchange(flag, failure).phase is Exchanged ==> (
        attempt.phase is Validated && flag),
        !(attempt.after_redirect(flag, failure).phase is Exchanged) || attempt.phase is Exchanged,
        !(attempt.after_callback(callback).phase is Exchanged) || attempt.phase is Exchanged,
{
}

/// Every step keeps an attempt well formed.
pub proof fn lemma_steps_keep_well_formed(
    attempt: AttemptView,
    callback: CallbackView,
    flag: bool,
    failure: ErrorKind,
)
    requires
        attempt.wf(),
    ensures
        attempt.after_redirect(flag, failure).wf(),
        attempt.after_callback(callback).wf(),
        attempt.after_exchange(flag, failure).wf(),
{
}

/// One login attempt.
#[derive(Debug, PartialEq, Eq)]
pub struct LoginAttempt {
    phase: Phase,
    pending: Option<CsrfState>,
}

impl View for LoginAttempt {
    type V = AttemptView;

    closed spec fn view(&self) -> AttemptView {
        AttemptView {
            phase: self.phase,
            pending: match self.pending {
                Some(state) => Some(state@),
                None => None,
            },
        }
    }
}

impl LoginAttempt {
    #[verifier::type_invariant]
    spec fn well_formed(&self) -> bool {
        self@.wf()
    }

    /// A new attempt, bound to `state`.
    pub fn initiate(state: CsrfState) -> (attempt: LoginAttempt)
        ensures
            attempt@ == (AttemptView { phase: Phase::Initiated, pending: Some(state@) }),
            attempt@.wf(),
    {
        LoginAttempt { phase: Phase::Initiated, pending: Some(state) }
    }

    /// The attempt that a callback belongs to, taken up again from what the
    /// session holds. Taking the state out of the session clears it there.
    pub fn resume(stored: Option<String>) -> (attempt: LoginAttempt)
        ensures
            attempt@ == (AttemptView { phase: Phase::AwaitingCallback, pending: text_of(stored) }),
            attempt@.wf(),
    {
        let pending = match stored {
            Some(token) => Some(CsrfState::from_stored(token)),
            None => None,
        };
        LoginAttempt { phase: Phase::AwaitingCallback, pending }
    }

    /// Where the attempt stands.
    pub fn phase(&self) -> (phase: Phase)
        ensures
            phase == self@.phase,
    {
        self.phase
    }

    /// The state that is pending: what goes into the authorization URI, and
    /// what the session has to hold until the callback.
    pub fn pending_state(&self) -> (state: Option<&str>)
        ensures
            self@.wf(),
            match state {
                Some(text) => self@.pending == Some(text@),
                None => self@.pending is None,
            },
    {
        proof {
            use_type_invariant(self);
        }
        match &self.pending {
            Some(state) => Some(state.as_str()),
            None => None,
        }
    }

    fn reject(&mut self) -> (error: Error)
        ensures
            final(self)@ == old(self)@.rejected(),
            error.kind() == ErrorKind::StateMismatch,
            error.spec_detail() == Seq::<char>::empty(),
    {
        let phase = match self.phase {
            Phase::Exchanged => Phase::Exchanged,
            Phase::Failed(kind) => Phase::Failed(kind),
            _ => Phase::Failed(ErrorKind::StateMismatch),
        };
        *self = LoginAttempt { phase, pending: None };
        Error::bare(ErrorKind::StateMismatch)
    }

    /// Takes note that the redirect was built, or could not be.
    ///
    /// Before the redirect is out, a built URI leads on to awaiting the
    /// callback and is handed back; a failure ends the attempt, discards the
    /// state and is handed back. In any other phase the step is rejected
    /// with `StateMismatch`.
    pub fn redirect_issued(&mut self, built: Result<AbsoluteUri, Error>) -> (issued: Result<
        AbsoluteUri,
        Error,
    >)
        ensures
            final(self)@ == old(self)@.after_redirect(
                built is Ok,
                match built {
                    Ok(_) => ErrorKind::StateMismatch,
                    Err(e) => e.kind(),
                },
            ),
            final(self)@.wf(),
            old(self)@.phase is Initiated ==> issued == built,
            !(old(self)@.phase is Initiated) ==> fails_about(
                issued,
                ErrorKind::StateMismatch,
                Seq::empty(),
            ),
    {
        proof {
            use_type_invariant(&*self);
        }
        match self.phase {
            Phase::Initiated => {
                match &built {
                    Ok(_) => {
                        self.phase = Phase::AwaitingCallback;
                    },
                    Err(error) => {
                        *self = LoginAttempt { phase: Phase::Failed(error.kind()), pending: None };
                    },
                }
                built
            },
            _ => Err(self.reject()),
        }
    }

    /// Judges a callback. Whatever the verdict, the pending state is used up.
    ///
    /// While a callback is awaited the rule is that of [`judge`]: a code to
    /// exchange, or `StateMismatch`, `ProviderDenied` or `MissingCode`. In
    /// any other phase the callback is rejected with `StateMismatch`.
    pub fn callback_received(&mut self, callback: &Callback) -> (decision: Result<
        TokenRequest,
        Error,
    >)
        ensures
            final(self)@ == old(self)@.after_callback(callback@),
            final(self)@.wf(),
            final(self)@.pending is None,
            match old(self)@.verdict(callback@) {
                Verdict::Exchange(code) => decision matches Ok(TokenRequest::AuthorizationCode(c))
                    && c@ == code,
                Verdict::Reject(kind, detail) => fails_about(decision, kind, detail),
            },
    {
        proof {
            use_type_invariant(&*self);
        }
        match self.phase {
            Phase::AwaitingCallback => {},
            _ => {
                return Err(self.reject());
            },
        }
        let matches = match (&self.pending, &callback.state) {
            (Some(expected), Some(received)) => expected.verify(received.as_str()),
            _ => false,
        };
        self.pending = None;
        if !matches {
            self.phase = Phase::Failed(ErrorKind::StateMismatch);
            return Err(Error::bare(ErrorKind::StateMismatch));
        }
        if let Some(error) = &callback.error {
            let mut detail = error.clone();
            if let Some(words) = &callback.error_description {
                proof {
                    reveal_strlit(": ");
                    assert(": "@ =~= seq![':', ' ']);
                }
                detail.append(": ");
                detail.append(words.as_str());
            }
            self.phase = Phase::Failed(ErrorKind::ProviderDenied);
            return Err(Error::new(ErrorKind::ProviderDenied, detail));
        }
        match &callback.code {
            Some(code) => {
                self.phase = Phase::Validated;
                Ok(TokenRequest::AuthorizationCode(code.clone()))
            },
            None => {
                self.phase = Phase::Failed(ErrorKind::MissingCode);
                Err(Error::bare(ErrorKind::MissingCode))
            },
        }
    }

    /// Takes note of how the exchange ended.
    ///
    /// After a validated callback, a token ends the attempt in `Exchanged`
    /// and is handed back; a failure ends it in `Failed` and is handed back.
    /// In any other phase the outcome is dropped and the step is rejected
    /// with `StateMismatch`: no token leaves an attempt that was not
    /// validated.
    pub fn exchange_finished<M>(&mut self, outcome: Result<TokenResponse<M>, Error>) -> (delivered:
        Result<TokenResponse<M>, Error>)
        ensures
            final(self)@ == old(self)@.after_exchange(
                outcome is Ok,
                match outcome {
                    Ok(_) => ErrorKind::StateMismatch,
                    Err(e) => e.kind(),
                },
            ),
            final(self)@.wf(),
            old(self)@.phase is Validated ==> delivered == outcome,
            !(old(self)@.phase is Validated) ==> fails_about(
                delivered,
                ErrorKind::StateMismatch,
                Seq::empty(),
            ),
    {
        proof {
            use_type_invariant(&*self);
        }
        match self.phase {
            Phase::Validated => {
                match &outcome {
                    Ok(_) => {
                        self.phase = Phase::Exchanged;
                    },
                    Err(error) => {
                        self.phase = Phase::Failed(error.kind());
                    },
                }
                outcome
            },
            _ => Err(self.reject()),
        }
    }
}

} // verus!
