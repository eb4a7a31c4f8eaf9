//! The state machine behind the window: the prompt, what is shown of the
//! request in flight, and the one handle that is waited for.

use crate::model::{option_view, result_view};
use crate::openai::completions::{Response, ResponseView};
use crate::openai::error::ErrorResponseView;
use crate::request::{
    decoding, failure, failure_message, http_request, quoted, request_for, resolution, Request,
    FAILURE_PREFIX, NO_MATCH,
};
use crate::json::parsed;
use vstd::prelude::*;
use vstd::string::*;

verus! {

/// Current UI state.
#[derive(Debug, Clone, PartialEq, Eq)]
pub enum UIState {
    Idle,
    Busy,
    Error(String),
}

/// The mathematical value of a [`UIState`].
pub enum UIStateView {
    Idle,
    Busy,
    Error(Seq<char>),
}

impl View for UIState {
    type V = UIStateView;

    open spec fn view(&self) -> UIStateView {
        match self {
            UIState::Idle => UIStateView::Idle,
            UIState::Busy => UIStateView::Busy,
            UIState::Error(message) => UIStateView::Error(message@),
        }
    }
}

/// What names one request among those that an application has issued.
#[derive(Debug, Clone, Copy, PartialEq, Eq, Structural)]
pub struct Handle {
    pub id: u64,
}

/// What polling a handle gives.
#[derive(Debug, PartialEq, Eq)]
pub enum Poll {
    NotReady,
    Resolved(Result<Response, String>),
}

/// The mathematical value of a [`Poll`].
pub enum PollView {
    NotReady,
    Resolved(Result<ResponseView, Seq<char>>),
}

impl View for Poll {
    type V = PollView;

    open spec fn view(&self) -> PollView {
        match self {
            Poll::NotReady => PollView::NotReady,
            Poll::Resolved(result) => PollView::Resolved(result_view(*result)),
        }
    }
}

/// A range of the prompt, counted in characters.
#[derive(Debug, Clone, Copy, PartialEq, Eq)]
pub struct Selection {
    pub start: usize,
    pub length: usize,
}

impl Poll {
    /// Whether this is a completion without a single choice, which
    /// [`OpenAIApp::update`] does not take from the handle it waits for.
    pub fn lacks_choice(&self) -> (r: bool)
        ensures
            r == lacks_choice(self@),
    {
        match self {
            Poll::Resolved(Ok(Response::Success(completion))) => completion.choices.len() == 0,
            _ => false,
        }
    }
}

impl View for Selection {
    type V = (nat, nat);

    open spec fn view(&self) -> (nat, nat) {
        (self.start as nat, self.length as nat)
    }
}

/// What a submission hands to the transport: the handle of the new request,
/// and the request to send, or the failure that the handle resolves to at
/// once.
#[derive(Debug, PartialEq, Eq)]
pub struct Submission {
    pub handle: Handle,
    pub request: Result<Request, String>,
}

/// The application: the prompt, the state to show, the handle that is
/// waited for, and the credential.
#[derive(Debug)]
pub struct OpenAIApp {
    text: String,
    ui_state: UIState,
    pending: Option<Handle>,
    issued: u64,
    api_token: String,
}

/// The mathematical value of an [`OpenAIApp`].
pub struct AppView {
    pub text: Seq<char>,
    pub ui_state: UIStateView,
    pub pending: Option<Handle>,
    /// The identifier of the handle that was issued last.
    pub issued: u64,
    pub api_token: Seq<char>,
}

/// The identifier that is issued after `id`.
pub open spec fn next_id(id: u64) -> u64 {
    if id == u64::MAX {
        0
    } else {
        (id + 1) as u64
    }
}

impl AppView {
    /// A request is waited for exactly while the state is busy, and it is
    /// the one that was issued last.
    pub open spec fn well_formed(self) -> bool {
        &&& self.pending is Some <==> self.ui_state is Busy
        &&& self.pending matches Some(handle) ==> handle.id == self.issued
    }

    /// The application as it starts.
    pub open spec fn initial(api_token: Seq<char>) -> AppView {
        AppView {
            text: Seq::empty(),
            ui_state: UIStateView::Idle,
            pending: None,
            issued: 0,
            api_token,
        }
    }

    /// The application after it has seen what polling `handle` gave, and the
    /// range to select, as a start and a length. A handle that is not
    /// waited for changes nothing. Of the others, one that is not ready
    /// keeps the state busy; a failure is shown as it is and a rejection by
    /// its type, and both end the wait; a completion ends the wait with its
    /// first choice appended to the prompt and selected.
    pub open spec fn observe(self, handle: Handle, poll: PollView) -> (AppView, Option<(nat, nat)>) {
        if self.pending != Some(handle) {
            (self, None)
        } else {
            match poll {
                PollView::NotReady => (AppView { ui_state: UIStateView::Busy, ..self }, None),
                PollView::Resolved(Err(message)) => (
                    AppView { ui_state: UIStateView::Error(message), pending: None, ..self },
                    None,
                ),
                PollView::Resolved(Ok(ResponseView::Error(rejection))) => (
                    AppView {
                        ui_state: UIStateView::Error(failure(rejection.error.kind)),
                        pending: None,
                        ..self
                    },
                    None,
                ),
                PollView::Resolved(Ok(ResponseView::Success(completion))) => (
                    AppView {
                        text: self.text + completion.choices[0].text,
                        ui_state: UIStateView::Idle,
                        pending: None,
                        ..self
                    },
                    Some((self.text.len(), completion.choices[0].text.len())),
                ),
            }
        }
    }

    /// The application after a submission: it is busy and waits for a new
    /// handle, whatever it waited for before.
    pub open spec fn submit(self) -> AppView {
        AppView {
            ui_state: UIStateView::Busy,
            pending: Some(Handle { id: next_id(self.issued) }),
            issued: next_id(self.issued),
            ..self
        }
    }

    /// The application after the user has edited the prompt.
    pub open spec fn edit(self, text: Seq<char>) -> AppView {
        AppView { text, ..self }
    }
}

impl AppView {
    /// The application starts well formed, and every step keeps it so.
    pub proof fn steps_keep_well_formed(self, handle: Handle, poll: PollView, text: Seq<char>)
        requires
            self.well_formed(),
        ensures
            AppView::initial(self.api_token).well_formed(),
            self.observe(handle, poll).0.well_formed(),
            self.submit().well_formed(),
            self.edit(text).well_formed(),
    {
    }

    /// When the handle that is waited for resolves to a completion, the
    /// text of its first choice is appended to the prompt as it stands
    /// then, and the selection starts where the prompt ended and is as long
    /// as the appended text, both counted in characters.
    pub proof fn completion_is_appended_and_selected(
        self,
        handle: Handle,
        completion: crate::openai::completions::CompletionsResponseView,
    )
        requires
            self.pending == Some(handle),
            completion.choices.len() > 0,
        ensures
            ({
                let appended = completion.choices[0].text;
                let (after, selection) = self.observe(
                    handle,
                    PollView::Resolved(Ok(ResponseView::Success(completion))),
                );
                &&& after.text == self.text + appended
                &&& selection == Some((self.text.len(), appended.len()))
                &&& after.ui_state == UIStateView::Idle
                &&& after.pending is None
            }),
    {
    }

    /// A body that does not parse, or whose document describes neither a
    /// rejection nor a completion, resolves to a failure whose message
    /// starts with the failure prefix; the application then shows that
    /// message, waits no longer and leaves the prompt as it is.
    pub proof fn undecodable_body_is_reported(self, handle: Handle, bytes: Seq<u8>)
        requires
            self.pending == Some(handle),
            decoding(parsed(bytes)) is Err,
        ensures
            ({
                let reason = match parsed(bytes) {
                    Ok(_) => NO_MATCH@,
                    Err(message) => message,
                };
                let (after, selection) = self.observe(
                    handle,
                    PollView::Resolved(resolution(Ok(bytes))),
                );
                &&& resolution(Ok(bytes)) == Err::<ResponseView, Seq<char>>(
                    FAILURE_PREFIX@ + reason,
                )
                &&& after == AppView {
                    ui_state: UIStateView::Error(FAILURE_PREFIX@ + reason),
                    pending: None,
                    ..self
                }
                &&& after.text == self.text
                &&& selection is None
            }),
    {
    }

    /// A rejection by the service is shown as the failure prefix and the
    /// type of the error, whatever else the payload holds; the prompt stays
    /// as it is.
    pub proof fn rejection_is_reported_by_type(self, handle: Handle, rejection: ErrorResponseView)
        requires
            self.pending == Some(handle),
        ensures
            ({
                let (after, selection) = self.observe(
                    handle,
                    PollView::Resolved(Ok(ResponseView::Error(rejection))),
                );
                &&& after.ui_state == UIStateView::Error(FAILURE_PREFIX@ + rejection.error.kind)
                &&& rejection.error.kind == "invalid_request_error"@ ==> after.ui_state
                    == UIStateView::Error("ERROR: invalid_request_error"@)
                &&& after.pending is None
                &&& after.text == self.text
                &&& selection is None
            }),
    {
        reveal_strlit("ERROR: ");
        reveal_strlit("invalid_request_error");
        reveal_strlit("ERROR: invalid_request_error");
        if rejection.error.kind == "invalid_request_error"@ {
            assert(FAILURE_PREFIX@ + rejection.error.kind =~= "ERROR: invalid_request_error"@);
        }
    }

    /// A submission while a handle is waited for leaves the prompt as it
    /// is and waits for another handle; whatever the earlier handle gives
    /// from then on changes neither the prompt nor anything else.
    pub proof fn superseded_handle_is_ignored(self, poll: PollView)
        requires
            self.well_formed(),
            self.pending is Some,
        ensures
            self.submit().text == self.text,
            self.submit().pending is Some,
            self.submit().pending != self.pending,
            self.submit().observe(self.pending->0, poll) == (self.submit(), None::<(nat, nat)>),
    {
    }

    /// What a handle gives is taken in at most once: after it has
    /// resolved, and also when it never was waited for, the same handle
    /// changes nothing.
    pub proof fn resolved_handle_is_spent(
        self,
        handle: Handle,
        result: Result<ResponseView, Seq<char>>,
        later: PollView,
    )
        requires
            self.well_formed(),
        ensures
            ({
                let after = self.observe(handle, PollView::Resolved(result)).0;
                after.observe(handle, later) == (after, None::<(nat, nat)>)
            }),
            self.pending != Some(handle) ==> self.observe(handle, later) == (
                self,
                None::<(nat, nat)>,
            ),
    {
    }

    /// Polling a handle that is not ready changes nothing but the state,
    /// which is busy, and does so the same however often it is done; in a
    /// well-formed application it changes nothing at all.
    pub proof fn not_ready_is_idempotent(self, handle: Handle)
        ensures
            ({
                let (once, selection) = self.observe(handle, PollView::NotReady);
                &&& selection is None
                &&& once.text == self.text
                &&& once.pending == self.pending
                &&& once.observe(handle, PollView::NotReady) == (once, None::<(nat, nat)>)
                &&& self.pending == Some(handle) ==> once.ui_state == UIStateView::Busy
                &&& self.well_formed() ==> once == self
            }),
    {
    }
}

/// Whether a poll holds a completion without a single choice.
pub open spec fn lacks_choice(poll: PollView) -> bool {
    poll matches PollView::Resolved(Ok(ResponseView::Success(completion)))
        && completion.choices.len() == 0
}

impl View for OpenAIApp {
    type V = AppView;

    closed spec fn view(&self) -> AppView {
        AppView {
            text: self.text@,
            ui_state: self.ui_state@,
            pending: self.pending,
            issued: self.issued,
            api_token: self.api_token@,
        }
    }
}

impl OpenAIApp {
    /// An application with an empty prompt that waits for nothing.
    pub fn new(api_token: String) -> (app: OpenAIApp)
        ensures
            app@ == AppView::initial(api_token@),
            app@.well_formed(),
    {
        OpenAIApp {
            text: String::new(),
            ui_state: UIState::Idle,
            pending: None,
            issued: 0,
            api_token,
        }
    }

    /// The prompt.
    pub fn text(&self) -> (text: &String)
        ensures
            text@ == self@.text,
    {
        &self.text
    }

    /// The state to show.
    pub fn ui_state(&self) -> (state: &UIState)
        ensures
            state@ == self@.ui_state,
    {
        &self.ui_state
    }

    /// The handle that is waited for.
    pub fn pending(&self) -> (handle: Option<Handle>)
        ensures
            handle == self@.pending,
    {
        self.pending
    }

    /// The credential.
    pub fn api_token(&self) -> (token: &String)
        ensures
            token@ == self@.api_token,
    {
        &self.api_token
    }

    /// Takes over the prompt as the user has edited it.
    pub fn set_text(&mut self, text: String)
        ensures
            final(self)@ == old(self)@.edit(text@),
            old(self)@.well_formed() ==> final(self)@.well_formed(),
    {
        self.text = text;
    }

    /// One redraw: takes in what polling `handle` gave and says what to
    /// select.
    pub fn update(&mut self, handle: Handle, poll: Poll) -> (selection: Option<Selection>)
        requires
            old(self)@.pending == Some(handle) ==> !lacks_choice(poll@),
        ensures
            (final(self)@, option_view(selection)) == old(self)@.observe(handle, poll@),
            old(self)@.well_formed() ==> final(self)@.well_formed(),
    {
        let waited_for = match self.pending {
            Some(pending) => pending.id == handle.id,
            None => false,
        };
        if !waited_for {
            return None;
        }
        match poll {
            Poll::NotReady => {
                self.ui_state = UIState::Busy;
                None
            },
            Poll::Resolved(Err(message)) => {
                self.ui_state = UIState::Error(message);
                self.pending = None;
                None
            },
            Poll::Resolved(Ok(Response::Error(rejection))) => {
                self.ui_state = UIState::Error(failure_message(rejection.error.kind.as_str()));
                self.pending = None;
                None
            },
            Poll::Resolved(Ok(Response::Success(completion))) => {
                let text = &completion.choices[0].text;
                let start = self.text.as_str().unicode_len();
                let length = text.as_str().unicode_len();
                self.text.append(text.as_str());
                self.ui_state = UIState::Idle;
                self.pending = None;
                Some(Selection { start, length })
            },
        }
    }

    /// Issues a request for a completion of the prompt as it stands. The
    /// application is busy from here on and waits for the new handle alone.
    pub fn submit(&mut self) -> (submission: Submission)
        ensures
            final(self)@ == old(self)@.submit(),
            final(self)@.pending == Some(submission.handle),
            result_view(submission.request) == request_for(
                quoted(old(self)@.text),
                old(self)@.api_token,
            ),
            final(self)@.well_formed(),
    {
        let id: u64 = if self.issued == u64::MAX {
            0
        } else {
            self.issued + 1
        };
        let handle = Handle { id };
        let request = http_request(self.text.as_str(), self.api_token.as_str());
        self.issued = id;
        self.pending = Some(handle);
        self.ui_state = UIState::Busy;
        Submission { handle, request }
    }
}

} // verus!
