//! What the installer's front end knows of the network check.

use vstd::prelude::*;
use vstd::string::*;

verus! {

/// The state of the network check, as the front end shows it.
#[derive(Debug, Clone)]
pub struct AppState {
    is_checking: bool,
    is_connected: bool,
    check_completed: bool,
    error_message: Option<String>,
}

/// Mathematical model of an [`AppState`].
#[verifier::ext_equal]
pub struct AppStateView {
    pub is_checking: bool,
    pub is_connected: bool,
    pub check_completed: bool,
    pub error_message: Option<Seq<char>>,
}

/// The state before any check: nothing runs, nothing is known, nothing went
/// wrong.
pub open spec fn initial_state() -> AppStateView {
    AppStateView {
        is_checking: false,
        is_connected: false,
        check_completed: false,
        error_message: None,
    }
}

impl View for AppState {
    type V = AppStateView;

    closed spec fn view(&self) -> AppStateView {
        AppStateView {
            is_checking: self.is_checking,
            is_connected: self.is_connected,
            check_completed: self.check_completed,
            error_message: match self.error_message {
                Some(message) => Some(message@),
                None => None,
            },
        }
    }
}

impl AppState {
    pub fn new() -> (r: Self)
        ensures
            r@ == initial_state(),
    {
        Self { is_checking: false, is_connected: false, check_completed: false, error_message: None }
    }

    pub fn is_checking(&self) -> (r: bool)
        ensures
            r == self@.is_checking,
    {
        self.is_checking
    }

    pub fn set_checking(&mut self, checking: bool)
        ensures
            final(self)@ == (AppStateView { is_checking: checking, ..old(self)@ }),
    {
        self.is_checking = checking;
    }

    pub fn is_connected(&self) -> (r: bool)
        ensures
            r == self@.is_connected,
    {
        self.is_connected
    }

    pub fn set_connected(&mut self, connected: bool)
        ensures
            final(self)@ == (AppStateView { is_connected: connected, ..old(self)@ }),
    {
        self.is_connected = connected;
    }

    pub fn is_check_completed(&self) -> (r: bool)
        ensures
            r == self@.check_completed,
    {
        self.check_completed
    }

    pub fn set_check_completed(&mut self, completed: bool)
        ensures
            final(self)@ == (AppStateView { check_completed: completed, ..old(self)@ }),
    {
        self.check_completed = completed;
    }

    pub fn error_message(&self) -> (r: Option<&String>)
        ensures
            r is Some <==> self@.error_message is Some,
            r is Some ==> Some(r->0@) == self@.error_message,
    {
        self.error_message.as_ref()
    }

    pub fn set_error_message(&mut self, message: Option<String>)
        ensures
            final(self)@ == (AppStateView {
                error_message: match message {
                    Some(text) => Some(text@),
                    None => None,
                },
                ..old(self)@
            }),
    {
        self.error_message = message;
    }

    /// Back to the state before any check.
    pub fn reset(&mut self)
        ensures
            final(self)@ == initial_state(),
    {
        self.is_checking = false;
        self.is_connected = false;
        self.check_completed = false;
        self.error_message = None;
    }
}

impl Default for AppState {
    fn default() -> (r: Self)
        ensures
            r@ == initial_state(),
    {
        Self::new()
    }
}

} // verus!
