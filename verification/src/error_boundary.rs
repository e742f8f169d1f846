//! An error boundary that keeps its state three times over and repairs it by
//! majority vote.
//!
//! The boundary stores the caught error message and an "error present" flag in
//! three copies each. It shows the error when at least two of the three flags
//! say so; a periodic check brings a two-to-one split back into agreement.
use vstd::prelude::*;

verus! {

/// The messages an error boundary reacts to.
pub enum ErrorBoundaryMsg {
    /// A child failed with this message.
    CatchError(String),
    /// The failure was dealt with.
    ClearError,
    /// Periodic check of the three copies.
    VerifyErrorState,
}

/// The state of an error boundary: three copies of the caught message and
/// three copies of the "error present" flag. Any combination can occur, since
/// a copy may be corrupted on its own.
pub struct ErrorBoundary {
    pub error_state: [Option<String>; 3],
    pub has_error: [bool; 3],
}

/// How many of the three flags are set.
pub open spec fn flag_count(flags: [bool; 3]) -> nat {
    (if flags[0] { 1nat } else { 0nat }) + (if flags[1] { 1nat } else { 0nat }) + (if flags[2] {
        1nat
    } else {
        0nat
    })
}

/// The first stored message, reading the copies in order.
pub open spec fn first_error(state: [Option<String>; 3]) -> Option<String> {
    if state[0] is Some {
        state[0]
    } else if state[1] is Some {
        state[1]
    } else {
        state[2]
    }
}

/// The flags with the one at position `i` inverted.
pub open spec fn flip(flags: [bool; 3], i: int) -> [bool; 3] {
    [
        if i == 0 { !flags[0] } else { flags[0] },
        if i == 1 { !flags[1] } else { flags[1] },
        if i == 2 { !flags[2] } else { flags[2] },
    ]
}

/// A boundary whose three copies hold `message` and whose flags are all `flag`.
pub open spec fn uniform(message: Option<String>, flag: bool) -> ErrorBoundary {
    ErrorBoundary { error_state: [message, message, message], has_error: [flag, flag, flag] }
}

impl ErrorBoundary {
    /// The boundary shows an error when a majority of the flags is set.
    pub open spec fn shows_error(self) -> bool {
        flag_count(self.has_error) >= 2
    }

    /// The three flags agree.
    pub open spec fn consistent(self) -> bool {
        flag_count(self.has_error) == 0 || flag_count(self.has_error) == 3
    }

    /// The state after handling `msg`.
    pub open spec fn step(self, msg: ErrorBoundaryMsg) -> ErrorBoundary {
        match msg {
            ErrorBoundaryMsg::CatchError(e) => uniform(Some(e), true),
            ErrorBoundaryMsg::ClearError => uniform(None, false),
            ErrorBoundaryMsg::VerifyErrorState => {
                if flag_count(self.has_error) == 2 {
                    if first_error(self.error_state) is Some {
                        uniform(first_error(self.error_state), true)
                    } else {
                        ErrorBoundary { error_state: self.error_state, has_error: [true, true, true] }
                    }
                } else if flag_count(self.has_error) == 1 {
                    ErrorBoundary { error_state: self.error_state, has_error: [false, false, false] }
                } else {
                    self
                }
            },
        }
    }

    /// Whether handling `msg` asks for the boundary to be drawn again.
    pub open spec fn step_redraws(self, msg: ErrorBoundaryMsg) -> bool {
        match msg {
            ErrorBoundaryMsg::VerifyErrorState => flag_count(self.has_error) == 1 || flag_count(
                self.has_error,
            ) == 2,
            _ => true,
        }
    }

    /// A boundary with no error in any copy.
    pub fn create_component() -> (b: ErrorBoundary)
        ensures
            b == uniform(None, false),
    {
        ErrorBoundary { error_state: [None, None, None], has_error: [false, false, false] }
    }

    fn error_flag_count(&self) -> (n: usize)
        ensures
            n == flag_count(self.has_error),
    {
        let mut n: usize = 0;
        if self.has_error[0] {
            n = n + 1;
        }
        if self.has_error[1] {
            n = n + 1;
        }
        if self.has_error[2] {
            n = n + 1;
        }
        n
    }

    fn first_stored_error(&self) -> (e: Option<String>)
        ensures
            e == first_error(self.error_state),
    {
        match &self.error_state[0] {
            Some(m) => {
                return Some(m.clone());
            },
            None => {},
        }
        match &self.error_state[1] {
            Some(m) => {
                return Some(m.clone());
            },
            None => {},
        }
        match &self.error_state[2] {
            Some(m) => Some(m.clone()),
            None => None,
        }
    }

    /// Handles a message; the result says whether to draw the boundary again.
    /// A catch or a clear writes all three copies. The periodic check repairs a
    /// two-to-one split of the flags by majority: with two flags set it sets
    /// all three and copies the first stored message into every slot when there
    /// is one; with one flag set it clears all three and leaves the messages.
    /// Flags that already agree are left as they are.
    pub fn update(&mut self, msg: ErrorBoundaryMsg) -> (redraw: bool)
        ensures
            *final(self) == old(self).step(msg),
            redraw == old(self).step_redraws(msg),
    {
        match msg {
            ErrorBoundaryMsg::CatchError(error) => {
                self.error_state = [Some(error.clone()), Some(error.clone()), Some(error)];
                self.has_error = [true, true, true];
                true
            },
            ErrorBoundaryMsg::ClearError => {
                self.error_state = [None, None, None];
                self.has_error = [false, false, false];
                true
            },
            ErrorBoundaryMsg::VerifyErrorState => {
                let error_count = self.error_flag_count();
                if error_count == 2 {
                    self.has_error = [true, true, true];
                    let correct_error = self.first_stored_error();
                    if correct_error.is_some() {
                        let e = correct_error.unwrap();
                        self.error_state = [Some(e.clone()), Some(e.clone()), Some(e)];
                    }
                    true
                } else if error_count == 1 {
                    self.has_error = [false, false, false];
                    true
                } else {
                    false
                }
            },
        }
    }

    /// Whether the boundary shows an error (at least two flags set).
    pub fn error_detected(&self) -> (b: bool)
        ensures
            b == self.shows_error(),
    {
        self.error_flag_count() >= 2
    }

    /// The message shown with an error: the first stored message, or
    /// "Unknown error" when no copy holds one.
    pub fn error_message(&self) -> (m: String)
        ensures
            first_error(self.error_state) is Some ==> m == first_error(self.error_state)->0,
            first_error(self.error_state) is None ==> m@ == "Unknown error"@,
    {
        match self.first_stored_error() {
            Some(m) => m,
            None => String::from_str("Unknown error"),
        }
    }

    /// Whether the three flags agree (all set or none set).
    pub fn verify_state_integrity(&self) -> (ok: bool)
        ensures
            ok == self.consistent(),
    {
        let error_count = self.error_flag_count();
        error_count == 0 || error_count == 3
    }
}

/// A caught error is stored in agreement and shown with its own message.
pub proof fn lemma_catch_shows_the_error(b: ErrorBoundary, e: String)
    ensures
        b.step(ErrorBoundaryMsg::CatchError(e)).consistent(),
        b.step(ErrorBoundaryMsg::CatchError(e)).shows_error(),
        first_error(b.step(ErrorBoundaryMsg::CatchError(e)).error_state) == Some(e),
{
}

/// After a clear, the boundary is consistent and shows no error.
pub proof fn lemma_clear_hides_the_error(b: ErrorBoundary)
    ensures
        b.step(ErrorBoundaryMsg::ClearError).consistent(),
        !b.step(ErrorBoundaryMsg::ClearError).shows_error(),
        first_error(b.step(ErrorBoundaryMsg::ClearError).error_state) is None,
{
}

/// The periodic check never changes what the boundary shows: whether an error
/// is shown, and which message.
pub proof fn lemma_check_keeps_what_is_shown(b: ErrorBoundary)
    ensures
        b.step(ErrorBoundaryMsg::VerifyErrorState).shows_error() == b.shows_error(),
        first_error(b.step(ErrorBoundaryMsg::VerifyErrorState).error_state) == first_error(
            b.error_state,
        ),
{
}

/// After the periodic check the three flags agree.
pub proof fn lemma_check_restores_agreement(b: ErrorBoundary)
    ensures
        b.step(ErrorBoundaryMsg::VerifyErrorState).consistent(),
{
}

/// The periodic check asks for a redraw exactly when it repairs something.
pub proof fn lemma_check_redraws_only_on_repair(b: ErrorBoundary)
    ensures
        b.step_redraws(ErrorBoundaryMsg::VerifyErrorState) <==> b.step(
            ErrorBoundaryMsg::VerifyErrorState,
        ) != b,
{
    if flag_count(b.has_error) == 1 || flag_count(b.has_error) == 2 {
        assert(b.step(ErrorBoundaryMsg::VerifyErrorState).has_error != b.has_error);
    }
}

/// A second periodic check right after the first finds nothing to repair.
pub proof fn lemma_check_is_idempotent(b: ErrorBoundary)
    ensures
        ({
            let c = b.step(ErrorBoundaryMsg::VerifyErrorState);
            c.step(ErrorBoundaryMsg::VerifyErrorState) == c && !c.step_redraws(
                ErrorBoundaryMsg::VerifyErrorState,
            )
        }),
{
}

/// Triple redundancy: corrupting any one flag of a consistent boundary does not
/// change whether it shows an error, and the next check restores the state
/// the boundary had before the fault.
pub proof fn lemma_single_flag_fault_is_masked(b: ErrorBoundary, i: int)
    requires
        b.consistent(),
        0 <= i < 3,
    ensures
        ({
            let f = ErrorBoundary {
                error_state: b.error_state,
                has_error: flip(b.has_error, i),
            };
            &&& f.shows_error() == b.shows_error()
            &&& f.step(ErrorBoundaryMsg::VerifyErrorState).has_error == b.has_error
        }),
{
}

} // verus!
