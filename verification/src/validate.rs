//! Checks that a prompt runs on its input when the user tries to submit it.

use vstd::prelude::*;

verus! {

/// The verdict of a validator with its message as a mathematical value.
pub open spec fn verdict_view(verdict: Result<(), String>) -> Result<(), Seq<char>> {
    match verdict {
        Ok(_) => Ok(()),
        Err(message) => Err(message@),
    }
}

/// Whether the function `check` may answer `verdict` when called on `input`.
pub open spec fn answers<F: Fn(&str) -> Result<(), String>>(
    check: F,
    input: Seq<char>,
    verdict: Result<(), Seq<char>>,
) -> bool {
    exists|text: &str, answer: Result<(), String>|
        text@ == input && verdict_view(answer) == verdict && #[trigger] call_ensures(
            check,
            (text,),
            answer,
        )
}

/// A check on submitted text: `Ok` lets it through, `Err` carries the message
/// shown to the user.
pub trait Validate {
    /// Whether the validator may answer `verdict` when asked about `input`.
    spec fn admits(&self, input: Seq<char>, verdict: Result<(), Seq<char>>) -> bool;

    fn validate(&self, input: &str) -> (verdict: Result<(), String>)
        ensures
            self.admits(input@, verdict_view(verdict)),
    ;
}

/// A function used as a validator.
pub struct FnValidator<F: Fn(&str) -> Result<(), String>> {
    check: F,
}

impl<F: Fn(&str) -> Result<(), String>> FnValidator<F> {
    #[verifier::type_invariant]
    spec fn inv(&self) -> bool {
        forall|input: &str| call_requires(self.check, (input,))
    }

    /// The function itself.
    pub closed spec fn check(&self) -> F {
        self.check
    }

    /// Wraps a function that can be called on every string.
    pub fn new(check: F) -> (out: FnValidator<F>)
        requires
            forall|input: &str| call_requires(check, (input,)),
        ensures
            out.check() == check,
    {
        FnValidator { check }
    }
}

impl<F: Fn(&str) -> Result<(), String>> Validate for FnValidator<F> {
    /// The verdicts of the wrapper are those of the function.
    open spec fn admits(&self, input: Seq<char>, verdict: Result<(), Seq<char>>) -> bool {
        answers(self.check(), input, verdict)
    }

    fn validate(&self, input: &str) -> (verdict: Result<(), String>) {
        proof {
            use_type_invariant(self);
        }
        let verdict = (self.check)(input);
        assert(call_ensures(self.check(), (input,), verdict));
        verdict
    }
}

} // verus!
