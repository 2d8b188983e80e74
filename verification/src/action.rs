//! The callbacks that a command can carry.
//!
//! A callback is any value that implements one of the three traits below. The
//! usual callback is a closure behind an `Arc`: [`SharedStandard`],
//! [`SharedUi`] and [`SharedUiReturn`] make such a closure a callback. Each
//! holds a closure that accepts every input, so running it needs no
//! precondition.

use std::sync::Arc;
use vstd::prelude::*;

verus! {

/// `std::io::Error`, the failure that a callback reports. The library only
/// passes such a value on.
#[verifier::external_type_specification]
#[verifier::external_body]
pub struct ExIoError(std::io::Error);

/// The action of a standard command: it receives the argument values that
/// were collected from the command line and returns nothing.
pub trait StandardCallback: Send + Sync {
    /// Holds of `args` once a call of [`StandardCallback::run`] with exactly
    /// these arguments has returned.
    spec fn completed(&self, args: &[String]) -> bool;

    fn run(&self, args: &[String])
        ensures
            self.completed(args),
    ;
}

/// The action of a command that takes over the screen and hands nothing
/// back but success or failure.
pub trait UiCallback: Send + Sync {
    /// Holds of `result` if a call of [`UiCallback::run`] can return it.
    spec fn yields(&self, result: Result<(), std::io::Error>) -> bool;

    fn run(&self) -> (result: Result<(), std::io::Error>)
        ensures
            self.yields(result),
    ;
}

/// The action of a command that takes over the screen and hands back what
/// the user entered or chose, if anything.
pub trait UiReturnCallback: Send + Sync {
    /// Holds of `result` if a call of [`UiReturnCallback::run`] can return it.
    spec fn yields(&self, result: Result<Option<String>, std::io::Error>) -> bool;

    fn run(&self) -> (result: Result<Option<String>, std::io::Error>)
        ensures
            self.yields(result),
    ;
}

/// A shared closure as the action of a standard command.
pub struct SharedStandard<F: Fn(&[String]) + Send + Sync> {
    action: Arc<F>,
}

impl<F: Fn(&[String]) + Send + Sync> SharedStandard<F> {
    #[verifier::type_invariant]
    spec fn accepts_all(self) -> bool {
        forall|args: &[String]| call_requires(*self.action, (args,))
    }

    /// The closure that is called.
    pub closed spec fn callback(self) -> F {
        *self.action
    }

    pub fn new(action: Arc<F>) -> (r: Self)
        requires
            forall|args: &[String]| call_requires(*action, (args,)),
        ensures
            r.callback() == *action,
    {
        SharedStandard { action }
    }
}

impl<F: Fn(&[String]) + Send + Sync> StandardCallback for SharedStandard<F> {
    open spec fn completed(&self, args: &[String]) -> bool {
        call_ensures(self.callback(), (args,), ())
    }

    fn run(&self, args: &[String]) {
        proof {
            use_type_invariant(self);
        }
        (self.action)(args)
    }
}

/// A shared closure as the action of a fire-and-forget screen command.
pub struct SharedUi<F: Fn() -> Result<(), std::io::Error> + Send + Sync> {
    action: Arc<F>,
}

impl<F: Fn() -> Result<(), std::io::Error> + Send + Sync> SharedUi<F> {
    #[verifier::type_invariant]
    spec fn callable(self) -> bool {
        call_requires(*self.action, ())
    }

    /// The closure that is called.
    pub closed spec fn callback(self) -> F {
        *self.action
    }

    pub fn new(action: Arc<F>) -> (r: Self)
        requires
            call_requires(*action, ()),
        ensures
            r.callback() == *action,
    {
        SharedUi { action }
    }
}

impl<F: Fn() -> Result<(), std::io::Error> + Send + Sync> UiCallback for SharedUi<F> {
    open spec fn yields(&self, result: Result<(), std::io::Error>) -> bool {
        call_ensures(self.callback(), (), result)
    }

    fn run(&self) -> (result: Result<(), std::io::Error>) {
        proof {
            use_type_invariant(self);
        }
        (self.action)()
    }
}

/// A shared closure as the action of a screen command that hands a value back.
pub struct SharedUiReturn<F: Fn() -> Result<Option<String>, std::io::Error> + Send + Sync> {
    action: Arc<F>,
}

impl<F: Fn() -> Result<Option<String>, std::io::Error> + Send + Sync> SharedUiReturn<F> {
    #[verifier::type_invariant]
    spec fn callable(self) -> bool {
        call_requires(*self.action, ())
    }

    /// The closure that is called.
    pub closed spec fn callback(self) -> F {
        *self.action
    }

    pub fn new(action: Arc<F>) -> (r: Self)
        requires
            call_requires(*action, ()),
        ensures
            r.callback() == *action,
    {
        SharedUiReturn { action }
    }
}

impl<F: Fn() -> Result<Option<String>, std::io::Error> + Send + Sync> UiReturnCallback for SharedUiReturn<F> {
    open spec fn yields(&self, result: Result<Option<String>, std::io::Error>) -> bool {
        call_ensures(self.callback(), (), result)
    }

    fn run(&self) -> (result: Result<Option<String>, std::io::Error>) {
        proof {
            use_type_invariant(self);
        }
        (self.action)()
    }
}

} // verus!
