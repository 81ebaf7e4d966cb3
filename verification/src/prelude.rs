//! Unwrap helpers with contracts: each demands, instead of panicking, that the
//! value is there. The fail-fast path (log the full context, then abort the
//! unit of work) is I/O and lives with the host process; the helpers here are
//! total on the inputs their contracts admit.

use vstd::prelude::*;

verus! {

/// A `Result` or `Option` that can give up its value where the contract
/// guarantees one is present.
pub trait EnhancedUnwrap<T>: Sized {
    /// Whether the value is present.
    spec fn can_unwrap(self) -> bool;

    /// The value, where present.
    spec fn unwrapped(self) -> T;

    /// Equivalent to `Option::unwrap` / `Result::unwrap`, admitted only on
    /// inputs that hold a value.
    fn unwp(self) -> (r: T)
        requires
            self.can_unwrap(),
        ensures
            r == self.unwrapped(),
    ;
}

/// A `Result` or `Option` that can give up its value where the contract
/// guarantees one is present, with a caller-supplied context message.
pub trait EnhancedExpect<T>: Sized {
    /// Whether the value is present.
    spec fn can_expect(self) -> bool;

    /// The value, where present.
    spec fn expected(self) -> T;

    /// Equivalent to `Option::expect` / `Result::expect`, admitted only on
    /// inputs that hold a value.
    fn ex(self, msg: &str) -> (r: T)
        requires
            self.can_expect(),
        ensures
            r == self.expected(),
    ;
}

impl<T, E> EnhancedUnwrap<T> for Result<T, E> {
    open spec fn can_unwrap(self) -> bool {
        self is Ok
    }

    open spec fn unwrapped(self) -> T {
        self->Ok_0
    }

    fn unwp(self) -> (r: T) {
        ok(self)
    }
}

impl<T, E> EnhancedExpect<T> for Result<T, E> {
    open spec fn can_expect(self) -> bool {
        self is Ok
    }

    open spec fn expected(self) -> T {
        self->Ok_0
    }

    fn ex(self, msg: &str) -> (r: T) {
        ok_ctx(self, msg)
    }
}

impl<T> EnhancedUnwrap<T> for Option<T> {
    open spec fn can_unwrap(self) -> bool {
        self is Some
    }

    open spec fn unwrapped(self) -> T {
        self->0
    }

    fn unwp(self) -> (r: T) {
        some(self)
    }
}

impl<T> EnhancedExpect<T> for Option<T> {
    open spec fn can_expect(self) -> bool {
        self is Some
    }

    open spec fn expected(self) -> T {
        self->0
    }

    fn ex(self, msg: &str) -> (r: T) {
        some_ctx(self, msg)
    }
}

/// The `Result` must be `Ok`; yields the value.
pub fn ok<T, E>(result: Result<T, E>) -> (r: T)
    requires
        result is Ok,
    ensures
        r == result->Ok_0,
{
    ok_ctx(result, "")
}

/// The `Option` must be `Some`; yields the value.
pub fn some<T>(option: Option<T>) -> (r: T)
    requires
        option is Some,
    ensures
        r == option->0,
{
    some_ctx(option, "")
}

/// The `Result` must be `Ok`, with custom context; yields the value.
pub fn ok_ctx<T, E>(result: Result<T, E>, msg: &str) -> (r: T)
    requires
        result is Ok,
    ensures
        r == result->Ok_0,
{
    match result {
        Ok(value) => value,
        Err(_) => vstd::pervasive::unreached(),
    }
}

/// The `Option` must be `Some`, with custom context; yields the value.
pub fn some_ctx<T>(option: Option<T>, msg: &str) -> (r: T)
    requires
        option is Some,
    ensures
        r == option->0,
{
    match option {
        Some(value) => value,
        None => vstd::pervasive::unreached(),
    }
}

} // verus!
