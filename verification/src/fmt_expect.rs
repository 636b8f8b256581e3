//! The capability of being unwrapped with a caller-supplied abort action, and
//! its two implementations.

use vstd::prelude::*;

verus! {

/// An abort action: a thunk that may be invoked and that, once invoked, never
/// returns control to its caller.
pub open spec fn aborts<F: FnOnce()>(thunk: F) -> bool {
    &&& call_requires(thunk, ())
    &&& forall|done: ()| !call_ensures(thunk, (), done)
}

/// What a call of [`FmtExpect::expect_fmt`] asks of its arguments: nothing at
/// all of the thunk while the container holds a value, and an abort action
/// where it holds none.
pub open spec fn may_expect<T, F: FnOnce()>(held: Option<T>, thunk: F) -> bool {
    held is None ==> aborts(thunk)
}

/// A container that either holds one value of type `T` or holds none.
pub trait FmtExpect<T>: Sized {
    /// The value that the container holds, if it holds one.
    spec fn held(self) -> Option<T>;

    /// Returns the held value. Where there is none, invokes `thunk`, which does
    /// not return, and so neither does this call.
    ///
    /// The thunk takes no argument: whatever else the container may carry
    /// beside a value is dropped without being looked at.
    fn expect_fmt<F: FnOnce()>(self, thunk: F) -> (value: T)
        requires
            may_expect(self.held(), thunk),
        ensures
            self.held() is Some,
            self.held() == Some(value),
    ;
}

impl<T> FmtExpect<T> for Option<T> {
    open spec fn held(self) -> Option<T> {
        self
    }

    fn expect_fmt<F: FnOnce()>(self, thunk: F) -> (value: T)
        ensures
            self == Some(value),
    {
        match self {
            Some(value) => value,
            None => {
                thunk();
                unreached()
            },
        }
    }
}

impl<T, E> FmtExpect<T> for Result<T, E> {
    open spec fn held(self) -> Option<T> {
        match self {
            Ok(value) => Some(value),
            Err(_) => None,
        }
    }

    fn expect_fmt<F: FnOnce()>(self, thunk: F) -> (value: T)
        ensures
            self is Ok,
            self->Ok_0 == value,
    {
        match self {
            Ok(value) => value,
            Err(_) => {
                thunk();
                unreached()
            },
        }
    }
}

/// `raise` is an abort action on every text that `message` may render: it can
/// be handed that text, and does not return once it has it.
pub open spec fn aborts_with<M: FnOnce() -> String, R: FnOnce(String)>(message: M, raise: R) -> bool {
    &&& call_requires(message, ())
    &&& forall|text: String| #[trigger]
        call_ensures(message, (), text) ==> {
            &&& call_requires(raise, (text,))
            &&& forall|done: ()| !call_ensures(raise, (text,), done)
        }
}

/// What a call of [`unwrap_fmt`] asks of its arguments: nothing at all of the
/// two closures while the container holds a value, and a message with an
/// abort action for it where the container holds none.
pub open spec fn may_unwrap<T, M: FnOnce() -> String, R: FnOnce(String)>(
    held: Option<T>,
    message: M,
    raise: R,
) -> bool {
    held is None ==> aborts_with(message, raise)
}

/// Unwraps `container`. Where there is nothing to unwrap, renders the message
/// and hands the text to `raise`, which does not return, and so neither does
/// this call.
///
/// Neither `message` nor `raise` is evaluated while the container holds a
/// value, so nothing is asked of them then. The container is dispatched
/// through [`FmtExpect`], and nothing of it reaches the two closures.
pub fn unwrap_fmt<T, C: FmtExpect<T>, M: FnOnce() -> String, R: FnOnce(String)>(
    container: C,
    message: M,
    raise: R,
) -> (value: T)
    requires
        may_unwrap(container.held(), message, raise),
    ensures
        container.held() is Some,
        container.held() == Some(value),
{
    container.expect_fmt(
        move || -> (done: ())
            requires
                aborts_with(message, raise),
            ensures
                exists|text: String|
                    #[trigger] call_ensures(message, (), text) && call_ensures(raise, (text,), done)
            {
                let text = message();
                raise(text)
            },
    )
}

/// A container that holds a value may be unwrapped with any thunk whatever,
/// even one that can never be invoked. A thunk is invoked only where it can be,
/// so on such a container none is evaluated.
pub proof fn lemma_value_spares_thunk<T, C: FmtExpect<T>, F: FnOnce()>(container: C, thunk: F)
    requires
        container.held() is Some,
    ensures
        may_expect(container.held(), thunk),
{
}

/// A container that holds no value may be unwrapped with an abort action and
/// with nothing else.
pub proof fn lemma_empty_wants_abort<T, C: FmtExpect<T>, F: FnOnce()>(container: C, thunk: F)
    requires
        container.held() is None,
    ensures
        may_expect(container.held(), thunk) <==> aborts(thunk),
{
}

/// A container that holds a value may be unwrapped with any message and any
/// action on it whatever, even such as can never be invoked: no text is
/// rendered and nothing is raised.
pub proof fn lemma_value_spares_message<T, C: FmtExpect<T>, M: FnOnce() -> String, R: FnOnce(String)>(
    container: C,
    message: M,
    raise: R,
)
    requires
        container.held() is Some,
    ensures
        may_unwrap(container.held(), message, raise),
{
}

/// A container that holds no value may be unwrapped with a message that can be
/// rendered and an action that aborts on each text so rendered, and with
/// nothing else.
pub proof fn lemma_empty_wants_message<T, C: FmtExpect<T>, M: FnOnce() -> String, R: FnOnce(String)>(
    container: C,
    message: M,
    raise: R,
)
    requires
        container.held() is None,
    ensures
        may_unwrap(container.held(), message, raise) <==> aborts_with(message, raise),
{
}

/// An `Option` holds what it is.
pub proof fn lemma_option_holds_itself<T>(container: Option<T>)
    ensures
        container.held() == container,
{
}

/// A success holds its value.
pub proof fn lemma_success_holds_value<T, E>(value: T)
    ensures
        Ok::<T, E>(value).held() == Some(value),
{
}

/// A failure holds no value, whatever its payload is: two failures cannot be
/// told apart by unwrapping them.
pub proof fn lemma_failure_holds_nothing<T, E>(payload: E, other: E)
    ensures
        Err::<T, E>(payload).held() is None,
        Err::<T, E>(payload).held() == Err::<T, E>(other).held(),
{
}

} // verus!
