use vstd::prelude::*;

verus! {

/// Why an open or close request was refused.
#[derive(PartialEq, Eq, Structural, Debug, Clone, Copy)]
pub enum OpenableError {
    AlreadyClosed,
    AlreadyOpen,
    CannotOpen,
}

/// Position of something that opens and closes.
#[derive(PartialEq, Eq, Structural, Debug, Clone, Copy)]
pub enum OpenableState {
    Closed,
    Open,
}

impl OpenableState {
    /// The state after `open` is fired from `self`, and what the call returns.
    pub open spec fn after_open(self) -> (OpenableState, Result<(), OpenableError>) {
        match self {
            OpenableState::Closed => (OpenableState::Open, Ok(())),
            OpenableState::Open => (OpenableState::Open, Err(OpenableError::AlreadyOpen)),
        }
    }

    /// The state after `close` is fired from `self`, and what the call returns.
    pub open spec fn after_close(self) -> (OpenableState, Result<(), OpenableError>) {
        match self {
            OpenableState::Open => (OpenableState::Closed, Ok(())),
            OpenableState::Closed => (OpenableState::Closed, Err(OpenableError::AlreadyClosed)),
        }
    }
}

impl Default for OpenableState {
    fn default() -> (s: Self)
        ensures
            s == OpenableState::Closed,
    {
        OpenableState::Closed
    }
}

/// Something that can be opened and closed.
pub trait Openable: Sized {
    /// Whether it is open.
    spec fn opened(&self) -> bool;

    fn can_open(&self) -> (r: bool)
        ensures
            r == !self.opened(),
    ;

    fn can_close(&self) -> (r: bool)
        ensures
            r == self.opened(),
    ;

    fn is_open(&self) -> (r: bool)
        ensures
            r == self.opened(),
    ;

    fn is_closed(&self) -> (r: bool)
        ensures
            r == !self.opened(),
    ;

    /// Opens what is closed; refuses, changing nothing, what is already open.
    fn open(&mut self) -> (r: Result<(), OpenableError>)
        ensures
            old(self).opened() ==> r == Err::<(), OpenableError>(OpenableError::AlreadyOpen)
                && *final(self) == *old(self),
            !old(self).opened() ==> r is Ok && final(self).opened(),
    ;

    /// Closes what is open; refuses, changing nothing, what is already closed.
    fn close(&mut self) -> (r: Result<(), OpenableError>)
        ensures
            !old(self).opened() ==> r == Err::<(), OpenableError>(OpenableError::AlreadyClosed)
                && *final(self) == *old(self),
            old(self).opened() ==> r is Ok && !final(self).opened(),
    ;
}

impl Openable for OpenableState {
    open spec fn opened(&self) -> bool {
        *self == OpenableState::Open
    }

    fn can_open(&self) -> (r: bool) {
        self.is_closed()
    }

    fn can_close(&self) -> (r: bool) {
        !self.can_open()
    }

    fn is_open(&self) -> (r: bool) {
        matches!(self, OpenableState::Open)
    }

    fn is_closed(&self) -> (r: bool) {
        matches!(self, OpenableState::Closed)
    }

    fn open(&mut self) -> (r: Result<(), OpenableError>)
        ensures
            (*final(self), r) == old(self).after_open(),
    {
        match *self {
            OpenableState::Open => Err(OpenableError::AlreadyOpen),
            OpenableState::Closed => {
                *self = OpenableState::Open;
                Ok(())
            },
        }
    }

    fn close(&mut self) -> (r: Result<(), OpenableError>)
        ensures
            (*final(self), r) == old(self).after_close(),
    {
        match *self {
            OpenableState::Open => {
                *self = OpenableState::Closed;
                Ok(())
            },
            OpenableState::Closed => Err(OpenableError::AlreadyClosed),
        }
    }
}

/// The open/closed machine has two states and two edges: `open` leads from
/// `Closed` to `Open` and `close` leads back. Fired from the other state, each
/// fails with its own error and leaves the state as it was.
pub proof fn lemma_openable_two_edges(s: OpenableState)
    ensures
        s.after_open().1 is Ok <==> s == OpenableState::Closed,
        s.after_close().1 is Ok <==> s == OpenableState::Open,
        s.after_open().1 is Ok ==> s.after_open().0 == OpenableState::Open,
        s.after_close().1 is Ok ==> s.after_close().0 == OpenableState::Closed,
        s.after_open().1 is Err ==> s.after_open() == (
            s,
            Err::<(), OpenableError>(OpenableError::AlreadyOpen),
        ),
        s.after_close().1 is Err ==> s.after_close() == (
            s,
            Err::<(), OpenableError>(OpenableError::AlreadyClosed),
        ),
{
}

/// Opening a closed machine and then closing it both succeed and bring it back
/// to `Closed`.
pub proof fn lemma_open_close_round_trip(s: OpenableState)
    requires
        s == OpenableState::Closed,
    ensures
        s.after_open().1 is Ok,
        s.after_open().0.after_close().1 is Ok,
        s.after_open().0.after_close().0 == s,
{
}

} // verus!
