//! What can go wrong while a transaction is on the bus.
use core::convert::Infallible;
use vstd::prelude::*;

verus! {

/// A failed bus operation. Either kind ends the transaction it occurs in:
/// nothing is tried again and nothing is undone.
#[derive(Debug)]
pub enum Error<E = ()> {
    /// The transport refused a write.
    Comm(E),
    /// A control line could not be driven.
    Pin(Infallible),
}

impl<E> Error<E> {
    /// What a write to the transport means for the transaction: a refused
    /// write is a communication error that carries the transport's own.
    pub fn after_write(written: Result<(), E>) -> (outcome: Result<(), Error<E>>)
        ensures
            written is Ok ==> outcome is Ok,
            written matches Err(e) ==> outcome == Err::<(), Error<E>>(Error::Comm(e)),
    {
        match written {
            Ok(()) => Ok(()),
            Err(e) => Err(Error::Comm(e)),
        }
    }

    /// What driving a control line means for the transaction: a line that
    /// could not be driven is a pin error.
    pub fn after_pin(driven: Result<(), Infallible>) -> (outcome: Result<(), Error<E>>)
        ensures
            driven is Ok ==> outcome is Ok,
            driven matches Err(e) ==> outcome == Err::<(), Error<E>>(Error::Pin(e)),
    {
        match driven {
            Ok(()) => Ok(()),
            Err(e) => Err(Error::Pin(e)),
        }
    }
}

} // verus!
