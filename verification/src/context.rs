//! What is current while something runs.
//!
//! Each thread has a place that holds what serialization can turn to when it meets a resource of the
//! operating system. It is set for as long as a message is serialized and then is what it was before, so
//! that the serialization of one message may involve that of another.

use crate::error::{Error, Fault};
use vstd::prelude::*;

verus! {

/// A place that may hold a context.
#[derive(Debug)]
pub struct Current<C> {
    pub context: Option<C>,
}

/// Holds what a place held before a context was put there.
#[derive(Debug)]
pub struct ContextGuard<C> {
    pub previous: Option<C>,
}

impl<C> Current<C> {
    /// Puts a context into the place.
    pub fn enter(&mut self, context: C) -> (guard: ContextGuard<C>)
        ensures
            guard.previous == old(self).context,
            final(self).context == Some(context),
    {
        let previous = self.context.take();
        self.context = Some(context);
        ContextGuard { previous }
    }

    /// Gives the place back what it held before.
    pub fn leave(&mut self, guard: ContextGuard<C>)
        ensures
            final(self).context == guard.previous,
    {
        self.context = guard.previous;
    }

    /// Runs something with a context in the place. Afterwards the place holds what it held before, whatever
    /// was done to it meanwhile.
    pub fn set<R, F: FnOnce(&mut Current<C>) -> R>(&mut self, context: C, f: F) -> (result: R)
        requires
            forall|place: &mut Current<C>|
                (*place).context == Some(context) ==> #[trigger] f.requires((place,)),
        ensures
            final(self).context == old(self).context,
            exists|place: &mut Current<C>| #[trigger] f.ensures((place,), result) && (*place).context == Some(context),
    {
        let guard = self.enter(context);
        let result = f(self);
        self.leave(guard);
        result
    }

    /// Whether the place holds a context.
    pub fn has_current(&self) -> (has: bool)
        ensures
            has == self.context is Some,
    {
        self.context.is_some()
    }

    /// Serializes a resource with the context in the place.
    pub fn serialize_with<R, F: FnOnce(&C) -> Result<R, Error>>(&self, f: F) -> (result: Result<R, Error>)
        requires
            self.context matches Some(c) ==> f.requires((&c,)),
        ensures
            match self.context {
                Some(c) => f.ensures((&c,), result),
                None => result == Err::<R, Error>(Error::Fault(Fault::SerializeOutsideContext)),
            },
    {
        match &self.context {
            Some(context) => f(context),
            None => Err(Error::Fault(Fault::SerializeOutsideContext)),
        }
    }

    /// Serializes a resource with the context in the place, for a serializer that any context may belong to.
    pub fn serialize_with_current<R, F: FnOnce(&C) -> Result<R, Error>>(&self, f: F) -> (result: Result<R, Error>)
        requires
            self.context matches Some(c) ==> f.requires((&c,)),
        ensures
            match self.context {
                Some(c) => f.ensures((&c,), result),
                None => result == Err::<R, Error>(Error::Fault(Fault::SerializeInInvalidContext)),
            },
    {
        match &self.context {
            Some(context) => f(context),
            None => Err(Error::Fault(Fault::SerializeInInvalidContext)),
        }
    }

    /// Deserializes a resource with the context in the place.
    pub fn deserialize_with<R, F: FnOnce(&C) -> Result<R, Error>>(&self, f: F) -> (result: Result<R, Error>)
        requires
            self.context matches Some(c) ==> f.requires((&c,)),
        ensures
            match self.context {
                Some(c) => f.ensures((&c,), result),
                None => result == Err::<R, Error>(Error::Fault(Fault::DeserializeOutsideContext)),
            },
    {
        match &self.context {
            Some(context) => f(context),
            None => Err(Error::Fault(Fault::DeserializeOutsideContext)),
        }
    }
}

/// While something runs with a context in a place, the place has a current context, and that is the one which
/// serialization turns to. The result is what the run gave. Afterwards the place holds what it held before.
pub proof fn context_is_current_while_something_runs<C, R, F, T, G>(context: C, f: F, g: G) where
    F: FnOnce(&mut Current<C>) -> R,
    G: FnOnce(&C) -> Result<T, Error>,

    ensures
        forall|place: &mut Current<C>, result: R| #[trigger]
            call_ensures(Current::<C>::set::<R, F>, (place, context, f), result) ==> {
                &&& final(place).context == place.context
                &&& exists|during: &mut Current<C>| #[trigger]
                    f.ensures((during,), result) && during.context == Some(context)
            },
        forall|during: &Current<C>, has: bool| #[trigger]
            call_ensures(Current::<C>::has_current, (during,), has) && during.context == Some(context) ==> has,
        forall|during: &Current<C>, serialized: Result<T, Error>| #[trigger]
            call_ensures(Current::<C>::serialize_with_current::<T, G>, (during, g), serialized) && during.context
                == Some(context) ==> g.ensures((&context,), serialized),
{
}

/// Whoever gives up the guard of a context gives the place back what it held when the context was put there, whatever
/// became of the place in between, and whether or not what was run in between came to its end. So contexts nest.
pub proof fn leaving_gives_back_what_was_there<C>(context: C, guard: ContextGuard<C>)
    ensures
        forall|place: &mut Current<C>, later: &mut Current<C>|
            #![trigger
                call_ensures(Current::<C>::enter, (place, context), guard),
                call_ensures(Current::<C>::leave, (later, guard), ())
            ]
            call_ensures(Current::<C>::enter, (place, context), guard) && call_ensures(
                Current::<C>::leave,
                (later, guard),
                (),
            ) ==> final(later).context == place.context,
{
}

} // verus!
