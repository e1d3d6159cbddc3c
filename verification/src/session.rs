//! Argument shapes of the session-typed layer over raw switches.
//!
//! That layer drives a cyclic protocol: each switch hands the incoming side
//! either proof that the other context exited, or a continuation for it
//! together with the yielded argument. Rebuilding those shapes from a raw
//! stack pointer is the driver's; the shapes themselves, and the step that
//! flattens them into what user code consumes, are here.

use vstd::prelude::*;

verus! {

/// Represents choice in the protocol.
#[derive(Clone, Copy, Debug, PartialEq, Eq, Structural)]
pub enum Either<T, U> {
    Left(T),
    Right(U),
}

/// What a switch delivers when the other context ran to its end: only the
/// final argument; there is no continuation left to hold.
pub struct ExitedArgs<A>(pub A);

/// What a switch delivers when the other context yielded: a continuation
/// for it, and the argument it sent.
pub struct YieldedArgs<C, A>(pub C, pub A);

/// Flattens the two delivery shapes into what user code consumes: the
/// continuation, if one is left, next to the argument either way.
pub fn pack_args<C, A>(args_raw: Either<ExitedArgs<A>, YieldedArgs<C, A>>) -> (r: (Option<C>, A))
    ensures
        (args_raw matches Either::Left(e) ==> r.0 is None && r.1 == e.0),
        (args_raw matches Either::Right(y) ==> r.0 == Some(y.0) && r.1 == y.1),
{
    match args_raw {
        Either::Left(ExitedArgs(arg)) => (None, arg),
        Either::Right(YieldedArgs(ctx, arg)) => (Some(ctx), arg),
    }
}

} // verus!
