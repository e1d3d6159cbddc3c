//! The delivery shapes of the session-typed layer.

use fringe::{pack_args, Either, ExitedArgs, YieldedArgs};

#[test]
fn exited_delivery_has_no_continuation() {
    let (next, arg) = pack_args::<&str, i32>(Either::Left(ExitedArgs(7)));
    assert!(next.is_none());
    assert_eq!(arg, 7);
}

#[test]
fn yielded_delivery_keeps_the_continuation() {
    let (next, arg) = pack_args(Either::Right(YieldedArgs("resume-me", 7)));
    assert_eq!(next, Some("resume-me"));
    assert_eq!(arg, 7);
}
