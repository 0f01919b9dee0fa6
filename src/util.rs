use vstd::prelude::*;
use crate::gateway::{MessageRef, Reply, ReplyKind};

verus! {

/// A reply reporting success, addressed to `to`.
pub fn reply(msg: String, to: MessageRef) -> (r: Reply)
    ensures
        r.msg == msg,
        r.kind == ReplyKind::Success,
        r.to == to,
{
    reply_inner(msg, ReplyKind::Success, to)
}

/// A reply reporting failure, addressed to `to`.
pub fn reply_err(msg: String, to: MessageRef) -> (r: Reply)
    ensures
        r.msg == msg,
        r.kind == ReplyKind::Failure,
        r.to == to,
{
    reply_inner(msg, ReplyKind::Failure, to)
}

/// A reply with the given text and outcome, addressed to `to`.
pub fn reply_inner(msg: String, kind: ReplyKind, to: MessageRef) -> (r: Reply)
    ensures
        r.msg == msg,
        r.kind == kind,
        r.to == to,
{
    Reply { msg, kind, to }
}

/// Hands a value on to a function.
pub trait Pipe: Sized {
    fn pipe<F: FnOnce(Self) -> R, R>(self, f: F) -> (r: R)
        requires
            f.requires((self,)),
        ensures
            f.ensures((self,), r),
    ;
}

impl<T> Pipe for T {
    fn pipe<F: FnOnce(Self) -> R, R>(self, f: F) -> (r: R) {
        f(self)
    }
}

/// Lets a function look at a value, then hands the value on unchanged.
pub trait Pass: Sized {
    fn pass<F: FnOnce(&Self) -> R, R>(self, f: F) -> (r: Self)
        requires
            f.requires((&self,)),
        ensures
            r == self,
    ;

    fn pass_mut<F: FnOnce(&Self) -> R, R>(self, f: F) -> (r: Self)
        requires
            f.requires((&self,)),
        ensures
            r == self,
    ;
}

impl<T> Pass for T {
    fn pass<F: FnOnce(&Self) -> R, R>(self, f: F) -> (r: Self) {
        let _ = f(&self);
        self
    }

    fn pass_mut<F: FnOnce(&Self) -> R, R>(self, f: F) -> (r: Self) {
        let _ = f(&self);
        self
    }
}

} // verus!
