//! The main loop that drives native event delivery, shared by reference
//! count, with weak handles that do not keep it alive.
use vstd::prelude::*;

use std::rc::{Rc, Weak};

use crate::shared::share;
use crate::types::Error;

verus! {

/// The loop that a weak handle refers to.
pub uninterp spec fn weak_target(w: WeakMainLoop) -> MainLoopInner;

/// Relies on `Rc::downgrade`: the weak handle refers to the value of the
/// `Rc`.
#[verifier::external_body]
fn downgrade_loop(rc: &Rc<MainLoopInner>) -> (r: WeakMainLoop)
    ensures
        weak_target(r) == **rc,
{
    WeakMainLoop { weak: Rc::downgrade(rc) }
}

/// Relies on `Weak::upgrade`: it yields a strong reference to the value the
/// handle refers to, or nothing once that value is gone.
#[verifier::external_body]
fn upgrade_loop(w: &WeakMainLoop) -> (r: Option<Rc<MainLoopInner>>)
    ensures
        r matches Some(rc) ==> *rc == weak_target(*w),
{
    w.weak.upgrade()
}

/// A native main loop, by the address the native side gave it.
#[derive(Debug)]
pub struct MainLoopInner {
    raw: usize,
}

impl MainLoopInner {
    /// The native address of the loop.
    pub closed spec fn spec_raw(&self) -> usize {
        self.raw
    }

    /// Takes over the loop that the native constructor returned at `raw`;
    /// zero means that it failed.
    pub fn new(raw: usize) -> (r: Result<Self, Error>)
        ensures
            raw == 0 ==> r == Err::<Self, Error>(Error::CreationFailed),
            raw != 0 ==> (r matches Ok(l) && l.spec_raw() == raw),
    {
        if raw == 0 {
            Err(Error::CreationFailed)
        } else {
            Ok(MainLoopInner { raw })
        }
    }

    /// The native address, to run or quit the loop with.
    pub fn as_raw(&self) -> (r: usize)
        ensures
            r == self.spec_raw(),
    {
        self.raw
    }
}

/// A shared handle to the main loop.
#[derive(Debug)]
pub struct MainLoop {
    inner: Rc<MainLoopInner>,
}

impl MainLoop {
    /// The loop behind the handle.
    pub closed spec fn spec_inner(&self) -> MainLoopInner {
        *self.inner
    }

    /// A handle to the loop that the native constructor returned at `raw`;
    /// zero means that it failed.
    pub fn new(raw: usize) -> (r: Result<Self, Error>)
        ensures
            raw == 0 ==> r == Err::<Self, Error>(Error::CreationFailed),
            raw != 0 ==> (r matches Ok(l) && l.spec_inner().spec_raw() == raw),
    {
        let inner = MainLoopInner::new(raw)?;
        Ok(MainLoop { inner: Rc::new(inner) })
    }

    /// A weak handle to the same loop.
    pub fn downgrade(&self) -> (r: WeakMainLoop)
        ensures
            r.spec_target() == self.spec_inner(),
    {
        downgrade_loop(&self.inner)
    }

    /// The loop itself.
    pub fn inner(&self) -> (r: &MainLoopInner)
        ensures
            *r == self.spec_inner(),
    {
        &self.inner
    }
}

impl Clone for MainLoop {
    fn clone(&self) -> (r: Self)
        ensures
            r.spec_inner() == self.spec_inner(),
    {
        MainLoop { inner: share(&self.inner) }
    }
}

/// A handle to the main loop that does not keep it alive. It is opaque:
/// all that is known of it is the loop it refers to, and only downgrading a
/// shared handle makes one and upgrading reads one.
#[verifier::external_body]
pub struct WeakMainLoop {
    weak: Weak<MainLoopInner>,
}

impl WeakMainLoop {
    /// The loop this handle refers to.
    pub open spec fn spec_target(&self) -> MainLoopInner {
        weak_target(*self)
    }

    /// A shared handle to the loop, if it is still alive.
    pub fn upgrade(&self) -> (r: Option<MainLoop>)
        ensures
            r matches Some(m) ==> m.spec_inner() == self.spec_target(),
    {
        match upgrade_loop(self) {
            Some(inner) => Some(MainLoop { inner }),
            None => None,
        }
    }
}

} // verus!
