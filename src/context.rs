//! The context that connects to the remote side, and the core object that a
//! connection yields.
use vstd::prelude::*;

use crate::listener::{handler_of, Event, ListenerLocalBuilder, ObjectKind};
use crate::main_loop::MainLoop;
use crate::types::Error;

verus! {

/// The id of the core object on every connection.
pub const ID_CORE: u32 = 0;

/// A native context bound to a main loop, by the address the native side
/// gave it.
pub struct Context {
    raw: usize,
    main_loop: MainLoop,
}

impl Context {
    pub closed spec fn spec_raw(&self) -> usize {
        self.raw
    }

    pub closed spec fn spec_loop(&self) -> &MainLoop {
        &self.main_loop
    }

    /// Takes over the context that the native constructor returned at `raw`
    /// for `main_loop`; zero means that it failed. The context keeps the loop
    /// alive.
    pub fn new(main_loop: &MainLoop, raw: usize) -> (r: Result<Context, Error>)
        ensures
            raw == 0 ==> r matches Err(Error::CreationFailed),
            raw != 0 ==> (r matches Ok(c) && c.spec_raw() == raw && c.spec_loop().spec_inner()
                == main_loop.spec_inner()),
    {
        if raw == 0 {
            Err(Error::CreationFailed)
        } else {
            Ok(Context { raw, main_loop: main_loop.clone() })
        }
    }

    /// The native address, to connect with.
    pub fn as_raw(&self) -> (r: usize)
        ensures
            r == self.spec_raw(),
    {
        self.raw
    }

    /// Takes over the core that the native connect call returned at `raw`;
    /// zero means that it failed.
    pub fn connect(&self, raw: usize) -> (r: Result<Core, Error>)
        ensures
            raw == 0 ==> r matches Err(Error::CreationFailed),
            raw != 0 ==> (r matches Ok(c) && c.spec_raw() == raw),
    {
        if raw == 0 {
            Err(Error::CreationFailed)
        } else {
            Ok(Core { raw })
        }
    }
}

/// The core object of a connection.
#[derive(Debug)]
pub struct Core {
    raw: usize,
}

impl Core {
    pub closed spec fn spec_raw(&self) -> usize {
        self.raw
    }

    /// The native address, for its method calls.
    pub fn as_raw(&self) -> (r: usize)
        ensures
            r == self.spec_raw(),
    {
        self.raw
    }

    /// A builder for a subscription to the core's events.
    pub fn add_listener_local<H>(&self) -> (r: ListenerLocalBuilder<H>)
        ensures
            r.spec_kind() == ObjectKind::Core,
            forall|ev: Event| handler_of(r.spec_callbacks(), ev) is None,
    {
        ListenerLocalBuilder::new(ObjectKind::Core)
    }
}

} // verus!
