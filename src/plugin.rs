//! Modules, their factories, and the objects that factories build.
//!
//! A loaded module is shared by reference count with every object built from
//! it, so it outlives them all. An object lives in a block allocated with the
//! factory's reported size at the platform's largest scalar alignment, since
//! its real alignment cannot be known before it exists. The object's
//! teardown runs exactly once, when its last handle goes, and the block is
//! released after it.
use vstd::prelude::*;

use std::rc::Rc;

use vstd::layout::valid_layout;
use vstd::string::{StrSliceExecFns, StringSliceAdditionalSpecFns};

use crate::dict::str_equal;
use crate::result::{
    os_error, os_error_of, raw_is_async, raw_is_err, raw_is_ok, SpaResult, ASYNC_BIT,
};
use crate::shared::share;

verus! {

#[verifier::external_type_specification]
#[verifier::external_body]
pub struct ExLibrary(libloading::Library);

#[verifier::external_type_specification]
#[verifier::external_body]
pub struct ExMaxAlignT(libc::max_align_t);

/// The error code by which an object reports that it lacks an interface
/// (`ENOTSUP` on Linux).
pub const ENOTSUP: i32 = 95;

/// The alignment of the platform's most aligned scalar type.
pub open spec fn spec_max_align() -> usize {
    vstd::layout::align_of::<libc::max_align_t>() as usize
}

/// The alignment that object blocks are allocated at: that of
/// `libc::max_align_t`, the most aligned scalar type, as `malloc` uses.
pub fn max_align() -> (r: usize)
    ensures
        r == spec_max_align(),
        valid_layout(0, r),
        r > 0,
{
    vstd::layout::layout_for_type_is_valid::<libc::max_align_t>();
    let r = core::mem::align_of::<libc::max_align_t>();
    proof {
        reveal(vstd::arithmetic::power2::is_pow2);
    }
    r
}

/// The size and alignment of an object block.
#[derive(Debug, Clone, Copy, PartialEq, Eq, Structural)]
pub struct ObjectLayout {
    pub size: usize,
    pub align: usize,
}

impl ObjectLayout {
    /// Whether an object of this layout takes memory. A zero-size object
    /// gets no block, and none is released when it goes.
    pub fn needs_block(&self) -> (r: bool)
        ensures
            r == (self.size != 0),
    {
        self.size != 0
    }

    /// The address that stands for the block of a zero-size object: the
    /// alignment itself, which is neither null nor misaligned.
    pub fn empty_block(&self) -> (r: usize)
        requires
            self.align > 0,
        ensures
            r == self.align,
            r != 0,
            r % self.align == 0,
    {
        self.align
    }
}

/// A factory that a module offers: its name, version, the size of the
/// objects it builds and the interfaces they expose.
#[derive(Debug)]
pub struct Factory {
    name: String,
    version: u32,
    size: u32,
    interfaces: Vec<String>,
}

impl Factory {
    pub closed spec fn spec_name(&self) -> Seq<char> {
        self.name@
    }

    pub closed spec fn spec_version(&self) -> u32 {
        self.version
    }

    pub closed spec fn spec_size(&self) -> u32 {
        self.size
    }

    pub closed spec fn spec_interfaces(&self) -> Seq<Seq<char>> {
        self.interfaces@.map_values(|s: String| s@)
    }

    /// The factory `name` at `version`, whose objects take `size` bytes and
    /// expose the interfaces `interfaces`.
    pub fn new(name: String, version: u32, size: u32, interfaces: Vec<String>) -> (r: Factory)
        ensures
            r.spec_name() == name@,
            r.spec_version() == version,
            r.spec_size() == size,
            r.spec_interfaces() == interfaces@.map_values(|s: String| s@),
    {
        Factory { name, version, size, interfaces }
    }

    pub fn version(&self) -> (r: u32)
        ensures
            r == self.spec_version(),
    {
        self.version
    }

    pub fn name(&self) -> (r: &str)
        ensures
            r@ == self.spec_name(),
    {
        self.name.as_str()
    }

    /// The names of the interfaces that the factory's objects expose.
    pub fn interfaces(&self) -> (r: &Vec<String>)
        ensures
            r@.map_values(|s: String| s@) == self.spec_interfaces(),
    {
        &self.interfaces
    }

    /// The size of the factory's objects.
    pub fn size(&self) -> (r: usize)
        ensures
            r == self.spec_size(),
    {
        self.size as usize
    }

    /// The block layout of the factory's objects: their size, at the
    /// largest scalar alignment.
    pub fn layout(&self) -> (r: ObjectLayout)
        ensures
            r.size == self.spec_size(),
            r.align == spec_max_align(),
            valid_layout(0, r.align),
            r.align > 0,
    {
        let align = max_align();
        let size = self.size();
        ObjectLayout { size, align }
    }
}

/// A loaded module and the factories it offers, in enumeration order.
pub struct Plugin {
    lib: Rc<libloading::Library>,
    factories: Vec<Factory>,
}

impl Plugin {
    /// The shared module.
    pub closed spec fn spec_lib(&self) -> libloading::Library {
        *self.lib
    }

    pub closed spec fn spec_factories(&self) -> Seq<&Factory> {
        self.factories@.map_values(|f: Factory| &f)
    }

    /// The module `lib`, which offers `factories`.
    pub fn new(lib: libloading::Library, factories: Vec<Factory>) -> (r: Plugin)
        ensures
            r.spec_lib() == lib,
            r.spec_factories() == factories@.map_values(|f: Factory| &f),
    {
        Plugin { lib: Rc::new(lib), factories }
    }

    /// The factories, in enumeration order.
    pub fn factories(&self) -> (r: &Vec<Factory>)
        ensures
            r@.map_values(|f: Factory| &f) == self.spec_factories(),
    {
        &self.factories
    }

    /// The first factory named `name`.
    pub fn factory(&self, name: &str) -> (r: Option<&Factory>)
        ensures
            r matches Some(f) ==> exists|j: int|
                0 <= j < self.spec_factories().len() && self.spec_factories()[j] == f
                    && f.spec_name() == name@ && forall|i: int|
                    0 <= i < j ==> (#[trigger] self.spec_factories()[i]).spec_name() != name@,
            r is None ==> forall|i: int|
                0 <= i < self.spec_factories().len() ==> (
                #[trigger] self.spec_factories()[i]).spec_name() != name@,
    {
        let mut i: usize = 0;
        while i < self.factories.len()
            invariant
                0 <= i <= self.factories@.len(),
                forall|k: int| 0 <= k < i ==> (#[trigger] self.factories@[k]).spec_name() != name@,
            decreases self.factories@.len() - i,
        {
            if str_equal(self.factories[i].name(), name) {
                assert(self.spec_factories()[i as int] == &self.factories@[i as int]);
                return Some(&self.factories[i]);
            }
            i = i + 1;
        }
        None
    }
}

/// The cursor of an enumeration that a native entry point drives: it hands
/// out the item at the cursor, advances the cursor, and returns 0 once no
/// item is left.
#[derive(Debug, Clone, Copy, PartialEq, Eq, Structural)]
pub struct EnumCursor {
    index: u32,
    done: bool,
}

/// The cursor over a module's factories.
pub type FactoryIter = EnumCursor;

/// The cursor over a factory's interfaces.
pub type InterfaceInfoIter = EnumCursor;

impl EnumCursor {
    pub closed spec fn spec_index(&self) -> u32 {
        self.index
    }

    pub closed spec fn spec_done(&self) -> bool {
        self.done
    }

    /// A cursor at the first item.
    pub fn new() -> (r: Self)
        ensures
            r.spec_index() == 0,
            !r.spec_done(),
    {
        EnumCursor { index: 0, done: false }
    }

    /// The cursor to hand to the entry point.
    pub fn index(&self) -> (r: u32)
        ensures
            r == self.spec_index(),
    {
        self.index
    }

    /// Whether the entry point signalled the end.
    pub fn is_done(&self) -> (r: bool)
        ensures
            r == self.spec_done(),
    {
        self.done
    }

    /// Takes in one call of the entry point: its return code `ret` and the
    /// cursor it wrote back. The only documented failure of enumeration is
    /// its end, so an error or an asynchronous result is a fault of the
    /// module that the caller must not pass on. The result says whether an
    /// item came out.
    pub fn next(&mut self, ret: i32, cursor: u32) -> (r: bool)
        requires
            0 <= ret,
            !raw_is_async(ret),
        ensures
            r == (ret != 0),
            final(self).spec_index() == cursor,
            final(self).spec_done() == (ret == 0),
    {
        let produced = match SpaResult::from_raw(ret).into_sync_result() {
            Ok(n) => n != 0,
            Err(_) => false,
        };
        self.index = cursor;
        self.done = !produced;
        produced
    }
}

/// The block an object lives in and the object's address.
#[derive(Debug)]
pub struct RawHandle {
    layout: ObjectLayout,
    address: usize,
}

impl RawHandle {
    pub closed spec fn spec_layout(&self) -> ObjectLayout {
        self.layout
    }

    pub closed spec fn spec_address(&self) -> usize {
        self.address
    }

    /// The layout the block was allocated with, to release it with.
    pub fn layout(&self) -> (r: ObjectLayout)
        ensures
            r == self.spec_layout(),
    {
        self.layout
    }

    pub fn address(&self) -> (r: usize)
        ensures
            r == self.spec_address(),
    {
        self.address
    }

    /// Ends the object, whose teardown entry point returned `ret`; its block
    /// is then to be released. Taking the handle by value makes the teardown
    /// happen once.
    pub fn clear(self, ret: i32) -> (r: std::io::Result<()>)
        requires
            !raw_is_async(ret),
            ret != i32::MIN,
        ensures
            ret >= 0 ==> r is Ok,
            ret < 0 ==> r == Err::<(), std::io::Error>(os_error_of(-ret as i32)),
    {
        match SpaResult::from_raw(ret).into_sync_result() {
            Ok(_) => Ok(()),
            Err(e) => Err(e),
        }
    }
}

/// A handle to an object built by a factory. It keeps the module alive.
pub struct Handle {
    lib: Rc<libloading::Library>,
    handle: Rc<RawHandle>,
}

impl Handle {
    /// The module the object comes from.
    pub closed spec fn spec_lib(&self) -> libloading::Library {
        *self.lib
    }

    /// The object's block and address.
    pub closed spec fn spec_raw(&self) -> &RawHandle {
        &*self.handle
    }

    /// The address of the object.
    pub fn address(&self) -> (r: usize)
        ensures
            r == self.spec_raw().spec_address(),
    {
        self.handle.address
    }

    /// Drops this handle. Where it was the last one, the object comes back
    /// to be torn down and its block released (see [`RawHandle::clear`]);
    /// otherwise another handle still holds it and nothing is to be done.
    pub fn clear(self) -> (r: Option<RawHandle>)
        ensures
            r matches Some(raw) ==> &raw == self.spec_raw(),
    {
        let Handle { lib: _, handle } = self;
        match Rc::try_unwrap(handle) {
            Ok(raw) => Some(raw),
            Err(_) => None,
        }
    }
}

/// Why an object could not be built.
#[derive(Debug)]
pub enum InitError {
    /// The init entry point failed with this OS error.
    Failed(std::io::Error),
    /// The init entry point answered asynchronously, with this sequence
    /// number; an object must be ready when init returns.
    Pending(i32),
}

impl Factory {
    /// Completes building an object of this factory in the zeroed block at
    /// `block`, allocated with [`Factory::layout`] (for a zero-size object,
    /// the address [`ObjectLayout::empty_block`] gives), for which the
    /// factory's init entry point returned `init_ret`. Only a synchronous
    /// success builds the object, and the handle then shares the module of
    /// `plugin`. Any other answer fails, and the block is to be released at
    /// once.
    pub fn instantiate(&self, plugin: &Plugin, block: usize, init_ret: i32) -> (r: Result<
        Handle,
        InitError,
    >)
        requires
            block != 0,
            block as int % spec_max_align() as int == 0,
            init_ret != i32::MIN,
        ensures
            raw_is_ok(init_ret) ==> (r matches Ok(h) && h.spec_lib() == plugin.spec_lib()
                && h.spec_raw().spec_address() == block && h.spec_raw().spec_address() as int
                % spec_max_align() as int == 0 && h.spec_raw().spec_layout().size
                == self.spec_size() && h.spec_raw().spec_layout().align == spec_max_align()),
            raw_is_async(init_ret) ==> (r matches Err(InitError::Pending(seq)) && seq == init_ret
                - ASYNC_BIT),
            raw_is_err(init_ret) ==> (r matches Err(InitError::Failed(e)) && e == os_error_of(
                -init_ret as i32,
            )),
    {
        let res = SpaResult::from_raw(init_ret);
        if res.is_async() {
            return Err(InitError::Pending(res.unwrap_async()));
        }
        if init_ret < 0 {
            return Err(InitError::Failed(os_error(-init_ret)));
        }
        let layout = self.layout();
        let raw = RawHandle { layout, address: block };
        Ok(Handle { lib: share(&plugin.lib), handle: Rc::new(raw) })
    }
}

/// A name that can cross to the native side as a C string: it holds no
/// nul character.
pub open spec fn is_c_name(name: Seq<char>) -> bool {
    forall|i: int| 0 <= i < name.len() ==> name[i] != '\0'
}

/// Whether `name` holds no nul character.
pub fn c_name_ok(name: &str) -> (r: bool)
    ensures
        r == is_c_name(name@),
{
    let n = name.unicode_len();
    let mut i: usize = 0;
    while i < n
        invariant
            n == name@.len(),
            0 <= i <= n,
            forall|k: int| 0 <= k < i ==> name@[k] != '\0',
        decreases n - i,
    {
        if name.get_char(i) == '\0' {
            return false;
        }
        i = i + 1;
    }
    true
}

/// A kind of interface that an object can expose: its name and the version
/// this library binds to.
pub trait Interface {
    spec fn spec_name() -> Seq<char>;

    spec fn spec_version() -> u32;

    fn name() -> (r: &'static str)
        ensures
            r@ == Self::spec_name(),
    ;

    fn version() -> (r: u32)
        ensures
            r == Self::spec_version(),
    ;
}

/// A typed view of an interface of an object, borrowed from its handle so
/// that it cannot outlive the object.
pub struct InterfaceView<'a, T> {
    handle: &'a Handle,
    address: usize,
    kind: std::marker::PhantomData<T>,
}

impl<'a, T> InterfaceView<'a, T> {
    pub closed spec fn spec_address(&self) -> usize {
        self.address
    }

    pub closed spec fn spec_handle(&self) -> &'a Handle {
        self.handle
    }

    /// The address of the interface inside the object.
    pub fn address(&self) -> (r: usize)
        ensures
            r == self.spec_address(),
    {
        self.address
    }
}

impl Handle {
    /// Completes a request for the interface `T`: the object's
    /// get-interface entry point returned `ret`, wrote the interface's
    /// address `iface` and the interface reports `found_version`. An object
    /// without the interface answers `-ENOTSUP`; any other error is a fault of
    /// the module that the caller must not pass on. A version other than the
    /// one `T` binds to gives no view either.
    pub fn interface<'a, T: Interface>(&'a mut self, ret: i32, iface: usize, found_version: u32) -> (r: Option<InterfaceView<'a, T>>)
        requires
            is_c_name(T::spec_name()),
            ret >= 0 || ret == -ENOTSUP,
            !raw_is_async(ret),
        ensures
            ret == -ENOTSUP ==> r is None,
            ret >= 0 && found_version != T::spec_version() ==> r is None,
            ret >= 0 && found_version == T::spec_version() ==> (r matches Some(v)
                && v.spec_address() == iface && v.spec_handle() == &*final(self)),
    {
        if SpaResult::from_raw(ret).is_err() {
            return None;
        }
        if found_version != T::version() {
            return None;
        }
        Some(InterfaceView { handle: self, address: iface, kind: std::marker::PhantomData })
    }
}

/// The logging interface of the support module.
pub struct Log;

/// The system call interface of the support module.
pub struct System;

/// The CPU information interface of the support module.
pub struct Cpu;

/// The event loop interface of the support module.
pub struct Loop;

impl Interface for Log {
    open spec fn spec_name() -> Seq<char> {
        "Spa:Pointer:Interface:Log"@
    }

    open spec fn spec_version() -> u32 {
        0
    }

    fn name() -> (r: &'static str) {
        "Spa:Pointer:Interface:Log"
    }

    fn version() -> (r: u32) {
        0
    }
}

impl Interface for System {
    open spec fn spec_name() -> Seq<char> {
        "Spa:Pointer:Interface:System"@
    }

    open spec fn spec_version() -> u32 {
        0
    }

    fn name() -> (r: &'static str) {
        "Spa:Pointer:Interface:System"
    }

    fn version() -> (r: u32) {
        0
    }
}

impl Interface for Cpu {
    open spec fn spec_name() -> Seq<char> {
        "Spa:Pointer:Interface:CPU"@
    }

    open spec fn spec_version() -> u32 {
        0
    }

    fn name() -> (r: &'static str) {
        "Spa:Pointer:Interface:CPU"
    }

    fn version() -> (r: u32) {
        0
    }
}

impl Interface for Loop {
    open spec fn spec_name() -> Seq<char> {
        "Spa:Pointer:Interface:Loop"@
    }

    open spec fn spec_version() -> u32 {
        0
    }

    fn name() -> (r: &'static str) {
        "Spa:Pointer:Interface:Loop"
    }

    fn version() -> (r: u32) {
        0
    }
}

/// How much the logging interface lets through, from nothing to
/// everything.
#[derive(Debug, Clone, Copy, PartialEq, Eq, Structural)]
pub enum LogLevel {
    Off,
    Error,
    Warn,
    Info,
    Debug,
    Trace,
}

/// The native code of a level: its rank, from 0 for `Off` to 5 for `Trace`.
pub open spec fn level_code(level: LogLevel) -> u32 {
    match level {
        LogLevel::Off => 0,
        LogLevel::Error => 1,
        LogLevel::Warn => 2,
        LogLevel::Info => 3,
        LogLevel::Debug => 4,
        LogLevel::Trace => 5,
    }
}

impl Log {
    /// The level that the native code `raw` stands for; codes past the last
    /// level let everything through.
    pub fn level(raw: u32) -> (r: LogLevel)
        ensures
            raw <= 5 ==> level_code(r) == raw,
            raw > 5 ==> r == LogLevel::Trace,
    {
        if raw == 0 {
            LogLevel::Off
        } else if raw == 1 {
            LogLevel::Error
        } else if raw == 2 {
            LogLevel::Warn
        } else if raw == 3 {
            LogLevel::Info
        } else if raw == 4 {
            LogLevel::Debug
        } else {
            LogLevel::Trace
        }
    }

    /// The native code of `level`.
    pub fn set_level(level: LogLevel) -> (r: u32)
        ensures
            r == level_code(level),
    {
        match level {
            LogLevel::Off => 0,
            LogLevel::Error => 1,
            LogLevel::Warn => 2,
            LogLevel::Info => 3,
            LogLevel::Debug => 4,
            LogLevel::Trace => 5,
        }
    }

    /// The bytes that the native log call takes for `msg`: the message, a
    /// line feed and a terminating nul. The native side prints up to the
    /// first nul, so an inner nul cuts the message short.
    pub fn message(msg: &str) -> (r: Vec<u8>)
        ensures
            r@ == msg.spec_bytes() + seq![10u8, 0u8],
    {
        let mut out = vstd::slice::slice_to_vec(msg.as_bytes());
        out.push(10);
        out.push(0);
        assert(out@ =~= msg.spec_bytes() + seq![10u8, 0u8]);
        out
    }
}

} // verus!
