//! Subscriptions to the events of native objects.
//!
//! A builder collects one handler per event category; registering it
//! synthesizes the native event table, with a slot populated exactly for
//! each category that has a handler, and links the subscription into the
//! list of the object it listens to. The list is an arena indexed by stable
//! handles: unlinking one subscription clears its own slot only, so every
//! other subscription stays linked and keeps receiving events. Delivering an
//! event reaches, in registration order, the handler of each linked
//! subscription whose table has that slot; a subscription without the slot
//! is skipped, never invoked.
use vstd::prelude::*;

verus! {

/// The event categories that native objects emit.
#[derive(Debug, Clone, Copy, PartialEq, Eq, Structural)]
pub enum Event {
    Info,
    Done,
    Error,
    Global,
    GlobalRemove,
    Param,
    Bound,
    Removed,
    Destroy,
}

/// The kinds of objects that take listeners; each has its own event table.
#[derive(Debug, Clone, Copy, PartialEq, Eq, Structural)]
pub enum ObjectKind {
    Core,
    Registry,
    Proxy,
    Node,
    Port,
    Link,
}

/// Whether the event table of `kind` has a slot for `ev`.
pub open spec fn kind_has(kind: ObjectKind, ev: Event) -> bool {
    match kind {
        ObjectKind::Core => ev == Event::Info || ev == Event::Done || ev == Event::Error,
        ObjectKind::Registry => ev == Event::Global || ev == Event::GlobalRemove,
        ObjectKind::Proxy => ev == Event::Destroy || ev == Event::Bound || ev == Event::Removed
            || ev == Event::Done || ev == Event::Error,
        ObjectKind::Node => ev == Event::Info || ev == Event::Param,
        ObjectKind::Port => ev == Event::Info || ev == Event::Param,
        ObjectKind::Link => ev == Event::Info,
    }
}

/// The table layout version that the native side expects for `kind`.
pub open spec fn table_version(kind: ObjectKind) -> u32 {
    match kind {
        ObjectKind::Core => VERSION_CORE_EVENTS,
        ObjectKind::Registry => VERSION_REGISTRY_EVENTS,
        ObjectKind::Proxy => VERSION_PROXY_EVENTS,
        ObjectKind::Node => VERSION_NODE_EVENTS,
        ObjectKind::Port => VERSION_PORT_EVENTS,
        ObjectKind::Link => VERSION_LINK_EVENTS,
    }
}

pub const VERSION_CORE_EVENTS: u32 = 0;

pub const VERSION_REGISTRY_EVENTS: u32 = 0;

pub const VERSION_PROXY_EVENTS: u32 = 0;

pub const VERSION_NODE_EVENTS: u32 = 0;

pub const VERSION_PORT_EVENTS: u32 = 0;

pub const VERSION_LINK_EVENTS: u32 = 0;

/// The version of the event table layout for `kind`.
pub fn events_version(kind: ObjectKind) -> (r: u32)
    ensures
        r == table_version(kind),
{
    match kind {
        ObjectKind::Core => VERSION_CORE_EVENTS,
        ObjectKind::Registry => VERSION_REGISTRY_EVENTS,
        ObjectKind::Proxy => VERSION_PROXY_EVENTS,
        ObjectKind::Node => VERSION_NODE_EVENTS,
        ObjectKind::Port => VERSION_PORT_EVENTS,
        ObjectKind::Link => VERSION_LINK_EVENTS,
    }
}

/// A native event table: its layout version and which slots hold an entry
/// point. An empty slot tells the native dispatcher to skip the category.
#[derive(Debug, Clone, Copy, PartialEq, Eq, Structural)]
pub struct EventTable {
    pub version: u32,
    pub info: bool,
    pub done: bool,
    pub error: bool,
    pub global: bool,
    pub global_remove: bool,
    pub param: bool,
    pub bound: bool,
    pub removed: bool,
    pub destroy: bool,
}

impl EventTable {
    /// Whether the slot of `ev` is populated.
    pub open spec fn has(self, ev: Event) -> bool {
        match ev {
            Event::Info => self.info,
            Event::Done => self.done,
            Event::Error => self.error,
            Event::Global => self.global,
            Event::GlobalRemove => self.global_remove,
            Event::Param => self.param,
            Event::Bound => self.bound,
            Event::Removed => self.removed,
            Event::Destroy => self.destroy,
        }
    }

    /// Whether the slot of `ev` is populated.
    pub fn slot(&self, ev: Event) -> (r: bool)
        ensures
            r == self.has(ev),
    {
        match ev {
            Event::Info => self.info,
            Event::Done => self.done,
            Event::Error => self.error,
            Event::Global => self.global,
            Event::GlobalRemove => self.global_remove,
            Event::Param => self.param,
            Event::Bound => self.bound,
            Event::Removed => self.removed,
            Event::Destroy => self.destroy,
        }
    }

    /// The number of populated slots.
    pub open spec fn populated(self) -> nat {
        (if self.info { 1nat } else { 0nat }) + (if self.done { 1nat } else { 0nat }) + (
        if self.error { 1nat } else { 0nat }) + (if self.global { 1nat } else { 0nat }) + (
        if self.global_remove { 1nat } else { 0nat }) + (if self.param { 1nat } else { 0nat })
            + (if self.bound { 1nat } else { 0nat }) + (if self.removed { 1nat } else { 0nat }) + (
        if self.destroy { 1nat } else { 0nat })
    }
}

/// One optional handler per event category.
pub struct Callbacks<H> {
    pub info: Option<H>,
    pub done: Option<H>,
    pub error: Option<H>,
    pub global: Option<H>,
    pub global_remove: Option<H>,
    pub param: Option<H>,
    pub bound: Option<H>,
    pub removed: Option<H>,
    pub destroy: Option<H>,
}

/// The handler that `cbs` holds for `ev`.
pub open spec fn handler_of<H>(cbs: Callbacks<H>, ev: Event) -> Option<H> {
    match ev {
        Event::Info => cbs.info,
        Event::Done => cbs.done,
        Event::Error => cbs.error,
        Event::Global => cbs.global,
        Event::GlobalRemove => cbs.global_remove,
        Event::Param => cbs.param,
        Event::Bound => cbs.bound,
        Event::Removed => cbs.removed,
        Event::Destroy => cbs.destroy,
    }
}

/// The event table of `cbs` on an object of `kind`.
pub open spec fn table_for<H>(cbs: Callbacks<H>, kind: ObjectKind) -> EventTable {
    EventTable {
        version: table_version(kind),
        info: cbs.info is Some,
        done: cbs.done is Some,
        error: cbs.error is Some,
        global: cbs.global is Some,
        global_remove: cbs.global_remove is Some,
        param: cbs.param is Some,
        bound: cbs.bound is Some,
        removed: cbs.removed is Some,
        destroy: cbs.destroy is Some,
    }
}

impl<H> Callbacks<H> {
    /// No handler at all.
    pub fn none() -> (r: Callbacks<H>)
        ensures
            forall|ev: Event| handler_of(r, ev) is None,
    {
        Callbacks {
            info: None,
            done: None,
            error: None,
            global: None,
            global_remove: None,
            param: None,
            bound: None,
            removed: None,
            destroy: None,
        }
    }

    /// The handler for `ev`, if one was supplied.
    pub fn handler(&self, ev: Event) -> (r: Option<&H>)
        ensures
            r matches Some(h) ==> handler_of(*self, ev) == Some(*h),
            r is None <==> handler_of(*self, ev) is None,
    {
        match ev {
            Event::Info => self.info.as_ref(),
            Event::Done => self.done.as_ref(),
            Event::Error => self.error.as_ref(),
            Event::Global => self.global.as_ref(),
            Event::GlobalRemove => self.global_remove.as_ref(),
            Event::Param => self.param.as_ref(),
            Event::Bound => self.bound.as_ref(),
            Event::Removed => self.removed.as_ref(),
            Event::Destroy => self.destroy.as_ref(),
        }
    }

    /// The event table for these handlers on an object of `kind`: a slot is
    /// populated exactly where a handler was supplied.
    pub fn table(&self, kind: ObjectKind) -> (r: EventTable)
        ensures
            r == table_for(*self, kind),
            r.version == table_version(kind),
            forall|ev: Event| r.has(ev) == (handler_of(*self, ev) is Some),
    {
        EventTable {
            version: events_version(kind),
            info: self.info.is_some(),
            done: self.done.is_some(),
            error: self.error.is_some(),
            global: self.global.is_some(),
            global_remove: self.global_remove.is_some(),
            param: self.param.is_some(),
            bound: self.bound.is_some(),
            removed: self.removed.is_some(),
            destroy: self.destroy.is_some(),
        }
    }
}

/// Collects the handlers of a subscription to an object of one kind.
pub struct ListenerLocalBuilder<H> {
    kind: ObjectKind,
    cbs: Callbacks<H>,
}

impl<H> ListenerLocalBuilder<H> {
    pub closed spec fn spec_kind(&self) -> ObjectKind {
        self.kind
    }

    pub closed spec fn spec_callbacks(&self) -> Callbacks<H> {
        self.cbs
    }

    /// A builder for a subscription to an object of `kind`, with no handler.
    pub fn new(kind: ObjectKind) -> (r: Self)
        ensures
            r.spec_kind() == kind,
            forall|ev: Event| handler_of(r.spec_callbacks(), ev) is None,
    {
        ListenerLocalBuilder { kind, cbs: Callbacks::none() }
    }

    /// The kind of object the subscription is for.
    pub fn kind(&self) -> (r: ObjectKind)
        ensures
            r == self.spec_kind(),
    {
        self.kind
    }

    /// Supplies the handler of `ev`, replacing any earlier one.
    pub fn on(self, ev: Event, h: H) -> (r: Self)
        requires
            kind_has(self.spec_kind(), ev),
        ensures
            r.spec_kind() == self.spec_kind(),
            handler_of(r.spec_callbacks(), ev) == Some(h),
            forall|e: Event|
                e != ev ==> handler_of(r.spec_callbacks(), e) == handler_of(
                    self.spec_callbacks(),
                    e,
                ),
    {
        let ListenerLocalBuilder { kind, cbs } = self;
        let Callbacks {
            info,
            done,
            error,
            global,
            global_remove,
            param,
            bound,
            removed,
            destroy,
        } = cbs;
        let cbs = match ev {
            Event::Info => Callbacks {
                info: Some(h),
                done,
                error,
                global,
                global_remove,
                param,
                bound,
                removed,
                destroy,
            },
            Event::Done => Callbacks {
                info,
                done: Some(h),
                error,
                global,
                global_remove,
                param,
                bound,
                removed,
                destroy,
            },
            Event::Error => Callbacks {
                info,
                done,
                error: Some(h),
                global,
                global_remove,
                param,
                bound,
                removed,
                destroy,
            },
            Event::Global => Callbacks {
                info,
                done,
                error,
                global: Some(h),
                global_remove,
                param,
                bound,
                removed,
                destroy,
            },
            Event::GlobalRemove => Callbacks {
                info,
                done,
                error,
                global,
                global_remove: Some(h),
                param,
                bound,
                removed,
                destroy,
            },
            Event::Param => Callbacks {
                info,
                done,
                error,
                global,
                global_remove,
                param: Some(h),
                bound,
                removed,
                destroy,
            },
            Event::Bound => Callbacks {
                info,
                done,
                error,
                global,
                global_remove,
                param,
                bound: Some(h),
                removed,
                destroy,
            },
            Event::Removed => Callbacks {
                info,
                done,
                error,
                global,
                global_remove,
                param,
                bound,
                removed: Some(h),
                destroy,
            },
            Event::Destroy => Callbacks {
                info,
                done,
                error,
                global,
                global_remove,
                param,
                bound,
                removed,
                destroy: Some(h),
            },
        };
        ListenerLocalBuilder { kind, cbs }
    }
}

impl<H> ListenerLocalBuilder<H> {
    pub fn info(self, h: H) -> (r: Self)
        requires
            kind_has(self.spec_kind(), Event::Info),
        ensures
            r.spec_kind() == self.spec_kind(),
            handler_of(r.spec_callbacks(), Event::Info) == Some(h),
            forall|e: Event|
                e != Event::Info ==> handler_of(r.spec_callbacks(), e) == handler_of(
                    self.spec_callbacks(),
                    e,
                ),
    {
        self.on(Event::Info, h)
    }

    pub fn done(self, h: H) -> (r: Self)
        requires
            kind_has(self.spec_kind(), Event::Done),
        ensures
            r.spec_kind() == self.spec_kind(),
            handler_of(r.spec_callbacks(), Event::Done) == Some(h),
            forall|e: Event|
                e != Event::Done ==> handler_of(r.spec_callbacks(), e) == handler_of(
                    self.spec_callbacks(),
                    e,
                ),
    {
        self.on(Event::Done, h)
    }

    pub fn error(self, h: H) -> (r: Self)
        requires
            kind_has(self.spec_kind(), Event::Error),
        ensures
            r.spec_kind() == self.spec_kind(),
            handler_of(r.spec_callbacks(), Event::Error) == Some(h),
            forall|e: Event|
                e != Event::Error ==> handler_of(r.spec_callbacks(), e) == handler_of(
                    self.spec_callbacks(),
                    e,
                ),
    {
        self.on(Event::Error, h)
    }

    pub fn global(self, h: H) -> (r: Self)
        requires
            kind_has(self.spec_kind(), Event::Global),
        ensures
            r.spec_kind() == self.spec_kind(),
            handler_of(r.spec_callbacks(), Event::Global) == Some(h),
            forall|e: Event|
                e != Event::Global ==> handler_of(r.spec_callbacks(), e) == handler_of(
                    self.spec_callbacks(),
                    e,
                ),
    {
        self.on(Event::Global, h)
    }

    pub fn global_remove(self, h: H) -> (r: Self)
        requires
            kind_has(self.spec_kind(), Event::GlobalRemove),
        ensures
            r.spec_kind() == self.spec_kind(),
            handler_of(r.spec_callbacks(), Event::GlobalRemove) == Some(h),
            forall|e: Event|
                e != Event::GlobalRemove ==> handler_of(r.spec_callbacks(), e) == handler_of(
                    self.spec_callbacks(),
                    e,
                ),
    {
        self.on(Event::GlobalRemove, h)
    }

    pub fn param(self, h: H) -> (r: Self)
        requires
            kind_has(self.spec_kind(), Event::Param),
        ensures
            r.spec_kind() == self.spec_kind(),
            handler_of(r.spec_callbacks(), Event::Param) == Some(h),
            forall|e: Event|
                e != Event::Param ==> handler_of(r.spec_callbacks(), e) == handler_of(
                    self.spec_callbacks(),
                    e,
                ),
    {
        self.on(Event::Param, h)
    }

    pub fn bound(self, h: H) -> (r: Self)
        requires
            kind_has(self.spec_kind(), Event::Bound),
        ensures
            r.spec_kind() == self.spec_kind(),
            handler_of(r.spec_callbacks(), Event::Bound) == Some(h),
            forall|e: Event|
                e != Event::Bound ==> handler_of(r.spec_callbacks(), e) == handler_of(
                    self.spec_callbacks(),
                    e,
                ),
    {
        self.on(Event::Bound, h)
    }

    pub fn removed(self, h: H) -> (r: Self)
        requires
            kind_has(self.spec_kind(), Event::Removed),
        ensures
            r.spec_kind() == self.spec_kind(),
            handler_of(r.spec_callbacks(), Event::Removed) == Some(h),
            forall|e: Event|
                e != Event::Removed ==> handler_of(r.spec_callbacks(), e) == handler_of(
                    self.spec_callbacks(),
                    e,
                ),
    {
        self.on(Event::Removed, h)
    }

    pub fn destroy(self, h: H) -> (r: Self)
        requires
            kind_has(self.spec_kind(), Event::Destroy),
        ensures
            r.spec_kind() == self.spec_kind(),
            handler_of(r.spec_callbacks(), Event::Destroy) == Some(h),
            forall|e: Event|
                e != Event::Destroy ==> handler_of(r.spec_callbacks(), e) == handler_of(
                    self.spec_callbacks(),
                    e,
                ),
    {
        self.on(Event::Destroy, h)
    }
}

/// A registered subscription: the native table, the handlers behind it, and
/// whether the native side attached a "removed" finalizer to its node.
pub struct Listener<H> {
    pub table: EventTable,
    pub callbacks: Callbacks<H>,
    pub finalizer: bool,
}

/// A stable handle to a subscription in a list.
#[derive(Debug, Clone, Copy, PartialEq, Eq, Structural)]
pub struct ListenerId {
    index: usize,
}

impl ListenerId {
    pub closed spec fn spec_index(self) -> int {
        self.index as int
    }
}

/// The handler that the entry `e` of a list runs for `ev`: one exists only
/// where the entry is linked and its table has the slot.
pub open spec fn entry_handler<H>(e: Option<Listener<H>>, ev: Event) -> Option<H> {
    match e {
        Some(l) => if l.table.has(ev) {
            handler_of(l.callbacks, ev)
        } else {
            None
        },
        None => None,
    }
}

/// The handlers that an event `ev` reaches, in registration order.
pub open spec fn dispatch_targets<H>(entries: Seq<Option<Listener<H>>>, ev: Event) -> Seq<H>
    decreases entries.len(),
{
    if entries.len() == 0 {
        seq![]
    } else {
        let rest = dispatch_targets(entries.drop_last(), ev);
        match entry_handler(entries.last(), ev) {
            Some(h) => rest.push(h),
            None => rest,
        }
    }
}

/// A well-formed subscription on an object of `kind`: its table fits the
/// kind and has a slot exactly where a handler was supplied.
pub open spec fn listener_wf<H>(l: Listener<H>, kind: ObjectKind) -> bool {
    &&& l.table == table_for(l.callbacks, kind)
    &&& forall|ev: Event| handler_of(l.callbacks, ev) is Some ==> kind_has(kind, ev)
}

/// The subscriptions of one object, in registration order. An unlinked
/// subscription leaves an empty entry, so handles stay valid.
pub struct ListenerList<H> {
    kind: ObjectKind,
    entries: Vec<Option<Listener<H>>>,
}

impl<H> ListenerList<H> {
    pub closed spec fn spec_kind(&self) -> ObjectKind {
        self.kind
    }

    /// The entries: a linked subscription, or nothing where one was
    /// unlinked.
    pub closed spec fn spec_entries(&self) -> Seq<Option<Listener<H>>> {
        self.entries@
    }

    pub open spec fn wf(&self) -> bool {
        forall|i: int|
            0 <= i < self.spec_entries().len() && (#[trigger] self.spec_entries()[i]) is Some
                ==> listener_wf(self.spec_entries()[i]->0, self.spec_kind())
    }

    /// Whether `id` names a linked subscription.
    pub open spec fn spec_linked(&self, id: ListenerId) -> bool {
        0 <= id.spec_index() < self.spec_entries().len() && self.spec_entries()[id.spec_index()] is Some
    }

    /// An empty list for an object of `kind`.
    pub fn new(kind: ObjectKind) -> (r: Self)
        ensures
            r.wf(),
            r.spec_kind() == kind,
            r.spec_entries() == Seq::<Option<Listener<H>>>::empty(),
    {
        ListenerList { kind, entries: Vec::new() }
    }

    pub fn kind(&self) -> (r: ObjectKind)
        ensures
            r == self.spec_kind(),
    {
        self.kind
    }

    /// The number of entries, linked or not.
    pub fn len(&self) -> (r: usize)
        ensures
            r == self.spec_entries().len(),
    {
        self.entries.len()
    }

    pub fn is_linked(&self, id: ListenerId) -> (r: bool)
        ensures
            r == self.spec_linked(id),
    {
        id.index < self.entries.len() && self.entries[id.index].is_some()
    }

    /// Takes the entry at `index` out, leaving an empty one.
    fn take_entry(&mut self, index: usize) -> (r: Option<Listener<H>>)
        requires
            index < old(self).entries@.len(),
        ensures
            final(self).kind == old(self).kind,
            r == old(self).entries@[index as int],
            final(self).entries@ == old(self).entries@.update(index as int, None),
    {
        self.entries.push(None);
        let r = self.entries.swap_remove(index);
        assert(self.entries@ =~= old(self).entries@.update(index as int, None));
        r
    }

    /// The native side attached a "removed" finalizer to the node of `id`;
    /// unlinking it must run that finalizer.
    pub fn mark_removed(&mut self, id: ListenerId)
        requires
            old(self).wf(),
        ensures
            final(self).wf(),
            final(self).spec_kind() == old(self).spec_kind(),
            final(self).spec_entries().len() == old(self).spec_entries().len(),
            forall|i: int|
                0 <= i < old(self).spec_entries().len() && i != id.spec_index() ==> (
                #[trigger] final(self).spec_entries()[i]) == old(self).spec_entries()[i],
            old(self).spec_linked(id) ==> final(self).spec_entries()[id.spec_index()] == Some(
                Listener {
                    finalizer: true,
                    ..old(self).spec_entries()[id.spec_index()]->0
                },
            ),
            !old(self).spec_linked(id) ==> final(self).spec_entries() == old(self).spec_entries(),
    {
        if id.index < self.entries.len() {
            let e = self.take_entry(id.index);
            match e {
                Some(l) => {
                    let Listener { table, callbacks, finalizer: _ } = l;
                    self.entries.set(id.index, Some(Listener { table, callbacks, finalizer: true }));
                },
                None => {},
            }
            assert(forall|i: int| 0 <= i < self.entries@.len() && i != id.index ==> self.entries@[i] == old(self).entries@[i]);
        }
        proof {
            if !old(self).spec_linked(id) {
                assert(self.entries@ =~= old(self).entries@);
            }
        }
    }
}

impl<H> ListenerLocalBuilder<H> {
    /// Registers the subscription on the list of its object: synthesizes the
    /// event table and links the subscription after all earlier ones.
    pub fn register(self, list: &mut ListenerList<H>) -> (id: ListenerId)
        requires
            old(list).wf(),
            old(list).spec_kind() == self.spec_kind(),
            forall|ev: Event|
                handler_of(self.spec_callbacks(), ev) is Some ==> kind_has(self.spec_kind(), ev),
        ensures
            final(list).wf(),
            final(list).spec_kind() == old(list).spec_kind(),
            id.spec_index() == old(list).spec_entries().len(),
            final(list).spec_entries() == old(list).spec_entries().push(
                Some(
                    Listener {
                        table: table_for(self.spec_callbacks(), self.spec_kind()),
                        callbacks: self.spec_callbacks(),
                        finalizer: false,
                    },
                ),
            ),
    {
        let ListenerLocalBuilder { kind, cbs } = self;
        let table = cbs.table(kind);
        let index = list.entries.len();
        list.entries.push(Some(Listener { table, callbacks: cbs, finalizer: false }));
        proof {
            assert forall|i: int|
                0 <= i < list.spec_entries().len() && (#[trigger] list.spec_entries()[i]) is Some
                    implies listener_wf(list.spec_entries()[i]->0, list.spec_kind()) by {
                if i < index {
                    assert(list.spec_entries()[i] == old(list).spec_entries()[i]);
                }
            }
        }
        ListenerId { index }
    }
}

impl<H> ListenerList<H> {
    /// Unlinks the subscription `id` and hands it back, so that its
    /// finalizer, if marked, runs before its memory goes. Every other entry
    /// stays as it was.
    pub fn unregister(&mut self, id: ListenerId) -> (r: Option<Listener<H>>)
        requires
            old(self).wf(),
        ensures
            final(self).wf(),
            final(self).spec_kind() == old(self).spec_kind(),
            old(self).spec_linked(id) ==> r == old(self).spec_entries()[id.spec_index()]
                && final(self).spec_entries() == old(self).spec_entries().update(
                id.spec_index(),
                None,
            ),
            !old(self).spec_linked(id) ==> r is None && final(self).spec_entries() == old(
                self,
            ).spec_entries(),
    {
        if id.index < self.entries.len() {
            let r = self.take_entry(id.index);
            proof {
                if r is None {
                    assert(self.entries@ =~= old(self).entries@);
                }
            }
            r
        } else {
            None
        }
    }

    /// The event table of subscription `id`, to install on the native side.
    pub fn table(&self, id: ListenerId) -> (r: Option<EventTable>)
        ensures
            self.spec_linked(id) ==> r == Some(
                self.spec_entries()[id.spec_index()]->0.table,
            ),
            !self.spec_linked(id) ==> r is None,
    {
        if id.index >= self.entries.len() {
            return None;
        }
        match &self.entries[id.index] {
            Some(l) => Some(l.table),
            None => None,
        }
    }

    /// The handler that subscription `id` runs for `ev`: the lookup behind
    /// the native entry point of that slot. There is none where the
    /// subscription is unlinked or its table leaves the slot empty.
    pub fn handler(&self, id: ListenerId, ev: Event) -> (r: Option<&H>)
        ensures
            r matches Some(h) ==> self.spec_linked(id) && entry_handler(
                self.spec_entries()[id.spec_index()],
                ev,
            ) == Some(*h),
            r is None <==> !self.spec_linked(id) || entry_handler(
                self.spec_entries()[id.spec_index()],
                ev,
            ) is None,
    {
        if id.index >= self.entries.len() {
            return None;
        }
        match &self.entries[id.index] {
            Some(l) => {
                if l.table.slot(ev) {
                    l.callbacks.handler(ev)
                } else {
                    None
                }
            },
            None => None,
        }
    }

    /// The handlers that delivering `ev` reaches, in registration order.
    pub fn dispatch(&self, ev: Event) -> (r: Vec<&H>)
        ensures
            r@.map_values(|h: &H| *h) == dispatch_targets(self.spec_entries(), ev),
    {
        let mut out: Vec<&H> = Vec::new();
        let mut i: usize = 0;
        while i < self.entries.len()
            invariant
                0 <= i <= self.entries@.len(),
                out@.map_values(|h: &H| *h) == dispatch_targets(
                    self.spec_entries().take(i as int),
                    ev,
                ),
            decreases self.entries@.len() - i,
        {
            proof {
                assert(self.spec_entries().take(i + 1).drop_last() =~= self.spec_entries().take(
                    i as int,
                ));
            }
            let found = match &self.entries[i] {
                Some(l) => {
                    if l.table.slot(ev) {
                        l.callbacks.handler(ev)
                    } else {
                        None
                    }
                },
                None => None,
            };
            match found {
                Some(h) => {
                    out.push(h);
                },
                None => {},
            }
            assert(out@.map_values(|h: &H| *h) =~= dispatch_targets(
                self.spec_entries().take(i + 1),
                ev,
            ));
            i = i + 1;
        }
        assert(self.spec_entries().take(self.entries@.len() as int) =~= self.spec_entries());
        out
    }
}

/// Unlinking one subscription leaves every other entry as it was, so each
/// other subscription keeps the handlers that events reach; the unlinked one
/// is reached by no event.
pub proof fn lemma_unlink_keeps_others<H>(
    entries: Seq<Option<Listener<H>>>,
    i: int,
    j: int,
    ev: Event,
)
    requires
        0 <= i < entries.len(),
        0 <= j < entries.len(),
        i != j,
    ensures
        entries.update(i, None)[j] == entries[j],
        entry_handler(entries.update(i, None)[j], ev) == entry_handler(entries[j], ev),
        entry_handler(entries.update(i, None)[i], ev) is None,
{
}

/// A subscription built with a handler for one category only gets a table
/// with exactly that one slot populated: every other category is skipped by
/// the native dispatcher.
pub proof fn lemma_single_handler_single_slot<H>(cbs: Callbacks<H>, kind: ObjectKind, only: Event)
    requires
        forall|ev: Event| (handler_of(cbs, ev) is Some) == (ev == only),
    ensures
        table_for(cbs, kind).populated() == 1,
        table_for(cbs, kind).has(only),
        forall|ev: Event| ev != only ==> !table_for(cbs, kind).has(ev),
{
    assert(handler_of(cbs, Event::Info) is Some == (Event::Info == only));
    assert(handler_of(cbs, Event::Done) is Some == (Event::Done == only));
    assert(handler_of(cbs, Event::Error) is Some == (Event::Error == only));
    assert(handler_of(cbs, Event::Global) is Some == (Event::Global == only));
    assert(handler_of(cbs, Event::GlobalRemove) is Some == (Event::GlobalRemove == only));
    assert(handler_of(cbs, Event::Param) is Some == (Event::Param == only));
    assert(handler_of(cbs, Event::Bound) is Some == (Event::Bound == only));
    assert(handler_of(cbs, Event::Removed) is Some == (Event::Removed == only));
    assert(handler_of(cbs, Event::Destroy) is Some == (Event::Destroy == only));
}

/// In a well-formed list, an event reaches a subscription exactly where a
/// handler for it was supplied: a category with no handler is never
/// dispatched to that subscription.
pub proof fn lemma_dispatch_only_supplied<H>(list: ListenerList<H>, id: ListenerId, ev: Event)
    requires
        list.wf(),
        list.spec_linked(id),
    ensures
        entry_handler(list.spec_entries()[id.spec_index()], ev) == handler_of(
            list.spec_entries()[id.spec_index()]->0.callbacks,
            ev,
        ),
{
    let l = list.spec_entries()[id.spec_index()]->0;
    assert(listener_wf(l, list.spec_kind()));
    assert(l.table.has(ev) == (handler_of(l.callbacks, ev) is Some));
}

} // verus!
