use std::cell::RefCell;
use pipewire_core::listener::{Event, ListenerList, ListenerLocalBuilder, ObjectKind};

#[test]
fn info_only_table_has_one_slot_and_skips_done() {
    let mut list: ListenerList<&str> = ListenerList::new(ObjectKind::Core);
    let id = ListenerLocalBuilder::new(ObjectKind::Core).info("info handler").register(&mut list);

    let entry = list.unregister(id).unwrap();
    let t = entry.table;
    let populated = [t.info, t.done, t.error, t.global, t.global_remove, t.param, t.bound, t.removed, t.destroy]
        .iter()
        .filter(|b| **b)
        .count();
    assert_eq!(1, populated);
    assert!(t.info);
    assert!(!t.done);
    assert_eq!(0, t.version);

    let mut list: ListenerList<&str> = ListenerList::new(ObjectKind::Core);
    let id = ListenerLocalBuilder::new(ObjectKind::Core).info("info handler").register(&mut list);
    assert_eq!(None, list.handler(id, Event::Done));
    assert!(list.dispatch(Event::Done).is_empty());
    assert_eq!(Some(&"info handler"), list.handler(id, Event::Info));
    assert_eq!(vec![&"info handler"], list.dispatch(Event::Info));
}

#[test]
fn dispatch_runs_closures_in_registration_order() {
    let log: RefCell<Vec<(&str, u32)>> = RefCell::new(Vec::new());
    let mut list: ListenerList<Box<dyn Fn(u32) + '_>> = ListenerList::new(ObjectKind::Registry);
    ListenerLocalBuilder::new(ObjectKind::Registry)
        .global(Box::new(|id: u32| log.borrow_mut().push(("first", id))) as Box<dyn Fn(u32)>)
        .register(&mut list);
    ListenerLocalBuilder::new(ObjectKind::Registry)
        .global_remove(Box::new(|id: u32| log.borrow_mut().push(("remove", id))) as Box<dyn Fn(u32)>)
        .register(&mut list);
    ListenerLocalBuilder::new(ObjectKind::Registry)
        .global(Box::new(|id: u32| log.borrow_mut().push(("second", id))) as Box<dyn Fn(u32)>)
        .register(&mut list);
    for h in list.dispatch(Event::Global) {
        h(7);
    }
    assert_eq!(vec![("first", 7), ("second", 7)], *log.borrow());
}

#[test]
fn unregister_keeps_neighbour_linked() {
    let mut list: ListenerList<u32> = ListenerList::new(ObjectKind::Proxy);
    let a = ListenerLocalBuilder::new(ObjectKind::Proxy).done(1).error(10).register(&mut list);
    let b = ListenerLocalBuilder::new(ObjectKind::Proxy).done(2).register(&mut list);
    let c = ListenerLocalBuilder::new(ObjectKind::Proxy).done(3).register(&mut list);

    assert!(list.unregister(b).is_some());
    assert!(!list.is_linked(b));
    assert!(list.is_linked(a));
    assert!(list.is_linked(c));
    assert_eq!(vec![&1, &3], list.dispatch(Event::Done));
    assert_eq!(Some(&3), list.handler(c, Event::Done));
    assert_eq!(None, list.handler(b, Event::Done));
    assert_eq!(3, list.len());

    // Unlinking twice is harmless.
    assert!(list.unregister(b).is_none());
    assert_eq!(vec![&1, &3], list.dispatch(Event::Done));
}

#[test]
fn removed_finalizer_is_reported_on_unlink() {
    let mut list: ListenerList<u32> = ListenerList::new(ObjectKind::Node);
    let a = ListenerLocalBuilder::new(ObjectKind::Node).param(5).register(&mut list);
    let b = ListenerLocalBuilder::new(ObjectKind::Node).info(6).register(&mut list);
    list.mark_removed(a);
    let ea = list.unregister(a).unwrap();
    assert!(ea.finalizer);
    let eb = list.unregister(b).unwrap();
    assert!(!eb.finalizer);
    assert!(eb.table.info);
    assert!(!eb.table.param);
}

#[test]
fn later_handler_replaces_earlier_one() {
    let mut list: ListenerList<u32> = ListenerList::new(ObjectKind::Link);
    let id = ListenerLocalBuilder::new(ObjectKind::Link).info(1).info(2).register(&mut list);
    assert_eq!(Some(&2), list.handler(id, Event::Info));
    assert_eq!(ObjectKind::Link, list.kind());
}
