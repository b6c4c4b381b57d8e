use pipewire_core::plugin::{c_name_ok, max_align, Cpu, EnumCursor, Factory, Interface, Log, LogLevel, Loop, Plugin, System, ENOTSUP, InitError};
use pipewire_core::main_loop::MainLoop;
use pipewire_core::types::Error;

#[test]
fn zero_size_layout_is_aligned_and_teardown_succeeds() {
    let f = Factory::new("support.null".to_string(), 1, 0, Vec::new());
    let l = f.layout();
    assert_eq!(0, l.size);
    assert_eq!(std::mem::align_of::<libc::max_align_t>(), l.align);
    assert!(l.align.is_power_of_two());
    assert!(std::alloc::Layout::from_size_align(l.size, l.align).is_ok());
}

#[test]
fn layout_uses_reported_size() {
    let f = Factory::new("support.log".to_string(), 0, 120, vec!["Spa:Pointer:Interface:Log".to_string()]);
    assert_eq!(120, f.size());
    assert_eq!(120, f.layout().size);
    assert_eq!(max_align(), f.layout().align);
    assert_eq!("support.log", f.name());
    assert_eq!(0, f.version());
    assert_eq!(1, f.interfaces().len());
}

#[test]
fn enumeration_cursor_stops_at_zero() {
    let mut c = EnumCursor::new();
    assert_eq!(0, c.index());
    assert!(c.next(1, 1));
    assert_eq!(1, c.index());
    assert!(!c.is_done());
    assert!(!c.next(0, 1));
    assert!(c.is_done());
}

#[test]
fn interface_names() {
    assert_eq!("Spa:Pointer:Interface:Log", Log::name());
    assert_eq!("Spa:Pointer:Interface:System", System::name());
    assert_eq!("Spa:Pointer:Interface:CPU", Cpu::name());
    assert_eq!("Spa:Pointer:Interface:Loop", Loop::name());
    assert_eq!(0, Log::version());
    assert!(c_name_ok(Log::name()));
    assert!(!c_name_ok("bad\0name"));
    assert_eq!(libc::ENOTSUP, ENOTSUP);
}

#[test]
fn main_loop_creation_and_weak_handles() {
    assert!(matches!(MainLoop::new(0), Err(Error::CreationFailed)));
    let l = MainLoop::new(0x1000).ok().unwrap();
    assert_eq!(0x1000, l.inner().as_raw());
    let weak = l.downgrade();
    let again = weak.upgrade().unwrap();
    assert_eq!(0x1000, again.inner().as_raw());
    drop(again);
    drop(l);
    assert!(weak.upgrade().is_none());
}

#[test]
fn log_levels_and_message_framing() {
    assert_eq!(LogLevel::Off, Log::level(0));
    assert_eq!(LogLevel::Warn, Log::level(2));
    assert_eq!(LogLevel::Trace, Log::level(5));
    assert_eq!(LogLevel::Trace, Log::level(99));
    for raw in 0..=5u32 {
        assert_eq!(raw, Log::set_level(Log::level(raw)));
    }
    assert_eq!(b"hi\n\0".to_vec(), Log::message("hi"));
    assert_eq!(b"\n\0".to_vec(), Log::message(""));
}

fn this_process() -> Plugin {
    let lib = libloading::Library::from(libloading::os::unix::Library::this());
    let factories = vec![
        Factory::new("support.null".to_string(), 1, 0, Vec::new()),
        Factory::new("support.log".to_string(), 0, 64, vec!["Spa:Pointer:Interface:Log".to_string()]),
        Factory::new("support.null".to_string(), 2, 8, Vec::new()),
    ];
    Plugin::new(lib, factories)
}

#[test]
fn zero_size_object_builds_and_tears_down() {
    let plugin = this_process();
    let f = plugin.factory("support.null").unwrap();
    assert_eq!(0, f.layout().size);
    let align = f.layout().align;
    let handle = f.instantiate(&plugin, align, 0).ok().unwrap();
    assert_eq!(align, handle.address());
    let raw = handle.clear().unwrap();
    assert_eq!(0, raw.layout().size);
    assert_eq!(align, raw.layout().align);
    assert!(raw.clear(0).is_ok());
}

#[test]
fn factory_lookup_takes_first_match() {
    let plugin = this_process();
    assert_eq!(1, plugin.factory("support.null").unwrap().version());
    assert_eq!(64, plugin.factory("support.log").unwrap().size());
    assert!(plugin.factory("support.cpu").is_none());
    assert_eq!(3, plugin.factories().len());
}

#[test]
fn failed_init_reports_the_error() {
    let plugin = this_process();
    let f = &plugin.factories()[1];
    match f.instantiate(&plugin, 4096, -12) {
        Err(InitError::Failed(e)) => assert_eq!(Some(12), e.raw_os_error()),
        _ => panic!("init error not reported"),
    }
}

#[test]
fn asynchronous_init_fails_with_its_sequence() {
    let plugin = this_process();
    let f = &plugin.factories()[1];
    match f.instantiate(&plugin, 4096, (1 << 30) | 9) {
        Err(InitError::Pending(seq)) => assert_eq!(9, seq),
        _ => panic!("asynchronous init not refused"),
    }
}

#[test]
fn zero_size_object_takes_no_block() {
    let plugin = this_process();
    let f = plugin.factory("support.null").unwrap();
    let l = f.layout();
    assert!(!l.needs_block());
    assert_eq!(l.align, l.empty_block());
    assert_eq!(0, l.empty_block() % l.align);
    assert!(plugin.factories()[1].layout().needs_block());
    let handle = f.instantiate(&plugin, l.empty_block(), 0).ok().unwrap();
    assert_eq!(0, handle.address() % l.align);
    assert!(handle.clear().unwrap().clear(0).is_ok());
}

#[test]
fn teardown_waits_for_the_last_handle() {
    let plugin = this_process();
    let f = &plugin.factories()[1];
    let handle = f.instantiate(&plugin, 4096, 0).ok().unwrap();
    assert_eq!(64, handle.clear().unwrap().layout().size);
    let raw = f.instantiate(&plugin, 8192, 0).ok().unwrap().clear().unwrap();
    let err = raw.clear(-5).err().unwrap();
    assert_eq!(Some(5), err.raw_os_error());
}

#[test]
fn interface_lookup_checks_support_and_version() {
    let plugin = this_process();
    let f = &plugin.factories()[1];
    let mut handle = f.instantiate(&plugin, 4096, 0).ok().unwrap();
    assert!(handle.interface::<Log>(-ENOTSUP, 0, 0).is_none());
    assert!(handle.interface::<Log>(0, 4200, 1).is_none());
    let view = handle.interface::<Log>(0, 4200, 0).unwrap();
    assert_eq!(4200, view.address());
}
