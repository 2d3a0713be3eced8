use keyboard_hook::engine::EngineAction;
use keyboard_hook::err::ListenError;
use keyboard_hook::hooks::NoHandler;
use keyboard_hook::hooks::NoStartup;
use keyboard_hook::key::Key;
use keyboard_hook::listener::KeyDispatcher;
use keyboard_hook::listener::KeyboardListener;
use keyboard_hook::listener::KeyboardListenerBuilder;
use keyboard_hook::record::XRecordInterceptData;
use keyboard_hook::state::ButtonState;
use keyboard_hook::table::KeyStateEntry;
use keyboard_hook::table::KeyStateTable;
use std::sync::atomic::AtomicUsize;
use std::sync::atomic::Ordering;
use std::sync::Arc;
use std::sync::Mutex;

type Call = (Vec<bool>, Key, ButtonState);

fn record(event_type: u8, key: Key) -> XRecordInterceptData {
    let mut bytes = vec![0u8; 32];
    bytes[0] = event_type;
    bytes[1] = key.raw() as u8;
    XRecordInterceptData::new(0, 8, Some(bytes))
}

fn press(key: Key) -> XRecordInterceptData {
    record(2, key)
}

fn release(key: Key) -> XRecordInterceptData {
    record(3, key)
}

fn map_abc(table: &mut [KeyStateEntry; 3]) {
    table[0].set_key(Key::KeyA);
    table[1].set_key(Key::KeyB);
    table[2].set_key(Key::KeyC);
}

fn drive_until(
    action: EngineAction,
    step: &mut dyn FnMut(bool) -> EngineAction,
    first: EngineAction,
) {
    let mut pending = first;
    while pending != action {
        assert_ne!(pending, EngineAction::Finish);
        pending = step(true);
    }
}

#[test]
fn three_keys_five_events_in_order() {
    let calls: Arc<Mutex<Vec<Call>>> = Arc::new(Mutex::new(Vec::new()));
    let sink = calls.clone();
    let started = Arc::new(AtomicUsize::new(0));
    let started_in = started.clone();
    let mut listener = KeyboardListenerBuilder::with_len::<3>()
        .key_mapping(map_abc)
        .handler(move |snapshot: &[KeyStateEntry; 3], key: Key, state: ButtonState| {
            let pressed = snapshot.iter().map(|e| e.is_pressed()).collect();
            sink.lock().unwrap().push((pressed, key, state));
        })
        .on_startup(move || {
            started_in.fetch_add(1, Ordering::SeqCst);
        })
        .listen(true)
        .unwrap();

    let first = listener.pending_action();
    drive_until(EngineAction::WaitForEvents, &mut |ok| listener.advance(ok), first);
    assert_eq!(started.load(Ordering::SeqCst), 1);

    assert!(listener.deliver(&press(Key::KeyA)));
    assert!(listener.deliver(&press(Key::KeyB)));
    assert!(listener.deliver(&release(Key::KeyA)));
    assert!(listener.deliver(&release(Key::KeyB)));
    assert!(listener.deliver(&press(Key::KeyC)));

    let seen = calls.lock().unwrap().clone();
    assert_eq!(
        seen,
        vec![
            (vec![true, false, false], Key::KeyA, ButtonState::Pressed),
            (vec![true, true, false], Key::KeyB, ButtonState::Pressed),
            (vec![false, true, false], Key::KeyA, ButtonState::Released),
            (vec![false, false, false], Key::KeyB, ButtonState::Released),
            (vec![false, false, true], Key::KeyC, ButtonState::Pressed),
        ]
    );
    assert_eq!(started.load(Ordering::SeqCst), 1);
}

#[test]
fn untracked_and_repeated_events_do_not_reach_the_handler() {
    let calls = Arc::new(AtomicUsize::new(0));
    let sink = calls.clone();
    let mut listener = KeyboardListenerBuilder::with_len::<3>()
        .key_mapping(map_abc)
        .handler(move |_snapshot: &[KeyStateEntry; 3], _key: Key, _state: ButtonState| {
            sink.fetch_add(1, Ordering::SeqCst);
        })
        .listen(true)
        .unwrap();
    let first = listener.pending_action();
    drive_until(EngineAction::WaitForEvents, &mut |ok| listener.advance(ok), first);

    assert!(!listener.deliver(&press(Key::KeyD)));
    assert!(!listener.deliver(&release(Key::KeyD)));
    assert!(!listener.deliver(&release(Key::KeyA)));
    assert!(!listener.deliver(&XRecordInterceptData::new(0, 8, None)));
    assert!(!listener.deliver(&XRecordInterceptData::new(1, 8, Some(vec![2, 38]))));
    assert!(!listener.deliver(&XRecordInterceptData::new(0, 7, Some(vec![2, 38]))));
    assert!(!listener.deliver(&XRecordInterceptData::new(0, 8, Some(vec![2, 0]))));
    assert_eq!(calls.load(Ordering::SeqCst), 0);

    assert!(listener.deliver(&press(Key::KeyA)));
    assert!(!listener.deliver(&press(Key::KeyA)));
    assert!(!listener.deliver(&press(Key::KeyA)));
    assert_eq!(calls.load(Ordering::SeqCst), 1);
    assert!(listener.deliver(&release(Key::KeyA)));
    assert!(!listener.deliver(&release(Key::KeyA)));
    assert_eq!(calls.load(Ordering::SeqCst), 2);
}

#[test]
fn records_before_the_handler_is_wrapped_are_dropped() {
    let calls = Arc::new(AtomicUsize::new(0));
    let sink = calls.clone();
    let mut listener = KeyboardListenerBuilder::with_len::<3>()
        .key_mapping(map_abc)
        .handler(move |_snapshot: &[KeyStateEntry; 3], _key: Key, _state: ButtonState| {
            sink.fetch_add(1, Ordering::SeqCst);
        })
        .listen(true)
        .unwrap();
    assert_eq!(listener.pending_action(), EngineAction::OpenDisplay);
    assert!(!listener.deliver(&press(Key::KeyA)));
    assert_eq!(listener.advance(true), EngineAction::InitExtension);
    assert!(!listener.deliver(&press(Key::KeyA)));
    assert_eq!(listener.advance(true), EngineAction::WrapHandler);
    assert!(listener.bridge.is_none());
    assert!(!listener.deliver(&press(Key::KeyA)));
    assert_eq!(listener.advance(true), EngineAction::DescribeRange);
    assert!(listener.bridge.is_some());
    assert!(listener.dispatcher.is_none());
    assert_eq!(calls.load(Ordering::SeqCst), 0);
    assert!(listener.deliver(&press(Key::KeyA)));
    assert_eq!(calls.load(Ordering::SeqCst), 1);
}

#[test]
fn late_callback_after_teardown_does_nothing() {
    let calls = Arc::new(AtomicUsize::new(0));
    let sink = calls.clone();
    let mut listener = KeyboardListenerBuilder::with_len::<3>()
        .key_mapping(map_abc)
        .handler(move |_snapshot: &[KeyStateEntry; 3], _key: Key, _state: ButtonState| {
            sink.fetch_add(1, Ordering::SeqCst);
        })
        .listen(true)
        .unwrap();
    let first = listener.pending_action();
    drive_until(EngineAction::WaitForEvents, &mut |ok| listener.advance(ok), first);
    assert!(listener.deliver(&press(Key::KeyB)));
    assert_eq!(listener.advance(false), EngineAction::DisableContext);
    assert_eq!(listener.advance(true), EngineAction::FreeContext);
    assert_eq!(listener.advance(true), EngineAction::CloseDisplay);
    assert_eq!(listener.advance(true), EngineAction::InvalidateBridge);
    assert!(listener.deliver(&release(Key::KeyB)));
    assert_eq!(calls.load(Ordering::SeqCst), 2);
    assert_eq!(listener.advance(true), EngineAction::Finish);
    assert_eq!(listener.result(), Some(Ok(())));

    assert!(!listener.deliver(&press(Key::KeyB)));
    assert!(!listener.deliver(&press(Key::KeyA)));
    assert!(!listener.deliver(&release(Key::KeyC)));
    assert_eq!(calls.load(Ordering::SeqCst), 2);
    let container = listener.bridge.as_ref().unwrap().as_ptr();
    assert!(!container.check());
    assert_eq!(listener.advance(true), EngineAction::Finish);
    assert!(!listener.deliver(&press(Key::KeyB)));
    assert_eq!(calls.load(Ordering::SeqCst), 2);
}

#[test]
fn a_handler_panic_does_not_stop_delivery() {
    let calls: Arc<Mutex<Vec<Call>>> = Arc::new(Mutex::new(Vec::new()));
    let sink = calls.clone();
    let mut listener = KeyboardListenerBuilder::with_len::<3>()
        .key_mapping(map_abc)
        .handler(move |snapshot: &[KeyStateEntry; 3], key: Key, state: ButtonState| {
            let pressed = snapshot.iter().map(|e| e.is_pressed()).collect();
            sink.lock().unwrap().push((pressed, key, state));
        })
        .listen(true)
        .unwrap();
    let first = listener.pending_action();
    drive_until(EngineAction::WaitForEvents, &mut |ok| listener.advance(ok), first);
    assert!(listener.deliver(&press(Key::KeyA)));
    listener.note_panic();
    assert!(listener.deliver(&press(Key::KeyC)));
    listener.note_panic();
    listener.note_panic();
    assert!(listener.deliver(&release(Key::KeyA)));
    let seen = calls.lock().unwrap().clone();
    assert_eq!(
        seen,
        vec![
            (vec![true, false, false], Key::KeyA, ButtonState::Pressed),
            (vec![true, false, true], Key::KeyC, ButtonState::Pressed),
            (vec![false, false, true], Key::KeyA, ButtonState::Released),
        ]
    );
}

#[test]
fn unsupported_platform_runs_nothing() {
    let mapped = Arc::new(AtomicUsize::new(0));
    let mapped_in = mapped.clone();
    let started = Arc::new(AtomicUsize::new(0));
    let started_in = started.clone();
    let result = KeyboardListenerBuilder::with_len::<3>()
        .key_mapping(move |_table: &mut [KeyStateEntry; 3]| {
            mapped_in.fetch_add(1, Ordering::SeqCst);
        })
        .on_startup(move || {
            started_in.fetch_add(1, Ordering::SeqCst);
        })
        .listen(false);
    assert!(matches!(result, Err(ListenError::UnsupportedPlatform)));
    assert_eq!(mapped.load(Ordering::SeqCst), 0);
    assert_eq!(started.load(Ordering::SeqCst), 0);
}

#[test]
fn key_mapping_runs_once_on_a_blank_table() {
    let mapped = Arc::new(AtomicUsize::new(0));
    let mapped_in = mapped.clone();
    let listener = KeyboardListenerBuilder::with_len::<2>()
        .key_mapping(move |table: &mut [KeyStateEntry; 2]| {
            assert_eq!(table[0], KeyStateEntry::default());
            assert_eq!(table[1], KeyStateEntry::default());
            table[1].set_key(Key::F8);
            mapped_in.fetch_add(1, Ordering::SeqCst);
        })
        .listen(true)
        .unwrap();
    assert_eq!(mapped.load(Ordering::SeqCst), 1);
    let dispatcher = listener.dispatcher.as_ref().unwrap();
    assert_eq!(dispatcher.table.get(0), KeyStateEntry::new(Key::Backspace, ButtonState::Released));
    assert_eq!(dispatcher.table.get(1), KeyStateEntry::new(Key::F8, ButtonState::Released));
}

#[test]
fn an_unconfigured_builder_listens_and_does_nothing() {
    let mut listener = KeyboardListenerBuilder::with_len::<2>().listen(true).unwrap();
    let first = listener.pending_action();
    assert_eq!(first, EngineAction::OpenDisplay);
    drive_until(EngineAction::WaitForEvents, &mut |ok| listener.advance(ok), first);
    assert!(listener.deliver(&press(Key::Backspace)));
    assert!(listener.deliver(&press(Key::Backspace)));
    assert!(!listener.deliver(&press(Key::Backspace)));
    assert!(!listener.deliver(&press(Key::KeyA)));
    let mut pending = listener.advance(false);
    while pending != EngineAction::Finish {
        pending = listener.advance(true);
    }
    assert_eq!(listener.result(), Some(Ok(())));
}

#[test]
fn failed_start_reports_its_error_and_skips_startup() {
    let started = Arc::new(AtomicUsize::new(0));
    let started_in = started.clone();
    let mut listener = KeyboardListenerBuilder::with_len::<1>()
        .on_startup(move || {
            started_in.fetch_add(1, Ordering::SeqCst);
        })
        .listen(true)
        .unwrap();
    assert_eq!(listener.advance(true), EngineAction::InitExtension);
    assert_eq!(listener.advance(true), EngineAction::WrapHandler);
    assert_eq!(listener.advance(true), EngineAction::DescribeRange);
    assert_eq!(listener.advance(true), EngineAction::CreateContext);
    assert_eq!(listener.advance(false), EngineAction::FreeRange);
    assert_eq!(listener.advance(true), EngineAction::InvalidateBridge);
    assert_eq!(listener.advance(true), EngineAction::CloseDisplay);
    assert!(!listener.deliver(&press(Key::Backspace)));
    assert_eq!(listener.advance(true), EngineAction::Finish);
    assert_eq!(listener.result(), Some(Err(ListenError::CreateContextFailed)));
    assert_eq!(started.load(Ordering::SeqCst), 0);
}

#[test]
fn dispatcher_on_its_own() {
    let mut table = KeyStateTable::<2>::new();
    table.set_key(0, Key::Tab);
    table.set_key(1, Key::Space);
    let mut dispatcher = KeyDispatcher::new(table, NoHandler);
    assert!(dispatcher.on_key(Key::Space, ButtonState::Pressed));
    assert!(!dispatcher.on_key(Key::Space, ButtonState::Pressed));
    assert!(!dispatcher.on_key(Key::Return, ButtonState::Pressed));
    assert!(dispatcher.on_record(&press(Key::Tab)));
    assert!(!dispatcher.on_record(&press(Key::Tab)));
    assert!(dispatcher.table.is_pressed(0));
    assert!(dispatcher.table.is_pressed(1));
}

#[test]
fn session_from_a_filled_table() {
    let mut table = KeyStateTable::<1>::new();
    table.set_key(0, Key::Escape);
    let mut listener = KeyboardListener::with_table(table, NoHandler, NoStartup);
    assert_eq!(listener.pending_action(), EngineAction::OpenDisplay);
    assert_eq!(listener.result(), None);
    assert_eq!(listener.advance(false), EngineAction::Finish);
    assert_eq!(listener.result(), Some(Err(ListenError::MissingDisplay)));
}
