//! The listener: a builder that collects the key mapping, the handler and
//! the startup hook, and the session that comes out of it, which ties the
//! table, the handler, the bridge and the engine together.

use vstd::prelude::*;
use crate::bridge::ExterDataContainer;
use crate::bridge::SafeDropExternDataContainer;
use crate::engine::CaptureEngine;
use crate::engine::EngineAction;
use crate::engine::EnginePhase;
use crate::err::ListenError;
use crate::hooks::HandledBy;
use crate::hooks::KeyHandler;
use crate::hooks::KeyMapping;
use crate::hooks::MappedBy;
use crate::hooks::NoHandler;
use crate::hooks::NoKeyMapping;
use crate::hooks::NoStartup;
use crate::hooks::StartedBy;
use crate::hooks::StartupHook;
use crate::key::Key;
use crate::record::decoded_record;
use crate::record::XRecordInterceptData;
use crate::state::ButtonState;
use crate::table::after_event;
use crate::table::transition_index;
use crate::table::KeyStateEntry;
use crate::table::KeyStateTable;

verus! {

/// The table of tracked keys together with the handler that is told of
/// their transitions. This is what the bridge guards.
pub struct KeyDispatcher<const N: usize, EH: KeyHandler<N>> {
    pub table: KeyStateTable<N>,
    pub handler: EH,
}

impl<const N: usize, EH: KeyHandler<N>> KeyDispatcher<N, EH> {
    /// What an event does to a dispatcher. No event, or one that is no
    /// transition, changes nothing and leaves the handler alone. A
    /// transition is first taken into the table; then the handler is called
    /// with the table as it is now, the key and its new state.
    pub open spec fn dispatched(self, event: Option<(Key, ButtonState)>, after: Self) -> bool {
        match event {
            Some((key, state)) => {
                &&& after.table@ == after_event(self.table@, key, state)
                &&& if transition_index(self.table@, key, state) is Some {
                    self.handler.handled(after.table@, key, state, &after.handler)
                } else {
                    after.handler == self.handler
                }
            },
            None => after == self,
        }
    }

    /// A dispatcher for `table` and `handler`.
    pub fn new(table: KeyStateTable<N>, handler: EH) -> (r: Self)
        ensures
            r.table == table,
            r.handler == handler,
    {
        KeyDispatcher { table, handler }
    }

    /// Takes one key event in: where it is a transition of a tracked key,
    /// the table is updated and the handler is called; otherwise nothing
    /// happens. The result says whether the handler was called.
    pub fn on_key(&mut self, key: Key, state: ButtonState) -> (r: bool)
        requires
            old(self).handler.ready(),
        ensures
            final(self).handler.ready(),
            old(self).dispatched(Some((key, state)), *final(self)),
            r == transition_index(old(self).table@, key, state).is_some(),
    {
        match self.table.record_event(key, state) {
            Some((key, state)) => {
                self.handler.handle(&self.table.entries, key, state);
                true
            },
            None => false,
        }
    }

    /// Takes one intercepted record in: decodes it and, where it carries a
    /// key event, handles that as `on_key` does. Other records are dropped.
    /// The result says whether the handler was called.
    pub fn on_record(&mut self, record: &XRecordInterceptData) -> (r: bool)
        requires
            old(self).handler.ready(),
        ensures
            final(self).handler.ready(),
            old(self).dispatched(
                decoded_record(record.category, record.data_len, record.payload()),
                *final(self),
            ),
            r == match decoded_record(record.category, record.data_len, record.payload()) {
                Some((key, state)) => transition_index(old(self).table@, key, state).is_some(),
                None => false,
            },
    {
        match record.decode() {
            Some((key, state)) => self.on_key(key, state),
            None => false,
        }
    }
}

/// Collects what a listener needs. Every part has a default that does
/// nothing, so a builder can be turned into a listener at any time.
pub struct KeyboardListenerBuilder<const N: usize, KM, EH, SE> where
    KM: KeyMapping<N>,
    EH: KeyHandler<N>,
    SE: StartupHook,
 {
    pub key_mapping: KM,
    pub handler: EH,
    pub on_startup: SE,
}

/// The table that a mapping is run on: every slot tracks backspace,
/// released.
pub open spec fn blank_table(n: nat) -> Seq<KeyStateEntry> {
    Seq::new(n, |i: int| KeyStateEntry { key: Key::Backspace, state: ButtonState::Released })
}

impl KeyboardListenerBuilder<0, NoKeyMapping, NoHandler, NoStartup> {
    /// A builder for a table of `N` slots. Its mapping leaves every table as
    /// it is, its handler and its startup hook do nothing.
    pub fn with_len<const N: usize>() -> (r: KeyboardListenerBuilder<
        N,
        NoKeyMapping,
        NoHandler,
        NoStartup,
    >)
        ensures
            r.key_mapping == NoKeyMapping,
            r.handler == NoHandler,
            r.on_startup == NoStartup,
            r.ready(),
            forall|run: &mut [KeyStateEntry; N], after: Seq<KeyStateEntry>|
                #[trigger] r.key_mapping.maps(run, after) <==> after == run@,
    {
        KeyboardListenerBuilder { key_mapping: NoKeyMapping, handler: NoHandler, on_startup: NoStartup }
    }
}

impl<const N: usize, KM, EH, SE> KeyboardListenerBuilder<N, KM, EH, SE> where
    KM: KeyMapping<N>,
    EH: KeyHandler<N>,
    SE: StartupHook,
 {
    /// All three parts can be called: the mapping on a blank table, the
    /// handler with any event, the startup hook.
    pub open spec fn ready(&self) -> bool {
        &&& self.key_mapping.accepts(blank_table(N as nat))
        &&& self.handler.ready()
        &&& self.on_startup.ready()
    }

    /// Replaces the mapping by a function of the caller; handler and
    /// startup hook stay. The new mapping can be run where that function
    /// can be called, and leaves what that function leaves.
    pub fn key_mapping<NewKm>(self, key_mapping: NewKm) -> (r: KeyboardListenerBuilder<
        N,
        MappedBy<NewKm>,
        EH,
        SE,
    >) where NewKm: FnOnce(&mut [KeyStateEntry; N]) + Send + Sync + 'static
        ensures
            r.key_mapping.0 == key_mapping,
            r.handler == self.handler,
            r.on_startup == self.on_startup,
            forall|table: Seq<KeyStateEntry>|
                #[trigger] r.key_mapping.accepts(table) <==> (forall|run: &mut [KeyStateEntry; N]|
                    run@ == table ==> call_requires(key_mapping, (run,))),
            forall|run: &mut [KeyStateEntry; N], after: Seq<KeyStateEntry>|
                #[trigger] r.key_mapping.maps(run, after) <==> call_ensures(
                    key_mapping,
                    (run,),
                    (),
                ),
    {
        KeyboardListenerBuilder {
            key_mapping: MappedBy(key_mapping),
            handler: self.handler,
            on_startup: self.on_startup,
        }
    }

    /// Replaces the handler by a function of the caller; mapping and
    /// startup hook stay. The new handler can be called where that function
    /// can, and does what that function does.
    pub fn handler<NewEH>(self, handler: NewEH) -> (r: KeyboardListenerBuilder<
        N,
        KM,
        HandledBy<NewEH>,
        SE,
    >) where NewEH: FnMut(&[KeyStateEntry; N], Key, ButtonState) + Send + Sync + 'static
        ensures
            r.key_mapping == self.key_mapping,
            r.handler.0 == handler,
            r.on_startup == self.on_startup,
            r.handler.ready() <==> (forall|t: &[KeyStateEntry; N], k: Key, s: ButtonState|
                call_requires(handler, (t, k, s))),
            forall|snapshot: Seq<KeyStateEntry>, k: Key, s: ButtonState, after: HandledBy<NewEH>|
                #[trigger] r.handler.handled(snapshot, k, s, &after) <==> (exists|
                    t: &[KeyStateEntry; N],
                | t@ == snapshot && call_ensures(handler, (t, k, s), ())),
    {
        KeyboardListenerBuilder {
            key_mapping: self.key_mapping,
            handler: HandledBy(handler),
            on_startup: self.on_startup,
        }
    }

    /// Replaces the startup hook by a function of the caller; mapping and
    /// handler stay. The new hook can be called where that function can, and
    /// does what that function does.
    pub fn on_startup<NewOS>(self, on_startup: NewOS) -> (r: KeyboardListenerBuilder<
        N,
        KM,
        EH,
        StartedBy<NewOS>,
    >) where NewOS: FnOnce()
        ensures
            r.key_mapping == self.key_mapping,
            r.handler == self.handler,
            r.on_startup.0 == on_startup,
            r.on_startup.ready() <==> call_requires(on_startup, ()),
            r.on_startup.started() <==> call_ensures(on_startup, (), ()),
    {
        KeyboardListenerBuilder {
            key_mapping: self.key_mapping,
            handler: self.handler,
            on_startup: StartedBy(on_startup),
        }
    }
}

/// One capture session: the engine that decides what happens next, the
/// dispatcher (on its own before the handler is wrapped, behind the bridge
/// from then on) and the startup hook until it was called.
pub struct KeyboardListener<const N: usize, EH: KeyHandler<N>, SE: StartupHook> {
    pub engine: CaptureEngine,
    pub dispatcher: Option<KeyDispatcher<N, EH>>,
    pub bridge: Option<SafeDropExternDataContainer<KeyDispatcher<N, EH>>>,
    pub on_startup: Option<SE>,
}

impl<const N: usize, EH: KeyHandler<N>, SE: StartupHook> KeyboardListener<N, EH, SE> {
    /// The invariant of a session. The engine's invariant holds. The
    /// dispatcher is on its own exactly until a bridge exists; the bridge
    /// can be used exactly while the engine counts it as live; a bridge
    /// exists only once the engine had the handler wrapped; whatever
    /// handler there is can be called; and the startup hook is there
    /// exactly until the start was announced.
    pub open spec fn wf(&self) -> bool {
        &&& self.engine.wf()
        &&& self.dispatcher is Some <==> self.bridge is None
        &&& self.dispatcher matches Some(d) ==> d.handler.ready()
        &&& self.bridge matches Some(b) ==> {
            &&& b@.usable() <==> self.engine.bridge_live
            &&& b@.usable() ==> b@.payload().unwrap().handler.ready()
            &&& self.engine.bridge_live || self.engine.phase == EnginePhase::Disabled
                || self.engine.phase == EnginePhase::TornDown
        }
        &&& self.bridge is None ==> !self.engine.bridge_live
        &&& self.on_startup is Some <==> !self.engine.startup_notified
        &&& self.on_startup matches Some(h) ==> h.ready()
    }

    /// The container behind the bridge, once there is one.
    pub open spec fn container(&self) -> Option<ExterDataContainer<KeyDispatcher<N, EH>>> {
        match self.bridge {
            Some(b) => Some(b@),
            None => None,
        }
    }

    /// The dispatcher as the callback would find it now: none before the
    /// handler was wrapped, none once the bridge was invalidated.
    pub open spec fn reachable(&self) -> Option<KeyDispatcher<N, EH>> {
        match self.container() {
            Some(c) => if c.usable() {
                c.payload()
            } else {
                None
            },
            None => None,
        }
    }

    /// A session for a table that is already filled, a handler and a
    /// startup hook, before anything was done on the platform.
    pub fn with_table(table: KeyStateTable<N>, handler: EH, on_startup: SE) -> (r: Self)
        requires
            handler.ready(),
            on_startup.ready(),
        ensures
            r.wf(),
            r.engine == CaptureEngine::initial(true),
            r.dispatcher == Some(KeyDispatcher { table, handler }),
            r.bridge is None,
            r.on_startup == Some(on_startup),
    {
        KeyboardListener {
            engine: CaptureEngine::new(true),
            dispatcher: Some(KeyDispatcher { table, handler }),
            bridge: None,
            on_startup: Some(on_startup),
        }
    }

    /// The action that the driver is to perform now.
    pub fn pending_action(&self) -> (r: EngineAction)
        ensures
            r == self.engine.pending,
    {
        self.engine.pending_action()
    }

    /// The result of the session, once it is over.
    pub fn result(&self) -> (r: Option<Result<(), ListenError>>)
        ensures
            r == self.engine.outcome(),
    {
        self.engine.result()
    }

    /// One step of the session. The driver has performed the pending action
    /// on the platform and says in `ok` how it went. What the pending
    /// action asks of the session itself is done here: wrapping the handler
    /// puts the dispatcher behind a new live bridge, announcing the start
    /// calls the startup hook, invalidating the bridge clears it. Then the
    /// engine takes the outcome in; the result is the next action.
    pub fn advance(&mut self, ok: bool) -> (r: EngineAction)
        requires
            old(self).wf(),
        ensures
            final(self).wf(),
            final(self).engine == old(self).engine.after(ok),
            r == final(self).engine.pending,
            match old(self).engine.pending {
                EngineAction::WrapHandler => {
                    &&& final(self).reachable() == old(self).dispatcher
                    &&& final(self).bridge is Some
                    &&& final(self).dispatcher is None
                    &&& final(self).on_startup == old(self).on_startup
                },
                EngineAction::NotifyStartup => {
                    &&& old(self).on_startup is Some
                    &&& old(self).on_startup.unwrap().started()
                    &&& final(self).on_startup is None
                    &&& final(self).bridge == old(self).bridge
                    &&& final(self).dispatcher == old(self).dispatcher
                },
                EngineAction::InvalidateBridge => {
                    &&& final(self).reachable() is None
                    &&& final(self).bridge is Some
                    &&& final(self).bridge.unwrap()@ == old(self).bridge.unwrap()@.invalidated()
                    &&& final(self).dispatcher == old(self).dispatcher
                    &&& final(self).on_startup == old(self).on_startup
                },
                _ => {
                    &&& final(self).bridge == old(self).bridge
                    &&& final(self).dispatcher == old(self).dispatcher
                    &&& final(self).on_startup == old(self).on_startup
                },
            },
    {
        proof {
            crate::engine::lemma_step_keeps_wf(self.engine, ok);
        }
        match self.engine.pending {
            EngineAction::WrapHandler => {
                match self.dispatcher.take() {
                    Some(d) => {
                        self.bridge = Some(ExterDataContainer::container(d));
                    },
                    None => {},
                }
            },
            EngineAction::NotifyStartup => {
                match self.on_startup.take() {
                    Some(hook) => {
                        hook.start();
                    },
                    None => {},
                }
            },
            EngineAction::InvalidateBridge => {
                match &mut self.bridge {
                    Some(owner) => {
                        owner.invalidate();
                    },
                    None => {},
                }
            },
            _ => {},
        }
        self.engine.step(ok)
    }

    /// Records that the handler panicked during a delivery. The lock of the
    /// bridge counts as poisoned from then on; the dispatcher stays
    /// reachable, so the next record is delivered as if nothing had
    /// happened.
    pub fn note_panic(&mut self)
        requires
            old(self).wf(),
        ensures
            final(self).wf(),
            final(self).engine == old(self).engine,
            final(self).dispatcher == old(self).dispatcher,
            final(self).on_startup == old(self).on_startup,
            final(self).reachable() == old(self).reachable(),
            match old(self).container() {
                Some(c) => final(self).container() == Some(c.poisoned()),
                None => final(self).container() is None,
            },
    {
        match &mut self.bridge {
            Some(owner) => {
                owner.as_mut_ptr().note_panic();
            },
            None => {},
        }
    }

    /// Hands one intercepted record to the session, as the platform
    /// callback does. While the bridge is usable, the record is decoded and
    /// dispatched; before the handler was wrapped and after the bridge was
    /// invalidated the record is dropped and nothing changes. The result
    /// says whether the handler was called.
    pub fn deliver(&mut self, record: &XRecordInterceptData) -> (r: bool)
        requires
            old(self).wf(),
        ensures
            final(self).wf(),
            final(self).engine == old(self).engine,
            final(self).dispatcher == old(self).dispatcher,
            final(self).on_startup == old(self).on_startup,
            match old(self).reachable() {
                Some(d) => {
                    &&& final(self).reachable() is Some
                    &&& final(self).container().unwrap().lock_is_poisoned() == old(
                        self,
                    ).container().unwrap().lock_is_poisoned()
                    &&& d.dispatched(
                        decoded_record(record.category, record.data_len, record.payload()),
                        final(self).reachable().unwrap(),
                    )
                    &&& r == match decoded_record(
                        record.category,
                        record.data_len,
                        record.payload(),
                    ) {
                        Some((key, state)) => transition_index(d.table@, key, state).is_some(),
                        None => false,
                    }
                },
                None => !r && final(self).container() == old(self).container(),
            },
    {
        match &mut self.bridge {
            Some(owner) => {
                match owner.as_mut_ptr().lock() {
                    Some(dispatcher) => dispatcher.on_record(record),
                    None => false,
                }
            },
            None => false,
        }
    }
}

impl<const N: usize, KM, EH, SE> KeyboardListenerBuilder<N, KM, EH, SE> where
    KM: KeyMapping<N>,
    EH: KeyHandler<N>,
    SE: StartupHook,
 {
    /// Turns the builder into a session. `supported` says whether this
    /// platform can capture keys. Where it cannot, the result is
    /// `UnsupportedPlatform` and nothing was run. Where it can, the mapping
    /// is run once on a blank table, and the session holds the table as
    /// that run left it, the handler and the startup hook, with nothing done
    /// on the platform yet.
    pub fn listen(self, supported: bool) -> (r: Result<KeyboardListener<N, EH, SE>, ListenError>)
        requires
            self.ready(),
        ensures
            r is Ok <==> supported,
            r matches Err(e) ==> e == ListenError::UnsupportedPlatform,
            r matches Ok(l) ==> {
                &&& l.wf()
                &&& l.engine == CaptureEngine::initial(true)
                &&& l.bridge is None
                &&& l.on_startup == Some(self.on_startup)
                &&& l.dispatcher is Some
                &&& l.dispatcher.unwrap().handler == self.handler
                &&& exists|run: &mut [KeyStateEntry; N]|
                    {
                        &&& run@ == blank_table(N as nat)
                        &&& final(run)@ == l.dispatcher.unwrap().table@
                        &&& #[trigger] self.key_mapping.maps(run, l.dispatcher.unwrap().table@)
                    }
            },
    {
        if !supported {
            return Err(ListenError::UnsupportedPlatform);
        }
        let ghost mapping = self.key_mapping;
        let mut table = KeyStateTable::<N>::new();
        assert(table@ =~= blank_table(N as nat));
        self.key_mapping.map_keys(&mut table.entries);
        let ghost mapped = table@;
        proof {
            let run = choose|run: &mut [KeyStateEntry; N]|
                run@ == blank_table(N as nat) && final(run)@ == mapped && #[trigger] mapping.maps(
                    run,
                    mapped,
                );
            assert(mapping.maps(run, mapped));
        }
        let listener = KeyboardListener::with_table(table, self.handler, self.on_startup);
        assert(listener.dispatcher.unwrap().table@ == mapped);
        Ok(listener)
    }
}

/// A record whose key code is the code of no key in the table leaves the
/// dispatcher as it is: the table does not change and the handler is not
/// called, whatever else the record holds.
pub proof fn lemma_untracked_code_never_reaches_handler<const N: usize, EH: KeyHandler<N>>(
    before: KeyDispatcher<N, EH>,
    after: KeyDispatcher<N, EH>,
    category: i32,
    data_len: u64,
    data: Option<Seq<u8>>,
)
    requires
        data matches Some(bytes) ==> bytes.len() >= 2 ==> forall|i: int|
            0 <= i < before.table@.len() ==> (#[trigger] before.table@[i]).key.raw_code()
                != bytes[1],
        before.dispatched(decoded_record(category, data_len, data), after),
    ensures
        after.table@ == before.table@,
        after.handler == before.handler,
{
    match decoded_record(category, data_len, data) {
        Some((key, state)) => {
            crate::record::lemma_decoded_record(category, data_len, data);
            assert(!crate::table::tracks(before.table@, key));
            crate::table::lemma_untracked_key_is_no_transition(before.table@, key, state);
        },
        None => {},
    }
}

/// While the callback may fire, it finds the dispatcher: with the context
/// enabled the bridge is usable.
pub proof fn lemma_callback_finds_dispatcher<const N: usize, EH: KeyHandler<N>, SE: StartupHook>(
    l: KeyboardListener<N, EH, SE>,
)
    requires
        l.wf(),
        l.engine.context_enabled,
    ensures
        l.reachable() is Some,
        l.reachable().unwrap().handler.ready(),
{
}

/// Once the session is over, a late callback finds nothing: no dispatcher is
/// reachable, whether the bridge was ever made or not.
pub proof fn lemma_late_callback_finds_nothing<const N: usize, EH: KeyHandler<N>, SE: StartupHook>(
    l: KeyboardListener<N, EH, SE>,
)
    requires
        l.wf(),
        l.engine.outcome() is Some,
    ensures
        l.reachable() is None,
{
}

} // verus!
