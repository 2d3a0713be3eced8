//! The three things a caller plugs into a listener: the mapping that fills
//! the table, the handler that is told of every transition, and the hook
//! that is called once capture has begun. Each has a default that does
//! nothing and a form that calls a function of the caller.

use vstd::prelude::*;
use crate::key::Key;
use crate::state::ButtonState;
use crate::table::KeyStateEntry;

verus! {

/// Fills the table of tracked keys, once, before a session starts.
pub trait KeyMapping<const N: usize>: Sized {
    /// The mapping can be run on a table that holds `table`.
    spec fn accepts(&self, table: Seq<KeyStateEntry>) -> bool;

    /// A run of the mapping on the table behind `table` can end with
    /// `after` in that table.
    spec fn maps(&self, table: &mut [KeyStateEntry; N], after: Seq<KeyStateEntry>) -> bool;

    /// Runs the mapping on `table`: what `table` holds afterwards is what
    /// one run of the mapping, begun on what it held before, has left.
    fn map_keys(self, table: &mut [KeyStateEntry; N])
        requires
            self.accepts(old(table)@),
        ensures
            exists|run: &mut [KeyStateEntry; N]|
                {
                    &&& run@ == old(table)@
                    &&& final(run)@ == final(table)@
                    &&& #[trigger] self.maps(run, final(table)@)
                },
    ;
}

/// Is told of every transition of a tracked key.
pub trait KeyHandler<const N: usize>: Sized {
    /// The handler can be called with any table, key and state.
    spec fn ready(&self) -> bool;

    /// A call with these arguments can leave the handler as `after`.
    spec fn handled(
        &self,
        snapshot: Seq<KeyStateEntry>,
        key: Key,
        state: ButtonState,
        after: &Self,
    ) -> bool;

    /// Tells the handler that `key` went to `state`; `snapshot` is the table
    /// with that transition already in it.
    fn handle(&mut self, snapshot: &[KeyStateEntry; N], key: Key, state: ButtonState)
        requires
            old(self).ready(),
        ensures
            final(self).ready(),
            old(self).handled(snapshot@, key, state, final(self)),
    ;
}

/// Is called once, when capture has begun.
pub trait StartupHook: Sized {
    /// The hook can be called.
    spec fn ready(&self) -> bool;

    /// A call of the hook can end.
    spec fn started(&self) -> bool;

    /// Calls the hook.
    fn start(self)
        requires
            self.ready(),
        ensures
            self.started(),
    ;
}

/// The mapping that leaves the table as it is.
#[derive(Debug, Clone, Copy)]
pub struct NoKeyMapping;

/// The handler that does nothing.
#[derive(Debug, Clone, Copy)]
pub struct NoHandler;

/// The startup hook that does nothing.
#[derive(Debug, Clone, Copy)]
pub struct NoStartup;

/// A mapping that calls a function of the caller on the table.
pub struct MappedBy<F>(pub F);

/// A handler that calls a function of the caller.
pub struct HandledBy<F>(pub F);

/// A startup hook that calls a function of the caller.
pub struct StartedBy<F>(pub F);

impl<const N: usize> KeyMapping<N> for NoKeyMapping {
    open spec fn accepts(&self, table: Seq<KeyStateEntry>) -> bool {
        true
    }

    /// The table is left as it was.
    open spec fn maps(&self, table: &mut [KeyStateEntry; N], after: Seq<KeyStateEntry>) -> bool {
        after == table@
    }

    fn map_keys(self, table: &mut [KeyStateEntry; N])
        ensures
            final(table)@ == old(table)@,
    {
        proof {
            assert(self.maps(old(table), table@));
        }
    }
}

impl<const N: usize> KeyHandler<N> for NoHandler {
    open spec fn ready(&self) -> bool {
        true
    }

    open spec fn handled(
        &self,
        snapshot: Seq<KeyStateEntry>,
        key: Key,
        state: ButtonState,
        after: &Self,
    ) -> bool {
        true
    }

    fn handle(&mut self, snapshot: &[KeyStateEntry; N], key: Key, state: ButtonState) {
    }
}

impl StartupHook for NoStartup {
    open spec fn ready(&self) -> bool {
        true
    }

    open spec fn started(&self) -> bool {
        true
    }

    fn start(self) {
    }
}

impl<const N: usize, F: FnOnce(&mut [KeyStateEntry; N])> KeyMapping<N> for MappedBy<F> {
    open spec fn accepts(&self, table: Seq<KeyStateEntry>) -> bool {
        forall|t: &mut [KeyStateEntry; N]| t@ == table ==> call_requires(self.0, (t,))
    }

    /// The run is one call of the caller's function: the table is left as
    /// that function's own contract says.
    open spec fn maps(&self, table: &mut [KeyStateEntry; N], after: Seq<KeyStateEntry>) -> bool {
        call_ensures(self.0, (table,), ())
    }

    fn map_keys(self, table: &mut [KeyStateEntry; N])
        ensures
            exists|run: &mut [KeyStateEntry; N]|
                {
                    &&& run@ == old(table)@
                    &&& final(run)@ == final(table)@
                    &&& #[trigger] call_ensures(self.0, (run,), ())
                },
    {
        (self.0)(table);
        proof {
            let run = choose|run: &mut [KeyStateEntry; N]|
                run@ == old(table)@ && final(run)@ == table@ && #[trigger] call_ensures(
                    self.0,
                    (run,),
                    (),
                );
            assert(self.maps(run, table@));
        }
    }
}

impl<const N: usize, F: FnMut(&[KeyStateEntry; N], Key, ButtonState)> KeyHandler<N> for HandledBy<
    F,
> {
    open spec fn ready(&self) -> bool {
        forall|t: &[KeyStateEntry; N], k: Key, s: ButtonState| call_requires(self.0, (t, k, s))
    }

    open spec fn handled(
        &self,
        snapshot: Seq<KeyStateEntry>,
        key: Key,
        state: ButtonState,
        after: &Self,
    ) -> bool {
        exists|t: &[KeyStateEntry; N]| t@ == snapshot && call_ensures(self.0, (t, key, state), ())
    }

    fn handle(&mut self, snapshot: &[KeyStateEntry; N], key: Key, state: ButtonState) {
        (self.0)(snapshot, key, state)
    }
}

impl<F: FnOnce()> StartupHook for StartedBy<F> {
    open spec fn ready(&self) -> bool {
        call_requires(self.0, ())
    }

    open spec fn started(&self) -> bool {
        call_ensures(self.0, (), ())
    }

    fn start(self) {
        (self.0)()
    }
}

} // verus!
