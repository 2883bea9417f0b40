//! Pushdown state machine sequencing the game states.
//!
//! States are registered once at startup and addressed by a stable integer
//! id; a per-state `preserve` flag says whether the state keeps rendering
//! beneath states pushed on top of it (a gameplay scene under a pause
//! overlay). Transitions are driven by a static table keyed on the closed
//! set of [`StateTrans`] symbols; feeding a symbol with no table entry for
//! the current state is deliberately a no-op. While the machine is stopped,
//! feeding is a no-op as well.

use vstd::prelude::*;

verus! {

/// The closed set of transition symbols the table is keyed on.
#[derive(Debug, PartialEq, Eq, Clone, Copy, Structural)]
pub enum StateTrans {
    Title,
    Gameplay,
    Pause,
    Resume,
}

/// One state's outgoing transitions: the target state id for each symbol, if
/// any.
#[derive(Debug, PartialEq, Eq, Clone, Copy, Structural)]
pub struct TransRow {
    pub title: Option<usize>,
    pub gameplay: Option<usize>,
    pub pause: Option<usize>,
    pub resume: Option<usize>,
}

/// The table entry of `row` for symbol `sym`.
pub open spec fn row_get(row: TransRow, sym: StateTrans) -> Option<usize> {
    match sym {
        StateTrans::Title => row.title,
        StateTrans::Gameplay => row.gameplay,
        StateTrans::Pause => row.pause,
        StateTrans::Resume => row.resume,
    }
}

/// `row` with the entry for `sym` replaced by `Some(to)`.
pub open spec fn row_set(row: TransRow, sym: StateTrans, to: usize) -> TransRow {
    match sym {
        StateTrans::Title => TransRow { title: Some(to), ..row },
        StateTrans::Gameplay => TransRow { gameplay: Some(to), ..row },
        StateTrans::Pause => TransRow { pause: Some(to), ..row },
        StateTrans::Resume => TransRow { resume: Some(to), ..row },
    }
}

/// Pushdown automaton over registered state ids with a static transition
/// table and a bottom-to-top render stack.
pub struct StateMachine {
    /// Per-state flag: keep this state on the render stack beneath states
    /// pushed on top of it.
    pub preserve: Vec<bool>,
    /// Per-state outgoing transitions, indexed by state id.
    pub table: Vec<TransRow>,
    /// The active state id; meaningful once `set_initial` has run.
    pub current: usize,
    /// Whether `set_initial` has run.
    pub initialized: bool,
    /// Whether the machine is between `start` and `stop`.
    pub running: bool,
    /// The render stack, bottom to top; the top is always `current`.
    pub ui: Vec<usize>,
}

/// Number of registered states.
pub open spec fn state_count(m: StateMachine) -> nat {
    m.preserve@.len()
}

/// Well-formedness: table and flags aligned, every id in range, and once
/// initialized a non-empty render stack topped by the current state.
pub open spec fn wf(m: StateMachine) -> bool {
    &&& m.table@.len() == m.preserve@.len()
    &&& (m.running ==> m.initialized)
    &&& (m.initialized ==> m.current < state_count(m))
    &&& (m.initialized ==> m.ui@.len() >= 1 && m.ui@.last() == m.current)
    &&& (!m.initialized ==> m.ui@.len() == 0)
    &&& (forall|i: int| 0 <= i < m.ui@.len() ==> #[trigger] m.ui@[i] < state_count(m))
    &&& (forall|i: int|
        0 <= i < m.table@.len() ==> row_targets_ok(#[trigger] m.table@[i], state_count(m)))
}

/// Every target named by `row` is a registered state id.
pub open spec fn row_targets_ok(row: TransRow, n: nat) -> bool {
    &&& (row.title is Some ==> row.title->0 < n)
    &&& (row.gameplay is Some ==> row.gameplay->0 < n)
    &&& (row.pause is Some ==> row.pause->0 < n)
    &&& (row.resume is Some ==> row.resume->0 < n)
}

/// The table entry for the machine's current state and symbol `sym`.
pub open spec fn lookup(m: StateMachine, sym: StateTrans) -> Option<usize> {
    row_get(m.table@[m.current as int], sym)
}

/// Whether feeding `sym` fires a transition: the machine runs and the table
/// has an entry for the current state and `sym`.
pub open spec fn feed_fires(m: StateMachine, sym: StateTrans) -> bool {
    m.running && lookup(m, sym) is Some
}

/// The render stack after a fired transition: the current state is popped
/// unless its `preserve` flag is set, then the target is pushed unless it is
/// already on top.
pub open spec fn feed_ui(ui: Seq<usize>, preserve_current: bool, target: usize) -> Seq<usize> {
    let popped = if preserve_current {
        ui
    } else {
        ui.drop_last()
    };
    if popped.len() == 0 || popped.last() != target {
        popped.push(target)
    } else {
        popped
    }
}

impl StateMachine {
    /// An empty machine: no states, no table, stopped.
    pub fn new() -> (m: StateMachine)
        ensures
            wf(m),
            state_count(m) == 0,
            !m.initialized,
            !m.running,
    {
        StateMachine {
            preserve: Vec::new(),
            table: Vec::new(),
            current: 0,
            initialized: false,
            running: false,
            ui: Vec::new(),
        }
    }

    /// Registers a state slot and returns its stable id. `preserve` says
    /// whether the state keeps rendering beneath states pushed above it.
    pub fn add_state(&mut self, preserve: bool) -> (id: usize)
        requires
            wf(*old(self)),
        ensures
            wf(*final(self)),
            id == state_count(*old(self)),
            final(self).preserve@ == old(self).preserve@.push(preserve),
            final(self).table@ == old(self).table@.push(
                TransRow { title: None, gameplay: None, pause: None, resume: None },
            ),
            final(self).current == old(self).current,
            final(self).initialized == old(self).initialized,
            final(self).running == old(self).running,
            final(self).ui@ == old(self).ui@,
    {
        let id = self.preserve.len();
        self.preserve.push(preserve);
        self.table.push(TransRow { title: None, gameplay: None, pause: None, resume: None });
        id
    }

    /// Registers the directed transition `from --sym--> to`. Both ids must
    /// already be registered; naming an unknown id is a programmer error and
    /// is ruled out up front.
    pub fn add_trans(&mut self, from: usize, to: usize, sym: StateTrans)
        requires
            wf(*old(self)),
            from < state_count(*old(self)),
            to < state_count(*old(self)),
        ensures
            wf(*final(self)),
            final(self).table@ == old(self).table@.update(
                from as int,
                row_set(old(self).table@[from as int], sym, to),
            ),
            final(self).preserve@ == old(self).preserve@,
            final(self).current == old(self).current,
            final(self).initialized == old(self).initialized,
            final(self).running == old(self).running,
            final(self).ui@ == old(self).ui@,
    {
        let mut row = self.table[from];
        match sym {
            StateTrans::Title => row.title = Some(to),
            StateTrans::Gameplay => row.gameplay = Some(to),
            StateTrans::Pause => row.pause = Some(to),
            StateTrans::Resume => row.resume = Some(to),
        }
        self.table.set(from, row);
    }

    /// Seeds the current state and pushes it onto the render stack. Done
    /// once, before the machine starts.
    pub fn set_initial(&mut self, id: usize)
        requires
            wf(*old(self)),
            id < state_count(*old(self)),
            !old(self).initialized,
        ensures
            wf(*final(self)),
            final(self).current == id,
            final(self).initialized,
            final(self).ui@ == seq![id],
            final(self).preserve@ == old(self).preserve@,
            final(self).table@ == old(self).table@,
            final(self).running == old(self).running,
    {
        self.current = id;
        self.initialized = true;
        self.ui.push(id);
        proof {
            assert(self.ui@ == Seq::<usize>::empty().push(id));
            assert(self.ui@ == seq![id]);
        }
    }

    /// Starts the table-driven machine. Starting before any state was seeded
    /// is a programmer error and is ruled out up front.
    pub fn start(&mut self)
        requires
            wf(*old(self)),
            old(self).initialized,
        ensures
            wf(*final(self)),
            *final(self) == (StateMachine { running: true, ..*old(self) }),
    {
        self.running = true;
    }

    /// Stops the machine; `feed` becomes a no-op until `start` runs again.
    pub fn stop(&mut self)
        requires
            wf(*old(self)),
        ensures
            wf(*final(self)),
            *final(self) == (StateMachine { running: false, ..*old(self) }),
    {
        self.running = false;
    }

    /// Whether the machine is running.
    pub fn is_running(&self) -> (b: bool)
        ensures
            b == self.running,
    {
        self.running
    }

    /// The active state id. Asking before a state was seeded is a programmer
    /// error and is ruled out up front.
    pub fn current_state_id(&self) -> (id: usize)
        requires
            self.initialized,
        ensures
            id == self.current,
    {
        self.current
    }

    /// The ordered list of state ids to render this frame, bottom to top.
    pub fn ui_stack(&self) -> (r: &Vec<usize>)
        ensures
            r@ == self.ui@,
    {
        &self.ui
    }

    /// Feeds a transition symbol. If the table has an entry for the current
    /// state and `sym`, the current state is popped from the render stack
    /// unless its `preserve` flag is set, the target becomes current and is
    /// pushed onto the render stack unless already on top; the return value
    /// says whether that happened. A symbol without a table entry, or a feed
    /// while stopped, changes nothing.
    pub fn feed(&mut self, sym: StateTrans) -> (changed: bool)
        requires
            wf(*old(self)),
        ensures
            wf(*final(self)),
            changed == feed_fires(*old(self), sym),
            final(self).preserve@ == old(self).preserve@,
            final(self).table@ == old(self).table@,
            final(self).initialized == old(self).initialized,
            final(self).running == old(self).running,
            !changed ==> final(self).current == old(self).current && final(self).ui@ == old(
                self,
            ).ui@,
            changed ==> final(self).current == lookup(*old(self), sym)->0 && final(self).ui@
                == feed_ui(
                old(self).ui@,
                old(self).preserve@[old(self).current as int],
                lookup(*old(self), sym)->0,
            ),
    {
        if !self.running {
            return false;
        }
        let cur = self.current;
        let row = self.table[cur];
        let target_opt = match sym {
            StateTrans::Title => row.title,
            StateTrans::Gameplay => row.gameplay,
            StateTrans::Pause => row.pause,
            StateTrans::Resume => row.resume,
        };
        match target_opt {
            None => false,
            Some(target) => {
                if !self.preserve[cur] {
                    self.ui.pop();
                }
                self.current = target;
                let len = self.ui.len();
                if len == 0 {
                    self.ui.push(target);
                } else {
                    let top = self.ui[len - 1];
                    if top != target {
                        self.ui.push(target);
                    }
                }
                true
            },
        }
    }
}

} // verus!
