use crate::cells::{cells_of, lemma_toggled_twice, toggled, Key, LivingSet};
use crate::clock::LoopState;
use crate::vector::Vector2;
use crate::worker::{send_post, ComputeWorker, PlatformWorkerError};
use std::collections::VecDeque;
use vstd::prelude::*;

verus! {

/// The interval between steps in auto-play mode, in microseconds.
pub const DEFAULT_INTERVAL: u64 = 300_000;

/// A user action that arrived while a step was being computed, kept to be
/// applied once the step's result has landed.
pub enum QueueAction<V> {
    /// Kill every cell and reset the statistics.
    Clear,
    /// Flip one cell.
    Toggle(Vector2<i32>),
    /// Replace the state by a saved one: its living cells, and view settings
    /// that the simulation hands back to its caller without reading them.
    Load(LivingSet, V),
}

/// What a simulation holds, as values: the living cells, the number of
/// completed generations, the population after each of them, and the
/// generation at which each manual toggle happened.
pub struct Board {
    pub cells: Set<Key>,
    pub step_count: u64,
    pub history: Seq<usize>,
    pub toggles: Seq<u64>,
}

/// The board of a fresh or cleared simulation.
pub open spec fn cleared() -> Board {
    Board { cells: Set::empty(), step_count: 0, history: seq![0usize], toggles: Seq::empty() }
}

/// The board after one action.
pub open spec fn apply_action<V>(b: Board, a: QueueAction<V>) -> Board {
    match a {
        QueueAction::Clear => cleared(),
        QueueAction::Toggle(c) => Board {
            cells: toggled(b.cells, c@),
            step_count: b.step_count,
            history: b.history,
            toggles: b.toggles.push(b.step_count),
        },
        QueueAction::Load(s, _) => Board {
            cells: s@,
            step_count: 0,
            history: seq![0usize],
            toggles: Seq::empty(),
        },
    }
}

/// The board after a sequence of actions, applied in order.
pub open spec fn apply_actions<V>(b: Board, q: Seq<QueueAction<V>>) -> Board
    decreases q.len(),
{
    if q.len() == 0 {
        b
    } else {
        apply_actions(apply_action(b, q[0]), q.drop_first())
    }
}

/// Applying one more action after a sequence is applying it to the result.
pub proof fn lemma_apply_actions_push<V>(b: Board, q: Seq<QueueAction<V>>, a: QueueAction<V>)
    ensures
        apply_actions(b, q.push(a)) == apply_action(apply_actions(b, q), a),
    decreases q.len(),
{
    assert(q.push(a)[0] == if q.len() == 0 {
        a
    } else {
        q[0]
    });
    if q.len() == 0 {
        assert(q.push(a).drop_first() =~= Seq::<QueueAction<V>>::empty());
        assert(apply_actions(apply_action(b, a), Seq::<QueueAction<V>>::empty()) == apply_action(b, a));
        assert(apply_actions(b, q) == b);
    } else {
        assert(q.push(a).drop_first() =~= q.drop_first().push(a));
        lemma_apply_actions_push(apply_action(b, q[0]), q.drop_first(), a);
        assert(apply_actions(b, q) == apply_actions(apply_action(b, q[0]), q.drop_first()));
    }
    assert(apply_actions(b, q.push(a)) == apply_actions(apply_action(b, q.push(a)[0]), q.push(a).drop_first()));
}

/// The view settings pending after an action: those of a loaded save, or
/// those pending before.
pub open spec fn view_after_action<V>(view: Option<V>, a: QueueAction<V>) -> Option<V> {
    match a {
        QueueAction::Load(_, v) => Some(v),
        _ => view,
    }
}

/// The view settings pending after a sequence of actions, applied in order.
pub open spec fn view_after<V>(view: Option<V>, q: Seq<QueueAction<V>>) -> Option<V>
    decreases q.len(),
{
    if q.len() == 0 {
        view
    } else {
        view_after(view_after_action(view, q[0]), q.drop_first())
    }
}

/// The board once a computed generation `next` has replaced the cells; the
/// step counter saturates at its largest value.
pub open spec fn advanced(b: Board, next: Set<Key>) -> Board {
    Board {
        cells: next,
        step_count: if b.step_count < u64::MAX {
            (b.step_count + 1) as u64
        } else {
            b.step_count
        },
        history: b.history.push(next.len() as usize),
        toggles: b.toggles,
    }
}

/// Changes since the last frame that the renderer needs to know of.
pub struct StateChanges<V> {
    /// The living cells, where they changed.
    pub cells: Option<Vec<Vector2<i32>>>,
    /// View settings of a loaded save, where one was loaded.
    pub view: Option<V>,
    /// The last failure of the worker, where one happened.
    pub worker_error: Option<PlatformWorkerError>,
}

impl<V> StateChanges<V> {
    /// No change.
    pub fn new() -> (r: Self)
        ensures
            r.cells is None,
            r.view is None,
            r.worker_error is None,
    {
        StateChanges { cells: None, view: None, worker_error: None }
    }

    /// Whether anything changed.
    pub fn has_changes(&self) -> (r: bool)
        ensures
            r == (self.cells is Some || self.view is Some || self.worker_error is Some),
    {
        self.cells.is_some() || self.view.is_some() || self.worker_error.is_some()
    }

    /// Forgets every change.
    pub fn clear(&mut self)
        ensures
            final(self).cells is None,
            final(self).view is None,
            final(self).worker_error is None,
    {
        self.cells = None;
        self.view = None;
        self.worker_error = None;
    }

    /// Merges later changes into these: each part that changed later wins.
    pub fn add_assign(&mut self, other: StateChanges<V>)
        ensures
            final(self).cells == (if other.cells is Some {
                other.cells
            } else {
                old(self).cells
            }),
            final(self).view == (if other.view is Some {
                other.view
            } else {
                old(self).view
            }),
            final(self).worker_error == (if other.worker_error is Some {
                other.worker_error
            } else {
                old(self).worker_error
            }),
    {
        if other.cells.is_some() {
            self.cells = other.cells;
        }
        if other.view.is_some() {
            self.view = other.view;
        }
        if other.worker_error.is_some() {
            self.worker_error = other.worker_error;
        }
    }
}

/// The simulation: the living set, play state and statistics, with steps
/// computed by a worker and user actions deferred while a step is out.
pub struct State<W, V> {
    /// The cells that are alive.
    living_cells: LivingSet,
    /// Timing and play information.
    loop_s: LoopState,
    /// The interval between steps in auto-play mode, in microseconds.
    interval: u64,
    /// Actions made during a computation and therefore deferred.
    input_queue: VecDeque<QueueAction<V>>,
    /// Computes the steps.
    worker: W,
    /// The number of completed generations since the last clear.
    step_count: u64,
    /// The population after each completed generation, starting with the
    /// empty board.
    living_count_history: Vec<usize>,
    /// Changes to hand to the renderer on the next update.
    changes: StateChanges<V>,
    /// The generation at which each manual toggle happened.
    toggle_record: Vec<u64>,
}

impl<W: ComputeWorker<LivingSet, LivingSet>, V> State<W, V> {
    /// The simulation's contents, as values.
    pub closed spec fn board(&self) -> Board {
        Board {
            cells: self.living_cells@,
            step_count: self.step_count,
            history: self.living_count_history@,
            toggles: self.toggle_record@,
        }
    }

    /// The deferred actions, oldest first.
    pub closed spec fn queue(&self) -> Seq<QueueAction<V>> {
        self.input_queue@
    }

    /// Whether a step is being computed.
    pub closed spec fn busy(&self) -> bool {
        self.worker.busy()
    }

    /// The arguments of the last step that the worker accepted.
    pub closed spec fn job(&self) -> Option<LivingSet> {
        self.worker.job()
    }

    /// Whether the worker computes eagerly, on the caller's thread.
    pub closed spec fn eager(&self) -> bool {
        self.worker.eager()
    }

    /// The changes gathered for the next update to hand out.
    pub closed spec fn changes(&self) -> StateChanges<V> {
        self.changes
    }

    /// The play state.
    pub closed spec fn loop_state(&self) -> LoopState {
        self.loop_s
    }

    /// The auto-play interval, in microseconds.
    pub closed spec fn interval_spec(&self) -> u64 {
        self.interval
    }

    /// Pending cell changes show the current cells.
    closed spec fn shown(&self) -> bool {
        self.changes.cells matches Some(v) ==> cells_of(v@) == self.living_cells@
    }

    /// A sound worker, and pending cell changes that show the current cells.
    pub closed spec fn consistent(&self) -> bool {
        self.worker.wf() && self.shown()
    }

    /// The consistency the simulation keeps between calls: the above, and
    /// actions deferred only while a step is out.
    pub open spec fn wf(&self) -> bool {
        &&& self.consistent()
        &&& !self.busy() ==> self.queue().len() == 0
    }

    /// A user action was requested: applied at once when no step is out,
    /// with the new cells (and the view of a loaded save) among the pending
    /// changes; else deferred to the end of the queue. Nothing else changes.
    pub open spec fn requested(self, before: Self, a: QueueAction<V>) -> bool {
        &&& self.wf()
        &&& self.busy() == before.busy()
        &&& self.eager() == before.eager()
        &&& self.loop_state() == before.loop_state()
        &&& self.interval_spec() == before.interval_spec()
        &&& if before.busy() {
            &&& self.board() == before.board()
            &&& self.queue() == before.queue().push(a)
            &&& self.changes() == before.changes()
        } else {
            &&& self.board() == apply_action(before.board(), a)
            &&& self.queue() == before.queue()
            &&& self.changes().cells is Some
            &&& self.changes().view == view_after_action(before.changes().view, a)
            &&& self.changes().worker_error == before.changes().worker_error
        }
    }

    /// Nothing landed during an update: the board and the queue are as they
    /// were, and the pending cells and view are handed out unchanged.
    pub open spec fn update_idle(self, before: Self, r: StateChanges<V>) -> bool {
        &&& self.board() == before.board()
        &&& self.queue() == before.queue()
        &&& r.cells == before.changes().cells
        &&& r.view == before.changes().view
    }

    /// A generation landed during an update: it replaced the cells, the
    /// statistics advanced and the deferred actions applied in order; the
    /// cells, and the view of the last deferred load if any, are handed out.
    pub open spec fn update_landed(self, before: Self, r: StateChanges<V>) -> bool {
        &&& exists|next: Set<Key>|
            self.board() == #[trigger] apply_actions(advanced(before.board(), next), before.queue())
        &&& self.queue().len() == 0
        &&& !self.busy()
        &&& r.cells is Some
        &&& r.view == view_after(before.changes().view, before.queue())
    }

    /// A stopped simulation with no living cell, computing with `worker`.
    pub fn new(worker: W) -> (r: Self)
        requires
            worker.wf(),
        ensures
            r.wf(),
            r.board() == cleared(),
            r.queue().len() == 0,
            r.busy() == worker.busy(),
            r.eager() == worker.eager(),
            r.changes().cells is None,
            r.changes().view is None,
            r.changes().worker_error is None,
            r.loop_state() == LoopState::Stopped,
            r.interval_spec() == DEFAULT_INTERVAL,
    {
        let mut living_count_history = Vec::new();
        living_count_history.push(0);
        let r = State {
            living_cells: LivingSet::new(),
            loop_s: LoopState::new(),
            interval: DEFAULT_INTERVAL,
            input_queue: VecDeque::new(),
            worker,
            step_count: 0,
            living_count_history,
            changes: StateChanges::new(),
            toggle_record: Vec::new(),
        };
        assert(r.board().history == seq![0usize]);
        r
    }

    /// Starts or stops auto-play. Starting steps at once and counts the
    /// interval from `now` (microseconds of a monotonic clock).
    pub fn toggle_playing(&mut self, now: u64)
        requires
            old(self).wf(),
        ensures
            final(self).wf(),
            final(self).board() == old(self).board(),
            final(self).queue() == old(self).queue(),
            final(self).interval_spec() == old(self).interval_spec(),
            old(self).loop_state() is Playing ==> final(self).loop_state() == LoopState::Stopped
                && final(self).busy() == old(self).busy(),
            old(self).loop_state() is Stopped ==> final(self).loop_state() == (LoopState::Playing {
                last_update: now,
            }) && (old(self).busy() ==> final(self).busy()),
            old(self).loop_state() is Stopped && !old(self).busy() && final(self).busy()
                ==> (final(self).job() matches Some(j) && j@ == old(self).board().cells),
            old(self).loop_state() is Stopped && old(self).eager() && !old(self).busy()
                ==> final(self).busy(),
            final(self).eager() == old(self).eager(),
            final(self).changes().cells == old(self).changes().cells,
            final(self).changes().view == old(self).changes().view,
            old(self).eager() ==> final(self).changes().worker_error
                == old(self).changes().worker_error,
    {
        if self.loop_s.is_playing() {
            self.loop_s = LoopState::Stopped;
        } else {
            let sent = self.step();
            if let Err(e) = sent {
                self.changes.worker_error = Some(e);
            }
            self.loop_s = LoopState::Playing { last_update: now };
        }
    }

    /// Whether the simulation advances by itself.
    pub fn is_playing(&self) -> (r: bool)
        ensures
            r == (self.loop_state() is Playing),
    {
        self.loop_s.is_playing()
    }

    /// The current number of living cells.
    pub fn get_living_count(&self) -> (r: usize)
        ensures
            r == self.board().cells.len(),
    {
        self.living_cells.len()
    }

    /// The auto-play interval, in microseconds.
    pub fn get_interval(&self) -> (r: u64)
        ensures
            r == self.interval_spec(),
    {
        self.interval
    }

    /// Sets the auto-play interval, in microseconds.
    pub fn set_interval(&mut self, to: u64)
        requires
            old(self).wf(),
        ensures
            final(self).wf(),
            final(self).interval_spec() == to,
            final(self).board() == old(self).board(),
            final(self).queue() == old(self).queue(),
            final(self).busy() == old(self).busy(),
            final(self).eager() == old(self).eager(),
            final(self).changes() == old(self).changes(),
            final(self).loop_state() == old(self).loop_state(),
    {
        self.interval = to;
    }

    /// The number of completed generations since the last clear.
    pub fn step_count(&self) -> (r: u64)
        ensures
            r == self.board().step_count,
    {
        self.step_count
    }

    /// The population after each completed generation.
    pub fn living_count_history(&self) -> (r: &Vec<usize>)
        ensures
            r@ == self.board().history,
    {
        &self.living_count_history
    }

    /// The generation at which each manual toggle happened.
    pub fn toggle_record(&self) -> (r: &Vec<u64>)
        ensures
            r@ == self.board().toggles,
    {
        &self.toggle_record
    }

    /// The living cells, each once, in no given order: what a save holds.
    pub fn living_cells(&self) -> (r: Vec<Vector2<i32>>)
        ensures
            cells_of(r@) == self.board().cells,
            r@.len() == self.board().cells.len(),
    {
        self.living_cells.cells()
    }

    /// Applies an action at once when no step is out, else defers it.
    fn request(&mut self, a: QueueAction<V>)
        requires
            old(self).wf(),
        ensures
            final(self).requested(*old(self), a),
    {
        if self.worker.computing() {
            self.input_queue.push_back(a);
        } else {
            self.apply_now(a);
        }
    }

    /// Kills every cell and resets the statistics, or defers that while a
    /// step is out.
    pub fn clear(&mut self)
        requires
            old(self).wf(),
        ensures
            final(self).requested(*old(self), QueueAction::Clear),
    {
        self.request(QueueAction::Clear);
    }

    /// Flips one cell, or defers that while a step is out.
    pub fn toggle_cell(&mut self, cell: Vector2<i32>)
        requires
            old(self).wf(),
        ensures
            final(self).requested(*old(self), QueueAction::Toggle(cell)),
    {
        self.request(QueueAction::Toggle(cell));
    }

    /// Replaces the state by a saved one (its cells, and view settings handed
    /// back with the next changes), or defers that while a step is out.
    pub fn load_save(&mut self, cells: LivingSet, view: V)
        requires
            old(self).wf(),
        ensures
            final(self).requested(*old(self), QueueAction::Load(cells, view)),
    {
        self.request(QueueAction::Load(cells, view));
    }

    /// Hands a copy of the living cells to the worker, unless a step is
    /// already out; says what the worker answered.
    pub fn step(&mut self) -> (r: Result<bool, PlatformWorkerError>)
        requires
            old(self).wf(),
        ensures
            final(self).wf(),
            send_post(old(self).busy(), final(self).busy(), r),
            r == Ok::<bool, PlatformWorkerError>(true) ==> (final(self).job() matches Some(j)
                && j@ == old(self).board().cells),
            r != Ok::<bool, PlatformWorkerError>(true) ==> final(self).job() == old(self).job(),
            old(self).eager() && !old(self).busy() ==> r == Ok::<bool, PlatformWorkerError>(true),
            final(self).eager() == old(self).eager(),
            final(self).board() == old(self).board(),
            final(self).queue() == old(self).queue(),
            final(self).changes() == old(self).changes(),
            final(self).loop_state() == old(self).loop_state(),
            final(self).interval_spec() == old(self).interval_spec(),
    {
        if self.worker.computing() {
            return Ok(false);
        }
        let copy = self.living_cells.duplicate();
        self.worker.send(copy)
    }

    /// Applies a computed generation: it replaces the living cells, the
    /// statistics advance, and the deferred actions are applied in order.
    pub fn apply_result(&mut self, next: LivingSet)
        requires
            old(self).consistent(),
        ensures
            final(self).wf(),
            final(self).board() == apply_actions(advanced(old(self).board(), next@), old(self).queue()),
            final(self).queue().len() == 0,
            final(self).busy() == old(self).busy(),
            final(self).eager() == old(self).eager(),
            final(self).job() == old(self).job(),
            final(self).changes().cells is Some,
            final(self).changes().view == view_after(old(self).changes().view, old(self).queue()),
            final(self).changes().worker_error == old(self).changes().worker_error,
            final(self).loop_state() == old(self).loop_state(),
            final(self).interval_spec() == old(self).interval_spec(),
    {
        self.living_cells = next;
        self.changes.cells = Some(self.living_cells.cells());
        if self.step_count < u64::MAX {
            self.step_count = self.step_count + 1;
        }
        let count = self.living_cells.len();
        self.living_count_history.push(count);
        self.resolve_queue();
    }

    /// The per-frame update, at time `now` (microseconds of a monotonic
    /// clock). When playing and the interval has passed, the last step moves
    /// to `now` and a step is requested (at most one per call). Then the
    /// worker is polled: a generation that landed replaces the living cells,
    /// the statistics advance and the deferred actions are applied in order.
    /// Returns the changes since the last update.
    pub fn update(&mut self, now: u64) -> (r: StateChanges<V>)
        requires
            old(self).wf(),
        ensures
            final(self).wf(),
            final(self).interval_spec() == old(self).interval_spec(),
            final(self).loop_state() == (if old(self).loop_state().should_step_spec(
                now,
                old(self).interval_spec(),
            ) {
                LoopState::Playing { last_update: now }
            } else {
                old(self).loop_state()
            }),
            final(self).eager() == old(self).eager(),
            final(self).update_idle(*old(self), r) || final(self).update_landed(*old(self), r),
            final(self).busy() ==> final(self).update_idle(*old(self), r),
            !old(self).busy() && !old(self).loop_state().should_step_spec(now, old(self).interval_spec())
                ==> final(self).update_idle(*old(self), r) && !final(self).busy(),
            !old(self).loop_state().should_step_spec(now, old(self).interval_spec())
                ==> final(self).job() == old(self).job(),
            old(self).eager() && (old(self).busy() || old(self).loop_state().should_step_spec(
                now,
                old(self).interval_spec(),
            )) ==> final(self).update_landed(*old(self), r),
            old(self).eager() ==> r.worker_error == old(self).changes().worker_error,
            r.cells matches Some(v) ==> cells_of(v@) == final(self).board().cells,
            final(self).changes().cells is None,
            final(self).changes().view is None,
            final(self).changes().worker_error is None,
    {
        let should_step = self.loop_s.update(now, self.interval);
        if should_step && !self.worker.computing() {
            let sent = self.step();
            if let Err(e) = sent {
                self.changes.worker_error = Some(e);
            }
        }
        let polled = self.worker.results();
        match polled {
            Ok(Some(next)) => {
                let ghost landed = next@;
                self.apply_result(next);
                assert(self.board() == apply_actions(
                    advanced(old(self).board(), landed),
                    old(self).queue(),
                ));
            },
            Ok(None) => {},
            Err(e) => {
                self.changes.worker_error = Some(e);
            },
        }
        let mut out = StateChanges::new();
        core::mem::swap(&mut out, &mut self.changes);
        out
    }

    /// Kills every cell and resets the statistics.
    fn clear_action(&mut self)
        requires
            old(self).shown(),
        ensures
            final(self).shown(),
            final(self).board() == cleared(),
            final(self).changes.cells is Some,
            final(self).changes.view == old(self).changes.view,
            final(self).changes.worker_error == old(self).changes.worker_error,
            final(self).queue() == old(self).queue(),
            final(self).worker == old(self).worker,
            final(self).loop_state() == old(self).loop_state(),
            final(self).interval_spec() == old(self).interval_spec(),
    {
        self.living_cells = LivingSet::new();
        self.step_count = 0;
        let mut history = Vec::new();
        history.push(0);
        self.living_count_history = history;
        self.changes.cells = Some(Vec::new());
        self.toggle_record = Vec::new();
        proof {
            assert(cells_of(Seq::<Vector2<i32>>::empty()) =~= Set::<Key>::empty());
            assert(self.board().history == seq![0usize]);
        }
    }

    /// Flips one cell and records the generation it happened at.
    fn toggle_action(&mut self, cell: Vector2<i32>)
        requires
            old(self).shown(),
        ensures
            final(self).shown(),
            final(self).board() == apply_action(old(self).board(), QueueAction::<V>::Toggle(cell)),
            final(self).changes.cells is Some,
            final(self).changes.view == old(self).changes.view,
            final(self).changes.worker_error == old(self).changes.worker_error,
            final(self).queue() == old(self).queue(),
            final(self).worker == old(self).worker,
            final(self).loop_state() == old(self).loop_state(),
            final(self).interval_spec() == old(self).interval_spec(),
    {
        self.living_cells.toggle(cell.pair());
        self.toggle_record.push(self.step_count);
        self.changes.cells = Some(self.living_cells.cells());
    }

    /// Replaces the state by a saved one.
    fn load_action(&mut self, cells: LivingSet, view: V)
        requires
            old(self).shown(),
        ensures
            final(self).shown(),
            final(self).board() == apply_action(old(self).board(), QueueAction::Load(cells, view)),
            final(self).changes.cells is Some,
            final(self).changes.view == Some(view),
            final(self).changes.worker_error == old(self).changes.worker_error,
            final(self).queue() == old(self).queue(),
            final(self).worker == old(self).worker,
            final(self).loop_state() == old(self).loop_state(),
            final(self).interval_spec() == old(self).interval_spec(),
    {
        self.clear_action();
        self.living_cells = cells;
        self.changes.cells = Some(self.living_cells.cells());
        self.changes.view = Some(view);
    }

    /// Applies one action at once.
    fn apply_now(&mut self, a: QueueAction<V>)
        requires
            old(self).shown(),
        ensures
            final(self).shown(),
            final(self).board() == apply_action(old(self).board(), a),
            final(self).changes.cells is Some,
            final(self).changes.view == view_after_action(old(self).changes.view, a),
            final(self).changes.worker_error == old(self).changes.worker_error,
            final(self).queue() == old(self).queue(),
            final(self).worker == old(self).worker,
            final(self).loop_state() == old(self).loop_state(),
            final(self).interval_spec() == old(self).interval_spec(),
    {
        match a {
            QueueAction::Clear => self.clear_action(),
            QueueAction::Toggle(cell) => self.toggle_action(cell),
            QueueAction::Load(cells, view) => self.load_action(cells, view),
        }
    }

    /// Applies the deferred actions in the order they arrived.
    fn resolve_queue(&mut self)
        requires
            old(self).worker.wf(),
            old(self).shown(),
        ensures
            final(self).wf(),
            final(self).board() == apply_actions(old(self).board(), old(self).queue()),
            final(self).queue().len() == 0,
            old(self).changes.cells is Some ==> final(self).changes.cells is Some,
            final(self).changes.view == view_after(old(self).changes.view, old(self).queue()),
            final(self).changes.worker_error == old(self).changes.worker_error,
            final(self).worker == old(self).worker,
            final(self).loop_state() == old(self).loop_state(),
            final(self).interval_spec() == old(self).interval_spec(),
    {
        let ghost target = apply_actions(self.board(), self.queue());
        let ghost target_view = view_after(self.changes.view, self.queue());
        loop
            invariant
                self.worker.wf(),
                self.shown(),
                apply_actions(self.board(), self.queue()) == target,
                view_after(self.changes.view, self.queue()) == target_view,
                old(self).changes.cells is Some ==> self.changes.cells is Some,
                self.changes.worker_error == old(self).changes.worker_error,
                self.worker == old(self).worker,
                self.loop_state() == old(self).loop_state(),
                self.interval_spec() == old(self).interval_spec(),
            ensures
                self.queue().len() == 0,
            decreases self.queue().len(),
        {
            let ghost q = self.queue();
            match self.input_queue.pop_front() {
                Some(a) => {
                    assert(q.drop_first() =~= self.queue());
                    self.apply_now(a);
                },
                None => {
                    break;
                },
            }
        }
    }

}

/// Deferred actions apply in the order they arrived: on a simulation whose
/// step is out, toggling `a`, clearing and toggling `b` leaves exactly `b`
/// alive once the step's result lands, whatever that result is.
pub proof fn lemma_deferred_order<W: ComputeWorker<LivingSet, LivingSet>, V>(
    s0: State<W, V>,
    s1: State<W, V>,
    s2: State<W, V>,
    s3: State<W, V>,
    a: Vector2<i32>,
    b: Vector2<i32>,
    next: Set<Key>,
)
    requires
        s0.wf(),
        s0.busy(),
        s1.requested(s0, QueueAction::Toggle(a)),
        s2.requested(s1, QueueAction::Clear),
        s3.requested(s2, QueueAction::Toggle(b)),
    ensures
        s3.queue() == s0.queue().push(QueueAction::Toggle(a)).push(QueueAction::Clear).push(
            QueueAction::Toggle(b),
        ),
        apply_actions(advanced(s3.board(), next), s3.queue()).cells == set![b@],
{
    let b0 = advanced(s3.board(), next);
    let q0 = s0.queue();
    let q1 = s1.queue();
    let q2 = s2.queue();
    lemma_apply_actions_push(b0, q2, QueueAction::Toggle(b));
    lemma_apply_actions_push(b0, q1, QueueAction::Clear);
    let b3 = apply_action(cleared(), QueueAction::<V>::Toggle(b));
    assert(b3.cells =~= set![b@]);
}

/// Toggling the same cell twice with no step in between leaves the living
/// cells as they were: at once when no step is out, and after the deferred
/// actions have applied when one is.
pub proof fn lemma_toggle_twice<W: ComputeWorker<LivingSet, LivingSet>, V>(
    s0: State<W, V>,
    s1: State<W, V>,
    s2: State<W, V>,
    c: Vector2<i32>,
    next: Set<Key>,
)
    requires
        s0.wf(),
        s1.requested(s0, QueueAction::Toggle(c)),
        s2.requested(s1, QueueAction::Toggle(c)),
    ensures
        !s0.busy() ==> s2.board().cells == s0.board().cells,
        s0.busy() ==> apply_actions(advanced(s2.board(), next), s2.queue()).cells == apply_actions(
            advanced(s0.board(), next),
            s0.queue(),
        ).cells,
{
    lemma_toggled_twice(s0.board().cells, c@);
    if s0.busy() {
        let b = advanced(s0.board(), next);
        lemma_apply_actions_push(b, s0.queue(), QueueAction::Toggle(c));
        lemma_apply_actions_push(b, s1.queue(), QueueAction::Toggle(c));
        lemma_toggled_twice(apply_actions(b, s0.queue()).cells, c@);
    }
}

} // verus!
