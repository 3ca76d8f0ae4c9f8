//! The interactive session: one state machine owning the job store.
//!
//! The control loop of the surrounding binary feeds every occurrence —
//! key presses, terminal resizes, background-task completions, pipeline
//! progress — into [`Batch::handle_event`] as a discrete [`Event`], strictly
//! in arrival order, and performs the returned [`Action`]s.  All session
//! and job-store state is mutated only here, so the machine needs no
//! internal locking; the whole transition relation is the spec function
//! [`step`], which the executable code is proven to implement.

use vstd::prelude::*;

use crate::fmt::{human_err_report, human_err_report_spec};
use crate::job::{SimulationParams, SubmissionState, size_sum};
use crate::picker::ProjectPickerState;
use crate::types::{ProjectV7, SimulationV7};

verus! {

/// The keys the session distinguishes; every other key is ignored.
#[derive(Clone, Copy, Debug, PartialEq, Eq, Structural)]
pub enum KeyCode {
    Char(char),
    Up,
    Down,
    Enter,
    Tab,
    Esc,
}

/// One key press, with its modifiers.
#[derive(Clone, Copy, Debug, PartialEq, Eq, Structural)]
pub struct KeyEvent {
    pub code: KeyCode,
    pub ctrl: bool,
    pub shift: bool,
}

/// Everything the session can learn about, funnelled through one ordered
/// event stream.
#[derive(Debug, PartialEq)]
pub enum Event {
    /// A key was pressed.
    KeyPressed(KeyEvent),
    /// The terminal was resized.
    TerminalResized { width: u16, height: u16 },
    /// A background project fetch has started.
    ProjectsLoading,
    /// A background project fetch finished.
    ProjectsUpdated(Result<Vec<ProjectV7>, String>),
    /// The user picked a project.
    ProjectSelected(ProjectV7),
    /// A background job rediscovery finished.
    JobsReloaded(Result<Vec<SimulationParams>, String>),
    /// A pipeline transferred this many more bytes of some file.
    FileUploaded(u64),
    /// A pipeline reported its terminal result; the error side carries the
    /// chain of causes, outermost first.
    SimSubmitted { internal_id: u64, res: Result<SimulationV7, Vec<String>> },
    /// The session should terminate at once.
    Exit,
}

/// What the control loop must do after a transition.
#[derive(Debug, PartialEq)]
pub enum Action {
    /// Feed this event back into the queue.
    Emit(Event),
    /// Start a background project fetch.
    RefreshProjects,
    /// Start a background job rediscovery.
    StartReload,
    /// Flush this submission state to the sidecar file of the job backed
    /// by this directory.
    Persist { dir: String, state: SubmissionState },
    /// Spawn one submission pipeline per listed job (indexes into the job
    /// store), all sharing one fresh cancellation token, targeting the
    /// given project.
    SpawnPipelines { project_id: String, job_indexes: Vec<usize> },
    /// Trigger the cancellation token shared by the running pipelines.
    CancelPipelines,
}

/// Which of the two viewing panes had focus before a confirmation popup.
#[derive(Clone, Copy, Debug, PartialEq, Eq, Structural)]
pub enum ViewingFocus {
    List,
    Detail,
}

/// Aggregate counters of one submission run, plus the correlation ids of
/// the spawned pipelines that have not reported yet.
#[derive(Clone, Debug, PartialEq)]
pub struct SubmissionRun {
    pub bytes_count: u64,
    pub bytes_progress: u64,
    pub sims_count: usize,
    pub sims_progress: usize,
    pub pending: Vec<u64>,
}

/// What the session is doing while a project is active.
#[derive(Clone, Debug, PartialEq)]
pub enum ActiveState {
    ViewingList,
    ViewingDetail,
    ConfirmExit { prev: ViewingFocus },
    ConfirmSubmit,
    ReloadingSims,
    ReloadFailed { message: String },
    Submitting { run: SubmissionRun },
}

impl ViewingFocus {
    /// The viewing state this focus stands for.
    pub open spec fn spec_to_state(self) -> ActiveState {
        match self {
            ViewingFocus::List => ActiveState::ViewingList,
            ViewingFocus::Detail => ActiveState::ViewingDetail,
        }
    }

    /// Returns to the viewing state this focus stands for.
    pub fn to_state(self) -> (r: ActiveState)
        ensures
            r == self.spec_to_state(),
    {
        match self {
            ViewingFocus::List => ActiveState::ViewingList,
            ViewingFocus::Detail => ActiveState::ViewingDetail,
        }
    }
}

/// Top-level session state.
#[derive(Clone, Debug, PartialEq)]
pub enum State {
    Init,
    PickingProject { state: ProjectPickerState },
    Active {
        project: ProjectV7,
        state: ActiveState,
        selection_cursor: usize,
        scroll_position: usize,
    },
}

/// The interactive batch-submission session.
#[derive(Clone, Debug, PartialEq)]
pub struct Batch {
    /// False once the user confirmed exit.
    pub running: bool,
    pub term_width: u16,
    pub term_height: u16,
    /// The job store: every discovered job with its submission state.
    pub simulations: Vec<SimulationParams>,
    pub state: State,
}

/// All jobs carry pairwise distinct correlation ids.
pub open spec fn ids_distinct(sims: Seq<SimulationParams>) -> bool {
    forall|i: int, j: int|
        0 <= i < j < sims.len() ==> (#[trigger] sims[i]).internal_id != (
        #[trigger] sims[j]).internal_id
}

/// Some job owns this in-flight pipeline id and is currently `Sending`.
pub open spec fn pending_owned(sims: Seq<SimulationParams>, id: u64) -> bool {
    exists|i: int|
        {
            &&& 0 <= i < sims.len()
            &&& (#[trigger] sims[i]).internal_id == id
            &&& sims[i].submission_state is Sending
        }
}

/// The in-flight pipeline ids of a run are distinct, each is owned by a
/// job that is currently `Sending`, and the run has not yet seen every
/// pipeline report.
pub open spec fn run_wf(run: SubmissionRun, sims: Seq<SimulationParams>) -> bool {
    &&& run.sims_progress < run.sims_count
    &&& forall|k: int, l: int|
        0 <= k < l < run.pending@.len() ==> run.pending@[k] != run.pending@[l]
    &&& forall|k: int|
        0 <= k < run.pending@.len() ==> pending_owned(sims, #[trigger] run.pending@[k])
}

impl Batch {
    /// Session well-formedness: correlation ids are distinct, and an
    /// active submission run is internally consistent with the job store.
    pub open spec fn wf(self) -> bool {
        &&& ids_distinct(self.simulations@)
        &&& match self.state {
            State::Active { state: ActiveState::Submitting { run }, .. } => run_wf(
                run,
                self.simulations@,
            ),
            _ => true,
        }
    }
}

/// First index at or after `i` whose job carries this correlation id.
pub open spec fn find_id_from(sims: Seq<SimulationParams>, id: u64, i: int) -> Option<int>
    decreases sims.len() - i,
{
    if i < 0 || i >= sims.len() {
        None
    } else if sims[i].internal_id == id {
        Some(i)
    } else {
        find_id_from(sims, id, i + 1)
    }
}

/// First index at or after `k` holding this value.
pub open spec fn find_u64_from(v: Seq<u64>, x: u64, k: int) -> Option<int>
    decreases v.len() - k,
{
    if k < 0 || k >= v.len() {
        None
    } else if v[k] == x {
        Some(k)
    } else {
        find_u64_from(v, x, k + 1)
    }
}

/// First index at or after `i` whose job is backed by this directory.
pub open spec fn find_dir_from(sims: Seq<SimulationParams>, dir: Seq<char>, i: int) -> Option<
    int,
>
    decreases sims.len() - i,
{
    if i < 0 || i >= sims.len() {
        None
    } else if sims[i].dir@ == dir {
        Some(i)
    } else {
        find_dir_from(sims, dir, i + 1)
    }
}

/// Indexes of the submittable jobs among the first `n`, in order.
pub open spec fn submittable_indexes(sims: Seq<SimulationParams>, n: int) -> Seq<usize>
    decreases n,
{
    if n <= 0 {
        Seq::empty()
    } else {
        submittable_indexes(sims, n - 1) + if sims[n - 1].spec_is_submittable() {
            seq![(n - 1) as usize]
        } else {
            Seq::empty()
        }
    }
}

/// Correlation ids of the submittable jobs among the first `n`, in order.
pub open spec fn submittable_ids(sims: Seq<SimulationParams>, n: int) -> Seq<u64>
    decreases n,
{
    if n <= 0 {
        Seq::empty()
    } else {
        submittable_ids(sims, n - 1) + if sims[n - 1].spec_is_submittable() {
            seq![sims[n - 1].internal_id]
        } else {
            Seq::empty()
        }
    }
}

/// Total byte size of the submittable jobs among the first `n`, with every
/// addition clamped at the largest representable count.
pub open spec fn submittable_bytes(sims: Seq<SimulationParams>, n: int) -> int
    decreases n,
{
    if n <= 0 {
        0
    } else {
        let rest = submittable_bytes(sims, n - 1);
        if sims[n - 1].spec_is_submittable() {
            let fs = if size_sum(sims[n - 1].files@) <= u64::MAX {
                size_sum(sims[n - 1].files@)
            } else {
                u64::MAX as int
            };
            if rest + fs <= u64::MAX {
                rest + fs
            } else {
                u64::MAX as int
            }
        } else {
            rest
        }
    }
}

/// One sidecar write per submittable job among the first `n`, marking it
/// `Sending`, in order.
pub open spec fn sending_persists(sims: Seq<SimulationParams>, n: int) -> Seq<Action>
    decreases n,
{
    if n <= 0 {
        Seq::empty()
    } else {
        sending_persists(sims, n - 1) + if sims[n - 1].spec_is_submittable() {
            seq![
                Action::Persist {
                    dir: sims[n - 1].dir,
                    state: SubmissionState::Sending,
                },
            ]
        } else {
            Seq::empty()
        }
    }
}

/// The job store with every submittable job of the first `m` marked
/// `Sending`.
pub open spec fn marked_sending(sims: Seq<SimulationParams>, m: int) -> Seq<SimulationParams> {
    Seq::new(
        sims.len(),
        |i: int|
            if i < m && sims[i].spec_is_submittable() {
                SimulationParams { submission_state: SubmissionState::Sending, ..sims[i] }
            } else {
                sims[i]
            },
    )
}

/// The terminal state a pipeline result maps the owning job to: the
/// remote handle on success, the rendered error report on failure.
pub open spec fn reported_state(
    res: Result<SimulationV7, Vec<String>>,
    st: SubmissionState,
) -> bool {
    match res {
        Ok(sim) => st == (SubmissionState::Sent { id: sim.id, browser_url: sim.browser_url }),
        Err(chain) => st matches SubmissionState::Error(m) && m@ == human_err_report_spec(
            chain.deep_view(),
        ),
    }
}

/// The reloaded job at position `i`: the freshly discovered job, its
/// correlation id reassigned by position, keeping the selection of the
/// previously known job backed by the same directory and defaulting a new
/// directory to selected.
pub open spec fn reloaded_job(
    old_sims: Seq<SimulationParams>,
    new_jobs: Seq<SimulationParams>,
    i: int,
    r: SimulationParams,
) -> bool {
    let sel = match find_dir_from(old_sims, new_jobs[i].dir@, 0) {
        Some(k) => old_sims[k].selected,
        None => true,
    };
    r == (SimulationParams { internal_id: i as u64, selected: sel, ..new_jobs[i] })
}

/// `post` is `pre` with another job store and, within an active project,
/// another activity; everything else is kept.
pub open spec fn with_active(
    pre: Batch,
    post: Batch,
    sims: Seq<SimulationParams>,
    astate: ActiveState,
) -> bool {
    &&& post.running == pre.running
    &&& post.term_width == pre.term_width
    &&& post.term_height == pre.term_height
    &&& post.simulations@ == sims
    &&& match (pre.state, post.state) {
        (
            State::Active { project: p1, selection_cursor: c1, scroll_position: s1, .. },
            State::Active { project: p2, state: a2, selection_cursor: c2, scroll_position: s2 },
        ) => p2 == p1 && a2 == astate && c2 == c1 && s2 == s1,
        _ => false,
    }
}

/// Like [`with_active`], but also moving the selection cursor and the
/// detail scroll position.
pub open spec fn with_active_cursor(
    pre: Batch,
    post: Batch,
    astate: ActiveState,
    cursor: int,
    scroll: int,
) -> bool {
    &&& post.running == pre.running
    &&& post.term_width == pre.term_width
    &&& post.term_height == pre.term_height
    &&& post.simulations == pre.simulations
    &&& match (pre.state, post.state) {
        (
            State::Active { project: p1, .. },
            State::Active { project: p2, state: a2, selection_cursor: c2, scroll_position: s2 },
        ) => p2 == p1 && a2 == astate && c2 == cursor && s2 == scroll,
        _ => false,
    }
}

/// The job store with the selection of the job under the cursor flipped;
/// out of range, the store is unchanged.
pub open spec fn toggled(sims: Seq<SimulationParams>, c: int) -> Seq<SimulationParams> {
    if 0 <= c < sims.len() {
        sims.update(c, SimulationParams { selected: !sims[c].selected, ..sims[c] })
    } else {
        sims
    }
}

/// Nothing changed and nothing to do.
pub open spec fn unchanged(pre: Batch, post: Batch, actions: Seq<Action>) -> bool {
    post == pre && actions == Seq::<Action>::empty()
}

/// The cursor moved one up, stopping at the top.
pub open spec fn cursor_up(cursor: usize) -> int {
    if cursor > 0 {
        cursor - 1
    } else {
        0
    }
}

/// The cursor moved one down, stopping at the last job.
pub open spec fn cursor_down(cursor: usize, len: nat) -> int {
    if cursor < usize::MAX && cursor + 1 < len {
        cursor + 1
    } else {
        cursor as int
    }
}

/// The scroll position moved one down, stopping at the machine limit.
pub open spec fn scroll_down(scroll: usize) -> int {
    if scroll < usize::MAX {
        scroll + 1
    } else {
        scroll as int
    }
}

/// How a key press transforms the session within an active project.
///
/// `project`, `astate`, `cursor` and `scroll` are the fields of the active
/// state of `pre`.
pub open spec fn active_key_step(
    pre: Batch,
    k: KeyEvent,
    project: ProjectV7,
    astate: ActiveState,
    cursor: usize,
    scroll: usize,
    post: Batch,
    actions: Seq<Action>,
) -> bool {
    let sims = pre.simulations@;
    match astate {
        ActiveState::ViewingList => {
            if k.code == KeyCode::Char(' ') {
                with_active(pre, post, toggled(sims, cursor as int), ActiveState::ViewingList)
                    && actions == Seq::<Action>::empty()
            } else if k.code == KeyCode::Char('r') && k.ctrl {
                reset_step(pre, post, cursor as int, ActiveState::ViewingList, actions)
            } else if k.code == KeyCode::Up {
                with_active_cursor(pre, post, ActiveState::ViewingList, cursor_up(cursor), 0)
                    && actions == Seq::<Action>::empty()
            } else if k.code == KeyCode::Down {
                with_active_cursor(
                    pre,
                    post,
                    ActiveState::ViewingList,
                    cursor_down(cursor, sims.len()),
                    0,
                ) && actions == Seq::<Action>::empty()
            } else if crate::picker::is_exit_key(k) {
                with_active(
                    pre,
                    post,
                    sims,
                    ActiveState::ConfirmExit { prev: ViewingFocus::List },
                ) && actions == Seq::<Action>::empty()
            } else if k.code == KeyCode::Tab {
                with_active(pre, post, sims, ActiveState::ViewingDetail) && actions
                    == Seq::<Action>::empty()
            } else if k.code == KeyCode::Char('o') && k.ctrl {
                confirm_submit_guard_step(pre, post, actions)
            } else if k.code == KeyCode::Char('l') && k.ctrl {
                with_active(pre, post, sims, ActiveState::ReloadingSims) && actions == seq![
                    Action::StartReload,
                ]
            } else {
                unchanged(pre, post, actions)
            }
        },
        ActiveState::ViewingDetail => {
            if k.code == KeyCode::Up && k.shift {
                with_active_cursor(pre, post, ActiveState::ViewingDetail, cursor_up(cursor), 0)
                    && actions == Seq::<Action>::empty()
            } else if k.code == KeyCode::Down && k.shift {
                with_active_cursor(
                    pre,
                    post,
                    ActiveState::ViewingDetail,
                    cursor_down(cursor, sims.len()),
                    0,
                ) && actions == Seq::<Action>::empty()
            } else if k.code == KeyCode::Up {
                with_active_cursor(
                    pre,
                    post,
                    ActiveState::ViewingDetail,
                    cursor as int,
                    cursor_up(scroll),
                ) && actions == Seq::<Action>::empty()
            } else if k.code == KeyCode::Down {
                with_active_cursor(
                    pre,
                    post,
                    ActiveState::ViewingDetail,
                    cursor as int,
                    scroll_down(scroll),
                ) && actions == Seq::<Action>::empty()
            } else if crate::picker::is_exit_key(k) {
                with_active(
                    pre,
                    post,
                    sims,
                    ActiveState::ConfirmExit { prev: ViewingFocus::Detail },
                ) && actions == Seq::<Action>::empty()
            } else if k.code == KeyCode::Tab {
                with_active(pre, post, sims, ActiveState::ViewingList) && actions
                    == Seq::<Action>::empty()
            } else if k.code == KeyCode::Char('o') && k.ctrl {
                confirm_submit_guard_step(pre, post, actions)
            } else if k.code == KeyCode::Char(' ') {
                with_active(pre, post, toggled(sims, cursor as int), ActiveState::ViewingDetail)
                    && actions == Seq::<Action>::empty()
            } else if k.code == KeyCode::Char('r') && k.ctrl {
                reset_step(pre, post, cursor as int, ActiveState::ViewingDetail, actions)
            } else if k.code == KeyCode::Char('l') && k.ctrl {
                with_active(pre, post, sims, ActiveState::ReloadingSims) && actions == seq![
                    Action::StartReload,
                ]
            } else {
                unchanged(pre, post, actions)
            }
        },
        ActiveState::ConfirmExit { prev } => {
            if k.code == KeyCode::Char('y') {
                post == (Batch { running: false, ..pre }) && actions == Seq::<Action>::empty()
            } else if k.code == KeyCode::Char('n') {
                with_active(pre, post, sims, prev.spec_to_state()) && actions == Seq::<
                    Action,
                >::empty()
            } else {
                unchanged(pre, post, actions)
            }
        },
        ActiveState::ConfirmSubmit => {
            if k.code == KeyCode::Char('y') {
                spawn_step(pre, project, post, actions)
            } else if k.code == KeyCode::Char('n') {
                with_active(pre, post, sims, ActiveState::ViewingList) && actions == Seq::<
                    Action,
                >::empty()
            } else {
                unchanged(pre, post, actions)
            }
        },
        ActiveState::ReloadingSims => unchanged(pre, post, actions),
        ActiveState::ReloadFailed { .. } => {
            with_active(pre, post, sims, ActiveState::ViewingList) && actions == Seq::<
                Action,
            >::empty()
        },
        ActiveState::Submitting { .. } => {
            if k.code == KeyCode::Char('q') {
                with_active(pre, post, sims, ActiveState::ViewingList) && actions == seq![
                    Action::CancelPipelines,
                ]
            } else {
                unchanged(pre, post, actions)
            }
        },
    }
}

/// An explicit user reset returns the job under the cursor to `Ready` and
/// flushes that state; out of range, nothing happens.
pub open spec fn reset_step(
    pre: Batch,
    post: Batch,
    c: int,
    astate: ActiveState,
    actions: Seq<Action>,
) -> bool {
    let sims = pre.simulations@;
    if 0 <= c < sims.len() {
        &&& with_active(
            pre,
            post,
            sims.update(
                c,
                SimulationParams { submission_state: SubmissionState::Ready, ..sims[c] },
            ),
            astate,
        )
        &&& actions == seq![
            Action::Persist { dir: sims[c].dir, state: SubmissionState::Ready },
        ]
    } else {
        with_active(pre, post, sims, astate) && actions == Seq::<Action>::empty()
    }
}

/// Submission is offered only while at least one job is submittable.
pub open spec fn confirm_submit_guard_step(pre: Batch, post: Batch, actions: Seq<Action>) -> bool {
    let sims = pre.simulations@;
    if exists|i: int| 0 <= i < sims.len() && (#[trigger] sims[i]).spec_is_submittable() {
        with_active(pre, post, sims, ActiveState::ConfirmSubmit) && actions == Seq::<
            Action,
        >::empty()
    } else {
        unchanged(pre, post, actions)
    }
}

/// The confirmed spawn: every submittable job is marked `Sending` and its
/// sidecar flushed, one pipeline per such job is spawned, and a fresh run
/// starts with the aggregate byte and job counters; with nothing to
/// submit, the session just returns to the list.
pub open spec fn spawn_step(
    pre: Batch,
    project: ProjectV7,
    post: Batch,
    actions: Seq<Action>,
) -> bool {
    let sims = pre.simulations@;
    let n = sims.len() as int;
    let idxs = submittable_indexes(sims, n);
    if idxs.len() == 0 {
        with_active(pre, post, sims, ActiveState::ViewingList) && actions == Seq::<
            Action,
        >::empty()
    } else {
        exists|pend: Vec<u64>, ixs: Vec<usize>|
            {
                &&& pend@ == submittable_ids(sims, n)
                &&& ixs@ == idxs
                &&& with_active(
                    pre,
                    post,
                    marked_sending(sims, n),
                    ActiveState::Submitting {
                        run: SubmissionRun {
                            bytes_count: submittable_bytes(sims, n) as u64,
                            bytes_progress: 0,
                            sims_count: idxs.len() as usize,
                            sims_progress: 0,
                            pending: pend,
                        },
                    },
                )
                &&& actions == sending_persists(sims, n) + seq![
                    Action::SpawnPipelines { project_id: project.id, job_indexes: ixs },
                ]
            }
    }
}

/// How an event transforms the session within an active project.
pub open spec fn active_step(
    pre: Batch,
    event: Event,
    post: Batch,
    actions: Seq<Action>,
) -> bool {
    let sims = pre.simulations@;
    match pre.state {
        State::Active {
            project,
            state: astate,
            selection_cursor: cursor,
            scroll_position: scroll,
        } => match event {
            Event::FileUploaded(sz) => match astate {
                ActiveState::Submitting { run } => {
                    &&& with_active(
                        pre,
                        post,
                        sims,
                        ActiveState::Submitting {
                            run: SubmissionRun {
                                bytes_progress: if run.bytes_progress + sz <= u64::MAX {
                                    (run.bytes_progress + sz) as u64
                                } else {
                                    u64::MAX
                                },
                                ..run
                            },
                        },
                    )
                    &&& actions == Seq::<Action>::empty()
                },
                _ => unchanged(pre, post, actions),
            },
            Event::SimSubmitted { internal_id, res } => match astate {
                ActiveState::Submitting { run } => {
                    let progress2 = run.sims_progress + 1;
                    match find_id_from(sims, internal_id, 0) {
                        Some(i) => exists|st: SubmissionState|
                            {
                                &&& reported_state(res, st)
                                &&& actions == seq![
                                    Action::Persist { dir: sims[i].dir, state: st },
                                ]
                                &&& {
                                    let sims2 = sims.update(
                                        i,
                                        SimulationParams { submission_state: st, ..sims[i] },
                                    );
                                    let pending2 = match find_u64_from(
                                        run.pending@,
                                        internal_id,
                                        0,
                                    ) {
                                        Some(kk) => run.pending@.remove(kk),
                                        None => run.pending@,
                                    };
                                    if progress2 >= run.sims_count {
                                        with_active(pre, post, sims2, ActiveState::ViewingList)
                                    } else {
                                        exists|p2: Vec<u64>|
                                            p2@ == pending2 && with_active(
                                                pre,
                                                post,
                                                sims2,
                                                ActiveState::Submitting {
                                                    run: SubmissionRun {
                                                        sims_progress: progress2 as usize,
                                                        pending: p2,
                                                        ..run
                                                    },
                                                },
                                            )
                                    }
                                }
                            },
                        None => {
                            &&& actions == Seq::<Action>::empty()
                            &&& if progress2 >= run.sims_count {
                                with_active(pre, post, sims, ActiveState::ViewingList)
                            } else {
                                with_active(
                                    pre,
                                    post,
                                    sims,
                                    ActiveState::Submitting {
                                        run: SubmissionRun {
                                            sims_progress: progress2 as usize,
                                            ..run
                                        },
                                    },
                                )
                            }
                        },
                    }
                },
                _ => unchanged(pre, post, actions),
            },
            Event::JobsReloaded(r) => match astate {
                ActiveState::ReloadingSims => match r {
                    Ok(new_jobs) => {
                        &&& actions == Seq::<Action>::empty()
                        &&& post.simulations@.len() == new_jobs@.len()
                        &&& forall|i: int|
                            0 <= i < new_jobs@.len() ==> reloaded_job(
                                sims,
                                new_jobs@,
                                i,
                                #[trigger] post.simulations@[i],
                            )
                        &&& post.running == pre.running
                        &&& post.term_width == pre.term_width
                        &&& post.term_height == pre.term_height
                        &&& match post.state {
                            State::Active {
                                project: p2,
                                state: a2,
                                selection_cursor: c2,
                                scroll_position: s2,
                            } => p2 == project && a2 == ActiveState::ViewingList && c2 == cursor
                                && s2 == scroll,
                            _ => false,
                        }
                    },
                    Err(msg) => {
                        with_active(pre, post, sims, ActiveState::ReloadFailed { message: msg })
                            && actions == Seq::<Action>::empty()
                    },
                },
                _ => unchanged(pre, post, actions),
            },
            Event::KeyPressed(k) => active_key_step(
                pre,
                k,
                project,
                astate,
                cursor,
                scroll,
                post,
                actions,
            ),
            _ => unchanged(pre, post, actions),
        },
        _ => false,
    }
}

/// The session's whole transition relation: from `pre` under `event` to
/// `post`, emitting `actions`.  Resizes and the exit event act in every
/// state; every other event is routed only to the current state.
pub open spec fn step(pre: Batch, event: Event, post: Batch, actions: Seq<Action>) -> bool {
    match event {
        Event::TerminalResized { width, height } => {
            post == (Batch { term_width: width, term_height: height, ..pre }) && actions == Seq::<
                Action,
            >::empty()
        },
        Event::Exit => {
            post == (Batch { running: false, ..pre }) && actions == Seq::<Action>::empty()
        },
        _ => match pre.state {
            State::Init => unchanged(pre, post, actions),
            State::PickingProject { state: ps } => match event {
                Event::ProjectSelected(p) => {
                    &&& post == (Batch {
                        state: State::Active {
                            project: p,
                            state: ActiveState::ViewingList,
                            selection_cursor: 0,
                            scroll_position: 0,
                        },
                        ..pre
                    })
                    &&& actions == Seq::<Action>::empty()
                },
                _ => {
                    &&& post.running == pre.running
                    &&& post.term_width == pre.term_width
                    &&& post.term_height == pre.term_height
                    &&& post.simulations == pre.simulations
                    &&& match post.state {
                        State::PickingProject { state: ps2 } => crate::picker::picker_step(
                            ps,
                            event,
                            ps2,
                            actions,
                        ),
                        _ => false,
                    }
                },
            },
            State::Active { .. } => active_step(pre, event, post, actions),
        },
    }
}

/// A vacant job value, used to swap a job out of the store while one of
/// its fields is replaced.
fn blank_sim() -> SimulationParams {
    SimulationParams {
        internal_id: 0,
        dir: String::new(),
        params: Default::default(),
        files: Vec::new(),
        selected: false,
        submission_state: SubmissionState::Ready,
    }
}

/// Replaces the submission state of the job at `i`.
fn set_state_at(sims: &mut Vec<SimulationParams>, i: usize, st: SubmissionState)
    requires
        i < old(sims)@.len(),
    ensures
        final(sims)@ == old(sims)@.update(
            i as int,
            SimulationParams { submission_state: st, ..old(sims)@[i as int] },
        ),
{
    let mut tmp = blank_sim();
    sims.set_and_swap(i, &mut tmp);
    tmp.submission_state = st;
    sims.set_and_swap(i, &mut tmp);
    proof {
        assert(sims@ =~= old(sims)@.update(
            i as int,
            SimulationParams { submission_state: st, ..old(sims)@[i as int] },
        ));
    }
}

/// Flips the selection of the job at `i`.
fn toggle_selected_at(sims: &mut Vec<SimulationParams>, i: usize)
    requires
        i < old(sims)@.len(),
    ensures
        final(sims)@ == old(sims)@.update(
            i as int,
            SimulationParams { selected: !old(sims)@[i as int].selected, ..old(sims)@[i as int] },
        ),
{
    let mut tmp = blank_sim();
    sims.set_and_swap(i, &mut tmp);
    tmp.selected = !tmp.selected;
    sims.set_and_swap(i, &mut tmp);
    proof {
        assert(sims@ =~= old(sims)@.update(
            i as int,
            SimulationParams {
                selected: !old(sims)@[i as int].selected,
                ..old(sims)@[i as int]
            },
        ));
    }
}

/// Reassigns the correlation id and the selection of the job at `i`, as
/// reconciliation after a reload requires.
fn set_reloaded_at(sims: &mut Vec<SimulationParams>, i: usize, id: u64, sel: bool)
    requires
        i < old(sims)@.len(),
    ensures
        final(sims)@ == old(sims)@.update(
            i as int,
            SimulationParams { internal_id: id, selected: sel, ..old(sims)@[i as int] },
        ),
{
    let mut tmp = blank_sim();
    sims.set_and_swap(i, &mut tmp);
    tmp.internal_id = id;
    tmp.selected = sel;
    sims.set_and_swap(i, &mut tmp);
    proof {
        assert(sims@ =~= old(sims)@.update(
            i as int,
            SimulationParams { internal_id: id, selected: sel, ..old(sims)@[i as int] },
        ));
    }
}

/// First job carrying this correlation id, if any.
fn find_job_index(sims: &Vec<SimulationParams>, id: u64) -> (r: Option<usize>)
    ensures
        match r {
            Some(i) => i < sims@.len() && find_id_from(sims@, id, 0) == Some(i as int),
            None => find_id_from(sims@, id, 0) is None,
        },
{
    let n = sims.len();
    for i in 0..n
        invariant
            n == sims@.len(),
            find_id_from(sims@, id, 0) == find_id_from(sims@, id, i as int),
    {
        if sims[i].internal_id == id {
            return Some(i);
        }
    }
    None
}

/// First position of this value in the list, if any.
fn find_u64_index(v: &Vec<u64>, x: u64) -> (r: Option<usize>)
    ensures
        match r {
            Some(k) => k < v@.len() && find_u64_from(v@, x, 0) == Some(k as int),
            None => find_u64_from(v@, x, 0) is None,
        },
{
    let n = v.len();
    for k in 0..n
        invariant
            n == v@.len(),
            find_u64_from(v@, x, 0) == find_u64_from(v@, x, k as int),
    {
        if v[k] == x {
            return Some(k);
        }
    }
    None
}

/// First job backed by this directory, if any.
fn find_dir_index(sims: &Vec<SimulationParams>, dir: &String) -> (r: Option<usize>)
    ensures
        match r {
            Some(i) => i < sims@.len() && find_dir_from(sims@, dir@, 0) == Some(i as int),
            None => find_dir_from(sims@, dir@, 0) is None,
        },
{
    let n = sims.len();
    for i in 0..n
        invariant
            n == sims@.len(),
            find_dir_from(sims@, dir@, 0) == find_dir_from(sims@, dir@, i as int),
    {
        if sims[i].dir == *dir {
            return Some(i);
        }
    }
    None
}

/// Whether at least one job is submittable.
fn has_submittable(sims: &Vec<SimulationParams>) -> (r: bool)
    ensures
        r == exists|i: int|
            0 <= i < sims@.len() && (#[trigger] sims@[i]).spec_is_submittable(),
{
    let n = sims.len();
    for i in 0..n
        invariant
            n == sims@.len(),
            forall|j: int| 0 <= j < i ==> !(#[trigger] sims@[j]).spec_is_submittable(),
    {
        if sims[i].is_submittable() {
            return true;
        }
    }
    false
}

/// Copies a submission state value.
fn clone_submission_state(st: &SubmissionState) -> (r: SubmissionState)
    ensures
        r == *st,
{
    match st {
        SubmissionState::Ready => SubmissionState::Ready,
        SubmissionState::Sending => SubmissionState::Sending,
        SubmissionState::Error(m) => SubmissionState::Error(m.clone()),
        SubmissionState::Sent { id, browser_url } => SubmissionState::Sent {
            id: id.clone(),
            browser_url: browser_url.clone(),
        },
    }
}

/// What a search for `x` at or after `k` guarantees: the found position
/// holds `x` and earlier positions do not; a miss means no position does.
proof fn lemma_find_u64_props(v: Seq<u64>, x: u64, k: int)
    requires
        0 <= k <= v.len(),
    ensures
        match find_u64_from(v, x, k) {
            Some(j) => k <= j < v.len() && v[j] == x && forall|m: int|
                k <= m < j ==> v[m] != x,
            None => forall|m: int| k <= m < v.len() ==> v[m] != x,
        },
    decreases v.len() - k,
{
    if k < v.len() && v[k] != x {
        lemma_find_u64_props(v, x, k + 1);
    }
}

/// The same guarantees for a search by correlation id.
proof fn lemma_find_id_props(sims: Seq<SimulationParams>, id: u64, k: int)
    requires
        0 <= k <= sims.len(),
    ensures
        match find_id_from(sims, id, k) {
            Some(j) => k <= j < sims.len() && sims[j].internal_id == id,
            None => forall|m: int| k <= m < sims.len() ==> sims[m].internal_id != id,
        },
    decreases sims.len() - k,
{
    if k < sims.len() && sims[k].internal_id != id {
        lemma_find_id_props(sims, id, k + 1);
    }
}

/// The submittable-job enumerations agree: ids and indexes pair up, the
/// indexes are strictly increasing positions of submittable jobs.
proof fn lemma_submittable_maps(sims: Seq<SimulationParams>, m: int)
    requires
        0 <= m <= sims.len(),
        sims.len() <= usize::MAX,
    ensures
        submittable_ids(sims, m).len() == submittable_indexes(sims, m).len(),
        forall|k: int|
            0 <= k < submittable_indexes(sims, m).len() ==> {
                let ix = (#[trigger] submittable_indexes(sims, m)[k]) as int;
                &&& 0 <= ix < m
                &&& sims[ix].spec_is_submittable()
                &&& submittable_ids(sims, m)[k] == sims[ix].internal_id
            },
        forall|k: int, l: int|
            0 <= k < l < submittable_indexes(sims, m).len()
                ==> (#[trigger] submittable_indexes(sims, m)[k]) < (
            #[trigger] submittable_indexes(sims, m)[l]),
        forall|j: int|
            0 <= j < m && (#[trigger] sims[j]).spec_is_submittable()
                ==> submittable_indexes(sims, m).contains(j as usize),
    decreases m,
{
    if m > 0 {
        lemma_submittable_maps(sims, m - 1);
        if sims[m - 1].spec_is_submittable() {
            assert(submittable_indexes(sims, m) == submittable_indexes(sims, m - 1) + seq![
                (m - 1) as usize,
            ]);
            assert(submittable_ids(sims, m) == submittable_ids(sims, m - 1) + seq![
                sims[m - 1].internal_id,
            ]);
            assert forall|k: int| 0 <= k < submittable_indexes(sims, m).len() implies {
                let ix = (#[trigger] submittable_indexes(sims, m)[k]) as int;
                &&& 0 <= ix < m
                &&& sims[ix].spec_is_submittable()
                &&& submittable_ids(sims, m)[k] == sims[ix].internal_id
            } by {
                assert((submittable_indexes(sims, m - 1) + seq![(m - 1) as usize]).len()
                    == submittable_indexes(sims, m - 1).len() + 1);
                assert((submittable_ids(sims, m - 1) + seq![sims[m - 1].internal_id]).len()
                    == submittable_ids(sims, m - 1).len() + 1);
                if k < submittable_indexes(sims, m - 1).len() {
                    assert((submittable_indexes(sims, m - 1) + seq![(m - 1) as usize])[k]
                        == submittable_indexes(sims, m - 1)[k]);
                    assert((submittable_ids(sims, m - 1) + seq![sims[m - 1].internal_id])[k]
                        == submittable_ids(sims, m - 1)[k]);
                } else {
                    assert((submittable_indexes(sims, m - 1) + seq![(m - 1) as usize])[k] == (m
                        - 1) as usize);
                    assert((submittable_ids(sims, m - 1) + seq![sims[m - 1].internal_id])[k]
                        == sims[m - 1].internal_id);
                }
            }
            assert forall|j: int|
                0 <= j < m && (#[trigger] sims[j]).spec_is_submittable() implies submittable_indexes(
                sims,
                m,
            ).contains(j as usize) by {
                assert((submittable_indexes(sims, m - 1) + seq![(m - 1) as usize]).len()
                    == submittable_indexes(sims, m - 1).len() + 1);
                if j == m - 1 {
                    assert((submittable_indexes(sims, m - 1) + seq![(m - 1) as usize])[
                        submittable_indexes(sims, m - 1).len() as int] == (m - 1) as usize);
                } else {
                    assert(submittable_indexes(sims, m - 1).contains(j as usize));
                    let k = choose|k: int|
                        0 <= k < submittable_indexes(sims, m - 1).len() && (
                        #[trigger] submittable_indexes(sims, m - 1)[k]) == j as usize;
                    assert((submittable_indexes(sims, m - 1) + seq![(m - 1) as usize])[k]
                        == submittable_indexes(sims, m - 1)[k]);
                }
            }
            assert forall|k: int, l: int|
                0 <= k < l < submittable_indexes(sims, m).len() implies (
            #[trigger] submittable_indexes(sims, m)[k]) < (
            #[trigger] submittable_indexes(sims, m)[l]) by {
                assert((submittable_indexes(sims, m - 1) + seq![(m - 1) as usize]).len()
                    == submittable_indexes(sims, m - 1).len() + 1);
                if l < submittable_indexes(sims, m - 1).len() {
                    assert((submittable_indexes(sims, m - 1) + seq![(m - 1) as usize])[k]
                        == submittable_indexes(sims, m - 1)[k]);
                    assert((submittable_indexes(sims, m - 1) + seq![(m - 1) as usize])[l]
                        == submittable_indexes(sims, m - 1)[l]);
                } else {
                    assert((submittable_indexes(sims, m - 1) + seq![(m - 1) as usize])[l] == (m
                        - 1) as usize);
                    assert((submittable_indexes(sims, m - 1) + seq![(m - 1) as usize])[k]
                        == submittable_indexes(sims, m - 1)[k]);
                    assert((submittable_indexes(sims, m - 1)[k] as int) < m - 1);
                }
            }
        } else {
            assert(submittable_indexes(sims, m) =~= submittable_indexes(sims, m - 1));
            assert(submittable_ids(sims, m) =~= submittable_ids(sims, m - 1));
        }
    }
}

/// With no submittable job in the first `m`, the spawn writes nothing.
proof fn lemma_sending_persists_empty(sims: Seq<SimulationParams>, m: int)
    requires
        0 <= m <= sims.len(),
        forall|j: int| 0 <= j < m ==> !(#[trigger] sims[j]).spec_is_submittable(),
    ensures
        sending_persists(sims, m) == Seq::<Action>::empty(),
    decreases m,
{
    if m > 0 {
        lemma_sending_persists_empty(sims, m - 1);
        assert(sending_persists(sims, m) =~= Seq::<Action>::empty());
    }
}

/// A freshly spawned run is well-formed: its in-flight ids are the ids of
/// the (distinct) submittable jobs, each of which the spawn just marked
/// `Sending`.
proof fn lemma_spawn_run_wf(sims: Seq<SimulationParams>, ids: Seq<u64>, marked: Seq<SimulationParams>)
    requires
        sims.len() <= usize::MAX,
        ids_distinct(sims),
        ids == submittable_ids(sims, sims.len() as int),
        marked == marked_sending(sims, sims.len() as int),
    ensures
        ids_distinct(marked),
        forall|k: int, l: int| 0 <= k < l < ids.len() ==> ids[k] != ids[l],
        forall|k: int| 0 <= k < ids.len() ==> pending_owned(marked, #[trigger] ids[k]),
{
    let n = sims.len() as int;
    lemma_submittable_maps(sims, n);
    assert(forall|i: int|
        0 <= i < n ==> (#[trigger] marked[i]).internal_id == sims[i].internal_id);
    assert forall|k: int, l: int| 0 <= k < l < ids.len() implies ids[k] != ids[l] by {
        let ik = submittable_indexes(sims, n)[k] as int;
        let il = submittable_indexes(sims, n)[l] as int;
        assert(ik < il);
        assert(sims[ik].internal_id != sims[il].internal_id);
        assert(ids[k] == sims[ik].internal_id);
        assert(ids[l] == sims[il].internal_id);
    }
    assert forall|k: int| 0 <= k < ids.len() implies pending_owned(marked, #[trigger] ids[k]) by {
        let ix = submittable_indexes(sims, n)[k] as int;
        assert(0 <= ix < marked.len());
        assert(marked[ix].internal_id == ids[k]);
        assert(marked[ix].submission_state is Sending);
    }
}

/// Handling a pipeline report keeps the run well-formed: the reported
/// job leaves `Sending`, its pipeline id leaves the in-flight set, and
/// every remaining in-flight id still has its distinct `Sending` owner.
proof fn lemma_report_run_wf(
    sims: Seq<SimulationParams>,
    run: SubmissionRun,
    i: int,
    id: u64,
    st: SubmissionState,
    sims2: Seq<SimulationParams>,
    pending2: Seq<u64>,
)
    requires
        ids_distinct(sims),
        run_wf(run, sims),
        0 <= i < sims.len(),
        sims[i].internal_id == id,
        sims2 == sims.update(i, SimulationParams { submission_state: st, ..sims[i] }),
        pending2 == (match find_u64_from(run.pending@, id, 0) {
            Some(kk) => run.pending@.remove(kk),
            None => run.pending@,
        }),
    ensures
        ids_distinct(sims2),
        forall|k: int, l: int| 0 <= k < l < pending2.len() ==> pending2[k] != pending2[l],
        forall|k: int| 0 <= k < pending2.len() ==> pending_owned(sims2, #[trigger] pending2[k]),
{
    let pending = run.pending@;
    lemma_find_u64_props(pending, id, 0);
    assert(forall|j: int|
        0 <= j < sims2.len() ==> (#[trigger] sims2[j]).internal_id == sims[j].internal_id);
    // Every entry of the shrunk in-flight set is an entry of the old one,
    // and none of them is the reported id.
    assert forall|k: int| 0 <= k < pending2.len() implies exists|k0: int|
        0 <= k0 < pending.len() && pending[k0] == #[trigger] pending2[k] && pending2[k] != id by {
        match find_u64_from(pending, id, 0) {
            Some(kk) => {
                if k < kk {
                    assert(pending2[k] == pending[k]);
                    assert(pending[k] != id);
                } else {
                    assert(pending2[k] == pending[k + 1]);
                    assert(pending[kk] == id);
                    if pending[k + 1] == id {
                        assert(pending[k + 1] == pending[kk]);
                        assert(k + 1 != kk);
                        assert(false);
                    }
                }
            },
            None => {
                assert(pending2[k] == pending[k]);
                assert(pending[k] != id);
            },
        }
    }
    assert forall|k: int, l: int|
        0 <= k < l < pending2.len() implies pending2[k] != pending2[l] by {
        match find_u64_from(pending, id, 0) {
            Some(kk) => {
                let k0 = if k < kk {
                    k
                } else {
                    k + 1
                };
                let l0 = if l < kk {
                    l
                } else {
                    l + 1
                };
                assert(pending2[k] == pending[k0]);
                assert(pending2[l] == pending[l0]);
                assert(k0 < l0);
            },
            None => {},
        }
    }
    assert forall|k: int| 0 <= k < pending2.len() implies pending_owned(
        sims2,
        #[trigger] pending2[k],
    ) by {
        let x = pending2[k];
        let k0 = choose|k0: int|
            0 <= k0 < pending.len() && pending[k0] == x && pending2[k] != id;
        assert(pending[k0] == x);
        assert(pending_owned(sims, pending[k0]));
        let i0 = choose|i0: int|
            0 <= i0 < sims.len() && (#[trigger] sims[i0]).internal_id == pending[k0]
                && sims[i0].submission_state is Sending;
        assert(sims[i0].internal_id == x);
        assert(x != id);
        assert(i0 != i);
        assert(sims2[i0] == sims[i0]);
        assert(0 <= i0 < sims2.len());
        assert(sims2[i0].internal_id == pending2[k]);
        assert(sims2[i0].submission_state is Sending);
        assert(pending_owned(sims2, pending2[k]));
    }
}

impl Batch {
    /// A fresh session over the given jobs, with a correlation id assigned
    /// to each by position; nothing is running yet.
    pub fn new(simulations: Vec<SimulationParams>) -> (r: Batch)
        ensures
            r.wf(),
            r.running == false,
            r.state is Init,
            r.simulations@.len() == simulations@.len(),
            forall|i: int|
                0 <= i < simulations@.len() ==> #[trigger] r.simulations@[i]
                    == (SimulationParams { internal_id: i as u64, ..simulations@[i] }),
    {
        let mut sims = simulations;
        let ghost orig = sims@;
        let n = sims.len();
        for i in 0..n
            invariant
                n == orig.len(),
                sims@.len() == orig.len(),
                forall|j: int|
                    0 <= j < i ==> #[trigger] sims@[j] == (SimulationParams {
                        internal_id: j as u64,
                        ..orig[j]
                    }),
                forall|j: int| i <= j < n ==> #[trigger] sims@[j] == orig[j],
        {
            let sel = sims[i].selected;
            set_reloaded_at(&mut sims, i, i as u64, sel);
        }
        let r = Batch {
            running: false,
            term_width: 0,
            term_height: 0,
            simulations: sims,
            state: State::Init,
        };
        proof {
            assert forall|i: int, j: int| 0 <= i < j < r.simulations@.len() implies (
            #[trigger] r.simulations@[i]).internal_id != (
            #[trigger] r.simulations@[j]).internal_id by {
                assert(r.simulations@[i].internal_id == i as u64);
                assert(r.simulations@[j].internal_id == j as u64);
            }
        }
        r
    }

    /// Brings the session up: marks it running and, from the initial
    /// state, starts the first background project fetch and waits for it.
    pub fn start(&mut self) -> (actions: Vec<Action>)
        requires
            old(self).wf(),
        ensures
            final(self).wf(),
            old(self).state is Init ==> {
                &&& *final(self) == (Batch {
                    running: true,
                    state: State::PickingProject { state: ProjectPickerState::Loading },
                    ..*old(self)
                })
                &&& actions@ == seq![Action::RefreshProjects]
            },
            !(old(self).state is Init) ==> {
                &&& *final(self) == (Batch { running: true, ..*old(self) })
                &&& actions@ == Seq::<Action>::empty()
            },
    {
        self.running = true;
        let mut actions: Vec<Action> = Vec::new();
        if matches!(self.state, State::Init) {
            self.state = State::PickingProject { state: ProjectPickerState::Loading };
            actions.push(Action::RefreshProjects);
        }
        actions
    }

    /// The terminal is too small for the interface.
    pub fn is_term_size_not_enough(&self) -> (r: bool)
        ensures
            r == (self.term_width < 110 || self.term_height < 38),
    {
        self.term_width < 110 || self.term_height < 38
    }

    /// Routes one event to the session, as [`step`] describes, and keeps
    /// the session well-formed.
    pub fn handle_event(&mut self, event: Event) -> (actions: Vec<Action>)
        requires
            old(self).wf(),
        ensures
            final(self).wf(),
            step(*old(self), event, *final(self), actions@),
    {
        let event = match event {
            Event::TerminalResized { width, height } => {
                self.term_width = width;
                self.term_height = height;
                return Vec::new();
            },
            Event::Exit => {
                self.running = false;
                return Vec::new();
            },
            other => other,
        };
        if matches!(self.state, State::Init) {
            return Vec::new();
        }
        if matches!(self.state, State::PickingProject { .. }) {
            if let Event::ProjectSelected(p) = event {
                self.state = State::Active {
                    project: p,
                    state: ActiveState::ViewingList,
                    selection_cursor: 0,
                    scroll_position: 0,
                };
                return Vec::new();
            }
            if let State::PickingProject { state: ps } = &mut self.state {
                return ps.handle_event(event);
            }
            proof {
                assert(false);
            }
            return Vec::new();
        }
        self.handle_event_state_active(event)
    }

    /// Routes one event within an active project, as [`active_step`]
    /// describes: progress and result events drive the running submission,
    /// a finished reload replaces the job store, and key presses act on
    /// the current activity.
    fn handle_event_state_active(&mut self, event: Event) -> (actions: Vec<Action>)
        requires
            old(self).wf(),
            old(self).state is Active,
        ensures
            final(self).wf(),
            active_step(*old(self), event, *final(self), actions@),
    {
        match event {
            Event::FileUploaded(sz) => self.on_file_uploaded(sz),
            Event::SimSubmitted { internal_id, res } => self.on_sim_submitted(internal_id, res),
            Event::JobsReloaded(r) => self.on_jobs_reloaded(r),
            Event::KeyPressed(k) => self.on_key_active(k),
            _ => Vec::new(),
        }
    }

    /// A pipeline transferred more bytes: advance the run's byte counter.
    fn on_file_uploaded(&mut self, sz: u64) -> (actions: Vec<Action>)
        requires
            old(self).wf(),
            old(self).state is Active,
        ensures
            final(self).wf(),
            active_step(*old(self), Event::FileUploaded(sz), *final(self), actions@),
    {
        let mut actions: Vec<Action> = Vec::new();
        if let State::Active { state: astate, .. } = &mut self.state {
            if let ActiveState::Submitting { run } = astate {
                run.bytes_progress = crate::saturating_add_bytes(run.bytes_progress, sz);
            }
        }
        actions
    }

    /// A pipeline reported: record the terminal state of the owning job,
    /// flush it, retire the pipeline, and close the run when it was the
    /// last one out.
    fn on_sim_submitted(
        &mut self,
        internal_id: u64,
        res: Result<SimulationV7, Vec<String>>,
    ) -> (actions: Vec<Action>)
        requires
            old(self).wf(),
            old(self).state is Active,
        ensures
            final(self).wf(),
            active_step(
                *old(self),
                Event::SimSubmitted { internal_id, res },
                *final(self),
                actions@,
            ),
    {
        let mut actions: Vec<Action> = Vec::new();
        if !matches!(
            self.state,
            State::Active { state: ActiveState::Submitting { .. }, .. },
        ) {
            return actions;
        }
        let found = find_job_index(&self.simulations, internal_id);
        let ghost pre_sims = self.simulations@;
        let ghost mut stg: SubmissionState = SubmissionState::Ready;
        proof {
            lemma_find_id_props(pre_sims, internal_id, 0);
        }
        if let Some(i) = found {
            let st = match res {
                Ok(sim) => SubmissionState::Sent { id: sim.id, browser_url: sim.browser_url },
                Err(chain) => SubmissionState::Error(human_err_report(&chain)),
            };
            proof {
                stg = st;
                assert(reported_state(res, stg));
            }
            let st2 = clone_submission_state(&st);
            let dir = self.simulations[i].dir.clone();
            set_state_at(&mut self.simulations, i, st);
            actions.push(Action::Persist { dir, state: st2 });
            proof {
                assert(actions@ =~= seq![
                    Action::Persist { dir: pre_sims[i as int].dir, state: stg },
                ]);
            }
        }
        if let State::Active { state: astate, .. } = &mut self.state {
            if let ActiveState::Submitting { run } = astate {
                let ghost pre_run = *run;
                if let Some(_i) = found {
                    if let Some(kk) = find_u64_index(&run.pending, internal_id) {
                        run.pending.remove(kk);
                    }
                }
                run.sims_progress = run.sims_progress + 1;
                proof {
                    if let Some(i) = found {
                        assert(run.pending@ == (match find_u64_from(
                            pre_run.pending@,
                            internal_id,
                            0,
                        ) {
                            Some(kk) => pre_run.pending@.remove(kk),
                            None => pre_run.pending@,
                        }));
                        if run.sims_progress < run.sims_count {
                            lemma_report_run_wf(
                                pre_sims,
                                pre_run,
                                i as int,
                                internal_id,
                                stg,
                                self.simulations@,
                                run.pending@,
                            );
                        }
                    }
                }
                if run.sims_progress >= run.sims_count {
                    *astate = ActiveState::ViewingList;
                }
            }
        }
        proof {
            let pre = *old(self);
            match pre.state {
                State::Active { state: ActiveState::Submitting { run: run0 }, .. } => {
                    let progress2 = run0.sims_progress + 1;
                    match found {
                        Some(i) => {
                            let gi = i as int;
                            let sims2 = pre_sims.update(
                                gi,
                                SimulationParams { submission_state: stg, ..pre_sims[gi] },
                            );
                            assert(self.simulations@ == sims2);
                            if progress2 >= run0.sims_count {
                                assert(with_active(pre, *self, sims2, ActiveState::ViewingList));
                            } else {
                                match &self.state {
                                    State::Active {
                                        state: ActiveState::Submitting { run: run2 },
                                        ..
                                    } => {
                                        assert(*run2 == (SubmissionRun {
                                            sims_progress: progress2 as usize,
                                            pending: run2.pending,
                                            ..run0
                                        }));
                                        assert(run2.pending@ == (match find_u64_from(
                                            run0.pending@,
                                            internal_id,
                                            0,
                                        ) {
                                            Some(kk) => run0.pending@.remove(kk),
                                            None => run0.pending@,
                                        }));
                                        assert(with_active(
                                            pre,
                                            *self,
                                            sims2,
                                            ActiveState::Submitting {
                                                run: SubmissionRun {
                                                    sims_progress: progress2 as usize,
                                                    pending: run2.pending,
                                                    ..run0
                                                },
                                            },
                                        ));
                                    },
                                    _ => {
                                        assert(false);
                                    },
                                }
                            }
                        },
                        None => {},
                    }
                },
                _ => {
                    assert(false);
                },
            }
            assert(active_step(
                *old(self),
                Event::SimSubmitted { internal_id, res },
                *self,
                actions@,
            ));
            assert(self.wf());
        }
        actions
    }

    /// A reload finished: reconcile the rediscovered jobs with the known
    /// selection, or surface the discovery error, leaving the previous
    /// job list untouched.
    fn on_jobs_reloaded(&mut self, r: Result<Vec<SimulationParams>, String>) -> (actions: Vec<
        Action,
    >)
        requires
            old(self).wf(),
            old(self).state is Active,
        ensures
            final(self).wf(),
            active_step(*old(self), Event::JobsReloaded(r), *final(self), actions@),
    {
        let mut actions: Vec<Action> = Vec::new();
        if !matches!(
            self.state,
            State::Active { state: ActiveState::ReloadingSims, .. },
        ) {
            return actions;
        }
        match r {
            Ok(new_jobs) => {
                let mut new_jobs = new_jobs;
                let ghost orig_new = new_jobs@;
                let ghost pre_sims = self.simulations@;
                let n2 = new_jobs.len();
                for i in 0..n2
                    invariant
                        n2 == orig_new.len(),
                        new_jobs@.len() == orig_new.len(),
                        self.simulations@ == pre_sims,
                        forall|j: int| i <= j < n2 ==> #[trigger] new_jobs@[j]
                            == orig_new[j],
                        forall|j: int|
                            0 <= j < i ==> reloaded_job(
                                pre_sims,
                                orig_new,
                                j,
                                #[trigger] new_jobs@[j],
                            ),
                {
                    let sel = match find_dir_index(&self.simulations, &new_jobs[i].dir) {
                        Some(kk) => self.simulations[kk].selected,
                        None => true,
                    };
                    set_reloaded_at(&mut new_jobs, i, i as u64, sel);
                }
                self.simulations = new_jobs;
                if let State::Active { state: astate, .. } = &mut self.state {
                    *astate = ActiveState::ViewingList;
                }
                proof {
                    assert forall|i: int, j: int|
                        0 <= i < j < self.simulations@.len() implies (
                    #[trigger] self.simulations@[i]).internal_id != (
                    #[trigger] self.simulations@[j]).internal_id by {
                        assert(reloaded_job(pre_sims, orig_new, i, self.simulations@[i]));
                        assert(reloaded_job(pre_sims, orig_new, j, self.simulations@[j]));
                        assert(self.simulations@[i].internal_id == i as u64);
                        assert(self.simulations@[j].internal_id == j as u64);
                    }
                    assert(active_step(*old(self), Event::JobsReloaded(r), *self, actions@));
                    assert(self.wf());
                }
                actions
            },
            Err(msg) => {
                if let State::Active { state: astate, .. } = &mut self.state {
                    *astate = ActiveState::ReloadFailed { message: msg };
                }
                proof {
                    assert(active_step(*old(self), Event::JobsReloaded(r), *self, actions@));
                    assert(self.wf());
                }
                actions
            },
        }
    
    }

    /// A key press within an active project.
    fn on_key_active(&mut self, k: KeyEvent) -> (actions: Vec<Action>)
        requires
            old(self).wf(),
            old(self).state is Active,
        ensures
            final(self).wf(),
            active_step(*old(self), Event::KeyPressed(k), *final(self), actions@),
    {
        let mut actions: Vec<Action> = Vec::new();
        let ghost pre = *old(self);
        if matches!(self.state, State::Active { state: ActiveState::ConfirmSubmit, .. }) {
            if k.code == KeyCode::Char('y') {
                return self.spawn_submittable();
            }
        }
        if let State::Active { project, state: astate, selection_cursor, scroll_position } =
            &mut self.state {
            match astate {
                ActiveState::ViewingList => {
                    if k.code == KeyCode::Char(' ') {
                        let c = *selection_cursor;
                        if c < self.simulations.len() {
                            toggle_selected_at(&mut self.simulations, c);
                        }
                    } else if k.code == KeyCode::Char('r') && k.ctrl {
                        let c = *selection_cursor;
                        if c < self.simulations.len() {
                            let dir = self.simulations[c].dir.clone();
                            set_state_at(&mut self.simulations, c, SubmissionState::Ready);
                            actions.push(
                                Action::Persist { dir, state: SubmissionState::Ready },
                            );
                        }
                    } else if k.code == KeyCode::Up {
                        if *selection_cursor > 0 {
                            *selection_cursor = *selection_cursor - 1;
                        }
                        *scroll_position = 0;
                    } else if k.code == KeyCode::Down {
                        if *selection_cursor < usize::MAX && *selection_cursor + 1
                            < self.simulations.len() {
                            *selection_cursor = *selection_cursor + 1;
                        }
                        *scroll_position = 0;
                    } else if matches!(k.code, KeyCode::Esc) || (k.code == KeyCode::Char(
                        'c',
                    ) && k.ctrl) {
                        *astate = ActiveState::ConfirmExit { prev: ViewingFocus::List };
                    } else if k.code == KeyCode::Tab {
                        *astate = ActiveState::ViewingDetail;
                    } else if k.code == KeyCode::Char('o') && k.ctrl {
                        if has_submittable(&self.simulations) {
                            *astate = ActiveState::ConfirmSubmit;
                        }
                    } else if k.code == KeyCode::Char('l') && k.ctrl {
                        *astate = ActiveState::ReloadingSims;
                        actions.push(Action::StartReload);
                    }
                },
                ActiveState::ViewingDetail => {
                    if k.code == KeyCode::Up && k.shift {
                        if *selection_cursor > 0 {
                            *selection_cursor = *selection_cursor - 1;
                        }
                        *scroll_position = 0;
                    } else if k.code == KeyCode::Down && k.shift {
                        if *selection_cursor < usize::MAX && *selection_cursor + 1
                            < self.simulations.len() {
                            *selection_cursor = *selection_cursor + 1;
                        }
                        *scroll_position = 0;
                    } else if k.code == KeyCode::Up {
                        if *scroll_position > 0 {
                            *scroll_position = *scroll_position - 1;
                        }
                    } else if k.code == KeyCode::Down {
                        if *scroll_position < usize::MAX {
                            *scroll_position = *scroll_position + 1;
                        }
                    } else if matches!(k.code, KeyCode::Esc) || (k.code == KeyCode::Char(
                        'c',
                    ) && k.ctrl) {
                        *astate = ActiveState::ConfirmExit { prev: ViewingFocus::Detail };
                    } else if k.code == KeyCode::Tab {
                        *astate = ActiveState::ViewingList;
                    } else if k.code == KeyCode::Char('o') && k.ctrl {
                        if has_submittable(&self.simulations) {
                            *astate = ActiveState::ConfirmSubmit;
                        }
                    } else if k.code == KeyCode::Char(' ') {
                        let c = *selection_cursor;
                        if c < self.simulations.len() {
                            toggle_selected_at(&mut self.simulations, c);
                        }
                    } else if k.code == KeyCode::Char('r') && k.ctrl {
                        let c = *selection_cursor;
                        if c < self.simulations.len() {
                            let dir = self.simulations[c].dir.clone();
                            set_state_at(&mut self.simulations, c, SubmissionState::Ready);
                            actions.push(
                                Action::Persist { dir, state: SubmissionState::Ready },
                            );
                        }
                    } else if k.code == KeyCode::Char('l') && k.ctrl {
                        *astate = ActiveState::ReloadingSims;
                        actions.push(Action::StartReload);
                    }
                },
                ActiveState::ConfirmExit { prev } => {
                    if k.code == KeyCode::Char('y') {
                        self.running = false;
                    } else if k.code == KeyCode::Char('n') {
                        let p = *prev;
                        *astate = p.to_state();
                    }
                },
                ActiveState::ConfirmSubmit => {
                    if k.code == KeyCode::Char('n') {
                        *astate = ActiveState::ViewingList;
                    }
                },
                ActiveState::ReloadingSims => {},
                ActiveState::ReloadFailed { .. } => {
                    *astate = ActiveState::ViewingList;
                },
                ActiveState::Submitting { .. } => {
                    if k.code == KeyCode::Char('q') {
                        *astate = ActiveState::ViewingList;
                        actions.push(Action::CancelPipelines);
                    }
                },
            }
        }
        proof {
            let pre = *old(self);
            match pre.state {
                State::Active {
                    project,
                    state: astate,
                    selection_cursor: cursor,
                    scroll_position: scroll,
                } => {
                    match astate {
                        ActiveState::ViewingList => {
                            assert(active_key_step(
                                pre, k, project, astate, cursor, scroll, *self, actions@,
                            ));
                        },
                        ActiveState::ViewingDetail => {
                            assert(active_key_step(
                                pre, k, project, astate, cursor, scroll, *self, actions@,
                            ));
                        },
                        ActiveState::ConfirmExit { .. } => {
                            assert(active_key_step(
                                pre, k, project, astate, cursor, scroll, *self, actions@,
                            ));
                        },
                        ActiveState::ConfirmSubmit => {
                            assert(k.code != KeyCode::Char('y'));
                            assert(active_key_step(
                                pre, k, project, astate, cursor, scroll, *self, actions@,
                            ));
                        },
                        ActiveState::ReloadingSims => {
                            assert(active_key_step(
                                pre, k, project, astate, cursor, scroll, *self, actions@,
                            ));
                        },
                        ActiveState::ReloadFailed { .. } => {
                            assert(active_key_step(
                                pre, k, project, astate, cursor, scroll, *self, actions@,
                            ));
                        },
                        ActiveState::Submitting { .. } => {
                            assert(active_key_step(
                                pre, k, project, astate, cursor, scroll, *self, actions@,
                            ));
                        },
                    }
                },
                _ => {
                    assert(false);
                },
            }
            assert(active_step(*old(self), Event::KeyPressed(k), *self, actions@));
            assert(self.wf());
        }
        actions
    }

    /// The confirmed spawn, as [`spawn_step`] describes: marks every
    /// submittable job `Sending`, flushes each, and opens the run.
    fn spawn_submittable(&mut self) -> (actions: Vec<Action>)
        requires
            old(self).wf(),
            old(self).state matches State::Active { state: ActiveState::ConfirmSubmit, .. },
        ensures
            final(self).wf(),
            match old(self).state {
                State::Active { project, .. } => spawn_step(
                    *old(self),
                    project,
                    *final(self),
                    actions@,
                ),
                _ => false,
            },
    {
        let mut actions: Vec<Action> = Vec::new();
        let project_id = if let State::Active { project, .. } = &self.state {
            project.id.clone()
        } else {
            proof {
                assert(false);
            }
            String::new()
        };
        let ghost orig = self.simulations@;
        let n = self.simulations.len();
        let mut idxs: Vec<usize> = Vec::new();
        let mut ids: Vec<u64> = Vec::new();
        let mut bytes: u64 = 0;
        for i in 0..n
            invariant
                n == orig.len(),
                self.simulations@ == marked_sending(orig, i as int),
                ids@ == submittable_ids(orig, i as int),
                idxs@ == submittable_indexes(orig, i as int),
                actions@ == sending_persists(orig, i as int),
                bytes as int == submittable_bytes(orig, i as int),
                self.running == old(self).running,
                self.term_width == old(self).term_width,
                self.term_height == old(self).term_height,
                self.state == old(self).state,
        {
            proof {
                let gi = i as int;
                assert(marked_sending(orig, gi)[gi] == orig[gi]);
            }
            if self.simulations[i].is_submittable() {
                let sz = self.simulations[i].files_size();
                bytes = crate::saturating_add_bytes(bytes, sz);
                ids.push(self.simulations[i].internal_id);
                idxs.push(i);
                actions.push(
                    Action::Persist {
                        dir: self.simulations[i].dir.clone(),
                        state: SubmissionState::Sending,
                    },
                );
                set_state_at(&mut self.simulations, i, SubmissionState::Sending);
                proof {
                    assert(self.simulations@ =~= marked_sending(orig, i as int + 1));
                }
            } else {
                proof {
                    assert(self.simulations@ =~= marked_sending(orig, i as int + 1));
                }
            }
        }
        if idxs.len() == 0 {
            if let State::Active { state: astate, .. } = &mut self.state {
                *astate = ActiveState::ViewingList;
            }
        } else {
            proof {
                lemma_spawn_run_wf(orig, ids@, self.simulations@);
            }
            let cnt = idxs.len();
            actions.push(Action::SpawnPipelines { project_id, job_indexes: idxs });
            if let State::Active { state: astate, .. } = &mut self.state {
                *astate = ActiveState::Submitting {
                    run: SubmissionRun {
                        bytes_count: bytes,
                        bytes_progress: 0,
                        sims_count: cnt,
                        sims_progress: 0,
                        pending: ids,
                    },
                };
            }
        }
        proof {
            let pre = *old(self);
            match pre.state {
                State::Active { project, .. } => {
                    let n = pre.simulations@.len() as int;
                    assert(orig == pre.simulations@);
                    lemma_submittable_maps(pre.simulations@, n);
                    if submittable_indexes(pre.simulations@, n).len() == 0 {
                        assert forall|j: int|
                            0 <= j < n implies !(#[trigger] pre.simulations@[j]).spec_is_submittable() by {
                            if pre.simulations@[j].spec_is_submittable() {
                                assert(submittable_indexes(pre.simulations@, n).contains(
                                    j as usize,
                                ));
                            }
                        }
                        assert forall|j: int|
                            0 <= j < n implies #[trigger] self.simulations@[j]
                            == pre.simulations@[j] by {
                            assert(marked_sending(orig, n)[j] == orig[j]);
                        }
                        assert(self.simulations@ =~= pre.simulations@);
                        assert(with_active(pre, *self, pre.simulations@, ActiveState::ViewingList));
                        lemma_sending_persists_empty(pre.simulations@, n);
                        assert(actions@ == Seq::<Action>::empty());
                    } else {
                        match actions@.last() {
                            Action::SpawnPipelines { project_id: pid, job_indexes: ixs2 } => {
                                match &self.state {
                                    State::Active {
                                        state: ActiveState::Submitting { run: run2 },
                                        ..
                                    } => {
                                        assert(ixs2@ == submittable_indexes(pre.simulations@, n));
                                        assert(run2.pending@ == submittable_ids(
                                            pre.simulations@,
                                            n,
                                        ));
                                        assert(with_active(
                                            pre,
                                            *self,
                                            marked_sending(pre.simulations@, n),
                                            ActiveState::Submitting {
                                                run: SubmissionRun {
                                                    bytes_count: submittable_bytes(
                                                        pre.simulations@,
                                                        n,
                                                    ) as u64,
                                                    bytes_progress: 0,
                                                    sims_count: submittable_indexes(
                                                        pre.simulations@,
                                                        n,
                                                    ).len() as usize,
                                                    sims_progress: 0,
                                                    pending: run2.pending,
                                                },
                                            },
                                        ));
                                        assert(actions@ =~= sending_persists(pre.simulations@, n)
                                            + seq![
                                            Action::SpawnPipelines {
                                                project_id: project.id,
                                                job_indexes: ixs2,
                                            },
                                        ]);
                                    },
                                    _ => {
                                        assert(false);
                                    },
                                }
                            },
                            _ => {
                                assert(false);
                            },
                        }
                    }
                    assert(spawn_step(pre, project, *self, actions@));
                },
                _ => {
                    assert(false);
                },
            }
            assert(self.wf());
        }
        actions
    }

}


/// What a search by directory guarantees: a hit is the first entry
/// backed by that directory; a miss means no entry is.
pub proof fn lemma_find_dir_props(sims: Seq<SimulationParams>, dir: Seq<char>, k: int)
    requires
        0 <= k <= sims.len(),
    ensures
        match find_dir_from(sims, dir, k) {
            Some(j) => k <= j < sims.len() && sims[j].dir@ == dir && forall|m: int|
                k <= m < j ==> (#[trigger] sims[m]).dir@ != dir,
            None => forall|m: int| k <= m < sims.len() ==> (#[trigger] sims[m]).dir@ != dir,
        },
    decreases sims.len() - k,
{
    if k < sims.len() && sims[k].dir@ != dir {
        lemma_find_dir_props(sims, dir, k + 1);
    }
}

/// While a submission run is active, every in-flight pipeline id is
/// owned by exactly one job, that job is marked `Sending`, and two
/// distinct in-flight pipelines always own two distinct jobs.
///
/// The converse — a `Sending` job always has an in-flight pipeline —
/// holds for every job the current run spawned, but not of a job left
/// `Sending` by a cancelled run or by a crash before its pipeline
/// reported: such a job has no pipeline, and stays out of every later
/// spawn until it is explicitly reset.
pub proof fn lemma_sending_owned_by_one_pipeline(b: Batch, run: SubmissionRun, k: int)
    requires
        b.wf(),
        b.state matches State::Active { state: ActiveState::Submitting { run: r }, .. } && r
            == run,
        0 <= k < run.pending@.len(),
    ensures
        exists|i: int|
            {
                &&& 0 <= i < b.simulations@.len()
                &&& (#[trigger] b.simulations@[i]).internal_id == run.pending@[k]
                &&& b.simulations@[i].submission_state is Sending
            },
        forall|i1: int, i2: int|
            0 <= i1 < b.simulations@.len() && 0 <= i2 < b.simulations@.len() && (
            #[trigger] b.simulations@[i1]).internal_id == run.pending@[k] && (
            #[trigger] b.simulations@[i2]).internal_id == run.pending@[k] ==> i1 == i2,
        forall|l: int| 0 <= l < run.pending@.len() && l != k ==> run.pending@[l] != run.pending@[k],
{
    assert(pending_owned(b.simulations@, run.pending@[k]));
}

/// The spawn step passes a job to the pipelines exactly when it is
/// submittable: a job with no files, or deselected, or already being
/// sent or sent, is never included.
pub proof fn lemma_spawn_only_submittable(
    pre: Batch,
    project: ProjectV7,
    post: Batch,
    actions: Seq<Action>,
)
    requires
        pre.simulations@.len() <= usize::MAX,
        spawn_step(pre, project, post, actions),
    ensures
        forall|k: int|
            0 <= k < actions.len() ==> match #[trigger] actions[k] {
                Action::SpawnPipelines { job_indexes, .. } => {
                    &&& job_indexes@ == submittable_indexes(
                        pre.simulations@,
                        pre.simulations@.len() as int,
                    )
                    &&& forall|m: int|
                        0 <= m < job_indexes@.len() ==> {
                            let job = pre.simulations@[(#[trigger] job_indexes@[m]) as int];
                            &&& job.selected
                            &&& job.files@.len() > 0
                            &&& (job.submission_state is Ready || job.submission_state is Error)
                        }
                },
                _ => true,
            },
{
    let sims = pre.simulations@;
    let n = sims.len() as int;
    lemma_submittable_maps(sims, n);
    lemma_sending_persists_only_persists(sims, n);
    let idxs = submittable_indexes(sims, n);
    if idxs.len() == 0 {
    } else {
        assert forall|k: int|
            0 <= k < actions.len() implies match #[trigger] actions[k] {
            Action::SpawnPipelines { job_indexes, .. } => {
                &&& job_indexes@ == idxs
                &&& forall|m: int|
                    0 <= m < job_indexes@.len() ==> {
                        let job = sims[(#[trigger] job_indexes@[m]) as int];
                        &&& job.selected
                        &&& job.files@.len() > 0
                        &&& (job.submission_state is Ready || job.submission_state is Error)
                    }
            },
            _ => true,
        } by {
            let persists = sending_persists(sims, n);
            assert(actions.len() == persists.len() + 1);
            if k < persists.len() {
                assert(actions[k] == persists[k]);
                assert(persists[k] is Persist);
            } else {
                assert(actions[k] == actions.last());
                match actions[k] {
                    Action::SpawnPipelines { job_indexes, .. } => {
                        assert(job_indexes@ == idxs);
                        assert forall|m: int| 0 <= m < job_indexes@.len() implies {
                            let job = sims[(#[trigger] job_indexes@[m]) as int];
                            &&& job.selected
                            &&& job.files@.len() > 0
                            &&& (job.submission_state is Ready
                                || job.submission_state is Error)
                        } by {
                            assert(sims[job_indexes@[m] as int].spec_is_submittable());
                        }
                    },
                    _ => {},
                }
            }
        }
    }
}

/// Every action of the sidecar-flush prefix of a spawn is a flush.
proof fn lemma_sending_persists_only_persists(sims: Seq<SimulationParams>, m: int)
    requires
        0 <= m <= sims.len(),
    ensures
        forall|k: int|
            0 <= k < sending_persists(sims, m).len() ==> (#[trigger] sending_persists(sims, m)[k])
                is Persist,
        sending_persists(sims, m).len() <= m,
    decreases m,
{
    if m > 0 {
        lemma_sending_persists_only_persists(sims, m - 1);
        if sims[m - 1].spec_is_submittable() {
            assert forall|k: int|
                0 <= k < sending_persists(sims, m).len() implies (
            #[trigger] sending_persists(sims, m)[k]) is Persist by {
                if k < sending_persists(sims, m - 1).len() {
                    assert(sending_persists(sims, m)[k] == sending_persists(sims, m - 1)[k]);
                } else {
                    assert(sending_persists(sims, m)[k] == (Action::Persist {
                        dir: sims[m - 1].dir,
                        state: SubmissionState::Sending,
                    }));
                }
            }
        } else {
            assert(sending_persists(sims, m) =~= sending_persists(sims, m - 1));
        }
    }
}

/// The number of pipelines that have reported never decreases over a
/// run, its totals never change, and while the session is submitting,
/// the reported count stays below the total — the step on which the
/// counts meet is the one step that leaves the run, so the run is left
/// exactly once.
pub proof fn lemma_progress_monotonic(pre: Batch, event: Event, post: Batch, actions: Seq<Action>)
    requires
        pre.wf(),
        step(pre, event, post, actions),
    ensures
        (match (pre.state, post.state) {
            (
                State::Active { state: ActiveState::Submitting { run: r1 }, .. },
                State::Active { state: ActiveState::Submitting { run: r2 }, .. },
            ) => {
                &&& r2.sims_progress >= r1.sims_progress
                &&& r2.sims_count == r1.sims_count
                &&& r2.bytes_count == r1.bytes_count
                &&& r2.bytes_progress >= r1.bytes_progress
            },
            _ => true,
        }),
        (match pre.state {
            State::Active { state: ActiveState::Submitting { run: r1 }, .. } => r1.sims_progress
                < r1.sims_count,
            _ => true,
        }),
{
}

/// Reload reconciliation: a rediscovered job keeps the selection of the
/// previously known job backed by the same directory, and a job backed
/// by a new directory comes up selected.
pub proof fn lemma_reload_keeps_selection(
    old_sims: Seq<SimulationParams>,
    new_jobs: Seq<SimulationParams>,
    i: int,
    r: SimulationParams,
)
    requires
        0 <= i < new_jobs.len(),
        reloaded_job(old_sims, new_jobs, i, r),
    ensures
        (exists|k: int|
            0 <= k < old_sims.len() && (#[trigger] old_sims[k]).dir@ == new_jobs[i].dir@) ==> (
        exists|k: int|
            {
                &&& 0 <= k < old_sims.len()
                &&& (#[trigger] old_sims[k]).dir@ == new_jobs[i].dir@
                &&& r.selected == old_sims[k].selected
            }),
        (forall|k: int|
            0 <= k < old_sims.len() ==> (#[trigger] old_sims[k]).dir@ != new_jobs[i].dir@)
            ==> r.selected == true,
        r.internal_id == i as u64,
        r.dir == new_jobs[i].dir,
        r.files == new_jobs[i].files,
        r.submission_state == new_jobs[i].submission_state,
{
    lemma_find_dir_props(old_sims, new_jobs[i].dir@, 0);
    match find_dir_from(old_sims, new_jobs[i].dir@, 0) {
        Some(k) => {
            assert(0 <= k < old_sims.len() && old_sims[k].dir@ == new_jobs[i].dir@
                && r.selected == old_sims[k].selected);
        },
        None => {},
    }
}

} // verus!
