//! Scenario tests of the session state machine, the project picker and
//! the submission pipeline.

use std::collections::HashMap;

use aerobatch::job::{FileParams, SimulationParams, SubmissionState};
use aerobatch::params::{CreateSimulationV7ParamsFromJson, FileV7ParamsFromJson};
use aerobatch::picker::ProjectPickerState;
use aerobatch::pipeline::{
    new_idempotency_key, IdempotencyKey, Pipeline, PipelineAction, PipelineEvent, PipelineState,
};
use aerobatch::session::{Action, ActiveState, Batch, Event, KeyCode, KeyEvent, State};
use aerobatch::types::{
    ModelV7, ModelV7FilesItem, ModelV7PartsItem, ProjectStatus, ProjectV7, SimulationStatus,
    SimulationV7,
};

fn key(code: KeyCode) -> Event {
    Event::KeyPressed(KeyEvent { code, ctrl: false, shift: false })
}

fn ctrl_key(c: char) -> Event {
    Event::KeyPressed(KeyEvent { code: KeyCode::Char(c), ctrl: true, shift: false })
}

fn file(path: &str, size: u64) -> FileParams {
    FileParams {
        path: path.to_string(),
        filename: path.to_string(),
        size,
        params: FileV7ParamsFromJson::default(),
    }
}

fn job(dir: &str, files: Vec<FileParams>, selected: bool) -> SimulationParams {
    SimulationParams {
        internal_id: 0,
        dir: dir.to_string(),
        params: CreateSimulationV7ParamsFromJson::default(),
        files,
        selected,
        submission_state: SubmissionState::Ready,
    }
}

fn project() -> ProjectV7 {
    ProjectV7 {
        id: "project-1".to_string(),
        name: "wind tunnel".to_string(),
        status: ProjectStatus::Active,
        browser_url: "https://example.test/p/1".to_string(),
    }
}

fn remote_sim(id: &str) -> SimulationV7 {
    SimulationV7 {
        id: id.to_string(),
        name: "sim".to_string(),
        browser_url: format!("https://example.test/s/{id}"),
        status: SimulationStatus::Progress,
    }
}

/// A session that has picked a project and is viewing the list.
fn active_session(jobs: Vec<SimulationParams>) -> Batch {
    let mut b = Batch::new(jobs);
    let actions = b.start();
    assert_eq!(actions, vec![Action::RefreshProjects]);
    let actions = b.handle_event(Event::ProjectSelected(project()));
    assert!(actions.is_empty());
    assert!(matches!(
        b.state,
        State::Active { state: ActiveState::ViewingList, .. }
    ));
    b
}

fn active_state(b: &Batch) -> &ActiveState {
    match &b.state {
        State::Active { state, .. } => state,
        other => panic!("not active: {other:?}"),
    }
}

#[test]
fn resize_and_exit_act_in_every_state() {
    let mut b = Batch::new(vec![]);
    b.start();
    assert!(b.running);
    b.handle_event(Event::TerminalResized { width: 120, height: 40 });
    assert_eq!((b.term_width, b.term_height), (120, 40));
    assert!(!b.is_term_size_not_enough());
    b.handle_event(Event::TerminalResized { width: 80, height: 40 });
    assert!(b.is_term_size_not_enough());
    b.handle_event(Event::Exit);
    assert!(!b.running);
}

#[test]
fn confirm_submit_is_offered_only_with_a_submittable_job() {
    // Nothing submittable: the key is ignored.
    let mut b = active_session(vec![job("a", vec![], true)]);
    b.handle_event(ctrl_key('o'));
    assert!(matches!(active_state(&b), ActiveState::ViewingList));
    // One submittable job: the confirmation opens, and `n` declines.
    let mut b = active_session(vec![job("a", vec![file("a/f.stl", 3)], true)]);
    b.handle_event(ctrl_key('o'));
    assert!(matches!(active_state(&b), ActiveState::ConfirmSubmit));
    b.handle_event(key(KeyCode::Char('n')));
    assert!(matches!(active_state(&b), ActiveState::ViewingList));
}

#[test]
fn two_records_one_submittable_spawns_exactly_one_pipeline() {
    // A root with two job folders: one with one file, one with none.
    let mut b = active_session(vec![
        job("a", vec![file("a/f.stl", 3)], true),
        job("b", vec![], true),
    ]);
    b.handle_event(ctrl_key('o'));
    let actions = b.handle_event(key(KeyCode::Char('y')));
    assert_eq!(
        actions[0],
        Action::Persist { dir: "a".to_string(), state: SubmissionState::Sending }
    );
    assert_eq!(
        actions[1],
        Action::SpawnPipelines { project_id: "project-1".to_string(), job_indexes: vec![0] }
    );
    assert_eq!(actions.len(), 2);
    assert_eq!(b.simulations[0].submission_state, SubmissionState::Sending);
    assert_eq!(b.simulations[1].submission_state, SubmissionState::Ready);
    match active_state(&b) {
        ActiveState::Submitting { run } => {
            assert_eq!(run.sims_count, 1);
            assert_eq!(run.sims_progress, 0);
            assert_eq!(run.bytes_count, 3);
            assert_eq!(run.pending, vec![0]);
        },
        other => panic!("not submitting: {other:?}"),
    }
    // On success the run reaches 1 of 1 and exits back to the list.
    let actions = b.handle_event(Event::SimSubmitted {
        internal_id: 0,
        res: Ok(remote_sim("sim-7")),
    });
    let sent = SubmissionState::Sent {
        id: "sim-7".to_string(),
        browser_url: "https://example.test/s/sim-7".to_string(),
    };
    assert_eq!(actions, vec![Action::Persist { dir: "a".to_string(), state: sent.clone() }]);
    assert_eq!(b.simulations[0].submission_state, sent);
    assert!(matches!(active_state(&b), ActiveState::ViewingList));
}

#[test]
fn progress_counters_never_decrease_and_failures_stay_local() {
    let mut b = active_session(vec![
        job("a", vec![file("a/f.stl", 10)], true),
        job("b", vec![file("b/f.stl", 20)], true),
    ]);
    b.handle_event(ctrl_key('o'));
    b.handle_event(key(KeyCode::Char('y')));
    let progress_of = |b: &Batch| match active_state(b) {
        ActiveState::Submitting { run } => (run.sims_progress, run.bytes_progress),
        other => panic!("not submitting: {other:?}"),
    };
    assert_eq!(progress_of(&b), (0, 0));
    b.handle_event(Event::FileUploaded(10));
    assert_eq!(progress_of(&b), (0, 10));
    b.handle_event(Event::FileUploaded(15));
    assert_eq!(progress_of(&b), (0, 25));
    // One pipeline fails: its job records the rendered chain, the run
    // and the sibling pipeline go on.
    let actions = b.handle_event(Event::SimSubmitted {
        internal_id: 0,
        res: Err(vec!["creating model".to_string(), "boom".to_string()]),
    });
    assert_eq!(
        actions,
        vec![Action::Persist {
            dir: "a".to_string(),
            state: SubmissionState::Error("1. creating model\n2. boom".to_string()),
        }]
    );
    assert_eq!(progress_of(&b), (1, 25));
    assert_eq!(b.simulations[1].submission_state, SubmissionState::Sending);
    // An errored job is submittable again without an explicit reset.
    assert!(matches!(b.simulations[0].submission_state, SubmissionState::Error(_)));
    b.handle_event(Event::SimSubmitted { internal_id: 1, res: Ok(remote_sim("s")) });
    assert!(matches!(active_state(&b), ActiveState::ViewingList));
    assert!(b.simulations[0].is_submittable());
}

#[test]
fn cancellation_stops_the_run_without_touching_reported_or_pending_jobs() {
    let mut b = active_session(vec![
        job("a", vec![file("a/f.stl", 1)], true),
        job("b", vec![file("b/f.stl", 1)], true),
        job("c", vec![file("c/f.stl", 1)], true),
    ]);
    b.handle_event(ctrl_key('o'));
    b.handle_event(key(KeyCode::Char('y')));
    // One of the three pipelines reports before the user cancels.
    let actions = b.handle_event(Event::SimSubmitted {
        internal_id: 1,
        res: Ok(remote_sim("done")),
    });
    let sent = SubmissionState::Sent {
        id: "done".to_string(),
        browser_url: "https://example.test/s/done".to_string(),
    };
    // The sidecar flush for the completed job carries `Sent`.
    assert_eq!(actions, vec![Action::Persist { dir: "b".to_string(), state: sent.clone() }]);
    let actions = b.handle_event(key(KeyCode::Char('q')));
    assert_eq!(actions, vec![Action::CancelPipelines]);
    assert!(matches!(active_state(&b), ActiveState::ViewingList));
    // The cancellation itself moves no job to `Sent` or `Error`.
    assert_eq!(b.simulations[0].submission_state, SubmissionState::Sending);
    assert_eq!(b.simulations[1].submission_state, sent);
    assert_eq!(b.simulations[2].submission_state, SubmissionState::Sending);
}

#[test]
fn reload_keeps_selections_by_directory_and_selects_new_jobs() {
    let mut b = active_session(vec![
        job("a", vec![file("a/f.stl", 1)], true),
        job("b", vec![file("b/f.stl", 1)], false),
    ]);
    let actions = b.handle_event(ctrl_key('l'));
    assert_eq!(actions, vec![Action::StartReload]);
    assert!(matches!(active_state(&b), ActiveState::ReloadingSims));
    let rediscovered = vec![
        job("a", vec![file("a/f.stl", 1)], true),
        job("b", vec![file("b/f.stl", 1)], true),
        job("c", vec![file("c/f.stl", 1)], true),
    ];
    b.handle_event(Event::JobsReloaded(Ok(rediscovered)));
    assert!(matches!(active_state(&b), ActiveState::ViewingList));
    let picture: Vec<(&str, bool, u64)> = b
        .simulations
        .iter()
        .map(|j| (j.dir.as_str(), j.selected, j.internal_id))
        .collect();
    assert_eq!(picture, vec![("a", true, 0), ("b", false, 1), ("c", true, 2)]);
}

#[test]
fn failed_reload_leaves_the_job_list_untouched() {
    let mut b = active_session(vec![job("a", vec![file("a/f.stl", 1)], false)]);
    b.handle_event(ctrl_key('l'));
    b.handle_event(Event::JobsReloaded(Err("root directory vanished".to_string())));
    match active_state(&b) {
        ActiveState::ReloadFailed { message } => assert_eq!(message, "root directory vanished"),
        other => panic!("unexpected: {other:?}"),
    }
    assert_eq!(b.simulations.len(), 1);
    assert!(!b.simulations[0].selected);
    // Any key dismisses the overlay.
    b.handle_event(key(KeyCode::Esc));
    assert!(matches!(active_state(&b), ActiveState::ViewingList));
}

#[test]
fn selection_toggle_reset_and_cursor_keys() {
    let mut b = active_session(vec![
        job("a", vec![file("a/f.stl", 1)], true),
        job("b", vec![file("b/f.stl", 1)], true),
    ]);
    b.handle_event(key(KeyCode::Char(' ')));
    assert!(!b.simulations[0].selected);
    b.handle_event(key(KeyCode::Down));
    b.handle_event(key(KeyCode::Char(' ')));
    assert!(!b.simulations[1].selected);
    b.simulations[1].update_submission_state(SubmissionState::Error("x".to_string()));
    let actions = b.handle_event(ctrl_key('r'));
    assert_eq!(
        actions,
        vec![Action::Persist { dir: "b".to_string(), state: SubmissionState::Ready }]
    );
    assert_eq!(b.simulations[1].submission_state, SubmissionState::Ready);
    // Tab moves to the detail pane; Esc asks to confirm, `n` returns.
    b.handle_event(key(KeyCode::Tab));
    assert!(matches!(active_state(&b), ActiveState::ViewingDetail));
    b.handle_event(key(KeyCode::Esc));
    assert!(matches!(active_state(&b), ActiveState::ConfirmExit { .. }));
    b.handle_event(key(KeyCode::Char('n')));
    assert!(matches!(active_state(&b), ActiveState::ViewingDetail));
    b.handle_event(key(KeyCode::Esc));
    b.handle_event(key(KeyCode::Char('y')));
    assert!(!b.running);
}

#[test]
fn picker_flow_selects_a_project() {
    let mut p = ProjectPickerState::Loading;
    let other = ProjectV7 { id: "project-2".to_string(), name: "second".to_string(), ..project() };
    let actions = p.handle_event(Event::ProjectsUpdated(Ok(vec![project(), other])));
    assert!(actions.is_empty());
    p.handle_event(key(KeyCode::Down));
    p.handle_event(key(KeyCode::Up));
    let actions = p.handle_event(key(KeyCode::Enter));
    match &actions[..] {
        [Action::Emit(Event::ProjectSelected(chosen))] => assert_eq!(chosen.id, "project-1"),
        other => panic!("unexpected: {other:?}"),
    }
    match p {
        ProjectPickerState::Selecting { ref projects, table_cursor } => {
            assert_eq!(projects.len(), 1);
            assert_eq!(table_cursor, 0);
        },
        other => panic!("unexpected: {other:?}"),
    }
}

#[test]
fn picker_failure_offers_retry_and_exit() {
    let mut p = ProjectPickerState::Loading;
    p.handle_event(Event::ProjectsUpdated(Err("network down".to_string())));
    assert!(matches!(p, ProjectPickerState::Failed(_)));
    let actions = p.handle_event(key(KeyCode::Char('r')));
    assert_eq!(actions, vec![Action::RefreshProjects]);
    let actions = p.handle_event(key(KeyCode::Esc));
    assert_eq!(actions, vec![Action::Emit(Event::Exit)]);
}

#[test]
fn idempotency_keys_are_long_and_fresh() {
    let a = new_idempotency_key();
    let b = new_idempotency_key();
    assert_eq!(a.0.len(), 36);
    assert_eq!(b.0.len(), 36);
    assert_ne!(a.0, b.0);
}

/// A remote stub that deduplicates simulation creation by idempotency
/// key, as the real service promises.
struct DedupRemote {
    sims_by_key: HashMap<String, String>,
    next: u32,
}

impl DedupRemote {
    fn new() -> Self {
        DedupRemote { sims_by_key: HashMap::new(), next: 0 }
    }

    fn create_simulation(&mut self, key: &IdempotencyKey) -> SimulationV7 {
        let next = &mut self.next;
        let id = self
            .sims_by_key
            .entry(key.0.clone())
            .or_insert_with(|| {
                *next += 1;
                format!("sim-{next}")
            })
            .clone();
        remote_sim(&id)
    }
}

fn manifest(upload_url: Option<&str>) -> ModelV7 {
    ModelV7 {
        id: "model-1".to_string(),
        files: vec![ModelV7FilesItem {
            name: "wing.stl".to_string(),
            upload_url: upload_url.map(|u| u.to_string()),
            parts: vec![ModelV7PartsItem { id: "part-1".to_string(), name: "radiator".to_string() }],
        }],
    }
}

fn pipeline_job() -> SimulationParams {
    let mut f = file("wing.stl", 9);
    f.params.parts = vec![(
        "radiator".to_string(),
        aerobatch::params::UpdatePartV7Params {
            rolling: Some(true),
            is_porous: None,
            darcy_coeff: None,
            forchheimer_coeff: None,
        },
    )];
    job("d", vec![f], true)
}

/// Drives one pipeline to completion against the stub, reusing the
/// given per-stage keys, and returns the reported simulation id.
fn run_pipeline(remote: &mut DedupRemote, finalise_key: &str, create_key: &str) -> String {
    let mut p = Pipeline::new("project-1".to_string(), pipeline_job());
    let start = p.start(IdempotencyKey("create-model-key".to_string()));
    assert!(matches!(start, PipelineAction::CreateModel { .. }));
    let a = p.step(
        PipelineEvent::ModelCreated(Ok(manifest(Some("https://upload.test/1")))),
        false,
        IdempotencyKey(finalise_key.to_string()),
    );
    match a {
        PipelineAction::UploadFiles { tasks } => {
            assert_eq!(tasks.len(), 1);
            assert_eq!(tasks[0].upload_url, "https://upload.test/1");
        },
        other => panic!("unexpected: {other:?}"),
    }
    let a = p.step(
        PipelineEvent::FilesUploaded(Ok(())),
        false,
        IdempotencyKey(finalise_key.to_string()),
    );
    assert_eq!(
        a,
        PipelineAction::FinaliseModel {
            key: IdempotencyKey(finalise_key.to_string()),
            model_id: "model-1".to_string(),
        }
    );
    let a = p.step(
        PipelineEvent::ModelFinalised(Ok(manifest(None))),
        false,
        IdempotencyKey(create_key.to_string()),
    );
    match a {
        PipelineAction::UpdateParts { model_id, tasks } => {
            assert_eq!(model_id, "model-1");
            assert_eq!(tasks.len(), 1);
            assert_eq!(tasks[0].part_id, "part-1");
        },
        other => panic!("unexpected: {other:?}"),
    }
    let a = p.step(
        PipelineEvent::PartsUpdated(Ok(())),
        false,
        IdempotencyKey(create_key.to_string()),
    );
    let sim = match a {
        PipelineAction::CreateSimulation { key, params } => {
            assert_eq!(key, IdempotencyKey(create_key.to_string()));
            assert_eq!(params.model_id, "model-1");
            assert_eq!(params.project_id, "project-1");
            remote.create_simulation(&key)
        },
        other => panic!("unexpected: {other:?}"),
    };
    let a = p.step(
        PipelineEvent::SimulationCreated(Ok(sim.clone())),
        false,
        IdempotencyKey("unused".to_string()),
    );
    assert!(matches!(p.state, PipelineState::Finished));
    match a {
        PipelineAction::Report { result: Ok(s) } => s.id,
        other => panic!("unexpected: {other:?}"),
    }
}

#[test]
fn replaying_a_submission_with_the_same_keys_yields_the_same_simulation() {
    let mut remote = DedupRemote::new();
    let first = run_pipeline(&mut remote, "finalise-A", "create-A");
    let replay = run_pipeline(&mut remote, "finalise-A", "create-A");
    assert_eq!(first, replay);
    // A reset-and-resubmitted job draws fresh keys, so it creates a new
    // simulation rather than deduplicating against the old one.
    let fresh = run_pipeline(&mut remote, "finalise-B", "create-B");
    assert_ne!(first, fresh);
}

#[test]
fn cancellation_at_a_stage_boundary_stops_without_a_report() {
    let mut p = Pipeline::new("project-1".to_string(), pipeline_job());
    p.start(new_idempotency_key());
    let a = p.step(
        PipelineEvent::ModelCreated(Ok(manifest(Some("u")))),
        true,
        new_idempotency_key(),
    );
    assert_eq!(a, PipelineAction::Stop);
    assert!(matches!(p.state, PipelineState::Stopped));
    // Nothing revives a stopped pipeline.
    let a = p.step(PipelineEvent::FilesUploaded(Ok(())), false, new_idempotency_key());
    assert_eq!(a, PipelineAction::Stop);
}

#[test]
fn a_failed_stage_reports_the_chain_with_its_context() {
    let mut p = Pipeline::new("project-1".to_string(), pipeline_job());
    p.start(new_idempotency_key());
    p.step(
        PipelineEvent::ModelCreated(Ok(manifest(Some("u")))),
        false,
        new_idempotency_key(),
    );
    let a = p.step(
        PipelineEvent::FilesUploaded(Err(vec!["connection reset".to_string()])),
        false,
        new_idempotency_key(),
    );
    assert_eq!(
        a,
        PipelineAction::Report {
            result: Err(vec!["uploading files".to_string(), "connection reset".to_string()]),
        }
    );
    assert!(matches!(p.state, PipelineState::Finished));
}

#[test]
fn a_file_missing_from_the_manifest_aborts_the_pipeline() {
    let mut p = Pipeline::new("project-1".to_string(), pipeline_job());
    p.start(new_idempotency_key());
    let mut bad = manifest(Some("u"));
    bad.files[0].name = "other.stl".to_string();
    let a = p.step(PipelineEvent::ModelCreated(Ok(bad)), false, new_idempotency_key());
    assert_eq!(
        a,
        PipelineAction::Report {
            result: Err(vec![
                "file in given params was not returned from the server".to_string(),
            ]),
        }
    );
}

#[test]
fn an_unacknowledged_part_aborts_the_pipeline() {
    let mut p = Pipeline::new("project-1".to_string(), pipeline_job());
    p.start(new_idempotency_key());
    p.step(
        PipelineEvent::ModelCreated(Ok(manifest(Some("u")))),
        false,
        new_idempotency_key(),
    );
    p.step(PipelineEvent::FilesUploaded(Ok(())), false, new_idempotency_key());
    let mut bad = manifest(None);
    bad.files[0].parts.clear();
    let a = p.step(PipelineEvent::ModelFinalised(Ok(bad)), false, new_idempotency_key());
    assert_eq!(
        a,
        PipelineAction::Report {
            result: Err(vec![
                "updating parts".to_string(),
                "part named `radiator` was not found in uploaded file `wing.stl`".to_string(),
            ]),
        }
    );
}

#[test]
fn a_manifest_entry_without_an_upload_target_aborts_the_pipeline() {
    let mut p = Pipeline::new("project-1".to_string(), pipeline_job());
    p.start(new_idempotency_key());
    let a = p.step(
        PipelineEvent::ModelCreated(Ok(manifest(None))),
        false,
        new_idempotency_key(),
    );
    assert_eq!(
        a,
        PipelineAction::Report {
            result: Err(vec!["no upload url found in response".to_string()]),
        }
    );
}

#[test]
fn a_stage_outcome_for_the_wrong_stage_is_ignored() {
    let mut p = Pipeline::new("project-1".to_string(), pipeline_job());
    let a = p.step(PipelineEvent::FilesUploaded(Ok(())), false, new_idempotency_key());
    assert_eq!(a, PipelineAction::Stop);
    assert!(matches!(p.state, PipelineState::CreatingModel));
}

#[test]
fn a_stale_pipeline_result_outside_a_run_is_ignored() {
    let mut b = active_session(vec![job("a", vec![file("a/f.stl", 1)], true)]);
    let actions = b.handle_event(Event::SimSubmitted {
        internal_id: 0,
        res: Ok(remote_sim("ghost")),
    });
    assert!(actions.is_empty());
    assert_eq!(b.simulations[0].submission_state, SubmissionState::Ready);
    assert!(matches!(active_state(&b), ActiveState::ViewingList));
    let actions = b.handle_event(Event::FileUploaded(100));
    assert!(actions.is_empty());
}

#[test]
fn a_result_for_an_unknown_pipeline_still_advances_the_run() {
    let mut b = active_session(vec![
        job("a", vec![file("a/f.stl", 1)], true),
        job("b", vec![file("b/f.stl", 1)], true),
    ]);
    b.handle_event(ctrl_key('o'));
    b.handle_event(key(KeyCode::Char('y')));
    let actions = b.handle_event(Event::SimSubmitted {
        internal_id: 99,
        res: Ok(remote_sim("nobody")),
    });
    assert!(actions.is_empty());
    match active_state(&b) {
        ActiveState::Submitting { run } => assert_eq!(run.sims_progress, 1),
        other => panic!("not submitting: {other:?}"),
    }
    assert_eq!(b.simulations[0].submission_state, SubmissionState::Sending);
    assert_eq!(b.simulations[1].submission_state, SubmissionState::Sending);
}

#[test]
fn an_empty_job_list_offers_no_submission() {
    let mut b = active_session(vec![]);
    b.handle_event(ctrl_key('o'));
    assert!(matches!(active_state(&b), ActiveState::ViewingList));
    let actions = b.handle_event(ctrl_key('l'));
    assert_eq!(actions, vec![Action::StartReload]);
    b.handle_event(Event::JobsReloaded(Ok(vec![job("a", vec![file("a/f.stl", 1)], true)])));
    assert_eq!(b.simulations.len(), 1);
    assert!(b.simulations[0].selected);
}
