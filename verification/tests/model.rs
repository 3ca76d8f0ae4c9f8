//! Unit tests of the job model, parameter validation, discovery and
//! formatting helpers.

use aerobatch::discovery::{build_job, filename_ok, has_json_ext, lex_le_str, RawFileEntry};
use aerobatch::fmt::{
    bool_to_human, format_u64, human_boundary_layer_treatment, human_err_report,
    human_simulation_status, link, link_with_text,
};
use aerobatch::job::{FileParams, SimulationParams, SubmissionState};
use aerobatch::params::{
    default_boundary_layer_treatment, default_file_unit, default_fluid, default_fluid_speed,
    default_has_ground, default_quality, default_yaw_angles, CreateSimulationV7ParamsFromJson,
    FileV7ParamsFromJson, FluidSpeed, ParamsError, UpdatePartV7Params, YawAngle,
};
use aerobatch::account::{
    human_plan, human_project_status, human_subscription_interval, human_subscription_state,
    human_suspension_reason,
};
use aerobatch::types::{
    BoundaryLayerTreatment, FileUnit, Fluid, Plan, ProjectStatus, SimulationQuality,
    SimulationStatus, SubscriptionInterval, SubscriptionState, SubscriptionSuspensionReason,
};

fn file(path: &str, size: u64) -> FileParams {
    FileParams {
        path: path.to_string(),
        filename: path.to_string(),
        size,
        params: FileV7ParamsFromJson::default(),
    }
}

fn job(dir: &str, files: Vec<FileParams>, selected: bool, state: SubmissionState) -> SimulationParams {
    SimulationParams {
        internal_id: 0,
        dir: dir.to_string(),
        params: CreateSimulationV7ParamsFromJson::default(),
        files,
        selected,
        submission_state: state,
    }
}

fn part(porous: Option<bool>, darcy: Option<i64>, forch: Option<i64>) -> UpdatePartV7Params {
    UpdatePartV7Params { rolling: None, is_porous: porous, darcy_coeff: darcy, forchheimer_coeff: forch }
}

#[test]
fn defaults_match_the_documented_values() {
    assert_eq!(default_quality(), SimulationQuality::Basic);
    assert_eq!(default_yaw_angles(), vec![YawAngle(0)]);
    assert_eq!(default_fluid(), Fluid::Air);
    assert_eq!(default_fluid_speed(), FluidSpeed(10000));
    assert!(default_has_ground());
    assert_eq!(default_file_unit(), FileUnit::M);
    assert_eq!(default_boundary_layer_treatment(), BoundaryLayerTreatment::WallFunctions);
    let p = CreateSimulationV7ParamsFromJson::default();
    assert_eq!(p.name, "");
    assert_eq!(p.revision, None);
    assert!(!p.is_ground_moving);
}

#[test]
fn ensure_is_valid_accepts_consistent_parts() {
    let p = FileV7ParamsFromJson {
        unit: FileUnit::M,
        rotation: None,
        parts: vec![
            ("solid".to_string(), part(None, None, None)),
            ("radiator".to_string(), part(Some(true), Some(100), Some(200))),
        ],
    };
    assert!(p.ensure_is_valid().is_ok());
}

#[test]
fn ensure_is_valid_reports_missing_darcy_coefficient() {
    let p = FileV7ParamsFromJson {
        unit: FileUnit::M,
        rotation: None,
        parts: vec![("radiator".to_string(), part(Some(true), None, Some(200)))],
    };
    assert_eq!(
        p.ensure_is_valid(),
        Err(ParamsError::MissingDarcyCoeff { part: "radiator".to_string() })
    );
}

#[test]
fn ensure_is_valid_reports_missing_forchheimer_coefficient() {
    let p = FileV7ParamsFromJson {
        unit: FileUnit::M,
        rotation: None,
        parts: vec![("radiator".to_string(), part(Some(true), Some(100), None))],
    };
    assert_eq!(
        p.ensure_is_valid(),
        Err(ParamsError::MissingForchheimerCoeff { part: "radiator".to_string() })
    );
}

#[test]
fn submittability_needs_selection_files_and_a_restartable_state() {
    let f = vec![file("a.stl", 10)];
    assert!(job("d", f.clone(), true, SubmissionState::Ready).is_submittable());
    assert!(job("d", f.clone(), true, SubmissionState::Error("x".into())).is_submittable());
    assert!(!job("d", vec![], true, SubmissionState::Ready).is_submittable());
    assert!(!job("d", f.clone(), false, SubmissionState::Ready).is_submittable());
    assert!(!job("d", f.clone(), true, SubmissionState::Sending).is_submittable());
    let sent = SubmissionState::Sent { id: "i".into(), browser_url: "u".into() };
    assert!(!job("d", f, true, sent).is_submittable());
}

#[test]
fn files_size_sums_and_saturates() {
    let j = job("d", vec![file("a", 10), file("b", 32)], true, SubmissionState::Ready);
    assert_eq!(j.files_size(), 42);
    let j2 = job("d", vec![file("a", u64::MAX), file("b", 7)], true, SubmissionState::Ready);
    assert_eq!(j2.files_size(), u64::MAX);
}

#[test]
fn submission_state_transitions_are_plain_updates() {
    let mut j = job("d", vec![file("a", 1)], true, SubmissionState::Ready);
    j.update_submission_state(SubmissionState::Sending);
    assert_eq!(j.submission_state, SubmissionState::Sending);
    j.reset_submission_state();
    assert_eq!(j.submission_state, SubmissionState::Ready);
    assert_eq!(SubmissionState::from_sidecar(None), SubmissionState::Ready);
    assert_eq!(
        SubmissionState::from_sidecar(Some(SubmissionState::Sending)),
        SubmissionState::Sending
    );
}

#[test]
fn model_request_lists_every_file_in_order() {
    let mut f1 = file("b.stl", 1);
    f1.params.unit = FileUnit::Mm;
    let j = job("d", vec![f1, file("a.stl", 2)], true, SubmissionState::Ready);
    let req = j.into_api_model_params();
    assert_eq!(req.name, "");
    assert!(!req.reusable);
    assert_eq!(req.files.len(), 2);
    assert_eq!(req.files[0].name, "b.stl");
    assert_eq!(req.files[0].unit, FileUnit::Mm);
    assert_eq!(req.files[1].name, "a.stl");
}

#[test]
fn simulation_request_carries_the_model_and_project() {
    let j = job("d", vec![file("a.stl", 1)], true, SubmissionState::Ready);
    let req = j.into_api_params("model-1".to_string(), "project-9".to_string());
    assert_eq!(req.model_id, "model-1");
    assert_eq!(req.project_id, "project-9");
    assert_eq!(req.quality, SimulationQuality::Basic);
    assert_eq!(req.fluid, Fluid::Air);
}

#[test]
fn human_labels() {
    assert_eq!(human_simulation_status(SimulationStatus::Progress), "in progress");
    assert_eq!(human_simulation_status(SimulationStatus::Success), "succeeded");
    assert_eq!(human_simulation_status(SimulationStatus::Expired), "expired");
    assert_eq!(human_simulation_status(SimulationStatus::Draft), "draft");
    assert_eq!(
        human_boundary_layer_treatment(BoundaryLayerTreatment::WallFunctions),
        "wall functions"
    );
    assert_eq!(
        human_boundary_layer_treatment(BoundaryLayerTreatment::ResolvedBoundaryLayer),
        "resolved boundary layer"
    );
    assert_eq!(bool_to_human(true), "yes");
    assert_eq!(bool_to_human(false), "no");
}

#[test]
fn links_wrap_the_url_in_the_terminal_escape() {
    assert_eq!(
        link_with_text("here", "https://example.test"),
        "\u{1b}]8;;https://example.test\u{1b}\\here\u{1b}]8;;\u{1b}\\"
    );
    assert_eq!(
        link("https://example.test"),
        "\u{1b}]8;;https://example.test\u{1b}\\[Open in Browser \u{2197} ]\u{1b}]8;;\u{1b}\\"
    );
}

#[test]
fn error_report_numbers_and_indents_the_chain() {
    let chain = vec![
        "updating submission state".to_string(),
        "flushing failed\nbecause the disk is full".to_string(),
    ];
    assert_eq!(
        human_err_report(&chain),
        "1. updating submission state\n2. flushing failed\n   because the disk is full"
    );
}

#[test]
fn error_report_of_one_cause_is_just_that_cause() {
    assert_eq!(human_err_report(&vec!["boom".to_string()]), "1. boom");
}

#[test]
fn decimal_rendering() {
    assert_eq!(format_u64(0), "0");
    assert_eq!(format_u64(42), "42");
    assert_eq!(format_u64(12345678901234567890), "12345678901234567890");
}

#[test]
fn lexicographic_order_on_paths() {
    assert!(lex_le_str("a", "b"));
    assert!(lex_le_str("a", "a"));
    assert!(lex_le_str("a", "ab"));
    assert!(!lex_le_str("ab", "a"));
    assert!(!lex_le_str("b", "ab"));
}

#[test]
fn filename_and_extension_checks() {
    assert!(filename_ok("wing.stl"));
    assert!(!filename_ok(""));
    assert!(!filename_ok("a/b"));
    assert!(!filename_ok("a\\b"));
    assert!(has_json_ext("params.json"));
    assert!(!has_json_ext("params.jso"));
    assert!(!has_json_ext("json"));
}

fn entry(path: &str, is_dir: bool, size: u64, params: Option<FileV7ParamsFromJson>) -> RawFileEntry {
    RawFileEntry {
        path: path.to_string(),
        filename: path.rsplit('/').next().unwrap().to_string(),
        is_dir,
        size,
        params,
    }
}

#[test]
fn build_job_filters_sidecars_and_directories_and_sorts_by_path() {
    let entries = vec![
        entry("d/wing.stl", false, 5, None),
        entry("d/params.json", false, 1, None),
        entry("d/sub", true, 0, None),
        entry("d/body.stl", false, 7, None),
    ];
    let jb = build_job("d".to_string(), "d".to_string(), entries, None, None).unwrap();
    assert_eq!(jb.dir, "d");
    assert_eq!(jb.params.name, "d");
    assert!(jb.selected);
    assert_eq!(jb.submission_state, SubmissionState::Ready);
    let paths: Vec<&str> = jb.files.iter().map(|f| f.path.as_str()).collect();
    assert_eq!(paths, vec!["d/body.stl", "d/wing.stl"]);
    assert_eq!(jb.files[0].size, 7);
}

#[test]
fn build_job_keeps_the_persisted_state_and_rejects_bad_parts() {
    let sent = SubmissionState::Sent { id: "s".into(), browser_url: "u".into() };
    let jb = build_job(
        "d".to_string(),
        "d".to_string(),
        vec![entry("d/wing.stl", false, 5, None)],
        None,
        Some(sent.clone()),
    )
    .unwrap();
    assert_eq!(jb.submission_state, sent);

    let bad = FileV7ParamsFromJson {
        unit: FileUnit::M,
        rotation: None,
        parts: vec![("radiator".to_string(), part(Some(true), None, None))],
    };
    let err = build_job(
        "d".to_string(),
        "d".to_string(),
        vec![entry("d/wing.stl", false, 5, Some(bad))],
        None,
        None,
    )
    .unwrap_err();
    let aerobatch::discovery::DiscoveryError::InvalidFileParams { file, error } = err;
    assert_eq!(file, "d/wing.stl");
    assert_eq!(error, ParamsError::MissingDarcyCoeff { part: "radiator".to_string() });
}

#[test]
fn account_labels() {
    assert_eq!(human_plan(Plan::PayAsYouGo), "pay as you go");
    assert_eq!(human_plan(Plan::Subscription), "subscription");
    assert_eq!(human_subscription_state(SubscriptionState::Suspended), "suspended");
    assert_eq!(human_subscription_interval(SubscriptionInterval::Monthly), "monthly");
    assert_eq!(
        human_suspension_reason(SubscriptionSuspensionReason::PaymentFailed),
        "payment failed"
    );
    assert_eq!(human_project_status(ProjectStatus::Closed), "closed");
}

#[test]
fn default_submission_state_is_ready() {
    assert!(matches!(SubmissionState::default(), SubmissionState::Ready));
}
