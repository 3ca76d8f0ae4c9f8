//! The per-job submission pipeline.
//!
//! One pipeline instance drives one job through the ordered remote stages:
//! create the model, upload every file, finalise the model, update the
//! declared sub-parts, create the simulation.  The pipeline itself is a
//! state machine from plain values to plain values: the control loop
//! performs each returned [`PipelineAction`] against the remote service
//! and feeds the outcome back as a [`PipelineEvent`], checking the shared
//! cancellation flag at every stage boundary.  Work within the upload and
//! part-update stages is unordered; the plans only list it.

use vstd::prelude::*;

use crate::job::{
    CreateModelV7Params, CreateSimulationV7Params, FileParams, SimulationParams,
};
use crate::types::{ModelV7, ModelV7FilesItem, ModelV7PartsItem, SimulationV7};

verus! {

/// A token attached to one remote call; the remote service deduplicates
/// retries that reuse it.
#[derive(Clone, Debug, PartialEq)]
pub struct IdempotencyKey(pub String);

/// Draws a fresh idempotency key.
///
/// Relies on `uuid::Uuid::new_v4` and its `Display` rendering: a random
/// version-4 identifier written in the 36-character hyphenated form.  The
/// value is random, so nothing is promised beyond its length.
#[verifier::external_body]
pub fn new_idempotency_key() -> (r: IdempotencyKey)
    ensures
        r.0@.len() == 36,
{
    IdempotencyKey(uuid::Uuid::new_v4().to_string())
}

/// Why a pipeline aborted before reaching the remote service.
#[derive(Clone, Debug, PartialEq)]
pub enum PipelineError {
    /// A local file was missing from the server's file manifest.
    FileNotReturned,
    /// The server's manifest entry for a file carried no upload target.
    MissingUploadUrl,
    /// A declared part was not acknowledged by the remote service.
    PartNotAcknowledged { part: String, file: String },
}

impl PipelineError {
    /// The rendered text of this error.
    pub open spec fn spec_message(self) -> Seq<char> {
        match self {
            PipelineError::FileNotReturned => {
                "file in given params was not returned from the server"@
            },
            PipelineError::MissingUploadUrl => "no upload url found in response"@,
            PipelineError::PartNotAcknowledged { part, file } => {
                "part named `"@ + part@ + "` was not found in uploaded file `"@ + file@ + "`"@
            },
        }
    }

    /// Renders the error for display and for the job's error state.
    pub fn message(&self) -> (r: String)
        ensures
            r@ == self.spec_message(),
    {
        match self {
            PipelineError::FileNotReturned => {
                String::from_str("file in given params was not returned from the server")
            },
            PipelineError::MissingUploadUrl => {
                String::from_str("no upload url found in response")
            },
            PipelineError::PartNotAcknowledged { part, file } => {
                let mut r = String::from_str("part named `");
                r.append(part.as_str());
                r.append("` was not found in uploaded file `");
                r.append(file.as_str());
                r.append("`");
                r
            },
        }
    }
}

/// One file upload the control loop must perform.
#[derive(Clone, Debug, PartialEq)]
pub struct UploadTask {
    pub filename: String,
    pub path: String,
    pub size: u64,
    pub upload_url: String,
}

/// One part-metadata update the control loop must perform.
#[derive(Clone, Debug, PartialEq)]
pub struct PartUpdateTask {
    pub part_id: String,
    pub part_name: String,
    pub params: crate::params::UpdatePartV7Params,
}

/// First manifest entry at or after `i` registered under this name.
pub open spec fn find_model_file(files: Seq<ModelV7FilesItem>, name: Seq<char>, i: int) -> Option<
    int,
>
    decreases files.len() - i,
{
    if i < 0 || i >= files.len() {
        None
    } else if files[i].name@ == name {
        Some(i)
    } else {
        find_model_file(files, name, i + 1)
    }
}

/// First acknowledged part at or after `i` declared under this name.
pub open spec fn find_part(parts: Seq<ModelV7PartsItem>, name: Seq<char>, i: int) -> Option<int>
    decreases parts.len() - i,
{
    if i < 0 || i >= parts.len() {
        None
    } else if parts[i].name@ == name {
        Some(i)
    } else {
        find_part(parts, name, i + 1)
    }
}

/// Every local file has a manifest entry with an upload target.
pub open spec fn upload_plan_ok(files: Seq<ModelV7FilesItem>, params: Seq<FileParams>) -> bool {
    forall|j: int|
        0 <= j < params.len() ==> match find_model_file(
            files,
            (#[trigger] params[j]).filename@,
            0,
        ) {
            Some(f) => files[f].upload_url is Some,
            None => false,
        }
}

/// The upload the plan schedules for the local file `fp`.
pub open spec fn upload_task_of(files: Seq<ModelV7FilesItem>, fp: FileParams, t: UploadTask)
    -> bool {
    &&& t.filename == fp.filename
    &&& t.path == fp.path
    &&& t.size == fp.size
    &&& match find_model_file(files, fp.filename@, 0) {
        Some(f) => files[f].upload_url matches Some(u) && t.upload_url@ == u@,
        None => false,
    }
}

/// Matches every local file against the manifest returned by model
/// creation, scheduling one upload per file to its upload target; fails
/// on the first file absent from the manifest or lacking a target.
pub fn plan_uploads(files: &Vec<ModelV7FilesItem>, params: &Vec<FileParams>) -> (r: Result<
    Vec<UploadTask>,
    PipelineError,
>)
    ensures
        r is Ok <==> upload_plan_ok(files@, params@),
        r matches Ok(tasks) ==> tasks@.len() == params@.len() && forall|j: int|
            0 <= j < params@.len() ==> upload_task_of(files@, params@[j], #[trigger] tasks@[j]),
        r matches Err(e) ==> exists|j: int|
            {
                &&& 0 <= j < params@.len()
                &&& forall|j2: int|
                    0 <= j2 < j ==> match find_model_file(
                        files@,
                        (#[trigger] params@[j2]).filename@,
                        0,
                    ) {
                        Some(f) => files@[f].upload_url is Some,
                        None => false,
                    }
                &&& match find_model_file(files@, (#[trigger] params@[j]).filename@, 0) {
                    Some(f) => files@[f].upload_url is None && e
                        == PipelineError::MissingUploadUrl,
                    None => e == PipelineError::FileNotReturned,
                }
            },
{
    let n = params.len();
    let mut tasks: Vec<UploadTask> = Vec::new();
    for j in 0..n
        invariant
            n == params@.len(),
            tasks@.len() == j,
            forall|j2: int|
                0 <= j2 < j ==> upload_task_of(files@, params@[j2], #[trigger] tasks@[j2]),
            forall|j2: int|
                0 <= j2 < j ==> match find_model_file(
                    files@,
                    (#[trigger] params@[j2]).filename@,
                    0,
                ) {
                    Some(f) => files@[f].upload_url is Some,
                    None => false,
                },
    {
        let fp = &params[j];
        let found = find_model_file_index(files, &fp.filename);
        match found {
            Some(f) => {
                match &files[f].upload_url {
                    Some(u) => {
                        tasks.push(
                            UploadTask {
                                filename: fp.filename.clone(),
                                path: fp.path.clone(),
                                size: fp.size,
                                upload_url: u.clone(),
                            },
                        );
                    },
                    None => {
                        return Err(PipelineError::MissingUploadUrl);
                    },
                }
            },
            None => {
                return Err(PipelineError::FileNotReturned);
            },
        }
    }
    Ok(tasks)
}

/// First manifest entry registered under this name, if any.
fn find_model_file_index(files: &Vec<ModelV7FilesItem>, name: &String) -> (r: Option<usize>)
    ensures
        match r {
            Some(f) => f < files@.len() && find_model_file(files@, name@, 0) == Some(f as int),
            None => find_model_file(files@, name@, 0) is None,
        },
{
    let n = files.len();
    for f in 0..n
        invariant
            n == files@.len(),
            find_model_file(files@, name@, 0) == find_model_file(files@, name@, f as int),
    {
        if files[f].name == *name {
            return Some(f);
        }
    }
    None
}

/// First acknowledged part declared under this name, if any.
fn find_part_index(parts: &Vec<ModelV7PartsItem>, name: &String) -> (r: Option<usize>)
    ensures
        match r {
            Some(p) => p < parts@.len() && find_part(parts@, name@, 0) == Some(p as int),
            None => find_part(parts@, name@, 0) is None,
        },
{
    let n = parts.len();
    for p in 0..n
        invariant
            n == parts@.len(),
            find_part(parts@, name@, 0) == find_part(parts@, name@, p as int),
    {
        if parts[p].name == *name {
            return Some(p);
        }
    }
    None
}

/// Every local file has a manifest entry, and every part it declares was
/// acknowledged there.
pub open spec fn parts_plan_ok(files: Seq<ModelV7FilesItem>, params: Seq<FileParams>) -> bool {
    forall|j: int|
        0 <= j < params.len() ==> match find_model_file(
            files,
            (#[trigger] params[j]).filename@,
            0,
        ) {
            Some(f) => forall|p: int|
                0 <= p < params[j].params.parts@.len() ==> find_part(
                    files[f].parts@,
                    (#[trigger] params[j].params.parts@[p]).0@,
                    0,
                ) is Some,
            None => false,
        }
}

/// The update the plan schedules for one declared part of one file.
pub open spec fn part_task_of(file: ModelV7FilesItem, part: (String, crate::params::UpdatePartV7Params)) -> PartUpdateTask {
    match find_part(file.parts@, part.0@, 0) {
        Some(p) => PartUpdateTask {
            part_id: file.parts@[p].id,
            part_name: part.0,
            params: part.1,
        },
        None => PartUpdateTask { part_id: part.0, part_name: part.0, params: part.1 },
    }
}

/// The updates one local file contributes, in declaration order.
pub open spec fn file_part_tasks(files: Seq<ModelV7FilesItem>, fp: FileParams) -> Seq<
    PartUpdateTask,
> {
    match find_model_file(files, fp.filename@, 0) {
        Some(f) => Seq::new(
            fp.params.parts@.len(),
            |p: int| part_task_of(files[f], fp.params.parts@[p]),
        ),
        None => Seq::empty(),
    }
}

/// The updates the first `n` local files contribute, in order.
pub open spec fn parts_tasks(files: Seq<ModelV7FilesItem>, params: Seq<FileParams>, n: int) -> Seq<
    PartUpdateTask,
>
    decreases n,
{
    if n <= 0 {
        Seq::empty()
    } else {
        parts_tasks(files, params, n - 1) + file_part_tasks(files, params[n - 1])
    }
}

/// Matches every declared sub-part of every local file against the parts
/// acknowledged by model finalisation, scheduling one metadata update per
/// part; fails on the first file absent from the manifest or part the
/// service did not acknowledge.
pub fn plan_part_updates(files: &Vec<ModelV7FilesItem>, params: &Vec<FileParams>) -> (r: Result<
    Vec<PartUpdateTask>,
    PipelineError,
>)
    ensures
        r is Ok <==> parts_plan_ok(files@, params@),
        r matches Ok(tasks) ==> tasks@ == parts_tasks(files@, params@, params@.len() as int),
        r matches Err(e) ==> (e is FileNotReturned || e is PartNotAcknowledged),
{
    let n = params.len();
    let mut tasks: Vec<PartUpdateTask> = Vec::new();
    for j in 0..n
        invariant
            n == params@.len(),
            tasks@ == parts_tasks(files@, params@, j as int),
            forall|j2: int|
                0 <= j2 < j ==> match find_model_file(
                    files@,
                    (#[trigger] params@[j2]).filename@,
                    0,
                ) {
                    Some(f) => forall|p: int|
                        0 <= p < params@[j2].params.parts@.len() ==> find_part(
                            files@[f].parts@,
                            (#[trigger] params@[j2].params.parts@[p]).0@,
                            0,
                        ) is Some,
                    None => false,
                },
    {
        let fp = &params[j];
        let found = find_model_file_index(files, &fp.filename);
        match found {
            Some(f) => {
                let m = fp.params.parts.len();
                for p in 0..m
                    invariant
                        m == fp.params.parts@.len(),
                        n == params@.len(),
                        j < n,
                        fp == &params@[j as int],
                        find_model_file(files@, fp.filename@, 0) == Some(f as int),
                        f < files@.len(),
                        tasks@ == parts_tasks(files@, params@, j as int) + file_part_tasks(
                            files@,
                            params@[j as int],
                        ).take(p as int),
                        forall|p2: int|
                            0 <= p2 < p ==> find_part(
                                files@[f as int].parts@,
                                (#[trigger] fp.params.parts@[p2]).0@,
                                0,
                            ) is Some,
                {
                    let (part_name, part_params) = &fp.params.parts[p];
                    match find_part_index(&files[f].parts, part_name) {
                        Some(pi) => {
                            tasks.push(
                                PartUpdateTask {
                                    part_id: files[f].parts[pi].id.clone(),
                                    part_name: part_name.clone(),
                                    params: *part_params,
                                },
                            );
                            proof {
                                assert(file_part_tasks(files@, params@[j as int]).take(
                                    p as int + 1,
                                ) =~= file_part_tasks(files@, params@[j as int]).take(p as int)
                                    + seq![
                                    file_part_tasks(files@, params@[j as int])[p as int],
                                ]);
                                assert(tasks@ =~= parts_tasks(files@, params@, j as int)
                                    + file_part_tasks(files@, params@[j as int]).take(
                                    p as int + 1,
                                ));
                            }
                        },
                        None => {
                            return Err(
                                PipelineError::PartNotAcknowledged {
                                    part: part_name.clone(),
                                    file: fp.path.clone(),
                                },
                            );
                        },
                    }
                }
                proof {
                    assert(file_part_tasks(files@, params@[j as int]).take(m as int)
                        =~= file_part_tasks(files@, params@[j as int]));
                    assert(tasks@ =~= parts_tasks(files@, params@, j as int + 1));
                }
            },
            None => {
                return Err(PipelineError::FileNotReturned);
            },
        }
    }
    Ok(tasks)
}

/// Where a pipeline stands in the ordered stage sequence.
#[derive(Clone, Debug, PartialEq)]
pub enum PipelineState {
    CreatingModel,
    UploadingFiles { model_id: String },
    FinalisingModel { model_id: String },
    UpdatingParts { model_id: String },
    CreatingSimulation,
    /// The pipeline reported its terminal result; nothing more happens.
    Finished,
    /// Cancellation stopped the pipeline at a stage boundary; no result
    /// is ever reported.
    Stopped,
}

/// The outcome of the remote work of one stage, fed back by the control
/// loop; the error side carries the chain of causes, outermost first.
#[derive(Debug, PartialEq)]
pub enum PipelineEvent {
    ModelCreated(Result<ModelV7, Vec<String>>),
    FilesUploaded(Result<(), Vec<String>>),
    ModelFinalised(Result<ModelV7, Vec<String>>),
    PartsUpdated(Result<(), Vec<String>>),
    SimulationCreated(Result<SimulationV7, Vec<String>>),
}

/// The remote work, or report, the control loop must perform next.
#[derive(Debug, PartialEq)]
pub enum PipelineAction {
    /// Register the job's name and file manifest under this key.
    CreateModel { key: IdempotencyKey, params: CreateModelV7Params },
    /// Stream the bytes of every listed file to its upload target, in any
    /// order, fully in parallel.
    UploadFiles { tasks: Vec<UploadTask> },
    /// Signal the remote service that every file is uploaded.
    FinaliseModel { key: IdempotencyKey, model_id: String },
    /// Issue every listed metadata update, in any order, fully in
    /// parallel.
    UpdateParts { model_id: String, tasks: Vec<PartUpdateTask> },
    /// Submit the simulation request for the finalised model.
    CreateSimulation { key: IdempotencyKey, params: CreateSimulationV7Params },
    /// Emit the pipeline's one terminal result for its job.
    Report { result: Result<SimulationV7, Vec<String>> },
    /// Do nothing further for this pipeline.
    Stop,
}

/// One submission pipeline: the target project, the job it owns, and the
/// stage it stands at.
#[derive(Debug, PartialEq)]
pub struct Pipeline {
    pub project_id: String,
    pub sim: SimulationParams,
    pub state: PipelineState,
}

/// The chain of causes of a failed stage, with the stage's own context
/// line in front.
pub open spec fn with_context(line: Seq<char>, chain: Seq<Seq<char>>) -> Seq<Seq<char>> {
    seq![line] + chain
}

/// The pipeline's transition relation: from `pre` under stage outcome
/// `event`, with the shared cancellation flag read at this stage
/// boundary and a freshly drawn key for the next remote call, to `post`,
/// performing `action`.
pub open spec fn pipeline_step(
    pre: Pipeline,
    event: PipelineEvent,
    cancelled: bool,
    key: IdempotencyKey,
    post: Pipeline,
    action: PipelineAction,
) -> bool {
    &&& post.project_id == pre.project_id
    &&& post.sim == pre.sim
    &&& if cancelled && !(pre.state is Finished) {
        post.state is Stopped && action is Stop
    } else {
        match (pre.state, event) {
            (PipelineState::CreatingModel, PipelineEvent::ModelCreated(r)) => match r {
                Ok(model) => {
                    if upload_plan_ok(model.files@, pre.sim.files@) {
                        &&& post.state matches PipelineState::UploadingFiles { model_id }
                            && model_id == model.id
                        &&& action matches PipelineAction::UploadFiles { tasks } && {
                            &&& tasks@.len() == pre.sim.files@.len()
                            &&& forall|j: int|
                                0 <= j < pre.sim.files@.len() ==> upload_task_of(
                                    model.files@,
                                    pre.sim.files@[j],
                                    #[trigger] tasks@[j],
                                )
                        }
                    } else {
                        &&& post.state is Finished
                        &&& action matches PipelineAction::Report { result: Err(chain) }
                            && chain.deep_view().len() == 1 && exists|e: PipelineError|
                            chain.deep_view()[0] == (#[trigger] e.spec_message())
                    }
                },
                Err(chain) => {
                    post.state is Finished && action == (PipelineAction::Report {
                        result: Err(chain),
                    })
                },
            },
            (PipelineState::UploadingFiles { model_id }, PipelineEvent::FilesUploaded(r)) => match r {
                Ok(_) => {
                    &&& post.state matches PipelineState::FinalisingModel { model_id: m2 }
                        && m2@ == model_id@
                    &&& action matches PipelineAction::FinaliseModel { key: k2, model_id: m3 }
                        && k2 == key && m3@ == model_id@
                },
                Err(chain) => {
                    &&& post.state is Finished
                    &&& action matches PipelineAction::Report { result: Err(chain2) }
                        && chain2.deep_view() == with_context("uploading files"@, chain.deep_view())
                },
            },
            (PipelineState::FinalisingModel { model_id }, PipelineEvent::ModelFinalised(r)) => match r {
                Ok(model) => {
                    if parts_plan_ok(model.files@, pre.sim.files@) {
                        &&& post.state matches PipelineState::UpdatingParts { model_id: m2 }
                            && m2@ == model_id@
                        &&& action matches PipelineAction::UpdateParts { model_id: m3, tasks }
                            && m3@ == model_id@ && tasks@ == parts_tasks(
                            model.files@,
                            pre.sim.files@,
                            pre.sim.files@.len() as int,
                        )
                    } else {
                        &&& post.state is Finished
                        &&& action matches PipelineAction::Report { result: Err(chain) }
                            && chain.deep_view().len() == 2 && chain.deep_view()[0]
                            == "updating parts"@ && exists|e: PipelineError|
                            chain.deep_view()[1] == (#[trigger] e.spec_message())
                    }
                },
                Err(chain) => {
                    &&& post.state is Finished
                    &&& action matches PipelineAction::Report { result: Err(chain2) }
                        && chain2.deep_view() == with_context("finalising model"@, chain.deep_view())
                },
            },
            (PipelineState::UpdatingParts { model_id }, PipelineEvent::PartsUpdated(r)) => match r {
                Ok(_) => {
                    &&& post.state is CreatingSimulation
                    &&& action matches PipelineAction::CreateSimulation { key: k2, params }
                        && k2 == key && {
                        &&& params.name@ == pre.sim.params.name@
                        &&& params.revision == pre.sim.params.revision
                        &&& params.model_id@ == model_id@
                        &&& params.project_id == pre.project_id
                        &&& params.quality == pre.sim.params.quality
                        &&& params.boundary_layer_treatment
                            == pre.sim.params.boundary_layer_treatment
                        &&& params.yaw_angles@ == pre.sim.params.yaw_angles@
                        &&& params.fluid == pre.sim.params.fluid
                        &&& params.fluid_speed == pre.sim.params.fluid_speed
                        &&& params.has_ground == pre.sim.params.has_ground
                        &&& params.ground_offset == pre.sim.params.ground_offset
                        &&& params.is_ground_moving == pre.sim.params.is_ground_moving
                    }
                },
                Err(chain) => {
                    &&& post.state is Finished
                    &&& action matches PipelineAction::Report { result: Err(chain2) }
                        && chain2.deep_view() == with_context("updating parts"@, chain.deep_view())
                },
            },
            (PipelineState::CreatingSimulation, PipelineEvent::SimulationCreated(r)) => {
                post.state is Finished && action == (PipelineAction::Report { result: r })
            },
            _ => {
                post.state == pre.state && action is Stop
            },
        }
    }
}

impl Pipeline {
    /// A fresh pipeline for one job, about to create its model.
    pub fn new(project_id: String, sim: SimulationParams) -> (r: Pipeline)
        ensures
            r.project_id == project_id,
            r.sim == sim,
            r.state is CreatingModel,
    {
        Pipeline { project_id, sim, state: PipelineState::CreatingModel }
    }

    /// The pipeline's first remote call: model creation under a fresh
    /// key, registering the job's name and file manifest.
    pub fn start(&self, key: IdempotencyKey) -> (action: PipelineAction)
        requires
            self.state is CreatingModel,
        ensures
            action matches PipelineAction::CreateModel { key: k2, params } && k2 == key && {
                &&& params.name@ == self.sim.params.name@
                &&& params.reusable == false
                &&& params.files@.len() == self.sim.files@.len()
                &&& forall|i: int|
                    0 <= i < self.sim.files@.len() ==> {
                        &&& (#[trigger] params.files@[i]).name@ == self.sim.files@[i].filename@
                        &&& params.files@[i].rotation == self.sim.files@[i].params.rotation
                        &&& params.files@[i].unit == self.sim.files@[i].params.unit
                    }
            },
    {
        PipelineAction::CreateModel { key, params: self.sim.into_api_model_params() }
    }

    /// Advances the pipeline by one stage boundary, as [`pipeline_step`]
    /// describes: consumes the outcome of the stage that just finished,
    /// honours cancellation, and hands back the next stage's work or the
    /// terminal report.
    pub fn step(&mut self, event: PipelineEvent, cancelled: bool, key: IdempotencyKey) -> (action:
        PipelineAction)
        ensures
            pipeline_step(*old(self), event, cancelled, key, *final(self), action),
    {
        if cancelled && !matches!(self.state, PipelineState::Finished) {
            self.state = PipelineState::Stopped;
            return PipelineAction::Stop;
        }
        match event {
            PipelineEvent::ModelCreated(r) => {
                if !matches!(self.state, PipelineState::CreatingModel) {
                    return PipelineAction::Stop;
                }
                match r {
                    Ok(model) => {
                        match plan_uploads(&model.files, &self.sim.files) {
                            Ok(tasks) => {
                                self.state = PipelineState::UploadingFiles { model_id: model.id };
                                PipelineAction::UploadFiles { tasks }
                            },
                            Err(e) => {
                                self.state = PipelineState::Finished;
                                let mut chain: Vec<String> = Vec::new();
                                chain.push(e.message());
                                proof {
                                    assert(chain.deep_view() =~= seq![e.spec_message()]);
                                }
                                PipelineAction::Report { result: Err(chain) }
                            },
                        }
                    },
                    Err(chain) => {
                        self.state = PipelineState::Finished;
                        PipelineAction::Report { result: Err(chain) }
                    },
                }
            },
            PipelineEvent::FilesUploaded(r) => {
                let model_id = if let PipelineState::UploadingFiles { model_id } = &self.state {
                    model_id.clone()
                } else {
                    return PipelineAction::Stop;
                };
                match r {
                    Ok(_) => {
                        self.state = PipelineState::FinalisingModel {
                            model_id: model_id.clone(),
                        };
                        PipelineAction::FinaliseModel { key, model_id }
                    },
                    Err(chain) => {
                        self.state = PipelineState::Finished;
                        let chain2 = push_context("uploading files", chain);
                        PipelineAction::Report { result: Err(chain2) }
                    },
                }
            },
            PipelineEvent::ModelFinalised(r) => {
                let model_id = if let PipelineState::FinalisingModel { model_id } = &self.state {
                    model_id.clone()
                } else {
                    return PipelineAction::Stop;
                };
                match r {
                    Ok(model) => {
                        match plan_part_updates(&model.files, &self.sim.files) {
                            Ok(tasks) => {
                                self.state = PipelineState::UpdatingParts {
                                    model_id: model_id.clone(),
                                };
                                PipelineAction::UpdateParts { model_id, tasks }
                            },
                            Err(e) => {
                                self.state = PipelineState::Finished;
                                let mut chain: Vec<String> = Vec::new();
                                chain.push(e.message());
                                let chain2 = push_context("updating parts", chain);
                                proof {
                                    assert(chain2.deep_view() =~= seq![
                                        "updating parts"@,
                                        e.spec_message(),
                                    ]);
                                }
                                PipelineAction::Report { result: Err(chain2) }
                            },
                        }
                    },
                    Err(chain) => {
                        self.state = PipelineState::Finished;
                        let chain2 = push_context("finalising model", chain);
                        PipelineAction::Report { result: Err(chain2) }
                    },
                }
            },
            PipelineEvent::PartsUpdated(r) => {
                let model_id = if let PipelineState::UpdatingParts { model_id } = &self.state {
                    model_id.clone()
                } else {
                    return PipelineAction::Stop;
                };
                match r {
                    Ok(_) => {
                        self.state = PipelineState::CreatingSimulation;
                        let params = self.sim.into_api_params(model_id, self.project_id.clone());
                        PipelineAction::CreateSimulation { key, params }
                    },
                    Err(chain) => {
                        self.state = PipelineState::Finished;
                        let chain2 = push_context("updating parts", chain);
                        PipelineAction::Report { result: Err(chain2) }
                    },
                }
            },
            PipelineEvent::SimulationCreated(r) => {
                if !matches!(self.state, PipelineState::CreatingSimulation) {
                    return PipelineAction::Stop;
                }
                self.state = PipelineState::Finished;
                PipelineAction::Report { result: r }
            },
        }
    }
}

/// Prepends a stage's context line to a chain of causes.
fn push_context(line: &str, chain: Vec<String>) -> (r: Vec<String>)
    ensures
        r.deep_view() == with_context(line@, chain.deep_view()),
{
    let mut r: Vec<String> = Vec::new();
    r.push(String::from_str(line));
    let n = chain.len();
    let rest = chain;
    let mut i: usize = 0;
    while i < n
        invariant
            n == rest@.len(),
            i <= n,
            r@.len() == i + 1,
            r@[0]@ == line@,
            forall|k: int| 1 <= k < i + 1 ==> (#[trigger] r@[k])@ == rest@[k - 1]@,
        decreases n - i,
    {
        let item = rest[i].clone();
        r.push(item);
        i = i + 1;
    }
    proof {
        assert((seq![line@] + rest.deep_view()).len() == 1 + rest.deep_view().len());
        assert forall|k: int|
            0 <= k < r.deep_view().len() implies #[trigger] r.deep_view()[k] == (seq![line@]
            + rest.deep_view())[k] by {
            if k == 0 {
                assert(r.deep_view()[0] == r@[0]@);
                assert((seq![line@] + rest.deep_view())[0] == line@);
            } else {
                assert(r.deep_view()[k] == r@[k]@);
                assert(r@[k]@ == rest@[k - 1]@);
                assert((seq![line@] + rest.deep_view())[k] == rest.deep_view()[k - 1]);
                assert(rest.deep_view()[k - 1] == rest@[k - 1]@);
            }
        }
        assert(r.deep_view() =~= seq![line@] + rest.deep_view());
        assert(rest.deep_view() == with_context(line@, rest.deep_view()).skip(1)) by {
            assert(with_context(line@, rest.deep_view()).skip(1) =~= rest.deep_view());
        }
    }
    r
}

/// Remote work happens only in its own stage, in the strict order the
/// pipeline declares, and a pipeline reports exactly once: after its one
/// report it only ever stops, and after a cancellation boundary it never
/// reports at all.
pub proof fn lemma_pipeline_stage_order(
    pre: Pipeline,
    event: PipelineEvent,
    cancelled: bool,
    key: IdempotencyKey,
    post: Pipeline,
    action: PipelineAction,
)
    requires
        pipeline_step(pre, event, cancelled, key, post, action),
    ensures
        action is UploadFiles ==> pre.state is CreatingModel && post.state is UploadingFiles,
        action is FinaliseModel ==> pre.state is UploadingFiles && post.state is FinalisingModel,
        action is UpdateParts ==> pre.state is FinalisingModel && post.state is UpdatingParts,
        action is CreateSimulation ==> pre.state is UpdatingParts && post.state
            is CreatingSimulation,
        action is Report ==> post.state is Finished,
        pre.state is Finished ==> action is Stop,
        pre.state is Stopped ==> action is Stop,
        cancelled && !(pre.state is Finished) ==> action is Stop && post.state is Stopped,
{
}


/// Idempotence of resubmission: every remote call of a pipeline carries
/// exactly the idempotency key drawn freshly for that stage boundary —
/// no key is stored in the pipeline or reused across stages, so a reset
/// and resubmitted job draws new, independent keys for every stage.
pub proof fn lemma_fresh_key_per_stage(
    pre: Pipeline,
    event: PipelineEvent,
    cancelled: bool,
    key: IdempotencyKey,
    post: Pipeline,
    action: PipelineAction,
)
    requires
        pipeline_step(pre, event, cancelled, key, post, action),
    ensures
        action matches PipelineAction::FinaliseModel { key: k, .. } ==> k == key,
        action matches PipelineAction::CreateSimulation { key: k, .. } ==> k == key,
{
}

} // verus!
