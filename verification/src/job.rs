//! The job model: one locally-defined simulation awaiting submission.
//!
//! A job is backed by a directory of parameter and input files.  Its
//! submission state is persisted by the control loop to a sidecar file in
//! that directory on every transition; here the state is plain data and
//! every transition is a pure update.

use vstd::prelude::*;

use crate::params::{CreateSimulationV7ParamsFromJson, FileV7ParamsFromJson, Quaternion, YawAngle};
use crate::types::{BoundaryLayerTreatment, FileUnit, Fluid, SimulationQuality};

verus! {

/// Where a job stands in the submission lifecycle.
///
/// `Ready` is the state of a freshly discovered job (and of a job whose
/// sidecar file is absent); `Sending` means a pipeline owns the job;
/// `Sent` and `Error` are the terminal results of a pipeline run.
#[derive(Clone, Debug, PartialEq)]
pub enum SubmissionState {
    Ready,
    Sending,
    Error(String),
    Sent { id: String, browser_url: String },
}

impl Default for SubmissionState {
    /// The state a job takes when it is first discovered.
    fn default() -> (r: Self)
        ensures
            r is Ready,
    {
        SubmissionState::Ready
    }
}

impl SubmissionState {
    /// Interprets an optionally present sidecar value: absence is `Ready`.
    pub fn from_sidecar(loaded: Option<SubmissionState>) -> (r: Self)
        ensures
            match loaded {
                Some(s) => r == s,
                None => r is Ready,
            },
    {
        match loaded {
            Some(s) => s,
            None => SubmissionState::Ready,
        }
    }
}

/// Upload progress of one geometry file.
#[derive(Clone, Debug, PartialEq)]
pub enum FileState {
    Pending,
    Uploaded { id: String },
}

/// Remote lifecycle of a job's model.
#[derive(Clone, Debug, PartialEq)]
pub enum ModelState {
    Pending,
    Created { id: String },
    Finalized { id: String },
}

/// One geometry file of a job.
#[derive(Clone, Debug, PartialEq)]
pub struct FileParams {
    /// Path of the file on disk, relative to the process working directory.
    pub path: String,
    /// Bare file name, as registered with the remote service.
    pub filename: String,
    /// Size in bytes.
    pub size: u64,
    /// Parameters from the file's sidecar parameter file.
    pub params: FileV7ParamsFromJson,
}

/// One file entry of the model-creation request.
#[derive(Clone, Debug, PartialEq)]
pub struct CreateModelV7ParamsFilesItem {
    pub name: String,
    pub rotation: Option<Quaternion>,
    pub unit: FileUnit,
}

/// The model-creation request.
#[derive(Clone, Debug, PartialEq)]
pub struct CreateModelV7Params {
    pub name: String,
    pub reusable: bool,
    pub files: Vec<CreateModelV7ParamsFilesItem>,
}

/// The simulation-creation request.
#[derive(Clone, Debug, PartialEq)]
pub struct CreateSimulationV7Params {
    pub name: String,
    pub revision: Option<String>,
    pub model_id: String,
    pub project_id: String,
    pub quality: SimulationQuality,
    pub boundary_layer_treatment: BoundaryLayerTreatment,
    pub yaw_angles: Vec<YawAngle>,
    pub fluid: Fluid,
    pub fluid_speed: crate::params::FluidSpeed,
    pub has_ground: bool,
    pub ground_offset: crate::params::GroundOffset,
    pub is_ground_moving: bool,
}

/// Sum of the sizes of a sequence of files, as an unbounded integer.
pub open spec fn size_sum(files: Seq<FileParams>) -> int
    decreases files.len(),
{
    if files.len() == 0 {
        0
    } else {
        size_sum(files.drop_last()) + files.last().size
    }
}

/// Every prefix sum is bounded by the whole sum.
proof fn lemma_size_sum_take(files: Seq<FileParams>, i: int)
    requires
        0 <= i <= files.len(),
    ensures
        size_sum(files.take(i)) <= size_sum(files),
        i < files.len() ==> size_sum(files.take(i + 1)) == size_sum(files.take(i)) + files[i].size,
    decreases files.len() - i,
{
    if i < files.len() {
        assert(files.take(i + 1).drop_last() =~= files.take(i));
        assert(files.take(i + 1).last() == files[i]);
        lemma_size_sum_take(files, i + 1);
    } else {
        assert(files.take(i) =~= files);
    }
}

/// One locally-defined simulation job.
#[derive(Clone, Debug, PartialEq)]
pub struct SimulationParams {
    /// Process-local token matching asynchronous pipeline results back to
    /// this job; assigned by the session on every load.
    pub internal_id: u64,
    /// Directory backing the job; the persistence key.
    pub dir: String,
    /// Validated simulation configuration.
    pub params: CreateSimulationV7ParamsFromJson,
    /// Geometry files, sorted by path.
    pub files: Vec<FileParams>,
    /// Only selected jobs are eligible for submission.
    pub selected: bool,
    /// Current submission lifecycle state.
    pub submission_state: SubmissionState,
}

impl SimulationParams {
    /// A job may be submitted exactly when it is selected, has at least one
    /// file, and is neither being sent nor already sent.
    pub open spec fn spec_is_submittable(self) -> bool {
        &&& self.selected
        &&& self.files@.len() > 0
        &&& (self.submission_state is Ready || self.submission_state is Error)
    }

    /// Decides whether this job belongs in the set handed to the pipeline
    /// spawn step.
    pub fn is_submittable(&self) -> (r: bool)
        ensures
            r == self.spec_is_submittable(),
    {
        self.selected && self.files.len() > 0 && match self.submission_state {
            SubmissionState::Ready | SubmissionState::Error(..) => true,
            SubmissionState::Sending | SubmissionState::Sent { .. } => false,
        }
    }

    /// Total size of the job's files, clamped at the largest representable
    /// byte count.
    pub fn files_size(&self) -> (r: u64)
        ensures
            r == if size_sum(self.files@) <= u64::MAX {
                size_sum(self.files@)
            } else {
                u64::MAX as int
            },
    {
        let n = self.files.len();
        let mut acc: u64 = 0;
        for i in 0..n
            invariant
                n == self.files@.len(),
                acc == if size_sum(self.files@.take(i as int)) <= u64::MAX {
                    size_sum(self.files@.take(i as int))
                } else {
                    u64::MAX as int
                },
        {
            proof {
                lemma_size_sum_take(self.files@, i as int);
            }
            acc = crate::saturating_add_bytes(acc, self.files[i].size);
        }
        proof {
            assert(self.files@.take(n as int) =~= self.files@);
        }
        acc
    }

    /// Replaces the in-memory submission state; the caller is responsible
    /// for flushing the new state to the job's sidecar file.
    pub fn update_submission_state(&mut self, state: SubmissionState)
        ensures
            *final(self) == (SimulationParams { submission_state: state, ..*old(self) }),
    {
        self.submission_state = state;
    }

    /// Returns the job to `Ready`, making it submittable again.
    pub fn reset_submission_state(&mut self)
        ensures
            *final(self) == (SimulationParams { submission_state: SubmissionState::Ready, ..*old(self) }),
    {
        self.update_submission_state(SubmissionState::Ready);
    }

    /// Builds the model-creation request: the job's name and, for every
    /// file in order, its registered name, rotation and unit.
    pub fn into_api_model_params(&self) -> (r: CreateModelV7Params)
        ensures
            r.name@ == self.params.name@,
            r.reusable == false,
            r.files@.len() == self.files@.len(),
            forall|i: int|
                0 <= i < self.files@.len() ==> {
                    &&& (#[trigger] r.files@[i]).name@ == self.files@[i].filename@
                    &&& r.files@[i].rotation == self.files@[i].params.rotation
                    &&& r.files@[i].unit == self.files@[i].params.unit
                },
    {
        let n = self.files.len();
        let mut items: Vec<CreateModelV7ParamsFilesItem> = Vec::new();
        for i in 0..n
            invariant
                n == self.files@.len(),
                items@.len() == i,
                forall|j: int|
                    0 <= j < i ==> {
                        &&& (#[trigger] items@[j]).name@ == self.files@[j].filename@
                        &&& items@[j].rotation == self.files@[j].params.rotation
                        &&& items@[j].unit == self.files@[j].params.unit
                    },
        {
            let file = &self.files[i];
            items.push(CreateModelV7ParamsFilesItem {
                name: file.filename.clone(),
                rotation: file.params.rotation,
                unit: file.params.unit,
            });
        }
        CreateModelV7Params { name: self.params.name.clone(), reusable: false, files: items }
    }

    /// Builds the simulation-creation request from the job's parameters and
    /// the finalised model and target project.
    pub fn into_api_params(&self, model_id: String, project_id: String) -> (r:
        CreateSimulationV7Params)
        ensures
            r.name@ == self.params.name@,
            r.revision == self.params.revision,
            r.model_id == model_id,
            r.project_id == project_id,
            r.quality == self.params.quality,
            r.boundary_layer_treatment == self.params.boundary_layer_treatment,
            r.yaw_angles@ == self.params.yaw_angles@,
            r.fluid == self.params.fluid,
            r.fluid_speed == self.params.fluid_speed,
            r.has_ground == self.params.has_ground,
            r.ground_offset == self.params.ground_offset,
            r.is_ground_moving == self.params.is_ground_moving,
    {
        CreateSimulationV7Params {
            name: self.params.name.clone(),
            revision: self.params.revision.clone(),
            model_id,
            project_id,
            quality: self.params.quality,
            boundary_layer_treatment: self.params.boundary_layer_treatment,
            yaw_angles: clone_yaw_angles(&self.params.yaw_angles),
            fluid: self.params.fluid,
            fluid_speed: self.params.fluid_speed,
            has_ground: self.params.has_ground,
            ground_offset: self.params.ground_offset,
            is_ground_moving: self.params.is_ground_moving,
        }
    }
}

/// Copies a yaw-angle list element by element.
fn clone_yaw_angles(v: &Vec<YawAngle>) -> (r: Vec<YawAngle>)
    ensures
        r@ == v@,
{
    let n = v.len();
    let mut r: Vec<YawAngle> = Vec::new();
    for i in 0..n
        invariant
            n == v@.len(),
            r@ == v@.take(i as int),
    {
        r.push(v[i]);
        proof {
            assert(r@ =~= v@.take(i as int + 1));
        }
    }
    proof {
        assert(v@.take(n as int) =~= v@);
    }
    r
}

} // verus!
