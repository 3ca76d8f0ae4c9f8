//! Plain data model for the values exchanged with the remote compute service.
//!
//! The remote transport itself (HTTP/GraphQL, authentication) is an external
//! collaborator; the engine only ever sees the already-decoded values below.

use vstd::prelude::*;

verus! {

/// Quality level of a simulation run.
#[derive(Clone, Copy, Debug, PartialEq, Eq, Structural)]
pub enum SimulationQuality {
    Dummy,
    Basic,
    Standard,
    Pro,
}

/// Quality level as accepted by the simulation-creation call.
#[derive(Clone, Copy, Debug, PartialEq, Eq, Structural)]
pub enum InputSimulationQuality {
    Dummy,
    Basic,
    Standard,
    Pro,
}

/// Fluid the simulation is run in.
#[derive(Clone, Copy, Debug, PartialEq, Eq, Structural)]
pub enum Fluid {
    Air,
    Water,
}

/// Length unit of an uploaded geometry file.
#[derive(Clone, Copy, Debug, PartialEq, Eq, Structural)]
pub enum FileUnit {
    Mm,
    Cm,
    M,
    Inches,
}

/// Strategy the remote service uses to receive an uploaded file.
#[derive(Clone, Copy, Debug, PartialEq, Eq, Structural)]
pub enum FileUploadStrategy {
    S3,
}

/// Lifecycle status of a remote project.
#[derive(Clone, Copy, Debug, PartialEq, Eq, Structural)]
pub enum ProjectStatus {
    Active,
    Closed,
}

/// Lifecycle status of a remote simulation.
#[derive(Clone, Copy, Debug, PartialEq, Eq, Structural)]
pub enum SimulationStatus {
    Progress,
    Success,
    Expired,
    Draft,
}

/// How the boundary layer is treated by the solver.
#[derive(Clone, Copy, Debug, PartialEq, Eq, Structural)]
pub enum BoundaryLayerTreatment {
    WallFunctions,
    ResolvedBoundaryLayer,
}

/// Billing plan of the account.
#[derive(Clone, Copy, Debug, PartialEq, Eq, Structural)]
pub enum Plan {
    PayAsYouGo,
    Subscription,
}

/// State of the account's subscription.
#[derive(Clone, Copy, Debug, PartialEq, Eq, Structural)]
pub enum SubscriptionState {
    Active,
    Cancelled,
    Suspended,
}

/// Billing interval of a subscription.
#[derive(Clone, Copy, Debug, PartialEq, Eq, Structural)]
pub enum SubscriptionInterval {
    Monthly,
    Yearly,
}

/// Why a subscription was suspended.
#[derive(Clone, Copy, Debug, PartialEq, Eq, Structural)]
pub enum SubscriptionSuspensionReason {
    PaymentRequiresAction,
    PaymentFailed,
}

/// Non-negative integer scalar of the remote API.
#[derive(Clone, Copy, Debug, PartialEq, Eq, Structural)]
pub struct UnsignedInteger(pub u64);

/// A project as returned by the remote service.
#[derive(Clone, Debug, PartialEq)]
pub struct ProjectV7 {
    pub id: String,
    pub name: String,
    pub status: ProjectStatus,
    pub browser_url: String,
}

/// A simulation as returned by the simulation-creation call.
#[derive(Clone, Debug, PartialEq)]
pub struct SimulationV7 {
    pub id: String,
    pub name: String,
    pub browser_url: String,
    pub status: SimulationStatus,
}

/// Arguments of the paginated project-listing query.
#[derive(Clone, Debug)]
pub struct ProjectsV7Arguments {
    pub limit: UnsignedInteger,
    pub offset: UnsignedInteger,
    pub status: Option<ProjectStatus>,
}

/// Input of the project-creation mutation.
#[derive(Clone, Debug)]
pub struct InputProjectV7 {
    pub name: String,
    pub description: Option<String>,
}

/// Variables of the project-creation mutation.
#[derive(Clone, Debug)]
pub struct CreateProjectV7MutationParams {
    pub input: InputProjectV7,
}

/// Per-file upload target returned by the model-creation call.
#[derive(Clone, Debug)]
pub struct FileForUploadV7 {
    pub name: String,
    pub strategy: FileUploadStrategy,
    pub upload_url: String,
}

/// A declared sub-part of a finalised model file.
#[derive(Clone, Debug, PartialEq)]
pub struct ModelV7PartsItem {
    pub id: String,
    pub name: String,
}

/// One file of a model, as returned by model creation or finalisation.
#[derive(Clone, Debug, PartialEq)]
pub struct ModelV7FilesItem {
    pub name: String,
    pub upload_url: Option<String>,
    pub parts: Vec<ModelV7PartsItem>,
}

/// A model, as returned by model creation or finalisation.
#[derive(Clone, Debug, PartialEq)]
pub struct ModelV7 {
    pub id: String,
    pub files: Vec<ModelV7FilesItem>,
}

} // verus!
