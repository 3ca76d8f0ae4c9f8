//! Per-job simulation parameters and their validation.
//!
//! Numeric quantities that the engine never computes with (angles, speeds,
//! coefficients, offsets) are carried as fixed-point integers: the engine
//! only stores and forwards them, so their unit and scale are the caller's
//! concern.

use vstd::prelude::*;

use crate::types::{BoundaryLayerTreatment, FileUnit, Fluid, SimulationQuality};

verus! {

/// A yaw angle, in thousandths of a degree.
#[derive(Clone, Copy, Debug, PartialEq, Eq, Structural)]
pub struct YawAngle(pub i64);

/// A fluid speed, in thousandths of a metre per second.
#[derive(Clone, Copy, Debug, PartialEq, Eq, Structural)]
pub struct FluidSpeed(pub i64);

/// A ground offset, in thousandths of a metre.
#[derive(Clone, Copy, Debug, PartialEq, Eq, Structural)]
pub struct GroundOffset(pub i64);

/// A rotation quaternion, each component in millionths.
#[derive(Clone, Copy, Debug, PartialEq, Eq, Structural)]
pub struct Quaternion {
    pub x: i64,
    pub y: i64,
    pub z: i64,
    pub w: i64,
}

/// Metadata update for one declared sub-part of a geometry file.
///
/// Coefficients are fixed-point values in millionths.
#[derive(Clone, Copy, Debug, PartialEq, Eq, Structural)]
pub struct UpdatePartV7Params {
    pub rolling: Option<bool>,
    pub is_porous: Option<bool>,
    pub darcy_coeff: Option<i64>,
    pub forchheimer_coeff: Option<i64>,
}

/// Why a job's per-file parameters were rejected.
#[derive(Clone, Debug, PartialEq)]
pub enum ParamsError {
    /// The named part is marked porous but has no Darcy coefficient.
    MissingDarcyCoeff { part: String },
    /// The named part is marked porous but has no Forchheimer coefficient.
    MissingForchheimerCoeff { part: String },
}

/// Parameters attached to one geometry file of a job.
#[derive(Clone, Debug, PartialEq)]
pub struct FileV7ParamsFromJson {
    pub unit: FileUnit,
    pub rotation: Option<Quaternion>,
    pub parts: Vec<(String, UpdatePartV7Params)>,
}

/// A part is consistent when being marked porous comes with both
/// porosity coefficients.
pub open spec fn part_is_valid(part: UpdatePartV7Params) -> bool {
    part.is_porous == Some(true) ==> part.darcy_coeff is Some
        && part.forchheimer_coeff is Some
}

impl FileV7ParamsFromJson {
    /// All declared parts are consistent.
    pub open spec fn all_parts_valid(self) -> bool {
        forall|i: int| 0 <= i < self.parts@.len() ==> part_is_valid(#[trigger] self.parts@[i].1)
    }

    /// The error [`Self::ensure_is_valid`] gives: it names the first part
    /// that is marked porous but is missing one of its porosity
    /// coefficients, the missing Darcy coefficient reported first.
    pub open spec fn rejects_with(self, e: ParamsError) -> bool {
        exists|i: int|
            {
                &&& 0 <= i < self.parts@.len()
                &&& !part_is_valid(#[trigger] self.parts@[i].1)
                &&& forall|j: int| 0 <= j < i ==> part_is_valid(#[trigger] self.parts@[j].1)
                &&& match e {
                    ParamsError::MissingDarcyCoeff { part } => {
                        part@ == self.parts@[i].0@ && self.parts@[i].1.darcy_coeff is None
                    },
                    ParamsError::MissingForchheimerCoeff { part } => {
                        part@ == self.parts@[i].0@ && self.parts@[i].1.darcy_coeff is Some
                            && self.parts@[i].1.forchheimer_coeff is None
                    },
                }
            }
    }

    /// Checks every declared part, reporting the first part that is marked
    /// porous but is missing one of its porosity coefficients.
    pub fn ensure_is_valid(&self) -> (r: Result<(), ParamsError>)
        ensures
            r is Ok <==> self.all_parts_valid(),
            r matches Err(e) ==> self.rejects_with(e),
    {
        let n = self.parts.len();
        for k in 0..n
            invariant
                n == self.parts@.len(),
                forall|j: int| 0 <= j < k ==> part_is_valid(#[trigger] self.parts@[j].1),
        {
            let (name, part) = &self.parts[k];
            let porous = match part.is_porous {
                Some(b) => b,
                None => false,
            };
            if porous {
                if part.darcy_coeff.is_none() {
                    return Err(ParamsError::MissingDarcyCoeff { part: name.clone() });
                }
                if part.forchheimer_coeff.is_none() {
                    return Err(ParamsError::MissingForchheimerCoeff { part: name.clone() });
                }
            }
        }
        Ok(())
    }
}

/// Validated simulation configuration of one job.
#[derive(Clone, Debug, PartialEq)]
pub struct CreateSimulationV7ParamsFromJson {
    pub name: String,
    pub revision: Option<String>,
    pub quality: SimulationQuality,
    pub boundary_layer_treatment: BoundaryLayerTreatment,
    pub yaw_angles: Vec<YawAngle>,
    pub fluid: Fluid,
    pub fluid_speed: FluidSpeed,
    pub has_ground: bool,
    pub ground_offset: GroundOffset,
    pub is_ground_moving: bool,
}

impl CreateSimulationV7ParamsFromJson {
    /// The revision, or a fixed placeholder when none was given.
    pub fn revision_or_placeholder(&self) -> (r: String)
        ensures
            match self.revision {
                Some(ref s) => r@ == s@,
                None => r@ == "<unspecified>"@,
            },
    {
        match &self.revision {
            Some(s) => s.clone(),
            None => {
                let r: String = String::from_str("<unspecified>");
                r
            },
        }
    }
}

/// Default simulation quality used when a job declares none.
pub fn default_quality() -> (r: SimulationQuality)
    ensures
        r == SimulationQuality::Basic,
{
    SimulationQuality::Basic
}

/// Default yaw-angle list: a single angle of zero degrees.
pub fn default_yaw_angles() -> (r: Vec<YawAngle>)
    ensures
        r@ == seq![YawAngle(0)],
{
    let mut v: Vec<YawAngle> = Vec::new();
    v.push(YawAngle(0));
    proof {
        assert(v@ =~= seq![YawAngle(0)]);
    }
    v
}

/// Default fluid used when a job declares none.
pub fn default_fluid() -> (r: Fluid)
    ensures
        r == Fluid::Air,
{
    Fluid::Air
}

/// Default fluid speed: ten metres per second.
pub fn default_fluid_speed() -> (r: FluidSpeed)
    ensures
        r == FluidSpeed(10000),
{
    FluidSpeed(10000)
}

/// By default the simulation has a ground plane.
pub fn default_has_ground() -> (r: bool)
    ensures
        r == true,
{
    true
}

/// Default ground offset: zero metres.
pub fn default_ground_offset() -> (r: GroundOffset)
    ensures
        r == GroundOffset(0),
{
    GroundOffset(0)
}

/// Default unit of a geometry file.
pub fn default_file_unit() -> (r: FileUnit)
    ensures
        r == FileUnit::M,
{
    FileUnit::M
}

/// Default treatment of the boundary layer.
pub fn default_boundary_layer_treatment() -> (r: BoundaryLayerTreatment)
    ensures
        r == BoundaryLayerTreatment::WallFunctions,
{
    BoundaryLayerTreatment::WallFunctions
}

impl Default for CreateSimulationV7ParamsFromJson {
    /// The configuration a job gets when its directory declares nothing.
    fn default() -> (r: Self)
        ensures
            r.name@ == Seq::<char>::empty(),
            r.revision is None,
            r.quality == SimulationQuality::Basic,
            r.boundary_layer_treatment == BoundaryLayerTreatment::WallFunctions,
            r.yaw_angles@ == seq![YawAngle(0)],
            r.fluid == Fluid::Air,
            r.fluid_speed == FluidSpeed(10000),
            r.has_ground == true,
            r.ground_offset == GroundOffset(0),
            r.is_ground_moving == false,
    {
        CreateSimulationV7ParamsFromJson {
            name: String::new(),
            revision: None,
            quality: default_quality(),
            boundary_layer_treatment: default_boundary_layer_treatment(),
            yaw_angles: default_yaw_angles(),
            fluid: default_fluid(),
            fluid_speed: default_fluid_speed(),
            has_ground: default_has_ground(),
            ground_offset: default_ground_offset(),
            is_ground_moving: false,
        }
    }
}

impl Default for FileV7ParamsFromJson {
    /// The parameters a geometry file gets when it has no sidecar parameters.
    fn default() -> (r: Self)
        ensures
            r.unit == FileUnit::M,
            r.rotation is None,
            r.parts@ == Seq::<(String, UpdatePartV7Params)>::empty(),
    {
        FileV7ParamsFromJson { unit: default_file_unit(), rotation: None, parts: Vec::new() }
    }
}

} // verus!
