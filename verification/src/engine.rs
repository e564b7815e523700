//! The engine owner and its surface/pipeline lifecycle.
//!
//! The lifecycle is a linear state machine: instance, surface, device,
//! configuration, pipeline, in that order and never backwards. Its one
//! loop is the resize: a configured or operational engine reconfigures
//! the surface and stays where it is -- resize never recreates the
//! pipeline.

use vstd::prelude::*;

use crate::error::EngineError;

verus! {

/// How far the surface/pipeline lifecycle has come.
#[derive(Clone, Copy, Debug, PartialEq, Eq, Structural)]
pub enum Stage {
    /// Nothing exists yet.
    Uninitialized,
    /// The graphics instance exists.
    InstanceCreated,
    /// The rendering surface exists.
    SurfaceCreated,
    /// A device and its queue were acquired from a qualifying adapter.
    DeviceAcquired,
    /// The surface carries a configuration.
    Configured,
    /// The fixed render pipeline exists; the engine is operational.
    PipelineReady,
}

/// A lifecycle operation the host asks for.
#[derive(Clone, Copy, Debug, PartialEq, Eq, Structural)]
pub enum LifecycleOp {
    CreateInstance,
    CreateSurface,
    RequestDevice,
    ConfigureSurface,
    CreatePipeline,
    /// Re-apply the surface configuration at a new size.
    Resize,
}

/// The lifecycle's transition table: the stage that `op` leads to from
/// `s`, or `None` where `op` is not legal at `s`. The five construction
/// steps advance linearly; resize keeps a configured or operational
/// engine where it is, reconfiguring only the surface.
pub open spec fn next_stage(s: Stage, op: LifecycleOp) -> Option<Stage> {
    match (s, op) {
        (Stage::Uninitialized, LifecycleOp::CreateInstance) => Some(Stage::InstanceCreated),
        (Stage::InstanceCreated, LifecycleOp::CreateSurface) => Some(Stage::SurfaceCreated),
        (Stage::SurfaceCreated, LifecycleOp::RequestDevice) => Some(Stage::DeviceAcquired),
        (Stage::DeviceAcquired, LifecycleOp::ConfigureSurface) => Some(Stage::Configured),
        (Stage::Configured, LifecycleOp::CreatePipeline) => Some(Stage::PipelineReady),
        (Stage::Configured, LifecycleOp::Resize) => Some(Stage::Configured),
        (Stage::PipelineReady, LifecycleOp::Resize) => Some(Stage::PipelineReady),
        _ => None,
    }
}

/// The owner of the engine's state: its display name and how far the
/// lifecycle has come. The host holds it by value and passes it to
/// plugins by mutable reference; nothing aliases it.
#[derive(Debug)]
pub struct Engine {
    /// The application/display name the host initialized the engine with.
    pub app_name: String,
    /// How far the surface/pipeline lifecycle has come.
    pub stage: Stage,
}

impl Engine {
    /// A fresh engine under the given display name, with nothing created.
    pub fn new(app_name: &str) -> (r: Engine)
        ensures
            r.app_name@ == app_name@,
            r.stage is Uninitialized,
    {
        Engine { app_name: app_name.to_owned(), stage: Stage::Uninitialized }
    }

    /// Performs one lifecycle operation. A legal operation moves the
    /// engine to the stage the transition table gives; an illegal one
    /// changes nothing and reports the failure.
    pub fn advance(&mut self, op: LifecycleOp) -> (r: Result<(), EngineError>)
        ensures
            r is Ok <==> next_stage(old(self).stage, op) is Some,
            (match next_stage(old(self).stage, op) {
                Some(s) => final(self).stage == s,
                None => final(self).stage == old(self).stage,
            }),
            final(self).app_name == old(self).app_name,
            r matches Err(e) ==> e is Unknown,
    {
        let next = match (self.stage, op) {
            (Stage::Uninitialized, LifecycleOp::CreateInstance) => Some(Stage::InstanceCreated),
            (Stage::InstanceCreated, LifecycleOp::CreateSurface) => Some(Stage::SurfaceCreated),
            (Stage::SurfaceCreated, LifecycleOp::RequestDevice) => Some(Stage::DeviceAcquired),
            (Stage::DeviceAcquired, LifecycleOp::ConfigureSurface) => Some(Stage::Configured),
            (Stage::Configured, LifecycleOp::CreatePipeline) => Some(Stage::PipelineReady),
            (Stage::Configured, LifecycleOp::Resize) => Some(Stage::Configured),
            (Stage::PipelineReady, LifecycleOp::Resize) => Some(Stage::PipelineReady),
            _ => None,
        };
        match next {
            Some(s) => {
                self.stage = s;
                Ok(())
            },
            None => Err(EngineError::Unknown),
        }
    }
}

/// The stages in lifecycle order, for stating that nothing goes backwards.
pub open spec fn stage_rank(s: Stage) -> int {
    match s {
        Stage::Uninitialized => 0,
        Stage::InstanceCreated => 1,
        Stage::SurfaceCreated => 2,
        Stage::DeviceAcquired => 3,
        Stage::Configured => 4,
        Stage::PipelineReady => 5,
    }
}

/// The lifecycle is linear: no operation leads back to an earlier stage,
/// and the only operation that stays in place is a resize of a
/// configured or operational engine.
pub proof fn lemma_lifecycle_never_regresses(s: Stage, op: LifecycleOp)
    ensures
        next_stage(s, op) matches Some(t) ==> stage_rank(t) >= stage_rank(s),
        next_stage(s, op) matches Some(t) ==> (stage_rank(t) == stage_rank(s) ==> t == s
            && op is Resize && (s is Configured || s is PipelineReady)),
{
}

} // verus!
