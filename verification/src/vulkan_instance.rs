//! The plugin that creates the graphics instance and manages the state
//! around it: the first step of the surface/pipeline lifecycle.

use vstd::prelude::*;

use crate::engine::Engine;
use crate::engine::LifecycleOp;
use crate::error::EngineError;
use crate::plugins::EngineCleanup;
use crate::plugins::EnginePlugin;

verus! {

/// Makes a graphics instance and manages the state around it.
pub struct VulkanInstancePlugin;

impl VulkanInstancePlugin {
    /// A fresh instance plugin; it carries no state of its own.
    pub fn new() -> Self {
        VulkanInstancePlugin
    }

    /// Creates the graphics instance: moves an uninitialized engine to
    /// its first lifecycle stage. On an engine past that point the call
    /// fails and changes nothing.
    pub fn create_instance(&self, engine: &mut Engine) -> (r: Result<(), EngineError>)
        ensures
            r is Ok <==> old(engine).stage is Uninitialized,
            r is Ok ==> final(engine).stage is InstanceCreated,
            r is Err ==> final(engine).stage == old(engine).stage,
            final(engine).app_name == old(engine).app_name,
            r matches Err(e) ==> e is Unknown,
    {
        engine.advance(LifecycleOp::CreateInstance)
    }
}

impl EnginePlugin for VulkanInstancePlugin {
    fn plugin_make(&self, engine: &mut Engine) {
        let _ = self.create_instance(engine);
    }
}

impl EngineCleanup for VulkanInstancePlugin {

}

} // verus!
