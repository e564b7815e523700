//! The capability interfaces a host registers with the engine: plugins
//! that run against the engine's state, objects that also carry state of
//! their own, and cleanup hooks. The engine owns its state and hands it
//! to each callback by mutable reference; nothing aliases it.

use vstd::prelude::*;

use crate::engine::Engine;

verus! {

/// A piece of code that runs against the engine: set up once, then run
/// every tick.
pub trait EnginePlugin {
    /// Called once, when the plugin is registered.
    fn plugin_make(&self, engine: &mut Engine);

    /// Called every tick; does nothing unless the plugin says otherwise.
    fn plugin_run(&self, engine: &mut Engine) {
    }
}

/// A physical object in the scene whose state the engine manages.
pub trait EngineObject<T: Default> {
    /// Called once, when the object is registered, with its initial state.
    fn object_make(&self, engine: &mut Engine, state: T);

    /// Called every tick; does nothing unless the object says otherwise.
    fn object_run(&self, engine: &mut Engine, state: T) {
    }
}

/// Called when the engine tears an object or plugin down.
pub trait EngineCleanup {
    /// Releases whatever the implementor holds; nothing by default.
    fn cleanup(&self, engine: &mut Engine) {
    }
}

} // verus!
