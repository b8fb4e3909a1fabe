use vstd::prelude::*;
use std::sync::Arc;
use std::sync::atomic::{AtomicBool, Ordering};
use crate::config::HealthConfig;

verus! {

/// The readiness flag behind the probe endpoints, with the address they
/// listen on. Clones share one flag: the controller's runner writes it and
/// the probe server reads it.
///
/// The flag is read and written atomically by tasks that run concurrently,
/// so a read is not tied by contract to an earlier write: it returns
/// whatever value is current.
#[derive(Clone)]
pub struct HealthServer {
    config: HealthConfig,
    is_ready: Arc<AtomicBool>,
}

impl HealthServer {
    /// The address configuration the probe endpoints listen on.
    pub closed spec fn spec_config(&self) -> HealthConfig {
        self.config
    }

    /// A server for `config` whose flag reads not ready.
    pub fn new(config: HealthConfig) -> (s: Self)
        ensures
            s.spec_config() == config,
    {
        HealthServer { config, is_ready: Arc::new(AtomicBool::new(false)) }
    }

    pub fn config(&self) -> (r: &HealthConfig)
        ensures
            *r == self.spec_config(),
    {
        &self.config
    }

    /// Publishes the ready state.
    pub fn set_ready(&self, ready: bool) {
        self.is_ready.store(ready, Ordering::SeqCst);
    }

    /// The ready state as currently published.
    pub fn is_ready(&self) -> bool {
        self.is_ready.load(Ordering::SeqCst)
    }
}

} // verus!
