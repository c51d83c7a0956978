//! Cross-thread coordination: the shared configuration cell and the
//! hotkey re-registration flag.
//!
//! The cell is the single process-wide holder of the latest applied
//! configuration, written whole-value by the settings flow and read
//! whole-value by the event loop's paint and timer callbacks. Readers
//! always obtain a cloned, consistent snapshot, never a partial view, and
//! every stored value satisfies the configuration invariant. The lock is
//! never held across another call.

use core::sync::atomic::{AtomicBool, Ordering};

use vstd::prelude::*;
use vstd::rwlock::{RwLock, RwLockPredicate};

use crate::config::Config;

verus! {

/// The predicate every configuration stored in the shared cell satisfies.
pub struct WfConfig;

impl RwLockPredicate<Config> for WfConfig {
    open spec fn inv(self, v: Config) -> bool {
        v.wf()
    }
}

/// The process-wide, lock-guarded holder of the latest applied
/// configuration.
pub struct SharedConfig {
    lock: RwLock<Config, WfConfig>,
}

impl SharedConfig {
    /// Creates the cell holding an initial configuration.
    pub fn new(config: Config) -> Self
        requires
            config.wf(),
    {
        SharedConfig { lock: RwLock::new(config, Ghost(WfConfig)) }
    }

    /// Replaces the stored configuration as a whole value. The cell copies
    /// the value in under the lock; no reference to the caller's value is
    /// retained.
    pub fn update_config(&self, config: &Config)
        requires
            config.wf(),
    {
        let (_prev, handle) = self.lock.acquire_write();
        handle.release_write(config.clone());
    }

    /// Clones out the stored configuration: a consistent snapshot that
    /// satisfies the configuration invariant.
    pub fn get_config(&self) -> (c: Config)
        ensures
            c.wf(),
    {
        let handle = self.lock.acquire_read();
        let c = handle.borrow().clone();
        handle.release_read();
        c
    }
}

/// The single-writer/single-reader "re-register the hotkey" flag: set by
/// the settings flow after an apply, taken by the event loop, which then
/// re-reads the configuration cell and re-registers the hotkey.
pub struct ReregisterFlag {
    flag: AtomicBool,
}

impl ReregisterFlag {
    /// Creates the flag, initially clear.
    pub fn new() -> Self {
        ReregisterFlag { flag: AtomicBool::new(false) }
    }

    /// Requests that the event loop re-register the global hotkey.
    pub fn request_hotkey_reregister(&self) {
        self.flag.store(true, Ordering::Relaxed);
    }

    /// Takes a pending request, clearing the flag.
    pub fn take_request(&self) -> bool {
        self.flag.swap(false, Ordering::Relaxed)
    }
}

} // verus!
