//! The shared context handed to every module: an immutable, cheaply
//! duplicated bundle of the process configuration, the shared collaborator
//! handles, and the cancellation signal.
//!
//! The collaborators themselves (an RPC client, a remote object store, two
//! processing-pipeline stages, a resource-limiting pool) are outside this
//! core: the supervisor never reads them, it only shares them, so they stand
//! here as opaque handle types.

use std::sync::Arc;
use vstd::prelude::*;

use crossbeam_channel::Receiver;

use crate::channel::clone_receiver;

verus! {

/// Snapshot of the process configuration. Opaque to the supervisor, which
/// only wraps it in a shared reference and hands it out.
pub struct Config {}

/// Opaque handle to the RPC client collaborator.
pub struct RpcClient {}

/// Opaque handle to the remote object-store collaborator.
pub struct RemoteStore {}

/// Opaque handle to one processing-pipeline stage.
pub struct PipelineProcessor {}

/// Opaque handle to the resource-limiting pool.
pub struct ResourcePool {}

/// The shared collaborator handles, all reference-counted: every clone
/// observes the same underlying instances.
pub struct GlobalModules {
    pub rpc: Arc<RpcClient>,
    pub remote_store: Arc<RemoteStore>,
    pub pc2: Arc<PipelineProcessor>,
    pub c2: Arc<PipelineProcessor>,
    pub limit: Arc<ResourcePool>,
}

/// Relies on std's `Arc::clone`: a new reference-counting handle to the same
/// shared value, which is the same value in every contract that speaks of it.
#[verifier::external_body]
fn clone_arc<T>(a: &Arc<T>) -> (r: Arc<T>)
    ensures
        r == *a,
{
    Arc::clone(a)
}

impl Clone for GlobalModules {
    fn clone(&self) -> (r: Self)
        ensures
            r == *self,
    {
        GlobalModules {
            rpc: clone_arc(&self.rpc),
            remote_store: clone_arc(&self.remote_store),
            pc2: clone_arc(&self.pc2),
            c2: clone_arc(&self.c2),
            limit: clone_arc(&self.limit),
        }
    }
}

/// The context a module receives at start time, by value. It is cloned and
/// never mutated once constructed.
pub struct Ctx {
    /// The cancellation signal: reading it blocks until the supervisor
    /// closes the channel, and closure (not a delivered value) is the
    /// instruction to terminate.
    pub done: Receiver<()>,
    /// Shared, immutable configuration snapshot.
    pub cfg: Arc<Config>,
    /// Shared collaborator handles.
    pub global: GlobalModules,
}

impl Clone for Ctx {
    /// Every clone shares the configuration and collaborator handles; its
    /// `done` receiver is a new handle to the same cancellation channel, so
    /// all clones observe the same closure.
    fn clone(&self) -> (r: Self)
        ensures
            r.cfg == self.cfg,
            r.global == self.global,
    {
        Ctx {
            done: clone_receiver(&self.done),
            cfg: clone_arc(&self.cfg),
            global: self.global.clone(),
        }
    }
}

} // verus!
