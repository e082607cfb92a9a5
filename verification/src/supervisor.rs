//! The supervisor itself: the `Module` capability, the registry of started
//! modules, and the blocking wait-for-first-termination operation.
//!
//! Spawning a thread is the one thing the supervisor cannot do itself: the
//! caller hands `start_module` the primitive that carries a `ModuleTask` to
//! its own thread of execution, and the supervisor records whatever handle
//! that primitive returns.

use crossbeam_channel::Receiver;
use crossbeam_channel::RecvError;
use crossbeam_channel::Sender;
use std::sync::Arc;
use vstd::prelude::*;

use crate::channel::cancellation_channel;
use crate::channel::close_cancellation;
use crate::channel::post_result;
use crate::channel::result_channel;
use crate::context::Config;
use crate::context::Ctx;
use crate::context::GlobalModules;
use crate::outcome::classify;
use crate::outcome::classify_spec;
use crate::outcome::ModuleResult;
use crate::outcome::StopEvent;
use crate::outcome::WaitError;

verus! {

/// The capability a module offers the supervisor: a stable identifier, and
/// a body that can be driven to completion given a shared context.
///
/// A module must treat the context as read-only, observe the closure of its
/// cancellation signal as the instruction to terminate, and report its
/// outcome through `run`'s return value alone.
pub trait Module: Send {
    fn id(&self) -> String;

    fn run(&mut self, ctx: Ctx) -> ModuleResult;
}

/// Everything one module execution needs: the module, its context clone,
/// and the sending half of its single-slot result channel. The caller's
/// spawn primitive carries it to a fresh thread of execution, which then
/// calls `run_to_completion`.
pub struct ModuleTask<M: Module> {
    module: M,
    ctx: Ctx,
    outcome: Sender<ModuleResult>,
}

impl<M: Module> ModuleTask<M> {
    /// Drives the module to completion and posts the returned result to the
    /// task's single-slot channel, where the supervisor's `wait` finds it.
    /// The post never blocks and happens exactly once; if this function is
    /// never reached, dropping the task closes the channel instead, which
    /// `wait` surfaces as a receive failure.
    pub fn run_to_completion(self) {
        let ModuleTask { module, ctx, outcome } = self;
        let mut module = module;
        let res = module.run(ctx);
        post_result(outcome, res);
    }
}

/// One registration: the identifier the module reported at start time, the
/// opaque execution handle the caller's spawn primitive returned, and the
/// receiving half of the module's result channel.
pub struct ModuleEntry<H> {
    pub name: String,
    pub handle: H,
    pub outcome: Receiver<ModuleResult>,
}

/// The supervisor: owns the registry of started modules and the sending
/// half of the cancellation channel, until the first `wait` consumes it.
pub struct WatchDog<H> {
    ctx: Ctx,
    done_ctrl: Option<Sender<()>>,
    modules: Vec<ModuleEntry<H>>,
    stopped: Option<StopEvent>,
}

/// Relies on `crossbeam_channel::Select::{new, recv, select}` and
/// `crossbeam_channel::SelectedOperation::{index, recv}`: registers every
/// entry's result receiver in registration order (`Select::recv` numbers
/// the operations 0, 1, 2, ... in the order they are added), blocks until
/// any one operation is ready, and completes that operation on the receiver
/// it was registered with. The first component is the ready operation's
/// number as `SelectedOperation::index` reported it; the second is the
/// selected channel's message, or the channel-closed error if that channel
/// was disconnected with nothing posted.
#[verifier::external_body]
fn select_first_result<H>(entries: &Vec<ModuleEntry<H>>) -> (usize, Result<ModuleResult, RecvError>)
    requires
        entries@.len() > 0,
{
    let mut sel = crossbeam_channel::Select::new();
    for e in entries.iter() {
        sel.recv(&e.outcome);
    }
    let op = sel.select();
    let index = op.index();
    let received = op.recv(&entries[index].outcome);
    (index, received)
}

impl<H> WatchDog<H> {
    /// How many modules have been registered.
    pub closed spec fn module_count(&self) -> nat {
        self.modules@.len()
    }

    /// The registered module identifiers, in registration order.
    pub closed spec fn module_names(&self) -> Seq<String> {
        self.modules@.map_values(|e: ModuleEntry<H>| e.name)
    }

    /// Whether the cancellation controller is still held, i.e. not yet
    /// consumed by a call to `wait`.
    pub closed spec fn controller_available(&self) -> bool {
        self.done_ctrl is Some
    }

    /// The first observed termination, if `wait` has recorded one.
    pub closed spec fn first_stop_spec(&self) -> Option<StopEvent> {
        self.stopped
    }

    /// The context template every started module receives a clone of.
    pub closed spec fn ctx_spec(&self) -> Ctx {
        self.ctx
    }

    /// Creates the supervisor: a fresh cancellation channel whose receiving
    /// half is embedded in the context template, the sending half held back
    /// as the controller, and an empty registry.
    pub fn build(cfg: Config, global: GlobalModules) -> (w: WatchDog<H>)
        ensures
            w.module_count() == 0,
            w.controller_available(),
            w.first_stop_spec() is None,
            w.ctx_spec().cfg == cfg,
            w.ctx_spec().global == global,
    {
        let (done_tx, done_rx) = cancellation_channel();
        WatchDog {
            ctx: Ctx { done: done_rx, cfg: Arc::new(cfg), global },
            done_ctrl: Some(done_tx),
            modules: Vec::new(),
            stopped: None,
        }
    }

    /// Registers and launches one module: clones the context, creates the
    /// module's single-slot result channel, hands the bundled task to the
    /// caller's spawn primitive, and records the identifier, the returned
    /// execution handle and the result receiver.
    ///
    /// Identifiers are not checked for uniqueness: duplicates are the
    /// caller's responsibility to avoid if disambiguation matters.
    pub fn start_module<M: Module, F: FnOnce(ModuleTask<M>) -> H>(&mut self, m: M, spawn: F)
        requires
            forall|t: ModuleTask<M>| call_requires(spawn, (t,)),
        ensures
            final(self).module_count() == old(self).module_count() + 1,
            forall|i: int|
                0 <= i < old(self).module_count()
                    ==> final(self).module_names()[i] == old(self).module_names()[i],
            final(self).controller_available() == old(self).controller_available(),
            final(self).first_stop_spec() == old(self).first_stop_spec(),
            final(self).ctx_spec() == old(self).ctx_spec(),
    {
        let ctx = self.ctx.clone();
        let name = m.id();
        let (res_tx, res_rx) = result_channel();
        let task = ModuleTask { module: m, ctx, outcome: res_tx };
        let handle = spawn(task);
        self.modules.push(ModuleEntry { name, handle, outcome: res_rx });
    }

    /// Blocks until the first registered module terminates, classifies the
    /// outcome, and closes the cancellation channel.
    ///
    /// With no modules registered it returns success immediately, leaving
    /// the supervisor untouched. Otherwise it consumes the cancellation
    /// controller — a second call is a misuse and earns
    /// `WaitError::ControllerAlreadyTaken` — then multiplexes over every
    /// registered result channel, records the first termination as a
    /// `StopEvent`, and lets the controller go, which broadcasts shutdown
    /// to every still-running module.
    ///
    /// A module's own failure is never an error of `wait`: it is absorbed
    /// into the recorded classification. Only the supervisor's structural
    /// failures — a select operation that maps to no registration, or a
    /// result channel closed without a post — abort with an error.
    pub fn wait(&mut self) -> (r: Result<(), WaitError>)
        ensures
            final(self).module_count() == old(self).module_count(),
            final(self).module_names() == old(self).module_names(),
            final(self).ctx_spec() == old(self).ctx_spec(),
            old(self).module_count() == 0 ==> r is Ok && *final(self) == *old(self),
            old(self).module_count() > 0 ==> !final(self).controller_available(),
            old(self).module_count() > 0 && !old(self).controller_available()
                ==> r == Result::<(), WaitError>::Err(WaitError::ControllerAlreadyTaken)
                    && final(self).first_stop_spec() == old(self).first_stop_spec(),
            old(self).module_count() > 0 && old(self).controller_available() ==> match r {
                Ok(_) => final(self).first_stop_spec() is Some,
                Err(e) => (e is UnknownSelectIndex || e is ReceiveFailed)
                    && final(self).first_stop_spec() == old(self).first_stop_spec(),
            },
            r is Ok && old(self).module_count() > 0 ==> exists|i: int, res: ModuleResult|
                0 <= i < old(self).module_count() && final(self).first_stop_spec() == Some(
                    classify_spec(old(self).module_names()[i], res),
                ),
    {
        if self.modules.len() == 0 {
            return Ok(());
        }
        let ctrl = match self.done_ctrl.take() {
            None => { return Err(WaitError::ControllerAlreadyTaken); },
            Some(c) => c,
        };
        let (index, received) = select_first_result(&self.modules);
        let r = self.record_outcome(index, received);
        proof {
            if r is Ok {
                let res0 = received->Ok_0;
                assert((index as int) < old(self).module_count() && self.first_stop_spec()
                    == Some(classify_spec(old(self).module_names()[index as int], res0)));
            }
        }
        close_cancellation(ctrl);
        r
    }

    /// Absorbs one outcome of the multiplexed select: maps the ready
    /// operation's number back to its registration, and either records the
    /// classification of the posted result, or reports the structural
    /// failure — an unmappable number, or a result channel that closed
    /// without a post, which is treated like an unexpected stop but
    /// surfaced as an error naming the module.
    pub fn record_outcome(&mut self, index: usize, received: Result<ModuleResult, RecvError>) -> (r:
        Result<(), WaitError>)
        ensures
            final(self).module_count() == old(self).module_count(),
            final(self).module_names() == old(self).module_names(),
            final(self).controller_available() == old(self).controller_available(),
            final(self).ctx_spec() == old(self).ctx_spec(),
            index >= old(self).module_count()
                ==> r == Result::<(), WaitError>::Err(WaitError::UnknownSelectIndex { index })
                    && final(self).first_stop_spec() == old(self).first_stop_spec(),
            index < old(self).module_count() ==> match received {
                Ok(res) => r is Ok && final(self).first_stop_spec() == Some(
                    classify_spec(old(self).module_names()[index as int], res),
                ),
                Err(_) => r == Result::<(), WaitError>::Err(
                    WaitError::ReceiveFailed { module: old(self).module_names()[index as int] },
                ) && final(self).first_stop_spec() == old(self).first_stop_spec(),
            },
    {
        if index >= self.modules.len() {
            return Err(WaitError::UnknownSelectIndex { index });
        }
        let name = self.modules[index].name.clone();
        match received {
            Ok(res) => {
                let ev = classify(name, res);
                self.stopped = Some(ev);
                Ok(())
            },
            Err(_) => Err(WaitError::ReceiveFailed { module: name }),
        }
    }

    /// The first termination recorded by `wait`, if any.
    pub fn first_stop(&self) -> (r: &Option<StopEvent>)
        ensures
            *r == self.first_stop_spec(),
    {
        &self.stopped
    }
}

} // verus!
