use std::sync::Arc;

use watchdog::Config;
use watchdog::Ctx;
use watchdog::GlobalModules;
use watchdog::Module;
use watchdog::ModuleError;
use watchdog::PipelineProcessor;
use watchdog::RemoteStore;
use watchdog::ResourcePool;
use watchdog::RpcClient;
use watchdog::StopClass;
use watchdog::WaitError;
use watchdog::WatchDog;
use watchdog::classify;

fn globals() -> GlobalModules {
    GlobalModules {
        rpc: Arc::new(RpcClient {}),
        remote_store: Arc::new(RemoteStore {}),
        pc2: Arc::new(PipelineProcessor {}),
        c2: Arc::new(PipelineProcessor {}),
        limit: Arc::new(ResourcePool {}),
    }
}

/// A module that terminates at once with a prepared result.
struct Immediate {
    name: &'static str,
    res: Option<Result<(), ModuleError>>,
}

impl Module for Immediate {
    fn id(&self) -> String {
        self.name.to_string()
    }

    fn run(&mut self, _ctx: Ctx) -> Result<(), ModuleError> {
        self.res.take().unwrap()
    }
}

/// A module that blocks on the cancellation signal and terminates
/// gracefully once the channel is closed.
struct BlockUntilCancelled {
    name: &'static str,
}

impl Module for BlockUntilCancelled {
    fn id(&self) -> String {
        self.name.to_string()
    }

    fn run(&mut self, ctx: Ctx) -> Result<(), ModuleError> {
        let _ = ctx.done.recv();
        Ok(())
    }
}

#[test]
fn wait_with_no_modules_returns_ok() {
    let mut dog: WatchDog<()> = WatchDog::build(Config {}, globals());
    assert!(dog.wait().is_ok());
    assert!(dog.first_stop().is_none());
}

#[test]
fn graceful_stop_is_recorded() {
    let mut dog: WatchDog<()> = WatchDog::build(Config {}, globals());
    dog.start_module(Immediate { name: "alpha", res: Some(Ok(())) }, |t| t.run_to_completion());
    assert!(dog.wait().is_ok());
    match dog.first_stop() {
        Some(ev) => {
            assert_eq!(ev.module, "alpha");
            assert!(matches!(ev.class, StopClass::Graceful));
        }
        None => panic!("no stop recorded"),
    }
}

#[test]
fn unexpected_stop_keeps_the_detail() {
    let mut dog: WatchDog<()> = WatchDog::build(Config {}, globals());
    let failing = Immediate {
        name: "beta",
        res: Some(Err(ModuleError { detail: "disk full".to_string() })),
    };
    dog.start_module(failing, |t| t.run_to_completion());
    assert!(dog.wait().is_ok());
    match dog.first_stop() {
        Some(ev) => {
            assert_eq!(ev.module, "beta");
            match &ev.class {
                StopClass::Unexpected { detail } => assert_eq!(detail, "disk full"),
                StopClass::Graceful => panic!("expected an unexpected stop"),
            }
        }
        None => panic!("no stop recorded"),
    }
}

#[test]
fn second_wait_reports_misuse() {
    let mut dog: WatchDog<()> = WatchDog::build(Config {}, globals());
    dog.start_module(Immediate { name: "alpha", res: Some(Ok(())) }, |t| t.run_to_completion());
    assert!(dog.wait().is_ok());
    assert!(matches!(dog.wait(), Err(WaitError::ControllerAlreadyTaken)));
}

#[test]
fn abandoned_task_is_a_receive_failure() {
    let mut dog: WatchDog<()> = WatchDog::build(Config {}, globals());
    dog.start_module(Immediate { name: "gamma", res: Some(Ok(())) }, |t| {
        let _ = t;
    });
    match dog.wait() {
        Err(WaitError::ReceiveFailed { module }) => assert_eq!(module, "gamma"),
        other => panic!("expected a receive failure, got {:?}", other.is_ok()),
    }
    assert!(dog.first_stop().is_none());
}

#[test]
fn cancellation_unblocks_blocked_modules() {
    crossbeam_utils::thread::scope(|s| {
        let mut dog = WatchDog::build(Config {}, globals());
        dog.start_module(BlockUntilCancelled { name: "one" }, |t| {
            s.spawn(move |_| t.run_to_completion())
        });
        let failing = Immediate {
            name: "two",
            res: Some(Err(ModuleError { detail: "disk full".to_string() })),
        };
        dog.start_module(failing, |t| s.spawn(move |_| t.run_to_completion()));
        dog.start_module(BlockUntilCancelled { name: "three" }, |t| {
            s.spawn(move |_| t.run_to_completion())
        });
        assert!(dog.wait().is_ok());
        match dog.first_stop() {
            Some(ev) => {
                assert_eq!(ev.module, "two");
                match &ev.class {
                    StopClass::Unexpected { detail } => assert_eq!(detail, "disk full"),
                    StopClass::Graceful => panic!("expected an unexpected stop"),
                }
            }
            None => panic!("no stop recorded"),
        }
        // Leaving the scope joins "one" and "three": the test can only
        // finish because closing the cancellation channel unblocked them.
    })
    .unwrap();
}

#[test]
fn first_of_several_finished_is_recorded() {
    let mut dog: WatchDog<()> = WatchDog::build(Config {}, globals());
    dog.start_module(Immediate { name: "a", res: Some(Ok(())) }, |t| t.run_to_completion());
    dog.start_module(Immediate { name: "b", res: Some(Ok(())) }, |t| t.run_to_completion());
    dog.start_module(Immediate { name: "c", res: Some(Ok(())) }, |t| t.run_to_completion());
    assert!(dog.wait().is_ok());
    match dog.first_stop() {
        Some(ev) => {
            assert!(ev.module == "a" || ev.module == "b" || ev.module == "c");
            assert!(matches!(ev.class, StopClass::Graceful));
        }
        None => panic!("no stop recorded"),
    }
}

#[test]
fn record_outcome_rejects_an_unknown_index() {
    let mut dog: WatchDog<()> = WatchDog::build(Config {}, globals());
    dog.start_module(Immediate { name: "m0", res: Some(Ok(())) }, |t| t.run_to_completion());
    match dog.record_outcome(5, Ok(Ok(()))) {
        Err(WaitError::UnknownSelectIndex { index }) => assert_eq!(index, 5),
        _ => panic!("expected an unknown-index error"),
    }
    assert!(dog.first_stop().is_none());
}

#[test]
fn record_outcome_receive_error_names_the_module() {
    let mut dog: WatchDog<()> = WatchDog::build(Config {}, globals());
    dog.start_module(Immediate { name: "m0", res: Some(Ok(())) }, |t| t.run_to_completion());
    match dog.record_outcome(0, Err(crossbeam_channel::RecvError)) {
        Err(WaitError::ReceiveFailed { module }) => assert_eq!(module, "m0"),
        _ => panic!("expected a receive failure"),
    }
}

#[test]
fn record_outcome_classifies_a_posted_result() {
    let mut dog: WatchDog<()> = WatchDog::build(Config {}, globals());
    dog.start_module(Immediate { name: "m0", res: Some(Ok(())) }, |t| t.run_to_completion());
    assert!(dog.record_outcome(0, Ok(Err(ModuleError { detail: "boom".to_string() }))).is_ok());
    match dog.first_stop() {
        Some(ev) => {
            assert_eq!(ev.module, "m0");
            match &ev.class {
                StopClass::Unexpected { detail } => assert_eq!(detail, "boom"),
                StopClass::Graceful => panic!("expected an unexpected stop"),
            }
        }
        None => panic!("no stop recorded"),
    }
}

#[test]
fn classify_matches_the_posted_result() {
    let ev = classify("m".to_string(), Ok(()));
    assert_eq!(ev.module, "m");
    assert!(matches!(ev.class, StopClass::Graceful));

    let ev = classify("n".to_string(), Err(ModuleError { detail: "boom".to_string() }));
    assert_eq!(ev.module, "n");
    match &ev.class {
        StopClass::Unexpected { detail } => assert_eq!(detail, "boom"),
        StopClass::Graceful => panic!("expected an unexpected stop"),
    }
}
