use ipforward::engine::{IpAddr, Worker};
use ipforward::error::{Error, OsErrorKind};
use ipforward::handle::ForwardRuleHandler;
use ipforward::ports::port_pairs;
use ipforward::report::ErrorReporter;
use ipforward::rule_id::RuleIdPool;
use ipforward::worker::{WorkerAction, WorkerEvent, WorkerState};

#[test]
fn error_codes() {
    assert_eq!(Error::Unknown.code(), -1);
    assert_eq!(Error::HandlerAlreadyRegistered.code(), -16);
    assert_eq!(Error::PermissionDenied.code(), -51);
    assert_eq!(Error::AddrInUse.code(), -52);
    assert_eq!(Error::AlreadyExists.code(), -53);
    assert_eq!(Error::OutOfMemory.code(), -54);
    assert_eq!(Error::TooManyOpenFiles.code(), -55);
}

#[test]
fn os_errors_are_classified() {
    assert_eq!(Error::from_os_error(OsErrorKind::PermissionDenied, Some(13)), Error::PermissionDenied);
    assert_eq!(Error::from_os_error(OsErrorKind::AddrInUse, Some(98)), Error::AddrInUse);
    assert_eq!(Error::from_os_error(OsErrorKind::AlreadyExists, None), Error::AlreadyExists);
    assert_eq!(Error::from_os_error(OsErrorKind::OutOfMemory, None), Error::OutOfMemory);
    assert_eq!(Error::from_os_error(OsErrorKind::Other, Some(24)), Error::TooManyOpenFiles);
    assert_eq!(Error::from_os_error(OsErrorKind::Other, Some(23)), Error::Unknown);
    assert_eq!(Error::from_os_error(OsErrorKind::Other, None), Error::Unknown);
    assert_eq!(Error::from_os_error(OsErrorKind::AddrInUse, Some(24)), Error::AddrInUse);
}

#[test]
fn pool_hands_out_each_id_once() {
    let mut pool = RuleIdPool::new();
    let mut seen = vec![false; 128];
    for _ in 0..128 {
        let id = pool.get_new_rule_id().unwrap();
        assert!((0..=127).contains(&id));
        assert!(!seen[id as usize]);
        seen[id as usize] = true;
    }
    assert_eq!(pool.get_new_rule_id(), None);
    pool.release_rule_id(42);
    assert_eq!(pool.get_new_rule_id(), Some(42));
    assert_eq!(pool.get_new_rule_id(), None);
}

#[test]
fn port_pairs_of_a_range() {
    assert_eq!(port_pairs(100, 102, 200), Ok(vec![(100, 200), (101, 201), (102, 202)]));
    assert_eq!(port_pairs(5, 5, 65535), Ok(vec![(5, 65535)]));
    assert_eq!(port_pairs(3, 2, 0), Err(Error::InvalidRemotePortEnd));
    assert_eq!(port_pairs(0, 1, 65535), Err(Error::InvalidLocalPortStart));
    let all = port_pairs(0, 65535, 0).unwrap();
    assert_eq!(all.len(), 65536);
    assert_eq!(all[65535], (65535, 65535));
}

#[test]
fn handler_registers_once() {
    let mut slot: ErrorReporter<u32> = ErrorReporter::new();
    assert_eq!(slot.get(), None);
    assert_eq!(slot.register(1), Ok(()));
    assert_eq!(slot.register(2), Err(Error::HandlerAlreadyRegistered));
    assert_eq!(slot.get(), Some(&1));
}

#[test]
fn worker_binds_by_lan_flag() {
    let mut w = Worker { rule_id: 3, ip: IpAddr::V4([1, 1, 1, 1]), remote_port: 1, local_port: 2, allow_lan: true };
    assert_eq!(w.bind_ip(), [0, 0, 0, 0]);
    w.allow_lan = false;
    assert_eq!(w.bind_ip(), [127, 0, 0, 1]);
}

#[test]
fn worker_protocol() {
    let w = Worker { rule_id: 9, ip: IpAddr::V4([1, 1, 1, 1]), remote_port: 1, local_port: 2, allow_lan: false };
    assert_eq!(w.step(WorkerState::Binding, WorkerEvent::Bound), (WorkerState::Accepting, WorkerAction::Accept));
    assert_eq!(
        w.step(WorkerState::Binding, WorkerEvent::BindFailed(Error::AddrInUse)),
        (WorkerState::Stopped, WorkerAction::Report(9, -52))
    );
    assert_eq!(w.step(WorkerState::Accepting, WorkerEvent::Accepted), (WorkerState::Connecting, WorkerAction::Connect));
    assert_eq!(w.step(WorkerState::Accepting, WorkerEvent::AcceptFailed), (WorkerState::Accepting, WorkerAction::Accept));
    assert_eq!(
        w.step(WorkerState::Connecting, WorkerEvent::Connected),
        (WorkerState::Accepting, WorkerAction::RelayAndAccept)
    );
    assert_eq!(
        w.step(WorkerState::Connecting, WorkerEvent::ConnectFailed),
        (WorkerState::Accepting, WorkerAction::DropAndAccept)
    );
}

#[test]
fn abort_cancels_every_task() {
    let rt = tokio::runtime::Runtime::new().unwrap();
    let handles: Vec<tokio::task::JoinHandle<()>> =
        (0..3).map(|_| rt.spawn(std::future::pending::<()>())).collect();
    let watch: Vec<tokio::task::AbortHandle> = handles.iter().map(|h| h.abort_handle()).collect();
    ForwardRuleHandler::multiple(handles).abort();
    let single = rt.spawn(std::future::pending::<()>());
    let single_watch = single.abort_handle();
    ForwardRuleHandler::single(single).abort();
    for _ in 0..100000 {
        if watch.iter().all(|h| h.is_finished()) && single_watch.is_finished() {
            break;
        }
        rt.block_on(tokio::task::yield_now());
    }
    assert!(watch.iter().all(|h| h.is_finished()));
    assert!(single_watch.is_finished());
}
