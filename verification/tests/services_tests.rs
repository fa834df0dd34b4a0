// The spec functions of `ServiceFactory` and `ServiceLauncher` serve proofs only:
// compiled code never calls them.
use fuchsia_support::services::{
    dispatch_request, service_path, DispatchAction, HNil, MissingStartupHandle, RequestOp,
    ServiceFactories, ServiceFactory, ServiceLauncher, ServicesServer, ZX_ERR_NOT_SUPPORTED,
    server_step, ChannelEvent, ServerStep,
};
use std::cell::RefCell;
use std::rc::Rc;

struct EchoFactory {
    made: usize,
}

struct EchoStub(usize);

impl ServiceFactory for EchoFactory {
    type Stub = EchoStub;
    fn created(&self) -> vstd::prelude::nat {
        unreachable!()
    }
    fn name(&self) -> vstd::prelude::Seq<char> {
        unreachable!()
    }
    fn service_name(&self) -> &str {
        "fuchsia.echo.Echo"
    }
    fn create(&mut self) -> EchoStub {
        self.made += 1;
        EchoStub(self.made)
    }
}

struct ClockFactory;

impl ServiceFactory for ClockFactory {
    type Stub = ();
    fn created(&self) -> vstd::prelude::nat {
        unreachable!()
    }
    fn name(&self) -> vstd::prelude::Seq<char> {
        unreachable!()
    }
    fn service_name(&self) -> &str {
        "fuchsia.time.Clock"
    }
    fn create(&mut self) {}
}

#[derive(Default)]
struct RecordingLauncher {
    launched: Vec<(usize, u32)>,
}

impl ServiceLauncher<u32> for RecordingLauncher {
    fn launched(&self) -> vstd::prelude::nat {
        unreachable!()
    }
    fn launch<S>(&mut self, _stub: S, channel: u32) {
        self.launched.push((std::mem::size_of::<S>(), channel));
    }
}

#[test]
fn service_path_prefixes_svc() {
    assert_eq!(service_path("fuchsia.echo.Echo"), "/svc/fuchsia.echo.Echo");
    assert_eq!(service_path(""), "/svc/");
}

#[test]
fn spawn_routes_by_name() {
    let mut factories = ServicesServer::new_with_factories(HNil)
        .add_service(EchoFactory { made: 0 })
        .add_service(ClockFactory)
        .into_factories();
    let mut launcher = RecordingLauncher::default();
    assert_eq!(factories.spawn_service("fuchsia.time.Clock".to_string(), 1, &mut launcher), Some(0));
    assert_eq!(factories.spawn_service("fuchsia.echo.Echo".to_string(), 2, &mut launcher), Some(1));
    assert_eq!(factories.spawn_service("fuchsia.missing".to_string(), 3, &mut launcher), None);
    assert_eq!(launcher.launched.len(), 2);
    assert_eq!(launcher.launched[0].1, 1);
    assert_eq!(launcher.launched[0].0, 0);
    assert_eq!(launcher.launched[1].1, 2);
    assert_eq!(launcher.launched[1].0, std::mem::size_of::<usize>());
}

struct Named(&'static str, usize, Rc<RefCell<Vec<usize>>>);

impl ServiceFactory for Named {
    type Stub = ();
    fn created(&self) -> vstd::prelude::nat {
        unreachable!()
    }
    fn name(&self) -> vstd::prelude::Seq<char> {
        unreachable!()
    }
    fn service_name(&self) -> &str {
        self.0
    }
    fn create(&mut self) {
        self.2.borrow_mut().push(self.1);
    }
}

#[test]
fn last_added_service_shadows_earlier_one() {
    let made = Rc::new(RefCell::new(Vec::new()));
    let mut list = ServicesServer::new_with_factories(HNil)
        .add_service(Named("a", 1, made.clone()))
        .add_service(Named("b", 2, made.clone()))
        .add_service(Named("a", 3, made.clone()))
        .into_factories();
    let mut launcher = RecordingLauncher::default();
    assert_eq!(list.spawn_service("a".to_string(), 5, &mut launcher), Some(0));
    assert_eq!(list.spawn_service("b".to_string(), 6, &mut launcher), Some(1));
    assert_eq!(*made.borrow(), vec![3, 2]);
}

#[test]
fn empty_server_spawns_nothing() {
    let mut server = ServicesServer::new();
    let mut launcher = RecordingLauncher::default();
    assert_eq!(server.spawn_service("fuchsia.echo.Echo".to_string(), 9, &mut launcher), None);
    assert!(launcher.launched.is_empty());
    assert_eq!(MissingStartupHandle, MissingStartupHandle);
}

#[test]
fn dispatch_open_connects_service() {
    match dispatch_request(RequestOp::Open, None, false, true, b"fuchsia.echo.Echo") {
        DispatchAction::OpenService { path } => assert_eq!(path, "fuchsia.echo.Echo"),
        other => panic!("unexpected {:?}", other),
    }
}

#[test]
fn dispatch_clone_serves_channel() {
    assert!(matches!(
        dispatch_request(RequestOp::Clone, None, false, true, b""),
        DispatchAction::ServeClone
    ));
}

#[test]
fn dispatch_refusals() {
    // Invalid request, no describe: ignored.
    assert!(matches!(
        dispatch_request(RequestOp::Open, Some(-10), false, true, b"x"),
        DispatchAction::Ignore
    ));
    // Unsupported op.
    assert!(matches!(
        dispatch_request(RequestOp::Other, None, false, false, b"x"),
        DispatchAction::Ignore
    ));
    // Missing reply channel.
    assert!(matches!(
        dispatch_request(RequestOp::Open, None, false, false, b"x"),
        DispatchAction::Ignore
    ));
    // Describe asked: error reply with the validation status, on the reply channel.
    match dispatch_request(RequestOp::Open, Some(-10), true, true, b"x") {
        DispatchAction::ReplyError { status, on_reply_channel } => {
            assert_eq!(status, -10);
            assert!(on_reply_channel);
        }
        other => panic!("unexpected {:?}", other),
    }
    // Describe on a valid open: the service is opened all the same.
    match dispatch_request(RequestOp::Open, None, true, true, b"x") {
        DispatchAction::OpenService { path } => assert_eq!(path, "x"),
        other => panic!("unexpected {:?}", other),
    }
    // Describe on a valid clone: refused, not supported, on the reply channel.
    match dispatch_request(RequestOp::Clone, None, true, true, b"") {
        DispatchAction::ReplyError { status, on_reply_channel } => {
            assert_eq!(status, ZX_ERR_NOT_SUPPORTED);
            assert!(on_reply_channel);
        }
        other => panic!("unexpected {:?}", other),
    }
    // Describe on another op: not supported, on the request channel.
    match dispatch_request(RequestOp::Other, None, true, true, b"x") {
        DispatchAction::ReplyError { status, on_reply_channel } => {
            assert_eq!(status, ZX_ERR_NOT_SUPPORTED);
            assert!(!on_reply_channel);
        }
        other => panic!("unexpected {:?}", other),
    }
}

#[test]
fn dispatch_open_decodes_utf8_path() {
    match dispatch_request(RequestOp::Open, None, false, true, "svc/é".as_bytes()) {
        DispatchAction::OpenService { path } => assert_eq!(path, "svc/é"),
        other => panic!("unexpected {:?}", other),
    }
}

#[test]
fn server_steps() {
    assert_eq!(server_step(ChannelEvent::Message), ServerStep::DispatchAndRearm);
    assert_eq!(server_step(ChannelEvent::ReadError), ServerStep::LookAgain);
    assert_eq!(server_step(ChannelEvent::Idle), ServerStep::Pending);
}
