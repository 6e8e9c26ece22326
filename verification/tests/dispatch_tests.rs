use rust_web::dispatch::{DispatchAction, DispatchMessage, Dispatcher, ShutdownCoordinator};

#[test]
fn dispatcher_spawns_each_connection() {
    let mut d = Dispatcher::new();
    assert!(matches!(
        d.step(DispatchMessage::Connected(7u32)),
        DispatchAction::Spawn(7u32)
    ));
    assert!(matches!(
        d.step(DispatchMessage::Connected(8u32)),
        DispatchAction::Spawn(8u32)
    ));
}

#[test]
fn dispatcher_stops_on_quit() {
    let mut d = Dispatcher::new();
    assert!(matches!(
        d.step(DispatchMessage::Connected("conn")),
        DispatchAction::Spawn("conn")
    ));
    assert!(matches!(
        d.step::<&str>(DispatchMessage::Quit),
        DispatchAction::Stop
    ));
}

#[test]
fn shutdown_request_is_idempotent() {
    let mut c = ShutdownCoordinator::new();
    assert!(c.request());
    assert!(!c.request());
    assert!(!c.request());
}
