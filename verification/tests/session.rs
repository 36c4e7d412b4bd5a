use zeterm::app::session::connection_manager::ConnectionManager;
use zeterm::app::session::reconnect_controller::{
    ReconnectController, ReconnectControllerConfig, ReconnectControllerEvent, ReconnectPolicy,
    ReconnectState,
};
use zeterm::app::session::session_coordinator::{PumpAction, PumpItem, SessionCoordinator};
use zeterm::app::terminal::TerminalConfig;
use zeterm::entities::{ConnectionError, ConnectionState, DisconnectReason};

fn enabled_controller() -> ReconnectController {
    ReconnectController::new(ReconnectControllerConfig {
        policy: ReconnectPolicy {
            enabled: true,
            initial_delay_ms: 1000,
            reset_on_success: true,
        },
        reconnect_on_initial_failure: false,
    })
}

#[test]
fn test_connection_manager_new() {
    let manager = ConnectionManager::new();
    assert!(!manager.is_connected());
    assert!(!manager.is_cancelled());
    assert!(matches!(manager.state(), ConnectionState::Idle));
}

#[test]
fn test_connection_manager_default() {
    let manager = ConnectionManager::default();
    assert!(!manager.is_connected());
}

#[test]
fn test_connection_manager_cancel() {
    let mut manager = ConnectionManager::new();
    assert!(!manager.is_cancelled());
    manager.cancel();
    assert!(manager.is_cancelled());
    manager.reset_cancelled();
    assert!(!manager.is_cancelled());
}

#[test]
fn test_connection_manager_state_idle() {
    let manager = ConnectionManager::new();
    let state = manager.state();
    assert!(matches!(state, ConnectionState::Idle));
    assert!(!state.is_active());
}

#[test]
fn test_connection_manager_mark_disconnected() {
    let mut manager = ConnectionManager::new();
    manager.mark_disconnected(DisconnectReason::ServerClosed);
    assert!(matches!(manager.state(), ConnectionState::Idle));
}

#[test]
fn test_connection_manager_write_disconnected() {
    let manager = ConnectionManager::new();
    assert!(matches!(manager.check_attached(), Err(ConnectionError::Disconnected)));
}

#[test]
fn test_connection_manager_resize_disconnected() {
    let manager = ConnectionManager::new();
    assert!(matches!(manager.check_attached(), Err(ConnectionError::Disconnected)));
}

#[test]
fn connection_manager_connect_and_close() {
    let mut manager = ConnectionManager::new();
    manager.cancel();
    manager.set_connection(42);
    assert!(!manager.is_cancelled());
    assert!(manager.is_connected());
    assert_eq!(manager.state(), ConnectionState::Connected { connected_at_ms: 42 });
    assert!(manager.check_attached().is_ok());
    manager.mark_disconnected(DisconnectReason::NetworkError);
    assert_eq!(
        manager.state(),
        ConnectionState::Disconnected { reason: DisconnectReason::NetworkError }
    );
    manager.close();
    assert!(manager.is_cancelled());
    assert!(manager.check_attached().is_err());
    assert_eq!(
        manager.state(),
        ConnectionState::Disconnected { reason: DisconnectReason::UserInitiated }
    );
}

#[test]
fn test_reconnect_controller_new() {
    let controller = enabled_controller();
    assert!(!controller.is_reconnecting());
    assert!(controller.is_enabled());
    assert_eq!(controller.state(), ReconnectState::Idle);
}

#[test]
fn test_reconnect_controller_disabled() {
    let config = ReconnectControllerConfig {
        policy: ReconnectPolicy::disabled(),
        reconnect_on_initial_failure: false,
    };
    let controller = ReconnectController::new(config);
    assert!(!controller.is_enabled());
}

#[test]
fn test_reconnect_controller_cancel() {
    let mut controller = enabled_controller();
    controller.on_connection_state_changed(
        ConnectionState::Connected { connected_at_ms: 0 },
        ConnectionState::Disconnected { reason: DisconnectReason::NetworkError },
        0,
    );
    assert!(controller.is_reconnecting());
    controller.cancel();
    assert!(!controller.is_reconnecting());
}

#[test]
fn test_reconnect_controller_reset() {
    let mut controller = enabled_controller();
    controller.on_connection_state_changed(
        ConnectionState::Connected { connected_at_ms: 0 },
        ConnectionState::Disconnected { reason: DisconnectReason::ServerClosed },
        0,
    );
    controller.cancel();
    assert!(!controller.next_delay_allowed());
    controller.reset();
    assert!(!controller.is_reconnecting());
    assert!(controller.next_delay_allowed());
}

#[test]
fn test_reconnect_controller_cancelled_no_delay() {
    let mut controller = enabled_controller();
    controller.on_connection_state_changed(
        ConnectionState::Connected { connected_at_ms: 0 },
        ConnectionState::Disconnected { reason: DisconnectReason::ServerClosed },
        0,
    );
    controller.cancel();
    assert!(!controller.next_delay_allowed());
    assert!(!controller.begin_attempt(1));
}

#[test]
fn user_disconnect_does_not_reconnect() {
    let mut controller = enabled_controller();
    controller.on_connection_state_changed(
        ConnectionState::Connected { connected_at_ms: 0 },
        ConnectionState::Disconnected { reason: DisconnectReason::UserInitiated },
        0,
    );
    assert!(!controller.is_reconnecting());
    assert_eq!(controller.state(), ReconnectState::Idle);
    assert!(controller.take_events().is_empty());
}

#[test]
fn reconnect_attempts_until_giving_up() {
    let mut controller = enabled_controller();
    controller.on_connection_state_changed(
        ConnectionState::Connected { connected_at_ms: 0 },
        ConnectionState::Disconnected { reason: DisconnectReason::NetworkError },
        0,
    );
    assert_eq!(controller.state(), ReconnectState::Waiting { attempt: 1, remaining_ms: 1000 });
    assert!(controller.begin_attempt(1));
    assert_eq!(controller.state(), ReconnectState::Connecting { attempt: 1 });
    assert!(controller.on_attempt_failed("refused", 1, true));
    controller.on_retry_delay(1, Some(2000));
    assert_eq!(controller.state(), ReconnectState::Waiting { attempt: 2, remaining_ms: 2000 });
    assert!(controller.begin_attempt(2));
    assert!(!controller.on_attempt_failed("refused", 2, false));
    assert_eq!(controller.state(), ReconnectState::Failed { total_attempts: 2 });
    assert!(!controller.is_reconnecting());
    let events = controller.take_events();
    assert!(matches!(events[1], ReconnectControllerEvent::Started));
    assert!(events
        .iter()
        .any(|e| matches!(e, ReconnectControllerEvent::GaveUp { total_attempts: 2 })));
}

#[test]
fn reconnect_success_resets_backoff_as_the_policy_says() {
    let mut controller = enabled_controller();
    controller.on_connection_state_changed(
        ConnectionState::Connected { connected_at_ms: 0 },
        ConnectionState::Disconnected { reason: DisconnectReason::NetworkError },
        0,
    );
    controller.begin_attempt(1);
    let reset = controller.on_connection_state_changed(
        ConnectionState::Reconnecting { attempt: 1 },
        ConnectionState::Connected { connected_at_ms: 5 },
        1,
    );
    assert!(reset);
    assert_eq!(controller.state(), ReconnectState::Connected);
    assert!(!controller.is_reconnecting());
}

#[test]
fn test_session_coordinator_new() {
    let coordinator = SessionCoordinator::with_defaults();
    assert!(!coordinator.is_connected());
    assert!(!coordinator.is_data_pump_running());
    assert!(matches!(coordinator.connection_state(), ConnectionState::Idle));
}

#[test]
fn test_session_coordinator_terminal_size() {
    let config = TerminalConfig::new(120, 40);
    let coordinator = SessionCoordinator::new(config);
    let size = coordinator.terminal_size();
    assert_eq!(size.cols, 120);
    assert_eq!(size.rows, 40);
}

#[test]
fn test_session_coordinator_stop_data_pump() {
    let mut coordinator = SessionCoordinator::with_defaults();
    coordinator.stop_data_pump();
    assert!(!coordinator.is_data_pump_running());
}

#[test]
fn test_session_coordinator_take_event_receiver() {
    let mut coordinator = SessionCoordinator::with_defaults();
    assert!(coordinator.take_event_receiver());
    assert!(!coordinator.take_event_receiver());
}

#[test]
fn test_session_coordinator_send_input_disconnected() {
    let coordinator = SessionCoordinator::with_defaults();
    assert!(coordinator.send_input().is_err());
}

#[test]
fn test_session_coordinator_resize_disconnected() {
    let mut coordinator = SessionCoordinator::with_defaults();
    let remote = coordinator.resize(30, 100);
    assert!(!remote);
    let size = coordinator.terminal_size();
    assert_eq!(size.rows, 30);
    assert_eq!(size.cols, 100);
}

#[test]
fn data_pump_decisions() {
    let mut c = SessionCoordinator::with_defaults();
    c.set_connection(10);
    assert!(c.send_input().is_ok());
    assert!(c.start_data_pump());
    assert!(!c.start_data_pump());
    assert_eq!(c.on_pump_item(PumpItem::Data(0)), PumpAction::Continue);
    assert_eq!(c.on_pump_item(PumpItem::Data(5)), PumpAction::Advance);
    assert!(c.is_dirty());
    assert_eq!(c.on_pump_item(PumpItem::Idle), PumpAction::Continue);
    assert_eq!(c.on_pump_item(PumpItem::Error { retryable: true }), PumpAction::Continue);
    assert_eq!(c.on_pump_item(PumpItem::End), PumpAction::Stop);
    assert_eq!(
        c.connection_state(),
        ConnectionState::Disconnected { reason: DisconnectReason::ServerClosed }
    );
    c.finish_data_pump();
    assert!(!c.is_data_pump_running());
}

#[test]
fn data_pump_stops_on_fatal_error_or_cancel() {
    let mut c = SessionCoordinator::with_defaults();
    c.set_connection(0);
    c.start_data_pump();
    assert_eq!(c.on_pump_item(PumpItem::Error { retryable: false }), PumpAction::Stop);
    assert_eq!(
        c.connection_state(),
        ConnectionState::Disconnected { reason: DisconnectReason::NetworkError }
    );
    let mut d = SessionCoordinator::with_defaults();
    d.start_data_pump();
    d.stop_data_pump();
    assert_eq!(d.on_pump_item(PumpItem::Data(3)), PumpAction::Stop);
}

#[test]
fn redraws_are_spaced() {
    let mut c = SessionCoordinator::with_defaults();
    assert!(!c.check_and_clear_dirty(100));
    c.mark_dirty();
    assert!(c.check_and_clear_dirty(100));
    assert!(!c.is_dirty());
    c.mark_dirty();
    assert!(!c.check_and_clear_dirty(110));
    assert!(c.is_dirty());
    assert!(c.check_and_clear_dirty(116));
}

#[test]
fn closing_the_session() {
    let mut c = SessionCoordinator::with_defaults();
    c.set_connection(1);
    c.close();
    assert!(!c.is_connected());
    assert!(c.connection_manager().is_cancelled());
    assert!(c.send_input().is_err());
}

#[test]
fn lost_connection_reports_waiting_then_started() {
    let mut controller = enabled_controller();
    controller.on_connection_state_changed(
        ConnectionState::Connected { connected_at_ms: 0 },
        ConnectionState::Disconnected { reason: DisconnectReason::NetworkError },
        0,
    );
    let events = controller.take_events();
    assert_eq!(events.len(), 2);
    assert!(matches!(
        events[0],
        ReconnectControllerEvent::StateChanged(ReconnectState::Waiting { attempt: 1, remaining_ms: 1000 })
    ));
    assert!(matches!(events[1], ReconnectControllerEvent::Started));
}
