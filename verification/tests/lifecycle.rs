use ssh_runtime::cli::{Cli, DEFAULT_PORT};
use ssh_runtime::errors::SSHError;
use ssh_runtime::ssh_runtime::SSHRuntimeManager;
use ssh_runtime::ssh_session::{
    ChannelEvent, ChannelOutcome, ConnectOutcome, DisconnectReason, INACTIVITY_TIMEOUT_SECS,
    KEEPALIVE_INTERVAL_SECS,
};

fn test_cli() -> Cli {
    Cli {
        host: "worker-1".to_string(),
        port: DEFAULT_PORT,
        username: "operator".to_string(),
        private_key: "/home/operator/.ssh/id_ed25519".to_string(),
    }
}

fn connected_manager() -> SSHRuntimeManager {
    let config = test_cli().into_config();
    SSHRuntimeManager::new(config, &ConnectOutcome::AuthResult(true)).unwrap()
}

fn data(text: &str) -> ChannelEvent {
    ChannelEvent::Data(text.as_bytes().to_vec())
}

#[test]
fn cli_maps_onto_the_config() {
    let config = test_cli().into_config();
    assert_eq!(config.hostname.as_str(), "worker-1");
    assert_eq!(config.port, 22);
    assert_eq!(config.username.as_str(), "operator");
    assert_eq!(config.private_key_path.as_str(), "/home/operator/.ssh/id_ed25519");
}

#[test]
fn transport_settings_are_fixed() {
    assert_eq!(INACTIVITY_TIMEOUT_SECS, 120);
    assert_eq!(KEEPALIVE_INTERVAL_SECS, 30);
}

#[test]
fn happy_path_run() {
    let mut manager = connected_manager();
    assert!(manager.is_connected());

    let request = manager.start_request("./launch.sh").unwrap();
    assert_eq!(request.as_str(), "setsid ./launch.sh");

    let launch = ChannelOutcome::Streamed(vec![data("Server is on host worker-1 on pid 4242\n")]);
    let pid = manager.start_new_process("./launch.sh", &launch).unwrap();
    assert_eq!(pid.as_str(), "4242");

    let kill_request = manager.kill_request(pid.as_str()).unwrap();
    assert_eq!(kill_request.as_str(), "kill 4242");

    let kill = ChannelOutcome::Streamed(vec![ChannelEvent::ExitStatus(0)]);
    assert_eq!(manager.kill_process(pid.as_str(), &kill), Ok(()));

    let disconnect = manager.shutdown().unwrap();
    assert_eq!(disconnect.reason, DisconnectReason::ByApplication);
    assert_eq!(disconnect.description.as_str(), "");
    assert_eq!(disconnect.language_tag.as_str(), "English");
    assert!(!manager.is_connected());
}

#[test]
fn auth_failure_surfaces() {
    let config = test_cli().into_config();
    let result = SSHRuntimeManager::new(config, &ConnectOutcome::AuthResult(false));
    assert!(matches!(result, Err(SSHError::AuthFailed)));
}

#[test]
fn key_load_failure_surfaces() {
    let config = test_cli().into_config();
    let result = SSHRuntimeManager::new(config, &ConnectOutcome::KeyLoadError);
    assert!(matches!(result, Err(SSHError::KeyLoadFailed)));
}

#[test]
fn transport_failure_surfaces() {
    let config = test_cli().into_config();
    let result = SSHRuntimeManager::new(config, &ConnectOutcome::TransportError);
    assert!(matches!(result, Err(SSHError::TransportFailed)));
}

#[test]
fn start_reports_no_announcement() {
    let manager = connected_manager();
    let launch = ChannelOutcome::Streamed(vec![data("hello\n"), ChannelEvent::ExitStatus(0)]);
    let result = manager.start_new_process("./launch.sh", &launch);
    assert_eq!(result, Err(SSHError::PIDNotAnnounced));
}

#[test]
fn start_reports_channel_errors() {
    let manager = connected_manager();
    assert_eq!(
        manager.start_new_process("./launch.sh", &ChannelOutcome::OpenError),
        Err(SSHError::ChannelOpenFailed)
    );
    assert_eq!(
        manager.start_new_process("./launch.sh", &ChannelOutcome::ExecError),
        Err(SSHError::ExecFailed)
    );
}

#[test]
fn kill_of_unknown_pid_still_returns_ok() {
    let manager = connected_manager();
    let kill = ChannelOutcome::Streamed(vec![ChannelEvent::ExitStatus(1)]);
    assert_eq!(manager.kill_process("99999", &kill), Ok(()));
}

#[test]
fn kill_is_best_effort_on_any_channel_outcome() {
    let manager = connected_manager();
    assert_eq!(manager.kill_process("4242", &ChannelOutcome::OpenError), Ok(()));
    assert_eq!(manager.kill_process("4242", &ChannelOutcome::ExecError), Ok(()));
    let no_exit = ChannelOutcome::Streamed(vec![data("gone\n")]);
    assert_eq!(manager.kill_process("4242", &no_exit), Ok(()));
}

#[test]
fn nothing_succeeds_after_shutdown() {
    let mut manager = connected_manager();
    manager.shutdown().unwrap();
    assert!(!manager.is_connected());

    let launch = ChannelOutcome::Streamed(vec![data("Server is on host w on pid 1\n")]);
    assert_eq!(
        manager.start_new_process("./launch.sh", &launch),
        Err(SSHError::ChannelOpenFailed)
    );
    assert_eq!(manager.start_request("./launch.sh"), Err(SSHError::ChannelOpenFailed));

    let kill = ChannelOutcome::Streamed(vec![ChannelEvent::ExitStatus(0)]);
    assert_eq!(manager.kill_process("1", &kill), Err(SSHError::ChannelOpenFailed));
    assert_eq!(manager.kill_request("1"), Err(SSHError::ChannelOpenFailed));

    assert!(matches!(manager.shutdown(), Err(SSHError::DisconnectFailed)));
}

#[test]
fn error_messages_name_each_failure() {
    let errors = [
        SSHError::KeyLoadFailed,
        SSHError::TransportFailed,
        SSHError::AuthFailed,
        SSHError::ChannelOpenFailed,
        SSHError::ExecFailed,
        SSHError::IOFailed,
        SSHError::NoExit,
        SSHError::PIDNotAnnounced,
        SSHError::DisconnectFailed,
    ];
    for e in errors {
        assert!(!e.message().is_empty());
    }
}
