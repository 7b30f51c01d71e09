use quic_tunnel_server::addr::SockAddr;
use quic_tunnel_server::config::ServerConfig;
use quic_tunnel_server::login::{
    check_password, complete_in_login, is_allowed_downstream, login_step, ListenerSetup, LoginError,
    LoginInfo, LoginStep, TunnelMessage,
};
use quic_tunnel_server::ports::PortRegistry;
use quic_tunnel_server::session::{in_session_step, ForwarderEvent, SessionStep};

fn v4(a: u8, b: u8, c: u8, d: u8, port: u16) -> SockAddr {
    SockAddr::V4 { ip: u32::from_be_bytes([a, b, c, d]), port }
}

fn config(password: &str, downstreams: Vec<SockAddr>) -> ServerConfig {
    ServerConfig {
        addr: "0.0.0.0:4433".to_string(),
        cert_path: String::new(),
        key_path: String::new(),
        password: password.to_string(),
        downstreams,
        max_idle_timeout_ms: 0,
    }
}

fn out_login(password: &str, addr: &str) -> TunnelMessage {
    TunnelMessage::ReqOutLogin(LoginInfo {
        password: password.to_string(),
        access_server_addr: addr.to_string(),
    })
}

fn in_login(password: &str, addr: &str) -> TunnelMessage {
    TunnelMessage::ReqInLogin(LoginInfo {
        password: password.to_string(),
        access_server_addr: addr.to_string(),
    })
}

#[test]
fn out_login_succeeds_without_allow_list() {
    let cfg = config("p", vec![]);
    let ports = PortRegistry::new();
    let dst = v4(127, 0, 0, 1, 9000);
    let step = login_step(&cfg, &out_login("p", "127.0.0.1:9000"), Some(dst), &ports);
    assert_eq!(step, LoginStep::AcceptOut(dst));
}

#[test]
fn out_login_wrong_password_is_refused() {
    let cfg = config("p", vec![]);
    let ports = PortRegistry::new();
    let dst = v4(127, 0, 0, 1, 9000);
    let step = login_step(&cfg, &out_login("q", "127.0.0.1:9000"), Some(dst), &ports);
    assert_eq!(step, LoginStep::Reject(LoginError::WrongPassword));
    assert_eq!(ports.len(), 0);
}

#[test]
fn out_login_disallowed_destination_is_refused() {
    let cfg = config("p", vec![v4(127, 0, 0, 1, 9000)]);
    let ports = PortRegistry::new();
    let step = login_step(&cfg, &out_login("p", "127.0.0.1:9001"), Some(v4(127, 0, 0, 1, 9001)), &ports);
    assert_eq!(step, LoginStep::Reject(LoginError::DestinationNotAllowed));
    let ok = login_step(&cfg, &out_login("p", "127.0.0.1:9000"), Some(v4(127, 0, 0, 1, 9000)), &ports);
    assert_eq!(ok, LoginStep::AcceptOut(v4(127, 0, 0, 1, 9000)));
}

#[test]
fn out_login_unparsed_address_aborts() {
    let cfg = config("p", vec![]);
    let ports = PortRegistry::new();
    let step = login_step(&cfg, &out_login("p", "not an address"), None, &ports);
    assert_eq!(step, LoginStep::Abort(LoginError::InvalidAddress));
}

#[test]
fn unexpected_first_message_aborts() {
    let cfg = config("p", vec![]);
    let ports = PortRegistry::new();
    assert_eq!(
        login_step(&cfg, &TunnelMessage::RespSuccess, None, &ports),
        LoginStep::Abort(LoginError::UnexpectedMessage)
    );
    assert_eq!(
        login_step(&cfg, &TunnelMessage::RespFailure("x".to_string()), None, &ports),
        LoginStep::Abort(LoginError::UnexpectedMessage)
    );
}

#[test]
fn in_login_happy_path_allocates_port() {
    let cfg = config("p", vec![]);
    let mut ports = PortRegistry::new();
    let a = v4(127, 0, 0, 1, 7000);
    let step = login_step(&cfg, &in_login("p", "127.0.0.1:7000"), Some(a), &ports);
    assert_eq!(step, LoginStep::BindListener(a));
    assert_eq!(complete_in_login(&mut ports, ListenerSetup::Started { bound_port: 7000 }), Ok(()));
    assert!(ports.contains(7000));
}

#[test]
fn in_login_port_collision_is_refused() {
    let cfg = config("p", vec![]);
    let mut ports = PortRegistry::new();
    let a = v4(127, 0, 0, 1, 7000);
    assert_eq!(
        login_step(&cfg, &in_login("p", "127.0.0.1:7000"), Some(a), &ports),
        LoginStep::BindListener(a)
    );
    assert_eq!(complete_in_login(&mut ports, ListenerSetup::Started { bound_port: 7000 }), Ok(()));
    let second = login_step(&cfg, &in_login("p", "127.0.0.1:7000"), Some(a), &ports);
    assert_eq!(second, LoginStep::Reject(LoginError::PortInUse));
    assert_eq!(LoginError::PortInUse.reason(), "remote access port is in use");
    assert_eq!(ports.len(), 1);
}

#[test]
fn in_teardown_frees_port() {
    let mut ports = PortRegistry::new();
    assert_eq!(complete_in_login(&mut ports, ListenerSetup::Started { bound_port: 7000 }), Ok(()));
    assert_eq!(in_session_step(ForwarderEvent::Quit), SessionStep::Finish);
    ports.release(7000);
    assert!(!ports.contains(7000));
    assert_eq!(ports.len(), 0);
}

#[test]
fn in_login_setup_failures() {
    let mut ports = PortRegistry::new();
    assert_eq!(complete_in_login(&mut ports, ListenerSetup::BindFailed), Err(LoginError::BindFailed));
    assert_eq!(complete_in_login(&mut ports, ListenerSetup::StartFailed), Err(LoginError::StartFailed));
    assert_eq!(ports.len(), 0);
    assert_eq!(LoginError::BindFailed.reason(), "access server failed to bind");
    assert_eq!(LoginError::StartFailed.reason(), "access server failed to start");
    assert!(ports.try_allocate(8000));
    assert_eq!(
        complete_in_login(&mut ports, ListenerSetup::Started { bound_port: 8000 }),
        Err(LoginError::PortInUse)
    );
}

#[test]
fn in_login_wrong_password_is_refused() {
    let cfg = config("p", vec![]);
    let ports = PortRegistry::new();
    let step = login_step(&cfg, &in_login("x", "127.0.0.1:7000"), Some(v4(127, 0, 0, 1, 7000)), &ports);
    assert_eq!(step, LoginStep::Reject(LoginError::WrongPassword));
}

#[test]
fn password_comparison_is_exact() {
    assert_eq!(check_password("secret", "secret"), Ok(()));
    assert_eq!(check_password("secret", "Secret"), Err(LoginError::WrongPassword));
    assert_eq!(check_password("secret", "secret "), Err(LoginError::WrongPassword));
    assert_eq!(check_password("", ""), Ok(()));
}

#[test]
fn allow_list_matches_exact_address() {
    let list = vec![v4(10, 0, 0, 1, 80), v4(10, 0, 0, 2, 443)];
    assert!(is_allowed_downstream(&list, v4(10, 0, 0, 2, 443)));
    assert!(!is_allowed_downstream(&list, v4(10, 0, 0, 2, 80)));
    assert!(is_allowed_downstream(&vec![], v4(1, 2, 3, 4, 5)));
}

#[test]
fn in_login_port_zero_registers_bound_port() {
    let cfg = config("p", vec![]);
    let mut ports = PortRegistry::new();
    let a = v4(127, 0, 0, 1, 0);
    assert_eq!(
        login_step(&cfg, &in_login("p", "127.0.0.1:0"), Some(a), &ports),
        LoginStep::BindListener(a)
    );
    assert_eq!(complete_in_login(&mut ports, ListenerSetup::Started { bound_port: 40000 }), Ok(()));
    assert!(ports.contains(40000));
    assert!(!ports.contains(0));
    ports.release(40000);
    assert_eq!(ports.len(), 0);
}
