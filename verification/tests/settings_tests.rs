use declarative_routeros::settings::{
    combine_to_session_settings, IpAddress, SessionFlags, SSH_PORT,
};

#[test]
fn combine_fixes_port_to_22() {
    let flags = SessionFlags {
        username: "admin".to_string(),
        router_address: IpAddress::V4 { octets: [192, 168, 88, 1] },
    };
    let settings = combine_to_session_settings(flags);
    assert_eq!(settings.router_address.port, 22);
    assert_eq!(settings.router_address.port, SSH_PORT);
}

#[test]
fn combine_preserves_username_and_v4_address() {
    let flags = SessionFlags {
        username: "operator".to_string(),
        router_address: IpAddress::V4 { octets: [10, 0, 0, 1] },
    };
    let settings = combine_to_session_settings(flags);
    assert_eq!(settings.username, "operator");
    assert_eq!(settings.router_address.ip, IpAddress::V4 { octets: [10, 0, 0, 1] });
}

#[test]
fn combine_preserves_v6_address() {
    let segments: [u16; 8] = [0xfe80, 0, 0, 0, 0, 0, 0, 1];
    let flags = SessionFlags {
        username: "admin".to_string(),
        router_address: IpAddress::V6 { segments },
    };
    let settings = combine_to_session_settings(flags);
    assert_eq!(settings.router_address.ip, IpAddress::V6 { segments });
    assert_eq!(settings.router_address.port, 22);
}
