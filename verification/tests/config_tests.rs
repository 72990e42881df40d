//! Configuration checking, lookups, defaults, secrets, and the small
//! request-header and error utilities around them.

use homieflow::client::Client;
use homieflow::config::{
    secrets_from_entropy, server_port, server_port_tls, Config, Google, GoogleLogin, Logins,
    Network, Permission, Room, Secrets, Structure, Tls, ValidationError,
};
use homieflow::errors::{
    AuthError, DeviceCommunicationError, ExecuteResponseError, InternalError, ServerError,
    TokenError,
};
use homieflow::extractors::bearer_token;
use homieflow::user::{default_homie_prefix, Homie, User};

fn base_config() -> Config {
    Config {
        network: Network::default(),
        secrets: Secrets {
            refresh_key: "r".to_string(),
            access_key: "a".to_string(),
            authorization_code_key: "c".to_string(),
        },
        tls: None,
        google: None,
        logins: Logins { google: None },
        structures: vec![Structure { id: "s1".to_string(), name: "Home".to_string() }],
        rooms: vec![],
        users: vec![User {
            id: "u1".to_string(),
            email: "someone@example.com".to_string(),
            homie: None,
        }],
        permissions: vec![],
    }
}

#[test]
fn validate_accepts_consistent_config() {
    let mut config = base_config();
    config.rooms.push(Room {
        id: "room1".to_string(),
        structure_id: "s1".to_string(),
        name: "Bedroom".to_string(),
    });
    config.permissions.push(Permission {
        structure_id: "s1".to_string(),
        user_id: "u1".to_string(),
        is_manager: true,
    });
    assert_eq!(config.validate(), Ok(()));
}

#[test]
fn validate_rejects_dangling_room_structure() {
    let mut config = base_config();
    config.rooms.push(Room {
        id: "room1".to_string(),
        structure_id: "nope".to_string(),
        name: "Bedroom".to_string(),
    });
    assert_eq!(
        config.validate(),
        Err(ValidationError::UnknownRoomStructure {
            structure_id: "nope".to_string(),
            room_id: "room1".to_string(),
        })
    );
}

#[test]
fn validate_rejects_dangling_permission_references() {
    let mut config = base_config();
    config.permissions.push(Permission {
        structure_id: "nope".to_string(),
        user_id: "u1".to_string(),
        is_manager: false,
    });
    assert_eq!(
        config.validate(),
        Err(ValidationError::UnknownPermissionStructure {
            structure_id: "nope".to_string(),
            user_id: "u1".to_string(),
        })
    );
    config.permissions[0].structure_id = "s1".to_string();
    config.permissions[0].user_id = "ghost".to_string();
    assert_eq!(
        config.validate(),
        Err(ValidationError::UnknownPermissionUser {
            structure_id: "s1".to_string(),
            user_id: "ghost".to_string(),
        })
    );
}

#[test]
fn config_lookups_find_by_id_and_email() {
    let mut config = base_config();
    config.rooms.push(Room {
        id: "room1".to_string(),
        structure_id: "s1".to_string(),
        name: "Bedroom".to_string(),
    });
    assert_eq!(config.get_user("u1").unwrap().email, "someone@example.com");
    assert!(config.get_user("u2").is_none());
    assert_eq!(config.get_user_by_email("someone@example.com").unwrap().id, "u1");
    assert!(config.get_user_by_email("other@example.com").is_none());
    assert_eq!(config.get_room("room1").unwrap().name, "Bedroom");
    assert!(config.get_room("room2").is_none());
}

#[test]
fn base_url_prefers_configured_then_tls() {
    let mut config = base_config();
    assert_eq!(config.get_base_url(), "http://127.0.0.1:6001");
    config.tls = Some(Tls {
        address: "1.2.3.4".to_string(),
        port: 4321,
        certificate: "/etc/certificate".to_string(),
        private_key: "/etc/private-key".to_string(),
    });
    assert_eq!(config.get_base_url(), "https://1.2.3.4:4321");
    config.network.base_url = Some("http://localhost:1234".to_string());
    assert_eq!(config.get_base_url(), "http://localhost:1234");
}

#[test]
fn default_ports_and_prefix() {
    assert_eq!(server_port(), 6001);
    assert_eq!(server_port_tls(), 6002);
    let network = Network::default();
    assert_eq!(network.address, "127.0.0.1");
    assert_eq!(network.port, 6001);
    assert_eq!(network.base_url, None);
    assert_eq!(default_homie_prefix(), "homie");
}

#[test]
fn secrets_hex_encode_their_entropy() {
    let mut refresh = [0u8; 32];
    refresh[0] = 0x00;
    refresh[1] = 0x01;
    refresh[2] = 0xab;
    refresh[31] = 0xff;
    let secrets = secrets_from_entropy(refresh, [0x10; 32], [0x2f; 32]);
    assert_eq!(secrets.refresh_key.len(), 64);
    assert!(secrets.refresh_key.starts_with("0001ab"));
    assert!(secrets.refresh_key.ends_with("ff"));
    assert_eq!(secrets.access_key, "10".repeat(32));
    assert_eq!(secrets.authorization_code_key, "2f".repeat(32));
}

#[test]
fn bearer_token_parses_schema_and_token() {
    assert_eq!(bearer_token("Bearer abc.def"), Ok("abc.def".to_string()));
    assert_eq!(
        bearer_token("Basic abc"),
        Err(AuthError::InvalidAuthorizationHeader("Basic".to_string()))
    );
    assert_eq!(
        bearer_token("nospace"),
        Err(AuthError::InvalidAuthorizationHeader("invalid syntax".to_string()))
    );
    assert_eq!(bearer_token("Bearer a b"), Ok("a b".to_string()));
}

#[test]
fn access_token_duration_is_ten_minutes() {
    assert_eq!(Client::Internal.access_token_duration(), 600);
    assert_eq!(Client::GoogleHome.access_token_duration(), 600);
}

#[test]
fn execute_response_error_status_codes() {
    assert_eq!(ExecuteResponseError::InternalError("x".to_string()).status_code(), 500);
    assert_eq!(
        ExecuteResponseError::DecodeTokenHeaderError("x".to_string()).status_code(),
        400
    );
    assert_eq!(ExecuteResponseError::TokenVerifyError("x".to_string()).status_code(), 401);
    assert_eq!(ExecuteResponseError::NoDevicePermission.status_code(), 403);
    assert_eq!(ExecuteResponseError::DeviceNotConnected.status_code(), 404);
    assert_eq!(
        ExecuteResponseError::DeviceCommunicationError(DeviceCommunicationError::Timeout)
            .status_code(),
        504
    );
}

#[test]
fn server_error_status_codes_and_conversions() {
    let token = TokenError { description: "expired".to_string() };
    let auth: AuthError = token.clone().into();
    assert_eq!(auth, AuthError::InvalidToken(token.clone()));
    let server: ServerError = token.clone().into();
    assert_eq!(server, ServerError::Auth(AuthError::InvalidToken(token)));
    assert_eq!(server.status_code(), 401);
    assert_eq!(ServerError::Validation("bad".to_string()).status_code(), 400);
    let internal: ServerError = InternalError::Other("boom".to_string()).into();
    assert_eq!(internal.status_code(), 500);
}

#[test]
fn homie_settings_round_trip_through_config() {
    let homie = Homie {
        host: "broker.local".to_string(),
        port: 8883,
        use_tls: true,
        username: Some("user".to_string()),
        password: Some("swordfish".to_string()),
        client_id: "gateway".to_string(),
        homie_prefix: default_homie_prefix(),
        reconnect_interval_seconds: 5,
    };
    let mut config = base_config();
    config.users[0].homie = Some(homie.clone());
    let user = config.get_user("u1").unwrap();
    assert_eq!(user.homie.as_ref().unwrap().host, "broker.local");
    assert_eq!(user.homie.as_ref().unwrap().homie_prefix, "homie");
    let google = Google {
        client_id: "google-client-id".to_string(),
        client_secret: "google-client-secret".to_string(),
        project_id: "google-project-id".to_string(),
        credentials_file: "google-credentials.json".to_string(),
        request_sync_rate_limit_seconds: 600,
    };
    config.google = Some(google);
    config.logins.google = Some(GoogleLogin { client_id: "google-login-client-id".to_string() });
    assert_eq!(config.google.as_ref().unwrap().request_sync_rate_limit_seconds, 600);
}
