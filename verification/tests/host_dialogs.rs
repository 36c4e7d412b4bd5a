use zeterm::entities::{AuthConfig, HostConfig};
use zeterm::ui::dialogs::host_connection_dialog::{
    field_display_text, keychain_key, password_secret_key, AuthType, DialogMode, EditingField, FormData,
    HostConnectionDialog, HostDialogAction,
};
use zeterm::ui::dialogs::host_key_channel::{answer_for, HostKeyConfirmRequest, HostKeyConfirmResponse};
use zeterm::ui::dialogs::host_key_dialog::{HostKeyDialog, HostKeyInfo, HostKeyResponse};

fn filled_form() -> FormData {
    let mut form_data = FormData::new();
    form_data.name = "test-server".to_string();
    form_data.host = "192.168.1.100".to_string();
    form_data.port = "22".to_string();
    form_data.username = "root".to_string();
    form_data.auth_type = AuthType::Password;
    form_data.password_input = "test-password-123".to_string();
    form_data
}

#[test]
fn test_form_data_password_storage() {
    let form_data = filled_form();
    let config = form_data.to_host_config(None).unwrap();

    assert_eq!(config.name, "test-server");
    assert_eq!(config.host, "192.168.1.100");
    assert_eq!(config.port, 22);
    assert_eq!(config.username, "root");

    match &config.auth_config {
        AuthConfig::Password { password_ref } => {
            assert!(password_ref.starts_with("keychain:"));
            assert!(password_ref.contains("host:root@192.168.1.100:22"));
        }
        _ => panic!("Expected password auth config"),
    }
}

#[test]
fn test_form_data_edit_mode_password_loading() {
    let existing_key = "host:root@192.168.1.100:22";
    let existing_config = HostConfig::new(
        "existing-server".to_string(),
        "192.168.1.100".to_string(),
        "root".to_string(),
        AuthConfig::password(format!("keychain:{}", existing_key)),
    );

    let form_data =
        FormData::from_host_config(&existing_config, Some("existing-password".to_string()));

    assert_eq!(form_data.password_ref, format!("keychain:{}", existing_key));
    assert_eq!(form_data.password_input, "existing-password");
}

#[test]
fn test_form_data_validation() {
    let mut form_data = FormData::new();

    assert!(form_data.validate().is_err());

    form_data.name = "test".to_string();
    form_data.host = "192.168.1.1".to_string();
    form_data.username = "user".to_string();
    form_data.port = "22".to_string();
    form_data.auth_type = AuthType::Password;

    assert!(form_data.validate().is_err());
    assert!(form_data
        .validate()
        .unwrap_err()
        .contains("Password cannot be empty"));

    form_data.password_input = "password".to_string();
    assert!(form_data.validate().is_ok());
}

#[test]
fn form_validation_reports_the_first_complaint() {
    let mut f = FormData::new();
    assert_eq!(f.validate().unwrap_err(), "Host name cannot be empty");
    f.name = "  n ".to_string();
    assert_eq!(f.validate().unwrap_err(), "Host address cannot be empty");
    f.host = "h".to_string();
    assert_eq!(f.validate().unwrap_err(), "Username cannot be empty");
    f.username = "u".to_string();
    f.port = "70000".to_string();
    assert_eq!(f.validate().unwrap_err(), "Invalid port number");
    f.port = " 2222 ".to_string();
    assert_eq!(f.validate().unwrap_err(), "Password cannot be empty");
    f.auth_type = AuthType::PublicKey;
    assert_eq!(f.validate().unwrap_err(), "Key path cannot be empty");
    f.key_path = "~/.ssh/id_ed25519".to_string();
    assert!(f.validate().is_ok());
    f.auth_type = AuthType::Agent;
    f.key_path = String::new();
    assert!(f.validate().is_ok());
}

#[test]
fn test_form_data_key_generation() {
    let mut form_data = FormData::new();
    form_data.name = "test".to_string();
    form_data.host = "example.com".to_string();
    form_data.port = "2222".to_string();
    form_data.username = "admin".to_string();
    form_data.auth_type = AuthType::Password;
    form_data.password_input = "secret".to_string();

    let config = form_data.to_host_config(None).unwrap();

    match &config.auth_config {
        AuthConfig::Password { password_ref } => {
            assert!(password_ref.starts_with("keychain:"));
            assert_eq!(password_ref, "keychain:host:admin@example.com:2222");
        }
        _ => panic!("Expected password auth config"),
    }
}

#[test]
fn form_conversion_keeps_optional_fields_and_identifier() {
    let mut f = FormData::new();
    f.name = "n".to_string();
    f.host = "h".to_string();
    f.username = "u".to_string();
    f.auth_type = AuthType::PublicKey;
    f.key_path = "/k".to_string();
    f.passphrase_ref = "  ".to_string();
    f.group = "prod".to_string();
    f.description = " ".to_string();
    let c = f.to_host_config(Some(5)).unwrap();
    assert_eq!(c.id, Some(5));
    assert_eq!(c.port, 22);
    assert_eq!(c.group, Some("prod".to_string()));
    assert_eq!(c.description, None);
    match c.auth_config {
        AuthConfig::PublicKey { key_path, passphrase_ref } => {
            assert_eq!(key_path, "/k");
            assert_eq!(passphrase_ref, None);
        }
        _ => panic!("expected public key authentication"),
    }
    f.port = "x".to_string();
    assert_eq!(f.to_host_config(None).unwrap_err(), "Invalid port number");
}

#[test]
fn edit_round_trip_through_the_form() {
    let mut original = HostConfig::new(
        "web".to_string(),
        "web.example.com".to_string(),
        "deploy".to_string(),
        AuthConfig::Agent,
    );
    original.id = Some(3);
    original.port = 2200;
    original.group = Some("prod".to_string());
    let form = FormData::from_host_config(&original, None);
    assert_eq!(form.port, "2200");
    assert_eq!(form.group, "prod");
    let back = form.to_host_config(original.id).unwrap();
    assert_eq!(back.id, Some(3));
    assert_eq!(back.name, "web");
    assert_eq!(back.host, "web.example.com");
    assert_eq!(back.username, "deploy");
    assert_eq!(back.port, 2200);
    assert_eq!(back.group, Some("prod".to_string()));
    assert!(matches!(back.auth_config, AuthConfig::Agent));
}

#[test]
fn keychain_keys() {
    assert_eq!(password_secret_key("root", "10.0.0.1", 22), "host:root@10.0.0.1:22");
    assert_eq!(keychain_key("keychain:abc"), Some("abc".to_string()));
    assert_eq!(keychain_key("keychain:"), Some(String::new()));
    assert_eq!(keychain_key("plain:abc"), None);
    assert_eq!(keychain_key("key"), None);
}

#[test]
fn host_dialog_typing_and_saving() {
    let mut d = HostConnectionDialog::new_create();
    assert_eq!(d.mode, DialogMode::Create);
    assert_eq!(d.title(), "New Host Connection");
    assert_eq!(d.save_label(), "Create");
    assert!(matches!(d.handle_key_down("enter", false), HostDialogAction::Stay));
    assert_eq!(d.validation_error, Some("Host name cannot be empty".to_string()));

    d.start_editing(EditingField::Name);
    d.handle_key_down("a", true);
    d.handle_key_down("b", false);
    d.handle_key_down("c", false);
    d.handle_key_down("backspace", false);
    assert_eq!(d.form_data.name, "Ab");
    assert!(matches!(d.handle_key_down("escape", false), HostDialogAction::Stay));
    assert_eq!(d.editing_field, None);

    d.form_data.host = "h".to_string();
    d.form_data.username = "u".to_string();
    d.form_data.password_input = "p".to_string();
    match d.handle_key_down("enter", false) {
        HostDialogAction::Save(c) => {
            assert_eq!(c.name, "Ab");
            assert_eq!(c.id, None);
        }
        other => panic!("expected a save, got {:?}", other),
    }
    assert_eq!(d.validation_error, None);
    assert!(matches!(d.handle_key_down("escape", false), HostDialogAction::Cancel));
}

#[test]
fn host_dialog_edit_mode() {
    let mut config = HostConfig::new(
        "db".to_string(),
        "db.local".to_string(),
        "admin".to_string(),
        AuthConfig::password("keychain:host:admin@db.local:22".to_string()),
    );
    config.id = Some(11);
    let mut d = HostConnectionDialog::new_edit(config, Some("pw".to_string()));
    assert_eq!(d.title(), "Edit Host Connection");
    assert_eq!(d.save_label(), "Save");
    assert_eq!(d.form_data.password_input, "pw");
    match d.handle_save() {
        HostDialogAction::Save(c) => assert_eq!(c.id, Some(11)),
        other => panic!("expected a save, got {:?}", other),
    }
    d.set_validation_error("disk full".to_string());
    assert_eq!(d.validation_error, Some("disk full".to_string()));
}

#[test]
fn auth_type_names() {
    assert_eq!(AuthType::Password.display_name(), "Password");
    assert_eq!(AuthType::PublicKey.display_name(), "Public Key");
    assert_eq!(AuthType::Agent.display_name(), "SSH Agent");
    assert_eq!(AuthType::from_auth_config(&AuthConfig::Agent), AuthType::Agent);
}

#[test]
fn test_request_id_unique() {
    let mut next_id = 0u64;
    let req1 = HostKeyConfirmRequest::new("host1".to_string(), 22, "type".to_string(), "fp".to_string(), &mut next_id);
    let req2 = HostKeyConfirmRequest::new("host2".to_string(), 22, "type".to_string(), "fp".to_string(), &mut next_id);
    assert_ne!(req1.request_id, req2.request_id);
    assert_eq!(req2.request_id, req1.request_id + 1);
    assert_eq!(next_id, 2);
}

#[test]
fn host_key_answers_match_their_request() {
    let req = HostKeyConfirmRequest::new(
        "example.com".to_string(),
        22,
        "ssh-ed25519".to_string(),
        "SHA256:abc123".to_string(),
        &mut 7,
    );
    assert_eq!(req.request_id, 7);
    assert_eq!(req.hostname, "example.com");
    assert_eq!(req.port, 22);
    let yes = HostKeyConfirmResponse::accept(req.request_id, true);
    assert!(yes.accepted && yes.remember);
    let no = HostKeyConfirmResponse::reject(req.request_id);
    assert!(!no.accepted && !no.remember);
    assert_eq!(answer_for(req.request_id, Some(yes)), Some(yes));
    let other = HostKeyConfirmResponse::accept(req.request_id.wrapping_add(1), false);
    assert_eq!(answer_for(req.request_id, Some(other)), None);
    assert_eq!(answer_for(req.request_id, None), None);
}

#[test]
fn test_host_key_info_new() {
    let info = HostKeyInfo::new(
        "example.com".to_string(),
        22,
        "ssh-ed25519".to_string(),
        "SHA256:abc123".to_string(),
    );
    assert_eq!(info.hostname, "example.com");
    assert_eq!(info.port, 22);
    assert_eq!(info.key_type, "ssh-ed25519");
    assert_eq!(info.fingerprint, "SHA256:abc123");
}

#[test]
fn test_host_key_info_display_address() {
    let info1 = HostKeyInfo::new("example.com".to_string(), 22, "ssh-rsa".to_string(), "fp".to_string());
    assert_eq!(info1.display_address(), "example.com");

    let info2 = HostKeyInfo::new("example.com".to_string(), 2222, "ssh-rsa".to_string(), "fp".to_string());
    assert_eq!(info2.display_address(), "example.com:2222");
}

#[test]
fn test_host_key_response_default() {
    let response = HostKeyResponse::default();
    assert_eq!(response, HostKeyResponse::Pending);
}

#[test]
fn host_key_dialog_answers() {
    let info = HostKeyInfo::new("example.com".to_string(), 2222, "ssh-rsa".to_string(), "fp".to_string());
    let mut d = HostKeyDialog::new(info);
    assert_eq!(d.response(), HostKeyResponse::Pending);
    assert!(d.remember_choice);
    assert_eq!(
        d.warning_text(),
        "The authenticity of host 'example.com:2222' can't be established."
    );
    d.toggle_remember();
    assert_eq!(d.do_accept(), (HostKeyResponse::Accept, false));
    assert_eq!(d.response(), HostKeyResponse::Accept);
    assert_eq!(d.do_reject(), (HostKeyResponse::Reject, false));
}

#[test]
fn form_field_display_text() {
    assert_eq!(field_display_text("主机", "", false, false), "主机...");
    assert_eq!(field_display_text("主机", "", false, true), "");
    assert_eq!(field_display_text("主机", "example.com", false, false), "example.com");
    assert_eq!(field_display_text("密码", "secret", true, false), "••••••");
    assert_eq!(field_display_text("密码", "secret", true, true), "secret");
    assert_eq!(field_display_text("密码", "é", true, false), "••");
    assert_eq!(field_display_text("密码", &"x".repeat(30), true, false), "•".repeat(20));
}

#[test]
fn request_counter_wraps_after_the_last_identifier() {
    let mut next_id = u64::MAX;
    let req = HostKeyConfirmRequest::new("h".to_string(), 22, "t".to_string(), "f".to_string(), &mut next_id);
    assert_eq!(req.request_id, u64::MAX);
    assert_eq!(next_id, 0);
}
