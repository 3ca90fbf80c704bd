//! Tests of the client operations, the configuration and the volume filter.

use proxy_pairing::config::{
    AppConfig, AppConfigOutput, GetAppConfigQuery, GetAppConfigQueryInput, JobLoggingConfig,
    LoggingConfig, Preferences, ProxyPairingConfig, ProxyPairingConfigOutput, ServiceConfig,
};
use proxy_pairing::device::{DeviceInfo, DeviceRegistry, NetworkFingerprint, PairingType, SessionKeys};
use proxy_pairing::handler::PairingProtocolHandler;
use proxy_pairing::keys::NetworkIdentity;
use proxy_pairing::ops::{
    ActionError, PairConfirmProxyAction, PairConfirmProxyInput, PairConfirmProxyOutput,
    PairVouchAction, PairVouchInput, PairVouchOutput, VouchingSessionInput, VouchingSessionQuery,
};
use proxy_pairing::sync_partners::{GetSyncPartners, GetSyncPartnersInput, LibraryDevice};
use proxy_pairing::time::Timestamp;
use proxy_pairing::types::PairingCode;
use proxy_pairing::volume::{
    determine_mount_type_windows, is_mounted_volume, should_include_volume, MountType, Volume,
    VolumeDetectionConfig, WindowsVolumeInfo,
};

fn o_at(secs: i64) -> Timestamp {
    Timestamp::new(secs, 0).unwrap()
}

fn o_info(id: u128, name: &str) -> DeviceInfo {
    DeviceInfo {
        device_id: id,
        device_name: name.to_string(),
        device_slug: name.to_lowercase(),
        os_version: "TestOS 1".to_string(),
        app_version: "2.0.0".to_string(),
        network_fingerprint: NetworkFingerprint { node_id: String::new(), public_key: vec![] },
        last_seen: o_at(0),
    }
}

fn o_setup() -> (PairingProtocolHandler, DeviceRegistry) {
    let mut handler =
        PairingProtocolHandler::new(NetworkIdentity::from_secret_key(vec![1u8; 32]).unwrap(), true);
    let mut registry = DeviceRegistry::new(o_info(1, "Alice"));
    for (id, name) in [(2u128, "Bob"), (3u128, "Carol"), (4u128, "Dave")] {
        registry.complete_pairing(
            o_info(id, name),
            SessionKeys::from_shared_secret(vec![id as u8; 32]),
            Some(vec![id as u8; 32]),
            PairingType::Direct,
            None,
            o_at(0),
        );
    }
    registry.set_connection(3, Some(vec![3; 32]), true);
    let code = PairingCode { session_id: 50, secret: vec![5; 16], expires_at: o_at(1_000) };
    handler.start_pairing_session_with_id(50, code, o_at(10)).unwrap();
    assert!(handler.complete_pairing_session(&registry, 50, o_info(2, "Bob"), vec![2; 32], None, o_at(11)));
    (handler, registry)
}

#[test]
fn default_proxy_config() {
    let config = ProxyPairingConfig::default();
    assert!(config.auto_accept_vouched);
    assert!(!config.auto_vouch_to_all);
    assert_eq!(config.vouch_signature_max_age, 600);
    assert_eq!(config.vouch_response_timeout, 300);
    assert_eq!(config.vouch_queue_retry_limit, 5);
}

#[test]
fn app_config_output_shows_every_field() {
    let config = AppConfig {
        version: 3,
        data_dir: "/data".to_string(),
        log_level: "info".to_string(),
        telemetry_enabled: true,
        preferences: Preferences { theme: "dark".to_string(), language: "en".to_string() },
        job_logging: JobLoggingConfig {
            enabled: true,
            log_directory: "logs".to_string(),
            max_file_size: 1024,
            include_debug: false,
            log_ephemeral_jobs: true,
        },
        services: ServiceConfig {
            networking_enabled: true,
            volume_monitoring_enabled: false,
            fs_watcher_enabled: true,
            statistics_listener_enabled: false,
        },
        logging: LoggingConfig { main_filter: "sd_core=debug".to_string() },
        proxy_pairing: ProxyPairingConfig {
            auto_accept_vouched: false,
            auto_vouch_to_all: true,
            vouch_signature_max_age: 60,
            vouch_response_timeout: 30,
            vouch_queue_retry_limit: 9,
        },
    };
    let output = AppConfigOutput::from(&config);
    assert_eq!(output.version, 3);
    assert_eq!(output.data_dir, "/data");
    assert_eq!(output.log_level, "info");
    assert!(output.telemetry_enabled);
    assert_eq!(output.preferences.theme, "dark");
    assert_eq!(output.preferences.language, "en");
    assert_eq!(output.job_logging.log_directory, "logs");
    assert_eq!(output.job_logging.max_file_size, 1024);
    assert!(output.job_logging.log_ephemeral_jobs);
    assert!(output.services.networking_enabled);
    assert!(!output.services.volume_monitoring_enabled);
    assert_eq!(output.logging.main_filter, "sd_core=debug");
    assert_eq!(
        output.proxy_pairing,
        ProxyPairingConfigOutput {
            auto_accept_vouched: false,
            auto_vouch_to_all: true,
            vouch_signature_max_age: 60,
            vouch_response_timeout: 30,
            vouch_queue_retry_limit: 9,
        }
    );
    let query = GetAppConfigQuery::from_input(GetAppConfigQueryInput {}).unwrap();
    assert_eq!(query.execute(&config), output);
}

#[test]
fn vouch_action_counts_open_vouches() {
    let (mut handler, registry) = o_setup();
    let action = PairVouchAction::from_input(PairVouchInput {
        session_id: 50,
        target_device_ids: vec![3, 4, 1, 77],
    })
    .unwrap();
    assert_eq!(action.action_kind(), "network.pair.vouch");
    let output = action.execute(&mut handler, &registry, o_at(20)).unwrap();
    // Carol is connected and waits, Dave is offline and queued; the voucher
    // itself and the stranger are rejected.
    assert_eq!(output, PairVouchOutput { success: true, pending_count: 2 });

    let query = VouchingSessionQuery::from_input(VouchingSessionInput { session_id: 50 }).unwrap();
    let session = query.execute(&handler).session.unwrap();
    assert_eq!(session.vouches.len(), 4);
    assert_eq!(session.pending_count(), 2);
    let missing = VouchingSessionQuery::from_input(VouchingSessionInput { session_id: 51 }).unwrap();
    assert!(missing.execute(&handler).session.is_none());
}

#[test]
fn vouch_action_reports_errors_as_text() {
    let (mut handler, registry) = o_setup();
    let action =
        PairVouchAction::from_input(PairVouchInput { session_id: 51, target_device_ids: vec![3] })
            .unwrap();
    assert_eq!(
        action.execute(&mut handler, &registry, o_at(20)),
        Err(ActionError::Internal(
            "Protocol error: Pairing session not found: 00000000-0000-0000-0000-000000000033"
                .to_string()
        ))
    );
}

#[test]
fn confirm_action_reports_missing_confirmation() {
    let (mut handler, mut registry) = o_setup();
    let action =
        PairConfirmProxyAction::from_input(PairConfirmProxyInput { session_id: 50, accepted: true })
            .unwrap();
    assert_eq!(action.action_kind(), "network.pair.confirmProxy");
    assert_eq!(
        action.execute(&mut handler, &mut registry, o_at(20)),
        Ok(PairConfirmProxyOutput {
            success: false,
            error: Some("Protocol error: No pending proxy confirmation found".to_string()),
        })
    );
}

#[test]
fn auto_vouch_targets_all_other_paired_devices() {
    let mut handler =
        PairingProtocolHandler::new(NetworkIdentity::from_secret_key(vec![1u8; 32]).unwrap(), true);
    handler.set_proxy_config(ProxyPairingConfig { auto_vouch_to_all: true, ..ProxyPairingConfig::default() });
    let mut registry = DeviceRegistry::new(o_info(1, "Alice"));
    for (id, name) in [(2u128, "Bob"), (3u128, "Carol"), (4u128, "Dave")] {
        registry.complete_pairing(
            o_info(id, name),
            SessionKeys::from_shared_secret(vec![id as u8; 32]),
            Some(vec![id as u8; 32]),
            PairingType::Direct,
            None,
            o_at(0),
        );
    }
    let code = PairingCode { session_id: 50, secret: vec![5; 16], expires_at: o_at(1_000) };
    handler.start_pairing_session_with_id(50, code, o_at(10)).unwrap();
    assert!(handler.complete_pairing_session(&registry, 50, o_info(2, "Bob"), vec![2; 32], None, o_at(11)));
    let session = handler.get_vouching_session(50).unwrap();
    let targets: Vec<u128> = session.vouches.iter().map(|v| v.device_id).collect();
    assert_eq!(targets, vec![3, 4]);
    assert_eq!(session.vouches[0].device_name, "Carol");
    // No queue is attached, so no vouch is stored for later delivery.
    assert!(handler.queue_entries().is_empty());
}

#[test]
fn sync_partners_are_listed_with_diagnosis() {
    let (_, mut registry) = o_setup();
    registry.set_connection(4, None, false);
    let devices = vec![
        LibraryDevice { uuid: 2, name: "Bob".to_string(), sync_enabled: true },
        LibraryDevice { uuid: 4, name: "Dave".to_string(), sync_enabled: false },
        LibraryDevice { uuid: 9, name: "Zed".to_string(), sync_enabled: true },
    ];
    let query = GetSyncPartners::from_input(GetSyncPartnersInput {}).unwrap();
    let output = query.execute(&devices, &vec![9, 5, 2], Some(&registry));
    let names: Vec<&str> = output.partners.iter().map(|p| p.device_name.as_str()).collect();
    assert_eq!(names, vec!["Zed", "Bob"]);
    assert!(output.partners.iter().all(|p| p.is_paired));
    assert_eq!(output.debug_info.total_devices, 3);
    assert_eq!(output.debug_info.sync_enabled_devices, 2);
    assert_eq!(output.debug_info.paired_devices, 1);
    assert_eq!(output.debug_info.final_sync_partners, 3);
    assert_eq!(output.debug_info.device_details.len(), 3);
    assert_eq!(output.debug_info.device_details[0].node_id, Some(hex::encode([2u8; 32])));
    assert!(!output.debug_info.device_details[1].has_node_id);
    assert_eq!(output.debug_info.device_details[2].node_id, None);

    let bare = query.execute(&devices, &vec![2], None);
    assert_eq!(bare.partners.len(), 1);
    assert_eq!(bare.debug_info.paired_devices, 0);
    assert!(bare.debug_info.device_details.is_empty());
}

#[test]
fn volume_filter_follows_configuration() {
    let system = Volume {
        name: "C".to_string(),
        mount_type: MountType::System,
        total_capacity: 100,
        available_space: 5,
    };
    let empty = Volume {
        name: "V".to_string(),
        mount_type: MountType::External,
        total_capacity: 0,
        available_space: 0,
    };
    let external = Volume {
        name: "E".to_string(),
        mount_type: MountType::External,
        total_capacity: 10,
        available_space: 5,
    };
    let all = VolumeDetectionConfig { include_system: true, include_virtual: true };
    let none = VolumeDetectionConfig { include_system: false, include_virtual: false };
    assert!(should_include_volume(&system, &all));
    assert!(should_include_volume(&empty, &all));
    assert!(!should_include_volume(&system, &none));
    assert!(!should_include_volume(&empty, &none));
    assert!(should_include_volume(&external, &none));
    assert_eq!(system.total_bytes_capacity(), 100);
}

#[test]
fn windows_drives_c_and_d_are_system_drives() {
    assert_eq!(determine_mount_type_windows("C:\\"), MountType::System);
    assert_eq!(determine_mount_type_windows("d:\\"), MountType::System);
    assert_eq!(determine_mount_type_windows("E:\\"), MountType::External);
    assert_eq!(determine_mount_type_windows("C:"), MountType::External);
    let info = WindowsVolumeInfo {
        drive_letter: Some("C".to_string()),
        label: None,
        size: 0,
        size_remaining: 0,
        filesystem: "NTFS".to_string(),
        volume_guid: None,
    };
    assert!(!is_mounted_volume(&info));
    assert!(is_mounted_volume(&WindowsVolumeInfo { size: 1, ..info }));
}
