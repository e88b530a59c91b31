use sev::crypto::sha256;
use sev::error::{interpret_status, Error, Indeterminate};
use sev::firmware::{Identifier, PlatformStatusFlags, State, Status, TcbVersion};
use sev::guest::{
    GuestFieldSelect, SnpDerivedKeyRequest, SnpDerivedKeyRequestHeader, SnpDerivedKeyResponse,
    SnpGetReport, SnpReportRequest, SnpReportResponse,
};
use sev::launch::{LaunchState, Launcher, ProtocolStateError};
use sev::policy::{Policy, PolicyError, SnpPolicy};
use sev::session::{HeaderFlags, Secret, Start};
use sev::{Build, Version};

fn dummy_start() -> Start {
    Start { policy: Policy::default(), nonce: vec![0; 16], public_key: vec![0; 65] }
}

fn dummy_secret() -> Secret {
    Secret { flags: HeaderFlags::default(), iv: vec![0; 16], ciphertext: vec![1, 2], mac: vec![0; 32] }
}

#[test]
fn launcher_walks_the_full_sequence() {
    let mut launcher = Launcher::new();
    assert_eq!(launcher.state(), LaunchState::New);
    launcher.start(&dummy_start()).unwrap();
    launcher.update_data(&[1, 2, 3]).unwrap();
    launcher.update_data(&[4, 5, 6]).unwrap();
    launcher.measure().unwrap();
    launcher.inject(&dummy_secret(), 0x1000).unwrap();
    launcher.finish().unwrap();
    assert_eq!(launcher.state(), LaunchState::Finished);
}

#[test]
fn finish_twice_is_rejected() {
    let mut launcher = Launcher::new();
    launcher.start(&dummy_start()).unwrap();
    launcher.measure().unwrap();
    launcher.finish().unwrap();
    assert_eq!(
        launcher.finish().unwrap_err(),
        ProtocolStateError { expected: LaunchState::Measured, found: LaunchState::Finished }
    );
}

#[test]
fn out_of_order_operations_are_rejected() {
    let mut launcher = Launcher::new();
    assert_eq!(
        launcher.update_data(&[1]).unwrap_err(),
        ProtocolStateError { expected: LaunchState::Started, found: LaunchState::New }
    );
    assert_eq!(
        launcher.measure().unwrap_err(),
        ProtocolStateError { expected: LaunchState::Started, found: LaunchState::New }
    );
    assert_eq!(
        launcher.inject(&dummy_secret(), 0).unwrap_err(),
        ProtocolStateError { expected: LaunchState::Measured, found: LaunchState::New }
    );
    launcher.start(&dummy_start()).unwrap();
    assert_eq!(
        launcher.start(&dummy_start()).unwrap_err(),
        ProtocolStateError { expected: LaunchState::New, found: LaunchState::Started }
    );
    assert_eq!(
        launcher.finish().unwrap_err(),
        ProtocolStateError { expected: LaunchState::Measured, found: LaunchState::Started }
    );
}

#[test]
fn abort_spends_the_launcher() {
    let mut launcher = Launcher::new();
    launcher.start(&dummy_start()).unwrap();
    launcher.abort().unwrap();
    assert_eq!(launcher.state(), LaunchState::Finished);
    assert!(launcher.update_data(&[1]).is_err());
    assert!(launcher.abort().is_err());
}

#[test]
fn status_codes_map_to_the_taxonomy() {
    assert_eq!(interpret_status(0), Ok(()));
    assert_eq!(
        interpret_status(1),
        Err(Indeterminate::Known(Error::InvalidPlatformState))
    );
    assert_eq!(interpret_status(10), Err(Indeterminate::Known(Error::BadSignature)));
    assert_eq!(interpret_status(11), Err(Indeterminate::Known(Error::BadMeasurement)));
    assert_eq!(interpret_status(14), Err(Indeterminate::Known(Error::WbinvdRequired)));
    assert_eq!(interpret_status(24), Err(Indeterminate::Known(Error::SecureDataInvalid)));
    // An unrecognized code is preserved, never coerced into a known kind.
    assert_eq!(interpret_status(25), Err(Indeterminate::Unknown(25)));
    assert_eq!(interpret_status(999), Err(Indeterminate::Unknown(999)));
}

#[test]
fn policy_word_round_trips() {
    let policy = Policy {
        no_debug: true,
        no_key_sharing: false,
        encrypted_state: true,
        single_socket: true,
        minfw: Version { major: 1, minor: 22 },
    };
    let bits = policy.bits();
    assert_eq!(bits, 0x1601_000d);
    assert_eq!(Policy::from_bits(bits), Some(policy));
    // A word with a reserved bit set is rejected, never defaulted.
    assert_eq!(Policy::from_bits(0x20), None);
}

#[test]
fn policy_validation_against_platform_status() {
    let status = Status {
        build: Build { version: Version { major: 0, minor: 20 }, build: 13 },
        state: State::Initialized,
        flags: PlatformStatusFlags { owned: true, encrypted_state: false },
        guests: 0,
    };
    let mut policy = Policy::default();
    assert_eq!(policy.validate_against(&status), Ok(()));

    policy.encrypted_state = true;
    assert_eq!(
        policy.validate_against(&status),
        Err(PolicyError::EncryptedStateUnsupported)
    );

    policy.encrypted_state = false;
    policy.minfw = Version { major: 0, minor: 22 };
    assert_eq!(policy.validate_against(&status), Err(PolicyError::FirmwareTooOld));

    policy.minfw = Version { major: 0, minor: 14 };
    assert_eq!(policy.validate_against(&status), Ok(()));
}

#[test]
fn platform_state_decoding_and_labels() {
    assert_eq!(State::from_raw(0), Some(State::Uninitialized));
    assert_eq!(State::from_raw(1), Some(State::Initialized));
    assert_eq!(State::from_raw(2), Some(State::Working));
    assert_eq!(State::from_raw(3), None);
    assert_eq!(State::Working.label(), "working");
    assert_eq!(State::Uninitialized.label(), "uninitialized");
}

#[test]
fn platform_flags_decode_their_bits() {
    let flags = PlatformStatusFlags::from_bits(0x101);
    assert!(flags.owned);
    assert!(flags.encrypted_state);
    let flags = PlatformStatusFlags::from_bits(0x100);
    assert!(!flags.owned);
    assert!(flags.encrypted_state);
    let flags = PlatformStatusFlags::from_bits(0xfe);
    assert!(!flags.owned);
    assert!(!flags.encrypted_state);
}

#[test]
fn identifier_renders_as_hex() {
    let id = Identifier::new(vec![0x0a, 0xff, 0x00, 0x4b]);
    assert_eq!(id.hex(), "0AFF004B".to_string());
    let raw: Vec<u8> = Vec::from(Identifier::new(vec![1, 2]));
    assert_eq!(raw, vec![1, 2]);
}

#[test]
fn snp_policy_accessors_read_their_fields() {
    let policy = SnpPolicy::from_bits(0x000d_1702);
    assert_eq!(policy.abi_minor(), 0x02);
    assert_eq!(policy.abi_major(), 0x17);
    assert!(policy.smt_allowed());
    assert!(policy.migrate_ma_allowed());
    assert!(policy.debug_allowed());
    assert!(!policy.single_socket_required());
}

#[test]
fn guest_field_select_reads_its_bits() {
    let select = GuestFieldSelect::from_bits(0b101001);
    assert!(select.guest_policy());
    assert!(!select.image_id());
    assert!(!select.family_id());
    assert!(select.measurement());
    assert!(!select.guest_svn());
    assert!(select.tcb_version());
}

#[test]
fn guest_structures_default_to_fixed_zeroed_fields() {
    let report = SnpGetReport::default();
    assert_eq!(report.measurement, vec![0; 48]);
    assert_eq!(report.chip_id, vec![0; 64]);
    assert_eq!(report.report_data, vec![0; 64]);

    assert_eq!(report.family_id, vec![0; 16]);
    assert_eq!(report.image_id, vec![0; 16]);
    assert_eq!(report.host_data, vec![0; 32]);
    assert_eq!(report.id_key_digest, vec![0; 48]);
    assert_eq!(report.author_key_digest, vec![0; 48]);
    assert_eq!(report.report_id, vec![0; 32]);
    assert_eq!(report.report_id_ma, vec![0; 32]);
    assert_eq!(report.platform_version, TcbVersion::default());
    assert_eq!(report.reported_tcb, TcbVersion::default());

    let response = SnpReportResponse::default();
    assert_eq!(response.status, 0);
    assert_eq!(response.certs_data, vec![0; 3476]);
    assert_eq!(response.report, SnpGetReport::default());

    let key_response = SnpDerivedKeyResponse::default();
    assert_eq!(key_response.key, vec![0; 32]);

    assert!(SnpReportRequest::new(0, vec![0; 64]).is_err());
    assert!(SnpReportRequest::new(1, vec![0; 63]).is_err());
    let request = SnpReportRequest::new(1, vec![7; 64]).unwrap();
    assert_eq!(request.msg_version, 1);

    let key_request = SnpDerivedKeyRequestHeader {
        msg_version: 1,
        req: SnpDerivedKeyRequest {
            root_key_select: 0,
            guest_field_select: GuestFieldSelect::from_bits(0x8),
            vmpl: 0,
            guest_svn: 3,
            tcb_version: TcbVersion::default(),
        },
    };
    assert!(key_request.req.guest_field_select.measurement());
    assert_eq!(key_request.req.guest_svn, 3);
}

#[test]
fn version_ordering_is_major_then_minor() {
    let v = |major, minor| Version { major, minor };
    assert!(v(1, 0).at_least(&v(0, 14)));
    assert!(v(0, 14).at_least(&v(0, 14)));
    assert!(!v(0, 13).at_least(&v(0, 14)));
    assert!(v(2, 0).at_least(&v(1, 99)));
}

#[test]
fn digest_wrapper_matches_the_reference_vector() {
    let digest = sha256(b"abc");
    assert_eq!(
        digest,
        vec![
            0xba, 0x78, 0x16, 0xbf, 0x8f, 0x01, 0xcf, 0xea, 0x41, 0x41, 0x40, 0xde, 0x5d, 0xae,
            0x22, 0x23, 0xb0, 0x03, 0x61, 0xa3, 0x96, 0x17, 0x7a, 0x9c, 0xb4, 0x10, 0xff, 0x61,
            0xf2, 0x00, 0x15, 0xad,
        ]
    );
}
