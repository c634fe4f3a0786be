use flowy_upload::error_map::{ErrorCode, FlowyError, RemoteErrorCode};
use flowy_upload::group::{
    default_group_setting, group_controller_kind, make_no_status_group, Field, FieldType,
    GeneratedGroups, Group, GroupControllerKind,
};
use flowy_upload::task::{chunk_count, chunk_range, file_id_of, uploaded_bytes};

#[test]
fn default_group_setting_is_keyed_by_the_field() {
    let field = Field { id: "fld-1".to_string(), field_type: 3 };
    let setting = default_group_setting(&field);
    assert_eq!(setting.field_id, "fld-1");
    assert_eq!(setting.field_type, 3);
    assert_eq!(setting.content, "");
}

#[test]
fn no_status_group_is_visible_under_the_field_id() {
    let field = Field { id: "fld-2".to_string(), field_type: 0 };
    let group = make_no_status_group(&field);
    assert_eq!(group.id, "fld-2");
    assert!(group.visible);
    let generated = GeneratedGroups {
        no_status_group: Some(group),
        groups: vec![Group { id: "g1".to_string(), visible: false }],
    };
    assert_eq!(generated.groups.len(), 1);
    assert!(generated.no_status_group.is_some());
}

#[test]
fn each_field_type_gets_its_own_controller() {
    let cases = [
        (FieldType::SingleSelect, GroupControllerKind::SingleSelect),
        (FieldType::MultiSelect, GroupControllerKind::MultiSelect),
        (FieldType::Checkbox, GroupControllerKind::Checkbox),
        (FieldType::Url, GroupControllerKind::Url),
        (FieldType::DateTime, GroupControllerKind::Date),
        (FieldType::Other, GroupControllerKind::Default),
    ];
    for (ft, kind) in cases {
        assert_eq!(group_controller_kind(ft), kind);
    }
}

#[test]
fn remote_error_codes_map_onto_the_local_taxonomy() {
    let cases = [
        (RemoteErrorCode::Success, ErrorCode::Internal),
        (RemoteErrorCode::Unhandled, ErrorCode::Internal),
        (RemoteErrorCode::RecordNotFound, ErrorCode::RecordNotFound),
        (RemoteErrorCode::InvalidEmail, ErrorCode::EmailFormatInvalid),
        (RemoteErrorCode::OAuthError, ErrorCode::UserUnauthorized),
        (RemoteErrorCode::NotLoggedIn, ErrorCode::UserUnauthorized),
        (RemoteErrorCode::InvalidUrl, ErrorCode::InvalidURL),
        (RemoteErrorCode::SingleUploadLimitExceeded, ErrorCode::SingleUploadLimitExceeded),
        (RemoteErrorCode::CustomNamespaceDisabled, ErrorCode::CustomNamespaceRequirePlanUpgrade),
        (RemoteErrorCode::PublishNamespaceAlreadyTaken, ErrorCode::CustomNamespaceAlreadyTaken),
        (RemoteErrorCode::Other, ErrorCode::Internal),
    ];
    for (remote, local) in cases {
        let err = FlowyError::from_remote(remote, "boom".to_string());
        assert_eq!(err.code, local);
        assert_eq!(err.msg, "boom");
    }
    let made = FlowyError::new(ErrorCode::NetworkError, "offline".to_string());
    assert_eq!(made.code, ErrorCode::NetworkError);
}

#[test]
fn chunk_arithmetic_matches_the_fixed_chunk_size() {
    assert_eq!(chunk_count(0, 4), 0);
    assert_eq!(chunk_count(1, 4), 1);
    assert_eq!(chunk_count(8, 4), 2);
    assert_eq!(chunk_count(10, 4), 3);
    assert_eq!(chunk_range(0, 10, 4), (0, 4));
    assert_eq!(chunk_range(1, 10, 4), (4, 4));
    assert_eq!(chunk_range(2, 10, 4), (8, 2));
    assert_eq!(uploaded_bytes(0, 10, 4), 0);
    assert_eq!(uploaded_bytes(1, 10, 4), 4);
    assert_eq!(uploaded_bytes(2, 10, 4), 8);
    assert_eq!(uploaded_bytes(3, 10, 4), 10);
}

#[test]
fn file_id_is_deterministic_per_content_and_destination() {
    let a = file_id_of(1, 2, 3);
    let b = file_id_of(1, 2, 3);
    assert_eq!(a, b);
    assert_eq!(a, 1u64 ^ (2u64 << 17) ^ (3u64 << 34));
    assert_ne!(file_id_of(1, 2, 3), file_id_of(1, 2, 4));
    assert_ne!(file_id_of(1, 2, 3), file_id_of(1, 3, 3));
}
