use tokiodoshi::audio::kind_str_to_volume_kind;
use tokiodoshi::error::AppError;
use tokiodoshi::settings::VolumeKind;

#[test]
fn kind_str_to_volume_kind_maps_known_values() {
    assert_eq!(kind_str_to_volume_kind("master").unwrap(), VolumeKind::Master);
    assert_eq!(kind_str_to_volume_kind("water").unwrap(), VolumeKind::Water);
    assert_eq!(kind_str_to_volume_kind("kakon").unwrap(), VolumeKind::Kakon);
}

#[test]
fn kind_str_to_volume_kind_rejects_unknown_and_returns_not_found() {
    let err = kind_str_to_volume_kind("invalid").unwrap_err();
    match err {
        AppError::NotFound(msg) => {
            assert!(msg.contains("invalid kind"));
            assert!(msg.contains("invalid"));
        }
        other => panic!("expected NotFound, got {other:?}"),
    }

    assert!(matches!(
        kind_str_to_volume_kind("Master").unwrap_err(),
        AppError::NotFound(_)
    ));
    assert!(matches!(
        kind_str_to_volume_kind("").unwrap_err(),
        AppError::NotFound(_)
    ));
}
