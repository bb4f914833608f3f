use modality_barectf_plugin::{CommonConfig, EnvSubError, HasCommonConfig};

#[test]
fn no_config_path_stays_none() {
    let config = CommonConfig { config: None, start_event: None };
    assert_eq!(config.envsub_config_path(), Ok(None));
}

#[test]
fn plain_config_path_is_kept() {
    let config =
        CommonConfig { config: Some("/etc/barectf/effective.yaml".to_string()), start_event: None };
    assert_eq!(config.envsub_config_path(), Ok(Some("/etc/barectf/effective.yaml".to_string())));
}

#[test]
fn default_is_used_for_an_unset_variable() {
    let config = CommonConfig {
        config: Some("${MODALITY_BARECTF_TEST_UNSET_DIR:-/tmp}/cfg.yaml".to_string()),
        start_event: None,
    };
    assert_eq!(config.envsub_config_path(), Ok(Some("/tmp/cfg.yaml".to_string())));
    let dash = CommonConfig {
        config: Some("${MODALITY_BARECTF_TEST_UNSET_DIR-/opt}/cfg.yaml".to_string()),
        start_event: None,
    };
    assert_eq!(dash.envsub_config_path(), Ok(Some("/opt/cfg.yaml".to_string())));
}

#[test]
fn unset_variable_without_default_is_an_error() {
    let config = CommonConfig {
        config: Some("${MODALITY_BARECTF_TEST_UNSET_DIR}/cfg.yaml".to_string()),
        start_event: None,
    };
    assert_eq!(
        config.envsub_config_path(),
        Err(EnvSubError::EnvVarNotPresent("MODALITY_BARECTF_TEST_UNSET_DIR".to_string()))
    );
}

#[test]
fn substituted_path_maps_each_outcome() {
    assert_eq!(
        CommonConfig::substituted_path(Ok("a/b".to_string())),
        Ok(Some("a/b".to_string()))
    );
    assert_eq!(
        CommonConfig::substituted_path(Err(EnvSubError::EnvVarNotUnicode("X".to_string()))),
        Err(EnvSubError::EnvVarNotUnicode("X".to_string()))
    );
    assert_eq!(
        CommonConfig::substituted_path(Err(EnvSubError::EnvVarNotPresent("Y".to_string()))),
        Err(EnvSubError::EnvVarNotPresent("Y".to_string()))
    );
}

#[test]
fn common_config_is_its_own_common_config() {
    let config = CommonConfig { config: None, start_event: Some("boot".to_string()) };
    assert_eq!(config.common_config(), &config);
    assert_eq!(CommonConfig::default(), CommonConfig { config: None, start_event: None });
}
