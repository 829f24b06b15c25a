use singularity::config::{default_max_volume, Config};

#[test]
fn test_config_default() {
    let config = Config::default();
    assert!(!config.dark_mode);
    assert!(!config.night_light);
    assert!(!config.do_not_disturb);
    assert_eq!(config.screenshot_command, "");
    assert_eq!(config.max_volume, 150);
}

#[test]
fn test_default_max_volume_fn() {
    assert_eq!(default_max_volume(), 150);
}
