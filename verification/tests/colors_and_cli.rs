use keyboard_hook::cli::config_path_from;
use keyboard_hook::cli::AppCli;
use keyboard_hook::cli::ConfigPathError;
use keyboard_hook::cli::ConfigSource;
use keyboard_hook::cli::APP_CONFIG_FILE;
use keyboard_hook::color::ColorAppConfig;
use keyboard_hook::color::ColorConfig;
use keyboard_hook::color::EightBitColor;

#[test]
fn color_channels() {
    let c = EightBitColor::new(1, 2, 3);
    assert_eq!(c.into(), (1, 2, 3));
    assert_eq!(EightBitColor::from_rgb((9, 8, 7)), EightBitColor::new(9, 8, 7));
    assert_eq!(EightBitColor::from_rgb((9, 8, 7)).into(), (9, 8, 7));
    assert_eq!(EightBitColor::default().into(), (255, 255, 255));
}

#[test]
fn black_shows_only_when_translucent() {
    let black = EightBitColor::new(0, 0, 0);
    assert!(!black.is_notblack(false));
    assert!(black.is_notblack(true));
    assert!(EightBitColor::new(1, 0, 0).is_notblack(false));
    assert!(EightBitColor::new(0, 1, 0).is_notblack(false));
    assert!(EightBitColor::new(0, 0, 1).is_notblack(false));
    assert!(EightBitColor::new(0, 0, 1).is_notblack(true));
}

#[test]
fn default_colors() {
    let tuples = ColorConfig::default();
    assert_eq!(tuples.red(), (255, 51, 51));
    assert_eq!(tuples.green(), (153, 255, 51));
    assert_eq!(tuples.orange(), (255, 255, 0));
    let colors = ColorAppConfig::default();
    assert_eq!(colors.red(), EightBitColor::new(255, 51, 51));
    assert_eq!(colors.green(), EightBitColor::new(153, 255, 51));
    assert_eq!(colors.orange(), EightBitColor::new(255, 255, 0));
    assert_eq!(ColorAppConfig::head_or_default(None), EightBitColor::new(255, 255, 0));
    assert_eq!(
        ColorAppConfig::head_or_default(Some(EightBitColor::new(1, 2, 3))),
        EightBitColor::new(1, 2, 3)
    );
}

#[test]
fn cli_getters() {
    let cli = AppCli::new(Some(String::from("/etc/meter.toml")), true);
    assert_eq!(cli.get_app_config(), Some("/etc/meter.toml"));
    assert!(cli.get_allow_save_default_app_config());
    assert_eq!(cli.config_source(true), ConfigSource::Given);
    assert_eq!(cli.config_source(false), ConfigSource::Given);
    let bare = AppCli::new(None, false);
    assert_eq!(bare.get_app_config(), None);
    assert!(!bare.get_allow_save_default_app_config());
    assert_eq!(bare.config_source(true), ConfigSource::ProjectDir);
    assert_eq!(bare.config_source(false), ConfigSource::Unknown);
}

#[test]
fn config_path_choice() {
    assert_eq!(APP_CONFIG_FILE, "AppConfig.toml");
    assert_eq!(config_path_from(Some("a.toml"), None), Ok(String::from("a.toml")));
    assert_eq!(
        config_path_from(Some("a.toml"), Some(String::from("b.toml"))),
        Ok(String::from("a.toml"))
    );
    assert_eq!(config_path_from(None, Some(String::from("b.toml"))), Ok(String::from("b.toml")));
    assert_eq!(config_path_from(None, None), Err(ConfigPathError::NoProjectDirs));
}

#[test]
fn given_path_is_handed_on_as_it_is() {
    let cli = AppCli::new(Some(String::from("some/where.toml")), true);
    let seen = cli.search_default_appconfigpath("com", "ulinkot", "meter", |path: &str| {
        String::from(path)
    });
    assert_eq!(seen, Ok(String::from("some/where.toml")));
}

#[test]
fn default_path_ends_in_the_file_name() {
    let cli = AppCli::new(None, true);
    let seen = cli.search_default_appconfigpath("com", "ulinkot", "meter", |path: &str| {
        String::from(path)
    });
    match seen {
        Ok(path) => {
            assert!(path.ends_with("AppConfig.toml"));
            assert!(path.len() > "AppConfig.toml".len());
            assert!(path.contains("meter"));
        }
        Err(e) => assert_eq!(e, ConfigPathError::NoProjectDirs),
    }
}
