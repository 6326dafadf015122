use now_playing_to_file::settings::{TextSetting, ENABLE_DEFAULT, ENABLE_KEY};

#[test]
fn keys_of_the_settings() {
    assert_eq!(ENABLE_KEY, "now_playing_to_file.enable");
    assert_eq!(TextSetting::Format.key(), "now_playing_to_file.format");
    assert_eq!(TextSetting::OutPath.key(), "now_playing_to_file.out_path");
}

#[test]
fn defaults_of_the_settings() {
    assert_eq!(ENABLE_DEFAULT, 0);
    assert_eq!(TextSetting::Format.default_value(), "%title%$if(%ispaused%,' ('paused')')");
    assert_eq!(TextSetting::OutPath.default_value(), "");
}
