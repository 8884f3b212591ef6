use focus_guard::config::{AppConfig, ConfigManager, StoredSettings};
use focus_guard::i18n::{
    format_interval, format_sitting_reminder, format_sitting_time, format_smart_reminder,
    format_update_available, format_version, get_strings, Language,
};
use focus_guard::text::{decimal_string, fill_placeholders, str_eq};

#[test]
fn decimal_numbers() {
    assert_eq!(decimal_string(0), "0");
    assert_eq!(decimal_string(7), "7");
    assert_eq!(decimal_string(1234), "1234");
    assert_eq!(decimal_string(u32::MAX), "4294967295");
}

#[test]
fn placeholders_fill() {
    assert_eq!(fill_placeholders("a{}b{}", "X", false), "aXbX");
    assert_eq!(fill_placeholders("a{}b{}", "X", true), "aXb{}");
    assert_eq!(fill_placeholders("{{}}", "1", false), "{1}");
    assert_eq!(fill_placeholders("none", "1", false), "none");
    assert_eq!(fill_placeholders("版本: {}", "2", false), "版本: 2");
}

#[test]
fn string_equality() {
    assert!(str_eq("abc", "abc"));
    assert!(!str_eq("abc", "abd"));
    assert!(!str_eq("abc", "ab"));
}

#[test]
fn language_toggle_and_default() {
    assert_eq!(Language::default(), Language::Chinese);
    assert_eq!(Language::English.toggle(), Language::Chinese);
    assert_eq!(Language::Chinese.toggle(), Language::English);
}

#[test]
fn string_tables() {
    let en = get_strings(Language::English);
    assert_eq!(en.quit, "Quit");
    assert_eq!(en.language, "中文");
    assert_eq!(en.app_name, "Focus Guard");
    let zh = get_strings(Language::Chinese);
    assert_eq!(zh.quit, "退出");
    assert_eq!(zh.language, "English");
    assert_eq!(zh.no_cli_running, "无CLI运行");
}

#[test]
fn formatted_texts() {
    assert_eq!(format_sitting_time(Language::English, 45), "Sitting: 45m");
    assert_eq!(format_sitting_time(Language::Chinese, 5), "已坐 5分钟");
    // the hours fill both placeholders of the hours text
    assert_eq!(format_sitting_time(Language::English, 90), "Sitting: 1h 1m");
    assert_eq!(format_sitting_time(Language::Chinese, 125), "已坐 2小时2分钟");
    assert_eq!(format_interval(Language::English, 30), "Interval: 30m");
    assert_eq!(format_interval(Language::Chinese, 20), "提醒间隔: 20分钟");
    assert_eq!(
        format_sitting_reminder(Language::English, 40),
        "You've been sitting for 40 minutes. Time to stretch!"
    );
    assert_eq!(
        format_smart_reminder(Language::Chinese, 50),
        "你已经连续工作50分钟了！\n休息2分钟后自动重置计时"
    );
    assert_eq!(format_version(Language::English, "1.2.3"), "Version: 1.2.3");
    assert_eq!(format_update_available(Language::Chinese, "2.0.0"), "发现新版本: 2.0.0");
}

#[test]
fn config_defaults() {
    let c = ConfigManager::new();
    assert!(c.get_show_time());
    assert_eq!(c.get_poll_interval(), 5);
    assert!(!c.get_sound_enabled());
    assert!(!c.get_auto_bring_to_front());
    assert!(c.get_sitting_reminder_enabled());
    assert_eq!(c.get_sitting_reminder_interval(), 40);
    assert_eq!(c.get_language(), Language::Chinese);
    let d = AppConfig::default();
    assert_eq!(d.poll_interval_secs, 5);
}

#[test]
fn config_toggles() {
    let mut c = ConfigManager::new();
    assert!(!c.toggle_show_time());
    assert!(!c.get_show_time());
    assert!(c.toggle_sound());
    assert!(c.toggle_auto_bring_to_front());
    assert!(!c.toggle_sitting_reminder());
    assert_eq!(c.toggle_language(), Language::English);
    c.set_show_time(true);
    assert!(c.get_show_time());
    c.set_poll_interval(0);
    assert_eq!(c.get_poll_interval(), 1);
    c.set_poll_interval(9);
    assert_eq!(c.get_poll_interval(), 9);
}

#[test]
fn reminder_interval_cycles() {
    let mut c = ConfigManager::new();
    assert_eq!(c.cycle_sitting_reminder_interval(), 50);
    assert_eq!(c.cycle_sitting_reminder_interval(), 60);
    assert_eq!(c.cycle_sitting_reminder_interval(), 20);
    assert_eq!(c.cycle_sitting_reminder_interval(), 30);
    assert_eq!(c.cycle_sitting_reminder_interval(), 40);
    c.load(&StoredSettings {
        show_time_in_tray: None,
        poll_interval_secs: None,
        sound_enabled: None,
        auto_bring_to_front: None,
        sitting_reminder_enabled: None,
        sitting_reminder_interval_minutes: Some(25),
        language: None,
    });
    assert_eq!(c.cycle_sitting_reminder_interval(), 20);
}

#[test]
fn config_load_and_save() {
    let mut c = ConfigManager::new();
    c.load(&StoredSettings {
        show_time_in_tray: Some(false),
        poll_interval_secs: Some(0),
        sound_enabled: Some(true),
        auto_bring_to_front: None,
        sitting_reminder_enabled: Some(false),
        sitting_reminder_interval_minutes: Some(0x1_0000_0005),
        language: Some("English".to_string()),
    });
    assert!(!c.get_show_time());
    assert_eq!(c.get_poll_interval(), 1);
    assert!(c.get_sound_enabled());
    assert!(!c.get_auto_bring_to_front());
    assert!(!c.get_sitting_reminder_enabled());
    assert_eq!(c.get_sitting_reminder_interval(), 5);
    assert_eq!(c.get_language(), Language::English);
    let s = c.save();
    assert_eq!(s.show_time_in_tray, Some(false));
    assert_eq!(s.poll_interval_secs, Some(1));
    assert_eq!(s.sitting_reminder_interval_minutes, Some(5));
    assert_eq!(s.language.as_deref(), Some("English"));
    let mut other = ConfigManager::new();
    other.load(&StoredSettings { language: Some("Klingon".to_string()), ..s.clone() });
    assert_eq!(other.get_language(), Language::English);
    other.load(&StoredSettings { language: Some("Chinese".to_string()), ..s });
    assert_eq!(other.get_language(), Language::Chinese);
}
