use vstd::prelude::*;

use crate::text::{decimal_of, decimal_string, fill_all, fill_first, fill_placeholders};

verus! {

/// The language of the interface.
#[derive(Debug, Clone, Copy, PartialEq, Eq, Structural)]
pub enum Language {
    English,
    Chinese,
}

impl Default for Language {
    fn default() -> (r: Language)
        ensures
            r == Language::Chinese,
    {
        Language::Chinese
    }
}

impl Language {
    /// The other language.
    pub fn toggle(&self) -> (r: Language)
        ensures
            r != *self,
    {
        match self {
            Language::English => Language::Chinese,
            Language::Chinese => Language::English,
        }
    }
}

/// The texts of the interface in one language. A `{}` in a text marks where
/// a value goes.
pub struct Strings {
    pub no_cli_running: &'static str,
    pub sitting_time_hours: &'static str,
    pub sitting_time_minutes: &'static str,
    pub show_time: &'static str,
    pub sound_notification: &'static str,
    pub auto_bring_to_front: &'static str,
    pub auto_start: &'static str,
    pub smart_sitting_reminder: &'static str,
    pub reminder_interval: &'static str,
    pub reset_timer: &'static str,
    pub quit: &'static str,
    pub language: &'static str,
    pub check_update: &'static str,
    pub version: &'static str,
    pub checking_update: &'static str,
    pub update_available: &'static str,
    pub no_update: &'static str,
    pub update_error: &'static str,
    pub downloading: &'static str,
    pub install_restart: &'static str,
    pub app_name: &'static str,
    pub cli_waiting: &'static str,
    pub sitting_reminder_title: &'static str,
    pub sitting_reminder_body: &'static str,
    pub smart_reminder_title: &'static str,
    pub smart_reminder_body: &'static str,
    pub sound_enabled_msg: &'static str,
}

/// The texts of each language.
pub open spec fn strings_for(lang: Language) -> Strings {
    match lang {
        Language::English => Strings {
            no_cli_running: "No CLI running",
            sitting_time_hours: "Sitting: {}h {}m",
            sitting_time_minutes: "Sitting: {}m",
            show_time: "Show Time",
            sound_notification: "Sound Notification",
            auto_bring_to_front: "Auto Bring to Front",
            auto_start: "Launch at Login",
            smart_sitting_reminder: "Smart Sitting Reminder",
            reminder_interval: "Interval: {}m",
            reset_timer: "Reset Timer",
            quit: "Quit",
            language: "中文",
            check_update: "Check for Updates",
            version: "Version: {}",
            checking_update: "Checking...",
            update_available: "New version: {}",
            no_update: "Already up to date",
            update_error: "Update check failed",
            downloading: "Downloading...",
            install_restart: "Install & Restart",
            app_name: "Focus Guard",
            cli_waiting: "CLI is waiting for your input!",
            sitting_reminder_title: "Sitting Reminder",
            sitting_reminder_body: "You've been sitting for {} minutes. Time to stretch!",
            smart_reminder_title: "Time for a Break",
            smart_reminder_body: "You've been working for {} minutes!\nTimer resets after 2 min of inactivity",
            sound_enabled_msg: "Sound notification enabled",
        },
        Language::Chinese => Strings {
            no_cli_running: "无CLI运行",
            sitting_time_hours: "已坐 {}小时{}分钟",
            sitting_time_minutes: "已坐 {}分钟",
            show_time: "显示时间",
            sound_notification: "声音通知",
            auto_bring_to_front: "自动置顶终端",
            auto_start: "开机自动启动",
            smart_sitting_reminder: "智能久坐提醒",
            reminder_interval: "提醒间隔: {}分钟",
            reset_timer: "重置计时",
            quit: "退出",
            language: "English",
            check_update: "检查更新",
            version: "版本: {}",
            checking_update: "检查中...",
            update_available: "发现新版本: {}",
            no_update: "已是最新版本",
            update_error: "检查更新失败",
            downloading: "下载中...",
            install_restart: "安装并重启",
            app_name: "Focus Guard",
            cli_waiting: "CLI正在等待你的输入，请查看终端！",
            sitting_reminder_title: "久坐提醒",
            sitting_reminder_body: "你已经坐了{}分钟了，起来活动一下吧！",
            smart_reminder_title: "该休息了",
            smart_reminder_body: "你已经连续工作{}分钟了！\n休息2分钟后自动重置计时",
            sound_enabled_msg: "声音通知已开启",
        },
    }
}

/// The texts of the interface in `lang`.
pub fn get_strings(lang: Language) -> (r: Strings)
    ensures
        r == strings_for(lang),
{
    match lang {
        Language::English => Strings {
            no_cli_running: "No CLI running",
            sitting_time_hours: "Sitting: {}h {}m",
            sitting_time_minutes: "Sitting: {}m",
            show_time: "Show Time",
            sound_notification: "Sound Notification",
            auto_bring_to_front: "Auto Bring to Front",
            auto_start: "Launch at Login",
            smart_sitting_reminder: "Smart Sitting Reminder",
            reminder_interval: "Interval: {}m",
            reset_timer: "Reset Timer",
            quit: "Quit",
            language: "中文",
            check_update: "Check for Updates",
            version: "Version: {}",
            checking_update: "Checking...",
            update_available: "New version: {}",
            no_update: "Already up to date",
            update_error: "Update check failed",
            downloading: "Downloading...",
            install_restart: "Install & Restart",
            app_name: "Focus Guard",
            cli_waiting: "CLI is waiting for your input!",
            sitting_reminder_title: "Sitting Reminder",
            sitting_reminder_body: "You've been sitting for {} minutes. Time to stretch!",
            smart_reminder_title: "Time for a Break",
            smart_reminder_body: "You've been working for {} minutes!\nTimer resets after 2 min of inactivity",
            sound_enabled_msg: "Sound notification enabled",
        },
        Language::Chinese => Strings {
            no_cli_running: "无CLI运行",
            sitting_time_hours: "已坐 {}小时{}分钟",
            sitting_time_minutes: "已坐 {}分钟",
            show_time: "显示时间",
            sound_notification: "声音通知",
            auto_bring_to_front: "自动置顶终端",
            auto_start: "开机自动启动",
            smart_sitting_reminder: "智能久坐提醒",
            reminder_interval: "提醒间隔: {}分钟",
            reset_timer: "重置计时",
            quit: "退出",
            language: "English",
            check_update: "检查更新",
            version: "版本: {}",
            checking_update: "检查中...",
            update_available: "发现新版本: {}",
            no_update: "已是最新版本",
            update_error: "检查更新失败",
            downloading: "下载中...",
            install_restart: "安装并重启",
            app_name: "Focus Guard",
            cli_waiting: "CLI正在等待你的输入，请查看终端！",
            sitting_reminder_title: "久坐提醒",
            sitting_reminder_body: "你已经坐了{}分钟了，起来活动一下吧！",
            smart_reminder_title: "该休息了",
            smart_reminder_body: "你已经连续工作{}分钟了！\n休息2分钟后自动重置计时",
            sound_enabled_msg: "声音通知已开启",
        },
    }
}

/// The time spent sitting: hours and minutes from an hour on, minutes below.
/// The hours go in every placeholder of the hours text, so that text shows
/// the hours twice.
pub open spec fn sitting_time_text(lang: Language, minutes: u32) -> Seq<char> {
    if minutes >= 60 {
        fill_first(
            fill_all(strings_for(lang).sitting_time_hours@, decimal_of((minutes / 60) as nat)),
            decimal_of((minutes % 60) as nat),
        )
    } else {
        fill_all(strings_for(lang).sitting_time_minutes@, decimal_of(minutes as nat))
    }
}

/// The time spent sitting, for the menu.
pub fn format_sitting_time(lang: Language, minutes: u32) -> (r: String)
    ensures
        r@ == sitting_time_text(lang, minutes),
{
    let s = get_strings(lang);
    if minutes >= 60 {
        let hours = fill_placeholders(
            s.sitting_time_hours,
            decimal_string(minutes / 60).as_str(),
            false,
        );
        fill_placeholders(hours.as_str(), decimal_string(minutes % 60).as_str(), true)
    } else {
        fill_placeholders(s.sitting_time_minutes, decimal_string(minutes).as_str(), false)
    }
}

/// The reminder interval, for the menu.
pub fn format_interval(lang: Language, minutes: u32) -> (r: String)
    ensures
        r@ == fill_all(strings_for(lang).reminder_interval@, decimal_of(minutes as nat)),
{
    fill_placeholders(get_strings(lang).reminder_interval, decimal_string(minutes).as_str(), false)
}

/// The body of the sitting reminder.
pub fn format_sitting_reminder(lang: Language, minutes: u32) -> (r: String)
    ensures
        r@ == fill_all(strings_for(lang).sitting_reminder_body@, decimal_of(minutes as nat)),
{
    fill_placeholders(
        get_strings(lang).sitting_reminder_body,
        decimal_string(minutes).as_str(),
        false,
    )
}

/// The body of the reminder to take a break.
pub fn format_smart_reminder(lang: Language, minutes: u32) -> (r: String)
    ensures
        r@ == fill_all(strings_for(lang).smart_reminder_body@, decimal_of(minutes as nat)),
{
    fill_placeholders(
        get_strings(lang).smart_reminder_body,
        decimal_string(minutes).as_str(),
        false,
    )
}

/// The version line of the menu.
pub fn format_version(lang: Language, version: &str) -> (r: String)
    ensures
        r@ == fill_all(strings_for(lang).version@, version@),
{
    fill_placeholders(get_strings(lang).version, version, false)
}

/// The notice of a new version.
pub fn format_update_available(lang: Language, version: &str) -> (r: String)
    ensures
        r@ == fill_all(strings_for(lang).update_available@, version@),
{
    fill_placeholders(get_strings(lang).update_available, version, false)
}

} // verus!
