//! Labels of the tray menu, by locale and by monitor state.

use vstd::prelude::*;
use vstd::string::StrSliceExecFns;

verus! {

/// The tray menu's labels in one language.
#[derive(Debug, Clone, Copy)]
pub struct TrayTexts {
    pub status_active: &'static str,
    pub status_paused: &'static str,
    pub pause: &'static str,
    pub resume: &'static str,
    pub settings: &'static str,
    pub quit: &'static str,
}

/// Mathematical value of a [`TrayTexts`].
pub struct TrayTextsView {
    pub status_active: Seq<char>,
    pub status_paused: Seq<char>,
    pub pause: Seq<char>,
    pub resume: Seq<char>,
    pub settings: Seq<char>,
    pub quit: Seq<char>,
}

impl View for TrayTexts {
    type V = TrayTextsView;

    open spec fn view(&self) -> TrayTextsView {
        TrayTextsView {
            status_active: self.status_active@,
            status_paused: self.status_paused@,
            pause: self.pause@,
            resume: self.resume@,
            settings: self.settings@,
            quit: self.quit@,
        }
    }
}

/// Whether a locale tag names a Chinese locale: it begins with `zh`.
pub open spec fn is_chinese(locale: Seq<char>) -> bool {
    locale.len() >= 2 && locale[0] == 'z' && locale[1] == 'h'
}

/// The labels in Chinese.
pub open spec fn chinese_texts() -> TrayTextsView {
    TrayTextsView {
        status_active: "Timesdump - 运行中"@,
        status_paused: "Timesdump - 已暂停"@,
        pause: "暂停"@,
        resume: "恢复"@,
        settings: "设置..."@,
        quit: "退出 Timesdump"@,
    }
}

/// The labels in English.
pub open spec fn english_texts() -> TrayTextsView {
    TrayTextsView {
        status_active: "Timesdump - Active"@,
        status_paused: "Timesdump - Paused"@,
        pause: "Pause"@,
        resume: "Resume"@,
        settings: "Settings..."@,
        quit: "Quit Timesdump"@,
    }
}

/// The labels for a locale: Chinese for a Chinese locale, English for any
/// other.
pub fn get_tray_text(locale: &str) -> (texts: TrayTexts)
    ensures
        texts@ == if is_chinese(locale@) {
            chinese_texts()
        } else {
            english_texts()
        },
{
    if locale.unicode_len() >= 2 && locale.get_char(0) == 'z' && locale.get_char(1) == 'h' {
        TrayTexts {
            status_active: "Timesdump - 运行中",
            status_paused: "Timesdump - 已暂停",
            pause: "暂停",
            resume: "恢复",
            settings: "设置...",
            quit: "退出 Timesdump",
        }
    } else {
        TrayTexts {
            status_active: "Timesdump - Active",
            status_paused: "Timesdump - Paused",
            pause: "Pause",
            resume: "Resume",
            settings: "Settings...",
            quit: "Quit Timesdump",
        }
    }
}

/// What choosing an item of the tray menu asks for.
#[derive(Debug, Clone, Copy, PartialEq, Eq, Structural)]
pub enum TrayCommand {
    /// Pause a running monitor, resume a paused one.
    TogglePause,
    /// Bring up the settings window.
    ShowSettings,
    /// Leave the application.
    Quit,
}

/// The command behind a menu item's identifier; the status line and unknown
/// identifiers stand for none.
pub open spec fn command_for(id: Seq<char>) -> Option<TrayCommand> {
    if id == "pause"@ {
        Some(TrayCommand::TogglePause)
    } else if id == "settings"@ {
        Some(TrayCommand::ShowSettings)
    } else if id == "quit"@ {
        Some(TrayCommand::Quit)
    } else {
        None
    }
}

fn same_text(a: &str, b: &str) -> (same: bool)
    ensures
        same == (a@ == b@),
{
    a.to_owned() == b.to_owned()
}

/// The command that the menu item with identifier `id` stands for.
pub fn tray_command(id: &str) -> (command: Option<TrayCommand>)
    ensures
        command == command_for(id@),
{
    if same_text(id, "pause") {
        Some(TrayCommand::TogglePause)
    } else if same_text(id, "settings") {
        Some(TrayCommand::ShowSettings)
    } else if same_text(id, "quit") {
        Some(TrayCommand::Quit)
    } else {
        None
    }
}

impl TrayTexts {
    /// The label of the pause item: it offers to pause a running monitor and
    /// to resume a paused one.
    pub fn pause_label(&self, running: bool) -> (label: &'static str)
        ensures
            label@ == if running {
                self@.pause
            } else {
                self@.resume
            },
    {
        if running {
            self.pause
        } else {
            self.resume
        }
    }

    /// The label of the status line.
    pub fn status_label(&self, running: bool) -> (label: &'static str)
        ensures
            label@ == if running {
                self@.status_active
            } else {
                self@.status_paused
            },
    {
        if running {
            self.status_active
        } else {
            self.status_paused
        }
    }
}

} // verus!
