//! The tray application's decisions: what each window event does to the
//! configuration and which actions it asks the window layer to perform,
//! the timer period, and the texts shown while downloading.

use vstd::prelude::*;
use vstd::string::*;
use crate::decimal::{decimal, signed_decimal, push_decimal, push_signed_decimal, decimal_value,
    is_canonical_numeral, lemma_decimal_reads_back};

verus! {

/// The application's name, shown as the tray tooltip and bubble title.
pub const APP_NAME: &'static str = "himawari8壁纸";

/// Menu item: quit.
pub const IDR_EXIT: usize = 10;
/// Menu item: open the project's home page.
pub const IDR_HOME: usize = 20;
/// Menu item: show the whole earth.
pub const IDR_TP_FULL: usize = 210;
/// Menu item: show half of the earth.
pub const IDR_TP_HALF: usize = 211;
/// Menu item: update every 10 minutes.
pub const IDR_FQ_10: usize = 110;
/// Menu item: update every 20 minutes.
pub const IDR_FQ_20: usize = 111;
/// Menu item: update every 30 minutes.
pub const IDR_FQ_30: usize = 112;
/// Menu item: update every hour.
pub const IDR_FQ_60: usize = 113;

/// The two wallpaper layouts.
#[derive(Clone, Copy, Debug, PartialEq, Eq)]
pub enum ShowType {
    /// The whole earth disc.
    Full,
    /// Half of a disc larger than the screen.
    Half,
}

/// The saved settings: the layout and the update period in minutes.
#[derive(Clone, Copy, Debug, PartialEq, Eq)]
pub struct Config {
    pub show_type: ShowType,
    pub freq: i32,
}

/// What the window receives, as far as the application cares.
#[derive(Clone, Copy, Debug, PartialEq, Eq)]
pub enum TrayEvent {
    /// The window was created (or must rebuild its tray icon).
    Create,
    /// The tray icon was double-clicked.
    TrayDoubleClick,
    /// A mouse button went down on the tray icon.
    TrayButtonDown,
    /// The popup menu was closed on this item (0: none).
    MenuCommand(usize),
    /// The window is being destroyed.
    Destroy,
    /// The task bar was recreated (the shell restarted).
    TaskbarCreated,
}

/// What the window layer is asked to do, in order.
#[derive(Clone, Copy, Debug, PartialEq, Eq)]
pub enum TrayAction {
    /// Put the application's icon in the notification area.
    AddTrayIcon,
    /// Build the popup menu.
    BuildMenu,
    /// Download the current frame and set the wallpaper in this layout.
    Switch(ShowType),
    /// Stop the update timer and start it again with this period in minutes.
    RestartTimer(i32),
    /// Show the "started" bubble.
    ShowStartedBubble,
    /// Close the window.
    CloseWindow,
    /// Show the popup menu at the cursor and report the chosen item.
    ShowMenu,
    /// Open the project's home page in the browser.
    OpenHomePage,
    /// Save this configuration.
    SaveConfig(Config),
    /// Post a button-down on the tray icon again, which reopens the menu.
    RepostButtonDown,
    /// Stop the update timer.
    StopTimer,
    /// Take the icon out of the notification area.
    RemoveTrayIcon,
    /// End the message loop.
    Quit,
    /// Handle the event as a fresh `Create`.
    ResendCreate,
}

/// The minutes that a frequency menu item sets the timer to.
pub open spec fn item_minutes(item: usize) -> i32 {
    if item == IDR_FQ_10 { 10 } else if item == IDR_FQ_20 { 20 } else if item == IDR_FQ_30 { 30 } else { 60 }
}

/// Whether `item` is one of the four frequency items.
pub open spec fn is_freq_item(item: usize) -> bool {
    item == IDR_FQ_10 || item == IDR_FQ_20 || item == IDR_FQ_30 || item == IDR_FQ_60
}

/// The configuration after `event`, and the actions it asks for.
pub open spec fn spec_handle(config: Config, event: TrayEvent) -> (Config, Seq<TrayAction>) {
    match event {
        TrayEvent::Create => (config, seq![
            TrayAction::AddTrayIcon,
            TrayAction::BuildMenu,
            TrayAction::Switch(config.show_type),
            TrayAction::RestartTimer(config.freq),
            TrayAction::ShowStartedBubble,
        ]),
        TrayEvent::TrayDoubleClick => (config, seq![TrayAction::CloseWindow]),
        TrayEvent::TrayButtonDown => (config, seq![TrayAction::ShowMenu]),
        TrayEvent::MenuCommand(item) => {
            if item == IDR_EXIT {
                (config, seq![TrayAction::CloseWindow])
            } else if item == IDR_HOME {
                (config, seq![TrayAction::OpenHomePage])
            } else if item == IDR_TP_FULL || item == IDR_TP_HALF {
                let chosen = if item == IDR_TP_FULL { ShowType::Full } else { ShowType::Half };
                if config.show_type == chosen {
                    (config, seq![])
                } else {
                    let next = Config { show_type: chosen, ..config };
                    (next, seq![TrayAction::Switch(chosen), TrayAction::SaveConfig(next)])
                }
            } else if is_freq_item(item) {
                let next = Config { freq: item_minutes(item), ..config };
                (next, seq![TrayAction::RestartTimer(item_minutes(item)), TrayAction::SaveConfig(next)])
            } else if item == 0 {
                (config, seq![TrayAction::RepostButtonDown])
            } else {
                (config, seq![])
            }
        },
        TrayEvent::Destroy => (config, seq![
            TrayAction::StopTimer,
            TrayAction::RemoveTrayIcon,
            TrayAction::Quit,
        ]),
        TrayEvent::TaskbarCreated => (config, seq![TrayAction::ResendCreate]),
    }
}

/// Choosing the layout already shown changes nothing and does nothing.
pub proof fn lemma_same_layout_is_noop(config: Config, item: usize)
    requires
        item == IDR_TP_FULL && config.show_type == ShowType::Full
            || item == IDR_TP_HALF && config.show_type == ShowType::Half,
    ensures
        spec_handle(config, TrayEvent::MenuCommand(item)) == (config, Seq::<TrayAction>::empty()),
{
    assert(spec_handle(config, TrayEvent::MenuCommand(item)).1 =~= Seq::<TrayAction>::empty());
}

/// Choosing the other layout switches the wallpaper to it and saves the
/// configuration with it, the update period unchanged.
pub proof fn lemma_other_layout_switches(config: Config, chosen: ShowType)
    requires
        config.show_type != chosen,
    ensures
        ({
            let item = if chosen == ShowType::Full { IDR_TP_FULL } else { IDR_TP_HALF };
            let next = Config { show_type: chosen, freq: config.freq };
            spec_handle(config, TrayEvent::MenuCommand(item))
                == (next, seq![TrayAction::Switch(chosen), TrayAction::SaveConfig(next)])
        }),
{
}

/// A frequency item restarts the timer with its minutes and saves the
/// configuration with that same period, the layout unchanged.
pub proof fn lemma_frequency_restarts_timer(config: Config, item: usize)
    requires
        is_freq_item(item),
    ensures
        ({
            let (next, actions) = spec_handle(config, TrayEvent::MenuCommand(item));
            &&& next.show_type == config.show_type
            &&& next.freq == item_minutes(item)
            &&& actions == seq![TrayAction::RestartTimer(item_minutes(item)), TrayAction::SaveConfig(next)]
        }),
{
}

/// The four frequency items set 10, 20, 30 and 60 minutes, and choosing
/// one saves that period.
pub proof fn lemma_frequency_items(config: Config)
    ensures
        spec_handle(config, TrayEvent::MenuCommand(IDR_FQ_10)).0.freq == 10,
        spec_handle(config, TrayEvent::MenuCommand(IDR_FQ_20)).0.freq == 20,
        spec_handle(config, TrayEvent::MenuCommand(IDR_FQ_30)).0.freq == 30,
        spec_handle(config, TrayEvent::MenuCommand(IDR_FQ_60)).0.freq == 60,
        spec_handle(config, TrayEvent::MenuCommand(IDR_FQ_10)).1[0] == TrayAction::RestartTimer(10),
        spec_handle(config, TrayEvent::MenuCommand(IDR_FQ_20)).1[0] == TrayAction::RestartTimer(20),
        spec_handle(config, TrayEvent::MenuCommand(IDR_FQ_30)).1[0] == TrayAction::RestartTimer(30),
        spec_handle(config, TrayEvent::MenuCommand(IDR_FQ_60)).1[0] == TrayAction::RestartTimer(60),
{
}

/// Only the layout and frequency items change the configuration, and every
/// change is saved.
pub proof fn lemma_changes_are_saved(config: Config, event: TrayEvent)
    ensures
        ({
            let (next, actions) = spec_handle(config, event);
            next != config ==> {
                &&& event matches TrayEvent::MenuCommand(item)
                &&& (item == IDR_TP_FULL || item == IDR_TP_HALF || is_freq_item(item))
                &&& actions.contains(TrayAction::SaveConfig(next))
            }
        }),
{
    let (next, actions) = spec_handle(config, event);
    if next != config {
        assert(actions[1] == TrayAction::SaveConfig(next));
    }
}

/// Creating the window shows the saved layout and starts the timer with the
/// saved period; when the shell restarts, the window goes through creation
/// again and so gets its tray icon back.
pub proof fn lemma_create_starts_saved_layout(config: Config)
    ensures
        spec_handle(config, TrayEvent::Create).0 == config,
        spec_handle(config, TrayEvent::Create).1.contains(TrayAction::Switch(config.show_type)),
        spec_handle(config, TrayEvent::Create).1.contains(TrayAction::RestartTimer(config.freq)),
        spec_handle(config, TrayEvent::Create).1.contains(TrayAction::AddTrayIcon),
        spec_handle(config, TrayEvent::TaskbarCreated) == (config, seq![TrayAction::ResendCreate]),
{
    assert(spec_handle(config, TrayEvent::Create).1[0] == TrayAction::AddTrayIcon);
    assert(spec_handle(config, TrayEvent::Create).1[2] == TrayAction::Switch(config.show_type));
    assert(spec_handle(config, TrayEvent::Create).1[3] == TrayAction::RestartTimer(config.freq));
}

/// The events that do not touch the configuration act the same under every
/// configuration: Exit and a double click close the window, a click opens
/// the menu, the home page item opens the home page, no choice reopens the
/// menu, destruction stops the timer, removes the icon and quits, a shell
/// restart recreates the icon, and unknown items do nothing.
pub proof fn lemma_fixed_events(config: Config, item: usize)
    ensures
        spec_handle(config, TrayEvent::MenuCommand(IDR_EXIT)) == (config, seq![TrayAction::CloseWindow]),
        spec_handle(config, TrayEvent::TrayDoubleClick) == (config, seq![TrayAction::CloseWindow]),
        spec_handle(config, TrayEvent::TrayButtonDown) == (config, seq![TrayAction::ShowMenu]),
        spec_handle(config, TrayEvent::MenuCommand(IDR_HOME)) == (config, seq![TrayAction::OpenHomePage]),
        spec_handle(config, TrayEvent::MenuCommand(0)) == (config, seq![TrayAction::RepostButtonDown]),
        spec_handle(config, TrayEvent::Destroy)
            == (config, seq![TrayAction::StopTimer, TrayAction::RemoveTrayIcon, TrayAction::Quit]),
        spec_handle(config, TrayEvent::TaskbarCreated) == (config, seq![TrayAction::ResendCreate]),
        item != 0 && item != IDR_EXIT && item != IDR_HOME && item != IDR_TP_FULL && item != IDR_TP_HALF
            && !is_freq_item(item) ==> spec_handle(config, TrayEvent::MenuCommand(item))
            == (config, Seq::<TrayAction>::empty()),
{
    assert(item != 0 && item != IDR_EXIT && item != IDR_HOME && item != IDR_TP_FULL && item != IDR_TP_HALF
        && !is_freq_item(item) ==> spec_handle(config, TrayEvent::MenuCommand(item)).1
        =~= Seq::<TrayAction>::empty());
}

/// Apart from creation and the layout and frequency items, what an event
/// does does not depend on the configuration, and leaves it unchanged.
pub proof fn lemma_config_independent(c1: Config, c2: Config, event: TrayEvent)
    requires
        !(event is Create),
        !(event matches TrayEvent::MenuCommand(item)
            && (item == IDR_TP_FULL || item == IDR_TP_HALF || is_freq_item(item))),
    ensures
        spec_handle(c1, event).0 == c1,
        spec_handle(c1, event).1 == spec_handle(c2, event).1,
{
}

/// Creating the window adds the icon, builds the menu, shows the saved
/// layout, starts the timer with the saved period and greets, in that order.
pub proof fn lemma_create_sequence(config: Config)
    ensures
        spec_handle(config, TrayEvent::Create) == (config, seq![
            TrayAction::AddTrayIcon,
            TrayAction::BuildMenu,
            TrayAction::Switch(config.show_type),
            TrayAction::RestartTimer(config.freq),
            TrayAction::ShowStartedBubble,
        ]),
{
}

/// The window's application state: its configuration.
#[derive(Clone, Copy, Debug, PartialEq, Eq)]
pub struct Tray {
    pub config: Config,
}

impl Tray {
    /// A tray running with the configuration read at start-up.
    pub fn new(config: Config) -> (tray: Tray)
        ensures
            tray.config == config,
    {
        Tray { config }
    }

    /// Handles one window event: updates the configuration and returns the
    /// actions to perform, in order.
    pub fn handle(&mut self, event: TrayEvent) -> (actions: Vec<TrayAction>)
        ensures
            (final(self).config, actions@) == spec_handle(old(self).config, event),
    {
        let config = self.config;
        let mut actions: Vec<TrayAction> = Vec::new();
        match event {
            TrayEvent::Create => {
                actions.push(TrayAction::AddTrayIcon);
                actions.push(TrayAction::BuildMenu);
                actions.push(TrayAction::Switch(config.show_type));
                actions.push(TrayAction::RestartTimer(config.freq));
                actions.push(TrayAction::ShowStartedBubble);
            },
            TrayEvent::TrayDoubleClick => {
                actions.push(TrayAction::CloseWindow);
            },
            TrayEvent::TrayButtonDown => {
                actions.push(TrayAction::ShowMenu);
            },
            TrayEvent::MenuCommand(item) => {
                if item == IDR_EXIT {
                    actions.push(TrayAction::CloseWindow);
                } else if item == IDR_HOME {
                    actions.push(TrayAction::OpenHomePage);
                } else if item == IDR_TP_FULL || item == IDR_TP_HALF {
                    let chosen = if item == IDR_TP_FULL { ShowType::Full } else { ShowType::Half };
                    let same = match (config.show_type, chosen) {
                        (ShowType::Full, ShowType::Full) => true,
                        (ShowType::Half, ShowType::Half) => true,
                        _ => false,
                    };
                    if !same {
                        self.config.show_type = chosen;
                        actions.push(TrayAction::Switch(chosen));
                        actions.push(TrayAction::SaveConfig(self.config));
                    }
                } else if item == IDR_FQ_10 || item == IDR_FQ_20 || item == IDR_FQ_30 || item == IDR_FQ_60 {
                    let minutes: i32 = if item == IDR_FQ_10 {
                        10
                    } else if item == IDR_FQ_20 {
                        20
                    } else if item == IDR_FQ_30 {
                        30
                    } else {
                        60
                    };
                    self.config.freq = minutes;
                    actions.push(TrayAction::RestartTimer(minutes));
                    actions.push(TrayAction::SaveConfig(self.config));
                } else if item == 0 {
                    actions.push(TrayAction::RepostButtonDown);
                }
            },
            TrayEvent::Destroy => {
                actions.push(TrayAction::StopTimer);
                actions.push(TrayAction::RemoveTrayIcon);
                actions.push(TrayAction::Quit);
            },
            TrayEvent::TaskbarCreated => {
                actions.push(TrayAction::ResendCreate);
            },
        }
        assert(actions@ =~= spec_handle(config, event).1);
        actions
    }
}

/// The update timer's period in milliseconds for `minutes`, the minutes
/// taken as an unsigned 32-bit number as the window timer takes them.
pub fn timer_interval_ms(minutes: i32) -> (ms: u32)
    requires
        (minutes as u32) * 60000 <= u32::MAX,
    ensures
        ms == (minutes as u32) * 60000,
{
    (minutes as u32) * 60 * 1000
}

/// The progress reports of a download.
#[derive(Clone, Copy, Debug, PartialEq, Eq)]
pub enum DownloadEvent {
    /// The download failed.
    Failed,
    /// `current` of `total` tiles are in.
    Progress { current: usize, total: isize },
    /// The wallpaper is set.
    Done,
}

/// A text for the user: a balloon bubble, or the icon's tooltip.
#[derive(Clone, Debug)]
pub enum Notice {
    Bubble(String),
    Tip(String),
}

/// The notice for a download event; `now` is the local time already
/// written out ("%Y-%m-%d %H:%M:%S").
pub open spec fn spec_notice(event: DownloadEvent, now: Seq<char>) -> (bool, Seq<char>) {
    match event {
        DownloadEvent::Failed => (true, "图片下载出错，右键击菜单重试 "@ + now),
        DownloadEvent::Progress { current, total } =>
            (false, "正在下载卫星图片("@ + decimal(current as nat) + "/"@ + signed_decimal(total as int) + ")"@),
        DownloadEvent::Done => (false, "壁纸下载完成 "@ + now),
    }
}

/// The number a possibly signed numeral stands for: a leading '-' negates
/// the digits after it.
pub open spec fn signed_value(s: Seq<char>) -> int {
    if s.len() > 0 && s[0] == '-' {
        -decimal_value(s.skip(1))
    } else {
        decimal_value(s)
    }
}

/// Whether `text` reads "正在下载卫星图片(a/b)" with numerals `a` and `b`.
pub open spec fn progress_fields(text: Seq<char>, a: Seq<char>, b: Seq<char>) -> bool {
    &&& is_canonical_numeral(a)
    &&& text == "正在下载卫星图片("@ + a + "/"@ + b + ")"@
}

/// A failure is reported in a bubble, progress and completion in the
/// tooltip; the failure and completion texts end with the time, and the
/// progress text reads back as the tiles done and the tiles in all.
pub proof fn lemma_notices(current: usize, total: isize, now: Seq<char>)
    ensures
        spec_notice(DownloadEvent::Failed, now).0,
        !spec_notice(DownloadEvent::Progress { current, total }, now).0,
        !spec_notice(DownloadEvent::Done, now).0,
        spec_notice(DownloadEvent::Failed, now).1 == "图片下载出错，右键击菜单重试 "@ + now,
        spec_notice(DownloadEvent::Done, now).1 == "壁纸下载完成 "@ + now,
        exists|a: Seq<char>, b: Seq<char>|
            #[trigger] progress_fields(spec_notice(DownloadEvent::Progress { current, total }, now).1, a, b)
            && decimal_value(a) == current && signed_value(b) == total,
{
    lemma_decimal_reads_back(current as nat);
    let b = signed_decimal(total as int);
    if total < 0 {
        lemma_decimal_reads_back((-total) as nat);
        assert(b.skip(1) =~= decimal((-total) as nat));
    } else {
        lemma_decimal_reads_back(total as nat);
        assert(b[0] != '-');
    }
    assert(progress_fields(spec_notice(DownloadEvent::Progress { current, total }, now).1,
        decimal(current as nat), b));
}

/// The notice to show for a download event: a failure in a bubble,
/// progress and completion in the tooltip.
pub fn notice_for(event: DownloadEvent, now: &str) -> (notice: Notice)
    ensures
        match notice {
            Notice::Bubble(text) => spec_notice(event, now@) == (true, text@),
            Notice::Tip(text) => spec_notice(event, now@) == (false, text@),
        },
{
    match event {
        DownloadEvent::Failed => {
            let mut text = String::from_str("图片下载出错，右键击菜单重试 ");
            text.append(now);
            Notice::Bubble(text)
        },
        DownloadEvent::Progress { current, total } => {
            let mut text = String::from_str("正在下载卫星图片(");
            push_decimal(&mut text, current as u64);
            text.append("/");
            push_signed_decimal(&mut text, total as i64);
            text.append(")");
            Notice::Tip(text)
        },
        DownloadEvent::Done => {
            let mut text = String::from_str("壁纸下载完成 ");
            text.append(now);
            Notice::Tip(text)
        },
    }
}

} // verus!
