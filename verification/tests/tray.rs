use himawari_wallpaper::tray::{
    notice_for, timer_interval_ms, Config, DownloadEvent, Notice, ShowType, Tray, TrayAction, TrayEvent,
    IDR_EXIT, IDR_FQ_10, IDR_FQ_20, IDR_FQ_30, IDR_FQ_60, IDR_HOME, IDR_TP_FULL, IDR_TP_HALF,
};

fn tray() -> Tray {
    Tray::new(Config { show_type: ShowType::Full, freq: 30 })
}

#[test]
fn create_starts_saved_layout() {
    let mut t = Tray::new(Config { show_type: ShowType::Half, freq: 60 });
    let actions = t.handle(TrayEvent::Create);
    assert_eq!(
        actions,
        vec![
            TrayAction::AddTrayIcon,
            TrayAction::BuildMenu,
            TrayAction::Switch(ShowType::Half),
            TrayAction::RestartTimer(60),
            TrayAction::ShowStartedBubble,
        ]
    );
}

#[test]
fn mouse_events() {
    let mut t = tray();
    assert_eq!(t.handle(TrayEvent::TrayDoubleClick), vec![TrayAction::CloseWindow]);
    assert_eq!(t.handle(TrayEvent::TrayButtonDown), vec![TrayAction::ShowMenu]);
    assert_eq!(t.handle(TrayEvent::MenuCommand(IDR_EXIT)), vec![TrayAction::CloseWindow]);
    assert_eq!(t.handle(TrayEvent::MenuCommand(IDR_HOME)), vec![TrayAction::OpenHomePage]);
    assert_eq!(t.handle(TrayEvent::MenuCommand(0)), vec![TrayAction::RepostButtonDown]);
    assert_eq!(t.handle(TrayEvent::MenuCommand(999)), vec![]);
    assert_eq!(t.config, Config { show_type: ShowType::Full, freq: 30 });
}

#[test]
fn layout_items() {
    let mut t = tray();
    assert_eq!(t.handle(TrayEvent::MenuCommand(IDR_TP_FULL)), vec![]);
    let next = Config { show_type: ShowType::Half, freq: 30 };
    assert_eq!(
        t.handle(TrayEvent::MenuCommand(IDR_TP_HALF)),
        vec![TrayAction::Switch(ShowType::Half), TrayAction::SaveConfig(next)]
    );
    assert_eq!(t.config, next);
    assert_eq!(t.handle(TrayEvent::MenuCommand(IDR_TP_HALF)), vec![]);
}

#[test]
fn frequency_items() {
    let mut t = tray();
    for (item, minutes, saved) in [(IDR_FQ_10, 10, 10), (IDR_FQ_20, 20, 20), (IDR_FQ_30, 30, 30), (IDR_FQ_60, 60, 60)] {
        let next = Config { show_type: ShowType::Full, freq: saved };
        assert_eq!(
            t.handle(TrayEvent::MenuCommand(item)),
            vec![TrayAction::RestartTimer(minutes), TrayAction::SaveConfig(next)]
        );
        assert_eq!(t.config.freq, saved);
    }
}

#[test]
fn destroy_and_shell_restart() {
    let mut t = tray();
    assert_eq!(
        t.handle(TrayEvent::Destroy),
        vec![TrayAction::StopTimer, TrayAction::RemoveTrayIcon, TrayAction::Quit]
    );
    assert_eq!(t.handle(TrayEvent::TaskbarCreated), vec![TrayAction::ResendCreate]);
}

#[test]
fn timer_periods() {
    assert_eq!(timer_interval_ms(10), 600_000);
    assert_eq!(timer_interval_ms(60), 3_600_000);
    assert_eq!(timer_interval_ms(0), 0);
}

#[test]
fn download_notices() {
    match notice_for(DownloadEvent::Progress { current: 3, total: 16 }, "") {
        Notice::Tip(text) => assert_eq!(text, "正在下载卫星图片(3/16)"),
        other => panic!("{:?}", other),
    }
    match notice_for(DownloadEvent::Progress { current: 0, total: -2 }, "") {
        Notice::Tip(text) => assert_eq!(text, "正在下载卫星图片(0/-2)"),
        other => panic!("{:?}", other),
    }
    match notice_for(DownloadEvent::Failed, "2019-03-05 23:10:00") {
        Notice::Bubble(text) => assert_eq!(text, "图片下载出错，右键击菜单重试 2019-03-05 23:10:00"),
        other => panic!("{:?}", other),
    }
    match notice_for(DownloadEvent::Done, "2019-03-05 23:10:00") {
        Notice::Tip(text) => assert_eq!(text, "壁纸下载完成 2019-03-05 23:10:00"),
        other => panic!("{:?}", other),
    }
}
