use balance_monitor::app::{App, Area};
use balance_monitor::config::Config;
use balance_monitor::driver::{check_startup, Action, Event, Input, Monitor, Phase, Startup};
use balance_monitor::wallet::Wallet;
use ratatui::layout::{Constraint, Layout};

const ADDRESS: &str = "9WzDXwBbmkg8ZTbNMqUxvQRAyrZzDsGYdLVL9zYtAWWM";

fn app_for(address: &str, now: u64) -> App {
    let args = vec!["monitor".to_string(), address.to_string()];
    App::default(Config::default(), Wallet::default(&args, now))
}

fn quit() -> Input {
    Input::Key { ch: Some('q'), press: true }
}

#[test]
fn render_short_identifier() {
    let app = app_for("abc", 0);
    let lines = app.render();
    assert_eq!(lines[0], "Wallet: abc");
    assert_eq!(lines[1], "Starting balance: 0.0000 SOL");
    assert_eq!(lines[2], "Current balance: 0.0000 SOL");
    assert_eq!(lines[3], "Last updated: 00:00:00 AM");
}

#[test]
fn scenario_sample_then_unavailable() {
    let t0: u64 = 1_700_000_000;
    let (mut m, a) = Monitor::new(app_for(ADDRESS, t0));
    assert_eq!(a, Action::AcquireTerminal);
    assert_eq!(m.step(Event::TerminalReady), Action::FirstSample);
    assert_eq!(m.step(Event::Sampled { sample: Some(5_000_000_000), now: t0 }), Action::Sample);
    let first = m.app.render();
    assert_eq!(first[0], "Wallet: 9WzD..AWWM");
    assert_eq!(first[1], "Starting balance: 5.0000 SOL");
    assert_eq!(first[2], "Current balance: 5.0000 SOL");
    assert_eq!(first[3], "Last updated: 22:13:20 PM");
    assert_eq!(m.step(Event::Sampled { sample: None, now: t0 + 1 }), Action::Draw);
    let second = m.app.render();
    assert_eq!(second[1], "Starting balance: 5.0000 SOL");
    assert_eq!(second[2], "Current balance: 5.0000 SOL");
    assert_eq!(second[3], "Last updated: 22:13:21 PM");
    assert!(m.app.wallet.updated > t0);
    assert_eq!(m.step(Event::Drawn), Action::WatchInput);
    assert_eq!(m.step(Event::Watched(Input::Nothing)), Action::Sleep);
    assert_eq!(m.step(Event::Slept), Action::Sample);
}

#[test]
fn empty_identifier_fails_validation() {
    assert_eq!(check_startup(true, ""), Startup::InvalidAddress);
    assert_eq!(Startup::InvalidAddress.message(), "Your solana address is not valid!");
}

#[test]
fn unreachable_network_stops_first() {
    assert_eq!(check_startup(false, ADDRESS), Startup::NoConnection);
    assert_eq!(check_startup(false, ""), Startup::NoConnection);
    assert_eq!(Startup::NoConnection.message(), "No internet connection!");
}

#[test]
fn valid_start() {
    assert_eq!(check_startup(true, ADDRESS), Startup::Ready);
    assert_eq!(Startup::Ready.message(), "Everything is OK!");
}

#[test]
fn quit_key_releases_terminal_once() {
    let (mut m, _) = Monitor::new(app_for(ADDRESS, 0));
    let mut releases = 0;
    let events = [
        Event::TerminalReady,
        Event::Sampled { sample: Some(1), now: 0 },
        Event::Sampled { sample: Some(2), now: 1 },
        Event::Drawn,
        Event::Watched(quit()),
        Event::Watched(quit()),
        Event::Failed,
        Event::Released,
        Event::Failed,
        Event::Watched(quit()),
    ];
    for e in events {
        if m.step(e) == Action::ReleaseTerminal {
            releases += 1;
        }
    }
    assert_eq!(releases, 1);
    assert_eq!(m.phase, Phase::Done);
}

#[test]
fn other_keys_do_not_quit() {
    let (mut m, _) = Monitor::new(app_for(ADDRESS, 0));
    m.step(Event::TerminalReady);
    m.step(Event::Sampled { sample: None, now: 0 });
    m.step(Event::Sampled { sample: None, now: 1 });
    m.step(Event::Drawn);
    assert_eq!(m.step(Event::Watched(Input::Key { ch: Some('q'), press: false })), Action::Sleep);
    m.step(Event::Slept);
    m.step(Event::Sampled { sample: None, now: 2 });
    m.step(Event::Drawn);
    assert_eq!(m.step(Event::Watched(Input::Key { ch: Some('x'), press: true })), Action::Sleep);
    assert_eq!(m.app.wallet.lamports, None);
}

#[test]
fn failure_while_polling_releases_terminal() {
    let (mut m, _) = Monitor::new(app_for(ADDRESS, 0));
    m.step(Event::TerminalReady);
    assert_eq!(m.step(Event::Failed), Action::ReleaseTerminal);
    assert_eq!(m.phase, Phase::Exiting);
    assert_eq!(m.step(Event::Released), Action::Stop);
}

#[test]
fn failure_before_terminal_stops_without_release() {
    let (mut m, _) = Monitor::new(app_for(ADDRESS, 0));
    assert_eq!(m.step(Event::Failed), Action::Stop);
    assert_eq!(m.phase, Phase::Aborted);
}

#[test]
fn out_of_order_event_waits() {
    let (mut m, _) = Monitor::new(app_for(ADDRESS, 0));
    assert_eq!(m.step(Event::Drawn), Action::Wait);
    assert_eq!(m.phase, Phase::Starting);
}

fn band_of(area: ratatui::layout::Rect) -> ratatui::layout::Rect {
    Layout::vertical([
        Constraint::Percentage(10),
        Constraint::Percentage(90),
        Constraint::Percentage(10),
    ])
    .split(area)[1]
}

#[test]
fn layout_is_deterministic_and_fills_body() {
    let app = app_for(ADDRESS, 0);
    let area = Area { x: 0, y: 0, width: 80, height: 100 };
    let first = app.calculate_layout(area);
    let second = app.calculate_layout(area);
    assert_eq!(first, second);
    assert_eq!(first.len(), 1);
    assert_eq!(first[0].len(), 2);
    let body = band_of(ratatui::layout::Rect::new(0, 0, 80, 100));
    let (top, bottom) = (first[0][0], first[0][1]);
    assert_eq!(top.height, bottom.height);
    assert_eq!(top.y, body.y);
    assert_eq!(bottom.y, top.y + top.height);
    assert_eq!(top.height + bottom.height, body.height);
    assert_eq!(top.width, 80);
    assert!(body.height < 100);
}

#[test]
fn recorded_starting_balance_skips_first_sample() {
    let mut app = app_for(ADDRESS, 0);
    app.wallet.take_first_sample(Some(77));
    let (mut m, _) = Monitor::new(app);
    assert_eq!(m.step(Event::TerminalReady), Action::Sample);
    assert_eq!(m.phase, Phase::Sampling);
    assert_eq!(m.step(Event::Sampled { sample: Some(80), now: 1 }), Action::Draw);
    assert_eq!(m.app.wallet.initial_lamports, Some(77));
    assert_eq!(m.app.wallet.lamports, Some(80));
}

#[test]
fn layout_cells_stack_within_body_for_many_heights() {
    let app = app_for(ADDRESS, 0);
    for height in 0..120u16 {
        let area = Area { x: 2, y: 3, width: 40, height };
        let cells = app.calculate_layout(area);
        let body = band_of(ratatui::layout::Rect::new(2, 3, 40, height));
        let (top, bottom) = (cells[0][0], cells[0][1]);
        assert!(body.y >= 3 && body.y + body.height <= 3 + height);
        assert_eq!(top.y, body.y);
        assert_eq!(bottom.y, top.y + top.height);
        assert_eq!(top.height + bottom.height, body.height);
        assert!(top.height.abs_diff(bottom.height) <= 1);
        assert_eq!((top.x, top.width, bottom.x, bottom.width), (2, 40, 2, 40));
    }
}
