use aex_clock::command::CommandResult;
use aex_clock::config::{Color, Config, KeyActions, Keybinds, RawConfig, RawThemes};
use aex_clock::keys::{Event, KeyCode, KeyEvent, KeyEventKind, KeyModifiers};
use aex_clock::ui::{Block, Borders, Line, Padding, Rect, Span, Style};
use aex_clock::config::BorderType;
use aex_clock::widgets::content_menu::EnContentMenuItem;
use aex_clock::widgets::net_connect::{Mode, NetAction, NetConnect, INFO_VISIBLE_HEIGHT};
use aex_clock::widgets::net_widget::{
    center, make_info_line, make_scroll_text, tier_of, SignalTier, INFO_HEIGHT,
};
use aex_clock::widgets::nmcli::MAX_NETWORKS;

fn config() -> Config {
    let themes = RawThemes {
        borders_on: true,
        border_color: "white".into(),
        border_style: "rounded".into(),
        nav_selected_fg_color: "black".into(),
        nav_selected_bg_color: "yellow".into(),
        content_selected_color: "green".into(),
        bg_color: "black".into(),
        fg_color: "gray".into(),
        scroll_color: "cyan".into(),
        bar_side_color: "blue".into(),
        bar_filled_color: "magenta".into(),
        bar_empty_color: "darkgray".into(),
        bar_selected_side_color: "red".into(),
        bar_selected_filled_color: "yellow".into(),
        bar_selected_empty_color: "white".into(),
    };
    let keybinds = Keybinds {
        nav_up: "shift+up".into(),
        nav_down: "shift+down".into(),
        content_up: "up".into(),
        content_down: "down".into(),
        content_right: "right".into(),
        content_left: "left".into(),
        accept: "enter".into(),
        info: "i".into(),
        cancel: "esc".into(),
        quit: "q".into(),
    };
    Config::load(RawConfig { themes, keybinds }).unwrap()
}

fn press(code: KeyCode) -> Event {
    Event::Key(KeyEvent::press(code))
}

fn networks(n: usize) -> Vec<(String, u8)> {
    (0..n).map(|i| (format!("net{}", i), (100 - i) as u8)).collect()
}

fn info(n: usize) -> Vec<String> {
    (0..n).map(|i| format!("line {}", i)).collect()
}

fn pane_with(n: usize, lines: usize) -> NetConnect {
    let mut pane = NetConnect::new();
    pane.refresh(networks(n), "net1".into(), info(lines));
    pane
}

fn rule() -> String {
    "\u{23bd}".repeat(32)
}

fn ok(stdout: &str) -> CommandResult {
    CommandResult::Finished { success: true, stdout: stdout.into(), stderr: String::new() }
}

#[test]
fn a_new_pane_is_empty_and_browsing() {
    let pane = NetConnect::new();
    assert_eq!(pane.selected_ssid(), 0);
    assert!(pane.wifi_list().is_empty());
    assert!(!pane.started_refresh());
    assert_eq!(pane.connected_ssid(), "");
    assert_eq!(pane.mode(), Mode::Browsing);
    assert_eq!(pane.prompt_ssid(), "");
    assert_eq!(pane.prompt_pass(), "");
    assert!(pane.connection_info().is_empty());
    assert_eq!(pane.scroll_offset(), 0);
}

#[test]
fn moving_down_once_for_each_entry_comes_round() {
    for n in 1..8usize {
        for start in 0..n {
            let mut pane = pane_with(n, 0);
            for _ in 0..start {
                pane.move_selected_down();
            }
            assert_eq!(pane.selected_ssid(), start);
            for _ in 0..n {
                pane.move_selected_down();
            }
            assert_eq!(pane.selected_ssid(), start);
            for _ in 0..n {
                pane.move_selected_up();
            }
            assert_eq!(pane.selected_ssid(), start);
        }
    }
}

#[test]
fn the_selection_wraps_at_both_ends() {
    let mut pane = pane_with(3, 0);
    pane.move_selected_up();
    assert_eq!(pane.selected_ssid(), 2);
    pane.move_selected_down();
    assert_eq!(pane.selected_ssid(), 0);
    pane.move_selected_down();
    assert_eq!(pane.selected_ssid(), 1);
    pane.move_selected_up();
    assert_eq!(pane.selected_ssid(), 0);
}

#[test]
fn an_empty_list_keeps_the_selection_at_zero() {
    let mut pane = NetConnect::new();
    pane.move_selected_down();
    assert_eq!(pane.selected_ssid(), 0);
    pane.move_selected_up();
    assert_eq!(pane.selected_ssid(), 0);
    let c = config();
    assert_eq!(pane.handle_events(&press(KeyCode::Up), &c), NetAction::Nothing);
    assert_eq!(pane.selected_ssid(), 0);
}

#[test]
fn the_refresh_starts_once() {
    let mut pane = NetConnect::new();
    assert!(!pane.started_refresh());
    assert!(pane.start_auto_refresh());
    assert!(pane.started_refresh());
    assert!(!pane.start_auto_refresh());
    assert!(pane.started_refresh());
    assert!(!pane.start_auto_refresh());
}

#[test]
fn the_sample_listing_is_read() {
    let list = NetConnect::make_wifi_list("SSID1:80\nSSID2:45\nSSID3:10\n");
    assert_eq!(
        list,
        vec![("SSID1".to_string(), 80), ("SSID2".to_string(), 45), ("SSID3".to_string(), 10)]
    );
}

#[test]
fn the_listing_is_sorted_by_signal() {
    let list = NetConnect::make_wifi_list("a:10\nb:80\nc:45\n");
    assert_eq!(list, vec![("b".to_string(), 80), ("c".to_string(), 45), ("a".to_string(), 10)]);
}

#[test]
fn networks_of_equal_signal_are_all_listed_in_their_order() {
    let list = NetConnect::make_wifi_list("a:50\nb:70\nc:50\nd:70\ne:50\n");
    assert_eq!(
        list,
        vec![
            ("b".to_string(), 70),
            ("d".to_string(), 70),
            ("a".to_string(), 50),
            ("c".to_string(), 50),
            ("e".to_string(), 50),
        ]
    );
}

#[test]
fn the_listing_is_capped() {
    let mut text = String::new();
    for i in 0..25 {
        text.push_str(&format!("net{}:{}\n", i, i * 3));
    }
    let list = NetConnect::make_wifi_list(&text);
    assert_eq!(MAX_NETWORKS, 10);
    assert_eq!(list.len(), MAX_NETWORKS);
    for (k, entry) in list.iter().enumerate() {
        let i = 24 - k;
        assert_eq!(entry, &(format!("net{}", i), (i * 3) as u8));
    }
}

#[test]
fn lines_that_tell_of_no_network_are_skipped() {
    let text = "nocolon\n:50\nx:abc\ny:256\nz:+7\n  spaced  :  42  \n\nq:\nw:1:2\nlast:0";
    let list = NetConnect::make_wifi_list(text);
    assert_eq!(
        list,
        vec![("spaced".to_string(), 42), ("z".to_string(), 7), ("last".to_string(), 0)]
    );
    assert!(NetConnect::make_wifi_list("").is_empty());
}

fn expected_wifi_list(stdout: &str) -> Vec<(String, u8)> {
    let mut networks: Vec<(String, u8)> = stdout
        .lines()
        .filter_map(|line| {
            let mut parts = line.splitn(2, ':');
            let ssid = parts.next()?.trim();
            let signal_str = parts.next()?.trim();
            let signal = signal_str.parse::<u8>().ok()?;
            if ssid.is_empty() {
                None
            } else {
                Some((ssid.to_string(), signal))
            }
        })
        .collect();
    networks.sort_by(|a, b| b.1.cmp(&a.1));
    networks.into_iter().take(10).collect()
}

#[test]
fn the_listing_agrees_with_a_stable_sort() {
    let texts = [
        "SSID1:80\nSSID2:45\nSSID3:10\n",
        "a:1\r\nb:2\r\nc:3\r\nd:2\r\ne:1\r\nf:3\r\ng:9\r\nh:9\r\ni:0\r\nj:5\r\nk:5\r\nl:7\r\n",
        "x\ny:\n:1\n é : 100 \n\u{3000}wide\u{3000}:\t12\t\n",
        "only:255",
        "",
    ];
    for text in texts {
        assert_eq!(NetConnect::make_wifi_list(text), expected_wifi_list(text));
    }
}

#[test]
fn signal_tiers_have_inclusive_bounds() {
    assert_eq!(tier_of(0), SignalTier::Low);
    assert_eq!(tier_of(33), SignalTier::Low);
    assert_eq!(tier_of(34), SignalTier::Medium);
    assert_eq!(tier_of(67), SignalTier::Medium);
    assert_eq!(tier_of(68), SignalTier::High);
    assert_eq!(tier_of(100), SignalTier::High);
    assert_eq!(tier_of(255), SignalTier::High);
}

#[test]
fn each_tier_has_its_bars() {
    let pane = NetConnect::new();
    assert_eq!(pane.format_signal(0), "\u{2581}\u{2581}\u{2581}");
    assert_eq!(pane.format_signal(33), "\u{2581}\u{2581}\u{2581}");
    assert_eq!(pane.format_signal(34), "\u{2581}\u{2582}\u{2583}");
    assert_eq!(pane.format_signal(67), "\u{2581}\u{2582}\u{2583}");
    assert_eq!(pane.format_signal(68), "\u{2583}\u{2585}\u{2587}");
    assert_eq!(pane.format_signal(100), "\u{2583}\u{2585}\u{2587}");
}

#[test]
fn cancel_closes_the_prompt_and_connects_nothing() {
    let c = config();
    let mut pane = pane_with(3, 0);
    pane.move_selected_down();
    assert_eq!(pane.handle_events(&press(KeyCode::Enter), &c), NetAction::Nothing);
    assert_eq!(pane.mode(), Mode::PasswordPrompt);
    assert_eq!(pane.prompt_ssid(), "net1");
    assert_eq!(pane.prompt_pass(), "");
    for ch in "secret".chars() {
        assert_eq!(pane.handle_events(&press(KeyCode::Char(ch)), &c), NetAction::Nothing);
    }
    assert_eq!(pane.prompt_pass(), "secret");
    assert_eq!(pane.handle_events(&press(KeyCode::Esc), &c), NetAction::Nothing);
    assert_eq!(pane.mode(), Mode::Browsing);
    assert_eq!(pane.prompt_pass(), "");
    assert_eq!(pane.prompt_ssid(), "");
    assert_eq!(pane.selected_ssid(), 1);
}

#[test]
fn the_info_key_closes_the_prompt_too() {
    let c = config();
    let mut pane = pane_with(2, 0);
    pane.open_prompt();
    // the info key is a character: it closes the prompt and is not typed
    assert_eq!(pane.handle_events(&press(KeyCode::Char('i')), &c), NetAction::Nothing);
    assert_eq!(pane.mode(), Mode::Browsing);
    assert_eq!(pane.prompt_pass(), "");
}

#[test]
fn accept_hands_back_the_connection() {
    let c = config();
    let mut pane = pane_with(3, 0);
    pane.handle_events(&press(KeyCode::Enter), &c);
    for ch in "pw1".chars() {
        pane.handle_events(&press(KeyCode::Char(ch)), &c);
    }
    let action = pane.handle_events(&press(KeyCode::Enter), &c);
    assert_eq!(action, NetAction::Connect { ssid: "net0".into(), password: "pw1".into() });
    assert_eq!(pane.mode(), Mode::Browsing);
    assert_eq!(pane.prompt_pass(), "");
    assert_eq!(pane.prompt_ssid(), "");
}

#[test]
fn accept_without_a_password_connects_nothing() {
    let c = config();
    let mut pane = pane_with(3, 0);
    pane.handle_events(&press(KeyCode::Enter), &c);
    assert_eq!(pane.handle_events(&press(KeyCode::Enter), &c), NetAction::Nothing);
    assert_eq!(pane.mode(), Mode::Browsing);
    let mut direct = pane_with(3, 0);
    direct.open_prompt();
    assert_eq!(direct.accept_connect(), NetAction::Nothing);
    assert_eq!(NetConnect::connect_arguments("net0", ""), None);
}

#[test]
fn backspace_takes_the_last_character_off() {
    let c = config();
    let mut pane = pane_with(1, 0);
    pane.open_prompt();
    pane.handle_events(&press(KeyCode::Backspace), &c);
    assert_eq!(pane.prompt_pass(), "");
    for ch in "abé".chars() {
        pane.handle_events(&press(KeyCode::Char(ch)), &c);
    }
    assert_eq!(pane.prompt_pass(), "abé");
    pane.handle_events(&press(KeyCode::Backspace), &c);
    assert_eq!(pane.prompt_pass(), "ab");
    pane.handle_events(&press(KeyCode::Backspace), &c);
    pane.handle_events(&press(KeyCode::Backspace), &c);
    pane.handle_events(&press(KeyCode::Backspace), &c);
    assert_eq!(pane.prompt_pass(), "");
    assert_eq!(pane.mode(), Mode::PasswordPrompt);
}

#[test]
fn the_prompt_of_an_empty_list_names_no_network() {
    let mut pane = NetConnect::new();
    pane.open_prompt();
    assert_eq!(pane.mode(), Mode::PasswordPrompt);
    assert_eq!(pane.prompt_ssid(), "");
}

#[test]
fn the_prompt_keeps_the_list_still() {
    let c = config();
    let mut pane = pane_with(3, 20);
    pane.open_prompt();
    pane.handle_events(&press(KeyCode::Down), &c);
    pane.handle_events(&press(KeyCode::Up), &c);
    pane.handle_events(&press(KeyCode::Down), &c);
    assert_eq!(pane.selected_ssid(), 0);
    assert_eq!(pane.scroll_offset(), 0);
    assert_eq!(pane.mode(), Mode::PasswordPrompt);
}

#[test]
fn the_scroll_offset_stays_within_its_bounds() {
    let c = config();
    let mut pane = pane_with(3, 20);
    assert_eq!(INFO_VISIBLE_HEIGHT, 12);
    pane.handle_events(&press(KeyCode::Char('i')), &c);
    assert_eq!(pane.mode(), Mode::InfoOverlay);
    for step in 0..100usize {
        pane.handle_events(&press(KeyCode::Down), &c);
        assert!(pane.scroll_offset() <= 8);
        assert_eq!(pane.scroll_offset(), if step + 1 < 8 { step + 1 } else { 8 });
    }
    assert_eq!(pane.selected_ssid(), 0);
    for _ in 0..100 {
        pane.handle_events(&press(KeyCode::Up), &c);
    }
    assert_eq!(pane.scroll_offset(), 0);
}

#[test]
fn a_short_panel_does_not_scroll() {
    let mut pane = pane_with(1, 12);
    pane.open_info();
    pane.move_scrollbar_down();
    assert_eq!(pane.scroll_offset(), 0);
    let mut longer = pane_with(1, 13);
    longer.open_info();
    longer.move_scrollbar_down();
    longer.move_scrollbar_down();
    assert_eq!(longer.scroll_offset(), 1);
    longer.move_scrollbar_up();
    longer.move_scrollbar_up();
    assert_eq!(longer.scroll_offset(), 0);
}

#[test]
fn closing_the_panel_scrolls_it_back() {
    let c = config();
    for closing in [KeyCode::Enter, KeyCode::Esc, KeyCode::Char('i')] {
        let mut pane = pane_with(3, 30);
        pane.handle_events(&press(KeyCode::Char('i')), &c);
        pane.handle_events(&press(KeyCode::Down), &c);
        pane.handle_events(&press(KeyCode::Down), &c);
        assert_eq!(pane.scroll_offset(), 2);
        assert_eq!(pane.handle_events(&press(closing), &c), NetAction::Nothing);
        assert_eq!(pane.mode(), Mode::Browsing);
        assert_eq!(pane.scroll_offset(), 0);
    }
}

#[test]
fn only_presses_count() {
    let c = config();
    let mut pane = pane_with(3, 0);
    for kind in [KeyEventKind::Release, KeyEventKind::Repeat] {
        let event = Event::Key(KeyEvent {
            code: KeyCode::Down,
            modifiers: KeyModifiers { shift: false, control: false, alt: false, other: false },
            kind,
        });
        assert_eq!(pane.handle_events(&event, &c), NetAction::Nothing);
        assert_eq!(pane.selected_ssid(), 0);
    }
    assert_eq!(pane.handle_events(&Event::Other, &c), NetAction::Nothing);
    assert_eq!(pane.selected_ssid(), 0);
    pane.handle_events(&press(KeyCode::Down), &c);
    assert_eq!(pane.selected_ssid(), 1);
}

#[test]
fn a_key_bound_twice_takes_the_first_action() {
    let mut pane = pane_with(3, 0);
    let both = KeyActions {
        nav_up: false,
        nav_down: false,
        content_up: true,
        content_down: true,
        content_left: false,
        content_right: false,
        accept: true,
        info: true,
        cancel: true,
        quit: false,
    };
    pane.apply_key(&KeyEvent::press(KeyCode::Char('x')), &both);
    assert_eq!(pane.selected_ssid(), 2);
    assert_eq!(pane.mode(), Mode::Browsing);
    pane.open_prompt();
    // in the prompt accept comes before cancel
    let mut typed = pane.clone();
    typed.apply_key(&KeyEvent::press(KeyCode::Char('p')), &KeyActions { accept: false, cancel: false, info: false, ..both });
    assert_eq!(typed.prompt_pass(), "p");
    assert_eq!(
        typed.apply_key(&KeyEvent::press(KeyCode::Char('x')), &both),
        NetAction::Connect { ssid: "net2".into(), password: "p".into() }
    );
}

#[test]
fn a_refresh_replaces_the_data_and_keeps_the_prompt() {
    let c = config();
    let mut pane = pane_with(5, 30);
    for _ in 0..4 {
        pane.move_selected_down();
    }
    pane.handle_events(&press(KeyCode::Enter), &c);
    pane.handle_events(&press(KeyCode::Char('x')), &c);
    pane.refresh(networks(2), "other".into(), info(3));
    assert_eq!(pane.mode(), Mode::PasswordPrompt);
    assert_eq!(pane.prompt_ssid(), "net4");
    assert_eq!(pane.prompt_pass(), "x");
    assert_eq!(pane.wifi_list(), &networks(2));
    assert_eq!(pane.connected_ssid(), "other");
    assert_eq!(pane.connection_info(), &info(3));
    // the selection is brought back into the shorter list
    assert_eq!(pane.selected_ssid(), 1);
    pane.refresh(Vec::new(), String::new(), Vec::new());
    assert_eq!(pane.selected_ssid(), 0);
}

#[test]
fn a_refresh_brings_the_scroll_offset_back() {
    let mut pane = pane_with(1, 40);
    pane.open_info();
    for _ in 0..40 {
        pane.move_scrollbar_down();
    }
    assert_eq!(pane.scroll_offset(), 28);
    pane.refresh(networks(1), String::new(), info(20));
    assert_eq!(pane.scroll_offset(), 8);
    pane.refresh(networks(1), String::new(), info(5));
    assert_eq!(pane.scroll_offset(), 0);
    assert_eq!(pane.mode(), Mode::InfoOverlay);
}

#[test]
fn a_copy_is_in_the_same_state() {
    let mut pane = pane_with(4, 20);
    pane.move_selected_down();
    pane.open_prompt();
    let copy = pane.clone();
    assert_eq!(copy.selected_ssid(), 1);
    assert_eq!(copy.wifi_list(), pane.wifi_list());
    assert_eq!(copy.connection_info(), pane.connection_info());
    assert_eq!(copy.mode(), Mode::PasswordPrompt);
    assert_eq!(copy.prompt_ssid(), "net1");
    assert_eq!(copy.connected_ssid(), "net1");
}

#[test]
fn the_connected_network_is_the_first_active_line() {
    assert_eq!(NetConnect::get_connected_ssid(&ok("no:foo\nyes:bar\nyes:baz\n")), "bar");
    assert_eq!(NetConnect::get_connected_ssid(&ok("no:foo\n")), "");
    assert_eq!(NetConnect::get_connected_ssid(&ok("")), "");
    assert_eq!(NetConnect::get_connected_ssid(&ok("yes\nyes:a:b \n")), "a:b ");
    assert_eq!(NetConnect::get_connected_ssid(&ok("yes:\n")), "");
    assert_eq!(NetConnect::get_connected_ssid(&ok(" yes:x\nYes:y\nyes:z\r\n")), "z");
    let failed = CommandResult::Finished {
        success: false,
        stdout: "yes:bar\n".into(),
        stderr: String::new(),
    };
    assert_eq!(NetConnect::get_connected_ssid(&failed), "");
    let not_run = CommandResult::Failed { error: "not found".into() };
    assert_eq!(NetConnect::get_connected_ssid(&not_run), "");
}

const REPORT: &str = "GENERAL.DEVICE:                         wlan0
GENERAL.TYPE:                           wifi
GENERAL.HWADDR:                         AA:BB:CC:DD:EE:FF
GENERAL.CONNECTION:                     Home
IP4.ADDRESS[1]:                         192.168.1.5/24
IP4.GATEWAY:                            192.168.1.1
IP4.DNS[1]:                             1.1.1.1
IP4.DNS[2]:                             8.8.8.8
IP6.ADDRESS[1]:                         fe80::1/64

GENERAL.DEVICE:                         lo
GENERAL.TYPE:                           loopback
IP4.ADDRESS[1]:                         127.0.0.1/8

GENERAL.DEVICE:                         eth0
GENERAL.TYPE:                           ethernet
GENERAL.CONNECTION:                     --
";

#[test]
fn the_details_are_laid_out_device_by_device() {
    let lines = NetConnect::get_connection_info(&ok(REPORT));
    let expected: Vec<String> = vec![
        "===> wlan0 (wifi)".into(),
        rule(),
        "Device :  ".into(),
        "wlan0".into(),
        rule(),
        "Type :  ".into(),
        "wifi".into(),
        rule(),
        "Name :  ".into(),
        "Home".into(),
        rule(),
        "IPv4 :  ".into(),
        "192.168.1.5/24".into(),
        rule(),
        "IPv4 Gateway :  ".into(),
        "192.168.1.1".into(),
        rule(),
        "DNS :  ".into(),
        "1.1.1.1".into(),
        rule(),
        "DNS :  ".into(),
        "8.8.8.8".into(),
        rule(),
        "".into(),
        "===> eth0 (ethernet)".into(),
        rule(),
        "Device :  ".into(),
        "eth0".into(),
        rule(),
        "Type :  ".into(),
        "ethernet".into(),
        rule(),
        "Name :  ".into(),
        "--".into(),
        rule(),
        "".into(),
        "".into(),
        "".into(),
    ];
    assert_eq!(lines, expected);
}

#[test]
fn details_that_cannot_be_had_are_one_line() {
    let failed = CommandResult::Finished {
        success: false,
        stdout: REPORT.into(),
        stderr: "boom".into(),
    };
    assert_eq!(
        NetConnect::get_connection_info(&failed),
        vec!["Failed to get connection info.".to_string()]
    );
    let not_run = CommandResult::Failed { error: "not found".into() };
    assert_eq!(
        NetConnect::get_connection_info(&not_run),
        vec!["Failed to get connection info.".to_string()]
    );
    assert_eq!(NetConnect::get_connection_info(&ok("")), vec![String::new(), String::new()]);
}

fn expected_connection_info(stdout: &str) -> Vec<String> {
    let field_map = [
        ("GENERAL.DEVICE", "Device"),
        ("GENERAL.TYPE", "Type"),
        ("GENERAL.CONNECTION", "Name"),
        ("IP4.ADDRESS", "IPv4"),
        ("IP4.GATEWAY", "IPv4 Gateway"),
        ("IP4.DNS", "DNS"),
    ];
    let mut devices = Vec::new();
    let mut current_block = Vec::new();
    for line in stdout.lines() {
        if line.starts_with("GENERAL.DEVICE") && !current_block.is_empty() {
            devices.push(current_block.clone());
            current_block.clear();
        }
        current_block.push(line);
    }
    if !current_block.is_empty() {
        devices.push(current_block);
    }
    let mut results = Vec::new();
    for device in devices {
        let mut device_type = "";
        let mut device_name = "";
        for line in &device {
            if line.starts_with("GENERAL.TYPE:") {
                device_type = line.splitn(2, ':').nth(1).unwrap_or("").trim();
            }
            if line.starts_with("GENERAL.DEVICE:") {
                device_name = line.splitn(2, ':').nth(1).unwrap_or("").trim();
            }
        }
        if device_type != "wifi" && device_type != "ethernet" {
            continue;
        }
        results.push(format!("===> {} ({})", device_name, device_type));
        results.push(rule());
        for (field, label) in &field_map {
            for line in &device {
                if line.starts_with(field) {
                    let parts: Vec<&str> = line.splitn(2, ':').collect();
                    if parts.len() == 2 {
                        let value = parts[1].trim();
                        results.push(format!("{} :  ", label));
                        results.push(value.to_string());
                        results.push(rule());
                    }
                }
            }
        }
        results.push(String::new());
    }
    results.push(String::new());
    results.push(String::new());
    results
}

#[test]
fn the_details_agree_with_a_block_by_block_reading() {
    let texts = [
        REPORT.to_string(),
        REPORT.replace('\n', "\r\n"),
        "GENERAL.TYPE: wifi\nGENERAL.DEVICE: late\nIP4.DNS\nIP4.DNS[1]:\n".to_string(),
        "junk\nGENERAL.TYPE:wifi\nGENERAL.TYPE:  ethernet \nGENERAL.DEVICETYPE: odd\nGENERAL.DEVICE:x\nGENERAL.TYPE:wifi".to_string(),
        "GENERAL.DEVICE:a\nGENERAL.DEVICE:b\nGENERAL.TYPE:wifi\n\n\nGENERAL.DEVICE:c\nGENERAL.TYPE:bridge\n".to_string(),
        "\n".to_string(),
        "GENERAL.TYPE: wifi".to_string(),
    ];
    for text in texts {
        assert_eq!(
            NetConnect::get_connection_info(&ok(&text)),
            expected_connection_info(&text),
            "input {:?}",
            text
        );
    }
}

#[test]
fn the_outcome_of_a_connection_is_put_in_words() {
    assert_eq!(
        NetConnect::connect_arguments("Home", "pw"),
        Some(vec![
            "device".to_string(),
            "wifi".to_string(),
            "connect".to_string(),
            "Home".to_string(),
            "password".to_string(),
            "pw".to_string(),
        ])
    );
    assert_eq!(NetConnect::connect_outcome("Home", &ok("fine")), "Connected to Home");
    let failed = CommandResult::Finished {
        success: false,
        stdout: String::new(),
        stderr: "  Error: bad secrets \n".into(),
    };
    assert_eq!(
        NetConnect::connect_outcome("Home", &failed),
        "Failed to connect to Home: Error: bad secrets"
    );
    let not_run = CommandResult::Failed { error: "No such file".into() };
    assert_eq!(
        NetConnect::connect_outcome("Home", &not_run),
        "Failed to execute nmcli: No such file"
    );
}

#[test]
fn long_names_are_cut_with_an_ellipsis() {
    let mut pane = NetConnect::new();
    pane.refresh(Vec::new(), " MyVeryLongNetwork ".into(), Vec::new());
    assert_eq!(pane.format_ssid_string(&"short".to_string(), 5), "short");
    assert_eq!(pane.format_ssid_string(&"short".to_string(), 10), "short");
    assert_eq!(pane.format_ssid_string(&"shorter".to_string(), 5), "short...");
    assert_eq!(pane.format_ssid_string(&"MyVeryLongNetwork".to_string(), 6), "* MyVery...");
    assert_eq!(pane.format_ssid_string(&"MyVeryLongNetwork".to_string(), 17), "MyVeryLongNetwork");
    assert_eq!(pane.format_ssid_string(&"MyVeryLongNetworks".to_string(), 6), "MyVery...");
    assert_eq!(pane.format_ssid_string(&"éééé".to_string(), 2), "éé...");
    assert_eq!(pane.format_ssid_string(&"x".to_string(), 0), "...");
    assert_eq!(pane.format_ssid_string(&"".to_string(), 0), "");
}

fn text_of(line: &Line) -> String {
    line.spans.iter().map(|s| s.content.clone()).collect()
}

#[test]
fn a_network_line_has_the_name_left_and_the_bars_right() {
    let pane = pane_with(0, 0);
    let line = pane.make_wifi_line(&"Home".to_string(), 80, 20);
    assert_eq!(
        line,
        Line {
            spans: vec![Span {
                content: "Home             \u{2583}\u{2585}\u{2587}".into(),
                style: Style { fg: None, bg: None, bold: false },
            }],
            style: Style { fg: None, bg: None, bold: false },
        }
    );
    assert_eq!(text_of(&line).chars().count(), 20);
    // a name that does not fit is cut to the width less seven
    let cut = pane.make_wifi_line(&"ABCDEFGHIJKLMNOPQRSTUVWXYZ".to_string(), 10, 20);
    assert_eq!(text_of(&cut), "ABCDEFGHIJKLM... \u{2581}\u{2581}\u{2581}");
    // where nothing is left one space stands between the two
    let tight = pane.make_wifi_line(&"abcdef".to_string(), 50, 6);
    assert_eq!(text_of(&tight), "... \u{2581}\u{2582}\u{2583}");
    let zero = pane.make_wifi_line(&"ab".to_string(), 50, 0);
    assert_eq!(text_of(&zero), "... \u{2581}\u{2582}\u{2583}");
}

fn list_block() -> Block {
    Block {
        title: None,
        borders: Borders { top: true, right: true, bottom: true, left: true },
        border_type: BorderType::Rounded,
        border_style: Style { fg: Some(Color::White), bg: None, bold: false },
        style: Style { fg: None, bg: None, bold: false },
        padding: Padding { left: 1, right: 1, top: 0, bottom: 0 },
    }
}

#[test]
fn the_list_shows_the_connected_network_and_one_line_for_each() {
    let c = config();
    let mut pane = pane_with(3, 0);
    pane.move_selected_down();
    let area = Rect { x: 2, y: 1, width: 24, height: 10 };
    assert!(pane.fits_in(area));
    let widget = pane.get_widget(area, &c);
    assert!(!widget.show_overlay);
    assert_eq!(widget.overlay_area, Rect { x: 0, y: 0, width: 0, height: 0 });
    match &widget.overlay {
        EnContentMenuItem::Paragraph(p) => {
            assert!(p.lines.is_empty());
            assert_eq!(p.style, Style { fg: None, bg: Some(Color::Black), bold: false });
            assert_eq!(p.block, None);
        }
        EnContentMenuItem::List(_) => panic!("the overlay is a paragraph"),
    }
    let list = match widget.content {
        EnContentMenuItem::List(list) => list,
        EnContentMenuItem::Paragraph(_) => panic!("the content is a list"),
    };
    assert_eq!(list.block, Some(list_block()));
    assert_eq!(list.items.len(), 5);
    assert_eq!(
        list.items[0],
        Line {
            spans: vec![Span {
                content: "Connected to: net1  ".into(),
                style: Style { fg: Some(Color::Gray), bg: None, bold: false },
            }],
            style: Style { fg: None, bg: None, bold: false },
        }
    );
    assert_eq!(text_of(&list.items[1]), " ".repeat(20));
    assert_eq!(list.items[1].style, Style { fg: None, bg: None, bold: false });
    assert_eq!(text_of(&list.items[2]), "net0             \u{2583}\u{2585}\u{2587}");
    assert_eq!(list.items[2].style, Style { fg: Some(Color::Gray), bg: None, bold: false });
    assert_eq!(list.items[3].style, Style { fg: Some(Color::Green), bg: None, bold: false });
    assert_eq!(list.items[4].style, Style { fg: Some(Color::Gray), bg: None, bold: false });
}

#[test]
fn the_prompt_masks_the_password() {
    let c = config();
    let mut pane = pane_with(3, 0);
    pane.handle_events(&press(KeyCode::Enter), &c);
    for ch in "sécret".chars() {
        pane.handle_events(&press(KeyCode::Char(ch)), &c);
    }
    let area = Rect { x: 10, y: 5, width: 30, height: 20 };
    assert!(pane.fits_in(area));
    let widget = pane.get_widget(area, &c);
    assert!(widget.show_overlay);
    assert_eq!(widget.overlay_area, Rect { x: 13, y: 8, width: 24, height: 3 });
    let prompt = match widget.overlay {
        EnContentMenuItem::Paragraph(p) => p,
        EnContentMenuItem::List(_) => panic!("the prompt is a paragraph"),
    };
    assert_eq!(prompt.style, Style { fg: None, bg: Some(Color::Black), bold: false });
    assert!(!prompt.centered);
    let block = prompt.block.unwrap();
    assert_eq!(block.title, Some("Password".to_string()));
    assert_eq!(block.style, Style { fg: Some(Color::Gray), bg: Some(Color::Black), bold: false });
    assert_eq!(block.padding, Padding { left: 0, right: 0, top: 0, bottom: 0 });
    assert_eq!(prompt.lines.len(), 3);
    assert_eq!(text_of(&prompt.lines[0]), format!("{:<27}", "******"));
    assert_eq!(text_of(&prompt.lines[1]), " ".repeat(38));
    assert_eq!(text_of(&prompt.lines[2]), " ".repeat(38));
    for line in &prompt.lines {
        assert_eq!(line.spans[0].style, Style { fg: None, bg: Some(Color::Black), bold: false });
    }
    // while the prompt is open no line of the list is highlighted
    let list = match widget.content {
        EnContentMenuItem::List(list) => list,
        EnContentMenuItem::Paragraph(_) => panic!("the content is a list"),
    };
    for item in &list.items[2..] {
        assert_eq!(item.style, Style { fg: Some(Color::Gray), bg: None, bold: false });
    }
}

#[test]
fn the_prompt_is_cut_to_a_low_area() {
    let mut pane = pane_with(1, 0);
    pane.open_prompt();
    let c = config();
    let widget = pane.get_widget(Rect { x: 0, y: 0, width: 6, height: 2 }, &c);
    assert_eq!(widget.overlay_area, Rect { x: 3, y: 3, width: 0, height: 2 });
}

#[test]
fn an_area_that_is_too_small_does_not_fit() {
    let mut pane = pane_with(1, 0);
    assert!(!pane.fits_in(Rect { x: 0, y: 0, width: 3, height: 10 }));
    assert!(pane.fits_in(Rect { x: 65535, y: 65535, width: 4, height: 10 }));
    pane.open_prompt();
    assert!(!pane.fits_in(Rect { x: 0, y: 0, width: 5, height: 10 }));
    assert!(pane.fits_in(Rect { x: 65532, y: 65532, width: 6, height: 10 }));
    assert!(!pane.fits_in(Rect { x: 65533, y: 0, width: 6, height: 10 }));
    assert!(!pane.fits_in(Rect { x: 0, y: 65533, width: 6, height: 10 }));
}

#[test]
fn the_details_panel_shows_a_screenful_and_a_scroll_line() {
    let c = config();
    let mut pane = pane_with(1, 20);
    pane.handle_events(&press(KeyCode::Char('i')), &c);
    pane.handle_events(&press(KeyCode::Down), &c);
    pane.handle_events(&press(KeyCode::Down), &c);
    let area = Rect { x: 3, y: 4, width: 24, height: 30 };
    let widget = pane.get_widget(area, &c);
    assert!(widget.show_overlay);
    assert_eq!(INFO_HEIGHT, 15);
    assert_eq!(widget.overlay_area, Rect { x: 3, y: 4, width: 24, height: 15 });
    let panel = match widget.overlay {
        EnContentMenuItem::Paragraph(p) => p,
        EnContentMenuItem::List(_) => panic!("the panel is a paragraph"),
    };
    assert_eq!(panel.block, Some(list_block()));
    assert_eq!(panel.style, Style { fg: Some(Color::Gray), bg: Some(Color::Black), bold: false });
    assert_eq!(panel.lines.len(), 13);
    for k in 0..12 {
        let text = format!("line {}", k + 2);
        let padded = format!("{}{}", text, " ".repeat(20 - text.len() + 8));
        assert_eq!(text_of(&panel.lines[k]), padded);
        assert_eq!(
            panel.lines[k].spans[0].style,
            Style { fg: Some(Color::Gray), bg: Some(Color::Black), bold: false }
        );
    }
    assert_eq!(text_of(&panel.lines[12]), "   Scroll: 14/17    ");
    assert_eq!(
        panel.lines[12].spans[0].style,
        Style { fg: Some(Color::Cyan), bg: Some(Color::Black), bold: true }
    );
}

#[test]
fn a_short_panel_shows_all_its_lines() {
    let c = config();
    let mut pane = NetConnect::new();
    pane.refresh(Vec::new(), String::new(), vec!["Type :  ".into(), "wifi".into()]);
    pane.open_info();
    let widget = pane.get_widget(Rect { x: 0, y: 0, width: 19, height: 30 }, &c);
    let panel = match widget.overlay {
        EnContentMenuItem::Paragraph(p) => p,
        EnContentMenuItem::List(_) => panic!("the panel is a paragraph"),
    };
    assert_eq!(panel.lines.len(), 3);
    assert_eq!(text_of(&panel.lines[0]), format!("Type :  {}", " ".repeat(15 - 8 + 8)));
    assert_eq!(
        panel.lines[0].spans[0].style,
        Style { fg: Some(Color::DarkGray), bg: Some(Color::Black), bold: true }
    );
    assert_eq!(text_of(&panel.lines[2]), "  Scroll: 1/1  ");
}

#[test]
fn padding_goes_by_the_displayed_width() {
    let c = config();
    let mut pane = NetConnect::new();
    // two wide characters take four columns
    pane.refresh(Vec::new(), String::new(), vec!["\u{4e2d}\u{6587}".into(), "ab".into()]);
    pane.open_info();
    let widget = pane.get_widget(Rect { x: 0, y: 0, width: 14, height: 30 }, &c);
    let panel = match widget.overlay {
        EnContentMenuItem::Paragraph(p) => p,
        EnContentMenuItem::List(_) => panic!("the panel is a paragraph"),
    };
    assert_eq!(text_of(&panel.lines[0]), format!("\u{4e2d}\u{6587}{}", " ".repeat(10 - 4 + 8)));
    assert_eq!(text_of(&panel.lines[1]), format!("ab{}", " ".repeat(10 - 2 + 8)));
}

#[test]
fn the_region_of_the_panel_is_cut_at_the_largest_coordinate() {
    let c = config();
    let mut pane = pane_with(1, 3);
    pane.open_info();
    let widget = pane.get_widget(Rect { x: 65530, y: 65530, width: 20, height: 30 }, &c);
    assert_eq!(widget.overlay_area, Rect { x: 65530, y: 65530, width: 5, height: 5 });
}

#[test]
fn lines_of_the_panel_for_a_given_width() {
    let c = config();
    let line = make_info_line("abc", 3, 5, &c.themes);
    assert_eq!(text_of(&line), "abc          ");
    let wide = make_info_line("abc", 5, 5, &c.themes);
    assert_eq!(text_of(&wide), "abc");
    let heading = make_info_line("DNS :  ", 9, 5, &c.themes);
    assert_eq!(heading.spans[0].style, Style { fg: Some(Color::DarkGray), bg: Some(Color::Black), bold: true });
    // the filling makes a heading of a line that ends in a colon and a space
    let made = make_info_line("x : ", 4, 5, &c.themes);
    assert!(made.spans[0].style.bold);
    assert_eq!(center("ab", 2, 7), "  ab   ");
    assert_eq!(center("ab", 2, 2), "ab");
    assert_eq!(center("ab", 9, 7), "ab");
    assert_eq!(center("ab", 0, 3), " ab  ");
    assert_eq!(make_scroll_text(0, 12), "Scroll: 1/1");
    assert_eq!(make_scroll_text(0, 13), "Scroll: 12/10");
    assert_eq!(make_scroll_text(1, 13), "Scroll: 13/10");
    assert_eq!(make_scroll_text(8, 20), "Scroll: 20/17");
    assert_eq!(make_scroll_text(3, 20), "Scroll: 15/17");
}

fn expected_ssid(connected: &str, ssid: &str, max_ssid_len: usize) -> String {
    let is_long = ssid.chars().count() > max_ssid_len;
    let is_connected = connected.trim() == ssid.trim();
    if !is_long {
        ssid.to_string()
    } else {
        let short: String = ssid.chars().take(max_ssid_len).collect();
        if is_connected {
            format!("* {short}...")
        } else {
            format!("{short}...")
        }
    }
}

fn expected_signal(signal: u8) -> String {
    match signal {
        0..=33 => "\u{2581}\u{2581}\u{2581}".to_string(),
        34..=67 => "\u{2581}\u{2582}\u{2583}".to_string(),
        _ => "\u{2583}\u{2585}\u{2587}".to_string(),
    }
}

fn expected_wifi_line(connected: &str, ssid: &str, signal: u8, max_width: usize) -> String {
    let formatted_ssid = expected_ssid(connected, ssid, max_width.saturating_sub(7));
    let formatted_signal = expected_signal(signal);
    let ssid_width = formatted_ssid.chars().count();
    let signal_width = formatted_signal.chars().count();
    let space_width = if max_width > ssid_width + signal_width {
        max_width - ssid_width - signal_width
    } else {
        1
    };
    format!("{}{}{}", formatted_ssid, " ".repeat(space_width), formatted_signal)
}

#[test]
fn network_lines_agree_with_a_direct_layout() {
    let names = ["", "a", "Home", " Home ", "MyVeryLongNetworkName", "caf\u{e9} du coin", "\u{4e2d}\u{6587}\u{7f51}\u{7edc}\u{540d}\u{79f0}\u{5f88}\u{957f}"];
    for connected in names {
        let mut pane = NetConnect::new();
        pane.refresh(Vec::new(), connected.to_string(), Vec::new());
        for ssid in names {
            for max_width in [0usize, 1, 6, 7, 8, 10, 11, 12, 15, 20, 28, 40] {
                assert_eq!(
                    pane.format_ssid_string(&ssid.to_string(), max_width),
                    expected_ssid(connected, ssid, max_width)
                );
                for signal in [0u8, 33, 34, 67, 68, 100, 255] {
                    let line = pane.make_wifi_line(&ssid.to_string(), signal, max_width);
                    assert_eq!(line.spans.len(), 1);
                    assert_eq!(
                        line.spans[0].content,
                        expected_wifi_line(connected, ssid, signal, max_width)
                    );
                }
            }
        }
    }
}

fn expected_info_lines(info: &[String], scroll_offset: usize, max_width: usize) -> Vec<(String, bool)> {
    let height = 15;
    let total_lines = info.len();
    let content_height = height - 3;
    let mut lines: Vec<(String, bool)> = info
        .iter()
        .skip(scroll_offset)
        .take(content_height)
        .map(|s| {
            let mut padded = s.clone();
            let len = unicode_width::UnicodeWidthStr::width(padded.as_str());
            if len < max_width {
                padded.push_str(&" ".repeat(max_width - len + 8));
            }
            let heading = padded.contains(" :  ");
            (padded, heading)
        })
        .collect();
    let scroll_line_text = if total_lines > content_height {
        format!(
            "Scroll: {}/{}",
            (scroll_offset + content_height).min(total_lines),
            total_lines - 3
        )
    } else {
        "Scroll: 1/1".to_string()
    };
    let padded_scroll_line = {
        let len = unicode_width::UnicodeWidthStr::width(scroll_line_text.as_str());
        if len < max_width {
            let total_padding = max_width - len;
            let left_padding = total_padding / 2;
            let right_padding = total_padding - left_padding;
            format!("{}{}{}", " ".repeat(left_padding), scroll_line_text, " ".repeat(right_padding))
        } else {
            scroll_line_text
        }
    };
    lines.push((padded_scroll_line, true));
    lines
}

#[test]
fn the_panel_agrees_with_a_direct_layout() {
    let c = config();
    let texts: Vec<String> = vec![
        "Device :  ".into(),
        "wlan0".into(),
        "\u{23bd}".repeat(32),
        "".into(),
        "\u{4e2d}\u{6587} :  ".into(),
        "e\u{301}galit\u{e9}".into(),
        "tab\there".into(),
        "a :  b".into(),
        " : ".into(),
        "\u{1f468}\u{200d}\u{1f469}\u{200d}\u{1f467}".into(),
        "x".repeat(50),
        "===> eth0 (ethernet)".into(),
        "\r\n".into(),
        "\u{ff28}\u{ff45}\u{ff4c}\u{ff4c}\u{ff4f}".into(),
        "DNS :  ".into(),
        "1.1.1.1".into(),
    ];
    for count in [0usize, 1, 5, 12, 13, 16] {
        let info: Vec<String> = texts.iter().take(count).cloned().collect();
        for width in [4u16, 5, 10, 16, 24, 60] {
            let mut pane = NetConnect::new();
            pane.refresh(Vec::new(), String::new(), info.clone());
            pane.open_info();
            for _ in 0..5 {
                let offset = pane.scroll_offset();
                let widget = pane.get_widget(Rect { x: 0, y: 0, width, height: 20 }, &c);
                let panel = match widget.overlay {
                    EnContentMenuItem::Paragraph(p) => p,
                    EnContentMenuItem::List(_) => panic!("the panel is a paragraph"),
                };
                let expected = expected_info_lines(&info, offset, (width - 4) as usize);
                assert_eq!(panel.lines.len(), expected.len());
                for (k, (line, (text, bold))) in panel.lines.iter().zip(expected.iter()).enumerate() {
                    assert_eq!(line.spans.len(), 1);
                    assert_eq!(&line.spans[0].content, text, "line {} at width {}", k, width);
                    assert_eq!(line.spans[0].style.bold, *bold);
                    assert_eq!(line.spans[0].style.bg, Some(Color::Black));
                }
                pane.move_scrollbar_down();
            }
        }
    }
}

#[test]
fn the_panel_is_centred_for_any_width_that_fits() {
    let c = config();
    let info: Vec<String> = (0..20).map(|i| format!("L{}", i)).collect();
    let mut pane = NetConnect::new();
    pane.refresh(Vec::new(), String::new(), info);
    pane.open_info();
    for _ in 0..5 {
        pane.move_scrollbar_down();
    }
    assert_eq!(pane.scroll_offset(), 5);
    let area = Rect { x: 10, y: 5, width: 50, height: 20 };
    assert!(NetConnect::info_fits_in(36, area));
    let (overlay, region) = pane.make_info_overlay(36, area, &c.themes);
    assert_eq!(region, Rect { x: 15, y: 5, width: 40, height: 15 });
    let panel = match overlay {
        EnContentMenuItem::Paragraph(p) => p,
        EnContentMenuItem::List(_) => panic!("the panel is a paragraph"),
    };
    assert_eq!(panel.lines.len(), 13);
    for k in 0..12 {
        let text = format!("L{}", k + 5);
        let padded = format!("{}{}", text, " ".repeat(36 - text.len() + 8));
        assert_eq!(text_of(&panel.lines[k]), padded);
    }
    assert_eq!(text_of(&panel.lines[12]).trim(), "Scroll: 17/17");
    assert_eq!(text_of(&panel.lines[12]).chars().count(), 36);
}

#[test]
fn a_panel_wider_than_its_area_does_not_fit() {
    assert!(NetConnect::info_fits_in(46, Rect { x: 0, y: 0, width: 50, height: 20 }));
    assert!(!NetConnect::info_fits_in(47, Rect { x: 0, y: 0, width: 50, height: 20 }));
    assert!(!NetConnect::info_fits_in(0, Rect { x: 0, y: 0, width: 3, height: 20 }));
    assert!(NetConnect::info_fits_in(0, Rect { x: 0, y: 0, width: 4, height: 20 }));
    assert!(NetConnect::info_fits_in(0, Rect { x: 65530, y: 9, width: 14, height: 20 }));
    assert!(!NetConnect::info_fits_in(0, Rect { x: 65531, y: 9, width: 14, height: 20 }));
    assert!(NetConnect::info_fits_in(10, Rect { x: 65535, y: 65535, width: 14, height: 20 }));
}

#[test]
fn the_prompt_is_centred_for_any_width() {
    let c = config();
    let mut pane = pane_with(2, 0);
    pane.open_prompt();
    let area = Rect { x: 10, y: 5, width: 50, height: 20 };
    assert!(NetConnect::prompt_fits_in(36, area));
    let (overlay, region) = pane.make_prompt(36, area, &c.themes);
    assert_eq!(region, Rect { x: 18, y: 8, width: 34, height: 3 });
    let prompt = match overlay {
        EnContentMenuItem::Paragraph(p) => p,
        EnContentMenuItem::List(_) => panic!("the prompt is a paragraph"),
    };
    assert_eq!(prompt.lines.len(), 3);
    assert_eq!(text_of(&prompt.lines[0]), " ".repeat(37));
    // lines wider than the area give a prompt as wide as the area
    let (_, wide) = pane.make_prompt(100, Rect { x: 4, y: 0, width: 20, height: 2 }, &c.themes);
    assert_eq!(wide, Rect { x: 4, y: 3, width: 20, height: 2 });
    let (_, narrow) = pane.make_prompt(2, Rect { x: 0, y: 0, width: 9, height: 9 }, &c.themes);
    assert_eq!(narrow, Rect { x: 4, y: 3, width: 0, height: 3 });
}

#[test]
fn a_prompt_past_the_largest_coordinate_does_not_fit() {
    let area = Rect { x: 0, y: 0, width: 50, height: 20 };
    assert!(!NetConnect::prompt_fits_in(0, area));
    assert!(!NetConnect::prompt_fits_in(1, area));
    assert!(NetConnect::prompt_fits_in(2, area));
    assert!(NetConnect::prompt_fits_in(65535, area));
    assert!(NetConnect::prompt_fits_in(46, Rect { x: 65532, y: 65532, width: 50, height: 20 }));
    assert!(!NetConnect::prompt_fits_in(46, Rect { x: 65533, y: 0, width: 50, height: 20 }));
    assert!(!NetConnect::prompt_fits_in(46, Rect { x: 0, y: 65533, width: 50, height: 20 }));
    assert!(NetConnect::prompt_fits_in(60, Rect { x: 65535, y: 0, width: 50, height: 20 }));
}

#[test]
fn a_listing_that_failed_gives_no_list() {
    assert_eq!(
        NetConnect::wifi_list_of_run(&ok("b:10\na:80\n")),
        Some(vec![("a".to_string(), 80), ("b".to_string(), 10)])
    );
    assert_eq!(NetConnect::wifi_list_of_run(&ok("")), Some(Vec::new()));
    let failed = CommandResult::Finished {
        success: false,
        stdout: "a:80\n".into(),
        stderr: "no wifi device".into(),
    };
    assert_eq!(NetConnect::wifi_list_of_run(&failed), None);
    let not_run = CommandResult::Failed { error: "No such file or directory".into() };
    assert_eq!(NetConnect::wifi_list_of_run(&not_run), None);
}

#[test]
fn a_refresh_without_a_list_keeps_the_list() {
    let mut pane = pane_with(4, 30);
    pane.move_selected_up();
    pane.open_info();
    for _ in 0..30 {
        pane.move_scrollbar_down();
    }
    assert_eq!(pane.scroll_offset(), 18);
    pane.refresh_with(None, "elsewhere".into(), info(14));
    assert_eq!(pane.wifi_list(), &networks(4));
    assert_eq!(pane.selected_ssid(), 3);
    assert_eq!(pane.connected_ssid(), "elsewhere");
    assert_eq!(pane.connection_info(), &info(14));
    assert_eq!(pane.scroll_offset(), 2);
    assert_eq!(pane.mode(), Mode::InfoOverlay);
    pane.refresh_with(Some(networks(2)), "home".into(), info(3));
    assert_eq!(pane.wifi_list(), &networks(2));
    assert_eq!(pane.selected_ssid(), 1);
    assert_eq!(pane.scroll_offset(), 0);
}
