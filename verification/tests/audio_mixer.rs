use aex_clock::command::CommandResult;
use aex_clock::config::{Color, Config, KeyActions, Keybinds, RawConfig, RawThemes};
use aex_clock::keys::{Event, KeyCode, KeyEvent, KeyEventKind, KeyModifiers};
use aex_clock::ui::{Line, Rect, Span, Style};
use aex_clock::widgets::audio_mixer::{
    adjust_volume, clamp_step, AudioAction, AudioMixer, VOLUME_MAX, VOLUME_STEP,
};
use aex_clock::widgets::audio_widget::filled_cells;
use aex_clock::widgets::content_menu::EnContentMenuItem;

fn config() -> Config {
    let themes = RawThemes {
        borders_on: false,
        border_color: "white".into(),
        border_style: "plain".into(),
        nav_selected_fg_color: "black".into(),
        nav_selected_bg_color: "yellow".into(),
        content_selected_color: "green".into(),
        bg_color: "black".into(),
        fg_color: "gray".into(),
        scroll_color: "cyan".into(),
        bar_side_color: "blue".into(),
        bar_filled_color: "magenta".into(),
        bar_empty_color: "darkgray".into(),
        bar_selected_side_color: "red".into(),
        bar_selected_filled_color: "yellow".into(),
        bar_selected_empty_color: "white".into(),
    };
    let keybinds = Keybinds {
        nav_up: "shift+up".into(),
        nav_down: "shift+down".into(),
        content_up: "up".into(),
        content_down: "down".into(),
        content_right: "right".into(),
        content_left: "left".into(),
        accept: "enter".into(),
        info: "i".into(),
        cancel: "esc".into(),
        quit: "q".into(),
    };
    Config::load(RawConfig { themes, keybinds }).unwrap()
}

fn press(code: KeyCode) -> Event {
    Event::Key(KeyEvent::press(code))
}

fn channels(volumes: &[u8]) -> Vec<(String, u8, String)> {
    volumes
        .iter()
        .enumerate()
        .map(|(i, v)| (format!("app{}", i), *v, format!("{}", 100 + i)))
        .collect()
}

fn pane_with(volumes: &[u8]) -> AudioMixer {
    let mut pane = AudioMixer::new();
    pane.refresh(channels(volumes));
    pane
}

fn set_volume(id: &str, change: &str) -> AudioAction {
    let increase = change.starts_with('+');
    let delta: u8 = change[1..change.len() - 1].parse().unwrap();
    assert_eq!(AudioMixer::volume_argument(delta, increase), change);
    AudioAction::SetVolume { id: id.into(), delta, increase }
}

#[test]
fn a_new_mixer_is_empty() {
    let pane = AudioMixer::new();
    assert_eq!(pane.selected_audio(), 0);
    assert_eq!(pane.selected_id(), "");
    assert_eq!(pane.selected_volume(), 0);
    assert!(pane.audio_list().is_empty());
    assert!(!pane.started_refresh());
}

#[test]
fn a_step_that_overshoots_is_cut_to_nothing() {
    assert_eq!(VOLUME_STEP, 5);
    assert_eq!(VOLUME_MAX, 100);
    assert_eq!(clamp_step(95, 5, true), 5);
    assert_eq!(clamp_step(96, 5, true), 0);
    assert_eq!(clamp_step(100, 5, true), 0);
    assert_eq!(clamp_step(0, 5, true), 5);
    assert_eq!(clamp_step(5, 5, false), 5);
    assert_eq!(clamp_step(4, 5, false), 0);
    assert_eq!(clamp_step(0, 5, false), 0);
    assert_eq!(clamp_step(100, 5, false), 5);
    assert_eq!(clamp_step(100, 0, true), 0);
    assert_eq!(clamp_step(250, 10, true), 0);
    assert_eq!(clamp_step(250, 10, false), 10);
}

#[test]
fn a_volume_that_would_overshoot_stays_where_it_is() {
    assert_eq!(adjust_volume(95, 5, true), 100);
    assert_eq!(adjust_volume(96, 5, true), 96);
    assert_eq!(adjust_volume(100, 5, true), 100);
    assert_eq!(adjust_volume(0, 5, true), 5);
    assert_eq!(adjust_volume(5, 5, false), 0);
    assert_eq!(adjust_volume(4, 5, false), 4);
    assert_eq!(adjust_volume(0, 5, false), 0);
    assert_eq!(adjust_volume(50, 5, false), 45);
    assert_eq!(adjust_volume(200, 5, true), 200);
    assert_eq!(adjust_volume(200, 5, false), 195);
    for v in 0..=255u8 {
        for s in 0..=255u8 {
            let up = if v as u32 + s as u32 > 100 { v } else { v + s };
            let down = if v < s { v } else { v - s };
            assert_eq!(adjust_volume(v, s, true), up);
            assert_eq!(adjust_volume(v, s, false), down);
        }
    }
}

#[test]
fn the_adjusted_volume_is_the_old_one_or_one_step_on() {
    for v in 0..=255u8 {
        for s in 0..=255u8 {
            let up = v as i32 + clamp_step(v, s, true) as i32;
            let expected_up = if v as i32 + s as i32 > 100 { v as i32 } else { v as i32 + s as i32 };
            assert_eq!(up, expected_up);
            let down = v as i32 - clamp_step(v, s, false) as i32;
            let expected_down = if (v as i32) - (s as i32) < 0 { v as i32 } else { v as i32 - s as i32 };
            assert_eq!(down, expected_down);
            if v <= 100 {
                assert!(0 <= up && up <= 100);
                assert!(0 <= down && down <= 100);
            }
        }
    }
}

#[test]
fn the_argument_is_a_sign_a_number_and_a_percent_sign() {
    assert_eq!(AudioMixer::volume_argument(5, true), "+5%");
    assert_eq!(AudioMixer::volume_argument(5, false), "-5%");
    assert_eq!(AudioMixer::volume_argument(0, true), "+0%");
    assert_eq!(AudioMixer::volume_argument(0, false), "-0%");
    assert_eq!(AudioMixer::volume_argument(100, true), "+100%");
    assert_eq!(AudioMixer::volume_argument(255, false), "-255%");
}

#[test]
fn the_change_is_the_step_or_nothing() {
    let pane = pane_with(&[95, 96, 4]);
    assert_eq!(pane.add_volume(&"7".to_string(), 5, true), set_volume("7", "+5%"));
    assert_eq!(pane.add_volume(&"7".to_string(), 5, false), set_volume("7", "-5%"));
    assert_eq!(pane.add_volume(&"7".to_string(), 6, true), set_volume("7", "+0%"));
    assert_eq!(pane.add_volume(&"7".to_string(), 95, false), set_volume("7", "-95%"));
    assert_eq!(pane.add_volume(&"7".to_string(), 96, false), set_volume("7", "-0%"));
    assert_eq!(pane.add_volume(&"".to_string(), 0, true), set_volume("", "+0%"));
}

#[test]
fn left_and_right_change_the_selected_stream() {
    let c = config();
    let mut pane = pane_with(&[95, 96, 4]);
    assert_eq!(pane.handle_events(&press(KeyCode::Right), &c), set_volume("100", "+5%"));
    assert_eq!(pane.handle_events(&press(KeyCode::Left), &c), set_volume("100", "-5%"));
    assert_eq!(pane.handle_events(&press(KeyCode::Down), &c), AudioAction::Nothing);
    assert_eq!(pane.handle_events(&press(KeyCode::Right), &c), set_volume("101", "+0%"));
    assert_eq!(pane.handle_events(&press(KeyCode::Left), &c), set_volume("101", "-5%"));
    assert_eq!(pane.handle_events(&press(KeyCode::Down), &c), AudioAction::Nothing);
    assert_eq!(pane.handle_events(&press(KeyCode::Right), &c), set_volume("102", "+5%"));
    assert_eq!(pane.handle_events(&press(KeyCode::Left), &c), set_volume("102", "-0%"));
    assert_eq!(pane.handle_events(&press(KeyCode::Enter), &c), AudioAction::Nothing);
    assert_eq!(pane.handle_events(&Event::Other, &c), AudioAction::Nothing);
    // the list is left as it is until fresh data comes in
    assert_eq!(pane.audio_list(), &channels(&[95, 96, 4]));
}

#[test]
fn only_presses_change_the_volume() {
    let c = config();
    let mut pane = pane_with(&[50]);
    for kind in [KeyEventKind::Release, KeyEventKind::Repeat] {
        let event = Event::Key(KeyEvent {
            code: KeyCode::Right,
            modifiers: KeyModifiers { shift: false, control: false, alt: false, other: false },
            kind,
        });
        assert_eq!(pane.handle_events(&event, &c), AudioAction::Nothing);
    }
}

#[test]
fn a_key_bound_to_up_and_right_moves_the_selection() {
    let mut pane = pane_with(&[10, 20]);
    let both = KeyActions {
        nav_up: false,
        nav_down: false,
        content_up: true,
        content_down: true,
        content_left: true,
        content_right: true,
        accept: false,
        info: false,
        cancel: false,
        quit: false,
    };
    assert_eq!(pane.apply_key(&KeyEvent::press(KeyCode::Char('x')), &both), AudioAction::Nothing);
    assert_eq!(pane.selected_audio(), 1);
    let sides = KeyActions { content_up: false, content_down: false, ..both };
    assert_eq!(
        pane.apply_key(&KeyEvent::press(KeyCode::Char('x')), &sides),
        set_volume("101", "-5%")
    );
}

#[test]
fn success_is_followed_by_a_fetch() {
    let pane = pane_with(&[50]);
    assert_eq!(pane.volume_changed(true), AudioAction::FetchList);
    assert_eq!(pane.volume_changed(false), AudioAction::Nothing);
}

#[test]
fn the_selection_carries_volume_and_identifier() {
    let mut pane = pane_with(&[10, 20, 30]);
    assert_eq!((pane.selected_audio(), pane.selected_volume()), (0, 10));
    assert_eq!(pane.selected_id(), "100");
    pane.move_selected_down();
    assert_eq!((pane.selected_audio(), pane.selected_volume()), (1, 20));
    assert_eq!(pane.selected_id(), "101");
    pane.move_selected_down();
    pane.move_selected_down();
    assert_eq!((pane.selected_audio(), pane.selected_volume()), (0, 10));
    pane.move_selected_up();
    assert_eq!((pane.selected_audio(), pane.selected_volume()), (2, 30));
    assert_eq!(pane.selected_id(), "102");
}

#[test]
fn moving_down_once_for_each_stream_comes_round() {
    for n in 1..7usize {
        let volumes: Vec<u8> = (0..n).map(|i| (i * 7) as u8).collect();
        for start in 0..n {
            let mut pane = pane_with(&volumes);
            for _ in 0..start {
                pane.move_selected_down();
            }
            for _ in 0..n {
                pane.move_selected_down();
            }
            assert_eq!(pane.selected_audio(), start);
            assert_eq!(pane.selected_volume(), volumes[start]);
            assert_eq!(pane.selected_id(), &format!("{}", 100 + start));
        }
    }
}

#[test]
fn an_empty_mixer_stays_as_it_is() {
    let c = config();
    let mut pane = AudioMixer::new();
    pane.move_selected_down();
    pane.move_selected_up();
    assert_eq!(pane.selected_audio(), 0);
    assert_eq!(pane.handle_events(&press(KeyCode::Up), &c), AudioAction::Nothing);
    assert_eq!(pane.handle_events(&press(KeyCode::Right), &c), set_volume("", "+5%"));
}

#[test]
fn a_refresh_keeps_the_selection_in_step() {
    let mut pane = pane_with(&[10, 20, 30]);
    pane.move_selected_up();
    assert_eq!(pane.selected_audio(), 2);
    pane.refresh(channels(&[11, 21, 31]));
    assert_eq!((pane.selected_audio(), pane.selected_volume()), (2, 31));
    // the list shrinks: the selection goes to its last stream
    pane.refresh(channels(&[12, 22]));
    assert_eq!((pane.selected_audio(), pane.selected_volume()), (1, 22));
    assert_eq!(pane.selected_id(), "101");
    // the list empties: the selection is 0, volume and identifier stay
    pane.refresh(Vec::new());
    assert_eq!((pane.selected_audio(), pane.selected_volume()), (0, 22));
    assert_eq!(pane.selected_id(), "101");
    pane.refresh(channels(&[77]));
    assert_eq!((pane.selected_audio(), pane.selected_volume()), (0, 77));
    assert_eq!(pane.selected_id(), "100");
}

#[test]
fn the_refresh_starts_once_for_the_mixer() {
    let mut pane = AudioMixer::new();
    assert!(pane.start_auto_refresh());
    assert!(pane.started_refresh());
    assert!(!pane.start_auto_refresh());
    assert!(!pane.start_auto_refresh());
    assert!(pane.started_refresh());
}

#[test]
fn a_copy_of_the_mixer_is_in_the_same_state() {
    let mut pane = pane_with(&[10, 20, 30]);
    pane.move_selected_down();
    let copy = pane.clone();
    assert_eq!(copy.audio_list(), pane.audio_list());
    assert_eq!(copy.selected_audio(), 1);
    assert_eq!(copy.selected_volume(), 20);
    assert_eq!(copy.selected_id(), "101");
}

const REPORT: &str = "Sink Input #42
	Driver: protocol-native.c
	Sink: 0
	Volume: front-left: 45875 /  70% / -9.29 dB,   front-right: 45875 /  70% / -9.29 dB
	        balance 0.00
	Properties:
		media.name = \"Playback\"
		application.name = \"Firefox\"
		application.process.id = \"1234\"

Sink Input #57
	Volume: mono: 65536 / 100% / 0.00 dB
	Properties:
		application.name = \"mpv Media Player\"
";

#[test]
fn the_report_of_the_streams_is_read() {
    let list = AudioMixer::make_audio_list(REPORT);
    assert_eq!(
        list,
        vec![
            ("Firefox".to_string(), 70, "42".to_string()),
            ("mpv Media Player".to_string(), 100, "57".to_string()),
        ]
    );
    assert!(AudioMixer::make_audio_list("").is_empty());
}

fn expected_audio_list(stdout: &str) -> Vec<(String, u8, String)> {
    let mut result = Vec::new();
    let mut current_id = String::new();
    let mut current_volume = 0;
    for line in stdout.lines() {
        if line.trim_start().starts_with("Sink Input") {
            if let Some(id) = line.split('#').nth(1) {
                current_id = id.to_string();
            }
        }
        if line.trim_start().starts_with("Volume:") {
            if let Some(percent) = line.split('/').nth(1) {
                let volume = percent.trim().trim_end_matches('%').parse::<u8>().unwrap_or(0);
                current_volume = volume;
            }
        }
        if line.trim_start().starts_with("application.name =") {
            if let Some(name) = line.split('=').nth(1) {
                let current_name = name.trim().trim_matches('"').to_string();
                result.push((current_name, current_volume, current_id.clone()));
            }
        }
    }
    result
}

#[test]
fn the_report_agrees_with_a_line_by_line_reading() {
    let texts = [
        REPORT.to_string(),
        REPORT.replace('\n', "\r\n"),
        "application.name = \"early\"\nSink Input #1#2\nVolume: x / 300% / y\napplication.name = a = b\n".to_string(),
        "Sink Input 9\nVolume: 5\n  Volume: a/ 12%% /b\n application.name =\napplication.name\n".to_string(),
        "Sink Input # 3 \nVolume: /+9%/\napplication.name = \"\"quoted\"\" \nVolume: / %/\napplication.name =  plain  ".to_string(),
    ];
    for text in texts {
        assert_eq!(AudioMixer::make_audio_list(&text), expected_audio_list(&text), "input {:?}", text);
    }
}

#[test]
fn the_bar_is_filled_to_the_nearest_cell() {
    assert_eq!(filled_cells(0, 20), 0);
    assert_eq!(filled_cells(50, 20), 10);
    assert_eq!(filled_cells(100, 20), 20);
    assert_eq!(filled_cells(5, 30), 2);
    assert_eq!(filled_cells(4, 30), 1);
    assert_eq!(filled_cells(1, 30), 0);
    assert_eq!(filled_cells(2, 30), 1);
    assert_eq!(filled_cells(99, 30), 30);
    assert_eq!(filled_cells(255, 10), 10);
    assert_eq!(filled_cells(255, 255), 255);
    assert_eq!(filled_cells(70, 0), 0);
    for v in 0..=255u32 {
        for w in 0..=300u32 {
            let exact = (v * w + 50) / 100;
            assert_eq!(filled_cells(v as u8, w as usize) as u32, exact.min(w));
        }
    }
    assert_eq!(filled_cells(50, 1000), 500);
    assert_eq!(filled_cells(255, usize::MAX), usize::MAX);
    assert_eq!(filled_cells(1, usize::MAX), ((usize::MAX as u128 + 50) / 100) as usize);
}

fn span(content: &str, fg: Color) -> Span {
    Span { content: content.into(), style: Style { fg: Some(fg), bg: None, bold: false } }
}

#[test]
fn the_bar_line_has_brackets_a_filled_and_an_empty_part() {
    let c = config();
    let pane = pane_with(&[70, 20]);
    // the stream that is selected takes the plain colours of the bar
    let selected = pane.make_audio_volume_line(&"100".to_string(), 70, 12, &c.themes);
    assert_eq!(
        selected,
        Line {
            spans: vec![
                span("[", Color::Blue),
                span("=======", Color::Magenta),
                span("---", Color::DarkGray),
                span("]", Color::Blue),
            ],
            style: Style { fg: None, bg: None, bold: false },
        }
    );
    let other = pane.make_audio_volume_line(&"101".to_string(), 20, 12, &c.themes);
    assert_eq!(
        other.spans,
        vec![
            span("[", Color::Red),
            span("==", Color::Yellow),
            span("--------", Color::White),
            span("]", Color::Red),
        ]
    );
    let narrow = pane.make_audio_volume_line(&"101".to_string(), 20, 1, &c.themes);
    assert_eq!(narrow.spans[1].content, "");
    assert_eq!(narrow.spans[2].content, "");
    // a wide line has a wide bar
    let wide = pane.make_audio_volume_line(&"101".to_string(), 100, 300, &c.themes);
    assert_eq!(wide.spans[1].content.len(), 298);
    assert_eq!(wide.spans[2].content.len(), 0);
    let half = pane.make_audio_volume_line(&"101".to_string(), 50, 258, &c.themes);
    assert_eq!(half.spans[1].content.len(), 128);
    assert_eq!(half.spans[2].content.len(), 128);
}

#[test]
fn the_name_line_starts_with_the_mark() {
    let pane = AudioMixer::new();
    let line = pane.make_audio_name_line("Firefox");
    assert_eq!(
        line,
        Line {
            spans: vec![Span {
                content: "\u{e2}\u{2122}\u{aa} Firefox".into(),
                style: Style { fg: None, bg: None, bold: false },
            }],
            style: Style { fg: None, bg: None, bold: false },
        }
    );
}

#[test]
fn the_mixer_draws_two_lines_for_each_stream() {
    let c = config();
    let mut pane = pane_with(&[70, 20, 0]);
    pane.move_selected_down();
    let widget = pane.get_widget(Rect { x: 0, y: 0, width: 16, height: 10 }, &c);
    assert!(!widget.show_overlay);
    assert_eq!(widget.overlay_area, Rect { x: 0, y: 0, width: 0, height: 0 });
    let list = match widget.content {
        EnContentMenuItem::List(list) => list,
        EnContentMenuItem::Paragraph(_) => panic!("the content is a list"),
    };
    let block = list.block.unwrap();
    assert!(!block.borders.top && !block.borders.left);
    assert_eq!(list.items.len(), 6);
    for (k, item) in list.items.iter().enumerate() {
        let color = if k / 2 == 1 { Color::Green } else { Color::Gray };
        assert_eq!(item.style, Style { fg: Some(color), bg: None, bold: false });
        assert_eq!(item.spans.len(), if k % 2 == 0 { 1 } else { 4 });
    }
    assert_eq!(list.items[2].spans[0].content, "\u{e2}\u{2122}\u{aa} app1");
    assert_eq!(list.items[1].spans[1].content, "=======");
    assert_eq!(list.items[1].spans[0].style.fg, Some(Color::Red));
    assert_eq!(list.items[3].spans[1].content, "==");
    assert_eq!(list.items[3].spans[0].style.fg, Some(Color::Blue));
    assert_eq!(list.items[5].spans[2].content, "----------");
    let empty = AudioMixer::new().get_widget(Rect { x: 0, y: 0, width: 4, height: 1 }, &c);
    match empty.content {
        EnContentMenuItem::List(list) => assert!(list.items.is_empty()),
        EnContentMenuItem::Paragraph(_) => panic!("the content is a list"),
    }
}

#[test]
fn a_report_that_failed_gives_no_list() {
    let ran = CommandResult::Finished {
        success: true,
        stdout: REPORT.into(),
        stderr: String::new(),
    };
    assert_eq!(AudioMixer::audio_list_of_run(&ran), Some(AudioMixer::make_audio_list(REPORT)));
    let failed = CommandResult::Finished {
        success: false,
        stdout: REPORT.into(),
        stderr: "Connection refused".into(),
    };
    assert_eq!(AudioMixer::audio_list_of_run(&failed), None);
    let not_run = CommandResult::Failed { error: "No such file or directory".into() };
    assert_eq!(AudioMixer::audio_list_of_run(&not_run), None);
}

#[test]
fn a_refresh_without_a_list_leaves_the_mixer_as_it_is() {
    let mut pane = pane_with(&[10, 20, 30]);
    pane.move_selected_up();
    pane.refresh_with(None);
    assert_eq!(pane.audio_list(), &channels(&[10, 20, 30]));
    assert_eq!((pane.selected_audio(), pane.selected_volume()), (2, 30));
    assert_eq!(pane.selected_id(), "102");
    pane.refresh_with(Some(channels(&[40])));
    assert_eq!(pane.audio_list(), &channels(&[40]));
    assert_eq!((pane.selected_audio(), pane.selected_volume()), (0, 40));
}
