use blackhole_importer::app::{App, Instance};
use blackhole_importer::config::Config;
use blackhole_importer::error::{ConfigError, ExportError};
use blackhole_importer::input::{Command, KeyCode, KeyEvent, KeyKind};
use blackhole_importer::magnet::MagnetDescriptor;
use blackhole_importer::style::StyleConfig;
use std::path::PathBuf;

fn magnet(display_name: Option<&str>) -> MagnetDescriptor {
    MagnetDescriptor {
        display_name: display_name.map(|name| name.to_string()),
        hash_type: Some("btih".to_string()),
        exact_topic: Some("da826adb2ba4933500d83c19bbdfa73ee28f34d5".to_string()),
        size: None,
        exact_source: None,
        trackers: Vec::new(),
        keyword_topic: None,
        web_seed: None,
        acceptable_source: None,
        manifest_topic: None,
    }
}

fn abc() -> Config {
    Config {
        instance: vec![
            Instance { name: "A".to_string(), path: PathBuf::from("/a") },
            Instance { name: "B".to_string(), path: PathBuf::from("/b") },
            Instance { name: "C".to_string(), path: PathBuf::from("/c") },
        ],
    }
}

fn app() -> App {
    App::new(abc(), magnet(Some("devuan%5Fbeowulf")), None)
}

fn press(code: KeyCode) -> KeyEvent {
    KeyEvent { code, kind: KeyKind::Press }
}

#[test]
fn default_config_has_no_instances() {
    assert!(Config::default().instance.is_empty());
}

#[test]
fn new_session_is_idle() {
    let app = app();
    assert!(!app.should_exit());
    assert_eq!(app.selected(), None);
    assert_eq!(app.status(), &None);
    assert_eq!(app.export_name(), "devuan_beowulf");
    assert_eq!(app.selection().len(), 3);
    assert_eq!(app.magnet(), &magnet(Some("devuan%5Fbeowulf")));
}

#[test]
fn output_name_overrides_display_name() {
    let app = App::new(abc(), magnet(Some("devuan%5Fbeowulf")), Some("mine".to_string()));
    assert_eq!(app.export_name(), "mine");
    let app = App::new(abc(), magnet(None), Some("mine".to_string()));
    assert_eq!(app.export_name(), "mine");
}

#[test]
fn try_new_accepts_what_new_accepts() {
    let app = App::try_new(abc(), magnet(Some("Example%20File")), None).ok().unwrap();
    assert_eq!(app.export_name(), "Example File");
    assert_eq!(app.selected(), None);
    assert!(!app.should_exit());
}

#[test]
fn try_new_rejects_a_link_without_any_name() {
    assert_eq!(App::try_new(abc(), magnet(None), None).err(), Some(ConfigError::MissingName));
}

#[test]
fn try_new_rejects_an_undecodable_display_name() {
    assert_eq!(
        App::try_new(abc(), magnet(Some("%FF")), None).err(),
        Some(ConfigError::UndecodableName)
    );
}

#[test]
fn down_down_confirm_exports_into_b() {
    let mut app = app();
    assert_eq!(app.handle_key(press(KeyCode::Down)), None);
    assert_eq!(app.handle_key(press(KeyCode::Down)), None);
    let plan = app.handle_key(press(KeyCode::Enter)).unwrap();
    assert_eq!(app.selected(), Some(1));
    assert_eq!(app.selection().selected_instance().map(|i| i.name.as_str()), Some("B"));
    assert_eq!(plan.directory, PathBuf::from("/b"));
    assert_eq!(plan.file_name, "devuan_beowulf.magnet");
    assert_eq!(
        plan.contents,
        "magnet:?xt=urn:btih:da826adb2ba4933500d83c19bbdfa73ee28f34d5&dn=devuan%5Fbeowulf"
    );
    assert!(!app.should_exit());
    assert_eq!(app.status(), &None);
}

#[test]
fn digit_beyond_the_list_is_ignored() {
    let mut app = app();
    assert_eq!(app.handle_key(press(KeyCode::Char('5'))), None);
    assert_eq!(app.selected(), None);
    assert_eq!(app.status(), &None);
    assert!(!app.should_exit());
    app.handle_key(press(KeyCode::Char('2')));
    assert_eq!(app.selected(), Some(1));
    assert_eq!(app.handle_key(press(KeyCode::Char('5'))), None);
    assert_eq!(app.selected(), Some(1));
    assert_eq!(app.status(), &None);
}

#[test]
fn digits_pick_entries_directly() {
    let mut app = app();
    app.handle_key(press(KeyCode::Char('3')));
    assert_eq!(app.selected(), Some(2));
    app.handle_key(press(KeyCode::Char('1')));
    assert_eq!(app.selected(), Some(0));
    app.handle_key(press(KeyCode::Char('0')));
    assert_eq!(app.selected(), Some(0));
}

#[test]
fn confirm_without_selection_reports_and_writes_nothing() {
    let mut app = app();
    assert_eq!(app.export(), Err(ExportError::NoSelection));
    assert_eq!(app.handle_key(press(KeyCode::Enter)), None);
    assert_eq!(app.status(), &Some(ExportError::NoSelection));
    assert_eq!(app.selected(), None);
    assert!(!app.should_exit());
    app.handle_key(press(KeyCode::Down));
    assert_eq!(app.selected(), Some(0));
}

#[test]
fn confirm_twice_asks_for_the_same_file() {
    let mut app = app();
    app.handle_key(press(KeyCode::Char('j')));
    let first = app.handle_key(press(KeyCode::Char('l'))).unwrap();
    app.record_write(Ok(()));
    let second = app.handle_key(press(KeyCode::Enter)).unwrap();
    assert_eq!(first, second);
    assert_eq!(first.contents.as_bytes(), second.contents.as_bytes());
    assert_eq!(app.export(), Ok(first));
}

#[test]
fn quit_keys_raise_the_exit_flag() {
    let mut app = app();
    app.handle_key(press(KeyCode::Char('q')));
    assert!(app.should_exit());
    let mut app = self::app();
    app.handle_key(press(KeyCode::Esc));
    assert!(app.should_exit());
    app.handle_key(press(KeyCode::Down));
    assert!(app.should_exit());
}

#[test]
fn confirm_does_not_exit() {
    let mut app = app();
    app.handle_key(press(KeyCode::Down));
    assert!(app.handle_key(press(KeyCode::Enter)).is_some());
    assert!(!app.should_exit());
}

#[test]
fn releases_and_repeats_are_not_acted_on() {
    let mut app = app();
    app.handle_key(KeyEvent { code: KeyCode::Down, kind: KeyKind::Release });
    app.handle_key(KeyEvent { code: KeyCode::Down, kind: KeyKind::Repeat });
    assert_eq!(app.selected(), None);
    app.handle_key(KeyEvent { code: KeyCode::Char('q'), kind: KeyKind::Release });
    assert!(!app.should_exit());
    assert_eq!(app.handle_key(KeyEvent { code: KeyCode::Enter, kind: KeyKind::Repeat }), None);
    assert_eq!(app.status(), &None);
}

#[test]
fn up_from_nothing_goes_to_the_last_entry() {
    let mut app = app();
    app.handle_key(press(KeyCode::Up));
    assert_eq!(app.selected(), Some(2));
    app.handle_key(press(KeyCode::Char('k')));
    assert_eq!(app.selected(), Some(1));
}

#[test]
fn apply_carries_out_commands() {
    let mut app = app();
    assert_eq!(app.apply(Command::SelectIndex(2)), None);
    assert_eq!(app.selected(), Some(2));
    assert_eq!(app.apply(Command::SelectNext), None);
    assert_eq!(app.selected(), Some(2));
    assert_eq!(app.apply(Command::SelectPrevious), None);
    assert_eq!(app.selected(), Some(1));
    assert_eq!(app.apply(Command::Ignore), None);
    assert_eq!(app.apply(Command::Confirm).map(|plan| plan.directory), Some(PathBuf::from("/b")));
    assert_eq!(app.apply(Command::Quit), None);
    assert!(app.should_exit());
}

#[test]
fn write_failures_are_kept_until_a_write_succeeds() {
    let mut app = app();
    app.handle_key(press(KeyCode::Down));
    app.handle_key(press(KeyCode::Enter));
    app.record_write(Err("permission denied".to_string()));
    assert_eq!(app.status(), &Some(ExportError::IoError("permission denied".to_string())));
    assert!(!app.should_exit());
    let screen = app.render(&StyleConfig::default()).unwrap();
    assert_eq!(screen.status, Some("Could not write the file: permission denied".to_string()));
    app.handle_key(press(KeyCode::Enter));
    app.record_write(Ok(()));
    assert_eq!(app.status(), &None);
}

#[test]
fn session_frame_follows_the_cursor() {
    let mut app = app();
    let style = StyleConfig::default();
    let screen = app.render(&style).unwrap();
    assert!(screen.rows.iter().all(|row| !row.highlighted));
    app.handle_key(press(KeyCode::Down));
    app.handle_key(press(KeyCode::Down));
    let screen = app.render(&style).unwrap();
    let names: Vec<&str> = screen.rows.iter().map(|row| row.text.as_str()).collect();
    assert_eq!(names, vec!["A", "B", "C"]);
    let flags: Vec<bool> = screen.rows.iter().map(|row| row.highlighted).collect();
    assert_eq!(flags, vec![false, true, false]);
    assert_eq!(screen.info.len(), 1);
    assert_eq!(screen.info[0].spans[1].text, "devuan_beowulf");
}
