use mcp_oauth::status::check_truncatable;
use mcp_oauth::status::null_device;
use mcp_oauth::status::plural_suffix;
use mcp_oauth::status::truncate_front;
use mcp_oauth::status::try_truncate_front;
use mcp_oauth::status::SessionStatus;
use mcp_oauth::status::UsageLevel;
use mcp_oauth::status::STATUS_PATH_BYTES;
use mcp_oauth::status::STATUS_TAIL_BYTES;

#[test]
fn status_of_a_session() {
    assert_eq!(SessionStatus::new(true, "/tmp/session.jsonl"), SessionStatus::Resuming);
    assert_eq!(SessionStatus::new(true, "/dev/null"), SessionStatus::Resuming);
    assert_eq!(SessionStatus::new(false, "/dev/null"), SessionStatus::Unrecorded);
    assert_eq!(SessionStatus::new(false, "NUL"), SessionStatus::Unrecorded);
    assert_eq!(SessionStatus::new(false, "nul"), SessionStatus::Starting);
    assert_eq!(SessionStatus::new(false, "/tmp/session.jsonl"), SessionStatus::Starting);
    assert_eq!(SessionStatus::new(false, ""), SessionStatus::Starting);
}

#[test]
fn null_devices() {
    assert!(null_device("/dev/null"));
    assert!(null_device("NUL"));
    assert!(!null_device("/dev/null/"));
    assert!(!null_device("/dev/zero"));
    assert!(!null_device(""));
}

#[test]
fn status_symbols_and_texts() {
    assert_eq!(SessionStatus::Resuming.icon(), "\u{21BB}");
    assert_eq!(SessionStatus::Unrecorded.icon(), "\u{26A1}");
    assert_eq!(SessionStatus::Starting.icon(), "\u{25B6}");
    assert_eq!(SessionStatus::Resuming.label(), "Resuming session");
    assert_eq!(SessionStatus::Unrecorded.label(), "Running without session");
    assert_eq!(SessionStatus::Starting.label(), "Starting new session");
}

#[test]
fn short_path_is_shown_in_full() {
    assert_eq!(STATUS_PATH_BYTES, 60);
    assert_eq!(STATUS_TAIL_BYTES, 57);
    assert_eq!(truncate_front("/tmp/session.jsonl"), "/tmp/session.jsonl");
    let sixty = "/aaaaaaaaaaaaaaaaaa/bbbbbbbbbbbbbbbbbb/ccccccccccccccccccc/d";
    assert_eq!(sixty.len(), 60);
    assert!(check_truncatable(sixty));
    assert_eq!(truncate_front(sixty), sixty);
    assert_eq!(truncate_front(""), "");
}

#[test]
fn long_path_keeps_its_end() {
    let path = "/home/me/.local/share/goose/sessions/2025-01-01/a-long-session-name.jsonl";
    assert_eq!(path.len(), 73);
    let shown = truncate_front(path);
    assert_eq!(shown, "...share/goose/sessions/2025-01-01/a-long-session-name.jsonl");
    assert_eq!(shown.len(), 60);
    assert_eq!(try_truncate_front(path), Some(shown));
}

#[test]
fn cut_inside_a_character_is_refused() {
    let mut path = String::from("/");
    while path.len() < 70 {
        path.push('ü');
    }
    path.push_str("xy");
    assert_eq!(path.len(), 73);
    assert!(!path.is_char_boundary(path.len() - 57));
    assert!(!check_truncatable(&path));
    assert_eq!(try_truncate_front(&path), None);
    let shifted = format!("{}y", path);
    assert!(check_truncatable(&shifted));
    assert_eq!(
        try_truncate_front(&shifted),
        Some(format!("...{}", &shifted[shifted.len() - 57..]))
    );
}

#[test]
fn levels_of_context_usage() {
    assert_eq!(UsageLevel::new(0), UsageLevel::Low);
    assert_eq!(UsageLevel::new(49), UsageLevel::Low);
    assert_eq!(UsageLevel::new(50), UsageLevel::Medium);
    assert_eq!(UsageLevel::new(84), UsageLevel::Medium);
    assert_eq!(UsageLevel::new(85), UsageLevel::High);
    assert_eq!(UsageLevel::new(100), UsageLevel::High);
    assert_eq!(UsageLevel::new(usize::MAX), UsageLevel::High);
}

#[test]
fn plural_for_several_names() {
    assert_eq!(plural_suffix("developer"), "");
    assert_eq!(plural_suffix("developer,memory"), "s");
    assert_eq!(plural_suffix(","), "s");
    assert_eq!(plural_suffix(""), "");
    assert_eq!(plural_suffix("a;b"), "");
}
