use cards::buffer::{backspace, copy_bounded, push_bounded};
use cards::color::{color_text, parse_color};
use cards::config::{
    config_dir_path, config_file_path, default_db_path, home_path, resolve_db_file, Config,
};
use cards::cursor::{clamp, step_backward, step_forward};
use cards::ui::terminal_fits;

#[test]
fn push_bounded_appends_under_bound() {
    let mut s = String::from("ab");
    push_bounded(&mut s, 'c', 3);
    assert_eq!(s, "abc");
    push_bounded(&mut s, 'd', 3);
    assert_eq!(s, "abc");
}

#[test]
fn push_bounded_counts_characters() {
    let mut s = String::from("éé");
    push_bounded(&mut s, 'ü', 3);
    assert_eq!(s, "ééü");
    push_bounded(&mut s, 'x', 3);
    assert_eq!(s, "ééü");
}

#[test]
fn backspace_removes_last() {
    let mut s = String::from("xyz");
    backspace(&mut s);
    assert_eq!(s, "xy");
    let mut e = String::new();
    backspace(&mut e);
    assert_eq!(e, "");
}

#[test]
fn copy_bounded_cuts() {
    assert_eq!(copy_bounded(&"abcdef".to_string(), 4), "abcd");
    assert_eq!(copy_bounded(&"ab".to_string(), 4), "ab");
    assert_eq!(copy_bounded(&"äöüß".to_string(), 2), "äö");
}

#[test]
fn parse_color_accepts_small_numbers() {
    assert_eq!(parse_color(&"7".to_string()), Some(7));
    assert_eq!(parse_color(&"255".to_string()), Some(255));
    assert_eq!(parse_color(&"0".to_string()), Some(0));
    assert_eq!(parse_color(&"007".to_string()), Some(7));
    assert_eq!(parse_color(&"+12".to_string()), Some(12));
}

#[test]
fn parse_color_rejects_others() {
    assert_eq!(parse_color(&"abc".to_string()), None);
    assert_eq!(parse_color(&"".to_string()), None);
    assert_eq!(parse_color(&"+".to_string()), None);
    assert_eq!(parse_color(&"256".to_string()), None);
    assert_eq!(parse_color(&"99999999999".to_string()), None);
    assert_eq!(parse_color(&"-1".to_string()), None);
    assert_eq!(parse_color(&"1a".to_string()), None);
    assert_eq!(parse_color(&" 1".to_string()), None);
}

#[test]
fn parse_color_agrees_with_std() {
    for n in 0..=300u32 {
        let s = n.to_string();
        assert_eq!(parse_color(&s), s.parse::<u8>().ok());
    }
}

#[test]
fn color_text_is_decimal() {
    assert_eq!(color_text(0), "0");
    assert_eq!(color_text(7), "7");
    assert_eq!(color_text(42), "42");
    assert_eq!(color_text(100), "100");
    assert_eq!(color_text(255), "255");
    for n in 0..=255u8 {
        assert_eq!(color_text(n), n.to_string());
        assert_eq!(parse_color(&color_text(n)), Some(n));
    }
}

#[test]
fn config_paths() {
    assert_eq!(home_path("/home/u", "a/b"), "/home/u/a/b");
    assert_eq!(config_dir_path("/home/u"), "/home/u/.config/cards/");
    assert_eq!(config_file_path("/home/u"), "/home/u/.config/cards/config.json");
    assert_eq!(default_db_path("/home/u"), "/home/u/.config/cards/cards.db");
    assert_eq!(resolve_db_file("/h", "x.db", true), "/h/x.db");
    assert_eq!(resolve_db_file("/h", "x.db", false), "/h/.config/cards/cards.db");
}

#[test]
fn initial_config() {
    let c = Config::initial();
    assert_eq!(c.db_file, ".config/cards/cards.db");
    assert_eq!(c.highlight_color, 4);
}

#[test]
fn cursor_steps() {
    assert_eq!(step_forward(Some(2), 3), Some(0));
    assert_eq!(step_forward(Some(0), 3), Some(1));
    assert_eq!(step_forward(None, 3), Some(0));
    assert_eq!(step_forward(None, 0), None);
    assert_eq!(step_backward(Some(0), 3), Some(2));
    assert_eq!(step_backward(Some(2), 3), Some(1));
    assert_eq!(step_backward(None, 3), Some(0));
    assert_eq!(step_backward(None, 0), None);
}

#[test]
fn cursor_clamp() {
    assert_eq!(clamp(Some(5), 3), Some(2));
    assert_eq!(clamp(Some(1), 3), Some(1));
    assert_eq!(clamp(Some(0), 0), None);
    assert_eq!(clamp(None, 3), None);
}

#[test]
fn terminal_size_threshold() {
    assert!(terminal_fits(173, 48));
    assert!(!terminal_fits(172, 48));
    assert!(!terminal_fits(200, 47));
}
