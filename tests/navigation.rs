use cards::command::{Command, Key};
use cards::entity::{Card, Stack};
use cards::state::{App, CardInputFocus, ConfigFocus, Selected};
use cards::ui::handle_key;

fn stack(id: i32, name: &str) -> Stack {
    Stack { id, name: name.to_string() }
}

fn card(id: i32, title: &str, text: &str, stack_id: i32) -> Card {
    Card { id, title: title.to_string(), text: text.to_string(), stack_id }
}

fn app_with_stacks(names: &[&str]) -> App {
    let items = names.iter().enumerate().map(|(i, n)| stack(i as i32 + 1, n)).collect();
    App::new(items, 7)
}

fn press(app: &mut App, key: Key) -> Command {
    handle_key(key, app)
}

fn type_text(app: &mut App, text: &str) {
    for c in text.chars() {
        assert!(matches!(press(app, Key::Char(c)), Command::Nothing));
    }
}

#[test]
fn new_selects_first_stack() {
    let app = app_with_stacks(&["A", "B"]);
    assert_eq!(app.stack_cursor, Some(0));
    assert_eq!(app.selected_window, Selected::Main);
    let empty = App::new(Vec::new(), 4);
    assert_eq!(empty.stack_cursor, None);
    assert_eq!(empty.highlight_color, 4);
}

#[test]
fn down_twice_then_wraps() {
    let mut app = app_with_stacks(&["A", "B", "C"]);
    press(&mut app, Key::Down);
    press(&mut app, Key::Down);
    assert_eq!(app.stack_cursor, Some(2));
    press(&mut app, Key::Down);
    assert_eq!(app.stack_cursor, Some(0));
}

#[test]
fn up_from_first_wraps_to_last() {
    let mut app = app_with_stacks(&["A", "B", "C"]);
    press(&mut app, Key::Up);
    assert_eq!(app.stack_cursor, Some(2));
    press(&mut app, Key::Char('k'));
    assert_eq!(app.stack_cursor, Some(1));
    press(&mut app, Key::Char('j'));
    assert_eq!(app.stack_cursor, Some(2));
}

#[test]
fn n_moves_return_to_start() {
    let mut app = app_with_stacks(&["A", "B", "C", "D"]);
    press(&mut app, Key::Down);
    for _ in 0..4 {
        press(&mut app, Key::Down);
    }
    assert_eq!(app.stack_cursor, Some(1));
    for _ in 0..4 {
        press(&mut app, Key::Up);
    }
    assert_eq!(app.stack_cursor, Some(1));
}

#[test]
fn movement_on_empty_list_is_noop() {
    let mut app = App::new(Vec::new(), 7);
    press(&mut app, Key::Down);
    press(&mut app, Key::Up);
    assert_eq!(app.stack_cursor, None);
}

#[test]
fn unlisted_keys_change_nothing() {
    let mut app = app_with_stacks(&["A"]);
    for key in [Key::Other, Key::Backspace, Key::Esc, Key::Char('x'), Key::Char('l')] {
        assert!(matches!(press(&mut app, key), Command::Nothing));
        assert_eq!(app.selected_window, Selected::Main);
        assert_eq!(app.stack_cursor, Some(0));
        assert_eq!(app.stack_name_input, "");
    }
    press(&mut app, Key::Char('d'));
    assert_eq!(app.selected_window, Selected::DeleteStackPopup);
    for key in [Key::Char('y'), Key::Tab, Key::Up, Key::Other] {
        assert!(matches!(press(&mut app, key), Command::Nothing));
        assert_eq!(app.selected_window, Selected::DeleteStackPopup);
    }
}

#[test]
fn stack_name_buffer_stops_at_bound() {
    let mut app = app_with_stacks(&[]);
    press(&mut app, Key::Char('a'));
    assert_eq!(app.selected_window, Selected::StackNameInput);
    type_text(&mut app, "abcdefghijklmnopqrstuv");
    assert_eq!(app.stack_name_input, "abcdefghijklmnopqrstuv");
    type_text(&mut app, "wxyz");
    assert_eq!(app.stack_name_input, "abcdefghijklmnopqrstuv");
    assert_eq!(app.stack_name_input.chars().count(), 22);
}

#[test]
fn card_buffers_stop_at_bounds() {
    let mut app = app_with_stacks(&["A"]);
    press(&mut app, Key::Tab);
    press(&mut app, Key::Char('a'));
    assert_eq!(app.selected_window, Selected::AddCard);
    let long_title = "t".repeat(35);
    type_text(&mut app, &long_title);
    assert_eq!(app.card_title_input, "t".repeat(30));
    press(&mut app, Key::Tab);
    assert_eq!(app.card_input_focus, CardInputFocus::Text);
    type_text(&mut app, &"x".repeat(120));
    assert_eq!(app.card_text_input, "x".repeat(100));
}

#[test]
fn backspace_on_empty_buffer_is_noop() {
    let mut app = app_with_stacks(&[]);
    press(&mut app, Key::Char('a'));
    press(&mut app, Key::Backspace);
    assert_eq!(app.stack_name_input, "");
    type_text(&mut app, "ab");
    press(&mut app, Key::Backspace);
    assert_eq!(app.stack_name_input, "a");
}

#[test]
fn add_stack_commits_and_clears() {
    let mut app = app_with_stacks(&["A"]);
    press(&mut app, Key::Char('a'));
    assert_eq!(app.stack_cursor, None);
    assert!(matches!(press(&mut app, Key::Enter), Command::Nothing));
    assert_eq!(app.selected_window, Selected::StackNameInput);
    type_text(&mut app, "Biology");
    match press(&mut app, Key::Enter) {
        Command::CreateStack { name } => assert_eq!(name, "Biology"),
        other => panic!("unexpected {:?}", other),
    }
    assert_eq!(app.stack_name_input, "");
    assert_eq!(app.selected_window, Selected::Main);
}

#[test]
fn escape_from_stack_name_clears_buffer() {
    let mut app = app_with_stacks(&["A"]);
    press(&mut app, Key::Char('a'));
    type_text(&mut app, "xy");
    press(&mut app, Key::Esc);
    assert_eq!(app.stack_name_input, "");
    assert_eq!(app.selected_window, Selected::Main);
}

#[test]
fn edit_stack_loads_name_and_renames() {
    let mut app = app_with_stacks(&["A", "Chemistry"]);
    press(&mut app, Key::Down);
    press(&mut app, Key::Char('e'));
    assert_eq!(app.selected_window, Selected::EditStackPopup);
    assert_eq!(app.stack_name_input, "Chemistry");
    press(&mut app, Key::Backspace);
    match press(&mut app, Key::Enter) {
        Command::RenameStack { id, name } => {
            assert_eq!(id, 2);
            assert_eq!(name, "Chemistr");
        }
        other => panic!("unexpected {:?}", other),
    }
    assert_eq!(app.selected_window, Selected::Main);
    assert_eq!(app.stack_name_input, "");
}

#[test]
fn edit_stack_cuts_long_name_to_bound() {
    let mut app = App::new(vec![stack(3, &"n".repeat(40))], 7);
    press(&mut app, Key::Char('e'));
    assert_eq!(app.stack_name_input, "n".repeat(22));
}

#[test]
fn delete_stack_clears_cursor() {
    let mut app = app_with_stacks(&["A", "B"]);
    press(&mut app, Key::Down);
    press(&mut app, Key::Char('d'));
    match press(&mut app, Key::Enter) {
        Command::DeleteStack { id } => assert_eq!(id, 2),
        other => panic!("unexpected {:?}", other),
    }
    assert_eq!(app.stack_cursor, None);
    assert_eq!(app.selected_window, Selected::Main);
    app.get_items(vec![stack(1, "A")]);
    assert_eq!(app.items.len(), 1);
    assert_eq!(app.stack_cursor, None);
}

#[test]
fn enter_on_main_needs_selection() {
    let mut app = App::new(Vec::new(), 7);
    press(&mut app, Key::Enter);
    assert_eq!(app.selected_window, Selected::Main);
    let mut app = app_with_stacks(&["A"]);
    press(&mut app, Key::Enter);
    assert_eq!(app.selected_window, Selected::Side);
}

#[test]
fn quit_from_main_and_side() {
    let mut app = app_with_stacks(&["A"]);
    assert!(matches!(press(&mut app, Key::Char('q')), Command::Quit));
    press(&mut app, Key::Tab);
    assert_eq!(app.selected_window, Selected::Side);
    assert!(matches!(press(&mut app, Key::Char('q')), Command::Quit));
    press(&mut app, Key::Esc);
    assert_eq!(app.selected_window, Selected::Main);
}

#[test]
fn add_card_needs_both_fields() {
    let mut app = app_with_stacks(&["A"]);
    press(&mut app, Key::Enter);
    press(&mut app, Key::Char('a'));
    assert_eq!(app.selected_window, Selected::AddCard);
    type_text(&mut app, "Q1");
    assert!(matches!(press(&mut app, Key::Enter), Command::Nothing));
    assert_eq!(app.selected_window, Selected::AddCard);
    assert_eq!(app.card_title_input, "Q1");
    assert_eq!(app.card_text_input, "");
}

#[test]
fn add_card_commits_under_selected_stack() {
    let mut app = app_with_stacks(&["A", "B"]);
    press(&mut app, Key::Down);
    press(&mut app, Key::Enter);
    press(&mut app, Key::Char('a'));
    type_text(&mut app, "Q1");
    press(&mut app, Key::Tab);
    type_text(&mut app, "A1");
    match press(&mut app, Key::Enter) {
        Command::CreateCard { stack_id, title, text } => {
            assert_eq!(stack_id, 2);
            assert_eq!(title, "Q1");
            assert_eq!(text, "A1");
        }
        other => panic!("unexpected {:?}", other),
    }
    assert_eq!(app.selected_window, Selected::Side);
    assert_eq!(app.card_title_input, "");
    assert_eq!(app.card_text_input, "");
    assert_eq!(app.card_input_focus, CardInputFocus::Title);
}

#[test]
fn add_card_escape_clears_both() {
    let mut app = app_with_stacks(&["A"]);
    press(&mut app, Key::Enter);
    press(&mut app, Key::Char('a'));
    type_text(&mut app, "T");
    press(&mut app, Key::Tab);
    type_text(&mut app, "X");
    press(&mut app, Key::Backspace);
    assert_eq!(app.card_text_input, "");
    press(&mut app, Key::Esc);
    assert_eq!(app.selected_window, Selected::Side);
    assert_eq!(app.card_title_input, "");
    assert_eq!(app.card_input_focus, CardInputFocus::Title);
}

fn app_in_card_list() -> App {
    let mut app = app_with_stacks(&["A"]);
    press(&mut app, Key::Enter);
    match press(&mut app, Key::Char('l')) {
        Command::ShowCards { stack_id } => assert_eq!(stack_id, 1),
        other => panic!("unexpected {:?}", other),
    }
    app.show_cards(vec![card(10, "t0", "x0", 1), card(11, "t1", "x1", 1), card(12, "t2", "x2", 1)]);
    app
}

#[test]
fn card_list_opens_on_first_card() {
    let app = app_in_card_list();
    assert_eq!(app.selected_window, Selected::CardList);
    assert_eq!(app.card_cursor, Some(0));
}

#[test]
fn card_list_on_empty_stack() {
    let mut app = app_with_stacks(&["A"]);
    press(&mut app, Key::Enter);
    press(&mut app, Key::Char('l'));
    app.show_cards(Vec::new());
    assert_eq!(app.selected_window, Selected::CardList);
    assert_eq!(app.card_cursor, None);
    press(&mut app, Key::Char('d'));
    assert_eq!(app.selected_window, Selected::CardList);
    press(&mut app, Key::Char('e'));
    assert_eq!(app.selected_window, Selected::CardList);
    press(&mut app, Key::Down);
    assert_eq!(app.card_cursor, None);
}

#[test]
fn card_cursor_wraps() {
    let mut app = app_in_card_list();
    press(&mut app, Key::Up);
    assert_eq!(app.card_cursor, Some(2));
    press(&mut app, Key::Char('j'));
    assert_eq!(app.card_cursor, Some(0));
    for _ in 0..3 {
        press(&mut app, Key::Down);
    }
    assert_eq!(app.card_cursor, Some(0));
}

#[test]
fn edit_card_updates_selected() {
    let mut app = app_in_card_list();
    press(&mut app, Key::Down);
    press(&mut app, Key::Char('e'));
    assert_eq!(app.selected_window, Selected::EditCard);
    assert_eq!(app.card_title_input, "t1");
    assert_eq!(app.card_text_input, "x1");
    type_text(&mut app, "!");
    match press(&mut app, Key::Enter) {
        Command::UpdateCard { id, title, text, stack_id } => {
            assert_eq!(id, 11);
            assert_eq!(title, "t1!");
            assert_eq!(text, "x1");
            assert_eq!(stack_id, 1);
        }
        other => panic!("unexpected {:?}", other),
    }
    assert_eq!(app.selected_window, Selected::CardList);
    assert_eq!(app.card_title_input, "");
}

#[test]
fn delete_card_then_reload_clamps_cursor() {
    let mut app = app_in_card_list();
    press(&mut app, Key::Up);
    press(&mut app, Key::Char('d'));
    assert_eq!(app.selected_window, Selected::DeleteCard);
    match press(&mut app, Key::Enter) {
        Command::DeleteCard { id, stack_id } => {
            assert_eq!(id, 12);
            assert_eq!(stack_id, 1);
        }
        other => panic!("unexpected {:?}", other),
    }
    assert_eq!(app.selected_window, Selected::CardList);
    app.list_cards(vec![card(10, "t0", "x0", 1), card(11, "t1", "x1", 1)]);
    assert_eq!(app.card_cursor, Some(1));
    app.list_cards(Vec::new());
    assert_eq!(app.card_cursor, None);
}

#[test]
fn delete_card_escape_returns_to_list() {
    let mut app = app_in_card_list();
    press(&mut app, Key::Char('d'));
    assert!(matches!(press(&mut app, Key::Esc), Command::Nothing));
    assert_eq!(app.selected_window, Selected::CardList);
    assert_eq!(app.cards.len(), 3);
}

fn app_in_revision(n: usize) -> App {
    let mut app = app_with_stacks(&["A"]);
    press(&mut app, Key::Enter);
    match press(&mut app, Key::Char('s')) {
        Command::StartRevision { stack_id } => assert_eq!(stack_id, 1),
        other => panic!("unexpected {:?}", other),
    }
    let cards = (0..n).map(|i| card(i as i32 + 1, "t", "x", 1)).collect();
    app.start_revision(cards);
    app
}

#[test]
fn revision_needs_cards() {
    let app = app_in_revision(0);
    assert_eq!(app.selected_window, Selected::Side);
}

#[test]
fn revision_cycles_through_all_cards() {
    let m = 3;
    let mut app = app_in_revision(m);
    assert_eq!(app.selected_window, Selected::RevisionTitle);
    assert_eq!(app.revision_index, 0);
    for k in 0..m {
        assert_eq!(app.selected_window, Selected::RevisionTitle);
        assert_eq!(app.revision_index, k);
        press(&mut app, Key::Enter);
        assert_eq!(app.selected_window, Selected::RevisionText);
        press(&mut app, Key::Enter);
    }
    assert_eq!(app.selected_window, Selected::Side);
    assert_eq!(app.revision_index, 0);
}

#[test]
fn revision_escape_paths() {
    let mut app = app_in_revision(2);
    press(&mut app, Key::Enter);
    press(&mut app, Key::Esc);
    assert_eq!(app.selected_window, Selected::RevisionTitle);
    assert_eq!(app.revision_index, 0);
    press(&mut app, Key::Enter);
    press(&mut app, Key::Enter);
    assert_eq!(app.revision_index, 1);
    press(&mut app, Key::Enter);
    press(&mut app, Key::Esc);
    assert_eq!(app.selected_window, Selected::Side);
    assert_eq!(app.revision_index, 0);
    let mut app = app_in_revision(2);
    press(&mut app, Key::Esc);
    assert_eq!(app.selected_window, Selected::Side);
    assert_eq!(app.revision_index, 0);
}

fn app_in_config(stored: &str) -> App {
    let mut app = app_with_stacks(&["A"]);
    assert!(matches!(press(&mut app, Key::Char('c')), Command::OpenConfig));
    assert_eq!(app.selected_window, Selected::Main);
    app.open_config(stored.to_string());
    app
}

#[test]
fn config_opens_with_current_values() {
    let app = app_in_config(".config/cards/cards.db");
    assert_eq!(app.selected_window, Selected::ConfigOptions);
    assert_eq!(app.config_input_1, ".config/cards/cards.db");
    assert_eq!(app.config_input_2, "7");
}

#[test]
fn config_rejects_non_numeric_color() {
    let mut app = app_in_config("/tmp/x.db");
    press(&mut app, Key::Tab);
    assert_eq!(app.config_input_focus, ConfigFocus::HighlightColor);
    press(&mut app, Key::Backspace);
    type_text(&mut app, "abc");
    assert_eq!(app.config_input_1, "/tmp/x.db");
    assert_eq!(app.config_input_2, "abc");
    assert!(matches!(press(&mut app, Key::Enter), Command::Nothing));
    assert_eq!(app.selected_window, Selected::ConfigOptions);
    assert_eq!(app.config_input_1, "/tmp/x.db");
    assert_eq!(app.config_input_2, "abc");
    assert_eq!(app.stack_cursor, Some(0));
}

#[test]
fn config_rejects_color_out_of_range() {
    let mut app = app_in_config("/tmp/x.db");
    press(&mut app, Key::Tab);
    type_text(&mut app, "00");
    assert_eq!(app.config_input_2, "700");
    assert!(matches!(press(&mut app, Key::Enter), Command::Nothing));
    assert_eq!(app.selected_window, Selected::ConfigOptions);
}

#[test]
fn config_rejects_empty_buffer() {
    let mut app = app_in_config("");
    assert!(matches!(press(&mut app, Key::Enter), Command::Nothing));
    assert_eq!(app.selected_window, Selected::ConfigOptions);
}

#[test]
fn config_commit_and_apply() {
    let mut app = app_in_config("a.db");
    type_text(&mut app, "x");
    press(&mut app, Key::Tab);
    press(&mut app, Key::Backspace);
    type_text(&mut app, "12");
    match press(&mut app, Key::Enter) {
        Command::ApplyConfig { db_file, highlight_color } => {
            assert_eq!(db_file, "a.dbx");
            assert_eq!(highlight_color, 12);
        }
        other => panic!("unexpected {:?}", other),
    }
    assert_eq!(app.selected_window, Selected::Main);
    assert_eq!(app.stack_cursor, None);
    assert_eq!(app.config_input_focus, ConfigFocus::DbFile);
    app.config_applied(vec![stack(5, "Z")], 12);
    assert_eq!(app.items.len(), 1);
    assert_eq!(app.highlight_color, 12);
    assert_eq!(app.stack_cursor, None);
}

#[test]
fn config_escape_returns_to_main() {
    let mut app = app_in_config("a.db");
    press(&mut app, Key::Esc);
    assert_eq!(app.selected_window, Selected::Main);
}

#[test]
fn edit_card_escape_clears_and_returns_to_side() {
    let mut app = app_in_card_list();
    press(&mut app, Key::Char('e'));
    assert_eq!(app.card_title_input, "t0");
    press(&mut app, Key::Tab);
    assert!(matches!(press(&mut app, Key::Esc), Command::Nothing));
    assert_eq!(app.selected_window, Selected::Side);
    assert_eq!(app.card_title_input, "");
    assert_eq!(app.card_text_input, "");
    assert_eq!(app.card_input_focus, CardInputFocus::Title);
}

#[test]
fn edit_card_needs_both_fields() {
    let mut app = app_in_card_list();
    press(&mut app, Key::Char('e'));
    press(&mut app, Key::Tab);
    press(&mut app, Key::Backspace);
    press(&mut app, Key::Backspace);
    assert_eq!(app.card_text_input, "");
    assert!(matches!(press(&mut app, Key::Enter), Command::Nothing));
    assert_eq!(app.selected_window, Selected::EditCard);
}

#[test]
fn revision_ignores_other_keys() {
    let mut app = app_in_revision(2);
    for key in [Key::Char('q'), Key::Tab, Key::Down, Key::Backspace] {
        assert!(matches!(press(&mut app, key), Command::Nothing));
        assert_eq!(app.selected_window, Selected::RevisionTitle);
        assert_eq!(app.revision_index, 0);
    }
}

#[test]
fn edit_stack_escape_clears_buffer() {
    let mut app = app_with_stacks(&["Physics"]);
    press(&mut app, Key::Char('e'));
    assert_eq!(app.stack_name_input, "Physics");
    press(&mut app, Key::Esc);
    assert_eq!(app.selected_window, Selected::Main);
    assert_eq!(app.stack_name_input, "");
}
