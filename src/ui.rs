//! The navigation controller: how each screen interprets key presses.
pub mod main_screen;
pub mod side;
pub mod stack_name_input;
pub mod edit_stack_popup;
pub mod delete_stack_popup;
pub mod add_card;
pub mod edit_card;
pub mod card_list;
pub mod delete_card;
pub mod revision_title;
pub mod revision_text;
pub mod config_options;

use vstd::prelude::*;
use crate::command::{Command, CommandView, Key};
use crate::state::{App, AppView, Selected};
use crate::ui::add_card::add_card_step;
use crate::ui::card_list::card_list_step;
use crate::ui::config_options::config_options_step;
use crate::ui::delete_card::delete_card_step;
use crate::ui::delete_stack_popup::delete_stack_popup_step;
use crate::ui::edit_card::edit_card_step;
use crate::ui::edit_stack_popup::edit_stack_popup_step;
use crate::ui::main_screen::main_step;
use crate::ui::revision_text::revision_text_step;
use crate::ui::revision_title::revision_title_step;
use crate::ui::side::side_step;
use crate::ui::stack_name_input::stack_name_input_step;

verus! {

/// Narrowest terminal, in columns, on which the screens are drawn.
pub const MIN_WIDTH: u16 = 173;

/// Shortest terminal, in rows, on which the screens are drawn.
pub const MIN_HEIGHT: u16 = 48;

/// Whether a terminal of `width` columns and `height` rows is large enough
/// for the screens; a smaller one shows only a notice.
pub fn terminal_fits(width: u16, height: u16) -> (r: bool)
    ensures
        r == (width >= MIN_WIDTH && height >= MIN_HEIGHT),
{
    width >= MIN_WIDTH && height >= MIN_HEIGHT
}

/// The state and command after key `k` in state `v`: the active screen
/// interprets the key.
pub open spec fn step(v: AppView, k: Key) -> (AppView, CommandView) {
    match v.selected_window {
        Selected::Main => main_step(v, k),
        Selected::Side => side_step(v, k),
        Selected::StackNameInput => stack_name_input_step(v, k),
        Selected::DeleteStackPopup => delete_stack_popup_step(v, k),
        Selected::EditStackPopup => edit_stack_popup_step(v, k),
        Selected::AddCard => add_card_step(v, k),
        Selected::CardList => card_list_step(v, k),
        Selected::DeleteCard => delete_card_step(v, k),
        Selected::EditCard => edit_card_step(v, k),
        Selected::RevisionTitle => revision_title_step(v, k),
        Selected::RevisionText => revision_text_step(v, k),
        Selected::ConfigOptions => config_options_step(v, k),
    }
}

/// The state after the keys `keys`, pressed in order from state `v`.
pub open spec fn run(v: AppView, keys: Seq<Key>) -> AppView
    decreases keys.len(),
{
    if keys.len() == 0 {
        v
    } else {
        step(run(v, keys.drop_last()), keys.last()).0
    }
}

/// The keys that screen `s` gives a meaning to.
pub open spec fn key_listed(s: Selected, k: Key) -> bool {
    match s {
        Selected::Main => match k {
            Key::Up | Key::Down | Key::Tab | Key::Enter => true,
            Key::Char(c) => c == 'k' || c == 'j' || c == 'a' || c == 'd' || c == 'e' || c == 'c'
                || c == 'q',
            _ => false,
        },
        Selected::Side => match k {
            Key::Tab | Key::Esc => true,
            Key::Char(c) => c == 'a' || c == 'l' || c == 's' || c == 'q',
            _ => false,
        },
        Selected::StackNameInput | Selected::EditStackPopup => match k {
            Key::Char(_) | Key::Backspace | Key::Esc | Key::Enter => true,
            _ => false,
        },
        Selected::DeleteStackPopup | Selected::DeleteCard | Selected::RevisionTitle
        | Selected::RevisionText => match k {
            Key::Enter | Key::Esc => true,
            _ => false,
        },
        Selected::AddCard | Selected::EditCard | Selected::ConfigOptions => match k {
            Key::Char(_) | Key::Tab | Key::Backspace | Key::Esc | Key::Enter => true,
            _ => false,
        },
        Selected::CardList => match k {
            Key::Up | Key::Down | Key::Esc => true,
            Key::Char(c) => c == 'j' || c == 'k' || c == 'd' || c == 'e',
            _ => false,
        },
    }
}

/// Handles one key press: the active screen interprets it, and what is
/// left for the store or the configuration service comes back.
pub fn handle_key(key: Key, app: &mut App) -> (r: Command)
    requires
        old(app).wf(),
    ensures
        final(app).wf(),
        (final(app)@, r@) == step(old(app)@, key),
{
    match app.selected_window {
        Selected::Main => main_screen::handle_events(key, app),
        Selected::Side => side::handle_events(key, app),
        Selected::StackNameInput => stack_name_input::handle_events(key, app),
        Selected::DeleteStackPopup => delete_stack_popup::handle_events(key, app),
        Selected::EditStackPopup => edit_stack_popup::handle_events(key, app),
        Selected::AddCard => add_card::handle_events(key, app),
        Selected::CardList => card_list::handle_events(key, app),
        Selected::DeleteCard => delete_card::handle_events(key, app),
        Selected::EditCard => edit_card::handle_events(key, app),
        Selected::RevisionTitle => revision_title::handle_events(key, app),
        Selected::RevisionText => revision_text::handle_events(key, app),
        Selected::ConfigOptions => config_options::handle_events(key, app),
    }
}

} // verus!
