//! The list of the selected stack's cards.
use vstd::prelude::*;
use crate::buffer::{bounded_prefix, copy_bounded};
use crate::command::{Command, CommandView, Key};
use crate::cursor::{cursor_backward, cursor_forward};
use crate::entity::{MAX_CARD_TEXT, MAX_CARD_TITLE};
use crate::state::{App, AppView, Selected};

verus! {

/// The card buffers loaded from the selected card, if one is selected.
pub open spec fn with_selected_card(v: AppView) -> AppView {
    match v.card_cursor {
        Some(i) => AppView {
            card_title_input: bounded_prefix(v.cards[i as int].title, MAX_CARD_TITLE as nat),
            card_text_input: bounded_prefix(v.cards[i as int].text, MAX_CARD_TEXT as nat),
            ..v
        },
        None => v,
    }
}

pub open spec fn card_list_step(v: AppView, k: Key) -> (AppView, CommandView) {
    match k {
        Key::Down | Key::Char('j') => (
            AppView { card_cursor: cursor_forward(v.card_cursor, v.cards.len()), ..v },
            CommandView::Nothing,
        ),
        Key::Up | Key::Char('k') => (
            AppView { card_cursor: cursor_backward(v.card_cursor, v.cards.len()), ..v },
            CommandView::Nothing,
        ),
        Key::Char('d') => if v.cards.len() > 0 {
            (AppView { selected_window: Selected::DeleteCard, ..v }, CommandView::Nothing)
        } else {
            (v, CommandView::Nothing)
        },
        Key::Char('e') => if v.cards.len() > 0 {
            (
                AppView { selected_window: Selected::EditCard, ..with_selected_card(v) },
                CommandView::Nothing,
            )
        } else {
            (v, CommandView::Nothing)
        },
        Key::Esc => (AppView { selected_window: Selected::Side, ..v }, CommandView::Nothing),
        _ => (v, CommandView::Nothing),
    }
}

/// Handles a key in the card list.
pub fn handle_events(key: Key, app: &mut App) -> (r: Command)
    requires
        old(app).wf(),
        old(app).selected_window == Selected::CardList,
    ensures
        final(app).wf(),
        (final(app)@, r@) == card_list_step(old(app)@, key),
{
    match key {
        Key::Down | Key::Char('j') => app.next_card(),
        Key::Up | Key::Char('k') => app.back_card(),
        Key::Char('d') => {
            if app.cards.len() > 0 {
                app.selected_window = Selected::DeleteCard;
            }
        },
        Key::Char('e') => {
            if app.cards.len() > 0 {
                match app.card_cursor {
                    Some(i) => {
                        app.card_title_input = copy_bounded(&app.cards[i].title, MAX_CARD_TITLE);
                        app.card_text_input = copy_bounded(&app.cards[i].text, MAX_CARD_TEXT);
                    },
                    None => {},
                }
                app.selected_window = Selected::EditCard;
            }
        },
        Key::Esc => {
            app.selected_window = Selected::Side;
        },
        _ => {},
    }
    Command::Nothing
}

} // verus!
