//! The popup that writes a new card into the selected stack.
use vstd::prelude::*;
use crate::buffer::{backspace, bounded_push, push_bounded, without_last};
use crate::command::{Command, CommandView, Key};
use crate::entity::{MAX_CARD_TEXT, MAX_CARD_TITLE};
use crate::state::{selected_stack_id, App, AppView, CardInputFocus, Selected};

verus! {

/// Typing, Tab and Backspace in a popup that edits a card's title and
/// text: the two card popups treat them alike.
pub open spec fn card_entry_step(v: AppView, k: Key) -> AppView {
    match k {
        Key::Char(c) => match v.card_input_focus {
            CardInputFocus::Title => AppView {
                card_title_input: bounded_push(v.card_title_input, c, MAX_CARD_TITLE as nat),
                ..v
            },
            CardInputFocus::Text => AppView {
                card_text_input: bounded_push(v.card_text_input, c, MAX_CARD_TEXT as nat),
                ..v
            },
        },
        Key::Tab => AppView {
            card_input_focus: match v.card_input_focus {
                CardInputFocus::Title => CardInputFocus::Text,
                CardInputFocus::Text => CardInputFocus::Title,
            },
            ..v
        },
        Key::Backspace => match v.card_input_focus {
            CardInputFocus::Title => AppView { card_title_input: without_last(v.card_title_input), ..v },
            CardInputFocus::Text => AppView { card_text_input: without_last(v.card_text_input), ..v },
        },
        _ => v,
    }
}

/// The state with both card buffers cleared and the title focused, on
/// screen `s`.
pub open spec fn card_form_closed(v: AppView, s: Selected) -> AppView {
    AppView {
        card_title_input: Seq::empty(),
        card_text_input: Seq::empty(),
        card_input_focus: CardInputFocus::Title,
        selected_window: s,
        ..v
    }
}

/// Whether both card buffers hold text.
pub open spec fn card_form_filled(v: AppView) -> bool {
    v.card_title_input.len() > 0 && v.card_text_input.len() > 0
}

pub open spec fn add_card_step(v: AppView, k: Key) -> (AppView, CommandView) {
    match k {
        Key::Esc => (card_form_closed(v, Selected::Side), CommandView::Nothing),
        Key::Enter => if card_form_filled(v) {
            (
                card_form_closed(v, Selected::Side),
                CommandView::CreateCard {
                    stack_id: selected_stack_id(v),
                    title: v.card_title_input,
                    text: v.card_text_input,
                },
            )
        } else {
            (v, CommandView::Nothing)
        },
        _ => (card_entry_step(v, k), CommandView::Nothing),
    }
}

/// Handles typing, Tab and Backspace in either card popup.
pub fn edit_card_form(key: Key, app: &mut App)
    requires
        old(app).wf(),
    ensures
        final(app).wf(),
        final(app)@ == card_entry_step(old(app)@, key),
{
    match key {
        Key::Char(c) => match app.card_input_focus {
            CardInputFocus::Title => push_bounded(&mut app.card_title_input, c, MAX_CARD_TITLE),
            CardInputFocus::Text => push_bounded(&mut app.card_text_input, c, MAX_CARD_TEXT),
        },
        Key::Tab => {
            app.card_input_focus = match app.card_input_focus {
                CardInputFocus::Title => CardInputFocus::Text,
                CardInputFocus::Text => CardInputFocus::Title,
            };
        },
        Key::Backspace => match app.card_input_focus {
            CardInputFocus::Title => backspace(&mut app.card_title_input),
            CardInputFocus::Text => backspace(&mut app.card_text_input),
        },
        _ => {},
    }
}

/// Clears both card buffers, focuses the title and shows screen `s`.
pub fn close_card_form(app: &mut App, s: Selected)
    requires
        old(app).wf(),
        !crate::state::is_revision(s),
        !crate::state::is_revision(old(app).selected_window),
    ensures
        final(app).wf(),
        final(app)@ == card_form_closed(old(app)@, s),
{
    app.card_title_input = String::new();
    app.card_text_input = String::new();
    app.card_input_focus = CardInputFocus::Title;
    app.selected_window = s;
}

/// Whether both card buffers hold text.
pub fn is_card_form_filled(app: &App) -> (r: bool)
    ensures
        r == card_form_filled(app@),
{
    !app.card_title_input.as_str().is_empty() && !app.card_text_input.as_str().is_empty()
}

/// Handles a key in the popup that writes a new card.
pub fn handle_events(key: Key, app: &mut App) -> (r: Command)
    requires
        old(app).wf(),
        old(app).selected_window == Selected::AddCard,
    ensures
        final(app).wf(),
        (final(app)@, r@) == add_card_step(old(app)@, key),
{
    match key {
        Key::Esc => {
            close_card_form(app, Selected::Side);
            Command::Nothing
        },
        Key::Enter => {
            if is_card_form_filled(app) {
                let r = app.add_card(app.card_title_input.clone(), app.card_text_input.clone());
                close_card_form(app, Selected::Side);
                r
            } else {
                Command::Nothing
            }
        },
        _ => {
            edit_card_form(key, app);
            Command::Nothing
        },
    }
}

} // verus!
