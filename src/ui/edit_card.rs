//! The popup that rewrites the selected card.
use vstd::prelude::*;
use crate::command::{Command, CommandView, Key};
use crate::state::{selected_card_id, selected_stack_id, App, AppView, Selected};
use crate::ui::add_card::{
    card_entry_step, card_form_closed, card_form_filled, close_card_form, edit_card_form,
    is_card_form_filled,
};

verus! {

pub open spec fn edit_card_step(v: AppView, k: Key) -> (AppView, CommandView) {
    match k {
        Key::Esc => (card_form_closed(v, Selected::Side), CommandView::Nothing),
        Key::Enter => if card_form_filled(v) {
            (
                card_form_closed(v, Selected::CardList),
                CommandView::UpdateCard {
                    id: selected_card_id(v),
                    title: v.card_title_input,
                    text: v.card_text_input,
                    stack_id: selected_stack_id(v),
                },
            )
        } else {
            (v, CommandView::Nothing)
        },
        _ => (card_entry_step(v, k), CommandView::Nothing),
    }
}

/// Handles a key in the popup that rewrites the selected card.
pub fn handle_events(key: Key, app: &mut App) -> (r: Command)
    requires
        old(app).wf(),
        old(app).selected_window == Selected::EditCard,
    ensures
        final(app).wf(),
        (final(app)@, r@) == edit_card_step(old(app)@, key),
{
    match key {
        Key::Esc => {
            close_card_form(app, Selected::Side);
            Command::Nothing
        },
        Key::Enter => {
            if is_card_form_filled(app) {
                let r = app.edit_card();
                close_card_form(app, Selected::CardList);
                r
            } else {
                Command::Nothing
            }
        },
        _ => {
            edit_card_form(key, app);
            Command::Nothing
        },
    }
}

} // verus!
