//! Properties of the navigation controller as a whole.
use vstd::prelude::*;
use crate::command::{CommandView, Key};
use crate::cursor::{backward_steps, forward_steps, lemma_backward_wraps_around, lemma_forward_wraps_around};
use crate::entity::{MAX_CARD_TEXT, MAX_CARD_TITLE, MAX_STACK_NAME};
use crate::state::{app_inv, AppView, CardInputFocus, Selected};
use crate::ui::{key_listed, run, step};

verus! {

/// `n` presses of key `k`.
pub open spec fn presses(k: Key, n: nat) -> Seq<Key> {
    Seq::new(n, |i: int| k)
}

/// A key that the active screen gives no meaning to changes nothing: not
/// the screen, not a buffer, not a cursor, and no command comes of it.
pub proof fn lemma_unlisted_key_is_ignored(v: AppView, k: Key)
    requires
        !key_listed(v.selected_window, k),
    ensures
        step(v, k) == (v, CommandView::Nothing),
{
}

/// Whether the buffer that typing goes to on the active screen holds its
/// maximum.
pub open spec fn focused_buffer_full(v: AppView) -> bool {
    match v.selected_window {
        Selected::StackNameInput | Selected::EditStackPopup => v.stack_name_input.len()
            >= MAX_STACK_NAME,
        Selected::AddCard | Selected::EditCard => match v.card_input_focus {
            CardInputFocus::Title => v.card_title_input.len() >= MAX_CARD_TITLE,
            CardInputFocus::Text => v.card_text_input.len() >= MAX_CARD_TEXT,
        },
        _ => false,
    }
}

/// Typing into a buffer that holds its maximum changes nothing.
pub proof fn lemma_full_buffer_ignores_char(v: AppView, c: char)
    requires
        focused_buffer_full(v),
    ensures
        step(v, Key::Char(c)) == (v, CommandView::Nothing),
{
}

/// However many characters are typed into a buffer that holds its maximum,
/// the state stays as it is.
pub proof fn lemma_full_buffer_ignores_typing(v: AppView, keys: Seq<Key>)
    requires
        focused_buffer_full(v),
        forall|i: int| 0 <= i < keys.len() ==> #[trigger] keys[i] is Char,
    ensures
        run(v, keys) == v,
    decreases keys.len(),
{
    if keys.len() > 0 {
        lemma_full_buffer_ignores_typing(v, keys.drop_last());
        assert(keys[keys.len() - 1] is Char);
        lemma_full_buffer_ignores_char(v, keys.last()->0);
    }
}

proof fn lemma_presses_drop_last(k: Key, n: nat)
    requires
        n > 0,
    ensures
        presses(k, n).drop_last() == presses(k, (n - 1) as nat),
        presses(k, n).last() == k,
{
    assert(presses(k, n).drop_last() =~= presses(k, (n - 1) as nat));
}

proof fn lemma_main_down_presses(v: AppView, n: nat)
    requires
        v.selected_window == Selected::Main,
    ensures
        run(v, presses(Key::Down, n)) == (AppView {
            stack_cursor: forward_steps(v.stack_cursor, v.items.len(), n),
            ..v
        }),
    decreases n,
{
    if n > 0 {
        lemma_presses_drop_last(Key::Down, n);
        lemma_main_down_presses(v, (n - 1) as nat);
    }
}

proof fn lemma_main_up_presses(v: AppView, n: nat)
    requires
        v.selected_window == Selected::Main,
    ensures
        run(v, presses(Key::Up, n)) == (AppView {
            stack_cursor: backward_steps(v.stack_cursor, v.items.len(), n),
            ..v
        }),
    decreases n,
{
    if n > 0 {
        lemma_presses_drop_last(Key::Up, n);
        lemma_main_up_presses(v, (n - 1) as nat);
    }
}

/// On the main screen, pressing Down once per stack, or Up once per stack,
/// comes back to the state it started from.
pub proof fn lemma_stack_cursor_cycles(v: AppView)
    requires
        app_inv(v),
        v.selected_window == Selected::Main,
        v.stack_cursor is Some,
        v.items.len() <= usize::MAX,
    ensures
        run(v, presses(Key::Down, v.items.len())) == v,
        run(v, presses(Key::Up, v.items.len())) == v,
{
    let i = v.stack_cursor->0;
    lemma_main_down_presses(v, v.items.len());
    lemma_main_up_presses(v, v.items.len());
    lemma_forward_wraps_around(v.items.len(), i);
    lemma_backward_wraps_around(v.items.len(), i);
}

proof fn lemma_card_list_down_presses(v: AppView, n: nat)
    requires
        v.selected_window == Selected::CardList,
    ensures
        run(v, presses(Key::Down, n)) == (AppView {
            card_cursor: forward_steps(v.card_cursor, v.cards.len(), n),
            ..v
        }),
    decreases n,
{
    if n > 0 {
        lemma_presses_drop_last(Key::Down, n);
        lemma_card_list_down_presses(v, (n - 1) as nat);
    }
}

proof fn lemma_card_list_up_presses(v: AppView, n: nat)
    requires
        v.selected_window == Selected::CardList,
    ensures
        run(v, presses(Key::Up, n)) == (AppView {
            card_cursor: backward_steps(v.card_cursor, v.cards.len(), n),
            ..v
        }),
    decreases n,
{
    if n > 0 {
        lemma_presses_drop_last(Key::Up, n);
        lemma_card_list_up_presses(v, (n - 1) as nat);
    }
}

/// In the card list, pressing Down once per card, or Up once per card,
/// comes back to the state it started from.
pub proof fn lemma_card_cursor_cycles(v: AppView)
    requires
        app_inv(v),
        v.selected_window == Selected::CardList,
        v.card_cursor is Some,
        v.cards.len() <= usize::MAX,
    ensures
        run(v, presses(Key::Down, v.cards.len())) == v,
        run(v, presses(Key::Up, v.cards.len())) == v,
{
    let i = v.card_cursor->0;
    lemma_card_list_down_presses(v, v.cards.len());
    lemma_card_list_up_presses(v, v.cards.len());
    lemma_forward_wraps_around(v.cards.len(), i);
    lemma_backward_wraps_around(v.cards.len(), i);
}

proof fn lemma_revision_partial(v: AppView, k: nat)
    requires
        app_inv(v),
        v.selected_window == Selected::RevisionTitle,
        v.revision_index == 0,
        k < v.cards.len() <= usize::MAX,
    ensures
        run(v, presses(Key::Enter, 2 * k)) == (AppView { revision_index: k as usize, ..v }),
    decreases k,
{
    if k > 0 {
        let prev = (k - 1) as nat;
        lemma_revision_partial(v, prev);
        lemma_presses_drop_last(Key::Enter, 2 * k);
        lemma_presses_drop_last(Key::Enter, (2 * k - 1) as nat);
        assert((2 * k - 1 - 1) as nat == 2 * prev);
        let at_title = run(v, presses(Key::Enter, 2 * prev));
        let at_text = run(v, presses(Key::Enter, (2 * k - 1) as nat));
        assert(at_text == step(at_title, Key::Enter).0);
        assert(run(v, presses(Key::Enter, 2 * k)) == step(at_text, Key::Enter).0);
    }
}

/// A revision started on the first of M cards: each of the first M - 1
/// cycles of Enter, Enter moves to the next card's title, and the M-th
/// returns to the stack screen with the revision reset.
pub proof fn lemma_revision_completes(v: AppView, k: nat)
    requires
        app_inv(v),
        v.selected_window == Selected::RevisionTitle,
        v.revision_index == 0,
        k <= v.cards.len() <= usize::MAX,
    ensures
        k < v.cards.len() ==> run(v, presses(Key::Enter, 2 * k)) == (AppView {
            revision_index: k as usize,
            ..v
        }),
        k == v.cards.len() ==> run(v, presses(Key::Enter, 2 * k)) == (AppView {
            selected_window: Selected::Side,
            ..v
        }),
{
    if k < v.cards.len() {
        lemma_revision_partial(v, k);
    } else {
        let prev = (k - 1) as nat;
        lemma_revision_partial(v, prev);
        lemma_presses_drop_last(Key::Enter, 2 * k);
        lemma_presses_drop_last(Key::Enter, (2 * k - 1) as nat);
        assert((2 * k - 1 - 1) as nat == 2 * prev);
        let at_title = run(v, presses(Key::Enter, 2 * prev));
        let at_text = run(v, presses(Key::Enter, (2 * k - 1) as nat));
        assert(at_text == step(at_title, Key::Enter).0);
        assert(run(v, presses(Key::Enter, 2 * k)) == step(at_text, Key::Enter).0);
    }
}

} // verus!
