//! The session state: active screen, cached entities, cursors and buffers.
use vstd::prelude::*;
use crate::buffer::{bounded_prefix, copy_bounded};
use crate::color::{color_text, decimal_text};
use crate::command::{Command, CommandView};
use crate::cursor::{
    clamp, cursor_backward, cursor_clamped, cursor_forward, cursor_valid, step_backward,
    step_forward,
};
use crate::entity::{Card, CardView, Stack, StackView, MAX_CARD_TEXT, MAX_CARD_TITLE, MAX_STACK_NAME};

verus! {

/// The screen that receives key presses.
#[derive(Debug, Clone, Copy, PartialEq, Eq, Structural)]
pub enum Selected {
    Main,
    Side,
    StackNameInput,
    DeleteStackPopup,
    EditStackPopup,
    AddCard,
    CardList,
    DeleteCard,
    EditCard,
    RevisionTitle,
    RevisionText,
    ConfigOptions,
}

/// Which card buffer receives typed characters.
#[derive(Debug, Clone, Copy, PartialEq, Eq, Structural)]
pub enum CardInputFocus {
    Title,
    Text,
}

/// Which configuration buffer receives typed characters.
#[derive(Debug, Clone, Copy, PartialEq, Eq, Structural)]
pub enum ConfigFocus {
    DbFile,
    HighlightColor,
}

/// The whole state of a session.
pub struct App {
    /// All stacks, as last listed by the store.
    pub items: Vec<Stack>,
    /// The selected stack, an index into `items`.
    pub stack_cursor: Option<usize>,
    pub selected_window: Selected,
    pub stack_name_input: String,
    pub card_title_input: String,
    pub card_text_input: String,
    pub card_input_focus: CardInputFocus,
    /// The cards of the selected stack, as last listed by the store.
    pub cards: Vec<Card>,
    /// The selected card, an index into `cards`.
    pub card_cursor: Option<usize>,
    /// The card shown by a revision.
    pub revision_index: usize,
    /// The store location being edited.
    pub config_input_1: String,
    /// The highlight color being edited.
    pub config_input_2: String,
    pub config_input_focus: ConfigFocus,
    pub highlight_color: u8,
}

/// The session state as values: text as character sequences, entities as
/// their views.
pub struct AppView {
    pub items: Seq<StackView>,
    pub stack_cursor: Option<usize>,
    pub selected_window: Selected,
    pub stack_name_input: Seq<char>,
    pub card_title_input: Seq<char>,
    pub card_text_input: Seq<char>,
    pub card_input_focus: CardInputFocus,
    pub cards: Seq<CardView>,
    pub card_cursor: Option<usize>,
    pub revision_index: usize,
    pub config_input_1: Seq<char>,
    pub config_input_2: Seq<char>,
    pub config_input_focus: ConfigFocus,
    pub highlight_color: u8,
}

impl View for App {
    type V = AppView;

    open spec fn view(&self) -> AppView {
        AppView {
            items: self.items@.map_values(|s: Stack| s@),
            stack_cursor: self.stack_cursor,
            selected_window: self.selected_window,
            stack_name_input: self.stack_name_input@,
            card_title_input: self.card_title_input@,
            card_text_input: self.card_text_input@,
            card_input_focus: self.card_input_focus,
            cards: self.cards@.map_values(|c: Card| c@),
            card_cursor: self.card_cursor,
            revision_index: self.revision_index,
            config_input_1: self.config_input_1@,
            config_input_2: self.config_input_2@,
            config_input_focus: self.config_input_focus,
            highlight_color: self.highlight_color,
        }
    }
}

pub open spec fn is_revision(s: Selected) -> bool {
    s == Selected::RevisionTitle || s == Selected::RevisionText
}

/// The session invariant: cursors index their lists, buffers keep their
/// bounds, and a revision points at a card while it runs and is reset
/// otherwise.
pub open spec fn app_inv(v: AppView) -> bool {
    &&& cursor_valid(v.stack_cursor, v.items.len())
    &&& cursor_valid(v.card_cursor, v.cards.len())
    &&& v.stack_name_input.len() <= MAX_STACK_NAME
    &&& v.card_title_input.len() <= MAX_CARD_TITLE
    &&& v.card_text_input.len() <= MAX_CARD_TEXT
    &&& is_revision(v.selected_window) ==> v.revision_index < v.cards.len()
    &&& !is_revision(v.selected_window) ==> v.revision_index == 0
}

/// The id of the selected stack, 0 when none is selected.
pub open spec fn selected_stack_id(v: AppView) -> i32 {
    match v.stack_cursor {
        Some(i) => v.items[i as int].id,
        None => 0,
    }
}

/// The name of the selected stack, empty when none is selected.
pub open spec fn selected_stack_name(v: AppView) -> Seq<char> {
    match v.stack_cursor {
        Some(i) => v.items[i as int].name,
        None => Seq::empty(),
    }
}

/// The id of the selected card, 0 when none is selected.
pub open spec fn selected_card_id(v: AppView) -> i32 {
    match v.card_cursor {
        Some(i) => v.cards[i as int].id,
        None => 0,
    }
}

/// The state after the list of stacks was reloaded: the selection is kept
/// where it still fits.
pub open spec fn with_stacks(v: AppView, items: Seq<StackView>) -> AppView {
    AppView { items, stack_cursor: cursor_clamped(v.stack_cursor, items.len()), ..v }
}

/// The state after the list of cards was reloaded: the selection is kept
/// where it still fits, and a revision in progress ends on the stack screen.
pub open spec fn with_cards(v: AppView, cards: Seq<CardView>) -> AppView {
    AppView {
        cards,
        card_cursor: cursor_clamped(v.card_cursor, cards.len()),
        selected_window: if is_revision(v.selected_window) {
            Selected::Side
        } else {
            v.selected_window
        },
        revision_index: 0,
        ..v
    }
}

impl App {
    pub open spec fn wf(&self) -> bool {
        app_inv(self@)
    }

    /// A session on the main screen over `items`, with the first stack
    /// selected when there is one.
    pub fn new(items: Vec<Stack>, highlight_color: u8) -> (r: App)
        ensures
            r.wf(),
            r@.items == items@.map_values(|s: Stack| s@),
            r@.stack_cursor == (if items@.len() > 0 { Some(0usize) } else { None }),
            r@.selected_window == Selected::Main,
            r@.stack_name_input.len() == 0,
            r@.card_title_input.len() == 0,
            r@.card_text_input.len() == 0,
            r@.card_input_focus == CardInputFocus::Title,
            r@.cards.len() == 0,
            r@.card_cursor is None,
            r@.revision_index == 0,
            r@.config_input_1.len() == 0,
            r@.config_input_2.len() == 0,
            r@.config_input_focus == ConfigFocus::DbFile,
            r@.highlight_color == highlight_color,
    {
        let stack_cursor = if items.len() > 0 { Some(0) } else { None };
        App {
            items,
            stack_cursor,
            selected_window: Selected::Main,
            stack_name_input: String::new(),
            card_title_input: String::new(),
            card_text_input: String::new(),
            card_input_focus: CardInputFocus::Title,
            cards: Vec::new(),
            card_cursor: None,
            revision_index: 0,
            config_input_1: String::new(),
            config_input_2: String::new(),
            config_input_focus: ConfigFocus::DbFile,
            highlight_color,
        }
    }

    /// The id of the selected stack, 0 when none is selected.
    pub fn get_selected_id(&self) -> (r: i32)
        requires
            self.wf(),
        ensures
            r == selected_stack_id(self@),
    {
        match self.stack_cursor {
            Some(i) => self.items[i].id,
            None => 0,
        }
    }

    /// The name of the selected stack cut to a stack name's bound, empty
    /// when none is selected.
    pub fn get_selected_name(&self) -> (r: String)
        requires
            self.wf(),
        ensures
            r@ == bounded_prefix(selected_stack_name(self@), MAX_STACK_NAME as nat),
    {
        match self.stack_cursor {
            Some(i) => copy_bounded(&self.items[i].name, MAX_STACK_NAME),
            None => String::new(),
        }
    }

    /// The id of the selected card, 0 when none is selected.
    pub fn get_selected_card_id(&self) -> (r: i32)
        requires
            self.wf(),
        ensures
            r == selected_card_id(self@),
    {
        match self.card_cursor {
            Some(i) => self.cards[i].id,
            None => 0,
        }
    }

    /// Moves the stack selection one entry up, wrapping to the last.
    pub fn next(&mut self)
        requires
            old(self).wf(),
        ensures
            final(self).wf(),
            final(self)@ == (AppView {
                stack_cursor: cursor_backward(old(self)@.stack_cursor, old(self)@.items.len()),
                ..old(self)@
            }),
    {
        self.stack_cursor = step_backward(self.stack_cursor, self.items.len());
    }

    /// Moves the stack selection one entry down, wrapping to the first.
    pub fn back(&mut self)
        requires
            old(self).wf(),
        ensures
            final(self).wf(),
            final(self)@ == (AppView {
                stack_cursor: cursor_forward(old(self)@.stack_cursor, old(self)@.items.len()),
                ..old(self)@
            }),
    {
        self.stack_cursor = step_forward(self.stack_cursor, self.items.len());
    }

    /// Moves the card selection one entry down, wrapping to the first.
    pub fn next_card(&mut self)
        requires
            old(self).wf(),
        ensures
            final(self).wf(),
            final(self)@ == (AppView {
                card_cursor: cursor_forward(old(self)@.card_cursor, old(self)@.cards.len()),
                ..old(self)@
            }),
    {
        self.card_cursor = step_forward(self.card_cursor, self.cards.len());
    }

    /// Moves the card selection one entry up, wrapping to the last.
    pub fn back_card(&mut self)
        requires
            old(self).wf(),
        ensures
            final(self).wf(),
            final(self)@ == (AppView {
                card_cursor: cursor_backward(old(self)@.card_cursor, old(self)@.cards.len()),
                ..old(self)@
            }),
    {
        self.card_cursor = step_backward(self.card_cursor, self.cards.len());
    }

    /// Takes the list of stacks that the store returned.
    pub fn get_items(&mut self, items: Vec<Stack>)
        requires
            old(self).wf(),
        ensures
            final(self).wf(),
            final(self)@ == with_stacks(old(self)@, items@.map_values(|s: Stack| s@)),
    {
        self.stack_cursor = clamp(self.stack_cursor, items.len());
        self.items = items;
    }

    /// Takes the list of cards that the store returned for the selected stack.
    pub fn list_cards(&mut self, cards: Vec<Card>)
        requires
            old(self).wf(),
        ensures
            final(self).wf(),
            final(self)@ == with_cards(old(self)@, cards@.map_values(|c: Card| c@)),
    {
        self.card_cursor = clamp(self.card_cursor, cards.len());
        self.cards = cards;
        if self.selected_window == Selected::RevisionTitle
            || self.selected_window == Selected::RevisionText {
            self.selected_window = Selected::Side;
        }
        self.revision_index = 0;
    }

    /// Takes the cards listed for the card list screen: the first card is
    /// selected when there is one, and the card list opens.
    pub fn show_cards(&mut self, cards: Vec<Card>)
        requires
            old(self).wf(),
        ensures
            final(self).wf(),
            ({
                let v = with_cards(old(self)@, cards@.map_values(|c: Card| c@));
                final(self)@ == AppView {
                    card_cursor: if cards@.len() > 0 { Some(0usize) } else { v.card_cursor },
                    selected_window: Selected::CardList,
                    ..v
                }
            }),
    {
        self.list_cards(cards);
        if self.cards.len() > 0 {
            self.card_cursor = Some(0);
        }
        self.selected_window = Selected::CardList;
    }

    /// Takes the cards listed for a revision: the revision starts on the
    /// first card when there is one.
    pub fn start_revision(&mut self, cards: Vec<Card>)
        requires
            old(self).wf(),
        ensures
            final(self).wf(),
            ({
                let v = with_cards(old(self)@, cards@.map_values(|c: Card| c@));
                final(self)@ == AppView {
                    selected_window: if cards@.len() > 0 {
                        Selected::RevisionTitle
                    } else {
                        v.selected_window
                    },
                    ..v
                }
            }),
    {
        self.list_cards(cards);
        if self.cards.len() > 0 {
            self.selected_window = Selected::RevisionTitle;
        }
    }

    /// Takes the stored store location and opens the configuration screen,
    /// with the current highlight color in the color buffer.
    pub fn open_config(&mut self, db_file: String)
        requires
            old(self).wf(),
        ensures
            final(self).wf(),
            final(self)@ == (AppView {
                config_input_1: db_file@,
                config_input_2: decimal_text(old(self)@.highlight_color as nat),
                selected_window: Selected::ConfigOptions,
                revision_index: 0,
                ..old(self)@
            }),
    {
        self.config_input_1 = db_file;
        self.config_input_2 = color_text(self.highlight_color);
        self.selected_window = Selected::ConfigOptions;
        self.revision_index = 0;
    }

    /// Takes the stacks of the store opened after a configuration change,
    /// and the highlight color read back from the configuration.
    pub fn config_applied(&mut self, items: Vec<Stack>, highlight_color: u8)
        requires
            old(self).wf(),
        ensures
            final(self).wf(),
            final(self)@ == (AppView {
                highlight_color,
                ..with_stacks(old(self)@, items@.map_values(|s: Stack| s@))
            }),
    {
        self.get_items(items);
        self.highlight_color = highlight_color;
    }

    /// The command that creates a stack named `name`.
    pub fn add_stack(&self, name: String) -> (r: Command)
        ensures
            r@ == (CommandView::CreateStack { name: name@ }),
    {
        Command::CreateStack { name }
    }

    /// The command that deletes stack `id`.
    pub fn delete_stack(&self, id: i32) -> (r: Command)
        ensures
            r@ == (CommandView::DeleteStack { id }),
    {
        Command::DeleteStack { id }
    }

    /// The command that renames the selected stack to the stack name buffer.
    pub fn edit_stack(&self) -> (r: Command)
        requires
            self.wf(),
        ensures
            r@ == (CommandView::RenameStack {
                id: selected_stack_id(self@),
                name: self@.stack_name_input,
            }),
    {
        Command::RenameStack { id: self.get_selected_id(), name: self.stack_name_input.clone() }
    }

    /// The command that creates a card with `title` and `text` in the
    /// selected stack.
    pub fn add_card(&self, title: String, text: String) -> (r: Command)
        requires
            self.wf(),
        ensures
            r@ == (CommandView::CreateCard {
                stack_id: selected_stack_id(self@),
                title: title@,
                text: text@,
            }),
    {
        Command::CreateCard { stack_id: self.get_selected_id(), title, text }
    }

    /// The command that gives the selected card the title and text in the
    /// card buffers.
    pub fn edit_card(&self) -> (r: Command)
        requires
            self.wf(),
        ensures
            r@ == (CommandView::UpdateCard {
                id: selected_card_id(self@),
                title: self@.card_title_input,
                text: self@.card_text_input,
                stack_id: selected_stack_id(self@),
            }),
    {
        Command::UpdateCard {
            id: self.get_selected_card_id(),
            title: self.card_title_input.clone(),
            text: self.card_text_input.clone(),
            stack_id: self.get_selected_id(),
        }
    }

    /// The command that deletes the selected card.
    pub fn delete_card(&self) -> (r: Command)
        requires
            self.wf(),
        ensures
            r@ == (CommandView::DeleteCard {
                id: selected_card_id(self@),
                stack_id: selected_stack_id(self@),
            }),
    {
        Command::DeleteCard { id: self.get_selected_card_id(), stack_id: self.get_selected_id() }
    }
}

} // verus!
