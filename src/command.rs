//! What reaches the navigation core from the terminal, and what it hands
//! back for the store and the configuration service to carry out.
use vstd::prelude::*;

verus! {

/// A key press, as the navigation core distinguishes them.
#[derive(Debug, Clone, Copy, PartialEq, Eq, Structural)]
pub enum Key {
    Char(char),
    Backspace,
    Enter,
    Esc,
    Tab,
    Up,
    Down,
    /// Any key that no screen interprets.
    Other,
}

/// Work that a key press leaves for the store or the configuration service.
/// Each variant's doc says what the caller does, and which method of
/// `App` it then hands the result to.
#[derive(Debug)]
pub enum Command {
    /// Nothing to do.
    Nothing,
    /// End the program.
    Quit,
    /// Read the stored store location; hand it to `App::open_config`.
    OpenConfig,
    /// Create a stack; hand the new list of stacks to `App::get_items`.
    CreateStack { name: String },
    /// Rename stack `id`; hand the new list of stacks to `App::get_items`.
    RenameStack { id: i32, name: String },
    /// Delete stack `id`; hand the new list of stacks to `App::get_items`.
    DeleteStack { id: i32 },
    /// List the cards of stack `stack_id`; hand them to `App::show_cards`.
    ShowCards { stack_id: i32 },
    /// List the cards of stack `stack_id`; hand them to `App::start_revision`.
    StartRevision { stack_id: i32 },
    /// Create a card in stack `stack_id`.
    CreateCard { stack_id: i32, title: String, text: String },
    /// Update card `id`, then list the cards of stack `stack_id` and hand
    /// them to `App::list_cards`.
    UpdateCard { id: i32, title: String, text: String, stack_id: i32 },
    /// Delete card `id`, then list the cards of stack `stack_id` and hand
    /// them to `App::list_cards`.
    DeleteCard { id: i32, stack_id: i32 },
    /// Save the configuration, reopen the store at the location it names,
    /// and hand the store's stacks and the saved color to
    /// `App::config_applied`.
    ApplyConfig { db_file: String, highlight_color: u8 },
}

/// A command with its text as character sequences.
pub enum CommandView {
    Nothing,
    Quit,
    OpenConfig,
    CreateStack { name: Seq<char> },
    RenameStack { id: i32, name: Seq<char> },
    DeleteStack { id: i32 },
    ShowCards { stack_id: i32 },
    StartRevision { stack_id: i32 },
    CreateCard { stack_id: i32, title: Seq<char>, text: Seq<char> },
    UpdateCard { id: i32, title: Seq<char>, text: Seq<char>, stack_id: i32 },
    DeleteCard { id: i32, stack_id: i32 },
    ApplyConfig { db_file: Seq<char>, highlight_color: u8 },
}

impl View for Command {
    type V = CommandView;

    open spec fn view(&self) -> CommandView {
        match self {
            Command::Nothing => CommandView::Nothing,
            Command::Quit => CommandView::Quit,
            Command::OpenConfig => CommandView::OpenConfig,
            Command::CreateStack { name } => CommandView::CreateStack { name: name@ },
            Command::RenameStack { id, name } => CommandView::RenameStack { id: *id, name: name@ },
            Command::DeleteStack { id } => CommandView::DeleteStack { id: *id },
            Command::ShowCards { stack_id } => CommandView::ShowCards { stack_id: *stack_id },
            Command::StartRevision { stack_id } => CommandView::StartRevision { stack_id: *stack_id },
            Command::CreateCard { stack_id, title, text } => CommandView::CreateCard {
                stack_id: *stack_id,
                title: title@,
                text: text@,
            },
            Command::UpdateCard { id, title, text, stack_id } => CommandView::UpdateCard {
                id: *id,
                title: title@,
                text: text@,
                stack_id: *stack_id,
            },
            Command::DeleteCard { id, stack_id } => CommandView::DeleteCard {
                id: *id,
                stack_id: *stack_id,
            },
            Command::ApplyConfig { db_file, highlight_color } => CommandView::ApplyConfig {
                db_file: db_file@,
                highlight_color: *highlight_color,
            },
        }
    }
}

} // verus!
