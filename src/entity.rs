//! The two kinds of entity that the store keeps: stacks and the cards in them.
use vstd::prelude::*;

verus! {

/// Most characters in a stack's name.
pub const MAX_STACK_NAME: usize = 22;

/// Most characters in a card's title.
pub const MAX_CARD_TITLE: usize = 30;

/// Most characters in a card's text.
pub const MAX_CARD_TEXT: usize = 100;

/// A named collection of cards. Its id is given by the store; 0 stands for
/// "none".
#[derive(Debug)]
pub struct Stack {
    pub id: i32,
    pub name: String,
}

/// A stack with its name as a character sequence.
pub struct StackView {
    pub id: i32,
    pub name: Seq<char>,
}

impl View for Stack {
    type V = StackView;

    open spec fn view(&self) -> StackView {
        StackView { id: self.id, name: self.name@ }
    }
}

/// A flashcard: a title shown first and a text shown after it, in one stack.
#[derive(Debug)]
pub struct Card {
    pub id: i32,
    pub title: String,
    pub text: String,
    pub stack_id: i32,
}

/// A card with its title and text as character sequences.
pub struct CardView {
    pub id: i32,
    pub title: Seq<char>,
    pub text: Seq<char>,
    pub stack_id: i32,
}

impl View for Card {
    type V = CardView;

    open spec fn view(&self) -> CardView {
        CardView { id: self.id, title: self.title@, text: self.text@, stack_id: self.stack_id }
    }
}

} // verus!
