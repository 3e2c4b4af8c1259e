//! The statements that the store runs on its relational database. Stacks
//! and cards live in two tables; a card refers to its stack by id.
use vstd::prelude::*;

verus! {

pub const CREATE_STACK_TABLE: &'static str =
    "CREATE TABLE IF NOT EXISTS stack (id INTEGER PRIMARY KEY, name TEXT NOT NULL)";

pub const CREATE_CARD_TABLE: &'static str =
    "CREATE TABLE IF NOT EXISTS card (id INTEGER PRIMARY KEY, title TEXT NOT NULL, text TEXT NOT NULL, stack_id INTEGER NOT NULL, FOREIGN KEY(stack_id) REFERENCES stack(id))";

/// Columns: id, name.
pub const SELECT_STACKS: &'static str = "SELECT id, name FROM stack";

/// Parameters: name.
pub const INSERT_STACK: &'static str = "INSERT INTO stack (name) VALUES (?1)";

/// Parameters: name, id.
pub const RENAME_STACK: &'static str = "UPDATE stack SET name = ?1 WHERE id = ?2";

/// Parameters: id.
pub const DELETE_STACK: &'static str = "DELETE FROM stack WHERE id = ?1";

/// Parameters: stack id. Columns: id, title, text, stack_id.
pub const SELECT_CARDS: &'static str =
    "SELECT id, title, text, stack_id FROM card WHERE stack_id = ?1";

/// Parameters: title, text, stack id.
pub const INSERT_CARD: &'static str = "INSERT INTO card (title, text, stack_id) VALUES (?1, ?2, ?3)";

/// Parameters: title, text, id.
pub const UPDATE_CARD: &'static str = "UPDATE card SET title = ?1, text = ?2 WHERE id = ?3";

/// Parameters: id.
pub const DELETE_CARD: &'static str = "DELETE FROM card WHERE id = ?1";

} // verus!
