use cards::command::{Command, Key};
use cards::entity::Stack;
use cards::sql;
use cards::state::App;
use cards::ui::handle_key;
use rusqlite::Connection;

fn open() -> Connection {
    let conn = Connection::open_in_memory().unwrap();
    conn.execute(sql::CREATE_STACK_TABLE, ()).unwrap();
    conn.execute(sql::CREATE_CARD_TABLE, ()).unwrap();
    conn
}

fn stacks(conn: &Connection) -> Vec<Stack> {
    let mut stmt = conn.prepare(sql::SELECT_STACKS).unwrap();
    let rows = stmt
        .query_map([], |row| Ok(Stack { id: row.get(0)?, name: row.get(1)? }))
        .unwrap();
    rows.map(|r| r.unwrap()).collect()
}

fn run(conn: &Connection, command: Command) {
    match command {
        Command::CreateStack { name } => {
            conn.execute(sql::INSERT_STACK, (&name,)).unwrap();
        }
        Command::RenameStack { id, name } => {
            conn.execute(sql::RENAME_STACK, (&name, id)).unwrap();
        }
        other => panic!("unexpected {:?}", other),
    }
}

fn press(app: &mut App, key: Key) -> Command {
    handle_key(key, app)
}

#[test]
fn create_then_rename_keeps_id() {
    let conn = open();
    let mut app = App::new(stacks(&conn), 7);
    press(&mut app, Key::Char('a'));
    for c in "Biology".chars() {
        press(&mut app, Key::Char(c));
    }
    let create = press(&mut app, Key::Enter);
    run(&conn, create);
    app.get_items(stacks(&conn));
    assert_eq!(app.items.len(), 1);
    let original_id = app.items[0].id;
    press(&mut app, Key::Down);
    press(&mut app, Key::Char('e'));
    assert_eq!(app.stack_name_input, "Biology");
    for _ in 0..4 {
        press(&mut app, Key::Backspace);
    }
    let rename = press(&mut app, Key::Enter);
    run(&conn, rename);
    let listed = stacks(&conn);
    assert_eq!(listed.len(), 1);
    assert_eq!(listed[0].name, "Bio");
    assert_eq!(listed[0].id, original_id);
}

#[test]
fn cards_follow_their_stack() {
    let conn = open();
    conn.execute(sql::INSERT_STACK, ("A",)).unwrap();
    let id = stacks(&conn)[0].id;
    conn.execute(sql::INSERT_CARD, ("q", "a", id)).unwrap();
    conn.execute(sql::INSERT_CARD, ("q2", "a2", id)).unwrap();
    conn.execute(sql::INSERT_CARD, ("other", "x", id + 1)).unwrap();
    let count = |conn: &Connection| -> usize {
        let mut stmt = conn.prepare(sql::SELECT_CARDS).unwrap();
        let rows = stmt.query_map((id,), |row| row.get::<_, String>(1)).unwrap();
        rows.count()
    };
    assert_eq!(count(&conn), 2);
    conn.execute(sql::UPDATE_CARD, ("q!", "a!", 1)).unwrap();
    conn.execute(sql::DELETE_CARD, (2,)).unwrap();
    assert_eq!(count(&conn), 1);
    conn.execute(sql::DELETE_STACK, (id,)).unwrap();
    assert_eq!(stacks(&conn).len(), 0);
}
