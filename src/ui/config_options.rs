//! The configuration screen: store location and highlight color.
use vstd::prelude::*;
use crate::buffer::{backspace, push_char, without_last};
use crate::color::{color_value, parse_color};
use crate::command::{Command, CommandView, Key};
use crate::state::{App, AppView, ConfigFocus, Selected};

verus! {

/// Whether Enter commits the configuration: both buffers hold text and the
/// color buffer names a color.
pub open spec fn config_accepted(v: AppView) -> bool {
    v.config_input_1.len() > 0 && v.config_input_2.len() > 0 && color_value(v.config_input_2) is Some
}

pub open spec fn config_options_step(v: AppView, k: Key) -> (AppView, CommandView) {
    match k {
        Key::Char(c) => (
            match v.config_input_focus {
                ConfigFocus::DbFile => AppView { config_input_1: v.config_input_1.push(c), ..v },
                ConfigFocus::HighlightColor => AppView { config_input_2: v.config_input_2.push(c), ..v },
            },
            CommandView::Nothing,
        ),
        Key::Tab => (
            AppView {
                config_input_focus: match v.config_input_focus {
                    ConfigFocus::DbFile => ConfigFocus::HighlightColor,
                    ConfigFocus::HighlightColor => ConfigFocus::DbFile,
                },
                ..v
            },
            CommandView::Nothing,
        ),
        Key::Backspace => (
            match v.config_input_focus {
                ConfigFocus::DbFile => AppView { config_input_1: without_last(v.config_input_1), ..v },
                ConfigFocus::HighlightColor => AppView {
                    config_input_2: without_last(v.config_input_2),
                    ..v
                },
            },
            CommandView::Nothing,
        ),
        Key::Enter => if config_accepted(v) {
            (
                AppView {
                    stack_cursor: None,
                    config_input_focus: ConfigFocus::DbFile,
                    selected_window: Selected::Main,
                    ..v
                },
                CommandView::ApplyConfig {
                    db_file: v.config_input_1,
                    highlight_color: color_value(v.config_input_2)->0,
                },
            )
        } else {
            (v, CommandView::Nothing)
        },
        Key::Esc => (AppView { selected_window: Selected::Main, ..v }, CommandView::Nothing),
        _ => (v, CommandView::Nothing),
    }
}

/// Handles a key in the configuration screen.
pub fn handle_events(key: Key, app: &mut App) -> (r: Command)
    requires
        old(app).wf(),
        old(app).selected_window == Selected::ConfigOptions,
    ensures
        final(app).wf(),
        (final(app)@, r@) == config_options_step(old(app)@, key),
{
    match key {
        Key::Char(c) => {
            match app.config_input_focus {
                ConfigFocus::DbFile => push_char(&mut app.config_input_1, c),
                ConfigFocus::HighlightColor => push_char(&mut app.config_input_2, c),
            }
            Command::Nothing
        },
        Key::Tab => {
            app.config_input_focus = match app.config_input_focus {
                ConfigFocus::DbFile => ConfigFocus::HighlightColor,
                ConfigFocus::HighlightColor => ConfigFocus::DbFile,
            };
            Command::Nothing
        },
        Key::Backspace => {
            match app.config_input_focus {
                ConfigFocus::DbFile => backspace(&mut app.config_input_1),
                ConfigFocus::HighlightColor => backspace(&mut app.config_input_2),
            }
            Command::Nothing
        },
        Key::Enter => {
            if app.config_input_1.as_str().is_empty() || app.config_input_2.as_str().is_empty() {
                return Command::Nothing;
            }
            match parse_color(&app.config_input_2) {
                Some(color) => {
                    app.stack_cursor = None;
                    app.config_input_focus = ConfigFocus::DbFile;
                    app.selected_window = Selected::Main;
                    Command::ApplyConfig {
                        db_file: app.config_input_1.clone(),
                        highlight_color: color,
                    }
                },
                None => Command::Nothing,
            }
        },
        Key::Esc => {
            app.selected_window = Selected::Main;
            Command::Nothing
        },
        _ => Command::Nothing,
    }
}

} // verus!
