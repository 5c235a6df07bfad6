//! Key presses.

use crate::actions::Action;
use crate::app::{lemma_settle_keeps_initialized, settle, App};
use crate::keybindings::{find_action, has_trigger, lemma_resolve_first_match, resolve, KeybindingView, Keybindings};
use crate::states::{lemma_no_screen_binds_quit, AppState, Fetch, Lifecycle};
use vstd::prelude::*;

verus! {

/// A key as the input layer reports it.
#[derive(Debug, Copy, Clone, PartialEq, Eq)]
pub enum KeyCode {
    /// A printable character.
    Char(char),
    /// The escape key.
    Esc,
    /// Any other key.
    Other,
}

/// The character that quits the application from every screen.
pub const QUIT_KEY: char = 'q';

/// The action that a key press stands for on a screen with the bindings
/// `bindings`, if it stands for one.
///
/// The quit key means `Quit` and escape means `Escape` on every screen,
/// whatever the screen binds. Any other character means what the first
/// binding that it triggers says. A key means at most one action.
pub open spec fn key_action(bindings: Seq<KeybindingView>, key: KeyCode) -> Option<Action> {
    match key {
        KeyCode::Char(c) => if c == QUIT_KEY {
            Some(Action::Quit)
        } else {
            resolve(bindings, c)
        },
        KeyCode::Esc => Some(Action::Escape),
        KeyCode::Other => None,
    }
}

/// What an action makes of the application: the application afterwards,
/// and the page of records to fetch, if one is needed.
///
/// `Quit` stops the application and reaches no screen. Every other action
/// goes to the active screen, and the screen's answer is acted on.
pub open spec fn act(app: App, action: Action) -> (App, Option<Fetch>) {
    if action == Action::Quit {
        (App { running: false, ..app }, None)
    } else {
        settle(app, app.state.answer(action), app.state.turns_to(action))
    }
}

/// What a key press makes of the application: what its action makes of
/// it, and nothing where the key stands for no action.
pub open spec fn dispatch_key(app: App, key: KeyCode) -> (App, Option<Fetch>) {
    match key_action(app.state.bindings(), key) {
        Some(action) => act(app, action),
        None => (app, None),
    }
}

/// Carries out `action`. See [`act`].
pub fn dispatch_action(app: &mut App, action: Action) -> (request: Option<Fetch>)
    requires
        old(app).wf(),
    ensures
        (*final(app), request) == act(*old(app), action),
        final(app).wf(),
{
    match action {
        Action::Quit => {
            app.quit();
            None
        },
        _ => {
            let turn = app.state.reload(action);
            let event = app.state.action(action);
            app.process(event, turn)
        },
    }
}

/// Handles one key press. See [`dispatch_key`].
pub fn handle_key_events(key_event: KeyCode, app: &mut App) -> (request: Option<Fetch>)
    requires
        old(app).wf(),
    ensures
        (*final(app), request) == dispatch_key(*old(app), key_event),
        final(app).wf(),
{
    match key_event {
        KeyCode::Char(c) => {
            if c == QUIT_KEY {
                dispatch_action(app, Action::Quit)
            } else {
                let bindings = app.state.keybindings();
                match find_action(&bindings, c) {
                    Some(action) => dispatch_action(app, action),
                    None => None,
                }
            }
        },
        KeyCode::Esc => dispatch_action(app, Action::Escape),
        KeyCode::Other => None,
    }
}

/// The quit key stops the application whatever screen is active and
/// whatever that screen binds. The screen is left as it is and nothing is
/// fetched.
pub proof fn lemma_quit_key_stops(app: App)
    ensures
        dispatch_key(app, KeyCode::Char(QUIT_KEY)) == (App { running: false, ..app }, None::<Fetch>),
{
}

/// Escape reaches the active screen whatever that screen binds: the
/// outcome is that of the screen's answer to `Escape`.
pub proof fn lemma_escape_reaches_screen(app: App)
    ensures
        key_action(app.state.bindings(), KeyCode::Esc) == Some(Action::Escape),
        dispatch_key(app, KeyCode::Esc) == settle(
            app,
            app.state.answer(Action::Escape),
            app.state.turns_to(Action::Escape),
        ),
{
}

/// A key that is neither the quit key nor escape nor bound by the active
/// screen changes nothing and fetches nothing.
pub proof fn lemma_unbound_key_is_ignored(app: App, key: KeyCode)
    requires
        key != KeyCode::Esc,
        key matches KeyCode::Char(c) ==> c != QUIT_KEY && !has_trigger(app.state.bindings(), c),
    ensures
        dispatch_key(app, key) == (app, None::<Fetch>),
{
    if let KeyCode::Char(c) = key {
        lemma_resolve_first_match(app.state.bindings(), c);
    }
}

/// Whatever key is pressed, the active screen afterwards is one that has
/// been initialised, and only the quit key stops the application.
pub proof fn lemma_dispatch_keeps_initialized(app: App, key: KeyCode)
    requires
        app.wf(),
    ensures
        dispatch_key(app, key).0.wf(),
        key != KeyCode::Char(QUIT_KEY) ==> dispatch_key(app, key).0.running == app.running,
{
    if let Some(action) = key_action(app.state.bindings(), key) {
        lemma_settle_keeps_initialized(app, app.state.answer(action), app.state.turns_to(action));
        if key != KeyCode::Char(QUIT_KEY) && action == Action::Quit {
            lemma_no_screen_binds_quit(app.state);
            let c = key->Char_0;
            lemma_resolve_first_match(app.state.bindings(), c);
        }
    }
}

} // verus!
