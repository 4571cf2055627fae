//! The input state machine: a pure map from one key press and the current
//! mode (normal or filter-entry) to an action, and the dispatcher that
//! applies an action to the session state.

use vstd::prelude::*;

use crate::app::{clamp_sel, down_sel, page_down_off, page_up_off, up_sel, visible_spec, App,
    Status};

verus! {

/// A key press, reduced to what the state machine reads: the key itself and
/// whether Control was held.
#[derive(Debug, Clone, Copy, PartialEq, Eq)]
pub enum Key {
    /// A printable character was typed.
    Char(char),
    Enter,
    Esc,
    Backspace,
    Up,
    Down,
    PageUp,
    PageDown,
    /// Any key the reader does not react to.
    Other,
}

/// What one key press asks the session to do.
#[derive(Debug, Clone, Copy, PartialEq, Eq)]
pub enum Action {
    Quit,
    Down,
    Up,
    PageDown,
    PageUp,
    ToggleFull,
    Refresh,
    OpenInBrowser,
    OpenInW3m,
    /// Toggle filter-entry mode: enter it from normal mode, commit and
    /// leave it from filter-entry mode.
    StartFilter,
    Backspace,
    FilterChar(char),
    /// Empty the filter text, staying in filter-entry mode; like every
    /// other edit there, the visible set is not recomputed until the mode
    /// is left.
    EraseFilter,
    ClearFilter,
    Noop,
}

/// What the interactive shell must do after an action was applied: keep
/// looping, end the session, spawn a fetch cycle, or hand the selected link
/// to the browser or the external viewer.
#[derive(Debug, Clone, Copy, PartialEq, Eq)]
pub enum Effect {
    Continue,
    Quit,
    SpawnRefresh,
    OpenBrowser,
    OpenViewer,
}

/// The key map. In filter-entry mode every printable character edits the
/// filter text, Ctrl+U empties it without leaving the mode, Escape clears
/// it and leaves, Enter commits it and leaves, and unrecognized keys do
/// nothing. In normal mode the reader's single-letter commands apply, and
/// unrecognized keys do nothing.
pub open spec fn action_spec(key: Key, ctrl: bool, filter_mode: bool) -> Action {
    if filter_mode {
        match key {
            Key::Esc => Action::ClearFilter,
            Key::Enter => Action::StartFilter,
            Key::Backspace => Action::Backspace,
            Key::Char(c) => if ctrl && c == 'u' {
                Action::EraseFilter
            } else {
                Action::FilterChar(c)
            },
            _ => Action::Noop,
        }
    } else {
        match key {
            Key::Char(c) => if c == 'q' {
                Action::Quit
            } else if c == 'j' {
                Action::Down
            } else if c == 'k' {
                Action::Up
            } else if c == 'r' {
                Action::Refresh
            } else if c == 'o' {
                Action::OpenInBrowser
            } else if c == 'p' {
                Action::OpenInW3m
            } else if c == '/' {
                Action::StartFilter
            } else {
                Action::Noop
            },
            Key::Down => Action::Down,
            Key::Up => Action::Up,
            Key::PageDown => Action::PageDown,
            Key::PageUp => Action::PageUp,
            Key::Enter => Action::ToggleFull,
            _ => Action::Noop,
        }
    }
}

/// Maps one key press to an action, exactly as `action_spec` lays the key
/// map out. Total: every press maps to some action, if only `Noop`.
pub fn action_for_key(key: Key, ctrl: bool, filter_mode: bool) -> (a: Action)
    ensures
        a == action_spec(key, ctrl, filter_mode),
{
    if filter_mode {
        match key {
            Key::Esc => Action::ClearFilter,
            Key::Enter => Action::StartFilter,
            Key::Backspace => Action::Backspace,
            Key::Char(c) => if ctrl && c == 'u' {
                Action::EraseFilter
            } else {
                Action::FilterChar(c)
            },
            _ => Action::Noop,
        }
    } else {
        match key {
            Key::Char(c) => {
                if c == 'q' {
                    Action::Quit
                } else if c == 'j' {
                    Action::Down
                } else if c == 'k' {
                    Action::Up
                } else if c == 'r' {
                    Action::Refresh
                } else if c == 'o' {
                    Action::OpenInBrowser
                } else if c == 'p' {
                    Action::OpenInW3m
                } else if c == '/' {
                    Action::StartFilter
                } else {
                    Action::Noop
                }
            },
            Key::Down => Action::Down,
            Key::Up => Action::Up,
            Key::PageDown => Action::PageDown,
            Key::PageUp => Action::PageUp,
            Key::Enter => Action::ToggleFull,
            _ => Action::Noop,
        }
    }
}

/// Applies one action to the session state and the mode flag. Every action
/// has a defined effect in every reachable state (possibly "do nothing");
/// the returned `Effect` is the one piece of outside work the shell must
/// perform. `page` is the current page size from the viewport calculator.
pub fn apply_action(app: &mut App, filter_mode: &mut bool, action: Action, page: usize) -> (eff:
    Effect)
    requires
        old(app).wf(),
    ensures
        final(app).wf(),
        match action {
            Action::Quit => {
                &&& *final(app) == *old(app)
                &&& *final(filter_mode) == *old(filter_mode)
                &&& eff == Effect::Quit
            },
            Action::Down => {
                &&& *final(app) == (App {
                    selected: down_sel(
                        old(app).selected as int,
                        old(app).filtered@.len() as int,
                    ) as usize,
                    ..*old(app)
                })
                &&& *final(filter_mode) == *old(filter_mode)
                &&& eff == Effect::Continue
            },
            Action::Up => {
                &&& *final(app) == (App {
                    selected: up_sel(old(app).selected as int) as usize,
                    ..*old(app)
                })
                &&& *final(filter_mode) == *old(filter_mode)
                &&& eff == Effect::Continue
            },
            Action::PageDown => {
                &&& page == 0 ==> *final(app) == *old(app)
                &&& page > 0 ==> *final(app) == (App {
                    inbox_view_offset: page_down_off(
                        old(app).inbox_view_offset as int,
                        page as int,
                        old(app).filtered@.len() as int,
                    ) as usize,
                    ..*old(app)
                })
                &&& *final(filter_mode) == *old(filter_mode)
                &&& eff == Effect::Continue
            },
            Action::PageUp => {
                &&& page == 0 ==> *final(app) == *old(app)
                &&& page > 0 ==> *final(app) == (App {
                    inbox_view_offset: page_up_off(
                        old(app).inbox_view_offset as int,
                        page as int,
                    ) as usize,
                    ..*old(app)
                })
                &&& *final(filter_mode) == *old(filter_mode)
                &&& eff == Effect::Continue
            },
            Action::ToggleFull => {
                &&& *final(app) == (App { show_full: !old(app).show_full, ..*old(app) })
                &&& *final(filter_mode) == *old(filter_mode)
                &&& eff == Effect::Continue
            },
            Action::Refresh => {
                &&& old(app).loading ==> *final(app) == *old(app) && eff == Effect::Continue
                &&& !old(app).loading ==> *final(app) == (App {
                    loading: true,
                    status: Status::Refreshing,
                    ..*old(app)
                }) && eff == Effect::SpawnRefresh
                &&& *final(filter_mode) == *old(filter_mode)
            },
            Action::OpenInBrowser => {
                &&& *final(app) == *old(app)
                &&& *final(filter_mode) == *old(filter_mode)
                &&& eff == (if old(app).filtered@.len() > 0 {
                    Effect::OpenBrowser
                } else {
                    Effect::Continue
                })
            },
            Action::OpenInW3m => {
                &&& *final(app) == *old(app)
                &&& *final(filter_mode) == *old(filter_mode)
                &&& eff == (if old(app).filtered@.len() > 0 {
                    Effect::OpenViewer
                } else {
                    Effect::Continue
                })
            },
            Action::StartFilter => {
                &&& *final(filter_mode) == !*old(filter_mode)
                &&& !*old(filter_mode) ==> *final(app) == (App {
                    status: Status::FilterHint,
                    ..*old(app)
                })
                &&& *old(filter_mode) ==> {
                    &&& final(app).articles == old(app).articles
                    &&& final(app).filter == old(app).filter
                    &&& final(app).show_full == old(app).show_full
                    &&& final(app).inbox_view_offset == old(app).inbox_view_offset
                    &&& final(app).loading == old(app).loading
                    &&& final(app).filtered@ == visible_spec(old(app).articles@, old(app).filter@)
                    &&& final(app).selected as int == clamp_sel(
                        old(app).selected as int,
                        final(app).filtered@.len() as int,
                    )
                    &&& final(app).status == (Status::FilterApplied(
                        final(app).filtered@.len() as usize,
                    ))
                }
                &&& eff == Effect::Continue
            },
            Action::Backspace => {
                &&& old(app).filter@.len() == 0 ==> final(app).filter@ == old(app).filter@
                &&& old(app).filter@.len() > 0 ==> final(app).filter@ == old(
                    app,
                ).filter@.drop_last()
                &&& final(app).articles == old(app).articles
                &&& final(app).filtered == old(app).filtered
                &&& final(app).selected == old(app).selected
                &&& final(app).show_full == old(app).show_full
                &&& final(app).inbox_view_offset == old(app).inbox_view_offset
                &&& final(app).status == old(app).status
                &&& final(app).loading == old(app).loading
                &&& *final(filter_mode) == *old(filter_mode)
                &&& eff == Effect::Continue
            },
            Action::FilterChar(c) => {
                &&& final(app).filter@ == old(app).filter@.push(c)
                &&& final(app).articles == old(app).articles
                &&& final(app).filtered == old(app).filtered
                &&& final(app).selected == old(app).selected
                &&& final(app).show_full == old(app).show_full
                &&& final(app).inbox_view_offset == old(app).inbox_view_offset
                &&& final(app).status == old(app).status
                &&& final(app).loading == old(app).loading
                &&& *final(filter_mode) == *old(filter_mode)
                &&& eff == Effect::Continue
            },
            Action::EraseFilter => {
                &&& final(app).filter@.len() == 0
                &&& final(app).articles == old(app).articles
                &&& final(app).filtered == old(app).filtered
                &&& final(app).selected == old(app).selected
                &&& final(app).show_full == old(app).show_full
                &&& final(app).inbox_view_offset == old(app).inbox_view_offset
                &&& final(app).status == old(app).status
                &&& final(app).loading == old(app).loading
                &&& *final(filter_mode) == *old(filter_mode)
                &&& eff == Effect::Continue
            },
            Action::ClearFilter => {
                &&& final(app).filter@.len() == 0
                &&& final(app).filtered@ == visible_spec(
                    old(app).articles@,
                    Seq::<char>::empty(),
                )
                &&& final(app).selected as int == clamp_sel(
                    old(app).selected as int,
                    final(app).filtered@.len() as int,
                )
                &&& final(app).articles == old(app).articles
                &&& final(app).show_full == old(app).show_full
                &&& final(app).inbox_view_offset == old(app).inbox_view_offset
                &&& final(app).loading == old(app).loading
                &&& final(app).status == (Status::FilterCleared(
                    final(app).filtered@.len() as usize,
                ))
                &&& *final(filter_mode) == false
                &&& eff == Effect::Continue
            },
            Action::Noop => {
                &&& *final(app) == *old(app)
                &&& *final(filter_mode) == *old(filter_mode)
                &&& eff == Effect::Continue
            },
        },
{
    match action {
        Action::Quit => Effect::Quit,
        Action::Down => {
            app.move_down();
            Effect::Continue
        },
        Action::Up => {
            app.move_up();
            Effect::Continue
        },
        Action::PageDown => {
            app.page_down(page);
            Effect::Continue
        },
        Action::PageUp => {
            app.page_up(page);
            Effect::Continue
        },
        Action::ToggleFull => {
            app.toggle_full();
            Effect::Continue
        },
        Action::Refresh => {
            if app.start_refresh() {
                Effect::SpawnRefresh
            } else {
                Effect::Continue
            }
        },
        Action::OpenInBrowser => {
            if app.filtered.len() > 0 {
                Effect::OpenBrowser
            } else {
                Effect::Continue
            }
        },
        Action::OpenInW3m => {
            if app.filtered.len() > 0 {
                Effect::OpenViewer
            } else {
                Effect::Continue
            }
        },
        Action::StartFilter => {
            if !*filter_mode {
                *filter_mode = true;
                app.enter_filter_mode();
            } else {
                *filter_mode = false;
                app.commit_filter();
            }
            Effect::Continue
        },
        Action::Backspace => {
            app.filter_backspace();
            Effect::Continue
        },
        Action::FilterChar(c) => {
            app.filter_push(c);
            Effect::Continue
        },
        Action::EraseFilter => {
            app.filter_erase();
            Effect::Continue
        },
        Action::ClearFilter => {
            app.clear_filter();
            *filter_mode = false;
            Effect::Continue
        },
        Action::Noop => Effect::Continue,
    }
}

} // verus!
