//! Picking the target project: the first screen of a session.
//!
//! The picker waits for a background project fetch, lets the user move a
//! cursor through the fetched list, retry a failed fetch, and confirm one
//! project, which is fed back into the event stream as a
//! [`Event::ProjectSelected`] occurrence.

use vstd::prelude::*;

use crate::session::{Action, Event, KeyCode, KeyEvent};
use crate::types::ProjectV7;

verus! {

/// Where the project picker stands.
#[derive(Clone, Debug, PartialEq)]
pub enum ProjectPickerState {
    /// A project fetch is underway.
    Loading,
    /// The last fetch failed with this message.
    Failed(String),
    /// Projects were fetched; the user is choosing one.
    Selecting { projects: Vec<ProjectV7>, table_cursor: usize },
}

/// A key that asks to leave the program.
pub open spec fn is_exit_key(k: KeyEvent) -> bool {
    k.code == KeyCode::Esc || (k.code == KeyCode::Char('c') && k.ctrl)
}

/// The picker's transition relation: from state `pre` under `event` to
/// state `post`, emitting `actions`.
pub open spec fn picker_step(
    pre: ProjectPickerState,
    event: Event,
    post: ProjectPickerState,
    actions: Seq<Action>,
) -> bool {
    if event matches Event::KeyPressed(k) && is_exit_key(k) {
        post == pre && actions == seq![Action::Emit(Event::Exit)]
    } else {
        match event {
            Event::ProjectsUpdated(r) => match r {
                Ok(projects) => {
                    &&& post matches ProjectPickerState::Selecting { projects: p2, table_cursor }
                        && p2 == projects && table_cursor == 0
                    &&& actions == Seq::<Action>::empty()
                },
                Err(msg) => {
                    &&& if pre is Loading {
                        post == ProjectPickerState::Failed(msg)
                    } else {
                        post == pre
                    }
                    &&& actions == Seq::<Action>::empty()
                },
            },
            Event::ProjectsLoading => {
                post == ProjectPickerState::Loading && actions == Seq::<Action>::empty()
            },
            Event::KeyPressed(k) => match pre {
                ProjectPickerState::Loading => {
                    post == pre && actions == Seq::<Action>::empty()
                },
                ProjectPickerState::Failed(_) => {
                    &&& post == pre
                    &&& if k.code == KeyCode::Char('r') {
                        actions == seq![Action::RefreshProjects]
                    } else {
                        actions == Seq::<Action>::empty()
                    }
                },
                ProjectPickerState::Selecting { projects, table_cursor } => {
                    match k.code {
                        KeyCode::Up => {
                            &&& post matches ProjectPickerState::Selecting {
                                projects: p2,
                                table_cursor: c2,
                            } && p2 == projects && c2 == if table_cursor > 0 {
                                table_cursor - 1
                            } else {
                                0
                            }
                            &&& actions == Seq::<Action>::empty()
                        },
                        KeyCode::Down => {
                            &&& post matches ProjectPickerState::Selecting {
                                projects: p2,
                                table_cursor: c2,
                            } && p2 == projects && c2 == if table_cursor < usize::MAX
                                && table_cursor + 1 < projects@.len() {
                                table_cursor + 1
                            } else {
                                table_cursor as int
                            }
                            &&& actions == Seq::<Action>::empty()
                        },
                        KeyCode::Char('r') => {
                            post == pre && actions == seq![Action::RefreshProjects]
                        },
                        KeyCode::Enter => {
                            if table_cursor < projects@.len() {
                                &&& post matches ProjectPickerState::Selecting {
                                    projects: p2,
                                    table_cursor: c2,
                                } && p2@ == projects@.remove(table_cursor as int) && c2
                                    == table_cursor
                                &&& actions == seq![
                                    Action::Emit(
                                        Event::ProjectSelected(projects@[table_cursor as int]),
                                    ),
                                ]
                            } else {
                                post == pre && actions == Seq::<Action>::empty()
                            }
                        },
                        _ => {
                            post == pre && actions == Seq::<Action>::empty()
                        },
                    }
                },
            },
            _ => {
                post == pre && actions == Seq::<Action>::empty()
            },
        }
    }
}

impl ProjectPickerState {
    /// Routes one event to the picker, as [`picker_step`] describes: exit
    /// keys bubble up, fetch results replace the list, and cursor keys,
    /// retry and confirmation act on the fetched list.
    pub fn handle_event(&mut self, event: Event) -> (actions: Vec<Action>)
        ensures
            picker_step(*old(self), event, *final(self), actions@),
    {
        let mut actions: Vec<Action> = Vec::new();
        if let Event::KeyPressed(k) = &event {
            if matches!(k.code, KeyCode::Esc) || (matches!(k.code, KeyCode::Char('c')) && k.ctrl) {
                actions.push(Action::Emit(Event::Exit));
                return actions;
            }
        }
        match event {
            Event::ProjectsUpdated(r) => {
                match r {
                    Ok(projects) => {
                        *self = ProjectPickerState::Selecting { projects, table_cursor: 0 };
                    },
                    Err(msg) => {
                        if matches!(*self, ProjectPickerState::Loading) {
                            *self = ProjectPickerState::Failed(msg);
                        }
                    },
                }
            },
            Event::ProjectsLoading => {
                *self = ProjectPickerState::Loading;
            },
            Event::KeyPressed(k) => {
                match self {
                    ProjectPickerState::Loading => {},
                    ProjectPickerState::Failed(_) => {
                        if matches!(k.code, KeyCode::Char('r')) {
                            actions.push(Action::RefreshProjects);
                        }
                    },
                    ProjectPickerState::Selecting { projects, table_cursor } => {
                        match k.code {
                            KeyCode::Up => {
                                if *table_cursor > 0 {
                                    *table_cursor = *table_cursor - 1;
                                }
                            },
                            KeyCode::Down => {
                                if *table_cursor < usize::MAX && *table_cursor + 1 < projects.len()
                                {
                                    *table_cursor = *table_cursor + 1;
                                }
                            },
                            KeyCode::Char('r') => {
                                actions.push(Action::RefreshProjects);
                            },
                            KeyCode::Enter => {
                                if *table_cursor < projects.len() {
                                    let p = projects.remove(*table_cursor);
                                    actions.push(Action::Emit(Event::ProjectSelected(p)));
                                }
                            },
                            _ => {},
                        }
                    },
                }
            },
            _ => {},
        }
        actions
    }
}

} // verus!
