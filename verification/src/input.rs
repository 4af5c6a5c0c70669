//! The input handler: a two-mode keymap over the application state. Every
//! key event becomes one transition whose effect is pinned down by
//! [`key_step`].

use vstd::prelude::*;
use vstd::string::*;

use crate::stat::{local_matches, views, InsertMode};
use crate::state::{adjust_selection, Action, App};
use crate::text::{insert_at, lemma_cursor_round_trip, push_char, remove_at};

verus! {

/// The key codes the handler distinguishes; everything else is `Other`.
#[derive(Clone, Copy, Debug, PartialEq, Eq, Structural)]
pub enum KeyCode {
    Esc,
    Enter,
    Tab,
    Backspace,
    Left,
    Right,
    Up,
    Down,
    Home,
    End,
    Char(char),
    Other,
}

/// One terminal key event: its code, and whether it is a press (repeats and
/// releases are ignored).
#[derive(Clone, Copy, Debug, PartialEq, Eq, Structural)]
pub struct KeyEvent {
    pub code: KeyCode,
    pub is_press: bool,
}

// ---------------------------------------------------------------------------
// Selection moves
// ---------------------------------------------------------------------------

/// Moving down: one past the selection, clamped to the last row; from no
/// selection, the first row.
pub open spec fn sel_next(sel: Option<usize>, len: int) -> Option<usize> {
    if len == 0 {
        None
    } else {
        match sel {
            Some(i) => Some((if i + 1 < len { i + 1 } else { len - 1 }) as usize),
            None => Some(0usize),
        }
    }
}

/// Moving up: one before the selection, clamped to the first row; from no
/// selection, the last row.
pub open spec fn sel_prev(sel: Option<usize>, len: int) -> Option<usize> {
    if len == 0 {
        None
    } else {
        match sel {
            Some(i) => Some((if i > 0 { i - 1 } else { 0 }) as usize),
            None => Some((len - 1) as usize),
        }
    }
}

/// The first row, if there is one.
pub open spec fn sel_first(len: int) -> Option<usize> {
    if len == 0 {
        None
    } else {
        Some(0usize)
    }
}

/// The last row, if there is one.
pub open spec fn sel_last(len: int) -> Option<usize> {
    if len == 0 {
        None
    } else {
        Some((len - 1) as usize)
    }
}

// ---------------------------------------------------------------------------
// Insert-mode edits
// ---------------------------------------------------------------------------

/// The search buffer after one Insert-mode key: Backspace deletes the
/// character before the caret, a printable character is typed at the caret,
/// every other key leaves the buffer alone.
pub open spec fn edited_search(s: Seq<char>, idx: int, code: KeyCode) -> Seq<char> {
    match code {
        KeyCode::Backspace => if idx > 0 {
            remove_at(s, idx - 1)
        } else {
            s
        },
        KeyCode::Char(c) => if s.len() < usize::MAX {
            insert_at(s, idx, c)
        } else {
            s
        },
        _ => s,
    }
}

/// The caret after one Insert-mode key, always within the edited buffer.
pub open spec fn edited_cursor(s: Seq<char>, idx: int, code: KeyCode) -> int {
    match code {
        KeyCode::Backspace => if idx > 0 {
            idx - 1
        } else {
            0
        },
        KeyCode::Char(_) => if s.len() < usize::MAX {
            idx + 1
        } else {
            idx
        },
        KeyCode::Left => if idx > 0 {
            idx - 1
        } else {
            0
        },
        KeyCode::Right => if idx + 1 <= s.len() {
            idx + 1
        } else {
            idx
        },
        _ => idx,
    }
}

// ---------------------------------------------------------------------------
// The transition relation
// ---------------------------------------------------------------------------

/// Nothing happened.
pub open spec fn unchanged_idle(pre: App, post: App, act: Action) -> bool {
    post == pre && act is Idle
}

/// The termination flag was raised.
pub open spec fn exits(pre: App, post: App, act: Action) -> bool {
    post == (App { exit: true, ..pre }) && act is Idle
}

/// The selection moved to `sel`.
pub open spec fn selects(pre: App, post: App, act: Action, sel: Option<usize>) -> bool {
    post == (App { selected_pack: sel, ..pre }) && act is Idle
}

/// Insert mode was entered.
pub open spec fn enters_insert(pre: App, post: App, act: Action) -> bool {
    post == (App {
        insert_mode: InsertMode { enabled: true, index: pre.insert_mode.index },
        ..pre
    }) && act is Idle
}

/// The selected package, if any, was handed to the installer driver: remove
/// when it is installed, install otherwise. The state itself waits for the
/// outcome.
pub open spec fn installs(pre: App, post: App, act: Action) -> bool {
    post == pre && match pre.selected_pack {
        Some(i) => act == Action::Install(
            pre.filtered@[i as int].name,
            pre.filtered@[i as int].is_installed,
        ),
        None => act is Idle,
    }
}

/// One Normal-mode key.
pub open spec fn normal_step(pre: App, post: App, code: KeyCode, act: Action) -> bool {
    let len = pre.filtered@.len() as int;
    match code {
        KeyCode::Esc => exits(pre, post, act),
        KeyCode::Enter => installs(pre, post, act),
        KeyCode::Left => selects(pre, post, act, None),
        KeyCode::Up => selects(pre, post, act, sel_prev(pre.selected_pack, len)),
        KeyCode::Down => selects(pre, post, act, sel_next(pre.selected_pack, len)),
        KeyCode::Home => selects(pre, post, act, sel_first(len)),
        KeyCode::End => selects(pre, post, act, sel_last(len)),
        KeyCode::Tab => enters_insert(pre, post, act),
        KeyCode::Char(c) => if c == 'q' {
            exits(pre, post, act)
        } else if c == 'h' {
            selects(pre, post, act, None)
        } else if c == 'l' {
            installs(pre, post, act)
        } else if c == 'k' {
            selects(pre, post, act, sel_prev(pre.selected_pack, len))
        } else if c == 'j' {
            selects(pre, post, act, sel_next(pre.selected_pack, len))
        } else if c == 'g' {
            selects(pre, post, act, sel_first(len))
        } else if c == 'G' {
            selects(pre, post, act, sel_last(len))
        } else if c == 'i' {
            enters_insert(pre, post, act)
        } else {
            unchanged_idle(pre, post, act)
        },
        _ => unchanged_idle(pre, post, act),
    }
}

/// An Insert-mode edit (Backspace or a typed character): the buffer and
/// caret change, and the search coordinator rebuilds the view for the new
/// term and re-schedules the remote query, tagged with it.
pub open spec fn edit_step(pre: App, post: App, code: KeyCode, act: Action) -> bool {
    let s2 = edited_search(pre.search@, pre.insert_mode.index as int, code);
    &&& post.search@ == s2
    &&& post.insert_mode.index == edited_cursor(pre.search@, pre.insert_mode.index as int, code)
    &&& post.insert_mode.enabled
    &&& post.items == pre.items
    &&& post.exit == pre.exit
    &&& post.notice == pre.notice
    &&& post.selected_win == pre.selected_win
    &&& views(post.filtered@) == local_matches(views(pre.items@), s2)
    &&& post.selected_pack == adjust_selection(pre.selected_pack, post.filtered@.len() as int)
    &&& (s2.len() > 0 ==> (post.aur_inflight matches Some(k) && k@ == s2) && (
    act matches Action::SpawnAur(kw) && kw@ == s2))
    &&& (s2.len() == 0 ==> post.aur_inflight is None && act is CancelAur)
}

/// Only the caret moved; the buffer, the view and the scheduled query are
/// untouched.
pub open spec fn moves_cursor(pre: App, post: App, code: KeyCode, act: Action) -> bool {
    post == (App {
        insert_mode: InsertMode {
            enabled: true,
            index: edited_cursor(pre.search@, pre.insert_mode.index as int, code) as usize,
        },
        ..pre
    }) && act is Idle
}

/// Insert mode was left; nothing else changed.
pub open spec fn leaves_insert(pre: App, post: App, act: Action) -> bool {
    post == (App {
        insert_mode: InsertMode { enabled: false, index: pre.insert_mode.index },
        ..pre
    }) && act is Idle
}

/// One Insert-mode key. Only an edit of the buffer (Backspace or a typed
/// character) invokes the search coordinator; a bare caret move or leaving
/// Insert mode touches nothing else, and an unmapped key is silently
/// ignored.
pub open spec fn insert_step(pre: App, post: App, code: KeyCode, act: Action) -> bool {
    match code {
        KeyCode::Backspace => edit_step(pre, post, code, act),
        KeyCode::Char(_) => edit_step(pre, post, code, act),
        KeyCode::Left => moves_cursor(pre, post, code, act),
        KeyCode::Right => moves_cursor(pre, post, code, act),
        KeyCode::Enter => leaves_insert(pre, post, act),
        KeyCode::Tab => leaves_insert(pre, post, act),
        _ => unchanged_idle(pre, post, act),
    }
}

/// What one key event does to the state, for every key in either mode.
pub open spec fn key_step(pre: App, post: App, key: KeyEvent, act: Action) -> bool {
    if !key.is_press {
        post == pre && act is Idle
    } else if !pre.insert_mode.enabled {
        normal_step(pre, post, key.code, act)
    } else {
        insert_step(pre, post, key.code, act)
    }
}

/// The cursor round trip, through the public key handler: typing a
/// character in Insert mode and pressing Backspace right after restores the
/// search buffer and the caret, and leaves the view at the local matches of
/// the restored term.
pub proof fn lemma_insert_backspace_round_trip(
    pre: App,
    mid: App,
    post: App,
    c: char,
    a1: Action,
    a2: Action,
)
    requires
        pre.wf(),
        pre.insert_mode.enabled,
        pre.search@.len() < usize::MAX,
        key_step(pre, mid, KeyEvent { code: KeyCode::Char(c), is_press: true }, a1),
        key_step(mid, post, KeyEvent { code: KeyCode::Backspace, is_press: true }, a2),
    ensures
        post.search@ == pre.search@,
        post.insert_mode.index == pre.insert_mode.index,
        views(post.filtered@) == local_matches(views(pre.items@), pre.search@),
{
    let s = pre.search@;
    let i = pre.insert_mode.index as int;
    assert(mid.search@ == insert_at(s, i, c));
    assert(mid.insert_mode.index == i + 1);
    assert(post.search@ == remove_at(insert_at(s, i, c), i));
    lemma_cursor_round_trip(s, i, c);
    assert(mid.items == pre.items);
}

// ---------------------------------------------------------------------------
// The handler
// ---------------------------------------------------------------------------

impl App {
    /// Applies one key event: the whole two-mode keymap, as [`key_step`]
    /// states it.
    pub fn handle_key(&mut self, key: KeyEvent) -> (act: Action)
        requires
            old(self).wf(),
        ensures
            final(self).wf(),
            key_step(*old(self), *final(self), key, act),
    {
        if !key.is_press {
            return Action::Idle;
        }
        if !self.insert_mode.enabled {
            match key.code {
                KeyCode::Esc => {
                    self.exit = true;
                    Action::Idle
                },
                KeyCode::Enter => self.request_install(),
                KeyCode::Left => {
                    self.select_none();
                    Action::Idle
                },
                KeyCode::Up => {
                    self.select_previous();
                    Action::Idle
                },
                KeyCode::Down => {
                    self.select_next();
                    Action::Idle
                },
                KeyCode::Home => {
                    self.select_first();
                    Action::Idle
                },
                KeyCode::End => {
                    self.select_last();
                    Action::Idle
                },
                KeyCode::Tab => {
                    self.insert_mode.enabled = true;
                    Action::Idle
                },
                KeyCode::Char(c) => {
                    if c == 'q' {
                        self.exit = true;
                        Action::Idle
                    } else if c == 'h' {
                        self.select_none();
                        Action::Idle
                    } else if c == 'l' {
                        self.request_install()
                    } else if c == 'k' {
                        self.select_previous();
                        Action::Idle
                    } else if c == 'j' {
                        self.select_next();
                        Action::Idle
                    } else if c == 'g' {
                        self.select_first();
                        Action::Idle
                    } else if c == 'G' {
                        self.select_last();
                        Action::Idle
                    } else if c == 'i' {
                        self.insert_mode.enabled = true;
                        Action::Idle
                    } else {
                        Action::Idle
                    }
                },
                _ => Action::Idle,
            }
        } else {
            match key.code {
                KeyCode::Backspace => {
                    self.delete_char();
                    self.update_filter_local()
                },
                KeyCode::Char(c) => {
                    self.enter_char(c);
                    self.update_filter_local()
                },
                KeyCode::Left => {
                    self.move_cursor_left();
                    Action::Idle
                },
                KeyCode::Right => {
                    self.move_cursor_right();
                    Action::Idle
                },
                KeyCode::Enter => {
                    self.insert_mode.enabled = false;
                    Action::Idle
                },
                KeyCode::Tab => {
                    self.insert_mode.enabled = false;
                    Action::Idle
                },
                _ => Action::Idle,
            }
        }
    }

    /// The Normal-mode confirm key: names the package the installer driver
    /// should act on, without touching the state.
    fn request_install(&self) -> (act: Action)
        requires
            self.wf(),
        ensures
            match self.selected_pack {
                Some(i) => act == Action::Install(
                    self.filtered@[i as int].name,
                    self.filtered@[i as int].is_installed,
                ),
                None => act is Idle,
            },
    {
        match self.selected_pack {
            Some(i) => {
                let p = &self.filtered[i];
                Action::Install(p.name.clone(), p.is_installed)
            },
            None => Action::Idle,
        }
    }

    fn select_none(&mut self)
        ensures
            *final(self) == (App { selected_pack: None, ..*old(self) }),
    {
        self.selected_pack = None;
    }

    fn select_next(&mut self)
        requires
            crate::state::selected_ok(old(self).selected_pack, old(self).filtered@.len() as int),
        ensures
            *final(self) == (App {
                selected_pack: sel_next(old(self).selected_pack, old(self).filtered@.len() as int),
                ..*old(self)
            }),
    {
        let len = self.filtered.len();
        if len == 0 {
            self.selected_pack = None;
        } else {
            self.selected_pack = match self.selected_pack {
                Some(i) => if i + 1 < len {
                    Some(i + 1)
                } else {
                    Some(len - 1)
                },
                None => Some(0),
            };
        }
    }

    fn select_previous(&mut self)
        ensures
            *final(self) == (App {
                selected_pack: sel_prev(old(self).selected_pack, old(self).filtered@.len() as int),
                ..*old(self)
            }),
    {
        let len = self.filtered.len();
        if len == 0 {
            self.selected_pack = None;
        } else {
            self.selected_pack = match self.selected_pack {
                Some(i) => if i > 0 {
                    Some(i - 1)
                } else {
                    Some(0)
                },
                None => Some(len - 1),
            };
        }
    }

    fn select_first(&mut self)
        ensures
            *final(self) == (App {
                selected_pack: sel_first(old(self).filtered@.len() as int),
                ..*old(self)
            }),
    {
        let len = self.filtered.len();
        self.selected_pack = if len == 0 {
            None
        } else {
            Some(0)
        };
    }

    fn select_last(&mut self)
        ensures
            *final(self) == (App {
                selected_pack: sel_last(old(self).filtered@.len() as int),
                ..*old(self)
            }),
    {
        let len = self.filtered.len();
        self.selected_pack = if len == 0 {
            None
        } else {
            Some(len - 1)
        };
    }

    fn delete_char(&mut self)
        requires
            old(self).insert_mode.index <= old(self).search@.len(),
        ensures
            final(self).search@ == edited_search(
                old(self).search@,
                old(self).insert_mode.index as int,
                KeyCode::Backspace,
            ),
            final(self).insert_mode.index == edited_cursor(
                old(self).search@,
                old(self).insert_mode.index as int,
                KeyCode::Backspace,
            ),
            final(self).insert_mode.enabled == old(self).insert_mode.enabled,
            final(self).insert_mode.index <= final(self).search@.len(),
            final(self).items == old(self).items,
            final(self).filtered == old(self).filtered,
            final(self).selected_pack == old(self).selected_pack,
            final(self).exit == old(self).exit,
            final(self).notice == old(self).notice,
            final(self).aur_inflight == old(self).aur_inflight,
            final(self).selected_win == old(self).selected_win,
    {
        let idx = self.insert_mode.index;
        if idx != 0 {
            let n = self.search.as_str().unicode_len();
            let left = self.search.as_str().substring_char(0, idx - 1);
            let mut ns = String::from_str(left);
            let right = self.search.as_str().substring_char(idx, n);
            ns.append(right);
            self.search = ns;
            self.insert_mode.index = idx - 1;
            proof {
                assert(self.search@ =~= remove_at(old(self).search@, idx - 1));
            }
        }
    }

    fn enter_char(&mut self, c: char)
        requires
            old(self).insert_mode.index <= old(self).search@.len(),
        ensures
            final(self).search@ == edited_search(
                old(self).search@,
                old(self).insert_mode.index as int,
                KeyCode::Char(c),
            ),
            final(self).insert_mode.index == edited_cursor(
                old(self).search@,
                old(self).insert_mode.index as int,
                KeyCode::Char(c),
            ),
            final(self).insert_mode.enabled == old(self).insert_mode.enabled,
            final(self).insert_mode.index <= final(self).search@.len(),
            final(self).items == old(self).items,
            final(self).filtered == old(self).filtered,
            final(self).selected_pack == old(self).selected_pack,
            final(self).exit == old(self).exit,
            final(self).notice == old(self).notice,
            final(self).aur_inflight == old(self).aur_inflight,
            final(self).selected_win == old(self).selected_win,
    {
        let n = self.search.as_str().unicode_len();
        if n < usize::MAX {
            let idx = self.insert_mode.index;
            let left = self.search.as_str().substring_char(0, idx);
            let mut ns = String::from_str(left);
            push_char(&mut ns, c);
            let right = self.search.as_str().substring_char(idx, n);
            ns.append(right);
            self.search = ns;
            self.insert_mode.index = idx + 1;
            proof {
                assert(self.search@ =~= insert_at(old(self).search@, idx as int, c));
            }
        }
    }

    fn move_cursor_left(&mut self)
        ensures
            final(self).insert_mode.index == edited_cursor(
                old(self).search@,
                old(self).insert_mode.index as int,
                KeyCode::Left,
            ),
            final(self).insert_mode.enabled == old(self).insert_mode.enabled,
            final(self).search == old(self).search,
            final(self).items == old(self).items,
            final(self).filtered == old(self).filtered,
            final(self).selected_pack == old(self).selected_pack,
            final(self).exit == old(self).exit,
            final(self).notice == old(self).notice,
            final(self).aur_inflight == old(self).aur_inflight,
            final(self).selected_win == old(self).selected_win,
    {
        if self.insert_mode.index > 0 {
            self.insert_mode.index = self.insert_mode.index - 1;
        }
    }

    fn move_cursor_right(&mut self)
        requires
            old(self).insert_mode.index <= old(self).search@.len(),
        ensures
            final(self).insert_mode.index == edited_cursor(
                old(self).search@,
                old(self).insert_mode.index as int,
                KeyCode::Right,
            ),
            final(self).insert_mode.enabled == old(self).insert_mode.enabled,
            final(self).search == old(self).search,
            final(self).items == old(self).items,
            final(self).filtered == old(self).filtered,
            final(self).selected_pack == old(self).selected_pack,
            final(self).exit == old(self).exit,
            final(self).notice == old(self).notice,
            final(self).aur_inflight == old(self).aur_inflight,
            final(self).selected_win == old(self).selected_win,
    {
        let n = self.search.as_str().unicode_len();
        if self.insert_mode.index < n {
            self.insert_mode.index = self.insert_mode.index + 1;
        }
    }
}

} // verus!
