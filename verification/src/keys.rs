//! What each key does on each screen.
use vstd::prelude::*;

use crate::actions::{
    clipboard_export_post, delete_post, open_export_post, save_post, select_baseline_post,
};
use crate::app::{
    diff_line_down_spec, diff_line_up_spec, file_down_spec, file_up_spec, App, Screen,
};
use crate::ports::{CommentStore, GitRepository};
use crate::text::{pop_char, push_char};

verus! {

/// A key, as the terminal reports it.
#[derive(Debug, Clone, Copy, PartialEq, Eq, Structural)]
pub enum KeyCode {
    Char(char),
    Esc,
    Enter,
    Backspace,
    Left,
    Right,
    Up,
    Down,
    Tab,
    BackTab,
    PageUp,
    PageDown,
    /// Any other key.
    Other,
}

/// A key press: the key and whether Shift was held.
#[derive(Debug, Clone, Copy, PartialEq, Eq, Structural)]
pub struct Key {
    pub code: KeyCode,
    pub shift: bool,
}

/// What the event loop does after a key.
pub enum KeyOutcome {
    /// Go on.
    Continue,
    /// Leave the viewer.
    Quit,
    /// Copy this text to the clipboard, then go on.
    CopyToClipboard(String),
}

/// The loop goes on.
pub open spec fn continues(r: Result<KeyOutcome, String>) -> bool {
    match r {
        Ok(KeyOutcome::Continue) => true,
        _ => false,
    }
}

/// The loop ends.
pub open spec fn quits(r: Result<KeyOutcome, String>) -> bool {
    match r {
        Ok(KeyOutcome::Quit) => true,
        _ => false,
    }
}

/// Up, or `k`.
pub open spec fn is_up(key: Key) -> bool {
    key.code == KeyCode::Up || key.code == KeyCode::Char('k')
}

/// Down, or `j`.
pub open spec fn is_down(key: Key) -> bool {
    key.code == KeyCode::Down || key.code == KeyCode::Char('j')
}

/// The key is one of the two characters.
pub open spec fn is_char(key: Key, c1: char, c2: char) -> bool {
    key.code == KeyCode::Char(c1) || key.code == KeyCode::Char(c2)
}

/// `r` reports the result of an operation whose result is `op`.
pub open spec fn passes_on<T>(r: Result<T, String>, op: Result<(), String>) -> bool {
    &&& r is Err <==> op is Err
    &&& r matches Err(e) ==> op == Err::<(), String>(e)
}

/// What a key does on the baseline picker.
pub open spec fn baseline_key_post<R: GitRepository>(repo: R, a: App, b: App, key: Key, r: Result<bool, String>) -> bool {
    if is_char(key, 'q', 'q') || key.code == KeyCode::Esc {
        r == Ok::<bool, String>(true) && b == a
    } else if is_up(key) && a.baseline_cursor > 0 {
        r == Ok::<bool, String>(false) && b == (App { baseline_cursor: (a.baseline_cursor - 1) as usize, ..a })
    } else if is_down(key) && a.baseline_cursor + 1 < a.baselines@.len() {
        r == Ok::<bool, String>(false) && b == (App { baseline_cursor: (a.baseline_cursor + 1) as usize, ..a })
    } else if key.code == KeyCode::Enter {
        &&& r is Ok ==> r == Ok::<bool, String>(false)
        &&& exists|op: Result<(), String>| passes_on(r, op) && #[trigger] select_baseline_post(repo, a, b, op)
    } else {
        r == Ok::<bool, String>(false) && b == a
    }
}

/// What a key does on the main screen.
pub open spec fn main_key_post<R: GitRepository, S: CommentStore>(repo: R, store: S, a: App, b: App, key: Key, r: Result<KeyOutcome, String>) -> bool {
    if is_char(key, 'q', 'q') || key.code == KeyCode::Esc {
        quits(r) && b == a
    } else if is_char(key, 's', 'S') {
        continues(r) && b == (App { view_mode: a.view_mode.toggle(), ..a })
    } else if is_char(key, 't', 'T') {
        continues(r) && b == (App { theme: a.theme.cycle(), ..a })
    } else if is_char(key, 'r', 'r') {
        &&& r is Ok ==> continues(r)
        &&& exists|op: Result<(), String>| passes_on(r, op) && #[trigger] select_baseline_post(repo, a, b, op)
    } else if key.code == KeyCode::Left || is_char(key, 'h', 'h') {
        continues(r) && b == a
    } else if is_up(key) && key.shift {
        continues(r) && b == file_up_spec(a)
    } else if is_down(key) && key.shift {
        continues(r) && b == file_down_spec(a)
    } else if is_up(key) {
        continues(r) && b == diff_line_up_spec(a)
    } else if is_down(key) {
        continues(r) && b == diff_line_down_spec(a)
    } else if key.code == KeyCode::Tab {
        continues(r) && b == file_down_spec(a)
    } else if key.code == KeyCode::BackTab {
        continues(r) && b == file_up_spec(a)
    } else if key.code == KeyCode::PageUp {
        continues(r) && b == (App {
            diff_scroll: if a.diff_scroll >= 10 { (a.diff_scroll - 10) as u16 } else { 0 },
            ..a
        })
    } else if key.code == KeyCode::PageDown {
        continues(r) && b == (App {
            diff_scroll: if a.diff_scroll + 10 <= u16::MAX { (a.diff_scroll + 10) as u16 } else { u16::MAX },
            ..a
        })
    } else if is_char(key, 'c', 'e') {
        continues(r) && opened_input(a, b)
    } else if is_char(key, 'd', 'd') {
        continues(r) && delete_post(store, a, b)
    } else if is_char(key, 'C', 'C') {
        exists|op: Option<String>| {
            &&& #[trigger] clipboard_export_post(repo, a, b, op)
            &&& op is None ==> continues(r)
            &&& op matches Some(t) ==> r matches Ok(KeyOutcome::CopyToClipboard(u)) && u == t
        }
    } else if is_char(key, 'v', 'V') {
        continues(r) && open_export_post(repo, store, a, b)
    } else {
        continues(r) && b == a
    }
}

/// `b` is `a` with the comment input opened (see `App::open_comment_input`).
pub open spec fn opened_input(a: App, b: App) -> bool {
    &&& b == (App {
        comment_editing_id: b.comment_editing_id,
        comment_input_text: b.comment_input_text,
        screen: Screen::CommentInput,
        ..a
    })
    &&& match a.current_comment_index() {
        Some(i) => b.comment_editing_id == Some(a.comments@[i].id) && b.comment_input_text
            == a.comments@[i].text,
        None => b.comment_editing_id is None && b.comment_input_text@.len() == 0,
    }
}

/// What a key does while a comment is typed.
pub open spec fn input_key_post<R: GitRepository, S: CommentStore>(repo: R, store: S, a: App, b: App, key: Key) -> bool {
    match key.code {
        KeyCode::Esc => {
            &&& b == (App {
                screen: Screen::Main,
                comment_input_text: b.comment_input_text,
                comment_editing_id: None,
                ..a
            })
            &&& b.comment_input_text@.len() == 0
        },
        KeyCode::Enter => save_post(repo, store, a, b),
        KeyCode::Backspace => {
            &&& b == (App { comment_input_text: b.comment_input_text, ..a })
            &&& b.comment_input_text@ == if a.comment_input_text@.len() > 0 {
                a.comment_input_text@.drop_last()
            } else {
                a.comment_input_text@
            }
        },
        KeyCode::Char(c) => {
            &&& b == (App { comment_input_text: b.comment_input_text, ..a })
            &&& b.comment_input_text@ == a.comment_input_text@.push(c)
        },
        _ => b == a,
    }
}

/// The last line the export view can scroll to.
pub open spec fn export_scroll_max(a: App) -> u16 {
    if a.comment_export_line_count >= 1 {
        (a.comment_export_line_count - 1) as u16
    } else {
        0
    }
}

/// `s` moved up by `d`, stopping at the top.
pub open spec fn scroll_back(s: u16, d: u16) -> u16 {
    if s >= d {
        (s - d) as u16
    } else {
        0
    }
}

/// `s` moved down by `d`, stopping at `max` (and at the largest `u16`).
pub open spec fn scroll_on(s: u16, d: u16, max: u16) -> u16 {
    let t = if s + d <= u16::MAX {
        (s + d) as u16
    } else {
        u16::MAX
    };
    if t <= max {
        t
    } else {
        max
    }
}

/// What a key does in the export view.
pub open spec fn export_key_post(a: App, b: App, key: Key) -> bool {
    let max = export_scroll_max(a);
    if key.code == KeyCode::Esc || is_char(key, 'q', 'q') {
        b == (App { screen: Screen::Main, ..a })
    } else if is_up(key) {
        b == (App { comment_export_scroll: scroll_back(a.comment_export_scroll, 1), ..a })
    } else if is_down(key) {
        b == (App { comment_export_scroll: scroll_on(a.comment_export_scroll, 1, max), ..a })
    } else if key.code == KeyCode::PageUp {
        b == (App { comment_export_scroll: scroll_back(a.comment_export_scroll, 10), ..a })
    } else if key.code == KeyCode::PageDown {
        b == (App { comment_export_scroll: scroll_on(a.comment_export_scroll, 10, max), ..a })
    } else {
        b == a
    }
}

/// The state after a key clears the status message (every key but `C`
/// does, so that a message is read until the next key).
pub open spec fn status_cleared(a: App, key: Key) -> App {
    if a.status_message is Some && key.code != KeyCode::Char('C') {
        App { status_message: None, ..a }
    } else {
        a
    }
}

/// What a key does, on whichever screen shows.
pub open spec fn key_post<R: GitRepository, S: CommentStore>(repo: R, store: S, a: App, b: App, key: Key, r: Result<KeyOutcome, String>) -> bool {
    let a1 = status_cleared(a, key);
    match a1.screen {
        Screen::BaselinePicker => exists|op: Result<bool, String>| {
            &&& #[trigger] baseline_key_post(repo, a1, b, key, op)
            &&& op is Err <==> r is Err
            &&& op matches Err(e) ==> r == Err::<KeyOutcome, String>(e)
            &&& op == Ok::<bool, String>(true) ==> quits(r)
            &&& op == Ok::<bool, String>(false) ==> continues(r)
        },
        Screen::Main => main_key_post(repo, store, a1, b, key, r),
        Screen::CommentInput => continues(r) && input_key_post(repo, store, a1, b, key),
        Screen::CommentExport => export_key_post(a1, b, key) && continues(r),
    }
}

fn is_up_exec(key: Key) -> (r: bool)
    ensures
        r == is_up(key),
{
    match key.code {
        KeyCode::Up | KeyCode::Char('k') => true,
        _ => false,
    }
}

fn is_down_exec(key: Key) -> (r: bool)
    ensures
        r == is_down(key),
{
    match key.code {
        KeyCode::Down | KeyCode::Char('j') => true,
        _ => false,
    }
}

impl App {
    /// Handles a key on the baseline picker; whether to quit.
    pub fn handle_baseline<R: GitRepository>(&mut self, key: Key, repo: &R) -> (r: Result<bool, String>)
        ensures
            baseline_key_post(*repo, *old(self), *final(self), key, r),
    {
        let ghost a = *self;
        if key.code == KeyCode::Char('q') || key.code == KeyCode::Esc {
            return Ok(true);
        }
        if is_up_exec(key) && self.baseline_cursor > 0 {
            self.baseline_cursor -= 1;
        } else if is_down_exec(key) && self.baselines.len() > 0 && self.baseline_cursor < self.baselines.len() - 1 {
            self.baseline_cursor += 1;
        } else if key.code == KeyCode::Enter {
            let op = self.select_baseline(repo);
            assert(select_baseline_post(*repo, a, *self, op));
            match op {
                Ok(()) => {},
                Err(e) => return Err(e),
            }
        }
        Ok(false)
    }

    /// Handles a key on the main screen.
    pub fn handle_main<R: GitRepository, S: CommentStore>(
        &mut self,
        key: Key,
        repo: &R,
        comment_store: &S,
    ) -> (r: Result<KeyOutcome, String>)
        ensures
            main_key_post(*repo, *comment_store, *old(self), *final(self), key, r),
    {
        let ghost a = *self;
        match key.code {
            KeyCode::Char('q') | KeyCode::Esc => return Ok(KeyOutcome::Quit),
            KeyCode::Char('s') | KeyCode::Char('S') => {
                self.view_mode = self.view_mode.toggle();
            },
            KeyCode::Char('t') | KeyCode::Char('T') => {
                self.theme = self.theme.cycle();
            },
            KeyCode::Char('r') => {
                let op = self.select_baseline(repo);
                assert(select_baseline_post(*repo, a, *self, op));
                match op {
                    Ok(()) => {},
                    Err(e) => return Err(e),
                }
            },
            KeyCode::Left | KeyCode::Char('h') => {},
            KeyCode::Up | KeyCode::Char('k') => {
                if key.shift {
                    self.file_up();
                } else {
                    self.diff_line_up();
                }
            },
            KeyCode::Down | KeyCode::Char('j') => {
                if key.shift {
                    self.file_down();
                } else {
                    self.diff_line_down();
                }
            },
            KeyCode::Tab => self.file_down(),
            KeyCode::BackTab => self.file_up(),
            KeyCode::PageUp => self.diff_scroll = self.diff_scroll.saturating_sub(10),
            KeyCode::PageDown => self.diff_scroll = self.diff_scroll.saturating_add(10),
            KeyCode::Char('c') => self.open_comment_input(),
            KeyCode::Char('e') => self.open_comment_input(),
            KeyCode::Char('d') => self.delete_comment_on_current_line(comment_store),
            KeyCode::Char('C') => {
                let op = self.export_comments_to_clipboard(repo);
                assert(clipboard_export_post(*repo, a, *self, op));
                match op {
                    Some(text) => return Ok(KeyOutcome::CopyToClipboard(text)),
                    None => {},
                }
            },
            KeyCode::Char('v') | KeyCode::Char('V') => {
                self.open_comment_export(repo, comment_store);
            },
            _ => {},
        }
        Ok(KeyOutcome::Continue)
    }

    /// Handles a key while a comment is typed.
    pub fn handle_comment_input<R: GitRepository, S: CommentStore>(
        &mut self,
        key: Key,
        repo: &R,
        comment_store: &S,
    )
        ensures
            input_key_post(*repo, *comment_store, *old(self), *final(self), key),
    {
        match key.code {
            KeyCode::Esc => {
                self.screen = Screen::Main;
                self.comment_input_text = String::new();
                self.comment_editing_id = None;
            },
            KeyCode::Enter => self.save_comment(repo, comment_store),
            KeyCode::Backspace => {
                pop_char(&mut self.comment_input_text);
            },
            KeyCode::Char(c) => {
                push_char(&mut self.comment_input_text, c);
            },
            _ => {},
        }
    }

    /// Handles a key in the export view.
    pub fn handle_comment_export(&mut self, key: Key)
        ensures
            export_key_post(*old(self), *final(self), key),
    {
        let max = self.comment_export_line_count.saturating_sub(1);
        match key.code {
            KeyCode::Esc | KeyCode::Char('q') => self.screen = Screen::Main,
            KeyCode::Up | KeyCode::Char('k') => {
                self.comment_export_scroll = self.comment_export_scroll.saturating_sub(1);
            },
            KeyCode::Down | KeyCode::Char('j') => {
                self.comment_export_scroll = self.comment_export_scroll.saturating_add(1).min(max);
            },
            KeyCode::PageUp => {
                self.comment_export_scroll = self.comment_export_scroll.saturating_sub(10);
            },
            KeyCode::PageDown => {
                self.comment_export_scroll = self.comment_export_scroll.saturating_add(10).min(max);
            },
            _ => {},
        }
    }

    /// Handles a key: clears the status message (unless the key is `C`), then
    /// acts as the screen shown prescribes.
    pub fn handle_key<R: GitRepository, S: CommentStore>(
        &mut self,
        key: Key,
        repo: &R,
        comment_store: &S,
    ) -> (r: Result<KeyOutcome, String>)
        ensures
            key_post(*repo, *comment_store, *old(self), *final(self), key, r),
    {
        if self.status_message.is_some() && key.code != KeyCode::Char('C') {
            self.status_message = None;
        }
        let ghost a1 = *self;
        assert(a1 == status_cleared(*old(self), key));
        match self.screen {
            Screen::BaselinePicker => {
                let op = self.handle_baseline(key, repo);
                assert(baseline_key_post(*repo, a1, *self, key, op));
                match op {
                    Ok(true) => Ok(KeyOutcome::Quit),
                    Ok(false) => Ok(KeyOutcome::Continue),
                    Err(e) => Err(e),
                }
            },
            Screen::Main => self.handle_main(key, repo, comment_store),
            Screen::CommentInput => {
                self.handle_comment_input(key, repo, comment_store);
                Ok(KeyOutcome::Continue)
            },
            Screen::CommentExport => {
                self.handle_comment_export(key);
                Ok(KeyOutcome::Continue)
            },
        }
    }
}

} // verus!
