//! The screen state machine: one owned state value, a handler per screen
//! that turns a key event into a state change and at most one gateway
//! action, and an `apply_*` method per gateway call that folds its result
//! back into the state. The event loop outside the crate performs the
//! action and hands the result back; every gateway failure becomes a
//! status message and never aborts the loop.

use vstd::prelude::*;
use crate::config::GitsyConfig;
use crate::editor::{apply_edit, EditOp, InputBuffer};
use crate::gateway::{err_text, GatewayError};
use crate::menu::{next_sel, prev_sel, standard_labels, MainMenu};
use crate::strutil::concat3;

verus! {

/// The four screens; exactly one is active at a time.
#[derive(Clone, Copy, PartialEq, Eq, Structural, Debug)]
pub enum Screen {
    MainMenu,
    CreateBranch,
    DeleteBranch,
    ConfirmDelete,
}

/// A key event, as the interface understands it.
#[derive(Clone, Copy, PartialEq, Eq, Structural, Debug)]
pub enum Key {
    Up,
    Down,
    Left,
    Right,
    Home,
    End,
    Enter,
    Esc,
    Backspace,
    Delete,
    Char(char),
}

/// What the event loop must do next: nothing, leave, or one blocking
/// gateway call whose result comes back through the matching `apply_*`
/// method.
#[derive(Debug)]
pub enum Action {
    Idle,
    Exit,
    LoadBranches,
    CreateWorktree(String),
    CheckSync(String),
    RemoveWorktree(String),
}

/// An outcome note, kept until the next task replaces it, tagged success
/// or error rather than classified by its text.
#[derive(Debug)]
pub enum StatusMessage {
    Success(String),
    Error(String),
}

/// The text of a status message.
pub open spec fn msg_text(m: StatusMessage) -> Seq<char> {
    match m {
        StatusMessage::Success(s) => s@,
        StatusMessage::Error(s) => s@,
    }
}

/// The message slot holds an error with exactly this text.
pub open spec fn shows_error(m: Option<StatusMessage>, t: Seq<char>) -> bool {
    match m {
        Some(StatusMessage::Error(s)) => s@ == t,
        _ => false,
    }
}

/// The message slot holds a success note with exactly this text.
pub open spec fn shows_success(m: Option<StatusMessage>, t: Seq<char>) -> bool {
    match m {
        Some(StatusMessage::Success(s)) => s@ == t,
        _ => false,
    }
}

impl StatusMessage {
    pub fn text(&self) -> (r: &String)
        ensures
            r@ == msg_text(*self),
    {
        match self {
            StatusMessage::Success(s) => s,
            StatusMessage::Error(s) => s,
        }
    }

    pub fn is_error(&self) -> (r: bool)
        ensures
            r == (*self is Error),
    {
        match self {
            StatusMessage::Success(_) => false,
            StatusMessage::Error(_) => true,
        }
    }
}

/// The deletion being confirmed; present exactly while the confirmation
/// screen is active, and discarded once resolved.
#[derive(Clone, Copy, PartialEq, Eq, Structural, Debug)]
pub struct PendingDeletion {
    pub branch_index: usize,
    pub branch_out_of_sync: bool,
}

/// The editing operation a key drives on a text field, when any.
pub open spec fn edit_key_op(key: Key) -> Option<EditOp> {
    match key {
        Key::Char(c) => Some(EditOp::Insert(c)),
        Key::Backspace => Some(EditOp::Backspace),
        Key::Delete => Some(EditOp::DeleteForward),
        Key::Left => Some(EditOp::MoveLeft),
        Key::Right => Some(EditOp::MoveRight),
        Key::Home => Some(EditOp::MoveHome),
        Key::End => Some(EditOp::MoveEnd),
        _ => None,
    }
}

/// Perform on the buffer whatever edit the key drives; keys that drive
/// none leave the buffer alone.
pub fn apply_edit_key(buf: &mut InputBuffer, key: Key)
    requires
        old(buf).wf(),
    ensures
        final(buf).wf(),
        match edit_key_op(key) {
            Some(op) => final(buf)@ == apply_edit(old(buf)@, op),
            None => *final(buf) == *old(buf),
        },
{
    match key {
        Key::Char(c) => buf.insert(c),
        Key::Backspace => buf.backspace(),
        Key::Delete => buf.delete_forward(),
        Key::Left => buf.move_left(),
        Key::Right => buf.move_right(),
        Key::Home => buf.move_home(),
        Key::End => buf.move_end(),
        _ => (),
    }
}

/// One keystroke of the first-run setup prompt, a single required text
/// field: Enter finishes, every other key edits the field.
pub fn handle_setup_key(buf: &mut InputBuffer, key: Key) -> (done: bool)
    requires
        old(buf).wf(),
    ensures
        final(buf).wf(),
        done == (key == Key::Enter),
        key == Key::Enter ==> *final(buf) == *old(buf),
        key != Key::Enter ==> match edit_key_op(key) {
            Some(op) => final(buf)@ == apply_edit(old(buf)@, op),
            None => *final(buf) == *old(buf),
        },
{
    match key {
        Key::Enter => true,
        _ => {
            apply_edit_key(buf, key);
            false
        },
    }
}

/// The whole interface state: the active screen, the menu, the text field,
/// the loaded branch list with its selection, the status message, and the
/// deletion awaiting confirmation.
pub struct App {
    pub screen: Screen,
    pub main_menu: MainMenu,
    pub input: InputBuffer,
    pub repo_root: String,
    pub config: GitsyConfig,
    pub branches: Vec<String>,
    pub selected_branch: usize,
    pub message: Option<StatusMessage>,
    pub pending: Option<PendingDeletion>,
}

/// Repository root and configuration never change after startup.
pub open spec fn same_env(pre: App, post: App) -> bool {
    &&& post.repo_root == pre.repo_root
    &&& post.config == pre.config
}

/// Everything except the menu selection is unchanged.
pub open spec fn only_menu_moved(pre: App, post: App) -> bool {
    &&& same_env(pre, post)
    &&& post.main_menu.items == pre.main_menu.items
    &&& post.screen == pre.screen
    &&& post.input == pre.input
    &&& post.branches == pre.branches
    &&& post.selected_branch == pre.selected_branch
    &&& post.message == pre.message
    &&& post.pending == pre.pending
}

/// Everything except the branch selection is unchanged.
pub open spec fn only_selection_moved(pre: App, post: App) -> bool {
    &&& same_env(pre, post)
    &&& post.main_menu == pre.main_menu
    &&& post.screen == pre.screen
    &&& post.input == pre.input
    &&& post.branches == pre.branches
    &&& post.message == pre.message
    &&& post.pending == pre.pending
}

impl App {
    /// The state invariant: the menu and the text field are well formed,
    /// the branch screens only show with a non-empty list and a selection
    /// inside it, and a pending deletion exists exactly on the
    /// confirmation screen, pointing at the selected branch.
    pub open spec fn wf(&self) -> bool {
        &&& self.main_menu.wf()
        &&& self.input.wf()
        &&& ((self.screen is DeleteBranch || self.screen is ConfirmDelete) ==> (
        self.branches@.len() > 0 && self.selected_branch < self.branches@.len()))
        &&& (self.pending is Some <==> self.screen is ConfirmDelete)
        &&& (self.pending matches Some(p) ==> p.branch_index == self.selected_branch)
    }

    pub fn new(repo_root: String, config: GitsyConfig) -> (app: App)
        ensures
            app.wf(),
            app.screen is MainMenu,
            app.main_menu.selected == 0,
            standard_labels(app.main_menu),
            app.input@.text.len() == 0,
            app.repo_root@ == repo_root@,
            app.config == config,
            app.branches@.len() == 0,
            app.selected_branch == 0,
            app.message is None,
            app.pending is None,
    {
        App {
            screen: Screen::MainMenu,
            main_menu: MainMenu::new(),
            input: InputBuffer::new(),
            repo_root,
            config,
            branches: Vec::new(),
            selected_branch: 0,
            message: None,
            pending: None,
        }
    }

    /// Dispatch one key event to the active screen's handler.
    pub fn handle_key_event(&mut self, key: Key) -> (a: Action)
        requires
            old(self).wf(),
        ensures
            final(self).wf(),
            match old(self).screen {
                Screen::MainMenu => main_menu_trans(*old(self), *final(self), key, a),
                Screen::CreateBranch => create_branch_trans(*old(self), *final(self), key, a),
                Screen::DeleteBranch => delete_branch_trans(*old(self), *final(self), key, a),
                Screen::ConfirmDelete => confirm_delete_trans(*old(self), *final(self), key, a),
            },
    {
        match self.screen {
            Screen::MainMenu => self.handle_main_menu_key(key),
            Screen::CreateBranch => self.handle_create_branch_key(key),
            Screen::DeleteBranch => self.handle_delete_branch_key(key),
            Screen::ConfirmDelete => self.handle_confirm_delete_key(key),
        }
    }

    pub fn handle_main_menu_key(&mut self, key: Key) -> (a: Action)
        requires
            old(self).wf(),
            old(self).screen is MainMenu,
        ensures
            final(self).wf(),
            main_menu_trans(*old(self), *final(self), key, a),
    {
        match key {
            Key::Up | Key::Char('k') => {
                self.main_menu.previous();
                Action::Idle
            },
            Key::Down | Key::Char('j') => {
                self.main_menu.next();
                Action::Idle
            },
            Key::Enter => {
                if self.main_menu.selected == 0 {
                    self.screen = Screen::CreateBranch;
                    self.input.clear();
                    self.message = None;
                    Action::Idle
                } else if self.main_menu.selected == 1 {
                    Action::LoadBranches
                } else {
                    Action::Exit
                }
            },
            _ => Action::Idle,
        }
    }

    pub fn handle_create_branch_key(&mut self, key: Key) -> (a: Action)
        requires
            old(self).wf(),
            old(self).screen is CreateBranch,
        ensures
            final(self).wf(),
            create_branch_trans(*old(self), *final(self), key, a),
    {
        match key {
            Key::Esc => {
                self.screen = Screen::MainMenu;
                self.message = None;
                Action::Idle
            },
            Key::Enter => {
                if self.input.is_empty() {
                    Action::Idle
                } else {
                    Action::CreateWorktree(self.input.text_string())
                }
            },
            _ => {
                apply_edit_key(&mut self.input, key);
                Action::Idle
            },
        }
    }

    pub fn handle_delete_branch_key(&mut self, key: Key) -> (a: Action)
        requires
            old(self).wf(),
            old(self).screen is DeleteBranch,
        ensures
            final(self).wf(),
            delete_branch_trans(*old(self), *final(self), key, a),
    {
        match key {
            Key::Esc => {
                self.screen = Screen::MainMenu;
                self.message = None;
                Action::Idle
            },
            Key::Up | Key::Char('k') => {
                if self.selected_branch > 0 {
                    self.selected_branch = self.selected_branch - 1;
                } else {
                    self.selected_branch = self.branches.len() - 1;
                }
                Action::Idle
            },
            Key::Down | Key::Char('j') => {
                let n = self.branches.len();
                if self.selected_branch + 1 == n {
                    self.selected_branch = 0;
                } else {
                    self.selected_branch = self.selected_branch + 1;
                }
                Action::Idle
            },
            Key::Enter => {
                let name = self.branches[self.selected_branch].clone();
                Action::CheckSync(name)
            },
            _ => Action::Idle,
        }
    }

    pub fn handle_confirm_delete_key(&mut self, key: Key) -> (a: Action)
        requires
            old(self).wf(),
            old(self).screen is ConfirmDelete,
        ensures
            final(self).wf(),
            confirm_delete_trans(*old(self), *final(self), key, a),
    {
        match key {
            Key::Esc | Key::Char('n') | Key::Char('N') => {
                self.screen = Screen::DeleteBranch;
                self.pending = None;
                Action::Idle
            },
            Key::Char('y') | Key::Char('Y') => {
                let name = self.branches[self.selected_branch].clone();
                Action::RemoveWorktree(name)
            },
            _ => Action::Idle,
        }
    }

    /// Fold the branch-list result back in: a non-empty list opens the
    /// delete screen on its first entry; an empty list stays on the menu
    /// with a note; a failure stays on the menu with the error.
    pub fn apply_branches_loaded(&mut self, result: Result<Vec<String>, GatewayError>)
        requires
            old(self).wf(),
            old(self).screen is MainMenu,
        ensures
            final(self).wf(),
            same_env(*old(self), *final(self)),
            final(self).main_menu == old(self).main_menu,
            final(self).input == old(self).input,
            final(self).pending is None,
            match result {
                Ok(bs) => if bs@.len() > 0 {
                    &&& final(self).screen is DeleteBranch
                    &&& final(self).branches == bs
                    &&& final(self).selected_branch == 0
                    &&& final(self).message is None
                } else {
                    &&& final(self).screen is MainMenu
                    &&& final(self).branches == bs
                    &&& final(self).selected_branch == old(self).selected_branch
                    &&& shows_error(final(self).message, "No branches with worktrees found"@)
                },
                Err(e) => {
                    &&& final(self).screen is MainMenu
                    &&& final(self).branches == old(self).branches
                    &&& final(self).selected_branch == old(self).selected_branch
                    &&& shows_error(final(self).message, "Error: "@ + err_text(e))
                },
            },
    {
        match result {
            Ok(bs) => {
                let empty = bs.len() == 0;
                self.branches = bs;
                if empty {
                    self.message = Some(
                        StatusMessage::Error(
                            String::from_str("No branches with worktrees found"),
                        ),
                    );
                } else {
                    self.screen = Screen::DeleteBranch;
                    self.selected_branch = 0;
                    self.message = None;
                }
            },
            Err(e) => {
                let d = e.describe();
                let t = String::from_str("Error: ").concat(d.as_str());
                self.message = Some(StatusMessage::Error(t));
            },
        }
    }

    /// Fold the worktree-creation result back in: success notes the branch
    /// and clears the field; failure keeps the typed name and shows the
    /// error. Either way the entry screen stays active.
    pub fn apply_create_result(&mut self, result: Result<(), GatewayError>)
        requires
            old(self).wf(),
            old(self).screen is CreateBranch,
        ensures
            final(self).wf(),
            same_env(*old(self), *final(self)),
            final(self).screen is CreateBranch,
            final(self).main_menu == old(self).main_menu,
            final(self).branches == old(self).branches,
            final(self).selected_branch == old(self).selected_branch,
            final(self).pending == old(self).pending,
            match result {
                Ok(_) => {
                    &&& shows_success(
                        final(self).message,
                        "Successfully created worktree for branch '"@ + old(self).input@.text
                            + "'"@,
                    )
                    &&& final(self).input@.text.len() == 0
                    &&& final(self).input@.cursor == 0
                },
                Err(e) => {
                    &&& shows_error(final(self).message, "Error: "@ + err_text(e))
                    &&& final(self).input == old(self).input
                },
            },
    {
        match result {
            Ok(_) => {
                let name = self.input.text_string();
                let t = concat3("Successfully created worktree for branch '", name.as_str(), "'");
                self.message = Some(StatusMessage::Success(t));
                self.input.clear();
            },
            Err(e) => {
                let d = e.describe();
                let t = String::from_str("Error: ").concat(d.as_str());
                self.message = Some(StatusMessage::Error(t));
            },
        }
    }

    /// Fold the synchronization verdict back in: a verdict opens the
    /// confirmation screen and records whether the branch is out of sync;
    /// a failure stays on the delete screen with the error.
    pub fn apply_sync_result(&mut self, result: Result<bool, GatewayError>)
        requires
            old(self).wf(),
            old(self).screen is DeleteBranch,
        ensures
            final(self).wf(),
            same_env(*old(self), *final(self)),
            final(self).main_menu == old(self).main_menu,
            final(self).input == old(self).input,
            final(self).branches == old(self).branches,
            final(self).selected_branch == old(self).selected_branch,
            match result {
                Ok(in_sync) => {
                    &&& final(self).screen is ConfirmDelete
                    &&& final(self).message == old(self).message
                    &&& final(self).pending matches Some(p) && p.branch_index == old(
                        self,
                    ).selected_branch && p.branch_out_of_sync == !in_sync
                },
                Err(e) => {
                    &&& final(self).screen is DeleteBranch
                    &&& final(self).pending is None
                    &&& shows_error(final(self).message, "Error: "@ + err_text(e))
                },
            },
    {
        match result {
            Ok(in_sync) => {
                self.pending = Some(
                    PendingDeletion {
                        branch_index: self.selected_branch,
                        branch_out_of_sync: !in_sync,
                    },
                );
                self.screen = Screen::ConfirmDelete;
            },
            Err(e) => {
                let d = e.describe();
                let t = String::from_str("Error: ").concat(d.as_str());
                self.message = Some(StatusMessage::Error(t));
            },
        }
    }

    /// Fold the removal result back in: whatever it was, the confirmation
    /// is resolved and the menu returns, with a message that names the
    /// branch. The branch list stays as loaded until the next reload.
    pub fn apply_remove_result(&mut self, result: Result<(), GatewayError>)
        requires
            old(self).wf(),
            old(self).screen is ConfirmDelete,
        ensures
            final(self).wf(),
            same_env(*old(self), *final(self)),
            final(self).screen is MainMenu,
            final(self).pending is None,
            final(self).main_menu == old(self).main_menu,
            final(self).input == old(self).input,
            final(self).branches == old(self).branches,
            final(self).selected_branch == old(self).selected_branch,
            match result {
                Ok(_) => shows_success(
                    final(self).message,
                    "Successfully deleted worktree for branch '"@ + old(self).branches@[old(
                        self,
                    ).selected_branch as int]@ + "'"@,
                ),
                Err(e) => shows_error(
                    final(self).message,
                    "Error: failed to delete worktree for branch '"@ + old(self).branches@[old(
                        self,
                    ).selected_branch as int]@ + "': "@ + err_text(e),
                ),
            },
    {
        let name = self.branches[self.selected_branch].clone();
        match result {
            Ok(_) => {
                let t = concat3(
                    "Successfully deleted worktree for branch '",
                    name.as_str(),
                    "'",
                );
                self.message = Some(StatusMessage::Success(t));
            },
            Err(e) => {
                let d = e.describe();
                let t = concat3(
                    "Error: failed to delete worktree for branch '",
                    name.as_str(),
                    "': ",
                );
                let t = t.concat(d.as_str());
                self.message = Some(StatusMessage::Error(t));
            },
        }
        self.pending = None;
        self.screen = Screen::MainMenu;
    }
}

/// The confirmation prompt: it names the branch and warns when the branch
/// is not in sync with its upstream.
pub fn confirm_prompt(branch: &str, out_of_sync: bool) -> (r: String)
    ensures
        out_of_sync ==> r@ == "WARNING: Branch '"@ + branch@
            + "' is NOT in sync with origin!\n\nAre you sure you want to delete this worktree? (y/N)"@,
        !out_of_sync ==> r@ == "Branch '"@ + branch@
            + "' is in sync with origin.\n\nAre you sure you want to delete this worktree? (y/N)"@,
{
    if out_of_sync {
        concat3(
            "WARNING: Branch '",
            branch,
            "' is NOT in sync with origin!\n\nAre you sure you want to delete this worktree? (y/N)",
        )
    } else {
        concat3(
            "Branch '",
            branch,
            "' is in sync with origin.\n\nAre you sure you want to delete this worktree? (y/N)",
        )
    }
}

/// The transition relation of the main menu screen: vertical keys move the
/// cyclic selection; Enter opens branch entry on the first item, asks for
/// the branch list on the second, and leaves on the third.
pub open spec fn main_menu_trans(pre: App, post: App, key: Key, a: Action) -> bool {
    if key == Key::Up || key == Key::Char('k') {
        &&& only_menu_moved(pre, post)
        &&& post.main_menu.selected == prev_sel(pre.main_menu.selected as nat, 3)
        &&& a is Idle
    } else if key == Key::Down || key == Key::Char('j') {
        &&& only_menu_moved(pre, post)
        &&& post.main_menu.selected == next_sel(pre.main_menu.selected as nat, 3)
        &&& a is Idle
    } else if key == Key::Enter && pre.main_menu.selected == 0 {
        &&& same_env(pre, post)
        &&& post.screen is CreateBranch
        &&& post.input@.text.len() == 0
        &&& post.input@.cursor == 0
        &&& post.message is None
        &&& post.main_menu == pre.main_menu
        &&& post.branches == pre.branches
        &&& post.selected_branch == pre.selected_branch
        &&& post.pending == pre.pending
        &&& a is Idle
    } else if key == Key::Enter && pre.main_menu.selected == 1 {
        &&& post == pre
        &&& a is LoadBranches
    } else if key == Key::Enter && pre.main_menu.selected == 2 {
        &&& post == pre
        &&& a is Exit
    } else {
        &&& post == pre
        &&& a is Idle
    }
}

/// The transition relation of the branch-entry screen: Esc returns to the
/// menu, Enter on a non-empty field asks for the worktree creation, and
/// the editing keys drive the text field.
pub open spec fn create_branch_trans(pre: App, post: App, key: Key, a: Action) -> bool {
    if key == Key::Esc {
        &&& same_env(pre, post)
        &&& post.screen is MainMenu
        &&& post.message is None
        &&& post.main_menu == pre.main_menu
        &&& post.input == pre.input
        &&& post.branches == pre.branches
        &&& post.selected_branch == pre.selected_branch
        &&& post.pending == pre.pending
        &&& a is Idle
    } else if key == Key::Enter {
        &&& post == pre
        &&& if pre.input@.text.len() > 0 {
            a matches Action::CreateWorktree(n) && n@ == pre.input@.text
        } else {
            a is Idle
        }
    } else {
        &&& same_env(pre, post)
        &&& post.screen == pre.screen
        &&& post.main_menu == pre.main_menu
        &&& post.branches == pre.branches
        &&& post.selected_branch == pre.selected_branch
        &&& post.message == pre.message
        &&& post.pending == pre.pending
        &&& match edit_key_op(key) {
            Some(op) => post.input@ == apply_edit(pre.input@, op),
            None => post.input == pre.input,
        }
        &&& a is Idle
    }
}

/// The transition relation of the delete screen: Esc returns to the menu,
/// vertical keys move the cyclic selection over the loaded branches, and
/// Enter asks for the selected branch's synchronization state.
pub open spec fn delete_branch_trans(pre: App, post: App, key: Key, a: Action) -> bool {
    if key == Key::Esc {
        &&& same_env(pre, post)
        &&& post.screen is MainMenu
        &&& post.message is None
        &&& post.main_menu == pre.main_menu
        &&& post.input == pre.input
        &&& post.branches == pre.branches
        &&& post.selected_branch == pre.selected_branch
        &&& post.pending == pre.pending
        &&& a is Idle
    } else if key == Key::Up || key == Key::Char('k') {
        &&& only_selection_moved(pre, post)
        &&& post.selected_branch == prev_sel(
            pre.selected_branch as nat,
            pre.branches@.len() as nat,
        )
        &&& a is Idle
    } else if key == Key::Down || key == Key::Char('j') {
        &&& only_selection_moved(pre, post)
        &&& post.selected_branch == next_sel(
            pre.selected_branch as nat,
            pre.branches@.len() as nat,
        )
        &&& a is Idle
    } else if key == Key::Enter {
        &&& post == pre
        &&& a matches Action::CheckSync(n) && n@ == pre.branches@[pre.selected_branch as int]@
    } else {
        &&& post == pre
        &&& a is Idle
    }
}

/// The transition relation of the confirmation screen: yes asks for the
/// removal, no or Esc returns to the delete screen and discards the
/// pending deletion.
pub open spec fn confirm_delete_trans(pre: App, post: App, key: Key, a: Action) -> bool {
    if key == Key::Esc || key == Key::Char('n') || key == Key::Char('N') {
        &&& same_env(pre, post)
        &&& post.screen is DeleteBranch
        &&& post.pending is None
        &&& post.main_menu == pre.main_menu
        &&& post.input == pre.input
        &&& post.branches == pre.branches
        &&& post.selected_branch == pre.selected_branch
        &&& post.message == pre.message
        &&& a is Idle
    } else if key == Key::Char('y') || key == Key::Char('Y') {
        &&& post == pre
        &&& a matches Action::RemoveWorktree(n) && n@ == pre.branches@[pre.selected_branch as int]@
    } else {
        &&& post == pre
        &&& a is Idle
    }
}

} // verus!
