//! The application controller: two panes, the focus selector, the exit flag
//! and the transient status message, with a flat command dispatcher over
//! them.
//!
//! Commands that need the filesystem are split in two: `begin_command`
//! decides what has to be read or copied and hands that back as a
//! [`CommandAction`]; the surrounding program performs it and completes the
//! command with `finish_navigation` or `finish_transfer`.

use vstd::prelude::*;

use crate::focus::Focus;
use crate::listing::FileItem;
use crate::listing::FileList;
use crate::listing::spec_refreshed_at;
use crate::listing::spec_selection_stepped_next;
use crate::listing::spec_selection_stepped_previous;
use crate::path::DirPath;
use crate::status::STATUS_TICKS;
use crate::status::StatusMessage;
use crate::status::StatusModel;
use crate::status::spec_tick;
use crate::transfer::TransferModel;
use crate::transfer::TransferOutcome;
use crate::transfer::TransferRequest;
use crate::transfer::resolve_transfer;
use crate::transfer::spec_resolve;
use crate::transfer::spec_status_text;
use crate::transfer::status_for;

verus! {

/// The two root paths the application starts from, one per pane.
pub struct Config {
    pub base_wsl_path: DirPath,
    pub base_windows_path: DirPath,
}

impl Config {
    pub fn new(base_wsl_path: DirPath, base_windows_path: DirPath) -> (c: Config)
        ensures
            c.base_wsl_path@ == base_wsl_path@,
            c.base_windows_path@ == base_windows_path@,
    {
        Config { base_wsl_path, base_windows_path }
    }
}

/// The two panes; each is independently owned and never aliased.
pub struct AppState {
    wsl_list: FileList,
    windows_list: FileList,
}

impl AppState {
    /// The left pane's listing.
    pub closed spec fn spec_wsl(&self) -> FileList {
        self.wsl_list
    }

    /// The right pane's listing.
    pub closed spec fn spec_windows(&self) -> FileList {
        self.windows_list
    }

    /// Both panes are well-formed.
    pub open spec fn inv(&self) -> bool {
        self.spec_wsl().inv() && self.spec_windows().inv()
    }

    /// Both panes bound to their configured roots, each showing its initial
    /// listing.
    pub fn new(config: Config, wsl_listing: Vec<FileItem>, windows_listing: Vec<FileItem>) -> (s:
        AppState)
        ensures
            spec_refreshed_at(s.spec_wsl(), config.base_wsl_path@, wsl_listing.deep_view()),
            spec_refreshed_at(
                s.spec_windows(),
                config.base_windows_path@,
                windows_listing.deep_view(),
            ),
            s.inv(),
    {
        AppState {
            wsl_list: FileList::new(config.base_wsl_path, wsl_listing),
            windows_list: FileList::new(config.base_windows_path, windows_listing),
        }
    }

    /// The left pane, read-only.
    pub fn wsl_list(&self) -> (r: &FileList)
        ensures
            *r == self.spec_wsl(),
    {
        &self.wsl_list
    }

    /// The right pane, read-only.
    pub fn windows_list(&self) -> (r: &FileList)
        ensures
            *r == self.spec_windows(),
    {
        &self.windows_list
    }
}

/// One logical command, as decoded by the input layer.
#[derive(Clone, Copy, Debug, PartialEq, Eq, Structural)]
pub enum Command {
    /// Stop the main loop after the current iteration.
    Quit,
    /// Toggle which pane receives navigation commands.
    SwitchFocus,
    /// Move the focused pane's cursor one entry down.
    SelectNext,
    /// Move the focused pane's cursor one entry up.
    SelectPrevious,
    /// Enter the focused pane's selected entry.
    Enter,
    /// Go to the focused pane's parent directory.
    NavigateUp,
    /// Copy the left pane's selection into the right pane.
    TransferLeftToRight,
    /// Copy the right pane's selection into the left pane.
    TransferRightToLeft,
}

/// What the surrounding program has to do to complete a command.
pub enum CommandAction {
    /// Nothing; the command is complete.
    Done,
    /// Read the directory at the given path and hand the result to
    /// `finish_navigation`.
    ReadListing(DirPath),
    /// Invoke the copy engine with the resolved paths and hand the outcome to
    /// `finish_transfer`.
    RunTransfer(TransferRequest),
}

/// The application: both panes, the focus, the exit flag and the transient
/// status message.
pub struct App {
    exit: bool,
    state: AppState,
    focus: Focus,
    status: Option<StatusMessage>,
}

impl App {
    /// Whether the main loop should stop.
    pub closed spec fn spec_exit(&self) -> bool {
        self.exit
    }

    /// The two panes.
    pub closed spec fn spec_state(&self) -> AppState {
        self.state
    }

    /// Which pane receives navigation commands.
    pub closed spec fn spec_focus(&self) -> Focus {
        self.focus
    }

    /// The status message, if one is showing.
    pub closed spec fn spec_status(&self) -> Option<StatusModel> {
        match self.status {
            Some(m) => Some(m@),
            None => None,
        }
    }

    /// The pane on the given side.
    pub open spec fn spec_pane(&self, side: Focus) -> FileList {
        if side == Focus::Wsl {
            self.spec_state().spec_wsl()
        } else {
            self.spec_state().spec_windows()
        }
    }

    /// The pane that receives navigation commands.
    pub open spec fn spec_focused_list(&self) -> FileList {
        self.spec_pane(self.spec_focus())
    }

    /// Both panes are well-formed.
    pub open spec fn inv(&self) -> bool {
        self.spec_state().inv()
    }

    /// `post` is `pre` with at most the pane on `side` changed: focus, exit
    /// flag, status and the other pane are untouched.
    pub open spec fn spec_same_but_pane(pre: App, post: App, side: Focus) -> bool {
        &&& post.spec_focus() == pre.spec_focus()
        &&& post.spec_exit() == pre.spec_exit()
        &&& post.spec_status() == pre.spec_status()
        &&& post.spec_pane(side.spec_other()) == pre.spec_pane(side.spec_other())
    }

    /// A fresh application: both panes at their roots, the left pane focused,
    /// no status message, not exiting.
    pub fn new(config: Config, wsl_listing: Vec<FileItem>, windows_listing: Vec<FileItem>) -> (app:
        App)
        ensures
            !app.spec_exit(),
            app.spec_focus() == Focus::Wsl,
            app.spec_status() is None,
            spec_refreshed_at(
                app.spec_pane(Focus::Wsl),
                config.base_wsl_path@,
                wsl_listing.deep_view(),
            ),
            spec_refreshed_at(
                app.spec_pane(Focus::Windows),
                config.base_windows_path@,
                windows_listing.deep_view(),
            ),
            app.inv(),
    {
        App {
            exit: false,
            state: AppState::new(config, wsl_listing, windows_listing),
            focus: Focus::Wsl,
            status: None,
        }
    }

    /// Whether the main loop should stop; read once per iteration.
    pub fn should_exit(&self) -> (r: bool)
        ensures
            r == self.spec_exit(),
    {
        self.exit
    }

    /// The current focus, for border styling.
    pub fn focus(&self) -> (r: Focus)
        ensures
            r == self.spec_focus(),
    {
        self.focus
    }

    /// The pane on the given side, read-only, for rendering.
    pub fn pane(&self, side: Focus) -> (r: &FileList)
        ensures
            *r == self.spec_pane(side),
    {
        match side {
            Focus::Wsl => &self.state.wsl_list,
            Focus::Windows => &self.state.windows_list,
        }
    }

    /// The status message, if one is showing, for rendering.
    pub fn status_message(&self) -> (r: Option<&StatusMessage>)
        ensures
            match r {
                Some(m) => self.spec_status() == Some(m@),
                None => self.spec_status() is None,
            },
    {
        match &self.status {
            Some(m) => Some(m),
            None => None,
        }
    }

    /// Flags the main loop to stop after the current iteration; nothing else
    /// changes.
    pub fn exit(&mut self)
        ensures
            final(self).spec_exit(),
            final(self).spec_state() == old(self).spec_state(),
            final(self).spec_focus() == old(self).spec_focus(),
            final(self).spec_status() == old(self).spec_status(),
    {
        self.exit = true;
    }

    /// Toggles the focus; a pure toggle with no side effect on either pane.
    pub fn switch_focus(&mut self)
        ensures
            final(self).spec_focus() == old(self).spec_focus().spec_other(),
            final(self).spec_state() == old(self).spec_state(),
            final(self).spec_exit() == old(self).spec_exit(),
            final(self).spec_status() == old(self).spec_status(),
    {
        self.focus = self.focus.other();
    }

    /// Moves the focused pane's cursor one entry down, clamped at the end.
    pub fn select_next(&mut self)
        requires
            old(self).inv(),
        ensures
            final(self).inv(),
            Self::spec_same_but_pane(*old(self), *final(self), old(self).spec_focus()),
            spec_selection_stepped_next(
                old(self).spec_focused_list(),
                final(self).spec_focused_list(),
            ),
    {
        match self.focus {
            Focus::Wsl => self.state.wsl_list.select_next(),
            Focus::Windows => self.state.windows_list.select_next(),
        }
    }

    /// Moves the focused pane's cursor one entry up, clamped at the start.
    pub fn select_previous(&mut self)
        requires
            old(self).inv(),
        ensures
            final(self).inv(),
            Self::spec_same_but_pane(*old(self), *final(self), old(self).spec_focus()),
            spec_selection_stepped_previous(
                old(self).spec_focused_list(),
                final(self).spec_focused_list(),
            ),
    {
        match self.focus {
            Focus::Wsl => self.state.wsl_list.select_previous(),
            Focus::Windows => self.state.windows_list.select_previous(),
        }
    }

    /// Dispatches one logical command. Commands that need no outside work are
    /// completed here; for the others the returned action says what to read
    /// or copy, the state untouched until the matching completion call.
    pub fn begin_command(&mut self, cmd: Command) -> (a: CommandAction)
        requires
            old(self).inv(),
        ensures
            final(self).inv(),
            match cmd {
                Command::Quit => {
                    &&& a is Done
                    &&& final(self).spec_exit()
                    &&& final(self).spec_state() == old(self).spec_state()
                    &&& final(self).spec_focus() == old(self).spec_focus()
                    &&& final(self).spec_status() == old(self).spec_status()
                },
                Command::SwitchFocus => {
                    &&& a is Done
                    &&& final(self).spec_focus() == old(self).spec_focus().spec_other()
                    &&& final(self).spec_state() == old(self).spec_state()
                    &&& final(self).spec_exit() == old(self).spec_exit()
                    &&& final(self).spec_status() == old(self).spec_status()
                },
                Command::SelectNext => {
                    &&& a is Done
                    &&& Self::spec_same_but_pane(*old(self), *final(self), old(self).spec_focus())
                    &&& spec_selection_stepped_next(
                        old(self).spec_focused_list(),
                        final(self).spec_focused_list(),
                    )
                },
                Command::SelectPrevious => {
                    &&& a is Done
                    &&& Self::spec_same_but_pane(*old(self), *final(self), old(self).spec_focus())
                    &&& spec_selection_stepped_previous(
                        old(self).spec_focused_list(),
                        final(self).spec_focused_list(),
                    )
                },
                Command::Enter => {
                    &&& *final(self) == *old(self)
                    &&& match old(self).spec_focused_list().spec_enter_target() {
                        Some(p) => a matches CommandAction::ReadListing(t) && t@ == p,
                        None => a is Done,
                    }
                },
                Command::NavigateUp => {
                    &&& *final(self) == *old(self)
                    &&& match old(self).spec_focused_list().spec_parent_target() {
                        Some(p) => a matches CommandAction::ReadListing(t) && t@ == p,
                        None => a is Done,
                    }
                },
                Command::TransferLeftToRight => {
                    &&& *final(self) == *old(self)
                    &&& match spec_resolve(
                        old(self).spec_pane(Focus::Wsl),
                        old(self).spec_pane(Focus::Windows),
                    ) {
                        Some(tm) => a matches CommandAction::RunTransfer(req) && tm == (TransferModel {
                            source_path: req.source_path@,
                            dest_path: req.dest_path@,
                            item_name: req.item_name@,
                        }),
                        None => a is Done,
                    }
                },
                Command::TransferRightToLeft => {
                    &&& *final(self) == *old(self)
                    &&& match spec_resolve(
                        old(self).spec_pane(Focus::Windows),
                        old(self).spec_pane(Focus::Wsl),
                    ) {
                        Some(tm) => a matches CommandAction::RunTransfer(req) && tm == (TransferModel {
                            source_path: req.source_path@,
                            dest_path: req.dest_path@,
                            item_name: req.item_name@,
                        }),
                        None => a is Done,
                    }
                },
            },
    {
        match cmd {
            Command::Quit => {
                self.exit();
                CommandAction::Done
            },
            Command::SwitchFocus => {
                self.switch_focus();
                CommandAction::Done
            },
            Command::SelectNext => {
                self.select_next();
                CommandAction::Done
            },
            Command::SelectPrevious => {
                self.select_previous();
                CommandAction::Done
            },
            Command::Enter => {
                let target = match self.focus {
                    Focus::Wsl => self.state.wsl_list.enter_target(),
                    Focus::Windows => self.state.windows_list.enter_target(),
                };
                match target {
                    Some(p) => CommandAction::ReadListing(p),
                    None => CommandAction::Done,
                }
            },
            Command::NavigateUp => {
                let target = match self.focus {
                    Focus::Wsl => self.state.wsl_list.parent_target(),
                    Focus::Windows => self.state.windows_list.parent_target(),
                };
                match target {
                    Some(p) => CommandAction::ReadListing(p),
                    None => CommandAction::Done,
                }
            },
            Command::TransferLeftToRight => {
                match resolve_transfer(&self.state.wsl_list, &self.state.windows_list) {
                    Some(req) => CommandAction::RunTransfer(req),
                    None => CommandAction::Done,
                }
            },
            Command::TransferRightToLeft => {
                match resolve_transfer(&self.state.windows_list, &self.state.wsl_list) {
                    Some(req) => CommandAction::RunTransfer(req),
                    None => CommandAction::Done,
                }
            },
        }
    }

    /// Completes a navigation command: moves the focused pane to `path`,
    /// showing `listing` for it. Nothing else changes.
    pub fn finish_navigation(&mut self, path: DirPath, listing: Vec<FileItem>)
        requires
            old(self).inv(),
        ensures
            final(self).inv(),
            Self::spec_same_but_pane(*old(self), *final(self), old(self).spec_focus()),
            spec_refreshed_at(final(self).spec_focused_list(), path@, listing.deep_view()),
    {
        match self.focus {
            Focus::Wsl => self.state.wsl_list.navigate_to(path, listing),
            Focus::Windows => self.state.windows_list.navigate_to(path, listing),
        }
    }

    /// Completes a transfer command: records the copy engine's outcome as a
    /// status message. Failure is non-fatal: both panes, the focus and the
    /// exit flag are left exactly as they were, whatever the outcome.
    pub fn finish_transfer(&mut self, source: Focus, item_name: &String, outcome: &TransferOutcome)
        ensures
            final(self).spec_state() == old(self).spec_state(),
            final(self).spec_focus() == old(self).spec_focus(),
            final(self).spec_exit() == old(self).spec_exit(),
            final(self).spec_status() == Some(
                StatusModel {
                    text: spec_status_text(*outcome, source, item_name@),
                    remaining: STATUS_TICKS as nat,
                },
            ),
    {
        let message = status_for(outcome, source, item_name);
        self.status = Some(message);
    }

    /// Shows an arbitrary status message.
    pub fn show_status(&mut self, message: StatusMessage)
        ensures
            final(self).spec_state() == old(self).spec_state(),
            final(self).spec_focus() == old(self).spec_focus(),
            final(self).spec_exit() == old(self).spec_exit(),
            final(self).spec_status() == Some(message@),
    {
        self.status = Some(message);
    }

    /// Spends one render iteration of the status message's lifetime: the
    /// counter is decremented, and the message is cleared when it reaches
    /// zero. Called once per iteration of the render loop.
    pub fn tick_status(&mut self)
        ensures
            final(self).spec_state() == old(self).spec_state(),
            final(self).spec_focus() == old(self).spec_focus(),
            final(self).spec_exit() == old(self).spec_exit(),
            final(self).spec_status() == spec_tick(old(self).spec_status()),
    {
        let expired = match &self.status {
            Some(m) => m.remaining_ticks() <= 1,
            None => false,
        };
        if expired {
            self.status = None;
        } else {
            match &mut self.status {
                Some(m) => m.decrement(),
                None => {},
            }
        }
    }
}

} // verus!
