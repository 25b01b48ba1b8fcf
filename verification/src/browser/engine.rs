//! The event loop of the shell: what it does on each event, and how the history of
//! the content view stands after it.

use vstd::prelude::*;

use crate::browser::navigation::{History, Navigation};

verus! {

/// The address that the history starts with when the shell comes up.
pub const START_ADDRESS: &'static str = "data:text/html,start";

/// Which of the shell's windows an event came from.
#[derive(Clone, Copy, Debug, PartialEq, Eq)]
pub enum WindowRole {
    /// The window of the content view.
    Content,
    /// The window of the navigation bar.
    NavigationBar,
    /// A window that the shell did not open.
    Other,
}

/// What the event loop reports.
#[derive(Clone, Copy, Debug, PartialEq, Eq)]
pub enum ShellEvent {
    /// The loop has started.
    Started,
    /// A window was moved.
    Moved(WindowRole),
    /// The user asked to close a window.
    CloseRequested(WindowRole),
    /// Anything else.
    Other,
}

/// What the event loop does next.
#[derive(Clone, Copy, Debug, PartialEq, Eq)]
pub enum LoopAction {
    /// Wait for the next event.
    Wait,
    /// Redraw the navigation bar, then wait.
    RedrawNavigationBar,
    /// Leave the loop: both windows close.
    Exit,
}

/// The action on an event: either of the shell's windows closes both, and the
/// navigation bar is redrawn when the content window moves.
pub open spec fn action_on(event: ShellEvent) -> LoopAction {
    match event {
        ShellEvent::CloseRequested(WindowRole::Content) => LoopAction::Exit,
        ShellEvent::CloseRequested(WindowRole::NavigationBar) => LoopAction::Exit,
        ShellEvent::Moved(WindowRole::Content) => LoopAction::RedrawNavigationBar,
        _ => LoopAction::Wait,
    }
}

/// The history after an event: the start of the loop navigates to the start address.
pub open spec fn history_after(history: History, event: ShellEvent) -> History {
    match event {
        ShellEvent::Started => history.navigate(START_ADDRESS@),
        _ => history,
    }
}

/// The state of the shell: the history of its content view.
pub struct Browser {
    navigation: Navigation,
}

impl View for Browser {
    type V = History;

    closed spec fn view(&self) -> History {
        self.navigation@
    }
}

impl Browser {
    /// A shell whose content view has not navigated yet.
    pub fn new() -> (browser: Browser)
        ensures
            browser@ == History::empty(),
    {
        Browser { navigation: Navigation::new() }
    }

    /// The history of the content view.
    pub fn navigation(&self) -> (navigation: &Navigation)
        ensures
            navigation@ == self@,
    {
        &self.navigation
    }

    /// One step of the event loop: takes the event in and says what the loop does next.
    pub fn handle(&mut self, event: ShellEvent) -> (action: LoopAction)
        ensures
            action == action_on(event),
            final(self)@ == history_after(old(self)@, event),
    {
        match event {
            ShellEvent::Started => {
                let _ = self.navigation.navigate(START_ADDRESS.to_owned());
                LoopAction::Wait
            },
            ShellEvent::Moved(WindowRole::Content) => LoopAction::RedrawNavigationBar,
            ShellEvent::CloseRequested(WindowRole::Content) => LoopAction::Exit,
            ShellEvent::CloseRequested(WindowRole::NavigationBar) => LoopAction::Exit,
            _ => LoopAction::Wait,
        }
    }
}

} // verus!
