//! The cursor of the interactive session: which view is active and which
//! entry of the catalog is selected.

use vstd::math::{max, min};
use vstd::prelude::*;

verus! {

/// The top-level views of the dashboard.
#[derive(Copy, Clone, Debug, PartialEq, Eq, Structural)]
pub enum MenuItem {
    Home,
    Domains,
}

impl From<MenuItem> for usize {
    /// The position of the view's tab.
    fn from(input: MenuItem) -> (tab: usize) {
        match input {
            MenuItem::Home => 0,
            MenuItem::Domains => 1,
        }
    }
}

impl vstd::std_specs::convert::FromSpecImpl<MenuItem> for usize {
    open spec fn obeys_from_spec() -> bool {
        true
    }

    open spec fn from_spec(input: MenuItem) -> usize {
        match input {
            MenuItem::Home => 0,
            MenuItem::Domains => 1,
        }
    }
}

/// What the session can be told to do.
#[derive(Copy, Clone, Debug, PartialEq, Eq, Structural)]
pub enum Command {
    GoHome,
    GoDomains,
    MoveDown,
    MoveUp,
    Quit,
}

/// A key press, as far as the session tells keys apart.
#[derive(Copy, Clone, Debug, PartialEq, Eq)]
pub enum Key {
    Char(char),
    Up,
    Down,
    Other,
}

/// What the session's queue delivers, in the order of arrival.
#[derive(Copy, Clone, Debug, PartialEq, Eq)]
pub enum Event {
    Input(Key),
    Tick,
}

/// What the session does after a transition.
#[derive(Copy, Clone, Debug, PartialEq, Eq, Structural)]
pub enum Action {
    /// Draw the next frame and wait for the next event.
    Redraw,
    /// Release the terminal and the store, and end.
    Quit,
}

/// The command that a key stands for, if any.
pub open spec fn command_of(key: Key) -> Option<Command> {
    match key {
        Key::Char(c) => if c == 'h' || c == 'H' {
            Some(Command::GoHome)
        } else if c == 'd' || c == 'D' {
            Some(Command::GoDomains)
        } else if c == 'q' || c == 'Q' {
            Some(Command::Quit)
        } else {
            None
        },
        Key::Down => Some(Command::MoveDown),
        Key::Up => Some(Command::MoveUp),
        Key::Other => None,
    }
}

/// The command that an event stands for: a tick stands for none.
pub open spec fn command_of_event(event: Event) -> Option<Command> {
    match event {
        Event::Input(key) => command_of(key),
        Event::Tick => None,
    }
}

/// The state of the session's navigation.
#[derive(Copy, Clone, Debug, PartialEq, Eq, Structural)]
pub struct NavigationCursor {
    /// The view on screen.
    pub active_view: MenuItem,
    /// The selected entry of the catalog. It means something in the domains
    /// view only, and only where the catalog reaches that far.
    pub selected_index: usize,
}

impl NavigationCursor {
    /// The selected index is an index into a catalog of `catalog_size`
    /// entries.
    pub open spec fn in_bounds(self, catalog_size: usize) -> bool {
        self.selected_index < catalog_size
    }

    /// The cursor after one command, over a catalog of `catalog_size`
    /// entries. Moving clamps at both ends and does nothing over an empty
    /// catalog; changing the view leaves the selection alone; quitting
    /// leaves the cursor as it is.
    pub open spec fn after(self, command: Command, catalog_size: usize) -> NavigationCursor {
        match command {
            Command::GoHome => NavigationCursor { active_view: MenuItem::Home, ..self },
            Command::GoDomains => NavigationCursor { active_view: MenuItem::Domains, ..self },
            Command::MoveDown => if catalog_size == 0 {
                self
            } else {
                NavigationCursor {
                    selected_index: min(self.selected_index + 1, catalog_size - 1) as usize,
                    ..self
                }
            },
            Command::MoveUp => NavigationCursor {
                selected_index: max(self.selected_index - 1, 0) as usize,
                ..self
            },
            Command::Quit => self,
        }
    }

    /// The cursor after a sequence of commands, first to last.
    pub open spec fn after_all(self, commands: Seq<Command>, catalog_size: usize) -> NavigationCursor
        decreases commands.len(),
    {
        if commands.len() == 0 {
            self
        } else {
            self.after_all(commands.drop_last(), catalog_size).after(commands.last(), catalog_size)
        }
    }

    /// The entry that the cursor selects in a catalog of `catalog_size`
    /// entries: none where the catalog does not reach the selected index, so
    /// none at all in an empty catalog.
    pub open spec fn selection(self, catalog_size: usize) -> Option<usize> {
        if self.selected_index < catalog_size {
            Some(self.selected_index)
        } else {
            None
        }
    }

    /// The cursor that a session starts with: the home view, the first entry.
    pub open spec fn initial() -> NavigationCursor {
        NavigationCursor { active_view: MenuItem::Home, selected_index: 0 }
    }

    /// The cursor of a new session.
    pub fn new() -> (cursor: NavigationCursor)
        ensures
            cursor == NavigationCursor::initial(),
    {
        NavigationCursor { active_view: MenuItem::Home, selected_index: 0 }
    }

    /// The index of the selected entry, where the catalog has one there.
    pub fn selected(&self, catalog_size: usize) -> (index: Option<usize>)
        ensures
            index == self.selection(catalog_size),
    {
        if self.selected_index < catalog_size {
            Some(self.selected_index)
        } else {
            None
        }
    }

    /// Carries out one command over a catalog of `catalog_size` entries and
    /// says whether the session goes on. Never fails: a move that would
    /// leave the catalog is absorbed.
    pub fn apply(&mut self, command: Command, catalog_size: usize) -> (action: Action)
        ensures
            *final(self) == old(self).after(command, catalog_size),
            action == if command == Command::Quit {
                Action::Quit
            } else {
                Action::Redraw
            },
            catalog_size > 0 && old(self).in_bounds(catalog_size) ==> final(self).in_bounds(
                catalog_size,
            ),
    {
        match command {
            Command::GoHome => {
                self.active_view = MenuItem::Home;
                Action::Redraw
            },
            Command::GoDomains => {
                self.active_view = MenuItem::Domains;
                Action::Redraw
            },
            Command::MoveDown => {
                if catalog_size > 0 {
                    if self.selected_index < catalog_size - 1 {
                        self.selected_index = self.selected_index + 1;
                    } else {
                        self.selected_index = catalog_size - 1;
                    }
                }
                Action::Redraw
            },
            Command::MoveUp => {
                if self.selected_index > 0 {
                    self.selected_index = self.selected_index - 1;
                }
                Action::Redraw
            },
            Command::Quit => Action::Quit,
        }
    }

    /// Takes one event off the queue: a key that stands for a command is
    /// carried out, any other key and a tick only ask for the next frame.
    pub fn handle(&mut self, event: Event, catalog_size: usize) -> (action: Action)
        ensures
            match command_of_event(event) {
                Some(command) => {
                    &&& *final(self) == old(self).after(command, catalog_size)
                    &&& action == if command == Command::Quit {
                        Action::Quit
                    } else {
                        Action::Redraw
                    }
                },
                None => *final(self) == *old(self) && action == Action::Redraw,
            },
    {
        match event {
            Event::Input(key) => match command_for(key) {
                Some(command) => self.apply(command, catalog_size),
                None => Action::Redraw,
            },
            Event::Tick => Action::Redraw,
        }
    }

    /// A move down that is not stopped by the end of the catalog is undone
    /// by the move up that follows it. From the last entry the move down is
    /// absorbed, so there the law has nothing to say.
    pub proof fn lemma_down_then_up(self, catalog_size: usize)
        requires
            self.selected_index + 1 < catalog_size,
        ensures
            self.after(Command::MoveDown, catalog_size).after(Command::MoveUp, catalog_size)
                == self,
    {
    }

    /// A move up that is not stopped by the start of the catalog is undone
    /// by the move down that follows it.
    pub proof fn lemma_up_then_down(self, catalog_size: usize)
        requires
            0 < self.selected_index < catalog_size,
        ensures
            self.after(Command::MoveUp, catalog_size).after(Command::MoveDown, catalog_size)
                == self,
    {
    }

    /// At the ends the moves are absorbed: up at the first entry and down at
    /// the last leave the cursor where it is.
    pub proof fn lemma_absorbed_at_the_ends(self, catalog_size: usize)
        requires
            self.in_bounds(catalog_size),
        ensures
            self.selected_index == 0 ==> self.after(Command::MoveUp, catalog_size) == self,
            self.selected_index == catalog_size - 1 ==> self.after(
                Command::MoveDown,
                catalog_size,
            ) == self,
    {
    }

    /// Changing the view or quitting twice is the same as doing so once.
    pub proof fn lemma_view_commands_are_idempotent(self, catalog_size: usize)
        ensures
            self.after(Command::GoHome, catalog_size).after(Command::GoHome, catalog_size)
                == self.after(Command::GoHome, catalog_size),
            self.after(Command::GoDomains, catalog_size).after(Command::GoDomains, catalog_size)
                == self.after(Command::GoDomains, catalog_size),
            self.after(Command::Quit, catalog_size).after(Command::Quit, catalog_size)
                == self.after(Command::Quit, catalog_size),
    {
    }

    /// One command keeps a selection that is inside a non-empty catalog
    /// inside it.
    pub proof fn lemma_step_in_bounds(self, command: Command, catalog_size: usize)
        requires
            catalog_size > 0,
            self.in_bounds(catalog_size),
        ensures
            self.after(command, catalog_size).in_bounds(catalog_size),
    {
    }

    /// Whatever commands arrive, in whatever order, a selection that is
    /// inside a non-empty catalog stays inside it.
    pub proof fn lemma_always_in_bounds(self, commands: Seq<Command>, catalog_size: usize)
        requires
            catalog_size > 0,
            self.in_bounds(catalog_size),
        ensures
            self.after_all(commands, catalog_size).in_bounds(catalog_size),
        decreases commands.len(),
    {
        if commands.len() > 0 {
            self.lemma_always_in_bounds(commands.drop_last(), catalog_size);
            self.after_all(commands.drop_last(), catalog_size).lemma_step_in_bounds(
                commands.last(),
                catalog_size,
            );
        }
    }

    /// Over a non-empty catalog the selection of a session is an index into
    /// the catalog after any sequence of commands.
    pub proof fn lemma_session_in_bounds(commands: Seq<Command>, catalog_size: usize)
        requires
            catalog_size > 0,
        ensures
            NavigationCursor::initial().after_all(commands, catalog_size).in_bounds(catalog_size),
    {
        NavigationCursor::initial().lemma_always_in_bounds(commands, catalog_size);
    }
}

/// Reads a key as a command: `h` for the home view, `d` for the domains
/// view, `q` to quit, each in either case, and the arrows to move.
pub fn command_for(key: Key) -> (command: Option<Command>)
    ensures
        command == command_of(key),
{
    match key {
        Key::Char(c) => {
            if c == 'h' || c == 'H' {
                Some(Command::GoHome)
            } else if c == 'd' || c == 'D' {
                Some(Command::GoDomains)
            } else if c == 'q' || c == 'Q' {
                Some(Command::Quit)
            } else {
                None
            }
        },
        Key::Down => Some(Command::MoveDown),
        Key::Up => Some(Command::MoveUp),
        Key::Other => None,
    }
}

} // verus!
