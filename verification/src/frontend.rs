//! The state of the terminal front end: which tab is shown, whether keys go
//! to the text field, and what each key does to that. Drawing and reading
//! keys are the caller's; this module decides.

use vstd::prelude::*;

verus! {

/// The tabs of the front end and the one that is shown.
pub struct TabsState<'a> {
    pub titles: Vec<&'a str>,
    pub index: usize,
}

impl<'a> TabsState<'a> {
    /// The index names one of the tabs.
    pub open spec fn selects_a_tab(&self) -> bool {
        self.index < self.titles.len()
    }

    /// The tabs with the first one shown.
    pub fn new(titles: Vec<&'a str>) -> (tabs: Self)
        ensures
            tabs.titles == titles,
            tabs.index == 0,
    {
        Self { titles, index: 0 }
    }

    /// Shows the tab to the right, and the first after the last.
    pub fn next(&mut self)
        requires
            old(self).titles.len() > 0,
            old(self).index < usize::MAX,
        ensures
            final(self).titles == old(self).titles,
            final(self).index == (old(self).index + 1) % (old(self).titles.len() as int),
            final(self).selects_a_tab(),
    {
        self.index = (self.index + 1) % self.titles.len();
    }

    /// Shows the tab to the left, and the last before the first.
    pub fn previous(&mut self)
        requires
            old(self).titles.len() > 0,
        ensures
            final(self).titles == old(self).titles,
            final(self).index == if old(self).index > 0 {
                old(self).index - 1
            } else {
                old(self).titles.len() - 1
            },
            old(self).selects_a_tab() ==> final(self).selects_a_tab(),
    {
        if self.index > 0 {
            self.index -= 1;
        } else {
            self.index = self.titles.len() - 1;
        }
    }
}

/// Where the keys go.
#[derive(Clone, Copy, PartialEq, Eq, Structural, Debug)]
pub enum InputMode {
    /// Keys are commands.
    Normal,
    /// Keys are text for the field of identifiers.
    Editing,
}

/// What the caller is to start when the enter key was taken.
#[derive(Clone, Copy, PartialEq, Eq, Structural, Debug)]
pub enum EnterAction {
    /// Import the identifiers in the text field.
    Import,
    /// Export the list of installed mods.
    Export,
    /// Nothing.
    Nothing,
}

/// A key, as far as the front end tells keys apart.
#[derive(Clone, Copy, PartialEq, Eq, Structural, Debug)]
pub enum Key {
    Enter,
    Left,
    Right,
    Tab,
    Esc,
    Char(char),
    Other,
}

/// The modifier keys held with a key.
#[derive(Clone, Copy, PartialEq, Eq, Structural, Debug)]
pub enum Modifiers {
    /// None is held.
    Unmodified,
    /// The control key alone is held.
    Control,
    /// Any other combination.
    Other,
}

/// What became of a key.
#[derive(Clone, Copy, PartialEq, Eq, Structural, Debug)]
pub enum KeyEffect {
    /// The state took the key.
    Handled,
    /// The enter key was taken; the caller starts what it stands for.
    Entered(EnterAction),
    /// The key is text: the caller hands it to the text field.
    Text,
    /// The key was not for the front end.
    Ignored,
}

/// The index of the tab on which mods are imported.
pub const IMPORT_TAB: usize = 0;

/// The index of the tab on which the list of mods is exported.
pub const EXPORT_TAB: usize = 1;

/// The state of the front end.
pub struct App<'a> {
    pub title: &'a str,
    pub should_quit: bool,
    pub tabs: TabsState<'a>,
    pub input_mode: InputMode,
}

impl<'a> App<'a> {
    /// The tabs can be walked through: there is one, and the index can grow.
    pub open spec fn can_turn(&self) -> bool {
        self.tabs.titles.len() > 0 && self.tabs.index < usize::MAX
    }

    /// What the enter key stands for on the tab that is shown.
    pub open spec fn enter_action(&self) -> EnterAction {
        if self.tabs.index == IMPORT_TAB {
            EnterAction::Import
        } else if self.tabs.index == EXPORT_TAB {
            EnterAction::Export
        } else {
            EnterAction::Nothing
        }
    }

    /// The front end as it starts: the import tab shown, keys as commands.
    pub fn new(title: &'a str) -> (app: Self)
        ensures
            app.title == title,
            !app.should_quit,
            app.tabs.titles@.len() == 2,
            app.tabs.titles@[0]@ == "Import"@,
            app.tabs.titles@[1]@ == "Export"@,
            app.tabs.index == 0,
            app.input_mode == InputMode::Normal,
    {
        let mut titles: Vec<&'a str> = Vec::new();
        titles.push("Import");
        titles.push("Export");
        App { title, should_quit: false, tabs: TabsState::new(titles), input_mode: InputMode::Normal }
    }

/// The right arrow: the next tab shows.
    pub fn on_right(&mut self)
        requires
            old(self).can_turn(),
        ensures
            final(self).tabs.titles == old(self).tabs.titles,
            final(self).tabs.index == (old(self).tabs.index + 1) % (old(self).tabs.titles.len() as int),
            final(self).title == old(self).title,
            final(self).should_quit == old(self).should_quit,
            final(self).input_mode == old(self).input_mode,
    {
        self.tabs.next();
    }

/// The left arrow: the tab before shows.
    pub fn on_left(&mut self)
        requires
            old(self).tabs.titles.len() > 0,
        ensures
            final(self).tabs.titles == old(self).tabs.titles,
            final(self).tabs.index == if old(self).tabs.index > 0 {
                old(self).tabs.index - 1
            } else {
                old(self).tabs.titles.len() - 1
            },
            final(self).title == old(self).title,
            final(self).should_quit == old(self).should_quit,
            final(self).input_mode == old(self).input_mode,
    {
        self.tabs.previous();
    }

    /// A character key as a command: `q` quits, `e` on the import tab turns
    /// to editing, every other character does nothing.
    pub fn on_key(&mut self, c: char)
        ensures
            final(self).title == old(self).title,
            final(self).tabs == old(self).tabs,
            final(self).should_quit == (old(self).should_quit || c == 'q'),
            final(self).input_mode == if c == 'e' && old(self).tabs.index == IMPORT_TAB {
                InputMode::Editing
            } else {
                old(self).input_mode
            },
    {
        if c == 'q' {
            self.should_quit = true;
        } else if c == 'e' {
            if self.tabs.index == IMPORT_TAB {
                self.input_mode = InputMode::Editing;
            }
        }
    }

    /// The tab key: editing ends on the import tab, and the next tab shows.
    pub fn on_tab(&mut self)
        requires
            old(self).can_turn(),
        ensures
            final(self).title == old(self).title,
            final(self).should_quit == old(self).should_quit,
            final(self).tabs.titles == old(self).tabs.titles,
            final(self).tabs.index == (old(self).tabs.index + 1) % (old(self).tabs.titles.len() as int),
            final(self).input_mode == if old(self).tabs.index == IMPORT_TAB {
                InputMode::Normal
            } else {
                old(self).input_mode
            },
    {
        if self.tabs.index == IMPORT_TAB {
            self.input_mode = InputMode::Normal;
        }
        self.tabs.next();
    }

    /// The escape key: editing ends on the import tab.
    pub fn on_esc(&mut self)
        ensures
            final(self).title == old(self).title,
            final(self).should_quit == old(self).should_quit,
            final(self).tabs == old(self).tabs,
            final(self).input_mode == if old(self).tabs.index == IMPORT_TAB {
                InputMode::Normal
            } else {
                old(self).input_mode
            },
    {
        if self.tabs.index == IMPORT_TAB {
            self.input_mode = InputMode::Normal;
        }
    }

    /// The enter key: what the caller is to start on the tab that is shown.
    pub fn on_enter(&self) -> (action: EnterAction)
        ensures
            action == self.enter_action(),
    {
        if self.tabs.index == IMPORT_TAB {
            EnterAction::Import
        } else if self.tabs.index == EXPORT_TAB {
            EnterAction::Export
        } else {
            EnterAction::Nothing
        }
    }
}

/// A key while keys are commands.
pub fn handle_normal_mode(app: &mut App, key: Key) -> (effect: KeyEffect)
    requires
        key == Key::Right || key == Key::Tab ==> old(app).can_turn(),
        key == Key::Left ==> old(app).tabs.titles.len() > 0,
    ensures
        final(app).title == old(app).title,
        final(app).tabs.titles == old(app).tabs.titles,
        effect == match key {
            Key::Left | Key::Right | Key::Tab | Key::Esc | Key::Char(_) => KeyEffect::Handled,
            _ => KeyEffect::Ignored,
        },
        final(app).tabs.index == match key {
            Key::Left => if old(app).tabs.index > 0 {
                old(app).tabs.index - 1
            } else {
                old(app).tabs.titles.len() - 1
            },
            Key::Right | Key::Tab => (old(app).tabs.index + 1) % (old(app).tabs.titles.len() as int),
            _ => old(app).tabs.index as int,
        },
        final(app).should_quit == (old(app).should_quit || key == Key::Char('q')),
        final(app).input_mode == match key {
            Key::Tab | Key::Esc => if old(app).tabs.index == IMPORT_TAB {
                InputMode::Normal
            } else {
                old(app).input_mode
            },
            Key::Char(c) => if c == 'e' && old(app).tabs.index == IMPORT_TAB {
                InputMode::Editing
            } else {
                old(app).input_mode
            },
            _ => old(app).input_mode,
        },
{
    match key {
        Key::Left => {
            app.on_left();
            KeyEffect::Handled
        },
        Key::Right => {
            app.on_right();
            KeyEffect::Handled
        },
        Key::Tab => {
            app.on_tab();
            KeyEffect::Handled
        },
        Key::Esc => {
            app.on_esc();
            KeyEffect::Handled
        },
        Key::Char(c) => {
            app.on_key(c);
            KeyEffect::Handled
        },
        _ => KeyEffect::Ignored,
    }
}

/// What a key does while keys are text: enter with control submits, escape
/// and tab alone leave the field, and everything else is text. Only a key
/// that goes down is a command; one that is held or let go is text.
pub open spec fn editing_command(key: Key, modifiers: Modifiers, pressed: bool) -> Key {
    if pressed && key == Key::Enter && modifiers == Modifiers::Control {
        Key::Enter
    } else if pressed && key == Key::Esc && modifiers == Modifiers::Unmodified {
        Key::Esc
    } else if pressed && key == Key::Tab && modifiers == Modifiers::Unmodified {
        Key::Tab
    } else {
        Key::Other
    }
}

/// A key while keys are text.
pub fn handle_editing_mode(app: &mut App, key: Key, modifiers: Modifiers, pressed: bool) -> (effect:
    KeyEffect)
    requires
        editing_command(key, modifiers, pressed) == Key::Tab ==> old(app).can_turn(),
    ensures
        final(app).title == old(app).title,
        final(app).should_quit == old(app).should_quit,
        final(app).tabs.titles == old(app).tabs.titles,
        effect == match editing_command(key, modifiers, pressed) {
            Key::Enter => KeyEffect::Entered(old(app).enter_action()),
            Key::Esc | Key::Tab => KeyEffect::Handled,
            _ => KeyEffect::Text,
        },
        final(app).tabs.index == match editing_command(key, modifiers, pressed) {
            Key::Tab => (old(app).tabs.index + 1) % (old(app).tabs.titles.len() as int),
            _ => old(app).tabs.index as int,
        },
        final(app).input_mode == match editing_command(key, modifiers, pressed) {
            Key::Esc | Key::Tab => if old(app).tabs.index == IMPORT_TAB {
                InputMode::Normal
            } else {
                old(app).input_mode
            },
            _ => old(app).input_mode,
        },
{
    if pressed && key == Key::Enter && modifiers == Modifiers::Control {
        KeyEffect::Entered(app.on_enter())
    } else if pressed && key == Key::Esc && modifiers == Modifiers::Unmodified {
        app.on_esc();
        KeyEffect::Handled
    } else if pressed && key == Key::Tab && modifiers == Modifiers::Unmodified {
        app.on_tab();
        KeyEffect::Handled
    } else {
        KeyEffect::Text
    }
}

} // verus!
