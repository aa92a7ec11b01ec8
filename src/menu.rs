use vstd::prelude::*;

verus! {

/// A top-level section of the interface.
#[derive(Clone, Copy, Debug, PartialEq, Eq, Structural)]
pub enum MenuItem {
    Home,
    Projects,
    Experience,
    Contact,
}

/// Position of a section in the menu bar.
pub open spec fn menu_position(m: MenuItem) -> nat {
    match m {
        MenuItem::Home => 0,
        MenuItem::Projects => 1,
        MenuItem::Experience => 2,
        MenuItem::Contact => 3,
    }
}

impl From<MenuItem> for usize {
    fn from(input: MenuItem) -> (r: usize) {
        match input {
            MenuItem::Home => 0,
            MenuItem::Projects => 1,
            MenuItem::Experience => 2,
            MenuItem::Contact => 3,
        }
    }
}

impl vstd::std_specs::convert::FromSpecImpl<MenuItem> for usize {
    open spec fn obeys_from_spec() -> bool {
        true
    }

    open spec fn from_spec(v: MenuItem) -> usize {
        menu_position(v) as usize
    }
}

impl MenuItem {
    /// Position of this section in the menu bar, the index to highlight there.
    pub fn position(self) -> (r: usize)
        ensures
            r as nat == menu_position(self),
            r < 4,
    {
        usize::from(self)
    }
}

/// The titles shown in the menu bar, in order; the last one is the quit entry.
pub fn menu_titles() -> (r: Vec<&'static str>)
    ensures
        r@.len() == 5,
        r@[0]@ == "Home"@,
        r@[1]@ == "Projects"@,
        r@[2]@ == "Experience"@,
        r@[3]@ == "Contact"@,
        r@[4]@ == "Quit"@,
{
    proof {
        reveal_strlit("Home");
        reveal_strlit("Projects");
        reveal_strlit("Experience");
        reveal_strlit("Contact");
        reveal_strlit("Quit");
    }
    vec!["Home", "Projects", "Experience", "Contact", "Quit"]
}

/// The active section: exactly one at any time, `Home` at the start.
#[derive(Clone, Copy, Debug, PartialEq, Eq, Structural)]
pub struct TabState {
    pub active: MenuItem,
}

impl TabState {
    pub fn new() -> (r: TabState)
        ensures
            r.active == MenuItem::Home,
    {
        TabState { active: MenuItem::Home }
    }

    pub fn active(&self) -> (r: MenuItem)
        ensures
            r == self.active,
    {
        self.active
    }

    /// Makes `tab` the active section; every section is reachable from every other.
    pub fn set_active(&mut self, tab: MenuItem)
        ensures
            final(self).active == tab,
    {
        self.active = tab;
    }
}

/// A key press, as far as the interface tells keys apart.
#[derive(Clone, Copy, Debug, PartialEq, Eq, Structural)]
pub enum Key {
    Char(char),
    Up,
    Down,
    Other,
}

/// What a key press asks of the interface.
#[derive(Clone, Copy, Debug, PartialEq, Eq, Structural)]
pub enum Command {
    Quit,
    Show(MenuItem),
    Up,
    Down,
    Ignore,
}

/// The command bound to each key: `q` quits, `h`, `p`, `e`, `c` show a section,
/// the arrows move the cursors, and every other key does nothing.
pub open spec fn command_of(key: Key) -> Command {
    match key {
        Key::Char(c) => if c == 'q' {
            Command::Quit
        } else if c == 'h' {
            Command::Show(MenuItem::Home)
        } else if c == 'p' {
            Command::Show(MenuItem::Projects)
        } else if c == 'e' {
            Command::Show(MenuItem::Experience)
        } else if c == 'c' {
            Command::Show(MenuItem::Contact)
        } else {
            Command::Ignore
        },
        Key::Up => Command::Up,
        Key::Down => Command::Down,
        Key::Other => Command::Ignore,
    }
}

/// The key that shows a section.
pub open spec fn key_for(m: MenuItem) -> Key {
    match m {
        MenuItem::Home => Key::Char('h'),
        MenuItem::Projects => Key::Char('p'),
        MenuItem::Experience => Key::Char('e'),
        MenuItem::Contact => Key::Char('c'),
    }
}

pub fn command_for_key(key: Key) -> (r: Command)
    ensures
        r == command_of(key),
{
    match key {
        Key::Char(c) => {
            if c == 'q' {
                Command::Quit
            } else if c == 'h' {
                Command::Show(MenuItem::Home)
            } else if c == 'p' {
                Command::Show(MenuItem::Projects)
            } else if c == 'e' {
                Command::Show(MenuItem::Experience)
            } else if c == 'c' {
                Command::Show(MenuItem::Contact)
            } else {
                Command::Ignore
            }
        },
        Key::Up => Command::Up,
        Key::Down => Command::Down,
        Key::Other => Command::Ignore,
    }
}

} // verus!
