use vstd::prelude::*;

use crate::menu::{command_for_key, command_of, key_for, Command, Key, MenuItem, TabState};
use crate::selection::{moved_down, moved_up, SelectionState};

verus! {

/// What the input side hands to the loop: a key press, or the expiry of the tick interval.
#[derive(Clone, Copy, Debug, PartialEq, Eq, Structural)]
pub enum Event {
    Input(Key),
    Tick,
}

/// What the loop does after handling an event.
#[derive(Clone, Copy, Debug, PartialEq, Eq, Structural)]
pub enum Action {
    Continue,
    Quit,
}

/// Everything the loop owns: the active section and the cursor of each list.
#[derive(Clone, Copy, Debug, PartialEq, Eq, Structural)]
pub struct AppState {
    pub tabs: TabState,
    pub projects: SelectionState,
    pub experience: SelectionState,
}

/// Whether an event is the quit command.
pub open spec fn is_quit(ev: Event) -> bool {
    match ev {
        Event::Input(k) => command_of(k) == Command::Quit,
        Event::Tick => false,
    }
}

/// A cursor after a move down (or up) in a list whose current length is
/// known; a list that could not be read leaves its cursor where it was.
pub open spec fn stepped(sel: Option<usize>, len: Option<usize>, down: bool) -> Option<usize> {
    match len {
        Some(n) => if down {
            moved_down(sel, n as nat)
        } else {
            moved_up(sel, n as nat)
        },
        None => sel,
    }
}

/// The state after one event, given the current lengths of the two lists
/// (`None` for a list that could not be read).
pub open spec fn next_state(s: AppState, ev: Event, n_projects: Option<usize>, n_experiences: Option<usize>) -> AppState {
    match ev {
        Event::Tick => s,
        Event::Input(k) => match command_of(k) {
            Command::Show(m) => AppState { tabs: TabState { active: m }, ..s },
            Command::Down => AppState {
                projects: SelectionState { selected: stepped(s.projects.selected, n_projects, true) },
                experience: SelectionState {
                    selected: stepped(s.experience.selected, n_experiences, true),
                },
                ..s
            },
            Command::Up => AppState {
                projects: SelectionState { selected: stepped(s.projects.selected, n_projects, false) },
                experience: SelectionState {
                    selected: stepped(s.experience.selected, n_experiences, false),
                },
                ..s
            },
            Command::Quit => s,
            Command::Ignore => s,
        },
    }
}

/// A scripted run from state `s`: the state at the end, and the state that each
/// draw saw. One draw comes before each event; the run stops after a quit.
pub open spec fn run(s: AppState, evs: Seq<Event>, n_projects: Option<usize>, n_experiences: Option<usize>) -> (
    AppState,
    Seq<AppState>,
)
    decreases evs.len(),
{
    if evs.len() == 0 {
        (s, Seq::empty())
    } else {
        let t = next_state(s, evs[0], n_projects, n_experiences);
        if is_quit(evs[0]) {
            (t, seq![s])
        } else {
            let rest = run(t, evs.drop_first(), n_projects, n_experiences);
            (rest.0, seq![s] + rest.1)
        }
    }
}

/// Number of events a run consumes: all of them, or up to and including the first quit.
pub open spec fn consumed(evs: Seq<Event>) -> nat
    decreases evs.len(),
{
    if evs.len() == 0 {
        0
    } else if is_quit(evs[0]) {
        1
    } else {
        1 + consumed(evs.drop_first())
    }
}

/// A run handles its events in arrival order and draws exactly once per
/// consumed event: it consumes every event up to the first quit (or all of
/// them), the first draw sees the starting state, each later draw sees the
/// state left by the event before it, and the final state is the one left by
/// the last consumed event.
pub proof fn lemma_event_order(s: AppState, evs: Seq<Event>, n_projects: Option<usize>, n_experiences: Option<usize>)
    ensures
        ({
            let (last, frames) = run(s, evs, n_projects, n_experiences);
            let c = consumed(evs);
            &&& frames.len() == c
            &&& c <= evs.len()
            &&& forall|k: int| 0 <= k < c - 1 ==> !is_quit(#[trigger] evs[k])
            &&& c < evs.len() ==> is_quit(evs[c - 1])
            &&& c == 0 ==> evs.len() == 0 && last == s
            &&& c > 0 ==> frames[0] == s
            &&& forall|k: int|
                0 <= k < c - 1 ==> #[trigger] frames[k + 1] == next_state(
                    frames[k],
                    evs[k],
                    n_projects,
                    n_experiences,
                )
            &&& c > 0 ==> last == next_state(frames[c - 1], evs[c - 1], n_projects, n_experiences)
        }),
    decreases evs.len(),
{
    if evs.len() > 0 && !is_quit(evs[0]) {
        let t = next_state(s, evs[0], n_projects, n_experiences);
        let tail = evs.drop_first();
        lemma_event_order(t, tail, n_projects, n_experiences);
        let (last, frames) = run(s, evs, n_projects, n_experiences);
        let rest = run(t, tail, n_projects, n_experiences).1;
        assert(frames =~= seq![s] + rest);
        let c = consumed(evs);
        assert forall|k: int| 0 <= k < c - 1 implies !is_quit(#[trigger] evs[k]) by {
            if k > 0 {
                assert(evs[k] == tail[k - 1]);
            }
        }
        assert forall|k: int| 0 <= k < c - 1 implies #[trigger] frames[k + 1] == next_state(
            frames[k],
            evs[k],
            n_projects,
            n_experiences,
        ) by {
            if k > 0 {
                assert(evs[k] == tail[k - 1]);
                assert(frames[k + 1] == rest[k]);
                assert(frames[k] == rest[k - 1]);
            }
        }
    }
}

/// From any state, the key of a section makes that section active, leaves
/// both cursors as they were, and does not quit.
pub proof fn lemma_show_section(s: AppState, target: MenuItem, n_projects: Option<usize>, n_experiences: Option<usize>)
    ensures
        next_state(s, Event::Input(key_for(target)), n_projects, n_experiences).tabs.active == target,
        next_state(s, Event::Input(key_for(target)), n_projects, n_experiences).projects == s.projects,
        next_state(s, Event::Input(key_for(target)), n_projects, n_experiences).experience
            == s.experience,
        !is_quit(Event::Input(key_for(target))),
{
}

impl AppState {
    /// The state at start: the home section, both cursors on their first item.
    pub fn new() -> (r: AppState)
        ensures
            r.tabs.active == MenuItem::Home,
            r.projects.selected == Some(0usize),
            r.experience.selected == Some(0usize),
    {
        AppState {
            tabs: TabState::new(),
            projects: SelectionState::new(),
            experience: SelectionState::new(),
        }
    }

    /// Handles one event. The arrows move both cursors, each checked against
    /// the current length of its own list; a list that could not be read keeps
    /// its cursor. A section key changes the active section, `q` asks to quit,
    /// and ticks and other keys change nothing.
    pub fn handle_event(&mut self, ev: Event, n_projects: Option<usize>, n_experiences: Option<usize>) -> (r: Action)
        ensures
            *final(self) == next_state(*old(self), ev, n_projects, n_experiences),
            (r == Action::Quit) == is_quit(ev),
    {
        match ev {
            Event::Tick => Action::Continue,
            Event::Input(k) => match command_for_key(k) {
                Command::Quit => Action::Quit,
                Command::Show(m) => {
                    self.tabs.set_active(m);
                    Action::Continue
                },
                Command::Down => {
                    if let Some(n) = n_projects {
                        self.projects.select_down(n);
                    }
                    if let Some(n) = n_experiences {
                        self.experience.select_down(n);
                    }
                    Action::Continue
                },
                Command::Up => {
                    if let Some(n) = n_projects {
                        self.projects.select_up(n);
                    }
                    if let Some(n) = n_experiences {
                        self.experience.select_up(n);
                    }
                    Action::Continue
                },
                Command::Ignore => Action::Continue,
            },
        }
    }

    /// Runs a script of events in order, drawing before each one, until the
    /// script ends or a quit is handled. Returns the state each draw saw.
    pub fn run_events(&mut self, events: &Vec<Event>, n_projects: Option<usize>, n_experiences: Option<usize>) -> (frames: Vec<AppState>)
        ensures
            (*final(self), frames@) == run(*old(self), events@, n_projects, n_experiences),
    {
        let ghost s0 = *self;
        let ghost evs = events@;
        let ghost np = n_projects;
        let ghost ne = n_experiences;
        let mut frames: Vec<AppState> = Vec::new();
        let mut i: usize = 0;
        assert(evs.subrange(0, evs.len() as int) =~= evs);
        assert(frames@ + run(s0, evs, np, ne).1 =~= run(s0, evs, np, ne).1);
        while i < events.len()
            invariant
                i <= events@.len(),
                evs == events@,
                s0 == *old(self),
                np == n_projects,
                ne == n_experiences,
                run(s0, evs, np, ne).0 == run(*self, evs.subrange(i as int, evs.len() as int), np, ne).0,
                run(s0, evs, np, ne).1 == frames@ + run(*self, evs.subrange(i as int, evs.len() as int), np, ne).1,
            decreases events@.len() - i,
        {
            let ghost before = *self;
            let ghost old_frames = frames@;
            let ghost rest = evs.subrange(i as int, evs.len() as int);
            assert(rest.drop_first() =~= evs.subrange(i + 1, evs.len() as int));
            let ev = events[i];
            frames.push(*self);
            let action = self.handle_event(ev, n_projects, n_experiences);
            if action == Action::Quit {
                assert(run(before, rest, np, ne).0 == *self);
                assert(run(before, rest, np, ne).1 =~= seq![before]);
                assert(frames@ =~= old_frames + seq![before]);
                assert(frames@ + Seq::<AppState>::empty() =~= frames@);
                assert(run(s0, evs, np, ne).1 =~= frames@);
                return frames;
            }
            let ghost tail = run(*self, rest.drop_first(), np, ne);
            assert(run(before, rest, np, ne) == (tail.0, seq![before] + tail.1));
            assert(old_frames + (seq![before] + tail.1) =~= frames@ + tail.1);
            i = i + 1;
        }
        assert(evs.subrange(i as int, evs.len() as int) =~= Seq::<Event>::empty());
        assert(frames@ + Seq::<AppState>::empty() =~= frames@);
        frames
    }
}

} // verus!
