//! Navigation and view composition for a tabbed terminal resume.
//!
//! The library holds the logic of the interface: the list cursors with
//! wrap-around, the active section, the handling of one input event at a
//! time, and the composition of each screen from the current state and the
//! records. Terminal setup, input polling and reading the record files are
//! left to the program that drives it.
mod event;
mod layout;
mod menu;
mod records;
mod screen;
mod selection;
mod ticker;
mod view;

pub use event::{
    consumed, is_quit, lemma_event_order, lemma_show_section, next_state, run, stepped, Action,
    AppState, Event,
};
pub use layout::{ratios_defined, within_bounds, Area, Axis, Extent};
pub use menu::{
    command_for_key, command_of, key_for, menu_position, menu_titles, Command, Key, MenuItem,
    TabState,
};
pub use records::{error_text, Error, Experience, Project, Timestamp};
pub use screen::{
    assemble, clip, clipped, compose, shows, Body, Screen, BAR_HEIGHT, BODY_MIN_HEIGHT,
    DETAIL_PARTS, LIST_PARTS, SCREEN_MARGIN, WHOLE_PARTS,
};
pub use selection::{
    down_index, down_times, lemma_down_up_inverse, lemma_full_cycle, moved_down, moved_up,
    up_index, up_times, SelectionState,
};
pub use ticker::{poll_budget, tick_due, TICK_INTERVAL_MS};
pub use view::{
    attribute_rows, experience_pane, experience_rows, failed_pane, highlight_of, projects_pane,
    render_experience, render_projects, Detail, ListPane,
};
