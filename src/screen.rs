use vstd::prelude::*;

use crate::event::AppState;
use crate::layout::{ratios_defined, split_area, within_bounds, Area, Axis, Extent};
use crate::menu::{menu_position, MenuItem};
use crate::records::{Error, Experience, Project};
use crate::view::{experience_pane, failed_pane, projects_pane, render_experience, render_projects, ListPane};

verus! {

/// Cells kept free around the whole screen.
pub const SCREEN_MARGIN: u16 = 2;

/// Height of the menu bar and of the footer.
pub const BAR_HEIGHT: u16 = 3;

/// Least height of the body between them.
pub const BODY_MIN_HEIGHT: u16 = 2;

/// A list pane's width is cut into this many parts: the list takes
/// `LIST_PARTS` of them (a fifth), the details `DETAIL_PARTS` (four fifths).
pub const WHOLE_PARTS: u32 = 5;

pub const LIST_PARTS: u32 = 1;

pub const DETAIL_PARTS: u32 = 4;

/// What the body of the screen shows.
#[derive(Clone, Debug)]
pub enum Body {
    Home,
    Contact,
    Projects { pane: ListPane, list: Area, detail: Area },
    Experience { pane: ListPane, list: Area, detail: Area },
}

/// One frame: the regions of the menu bar, body and footer, the menu entry to
/// highlight, and the body's content.
#[derive(Clone, Debug)]
pub struct Screen {
    pub menu: Area,
    pub body: Area,
    pub footer: Area,
    pub tab: usize,
    pub content: Body,
}

/// What a frame shows for a state and the records, leaving aside where each
/// region lies: the active section's menu entry, and the active section's
/// content, a list section with its own cursor or the store's error.
pub open spec fn shows(r: Screen, state: AppState, projects: Result<Vec<Project>, Error>, experiences: Result<Vec<Experience>, Error>) -> bool {
    &&& r.tab as nat == menu_position(state.tabs.active)
    &&& match state.tabs.active {
        MenuItem::Home => r.content is Home,
        MenuItem::Contact => r.content is Contact,
        MenuItem::Projects => r.content is Projects && match projects {
            Ok(list) => projects_pane(r.content->Projects_pane, state.projects.selected, list@),
            Err(e) => failed_pane(r.content->Projects_pane, e),
        },
        MenuItem::Experience => r.content is Experience && match experiences {
            Ok(list) => experience_pane(r.content->Experience_pane, state.experience.selected, list@),
            Err(e) => failed_pane(r.content->Experience_pane, e),
        },
    }
}

/// The part of an area whose right and bottom edges stay within `u16`.
pub open spec fn clipped(a: Area) -> Area {
    Area {
        width: if a.x + a.width > u16::MAX { (u16::MAX - a.x) as u16 } else { a.width },
        height: if a.y + a.height > u16::MAX { (u16::MAX - a.y) as u16 } else { a.height },
        ..a
    }
}

pub fn clip(a: Area) -> (r: Area)
    ensures
        r == clipped(a),
        within_bounds(r),
{
    Area {
        width: if a.width > u16::MAX - a.x { u16::MAX - a.x } else { a.width },
        height: if a.height > u16::MAX - a.y { u16::MAX - a.y } else { a.height },
        ..a
    }
}

/// Builds the frame from the three bands and the two columns of a list pane,
/// as the layout gave them. The list sections lay their list and details in
/// the columns; the other sections do not use them.
pub fn assemble(
    state: &AppState,
    menu: Area,
    body: Area,
    footer: Area,
    list: Area,
    detail: Area,
    projects: &Result<Vec<Project>, Error>,
    experiences: &Result<Vec<Experience>, Error>,
) -> (r: Screen)
    ensures
        shows(r, *state, *projects, *experiences),
        r.menu == menu,
        r.body == body,
        r.footer == footer,
        r.content is Projects ==> r.content->Projects_list == list && r.content->Projects_detail == detail,
        r.content is Experience ==> r.content->Experience_list == list && r.content->Experience_detail
            == detail,
{
    let content = match state.tabs.active {
        MenuItem::Home => Body::Home,
        MenuItem::Contact => Body::Contact,
        MenuItem::Projects => Body::Projects { pane: render_projects(&state.projects, projects), list, detail },
        MenuItem::Experience => Body::Experience {
            pane: render_experience(&state.experience, experiences),
            list,
            detail,
        },
    };
    Screen { menu, body, footer, tab: state.tabs.active.position(), content }
}

/// Composes the frame for a state on a screen of the given size: three bands
/// (menu bar, body, footer) cut inside the margin, and, for a list section,
/// the body cut into a list column of a fifth and a detail column of the rest.
/// The regions are the layout solver's; what the frame shows is fixed by the
/// state and the records alone.
pub fn compose(
    state: &AppState,
    size: Area,
    projects: &Result<Vec<Project>, Error>,
    experiences: &Result<Vec<Experience>, Error>,
) -> (r: Screen)
    requires
        size.x + SCREEN_MARGIN <= u16::MAX,
        size.y + SCREEN_MARGIN <= u16::MAX,
        within_bounds(size),
    ensures
        shows(r, *state, *projects, *experiences),
{
    let bands = vec![Extent::Length(BAR_HEIGHT), Extent::Min(BODY_MIN_HEIGHT), Extent::Length(BAR_HEIGHT)];
    assert(ratios_defined(bands@)) by {
        assert forall|k: int| 0 <= k < bands@.len() implies match #[trigger] bands@[k] {
            Extent::Ratio(_, d) => d > 0,
            _ => true,
        } by {
            assert(bands@[k] is Length || bands@[k] is Min);
        }
    }
    let parts = split_area(size, Axis::Vertical, SCREEN_MARGIN, &bands);
    let body = parts[1];
    let columns = vec![Extent::Ratio(LIST_PARTS, WHOLE_PARTS), Extent::Ratio(DETAIL_PARTS, WHOLE_PARTS)];
    assert(ratios_defined(columns@)) by {
        assert forall|k: int| 0 <= k < columns@.len() implies match #[trigger] columns@[k] {
            Extent::Ratio(_, d) => d > 0,
            _ => true,
        } by {
            assert(columns@[k] == Extent::Ratio(LIST_PARTS, WHOLE_PARTS) || columns@[k] == Extent::Ratio(
                DETAIL_PARTS,
                WHOLE_PARTS,
            ));
        }
    }
    let cols = split_area(clip(body), Axis::Horizontal, 0, &columns);
    assemble(state, parts[0], body, parts[2], cols[0], cols[1], projects, experiences)
}

} // verus!
