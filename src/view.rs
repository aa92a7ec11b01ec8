use vstd::prelude::*;

use crate::records::{error_text, Error, Experience, Project};
use crate::selection::SelectionState;

verus! {

/// The right-hand side of a list pane.
#[derive(Clone, Debug)]
pub enum Detail {
    /// Nothing is selected, or the list is empty.
    Empty,
    /// The records could not be had; the message says why.
    Failed(String),
    /// The fields of the selected project.
    Project(Project),
    /// The rows of the attribute table of the selected experience.
    Attributes(Vec<String>),
}

/// A navigable list on the left and the selected record's details on the right.
#[derive(Clone, Debug)]
pub struct ListPane {
    pub items: Vec<String>,
    pub highlight: Option<usize>,
    pub detail: Detail,
}

/// The item to highlight: the selection, when it still points into a list of `n` items.
pub open spec fn highlight_of(sel: Option<usize>, n: nat) -> Option<usize> {
    match sel {
        Some(i) => if (i as nat) < n {
            Some(i)
        } else {
            None
        },
        None => None,
    }
}

/// The rows of the attribute table of an experience: a heading and the value
/// for company and duration, with a blank row after each, then a heading and
/// each line of the description.
pub open spec fn attribute_rows(e: Experience) -> Seq<Seq<char>> {
    seq!["# Company"@, e.company@, ""@, "# Duration"@, e.duration@, ""@, "# Descrption"@]
        + e.description@.map_values(|d: String| d@)
}

/// What a list pane shows when its records could not be had.
pub open spec fn failed_pane(r: ListPane, e: Error) -> bool {
    &&& r.items@.len() == 0
    &&& r.highlight.is_none()
    &&& r.detail is Failed
    &&& r.detail->Failed_0@ == error_text(e)
}

/// The projects pane for a selection and a list of projects.
pub open spec fn projects_pane(r: ListPane, sel: Option<usize>, list: Seq<Project>) -> bool {
    &&& r.items@.map_values(|s: String| s@) == list.map_values(|p: Project| p.name@)
    &&& r.highlight == highlight_of(sel, list.len())
    &&& match r.highlight {
        Some(i) => r.detail == Detail::Project(list[i as int]),
        None => r.detail is Empty,
    }
}

/// The experience pane for a selection and a list of experiences.
pub open spec fn experience_pane(r: ListPane, sel: Option<usize>, list: Seq<Experience>) -> bool {
    &&& r.items@.map_values(|s: String| s@) == list.map_values(|x: Experience| x.position@)
    &&& r.highlight == highlight_of(sel, list.len())
    &&& match r.highlight {
        Some(i) => r.detail is Attributes && r.detail->Attributes_0@.map_values(|s: String| s@)
            == attribute_rows(list[i as int]),
        None => r.detail is Empty,
    }
}

fn failed(e: &Error) -> (r: ListPane)
    ensures
        failed_pane(r, *e),
{
    ListPane { items: Vec::new(), highlight: None, detail: Detail::Failed(e.message()) }
}

fn checked_highlight(sel: Option<usize>, n: usize) -> (r: Option<usize>)
    ensures
        r == highlight_of(sel, n as nat),
{
    match sel {
        Some(i) => if i < n {
            Some(i)
        } else {
            None
        },
        None => None,
    }
}

/// The rows of the attribute table of one experience.
pub fn experience_rows(e: &Experience) -> (r: Vec<String>)
    ensures
        r@.map_values(|s: String| s@) == attribute_rows(*e),
{
    proof {
        reveal_strlit("# Company");
        reveal_strlit("# Duration");
        reveal_strlit("# Descrption");
        reveal_strlit("");
    }
    let mut rows: Vec<String> = Vec::new();
    rows.push(String::from_str("# Company"));
    rows.push(e.company.clone());
    rows.push(String::new());
    rows.push(String::from_str("# Duration"));
    rows.push(e.duration.clone());
    rows.push(String::new());
    rows.push(String::from_str("# Descrption"));
    let ghost head = seq!["# Company"@, e.company@, ""@, "# Duration"@, e.duration@, ""@, "# Descrption"@];
    assert(""@ =~= Seq::<char>::empty());
    assert(rows@[0]@ == head[0] && rows@[1]@ == head[1] && rows@[2]@ == head[2] && rows@[3]@ == head[3]);
    assert(rows@[4]@ == head[4] && rows@[5]@ == head[5] && rows@[6]@ == head[6]);
    let mut k: usize = 0;
    while k < e.description.len()
        invariant
            k <= e.description@.len(),
            rows@.len() == 7 + k,
            head.len() == 7,
            head == seq!["# Company"@, e.company@, ""@, "# Duration"@, e.duration@, ""@, "# Descrption"@],
            forall|j: int| 0 <= j < 7 ==> (#[trigger] rows@[j])@ == head[j],
            forall|j: int| 0 <= j < k ==> (#[trigger] rows@[7 + j])@ == e.description@[j]@,
        decreases e.description@.len() - k,
    {
        rows.push(e.description[k].clone());
        k = k + 1;
    }
    assert(rows@.map_values(|s: String| s@) =~= attribute_rows(*e)) by {
        assert forall|j: int| 7 <= j < rows@.len() implies (#[trigger] rows@[j])@
            == e.description@[j - 7]@ by {
            assert(rows@[7 + (j - 7)] == rows@[j]);
        }
    }
    rows
}

/// The projects pane: every project's name in order, the selection
/// highlighted while it points into the list, and the selected project's
/// fields; an empty detail when nothing valid is selected; the store's error
/// when the list could not be had.
pub fn render_projects(selection: &SelectionState, store: &Result<Vec<Project>, Error>) -> (r: ListPane)
    ensures
        match store {
            Ok(list) => projects_pane(r, selection.selected, list@),
            Err(e) => failed_pane(r, *e),
        },
{
    match store {
        Err(e) => failed(e),
        Ok(list) => {
            let mut items: Vec<String> = Vec::new();
            let mut k: usize = 0;
            while k < list.len()
                invariant
                    k <= list@.len(),
                    items@.len() == k,
                    forall|j: int| 0 <= j < k ==> (#[trigger] items@[j])@ == list@[j].name@,
                decreases list@.len() - k,
            {
                items.push(list[k].name.clone());
                k = k + 1;
            }
            assert(items@.map_values(|s: String| s@) =~= list@.map_values(|p: Project| p.name@));
            let highlight = checked_highlight(selection.selected, list.len());
            let detail = match highlight {
                Some(i) => Detail::Project(list[i].copied()),
                None => Detail::Empty,
            };
            ListPane { items, highlight, detail }
        },
    }
}

/// The experience pane: every position in order, the selection highlighted
/// while it points into the list, and the attribute table of the selected
/// experience; an empty detail when nothing valid is selected; the store's
/// error when the list could not be had.
pub fn render_experience(selection: &SelectionState, store: &Result<Vec<Experience>, Error>) -> (r: ListPane)
    ensures
        match store {
            Ok(list) => experience_pane(r, selection.selected, list@),
            Err(e) => failed_pane(r, *e),
        },
{
    match store {
        Err(e) => failed(e),
        Ok(list) => {
            let mut items: Vec<String> = Vec::new();
            let mut k: usize = 0;
            while k < list.len()
                invariant
                    k <= list@.len(),
                    items@.len() == k,
                    forall|j: int| 0 <= j < k ==> (#[trigger] items@[j])@ == list@[j].position@,
                decreases list@.len() - k,
            {
                items.push(list[k].position.clone());
                k = k + 1;
            }
            assert(items@.map_values(|s: String| s@) =~= list@.map_values(
                |x: Experience| x.position@,
            ));
            let highlight = checked_highlight(selection.selected, list.len());
            let detail = match highlight {
                Some(i) => Detail::Attributes(experience_rows(&list[i])),
                None => Detail::Empty,
            };
            ListPane { items, highlight, detail }
        },
    }
}

} // verus!
