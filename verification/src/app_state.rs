//! The state of the application window, and a sample of it.

use vstd::prelude::*;

verus! {

#[derive(Clone, Debug)]
pub struct Project {
    pub name: String,
}

#[derive(Clone, Copy, Debug, PartialEq, Eq, Structural)]
pub enum TimelineStatus {
    Pending,
    Running,
    Done,
    Failed,
}

#[derive(Clone, Debug)]
pub struct TimelineItem {
    pub title: String,
    pub status: TimelineStatus,
}

#[derive(Clone, Copy, Debug, PartialEq, Eq, Structural)]
pub enum RightPaneTab {
    Diff,
    Terminal,
}

#[derive(Clone, Debug)]
pub struct AppState {
    pub projects: Vec<Project>,
    pub selected_project: usize,
    pub timeline: Vec<TimelineItem>,
    pub selected_timeline_item: usize,
    pub right_pane_tab: RightPaneTab,
}

impl AppState {
    /// Whether the two selections point at a project and at a timeline item,
    /// or the list they point into is empty.
    pub open spec fn selections_in_range(self) -> bool {
        &&& self.projects@.len() == 0 || self.selected_project < self.projects@.len()
        &&& self.timeline@.len() == 0 || self.selected_timeline_item < self.timeline@.len()
    }

    /// The names of the projects, in order.
    pub open spec fn project_names(self) -> Seq<Seq<char>> {
        Seq::new(self.projects@.len(), |i: int| self.projects@[i].name@)
    }

    /// The titles and states of the timeline, in order.
    pub open spec fn timeline_entries(self) -> Seq<(Seq<char>, TimelineStatus)> {
        Seq::new(self.timeline@.len(), |i: int| (self.timeline@[i].title@, self.timeline@[i].status))
    }

    /// A sample state: two projects, and a timeline of three steps of which
    /// the second is running and selected.
    pub fn demo() -> (out: Self)
        ensures
            out.project_names() == seq!["luban"@, "scratch"@],
            out.selected_project == 0,
            out.timeline_entries() == seq![
                ("Scaffold project"@, TimelineStatus::Done),
                ("Index workspace"@, TimelineStatus::Running),
                ("Propose patch"@, TimelineStatus::Pending),
            ],
            out.selected_timeline_item == 1,
            out.right_pane_tab == RightPaneTab::Diff,
            out.selections_in_range(),
    {
        let mut projects: Vec<Project> = Vec::new();
        projects.push(Project { name: "luban".to_owned() });
        projects.push(Project { name: "scratch".to_owned() });
        let mut timeline: Vec<TimelineItem> = Vec::new();
        timeline.push(
            TimelineItem { title: "Scaffold project".to_owned(), status: TimelineStatus::Done },
        );
        timeline.push(
            TimelineItem { title: "Index workspace".to_owned(), status: TimelineStatus::Running },
        );
        timeline.push(
            TimelineItem { title: "Propose patch".to_owned(), status: TimelineStatus::Pending },
        );
        let out = AppState {
            projects,
            selected_project: 0,
            timeline,
            selected_timeline_item: 1,
            right_pane_tab: RightPaneTab::Diff,
        };
        assert(out.project_names() =~= seq!["luban"@, "scratch"@]);
        assert(out.timeline_entries() =~= seq![
            ("Scaffold project"@, TimelineStatus::Done),
            ("Index workspace"@, TimelineStatus::Running),
            ("Propose patch"@, TimelineStatus::Pending),
        ]);
        out
    }
}

} // verus!
