//! What the panes of the window show.

use crate::ids::{ProjectId, WorkspaceId};
use vstd::prelude::*;

verus! {

#[derive(Clone, Copy, Debug, PartialEq, Eq, Structural)]
pub enum MainPane {
    Nothing,
    Dashboard,
    ProjectSettings(ProjectId),
    Workspace(WorkspaceId),
}

#[derive(Clone, Copy, Debug, PartialEq, Eq, Structural)]
pub enum RightPane {
    Nothing,
    Terminal,
}

#[derive(Clone, Copy, Debug, PartialEq, Eq, Structural)]
pub enum WorkspaceStatus {
    Active,
    Archived,
}

#[derive(Clone, Copy, Debug, PartialEq, Eq, Structural)]
pub enum OperationStatus {
    Idle,
    Running,
}


/// A workspace as the panes see it.
#[derive(Clone, Copy, Debug, PartialEq, Eq, Structural)]
pub struct WorkspaceEntry {
    pub id: WorkspaceId,
    pub status: WorkspaceStatus,
}

/// A project with its workspaces.
#[derive(Clone, Debug)]
pub struct ProjectEntry {
    pub id: ProjectId,
    pub workspaces: Vec<WorkspaceEntry>,
}

/// Whether `project` has the workspace `workspace_id`, and active.
pub open spec fn has_active_workspace(project: ProjectEntry, workspace_id: WorkspaceId) -> bool {
    exists|i: int|
        0 <= i < project.workspaces@.len() && (#[trigger] project.workspaces@[i]).status
            == WorkspaceStatus::Active && project.workspaces@[i].id == workspace_id
}

/// The first of `projects` that has the workspace `workspace_id`, and
/// active.
pub open spec fn project_of_workspace(projects: Seq<ProjectEntry>, workspace_id: WorkspaceId)
    -> Option<ProjectId>
    decreases projects.len(),
{
    if projects.len() == 0 {
        None
    } else if has_active_workspace(projects[0], workspace_id) {
        Some(projects[0].id)
    } else {
        project_of_workspace(projects.drop_first(), workspace_id)
    }
}

/// The project that the main pane is about: the one whose settings it
/// shows; the one of the workspace it shows, if that is active; the first
/// project where it shows neither.
pub open spec fn active_project(main_pane: MainPane, projects: Seq<ProjectEntry>) -> Option<
    ProjectId,
> {
    match main_pane {
        MainPane::ProjectSettings(project_id) => Some(project_id),
        MainPane::Workspace(workspace_id) => project_of_workspace(projects, workspace_id),
        MainPane::Dashboard | MainPane::Nothing => if projects.len() > 0 {
            Some(projects[0].id)
        } else {
            None
        },
    }
}

fn project_has_active(project: &ProjectEntry, workspace_id: WorkspaceId) -> (r: bool)
    ensures
        r == has_active_workspace(*project, workspace_id),
{
    let mut i: usize = 0;
    while i < project.workspaces.len()
        invariant
            i <= project.workspaces.len(),
            forall|j: int|
                0 <= j < i ==> !((#[trigger] project.workspaces@[j]).status
                    == WorkspaceStatus::Active && project.workspaces@[j].id == workspace_id),
        decreases project.workspaces.len() - i,
    {
        let w = project.workspaces[i];
        if w.status == WorkspaceStatus::Active && w.id == workspace_id {
            return true;
        }
        i = i + 1;
    }
    false
}

pub fn active_project_id(main_pane: MainPane, projects: &Vec<ProjectEntry>) -> (r: Option<
    ProjectId,
>)
    ensures
        r == active_project(main_pane, projects@),
{
    match main_pane {
        MainPane::ProjectSettings(project_id) => Some(project_id),
        MainPane::Workspace(workspace_id) => {
            let mut i: usize = 0;
            assert(projects@.skip(0) =~= projects@);
            while i < projects.len()
                invariant
                    i <= projects.len(),
                    main_pane == MainPane::Workspace(workspace_id),
                    project_of_workspace(projects@.skip(i as int), workspace_id)
                        == project_of_workspace(projects@, workspace_id),
                decreases projects.len() - i,
            {
                assert(projects@.skip(i as int).drop_first() =~= projects@.skip(i as int + 1));
                assert(projects@.skip(i as int)[0] == projects@[i as int]);
                if project_has_active(&projects[i], workspace_id) {
                    return Some(projects[i].id);
                }
                i = i + 1;
            }
            None
        },
        _ => {
            if projects.len() > 0 {
                Some(projects[0].id)
            } else {
                None
            }
        },
    }
}

/// What the side bar says of a workspace: its name, and its age behind a
/// dot where that is known.
pub fn sidebar_workspace_metadata(workspace_name: &str, age: Option<&str>) -> (text: String)
    ensures
        text@ == match age {
            Some(age) => workspace_name@ + " \u{b7} "@ + age@,
            None => workspace_name@,
        },
{
    let mut text = workspace_name.to_owned();
    if let Some(age) = age {
        text.append(" \u{b7} ");
        text.append(age);
    }
    text
}

} // verus!
