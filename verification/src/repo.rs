//! What the dispatcher exchanges with the project/task repository.
//!
//! The repository itself is a collaborator outside this core: the
//! dispatcher hands out a [`RepoQuery`], the surrounding program performs
//! it, and the answer comes back as a [`RepoReply`].

use vstd::prelude::*;
use crate::ids::EntityId;

verus! {

/// A project, as the repository reports it.
#[derive(Debug, Clone)]
pub struct ProjectInfo {
    pub id: EntityId,
    pub name: String,
}

/// The workflow state of a task.
#[derive(Debug, Clone, Copy, PartialEq, Eq, Structural)]
pub enum TaskStatus {
    Todo,
    InProgress,
    InReview,
    Done,
    Cancelled,
}

/// A task, as the repository reports it.
#[derive(Debug, Clone)]
pub struct TaskInfo {
    pub id: EntityId,
    pub title: String,
    pub status: TaskStatus,
    pub description: Option<String>,
}

/// A question for the repository.
#[derive(Debug)]
pub enum RepoQuery {
    /// All projects.
    ListProjects,
    /// The project under this identifier, if any.
    FindProject(EntityId),
    /// The tasks of this project.
    FindTasks(EntityId),
    /// The task under this identifier, if any.
    FindTask(EntityId),
    /// Create a task with this fresh identifier, under this project, with
    /// this title and no description.
    CreateTask { project_id: EntityId, task_id: EntityId, title: String },
}

/// The repository's answer to a [`RepoQuery`].
#[derive(Debug)]
pub enum RepoReply {
    /// Answers `ListProjects`.
    Projects(Vec<ProjectInfo>),
    /// Answers `FindProject`.
    ProjectFound(Option<ProjectInfo>),
    /// Answers `FindTasks`.
    Tasks(Vec<TaskInfo>),
    /// Answers `FindTask`.
    TaskFound(Option<TaskInfo>),
    /// Answers `CreateTask`.
    TaskCreated(TaskInfo),
    /// Any query may instead fail; the text is the repository's own.
    RepoFailed(String),
}

} // verus!
