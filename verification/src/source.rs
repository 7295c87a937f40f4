//! Sources: the backlogs and iterations that the client can show.

use vstd::prelude::*;
use crate::cache_keys::{WorkItemsCacheKey, WorkItemsCacheKeyView};
use crate::config::{AppConfig, AppConfigView, BoardConfigView, IterationConfigView};

verus! {

/// Whether a source is a backlog or an iteration, and which iteration.
#[derive(Debug, PartialEq, Eq)]
pub enum SourceKind {
    Backlog,
    /// An iteration, by its path or name.
    Iteration(String),
}

/// The mathematical value of a [`SourceKind`].
pub enum SourceKindView {
    Backlog,
    Iteration(Seq<char>),
}

impl View for SourceKind {
    type V = SourceKindView;

    open spec fn view(&self) -> SourceKindView {
        match self {
            SourceKind::Backlog => SourceKindView::Backlog,
            SourceKind::Iteration(path) => SourceKindView::Iteration(path@),
        }
    }
}

/// One source of work items: a team's backlog or one of its iterations.
#[derive(Debug, PartialEq, Eq)]
pub struct Source {
    /// What the list view shows as its heading.
    pub title: String,
    pub organization: String,
    pub project: String,
    pub team: String,
    pub kind: SourceKind,
}

/// The mathematical value of a [`Source`].
pub struct SourceView {
    pub title: Seq<char>,
    pub organization: Seq<char>,
    pub project: Seq<char>,
    pub team: Seq<char>,
    pub kind: SourceKindView,
}

impl View for Source {
    type V = SourceView;

    open spec fn view(&self) -> SourceView {
        SourceView {
            title: self.title@,
            organization: self.organization@,
            project: self.project@,
            team: self.team@,
            kind: self.kind@,
        }
    }
}

impl DeepView for Source {
    type V = SourceView;

    open spec fn deep_view(&self) -> SourceView {
        self@
    }
}

impl Clone for Source {
    fn clone(&self) -> (r: Self)
        ensures
            r@ == self@,
    {
        Source {
            title: self.title.clone(),
            organization: self.organization.clone(),
            project: self.project.clone(),
            team: self.team.clone(),
            kind: match &self.kind {
                SourceKind::Backlog => SourceKind::Backlog,
                SourceKind::Iteration(path) => SourceKind::Iteration(path.clone()),
            },
        }
    }
}

/// The source for a configured backlog; its title is the team's name and
/// the word `Backlog`.
pub open spec fn backlog_source(board: BoardConfigView) -> SourceView {
    SourceView {
        title: board.team + " Backlog"@,
        organization: board.organization,
        project: board.project,
        team: board.team,
        kind: SourceKindView::Backlog,
    }
}

/// The source for a configured iteration; its title is the team's name, a
/// colon and the iteration.
pub open spec fn iteration_source(iteration: IterationConfigView) -> SourceView {
    SourceView {
        title: iteration.team + ": "@ + iteration.iteration,
        organization: iteration.organization,
        project: iteration.project,
        team: iteration.team,
        kind: SourceKindView::Iteration(iteration.iteration),
    }
}

/// The sources of a configuration: its backlogs, then its iterations.
pub open spec fn sources_of(config: AppConfigView) -> Seq<SourceView> {
    Seq::new(
        config.boards.len() + config.iterations.len(),
        |i: int|
            if i < config.boards.len() {
                backlog_source(config.boards[i])
            } else {
                iteration_source(config.iterations[i - config.boards.len()])
            },
    )
}

/// The cache key of the items of a source.
pub open spec fn work_items_key_of(source: SourceView) -> WorkItemsCacheKeyView {
    match source.kind {
        SourceKindView::Backlog => WorkItemsCacheKeyView::Backlog {
            organization: source.organization,
            project: source.project,
            team: source.team,
        },
        SourceKindView::Iteration(path) => WorkItemsCacheKeyView::Iteration {
            organization: source.organization,
            project: source.project,
            team: source.team,
            iteration: path,
        },
    }
}

/// Builds the sources of a configuration: its backlogs, then its iterations.
pub fn build_sources(config: &AppConfig) -> (sources: Vec<Source>)
    ensures
        sources.deep_view() == sources_of(config@),
{
    let mut sources: Vec<Source> = Vec::new();
    let mut i: usize = 0;
    while i < config.boards.len()
        invariant
            i <= config.boards@.len(),
            sources@.len() == i,
            forall|k: int| 0 <= k < i ==> sources@[k]@ == backlog_source(config.boards@[k]@),
        decreases config.boards@.len() - i,
    {
        let board = &config.boards[i];
        let mut title = board.team.clone();
        title.append(" Backlog");
        sources.push(
            Source {
                title,
                organization: board.organization.clone(),
                project: board.project.clone(),
                team: board.team.clone(),
                kind: SourceKind::Backlog,
            },
        );
        i += 1;
    }
    let mut j: usize = 0;
    while j < config.iterations.len()
        invariant
            j <= config.iterations@.len(),
            sources@.len() == config.boards@.len() + j,
            forall|k: int|
                0 <= k < config.boards@.len() ==> sources@[k]@ == backlog_source(
                    config.boards@[k]@,
                ),
            forall|k: int|
                0 <= k < j ==> sources@[config.boards@.len() + k]@ == iteration_source(
                    config.iterations@[k]@,
                ),
        decreases config.iterations@.len() - j,
    {
        let iteration = &config.iterations[j];
        let mut title = iteration.team.clone();
        title.append(": ");
        title.append(iteration.iteration.as_str());
        sources.push(
            Source {
                title,
                organization: iteration.organization.clone(),
                project: iteration.project.clone(),
                team: iteration.team.clone(),
                kind: SourceKind::Iteration(iteration.iteration.clone()),
            },
        );
        j += 1;
    }
    assert(sources.deep_view() =~= sources_of(config@)) by {
        assert forall|k: int| 0 <= k < sources@.len() implies sources.deep_view()[k] == sources_of(
            config@,
        )[k] by {
            if k < config.boards@.len() {
                assert(config.boards.deep_view()[k] == config.boards@[k]@);
            } else {
                let m = k - config.boards@.len();
                assert(sources@[config.boards@.len() + m]@ == iteration_source(
                    config.iterations@[m]@,
                ));
                assert(config.iterations.deep_view()[m] == config.iterations@[m]@);
            }
        }
    }
    sources
}

/// The cache key of the items of a source.
pub fn work_items_key(source: &Source) -> (key: WorkItemsCacheKey)
    ensures
        key@ == work_items_key_of(source@),
{
    match &source.kind {
        SourceKind::Backlog => WorkItemsCacheKey::Backlog {
            organization: source.organization.clone(),
            project: source.project.clone(),
            team: source.team.clone(),
        },
        SourceKind::Iteration(path) => WorkItemsCacheKey::Iteration {
            organization: source.organization.clone(),
            project: source.project.clone(),
            team: source.team.clone(),
            iteration: path.clone(),
        },
    }
}

} // verus!
