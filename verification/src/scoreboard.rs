//! Scoreboard bookkeeping: the objective and score records a world
//! broadcasts, and the registry guard that decides whether a broadcast goes
//! out. The packets themselves and the wire go through the caller; each
//! method here returns the record to broadcast, or `None` when its guard
//! stops it (the caller logs the warning).
use vstd::prelude::*;

verus! {

/// How a score renders on the sidebar.
#[derive(Clone, Copy, Debug, PartialEq, Eq, Structural)]
pub enum RenderType {
    Integer,
    Hearts,
}

/// An optional override of how a score's number is shown.
#[derive(Clone, Debug, PartialEq, Eq)]
pub enum NumberFormat {
    /// Show no number at all.
    Blank,
    /// Style the number with this style payload.
    Styled(String),
    /// Replace the number with this fixed text.
    Fixed(String),
}

/// A scoreboard objective: its registry name and its presentation.
#[derive(Debug, PartialEq, Eq)]
pub struct ScoreboardObjective {
    pub name: String,
    pub display_name: String,
    pub render_type: RenderType,
    pub number_format: Option<NumberFormat>,
}

impl ScoreboardObjective {
    pub fn new(
        name: String,
        display_name: String,
        render_type: RenderType,
        number_format: Option<NumberFormat>,
    ) -> (o: Self)
        ensures
            o == (ScoreboardObjective { name, display_name, render_type, number_format }),
    {
        Self { name, display_name, render_type, number_format }
    }
}

/// One entity's score under an objective.
#[derive(Debug, PartialEq, Eq)]
pub struct ScoreboardScore {
    pub entity_name: String,
    pub objective_name: String,
    pub value: i32,
    pub display_name: Option<String>,
    pub number_format: Option<NumberFormat>,
}

impl ScoreboardScore {
    pub fn new(
        entity_name: String,
        objective_name: String,
        value: i32,
        display_name: Option<String>,
        number_format: Option<NumberFormat>,
    ) -> (s: Self)
        ensures
            s == (ScoreboardScore {
                entity_name,
                objective_name,
                value,
                display_name,
                number_format,
            }),
    {
        Self { entity_name, objective_name, value, display_name, number_format }
    }
}

/// A world's scoreboard: the registered objectives the guards consult.
#[derive(Debug)]
pub struct Scoreboard {
    pub objectives: Vec<ScoreboardObjective>,
}

impl Scoreboard {
    /// Whether an objective of this name is registered.
    pub open spec fn spec_contains_objective(self, name: Seq<char>) -> bool {
        exists|i: int| 0 <= i < self.objectives@.len() && self.objectives@[i].name@ == name
    }

    pub fn new() -> (s: Self)
        ensures
            s.objectives@.len() == 0,
            forall|n: Seq<char>| !s.spec_contains_objective(n),
    {
        Self { objectives: Vec::new() }
    }

    /// Whether an objective of this name is registered.
    pub fn contains_objective(&self, name: &String) -> (found: bool)
        ensures
            found == self.spec_contains_objective(name@),
    {
        let mut i: usize = 0;
        while i < self.objectives.len()
            invariant
                i <= self.objectives@.len(),
                forall|j: int| 0 <= j < i ==> self.objectives@[j].name@ != name@,
            decreases self.objectives@.len() - i,
        {
            if self.objectives[i].name == *name {
                return true;
            }
            i += 1;
        }
        false
    }

    /// Announce a new objective. The announcement (an objective-add packet
    /// followed by a sidebar-display packet, both built from the returned
    /// record) goes out only when no objective of that name is registered;
    /// otherwise nothing is returned and the caller warns. The registry
    /// itself is left as it was.
    pub fn add_objective(&mut self, objective: ScoreboardObjective) -> (broadcast: Option<
        ScoreboardObjective,
    >)
        ensures
            *final(self) == *old(self),
            old(self).spec_contains_objective(objective.name@) ==> broadcast is None,
            !old(self).spec_contains_objective(objective.name@) ==> broadcast == Some(objective),
    {
        if self.contains_objective(&objective.name) {
            return None;
        }
        Some(objective)
    }

    /// Announce a score update. The guard admits a score — and the caller
    /// broadcasts the update packet built from the returned record — only
    /// when no objective of that name is registered; for a registered name
    /// nothing is returned and the caller warns.
    pub fn update_score(&self, score: ScoreboardScore) -> (broadcast: Option<ScoreboardScore>)
        ensures
            self.spec_contains_objective(score.objective_name@) ==> broadcast is None,
            !self.spec_contains_objective(score.objective_name@) ==> broadcast == Some(score),
    {
        if self.contains_objective(&score.objective_name) {
            return None;
        }
        Some(score)
    }
}

} // verus!
