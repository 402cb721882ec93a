//! Decisions the screens take between frames: when the score board has to
//! be reloaded, and when the challenge-info screen has to look up new
//! instructions.

use vstd::prelude::*;
use crate::challenges::{instructions_in, ChallengeCollection};
use crate::fetchers::{is_fresh, send_step, Command, Method, Requestor};
use crate::text::join3;

verus! {

/// Followed by the challenge's scoring-table key.
pub const SCORES_PATH: &'static str = "api/game/scores/";

/// Column the score board is sorted by unless another is chosen.
pub const DEFAULT_SORT_COLUMN: &'static str = "time";

#[derive(Debug, Clone, Copy, PartialEq, Eq, Structural)]
pub enum FilterOption {
    All,
    UniquePlayers,
    UniqueLanguage,
}

/// What the user picked on the score board, and what the shown scores were
/// loaded for.
pub struct ScoreSelection {
    pub selected_challenge: String,
    pub filter: FilterOption,
    pub sort_column: String,
    pub active_challenge: Option<String>,
    pub active_filter: FilterOption,
    pub active_sort_column: String,
}

/// The scores on show were loaded for something other than what is picked.
pub open spec fn selection_differs(s: ScoreSelection) -> bool {
    ||| s.active_challenge is None
    ||| s.active_challenge->0@ != s.selected_challenge@
    ||| s.active_filter != s.filter
    ||| s.active_sort_column@ != s.sort_column@
}

impl ScoreSelection {
    pub fn new() -> (r: ScoreSelection)
        ensures
            r.selected_challenge@.len() == 0,
            r.filter == FilterOption::All,
            r.sort_column@ == DEFAULT_SORT_COLUMN@,
            r.active_challenge is None,
            r.active_filter == FilterOption::All,
            r.active_sort_column@ == DEFAULT_SORT_COLUMN@,
    {
        ScoreSelection {
            selected_challenge: String::new(),
            filter: FilterOption::All,
            sort_column: DEFAULT_SORT_COLUMN.to_owned(),
            active_challenge: None,
            active_filter: FilterOption::All,
            active_sort_column: DEFAULT_SORT_COLUMN.to_owned(),
        }
    }

    /// Whether the scores must be reloaded; when they must, what is picked
    /// becomes what is on show.
    pub fn check_for_reload(&mut self) -> (r: bool)
        ensures
            r == selection_differs(*old(self)),
            r ==> {
                &&& final(self).active_challenge matches Some(c) && c@ == old(self).selected_challenge@
                &&& final(self).active_filter == old(self).filter
                &&& final(self).active_sort_column@ == old(self).sort_column@
                &&& final(self).selected_challenge == old(self).selected_challenge
                &&& final(self).filter == old(self).filter
                &&& final(self).sort_column == old(self).sort_column
                &&& !selection_differs(*final(self))
            },
            !r ==> *final(self) == *old(self),
    {
        let challenges_differ = match &self.active_challenge {
            None => true,
            Some(active) => *active != self.selected_challenge,
        };
        if challenges_differ || self.active_filter != self.filter || self.active_sort_column != self.sort_column {
            self.active_challenge = Some(self.selected_challenge.clone());
            self.active_filter = self.filter;
            self.active_sort_column = self.sort_column.clone();
            return true;
        }
        false
    }
}

impl Default for ScoreSelection {
    fn default() -> (r: ScoreSelection)
        ensures
            r.selected_challenge@.len() == 0,
            r.active_challenge is None,
    {
        ScoreSelection::new()
    }
}

/// A requestor that has sent the GET of the scores in `table` to the
/// backend at `base`.
pub fn scores_request(base: &str, table: &str) -> (r: Requestor)
    ensures
        r.url@ == base@ + SCORES_PATH@ + table@,
        r.with_credentials,
        r.method == Method::Get,
        r.body is Empty,
        is_fresh(Requestor { command: Command::Idle, request_in_flight: false, ..r }),
        r == send_step(Requestor { command: Command::Idle, request_in_flight: false, ..r }),
{
    let url = join3(base, SCORES_PATH, table);
    let mut getter = Requestor::new_get(url.as_str(), true);
    getter.send();
    getter
}

/// The challenge-info screen: the challenge picked, the one whose
/// instructions are on show, and those instructions.
pub struct InstructionsView {
    pub selected_challenge: String,
    pub active_challenge: Option<String>,
    pub instructions: String,
}

impl InstructionsView {
    pub fn new() -> (r: InstructionsView)
        ensures
            r.selected_challenge@.len() == 0,
            r.active_challenge is None,
            r.instructions@ == "None"@,
    {
        InstructionsView { selected_challenge: String::new(), active_challenge: None, instructions: "None".to_owned() }
    }

    /// Looks the instructions up again when the pick has changed since the
    /// last lookup (or no lookup was made). The result says whether it did.
    pub fn update(&mut self, collection: &ChallengeCollection) -> (r: bool)
        ensures
            r == (old(self).active_challenge matches Some(a) ==> a@ != old(self).selected_challenge@),
            r ==> {
                &&& final(self).selected_challenge == old(self).selected_challenge
                &&& final(self).active_challenge matches Some(a) && a@ == old(self).selected_challenge@
                &&& final(self).instructions@ == instructions_in(collection.items@, old(self).selected_challenge@)
            },
            !r ==> *final(self) == *old(self),
    {
        let differs = match &self.active_challenge {
            None => true,
            Some(active) => *active != self.selected_challenge,
        };
        if differs {
            self.active_challenge = Some(self.selected_challenge.clone());
            self.instructions = collection.instructions_for_command(self.selected_challenge.as_str());
        }
        differs
    }

    /// Forgets the last lookup, so the next update looks the instructions up again.
    pub fn reload(&mut self)
        ensures
            *final(self) == (InstructionsView { active_challenge: None, ..*old(self) }),
    {
        self.active_challenge = None;
    }
}

} // verus!
