use vstd::prelude::*;
use vstd::string::StringExecFns;
use crate::render::{append_options_listing, options_listing};
use crate::response::{strings_view, GenerationResult};
use crate::text::{append_decimal, decimal};

verus! {

/// Why a selection was refused: no pending option has that number.
#[derive(Debug, Clone, Copy, PartialEq, Eq, Structural)]
pub enum SelectionError {
    InvalidSelection,
}

pub open spec fn choice_echo(index: nat, option: Seq<char>) -> Seq<char> {
    "You chose option "@ + decimal(index) + ": "@ + option + "\n"@
}

pub open spec fn invalid_selection_marker() -> Seq<char> {
    "Invalid option selected.\n"@
}

pub open spec fn generation_error_marker() -> Seq<char> {
    "\n[ERROR: Failed to generate response]"@
}

/// What follows a story segment in the log: the numbered options, or a note
/// that there are none.
pub open spec fn options_trailer(options: Seq<Seq<char>>) -> Seq<char> {
    if options.len() > 0 {
        "\n\nOptions:\n"@ + options_listing(options)
    } else {
        "\n\nNo options available.\n"@
    }
}

/// Health as the state keeps it: the reported value clamped into `[0, 100]`.
pub open spec fn clamped_health(h: u64) -> u64 {
    if h > 100 { 100 } else { h }
}

/// Whether the option numbered `index` (from 1) is pending in `state`.
pub open spec fn valid_selection(state: NarrativeState, index: nat) -> bool {
    1 <= index <= state.options_view().len()
}

/// `after` is what applying the choice `index` to `before` leaves. A valid
/// choice is echoed into the story and clears the options; any other number
/// only adds a marker to the story. Health never changes.
pub open spec fn selection_state_applied(before: NarrativeState, after: NarrativeState, index: usize) -> bool {
    &&& after.health_view() == before.health_view()
    &&& valid_selection(before, index as nat) ==> {
        &&& after.story_view() == before.story_view() + choice_echo(
            index as nat,
            before.options_view()[index - 1],
        )
        &&& after.options_view() == Seq::<Seq<char>>::empty()
    }
    &&& !valid_selection(before, index as nat) ==> {
        &&& after.story_view() == before.story_view() + invalid_selection_marker()
        &&& after.options_view() == before.options_view()
    }
}

/// `after` and `r` are what applying the choice `index` to `before` gives:
/// the chosen option's text, or the refusal.
pub open spec fn selection_applied(
    before: NarrativeState,
    after: NarrativeState,
    index: usize,
    r: Result<String, SelectionError>,
) -> bool {
    &&& selection_state_applied(before, after, index)
    &&& valid_selection(before, index as nat) ==> r is Ok && r->Ok_0@ == before.options_view()[index - 1]
    &&& !valid_selection(before, index as nat) ==> r == Err::<String, SelectionError>(
        SelectionError::InvalidSelection,
    )
}

/// `after` is what applying `result` to `before` gives, as one step. A
/// success appends its segment and the options listing, sets health and
/// replaces the options; a failure appends an error marker and changes
/// nothing else.
pub open spec fn generation_applied(before: NarrativeState, after: NarrativeState, result: GenerationResult) -> bool {
    match result {
        GenerationResult::Success { story, health, options } => {
            &&& after.story_view() == before.story_view() + "\n"@ + story@ + options_trailer(
                strings_view(options@),
            )
            &&& after.health_view() == clamped_health(health)
            &&& after.options_view() == strings_view(options@)
        },
        GenerationResult::Failure { .. } => {
            &&& after.story_view() == before.story_view() + generation_error_marker()
            &&& after.health_view() == before.health_view()
            &&& after.options_view() == before.options_view()
        },
    }
}

/// The game's narrative: the story log, the character's health and the
/// options the player can choose from.
pub struct NarrativeState {
    story: String,
    health: u64,
    options: Vec<String>,
}

impl NarrativeState {
    pub closed spec fn story_view(&self) -> Seq<char> {
        self.story@
    }

    pub closed spec fn health_view(&self) -> u64 {
        self.health
    }

    pub closed spec fn options_view(&self) -> Seq<Seq<char>> {
        strings_view(self.options@)
    }

    /// Health stays within `[0, 100]`.
    pub open spec fn wf(&self) -> bool {
        self.health_view() <= 100
    }

    /// A fresh game: empty story, full health, no options.
    pub fn new() -> (r: NarrativeState)
        ensures
            r.story_view() == Seq::<char>::empty(),
            r.health_view() == 100,
            r.options_view() == Seq::<Seq<char>>::empty(),
            r.wf(),
    {
        let r = NarrativeState { story: String::new(), health: 100, options: Vec::new() };
        assert(strings_view(r.options@) =~= Seq::<Seq<char>>::empty());
        r
    }

    pub fn story(&self) -> (r: &str)
        ensures
            r@ == self.story_view(),
    {
        self.story.as_str()
    }

    pub fn health(&self) -> (r: u64)
        ensures
            r == self.health_view(),
    {
        self.health
    }

    pub fn options(&self) -> (r: &Vec<String>)
        ensures
            strings_view(r@) == self.options_view(),
    {
        &self.options
    }

    /// Applies the player's choice of the option numbered `index` (from 1).
    pub fn apply_selection(&mut self, index: usize) -> (r: Result<String, SelectionError>)
        ensures
            selection_applied(*old(self), *final(self), index, r),
    {
        if index >= 1 && index <= self.options.len() {
            let chosen = self.options[index - 1].clone();
            self.story.append("You chose option ");
            append_decimal(&mut self.story, index as u64);
            self.story.append(": ");
            self.story.append(chosen.as_str());
            self.story.append("\n");
            self.options.clear();
            assert(self.story@ =~= old(self).story@ + choice_echo(index as nat, old(self).options_view()[index - 1]));
            assert(strings_view(self.options@) =~= Seq::<Seq<char>>::empty());
            Ok(chosen)
        } else {
            self.story.append("Invalid option selected.\n");
            Err(SelectionError::InvalidSelection)
        }
    }

    /// Applies a finished generation as one step.
    pub fn apply_generation_result(&mut self, result: GenerationResult)
        ensures
            generation_applied(*old(self), *final(self), result),
            old(self).wf() ==> final(self).wf(),
    {
        match result {
            GenerationResult::Success { story, health, options } => {
                self.story.append("\n");
                self.story.append(story.as_str());
                if options.len() > 0 {
                    self.story.append("\n\nOptions:\n");
                    append_options_listing(&mut self.story, &options);
                } else {
                    self.story.append("\n\nNo options available.\n");
                }
                self.health = if health > 100 { 100 } else { health };
                self.options = options;
                assert(self.story@ =~= old(self).story@ + "\n"@ + story@ + options_trailer(strings_view(options@)));
            },
            GenerationResult::Failure { .. } => {
                self.story.append("\n[ERROR: Failed to generate response]");
            },
        }
    }
}

} // verus!
