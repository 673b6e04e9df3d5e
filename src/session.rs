use vstd::prelude::*;
use crate::narrative::{generation_applied, selection_state_applied, valid_selection, NarrativeState};
use crate::prompt::{continuation_prompt, opening_prompt, CONTINUATION_RULES, OPENING_FORMAT, OPENING_RULES, STORY_THEME};
use crate::response::GenerationResult;

verus! {

/// What a key asks for.
#[derive(Debug, Clone, Copy, PartialEq, Eq, Structural)]
pub enum Command {
    Quit,
    Generate,
    Select(usize),
}

/// Whether the session waits for input or for a generation to finish.
#[derive(Debug, Clone, Copy, PartialEq, Eq, Structural)]
pub enum Phase {
    Idle,
    AwaitingGeneration,
}

/// What the caller has to do after a command.
#[derive(Debug, PartialEq, Eq)]
pub enum Action {
    Nothing,
    Exit,
    /// Send this prompt to the generation service, then hand the result to
    /// `Session::complete`.
    Dispatch(String),
}

/// `q` quits, `g` starts the story, a digit selects that option.
pub open spec fn key_command(key: char) -> Option<Command> {
    if key == 'q' {
        Some(Command::Quit)
    } else if key == 'g' {
        Some(Command::Generate)
    } else if '0' <= key <= '9' {
        Some(Command::Select((key as u32 - '0' as u32) as usize))
    } else {
        None
    }
}

/// The command that a pressed key stands for, if any.
pub fn command_for_key(key: char) -> (r: Option<Command>)
    ensures
        r == key_command(key),
{
    if key == 'q' {
        Some(Command::Quit)
    } else if key == 'g' {
        Some(Command::Generate)
    } else if '0' <= key && key <= '9' {
        Some(Command::Select((key as u32 - '0' as u32) as usize))
    } else {
        None
    }
}

pub open spec fn same_narrative(a: NarrativeState, b: NarrativeState) -> bool {
    &&& a.story_view() == b.story_view()
    &&& a.health_view() == b.health_view()
    &&& a.options_view() == b.options_view()
}

/// The game's control state: the narrative, whether a generation is
/// outstanding, and whether the player has quit.
pub struct Session {
    narrative: NarrativeState,
    phase: Phase,
    exited: bool,
}

impl Session {
    pub closed spec fn narrative_view(&self) -> NarrativeState {
        self.narrative
    }

    pub closed spec fn phase_view(&self) -> Phase {
        self.phase
    }

    pub closed spec fn exited_view(&self) -> bool {
        self.exited
    }

    pub open spec fn wf(&self) -> bool {
        self.narrative_view().wf()
    }

    /// A session at the start of a fresh game, waiting for input.
    pub fn new() -> (r: Session)
        ensures
            r.narrative_view().story_view() == Seq::<char>::empty(),
            r.narrative_view().health_view() == 100,
            r.narrative_view().options_view() == Seq::<Seq<char>>::empty(),
            r.phase_view() == Phase::Idle,
            !r.exited_view(),
            r.wf(),
    {
        Session { narrative: NarrativeState::new(), phase: Phase::Idle, exited: false }
    }

    pub fn narrative(&self) -> (r: &NarrativeState)
        ensures
            *r == self.narrative_view(),
    {
        &self.narrative
    }

    pub fn phase(&self) -> (r: Phase)
        ensures
            r == self.phase_view(),
    {
        self.phase
    }

    pub fn exited(&self) -> (r: bool)
        ensures
            r == self.exited_view(),
    {
        self.exited
    }

    /// Handles one command. While a generation is outstanding no command is
    /// taken, so no second request can be dispatched.
    pub fn handle_command(&mut self, command: Command) -> (a: Action)
        ensures
            final(self).wf() == old(self).wf(),
            old(self).phase_view() == Phase::AwaitingGeneration ==> {
                &&& a == Action::Nothing
                &&& final(self).phase_view() == Phase::AwaitingGeneration
                &&& final(self).exited_view() == old(self).exited_view()
                &&& same_narrative(final(self).narrative_view(), old(self).narrative_view())
            },
            old(self).phase_view() == Phase::Idle ==> match command {
                Command::Quit => {
                    &&& a == Action::Exit
                    &&& final(self).exited_view()
                    &&& final(self).phase_view() == Phase::Idle
                    &&& same_narrative(final(self).narrative_view(), old(self).narrative_view())
                },
                Command::Generate => {
                    &&& a matches Action::Dispatch(p)
                        && p@ == OPENING_RULES@ + STORY_THEME@ + OPENING_FORMAT@
                    &&& final(self).phase_view() == Phase::AwaitingGeneration
                    &&& final(self).exited_view() == old(self).exited_view()
                    &&& same_narrative(final(self).narrative_view(), old(self).narrative_view())
                },
                Command::Select(index) => {
                    &&& final(self).exited_view() == old(self).exited_view()
                    &&& selection_state_applied(old(self).narrative_view(), final(self).narrative_view(), index)
                    &&& valid_selection(old(self).narrative_view(), index as nat) ==> {
                        &&& a matches Action::Dispatch(p)
                            && p@ == CONTINUATION_RULES@ + final(self).narrative_view().story_view()
                        &&& final(self).phase_view() == Phase::AwaitingGeneration
                    }
                    &&& !valid_selection(old(self).narrative_view(), index as nat) ==> {
                        &&& a == Action::Nothing
                        &&& final(self).phase_view() == Phase::Idle
                    }
                },
            },
    {
        if self.phase == Phase::AwaitingGeneration {
            return Action::Nothing;
        }
        match command {
            Command::Quit => {
                self.exited = true;
                Action::Exit
            },
            Command::Generate => {
                let prompt = opening_prompt(STORY_THEME);
                self.phase = Phase::AwaitingGeneration;
                Action::Dispatch(prompt)
            },
            Command::Select(index) => {
                let chosen = self.narrative.apply_selection(index);
                match chosen {
                    Ok(_) => {
                        let prompt = continuation_prompt(self.narrative.story());
                        self.phase = Phase::AwaitingGeneration;
                        Action::Dispatch(prompt)
                    },
                    Err(_) => Action::Nothing,
                }
            },
        }
    }

    /// Applies the result of the outstanding generation and returns to
    /// waiting for input. With no generation outstanding nothing changes and
    /// `false` is returned.
    pub fn complete(&mut self, result: GenerationResult) -> (applied: bool)
        ensures
            applied == (old(self).phase_view() == Phase::AwaitingGeneration),
            applied ==> {
                &&& generation_applied(old(self).narrative_view(), final(self).narrative_view(), result)
                &&& final(self).phase_view() == Phase::Idle
            },
            !applied ==> {
                &&& same_narrative(final(self).narrative_view(), old(self).narrative_view())
                &&& final(self).phase_view() == old(self).phase_view()
            },
            final(self).exited_view() == old(self).exited_view(),
            old(self).wf() ==> final(self).wf(),
    {
        if self.phase == Phase::Idle {
            return false;
        }
        self.narrative.apply_generation_result(result);
        self.phase = Phase::Idle;
        true
    }
}

} // verus!
