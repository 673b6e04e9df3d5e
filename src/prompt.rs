use vstd::prelude::*;
use vstd::string::StringExecFns;

verus! {

/// The theme of a new story.
pub const STORY_THEME: &'static str = "Short, janos alone in the desert";

/// The rules for a new story, up to the theme.
pub const OPENING_RULES: &'static str = "You are an interactive story generator for an AI game. ¸\nTheme: ";

/// The rules for a new story, after the theme.
pub const OPENING_FORMAT: &'static str = "\nGenerate a story that follows this structure:\n\n1. Story & Setting:\n- Create a vivid, immersive narrative based on the theme.\n- Introduce the main character and the world they’re in.\n- The story at the beginning should be a minimum of 3 and a maximum of 6 sentences long.\n\n2. Health Bar Mechanic:\n- The main character starts with a full health bar (e.g., 100).\n- Throughout the story, include events that either damage or heal them.\n- Clearly indicate all health changes.\n\n3. Decision Point:\n- End the story with a moment where the player must choose between at least two actions.\n- List each option clearly, and briefly explain the outcome and health impact.\n- If the health bar drops to 0, the character dies and the game ends.\n\nOutput format:\n- Story: The full narrative leading up to the decision.\n- Health: The current health value and how it changed.\n- Choices: A structured list of available decisions with consequences";

/// The rules for continuing a story, followed by the story so far.
pub const CONTINUATION_RULES: &'static str = "You are an interactive story generator for an AI game that continues from previous decisions. Generate the next part of the story based on the player’s last choice and previous events. Follow this structure:\n\n1. Continue the Story:\n- Use the previous story, healthpoints and the player’s selected option.\n- Write a new story segment (3 to 6 sentences long) that logically follows from the decision.\n- Include the direct consequences of the player’s decision in this segment (e.g., gained an item, took damage, found something hidden).\n\n2. Health Bar Mechanic:\n- The character’s health should only be influenced by the player’s choices.\n- Reflect any health gain or loss that resulted from the previous decision.\n- Update and display the health bar before presenting the next decision.\n\n3. Decision Point:\n- Present at least two new choices for the player.\n- List each option clearly and explain the expected outcome and its impact on the character’s health.\n- Do not continue the story after presenting the choices — stop and wait for the player to select an option.\n- If the health bar reaches 0, the character dies and the game ends.\n\nOutput format:\n- Story: A 3–6 sentence narrative that reflects the last decision and sets up the next choice.\n- Health: The current health value and how it changed (e.g., Health: 75 (-10)).\n- Choices: A structured list of new available decisions with consequences and health impact. This what happened previously with the players choises: \n\n ";

/// The request that opens a new story on `theme`.
pub fn opening_prompt(theme: &str) -> (r: String)
    ensures
        r@ == OPENING_RULES@ + theme@ + OPENING_FORMAT@,
{
    let mut r = String::from_str(OPENING_RULES);
    r.append(theme);
    r.append(OPENING_FORMAT);
    r
}

/// The request that continues `story` after the player's latest choice,
/// which the story already records.
pub fn continuation_prompt(story: &str) -> (r: String)
    ensures
        r@ == CONTINUATION_RULES@ + story@,
{
    let mut r = String::from_str(CONTINUATION_RULES);
    r.append(story);
    r
}

} // verus!
