//! The prompts sent to the small local models.  All are short, lean on
//! examples, and ask for short outputs; each is the fixed template with the
//! caller's text spliced in.

use vstd::prelude::*;

verus! {

/// The few-shot prompt asking for a goal list in the
/// `N. description | criteria` format.
pub fn decomposition_prompt(command: &str) -> (r: String)
    ensures
        r@ == "Break command into goals. FORMAT: \"N. what to do | how to know it worked\"\n\nIMPORTANT: Always use | as separator, NOT - or :\n\nCommand: open safari\nGoals:\n1. Open Safari browser | Safari window is visible\n\nCommand: open chrome and search for rust\nGoals:\n1. Open Chrome browser | Chrome window is visible\n2. Focus URL bar | Cursor is in URL bar\n3. Type \"rust\" | Text appears in URL bar\n4. Press Enter | Search results page loads\n\nCommand: check slack and read messages from John\nGoals:\n1. Open Slack | Slack window is visible\n2. Find John's messages | John's message is visible on screen\n\nCommand: open messages and see what mom said\nGoals:\n1. Open Messages | Messages app is visible\n2. Find conversation with mom | Mom's conversation is shown\n\nCommand: "@
            + command@ + "\nGoals:\n"@,
{
    String::from_str(
        "Break command into goals. FORMAT: \"N. what to do | how to know it worked\"\n\nIMPORTANT: Always use | as separator, NOT - or :\n\nCommand: open safari\nGoals:\n1. Open Safari browser | Safari window is visible\n\nCommand: open chrome and search for rust\nGoals:\n1. Open Chrome browser | Chrome window is visible\n2. Focus URL bar | Cursor is in URL bar\n3. Type \"rust\" | Text appears in URL bar\n4. Press Enter | Search results page loads\n\nCommand: check slack and read messages from John\nGoals:\n1. Open Slack | Slack window is visible\n2. Find John's messages | John's message is visible on screen\n\nCommand: open messages and see what mom said\nGoals:\n1. Open Messages | Messages app is visible\n2. Find conversation with mom | Mom's conversation is shown\n\nCommand: ",
    ).concat(command).concat("\nGoals:\n")
}

/// The prompt asking the vision model to describe the screen.
pub fn screen_description_prompt(goal_context: &str) -> (r: String)
    ensures
        r@ == "Look at this screen. Describe in 2-3 sentences:\n1. What app/window is shown\n2. Notable UI elements (buttons, text fields, menus)\n3. What could be clicked or typed\n\nGoal context: "@
            + goal_context@ + "\n\nDescription:"@,
{
    String::from_str(
        "Look at this screen. Describe in 2-3 sentences:\n1. What app/window is shown\n2. Notable UI elements (buttons, text fields, menus)\n3. What could be clicked or typed\n\nGoal context: ",
    ).concat(goal_context).concat("\n\nDescription:")
}

/// The prompt asking for the next atomic action, rule-driven, with the goal
/// spliced in twice.
pub fn action_decision_prompt(
    goal: &str,
    success_criteria: &str,
    screen_description: &str,
    recent_actions: &str,
) -> (r: String)
    ensures
        r@ == "Pick ONE action. Output ONLY the action, nothing else.\n\nGoal: "@ + goal@
            + "\n\nActions:\nopen APP, click X Y, type \"TEXT\", key KEY, key MOD+KEY, wait MS\n\nRules:\n- \"Type search query: X\" -> type \"X\" (extract X, use exact text)\n- \"Focus URL bar\" -> key CMD+L\n- \"Execute search\" or \"Submit\" -> key return\n- \"Open X\" -> open X\n\nExamples:\nGoal: Open Safari -> open Safari\nGoal: Focus URL bar -> key CMD+L\nGoal: Type search query: rust -> type \"rust\"\nGoal: Type search query: hello world -> type \"hello world\"\nGoal: Execute search -> key return\nGoal: Submit search -> key return\n\nGoal: "@
            + goal@ + " ->"@,
{
    String::from_str("Pick ONE action. Output ONLY the action, nothing else.\n\nGoal: ").concat(
        goal,
    ).concat(
        "\n\nActions:\nopen APP, click X Y, type \"TEXT\", key KEY, key MOD+KEY, wait MS\n\nRules:\n- \"Type search query: X\" -> type \"X\" (extract X, use exact text)\n- \"Focus URL bar\" -> key CMD+L\n- \"Execute search\" or \"Submit\" -> key return\n- \"Open X\" -> open X\n\nExamples:\nGoal: Open Safari -> open Safari\nGoal: Focus URL bar -> key CMD+L\nGoal: Type search query: rust -> type \"rust\"\nGoal: Type search query: hello world -> type \"hello world\"\nGoal: Execute search -> key return\nGoal: Submit search -> key return\n\nGoal: ",
    ).concat(goal).concat(" ->")
}

/// The before/after comparison prompt whose answer the verdict grammar
/// reads.
pub fn verification_prompt(
    goal: &str,
    success_criteria: &str,
    before_description: &str,
    after_description: &str,
) -> (r: String)
    ensures
        r@ == "Did the action achieve the goal?\n\nGoal: "@ + goal@ + "\nSuccess means: "@
            + success_criteria@ + "\nBefore: "@ + before_description@ + "\nAfter: "@
            + after_description@
            + "\n\nAnswer format:\nACHIEVED or NOT_ACHIEVED\nPROGRESS or NO_PROGRESS\nBrief observation (10 words max)\n\nAnswer:"@,
{
    String::from_str("Did the action achieve the goal?\n\nGoal: ").concat(goal).concat(
        "\nSuccess means: ",
    ).concat(success_criteria).concat("\nBefore: ").concat(before_description).concat(
        "\nAfter: ",
    ).concat(after_description).concat(
        "\n\nAnswer format:\nACHIEVED or NOT_ACHIEVED\nPROGRESS or NO_PROGRESS\nBrief observation (10 words max)\n\nAnswer:",
    )
}

/// The prompt asking the vision model for an element's centre coordinates.
pub fn find_element_prompt(element_description: &str) -> (r: String)
    ensures
        r@ == "Find the "@ + element_description@
            + " on this screen.\nOutput ONLY x,y coordinates of its center.\nExample: 640, 360\n\nCoordinates:"@,
{
    String::from_str("Find the ").concat(element_description).concat(
        " on this screen.\nOutput ONLY x,y coordinates of its center.\nExample: 640, 360\n\nCoordinates:",
    )
}

} // verus!
