use storyteller::narrative::{NarrativeState, SelectionError};
use storyteller::prompt::{continuation_prompt, opening_prompt, CONTINUATION_RULES, OPENING_FORMAT, OPENING_RULES, STORY_THEME};
use storyteller::render::{append_options_listing, health_bar_counts, health_bar_glyphs};
use storyteller::response::{decode_response, result_from_reply, GenerationResult};
use storyteller::session::{command_for_key, Action, Command, Phase, Session};
use storyteller::text::{append_decimal, append_repeated};

const DESERT: &str = r#"{"story":"You wake in a desert.","health":90,"options":["Walk north","Dig"]}"#;

fn listing(options: &[&str]) -> String {
    let mut s = String::new();
    let v: Vec<String> = options.iter().map(|o| o.to_string()).collect();
    append_options_listing(&mut s, &v);
    s
}

fn session_with_desert() -> Session {
    let mut session = Session::new();
    let action = session.handle_command(Command::Generate);
    assert!(matches!(action, Action::Dispatch(_)));
    assert!(session.complete(decode_response(DESERT)));
    session
}

#[test]
fn decimal_digits() {
    let mut s = String::from("n=");
    append_decimal(&mut s, 0);
    append_decimal(&mut s, 7);
    append_decimal(&mut s, 1234);
    append_decimal(&mut s, u64::MAX);
    assert_eq!(s, "n=07123418446744073709551615");
}

#[test]
fn repeated_pieces() {
    let mut s = String::from("<");
    append_repeated(&mut s, "ab", 3);
    append_repeated(&mut s, "x", 0);
    assert_eq!(s, "<ababab");
}

#[test]
fn decode_matching_response() {
    match decode_response(DESERT) {
        GenerationResult::Success { story, health, options } => {
            assert_eq!(story, "You wake in a desert.");
            assert_eq!(health, 90);
            assert_eq!(options, vec!["Walk north".to_string(), "Dig".to_string()]);
        }
        GenerationResult::Failure { .. } => panic!("expected a success"),
    }
}

#[test]
fn decode_ignores_extra_members() {
    let r = decode_response(r#"{"options":[],"health":0,"story":"","mood":"grim"}"#);
    match r {
        GenerationResult::Success { story, health, options } => {
            assert_eq!(story, "");
            assert_eq!(health, 0);
            assert!(options.is_empty());
        }
        GenerationResult::Failure { .. } => panic!("expected a success"),
    }
}

#[test]
fn decode_missing_options_fails() {
    let r = decode_response(r#"{"story":"You wake in a desert.","health":90}"#);
    assert!(matches!(r, GenerationResult::Failure { .. }));
}

#[test]
fn decode_wrong_types_fail() {
    for body in [
        r#"{"story":"s","health":"ninety","options":[]}"#,
        r#"{"story":"s","health":-5,"options":[]}"#,
        r#"{"story":"s","health":1.5,"options":[]}"#,
        r#"{"story":3,"health":1,"options":[]}"#,
        r#"{"story":"s","health":1,"options":["a",2]}"#,
        r#"{"story":"s","health":1,"options":"a"}"#,
        r#"[1,2,3]"#,
        "not json at all",
        "",
    ] {
        assert!(matches!(decode_response(body), GenerationResult::Failure { .. }), "{}", body);
    }
}

#[test]
fn transport_error_is_failure() {
    let r = result_from_reply(Err("connection refused".to_string()));
    match r {
        GenerationResult::Failure { reason } => assert_eq!(reason, "connection refused"),
        GenerationResult::Success { .. } => panic!("expected a failure"),
    }
    assert!(matches!(result_from_reply(Ok(DESERT.to_string())), GenerationResult::Success { .. }));
}

#[test]
fn health_bar_glyph_counts() {
    assert_eq!(health_bar_counts(100), (50, 0));
    assert_eq!(health_bar_counts(90), (45, 5));
    assert_eq!(health_bar_counts(0), (0, 50));
    assert_eq!(health_bar_counts(250), (50, 0));
    assert_eq!(health_bar_counts(91), (45, 4));
    for h in (0..=100u64).step_by(2) {
        let (filled, empty) = health_bar_counts(h);
        assert_eq!(filled + empty, 50);
    }
}

#[test]
fn health_bar_glyph_text() {
    let (filled, empty) = health_bar_glyphs(90);
    assert_eq!(filled, "\u{25a0}".repeat(45));
    assert_eq!(empty, "\u{25a1}".repeat(5));
}

#[test]
fn options_listing_is_numbered_and_coloured() {
    assert_eq!(
        listing(&["Walk north", "Dig"]),
        "\x1b[38;2;0;170;0m1: Walk north\n\x1b[39m\x1b[38;2;0;255;0m2: Dig\n\x1b[39m"
    );
    assert_eq!(listing(&["Run"]), "\x1b[38;2;0;254;0m1: Run\n\x1b[39m");
    assert_eq!(listing(&[]), "");
}

#[test]
fn prompts_embed_theme_and_story() {
    let p = opening_prompt(STORY_THEME);
    assert_eq!(p, format!("{}{}{}", OPENING_RULES, STORY_THEME, OPENING_FORMAT));
    assert!(p.contains("Theme: Short, janos alone in the desert\n"));
    let c = continuation_prompt("before\n");
    assert_eq!(c, format!("{}before\n", CONTINUATION_RULES));
}

#[test]
fn keys_map_to_commands() {
    assert_eq!(command_for_key('q'), Some(Command::Quit));
    assert_eq!(command_for_key('g'), Some(Command::Generate));
    assert_eq!(command_for_key('2'), Some(Command::Select(2)));
    assert_eq!(command_for_key('0'), Some(Command::Select(0)));
    assert_eq!(command_for_key('9'), Some(Command::Select(9)));
    assert_eq!(command_for_key('x'), None);
}

#[test]
fn fresh_state() {
    let s = NarrativeState::new();
    assert_eq!(s.story(), "");
    assert_eq!(s.health(), 100);
    assert!(s.options().is_empty());
}

#[test]
fn generate_from_fresh_state() {
    let session = session_with_desert();
    let n = session.narrative();
    let expected = format!("\nYou wake in a desert.\n\nOptions:\n{}", listing(&["Walk north", "Dig"]));
    assert_eq!(n.story(), expected);
    assert_eq!(n.health(), 90);
    assert_eq!(n.options(), &vec!["Walk north".to_string(), "Dig".to_string()]);
    assert_eq!(health_bar_counts(n.health()), (45, 5));
    assert_eq!(session.phase(), Phase::Idle);
}

#[test]
fn select_second_option() {
    let mut session = session_with_desert();
    let before = session.narrative().story().to_string();
    let action = session.handle_command(Command::Select(2));
    let story = session.narrative().story().to_string();
    assert_eq!(story, format!("{}You chose option 2: Dig\n", before));
    assert!(session.narrative().options().is_empty());
    assert_eq!(action, Action::Dispatch(format!("{}{}", CONTINUATION_RULES, story)));
    assert_eq!(session.phase(), Phase::AwaitingGeneration);
}

#[test]
fn select_out_of_range() {
    let mut session = session_with_desert();
    let before = session.narrative().story().to_string();
    assert_eq!(session.handle_command(Command::Select(5)), Action::Nothing);
    assert_eq!(session.narrative().story(), format!("{}Invalid option selected.\n", before));
    assert_eq!(session.narrative().options().len(), 2);
    assert_eq!(session.narrative().health(), 90);
    assert_eq!(session.phase(), Phase::Idle);
    assert_eq!(session.handle_command(Command::Select(0)), Action::Nothing);
}

#[test]
fn narrative_selection_results() {
    let mut s = NarrativeState::new();
    assert_eq!(s.apply_selection(1), Err(SelectionError::InvalidSelection));
    assert_eq!(s.story(), "Invalid option selected.\n");
    s.apply_generation_result(decode_response(DESERT));
    assert_eq!(s.apply_selection(1), Ok("Walk north".to_string()));
    assert!(s.options().is_empty());
    assert_eq!(s.health(), 90);
}

#[test]
fn failed_generation_keeps_state() {
    let mut session = session_with_desert();
    let before = session.narrative().story().to_string();
    assert!(matches!(session.handle_command(Command::Generate), Action::Dispatch(_)));
    assert!(session.complete(result_from_reply(Err("unreachable host".to_string()))));
    let n = session.narrative();
    assert_eq!(n.story(), format!("{}\n[ERROR: Failed to generate response]", before));
    assert_eq!(n.health(), 90);
    assert_eq!(n.options().len(), 2);
    assert_eq!(session.phase(), Phase::Idle);
}

#[test]
fn missing_options_is_failure() {
    let mut session = Session::new();
    session.handle_command(Command::Generate);
    let reply = Ok(r#"{"story":"You wake in a desert.","health":90}"#.to_string());
    assert!(session.complete(result_from_reply(reply)));
    let n = session.narrative();
    assert_eq!(n.story(), "\n[ERROR: Failed to generate response]");
    assert_eq!(n.health(), 100);
    assert!(n.options().is_empty());
}

#[test]
fn no_dispatch_while_awaiting() {
    let mut session = Session::new();
    assert!(matches!(session.handle_command(Command::Generate), Action::Dispatch(_)));
    assert_eq!(session.phase(), Phase::AwaitingGeneration);
    assert_eq!(session.handle_command(Command::Generate), Action::Nothing);
    assert_eq!(session.handle_command(Command::Select(1)), Action::Nothing);
    assert_eq!(session.handle_command(Command::Quit), Action::Nothing);
    assert!(!session.exited());
    assert_eq!(session.narrative().story(), "");
    assert_eq!(session.phase(), Phase::AwaitingGeneration);
    assert!(session.complete(decode_response(DESERT)));
    assert!(!session.complete(decode_response(DESERT)));
    assert_eq!(session.narrative().health(), 90);
}

#[test]
fn health_is_clamped_and_quit_exits() {
    let mut session = Session::new();
    session.handle_command(Command::Generate);
    session.complete(decode_response(r#"{"story":"Glow.","health":140,"options":[]}"#));
    let n = session.narrative();
    assert_eq!(n.health(), 100);
    assert_eq!(n.story(), "\nGlow.\n\nNo options available.\n");
    assert_eq!(session.handle_command(Command::Quit), Action::Exit);
    assert!(session.exited());
}
