use discord_cli::browser::{Action, Reply, ReplyKind, ScrollInfo, Step};
use discord_cli::error::AppError;
use discord_cli::navigate::navigate;
use discord_cli::script::{
    make_channel_click_script, make_navigate_scroll_script, make_server_switch_script, quote,
    CHANNEL_LIST_SCROLL_INFO, SERVER_SWITCH_HEAD,
};

fn status(s: &str) -> Reply {
    Reply::Status(s.to_string())
}

#[test]
fn nothing_to_navigate() {
    let (nav, step) = navigate("", "");
    assert_eq!(step, Step::Finish(Ok(())));
    assert_eq!(nav.pending(), None);
}

#[test]
fn quote_escapes_json() {
    assert_eq!(quote("General"), "\"General\"");
    assert_eq!(quote("a\"b\\c"), "\"a\\\"b\\\\c\"");
    assert_eq!(quote("line\nbreak"), "\"line\\nbreak\"");
    assert_eq!(quote("\u{1}"), "\"\\u0001\"");
    assert_eq!(quote("\u{1f}"), "\"\\u001f\"");
    assert_eq!(quote("\u{8}\t\u{c}\r"), "\"\\b\\t\\f\\r\"");
    assert_eq!(quote("caf\u{e9} \u{7f}/"), "\"caf\u{e9} \u{7f}/\"");
    let script = make_server_switch_script("Story");
    assert!(script.starts_with(SERVER_SWITCH_HEAD));
    assert!(script.ends_with("})(\"Story\"))"));
}

#[test]
fn scroll_script_embeds_position() {
    let s = make_navigate_scroll_script(1200);
    assert!(s.contains("all[i].scrollTop = 1200; break;"));
}

#[test]
fn server_not_found_is_an_error() {
    let (mut nav, step) = navigate("Story", "general");
    assert_eq!(step, Step::Act(Action::EvalStatus(make_server_switch_script("Story"))));
    assert_eq!(nav.pending(), Some(ReplyKind::Status));
    let step = nav.resume(status("not_found"));
    assert_eq!(step, Step::Finish(Err(AppError::InvalidParams("server not found: Story".to_string()))));
}

#[test]
fn server_switch_waits_then_clicks_channel() {
    let (mut nav, _) = navigate("Story", "general");
    assert_eq!(nav.resume(status("switched")), Step::Act(Action::Wait(1000)));
    assert_eq!(nav.resume(Reply::Done), Step::Act(Action::EvalStatus(make_channel_click_script("general"))));
    assert_eq!(nav.resume(status("switched")), Step::Finish(Ok(())));
}

#[test]
fn already_on_server_goes_straight_to_channel() {
    let (mut nav, _) = navigate("Story", "general");
    assert_eq!(nav.resume(status("already_on")), Step::Act(Action::EvalStatus(make_channel_click_script("general"))));
}

#[test]
fn server_only() {
    let (mut nav, _) = navigate("Story", "");
    assert_eq!(nav.resume(status("already_on")), Step::Finish(Ok(())));
}

#[test]
fn channel_search_scrolls_until_past_the_end() {
    let (mut nav, step) = navigate("", "general");
    assert_eq!(step, Step::Act(Action::EvalStatus(make_channel_click_script("general"))));
    assert_eq!(nav.resume(status("not_found")), Step::Act(Action::EvalScroll(CHANNEL_LIST_SCROLL_INFO.to_string())));
    assert_eq!(nav.pending(), Some(ReplyKind::Scroll));
    let step = nav.resume(Reply::Scroll(ScrollInfo { scroll_height: 1000, client_height: 300 }));
    assert_eq!(step, Step::Act(Action::Wait(300)));
    // positions 300, 600, 900, 1200: each below 1000 + 300
    let mut positions = Vec::new();
    let mut step = nav.resume(Reply::Done);
    loop {
        match step {
            Step::Act(Action::Eval(script)) => {
                positions.push(script);
                assert_eq!(nav.resume(Reply::Done), Step::Act(Action::Wait(300)));
                assert_eq!(nav.resume(Reply::Done), Step::Act(Action::EvalStatus(make_channel_click_script("general"))));
                step = nav.resume(status("not_found"));
            }
            Step::Finish(r) => {
                assert_eq!(r, Err(AppError::InvalidParams("channel not found: general".to_string())));
                break;
            }
            other => panic!("unexpected step {:?}", other),
        }
    }
    let expected: Vec<String> = [300u64, 600, 900, 1200].iter().map(|p| make_navigate_scroll_script(*p)).collect();
    assert_eq!(positions, expected);
}

#[test]
fn small_step_is_raised_to_two_hundred() {
    let (mut nav, _) = navigate("", "x");
    nav.resume(status("not_found"));
    nav.resume(Reply::Scroll(ScrollInfo { scroll_height: 350, client_height: 100 }));
    assert_eq!(nav.resume(Reply::Done), Step::Act(Action::Eval(make_navigate_scroll_script(200))));
    nav.resume(Reply::Done);
    nav.resume(Reply::Done);
    assert_eq!(nav.resume(status("not_found")), Step::Act(Action::Eval(make_navigate_scroll_script(400))));
    nav.resume(Reply::Done);
    nav.resume(Reply::Done);
    assert_eq!(nav.resume(status("switched")), Step::Finish(Ok(())));
}

#[test]
fn list_that_fits_means_not_found() {
    let (mut nav, _) = navigate("", "x");
    nav.resume(status("not_found"));
    nav.resume(Reply::Scroll(ScrollInfo { scroll_height: 300, client_height: 300 }));
    assert_eq!(nav.resume(Reply::Done), Step::Finish(Err(AppError::InvalidParams("channel not found: x".to_string()))));
}

#[test]
fn browser_failure_ends_navigation() {
    let (mut nav, _) = navigate("Story", "");
    let failure = AppError::Browser("timeout".to_string());
    assert_eq!(nav.resume(Reply::Failed(failure.duplicate())), Step::Finish(Err(failure)));
    assert_eq!(nav.pending(), None);
}
