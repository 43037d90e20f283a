use discord_cli::browser::{
    Action, MemberItem, RawChannel, RawMessage, Reply, ReplyKind, ScrollInfo, SearchResultItem, ServerItem, StatusLine,
    Step,
};
use discord_cli::channels::ChannelRow;
use discord_cli::error::AppError;
use discord_cli::executor::{CommandExecutor, Dispatch};
use discord_cli::manifest::command_specs;
use discord_cli::params::{ParamValue, Params};
use discord_cli::read::MessageRow;
use discord_cli::registry::CommandRegistry;
use discord_cli::script::{
    make_channel_click_script, make_channels_scroll_script, make_messages_scroll_script, make_search_type_script,
    make_send_insert_script, make_server_switch_script, CHANNELS_COLLECT, CHANNEL_LIST_SCROLL_INFO, MESSAGES_COLLECT,
    MESSAGES_SCROLL_BOTTOM, MESSAGES_SCROLL_INFO, SEARCH_CLOSE, SEARCH_OPEN, SEARCH_SCRAPE, SEARCH_SUBMIT, SEND_SUBMIT,
};
use discord_cli::{channels, members, open, read, search, send, servers, status, switch};

fn params(entries: Vec<(&str, ParamValue)>) -> Params {
    Params { entries: entries.into_iter().map(|(k, v)| (k.to_string(), v)).collect() }
}

fn text(s: &str) -> ParamValue {
    ParamValue::Text(s.to_string())
}

fn msg(author: &str, time: &str, message: &str) -> RawMessage {
    RawMessage { author: Some(author.to_string()), time: Some(time.to_string()), message: Some(message.to_string()) }
}

fn row(author: &str, time: &str, message: &str) -> MessageRow {
    MessageRow { author: author.to_string(), time: time.to_string(), message: message.to_string() }
}

fn chan(name: Option<&str>, kind: Option<&str>) -> RawChannel {
    RawChannel { channel: name.map(|s| s.to_string()), kind: kind.map(|s| s.to_string()) }
}

// --- read ------------------------------------------------------------------

#[test]
fn read_collects_newest_first_without_duplicates() {
    let p = params(vec![("count", ParamValue::Unsigned(2))]);
    let (mut read, step) = read::execute(&p);
    assert_eq!(step, Step::Act(Action::EvalScroll(MESSAGES_SCROLL_INFO.to_string())));
    assert_eq!(read.pending(), Some(ReplyKind::Scroll));
    assert_eq!(read.resume(Reply::Scroll(ScrollInfo { scroll_height: 0, client_height: 0 })), Step::Act(Action::Wait(300)));
    assert_eq!(read.resume(Reply::Done), Step::Act(Action::EvalMessages(MESSAGES_COLLECT.to_string())));
    let batch = vec![
        msg("ann", "t1", "hello"),
        msg("bob", "t2", "hi"),
        msg("ann", "t1", "hello"),
        msg("cid", "t3", ""),
        RawMessage { author: None, time: None, message: Some("anon".to_string()) },
    ];
    match read.resume(Reply::Messages(batch)) {
        Step::Finish(Ok(m)) => assert_eq!(m.rows, vec![row("", "", "anon"), row("bob", "t2", "hi")]),
        other => panic!("unexpected {:?}", other),
    }
}

#[test]
fn read_defaults_to_twenty_and_reports_nothing_found() {
    let (mut read, _) = read::execute(&params(vec![]));
    read.resume(Reply::Scroll(ScrollInfo { scroll_height: 0, client_height: 0 }));
    read.resume(Reply::Done);
    match read.resume(Reply::Messages(vec![])) {
        Step::Finish(Ok(m)) => {
            assert_eq!(m.rows, vec![row("System", "", "No messages found in the current channel.")])
        }
        other => panic!("unexpected {:?}", other),
    }
}

#[test]
fn read_scrolls_up_through_the_list() {
    let (mut read, _) = read::execute(&params(vec![("count", ParamValue::Unsigned(20))]));
    read.resume(Reply::Scroll(ScrollInfo { scroll_height: 1000, client_height: 400 }));
    read.resume(Reply::Done);
    assert_eq!(read.resume(Reply::Messages(vec![msg("a", "1", "x")])), Step::Act(Action::Eval(MESSAGES_SCROLL_BOTTOM.to_string())));
    assert_eq!(read.resume(Reply::Done), Step::Act(Action::Wait(500)));
    // step is max(400, 300) = 400: positions 1000, 600, 200, then stop since 200 <= 400
    let mut positions = Vec::new();
    let mut step = read.resume(Reply::Done);
    let mut n = 0;
    loop {
        match step {
            Step::Act(Action::Eval(script)) => {
                positions.push(script);
                assert_eq!(read.resume(Reply::Done), Step::Act(Action::Wait(400)));
                assert_eq!(read.resume(Reply::Done), Step::Act(Action::EvalMessages(MESSAGES_COLLECT.to_string())));
                n += 1;
                step = read.resume(Reply::Messages(vec![msg("a", &n.to_string(), "y")]));
            }
            Step::Finish(Ok(m)) => {
                assert_eq!(m.rows.len(), 4);
                assert_eq!(m.rows[0], row("a", "3", "y"));
                assert_eq!(m.rows[3], row("a", "1", "x"));
                break;
            }
            other => panic!("unexpected {:?}", other),
        }
    }
    let expected: Vec<String> = [1000u64, 600, 200].iter().map(|p| make_messages_scroll_script(*p)).collect();
    assert_eq!(positions, expected);
}

#[test]
fn read_stops_scrolling_once_enough_messages() {
    let (mut read, _) = read::execute(&params(vec![("count", ParamValue::Unsigned(1))]));
    read.resume(Reply::Scroll(ScrollInfo { scroll_height: 1000, client_height: 100 }));
    read.resume(Reply::Done);
    read.resume(Reply::Messages(vec![msg("a", "1", "x"), msg("b", "2", "y")]));
    read.resume(Reply::Done);
    // two messages known, not fewer than 2 * 1: no scrolling up
    match read.resume(Reply::Done) {
        Step::Finish(Ok(m)) => assert_eq!(m.rows, vec![row("b", "2", "y")]),
        other => panic!("unexpected {:?}", other),
    }
}

#[test]
fn read_with_zero_count() {
    let (mut read, _) = read::execute(&params(vec![("count", ParamValue::Unsigned(0))]));
    read.resume(Reply::Scroll(ScrollInfo { scroll_height: 0, client_height: 0 }));
    read.resume(Reply::Done);
    match read.resume(Reply::Messages(vec![msg("a", "1", "x")])) {
        Step::Finish(Ok(m)) => assert_eq!(m.rows, vec![row("System", "", "No messages found in the current channel.")]),
        other => panic!("unexpected {:?}", other),
    }
}

#[test]
fn read_switches_first_and_fails_with_navigation() {
    let p = params(vec![("server", text("Nowhere"))]);
    let (mut read, step) = read::execute(&p);
    assert_eq!(step, Step::Act(Action::EvalStatus(make_server_switch_script("Nowhere"))));
    assert_eq!(read.resume(Reply::Status("not_found".to_string())), Step::Finish(Err(AppError::InvalidParams("server not found: Nowhere".to_string()))));
}

// --- channels ----------------------------------------------------------------

#[test]
fn channels_lists_each_name_once() {
    let (mut c, step) = channels::execute();
    assert_eq!(step, Step::Act(Action::EvalScroll(CHANNEL_LIST_SCROLL_INFO.to_string())));
    c.resume(Reply::Scroll(ScrollInfo { scroll_height: 500, client_height: 300 }));
    assert_eq!(c.resume(Reply::Done), Step::Act(Action::EvalChannels(CHANNELS_COLLECT.to_string())));
    let step = c.resume(Reply::Channels(vec![chan(Some("general"), Some("Text")), chan(Some("voice"), Some("Voice")), chan(None, None)]));
    assert_eq!(step, Step::Act(Action::Eval(make_channels_scroll_script(300))));
    c.resume(Reply::Done);
    c.resume(Reply::Done);
    let step = c.resume(Reply::Channels(vec![chan(Some("general"), Some("Text")), chan(Some("news"), None)]));
    assert_eq!(step, Step::Act(Action::Eval(make_channels_scroll_script(600))));
    c.resume(Reply::Done);
    c.resume(Reply::Done);
    match c.resume(Reply::Channels(vec![])) {
        Step::Finish(Ok(list)) => assert_eq!(
            list.rows,
            vec![
                ChannelRow { index: 1, channel: "general".to_string(), kind: "Text".to_string() },
                ChannelRow { index: 2, channel: "voice".to_string(), kind: "Voice".to_string() },
                ChannelRow { index: 3, channel: "news".to_string(), kind: "Text".to_string() },
            ]
        ),
        other => panic!("unexpected {:?}", other),
    }
}

#[test]
fn channels_none_found() {
    let (mut c, _) = channels::execute();
    c.resume(Reply::Scroll(ScrollInfo { scroll_height: 0, client_height: 0 }));
    c.resume(Reply::Done);
    match c.resume(Reply::Channels(vec![])) {
        Step::Finish(Ok(list)) => assert_eq!(
            list.rows,
            vec![ChannelRow { index: 0, channel: "No channels found".to_string(), kind: "\u{2014}".to_string() }]
        ),
        other => panic!("unexpected {:?}", other),
    }
}

#[test]
fn channels_browser_failure() {
    let (mut c, _) = channels::execute();
    assert_eq!(c.resume(Reply::Failed(AppError::Browser("gone".to_string()))), Step::Finish(Err(AppError::Browser("gone".to_string()))));
    assert_eq!(c.pending(), None);
}

// --- switch ------------------------------------------------------------------

#[test]
fn switch_with_nothing_to_do() {
    let (_, step) = switch::execute(&params(vec![("server", text("  "))]));
    assert_eq!(step, Step::Finish(Ok(StatusLine { status: "nothing to do".to_string() })));
}

#[test]
fn switch_reports_each_part() {
    let p = params(vec![("server", text("Story")), ("channel", text("general"))]);
    let (mut sw, step) = switch::execute(&p);
    assert_eq!(step, Step::Act(Action::EvalStatus(make_server_switch_script("Story"))));
    assert_eq!(sw.resume(Reply::Status("switched".to_string())), Step::Act(Action::Wait(1000)));
    assert_eq!(sw.resume(Reply::Done), Step::Act(Action::EvalStatus(make_channel_click_script("general"))));
    assert_eq!(
        sw.resume(Reply::Status("switched".to_string())),
        Step::Finish(Ok(StatusLine { status: "switched to server: Story; switched to channel: general".to_string() }))
    );
}

#[test]
fn switch_reports_missing_server_and_channel_without_failing() {
    let p = params(vec![("server", text("Nope")), ("channel", text("x"))]);
    let (mut sw, _) = switch::execute(&p);
    sw.resume(Reply::Status("not_found".to_string()));
    sw.resume(Reply::Status("not_found".to_string()));
    sw.resume(Reply::Scroll(ScrollInfo { scroll_height: 10, client_height: 10 }));
    assert_eq!(
        sw.resume(Reply::Done),
        Step::Finish(Ok(StatusLine {
            status: "server not found: Nope; invalid params: channel not found: x".to_string()
        }))
    );
}

#[test]
fn switch_already_on_server_only() {
    let (mut sw, _) = switch::execute(&params(vec![("server", text("Story"))]));
    assert_eq!(
        sw.resume(Reply::Status("already_on".to_string())),
        Step::Finish(Ok(StatusLine { status: "already on server: Story".to_string() }))
    );
}

#[test]
fn switch_channel_browser_failure_becomes_a_line() {
    let (mut sw, _) = switch::execute(&params(vec![("channel", text("x"))]));
    assert_eq!(
        sw.resume(Reply::Failed(AppError::Browser("timeout".to_string()))),
        Step::Finish(Ok(StatusLine { status: "browser error: timeout".to_string() }))
    );
}

// --- search ------------------------------------------------------------------

#[test]
fn search_runs_and_closes() {
    let (mut s, step) = search::execute(&params(vec![("query", text(" hello "))]));
    assert_eq!(step, Step::Act(Action::Eval(SEARCH_OPEN.to_string())));
    assert_eq!(s.resume(Reply::Done), Step::Act(Action::Wait(500)));
    assert_eq!(s.resume(Reply::Done), Step::Act(Action::Eval(make_search_type_script("hello"))));
    assert_eq!(s.resume(Reply::Done), Step::Act(Action::Eval(SEARCH_SUBMIT.to_string())));
    assert_eq!(s.resume(Reply::Done), Step::Act(Action::Wait(2000)));
    assert_eq!(s.resume(Reply::Done), Step::Act(Action::EvalSearchResults(SEARCH_SCRAPE.to_string())));
    assert_eq!(s.pending(), Some(ReplyKind::SearchResults));
    let found = vec![SearchResultItem { index: 1, author: "ann".to_string(), message: "hello there".to_string() }];
    assert_eq!(s.resume(Reply::SearchResults(found)), Step::Act(Action::Eval(SEARCH_CLOSE.to_string())));
    match s.resume(Reply::Done) {
        Step::Finish(Ok(a)) => assert_eq!(a.rows, vec![SearchResultItem { index: 1, author: "ann".to_string(), message: "hello there".to_string() }]),
        other => panic!("unexpected {:?}", other),
    }
    assert_eq!(s.pending(), None);
}

#[test]
fn search_without_results() {
    let (mut s, _) = search::execute(&params(vec![("query", text("zzz"))]));
    for _ in 0..5 {
        s.resume(Reply::Done);
    }
    s.resume(Reply::SearchResults(vec![]));
    match s.resume(Reply::Done) {
        Step::Finish(Ok(a)) => assert_eq!(a.rows, vec![SearchResultItem { index: 0, author: "System".to_string(), message: "No results for \"zzz\"".to_string() }]),
        other => panic!("unexpected {:?}", other),
    }
}

#[test]
fn search_requires_query_after_switching() {
    let (_, step) = search::execute(&params(vec![]));
    assert_eq!(step, Step::Finish(Err(AppError::InvalidParams("`query` is required".to_string()))));
    let (mut s, step) = search::execute(&params(vec![("server", text("Story"))]));
    assert_eq!(step, Step::Act(Action::EvalStatus(make_server_switch_script("Story"))));
    assert_eq!(s.resume(Reply::Status("already_on".to_string())), Step::Finish(Err(AppError::InvalidParams("`query` is required".to_string()))));
}

// --- send --------------------------------------------------------------------

#[test]
fn send_types_and_submits() {
    let (mut s, step) = send::execute(&params(vec![("text", text("hi there"))]));
    assert_eq!(step, Step::Act(Action::Eval(make_send_insert_script("hi there"))));
    assert_eq!(s.resume(Reply::Done), Step::Act(Action::Wait(300)));
    assert_eq!(s.resume(Reply::Done), Step::Act(Action::Eval(SEND_SUBMIT.to_string())));
    assert_eq!(s.resume(Reply::Done), Step::Finish(Ok(StatusLine { status: "Success".to_string() })));
}

#[test]
fn send_requires_text() {
    let (_, step) = send::execute(&params(vec![("text", text(""))]));
    assert_eq!(step, Step::Finish(Err(AppError::InvalidParams("`text` is required".to_string()))));
}

#[test]
fn send_stops_when_browser_fails() {
    let (mut s, _) = send::execute(&params(vec![("text", text("x"))]));
    assert_eq!(s.resume(Reply::Failed(AppError::Browser("no editor".to_string()))), Step::Finish(Err(AppError::Browser("no editor".to_string()))));
}

// --- servers, members, status, open -------------------------------------------

#[test]
fn servers_placeholder() {
    assert_eq!(servers::execute(vec![]), vec![ServerItem { index: 0, server: "No servers found".to_string() }]);
    let found = vec![ServerItem { index: 1, server: "Story".to_string() }];
    assert_eq!(servers::execute(found), vec![ServerItem { index: 1, server: "Story".to_string() }]);
}

#[test]
fn members_placeholder() {
    assert_eq!(
        members::execute(vec![]),
        vec![MemberItem { index: 0, name: "No members visible".to_string(), status: "Toggle member list first".to_string() }]
    );
    let found = vec![MemberItem { index: 1, name: "ann".to_string(), status: "Online".to_string() }];
    assert_eq!(members::execute(found).len(), 1);
}

#[test]
fn status_reports_unknown_values() {
    let r = status::execute(Some("https://discord.com/channels/1/2".to_string()), None);
    assert_eq!(r.status, "Connected");
    assert_eq!(r.url, "https://discord.com/channels/1/2");
    assert_eq!(r.title, "unknown");
}

#[test]
fn open_takes_trimmed_url() {
    let p = params(vec![("url", text(" https://discord.com/app "))]);
    assert_eq!(open::target(&p), "https://discord.com/app");
    assert_eq!(open::execute(open::target(&p)), StatusLine { status: "opened: https://discord.com/app".to_string() });
}

#[test]
fn open_defaults_to_discord() {
    assert_eq!(open::target(&params(vec![])), "https://discord.com");
    assert_eq!(open::target(&params(vec![("url", text("   "))])), "https://discord.com");
    let empty = params(vec![]);
    assert_eq!(open::execute(open::target(&empty)), StatusLine { status: "opened: https://discord.com".to_string() });
}

// --- executor ------------------------------------------------------------------

#[test]
fn executor_resolves_commands() {
    let ex = CommandExecutor::new(CommandRegistry::from_manifest());
    assert_eq!(ex.execute("read", "ws://127.0.0.1:9222"), Ok(Dispatch::Read));
    assert_eq!(ex.execute("switch", "ws://x"), Ok(Dispatch::Switch));
    assert_eq!(
        ex.execute("open", "ws://x"),
        Ok(Dispatch::Planned("Command `open` is registered but not implemented yet".to_string()))
    );
    assert_eq!(ex.execute("nope", ""), Err(AppError::CommandNotFound("nope".to_string())));
    assert_eq!(
        ex.execute("read", ""),
        Err(AppError::InvalidParams("agent_browser.cdp_url is required".to_string()))
    );
}

#[test]
fn registry_finds_first_match() {
    let reg = CommandRegistry::new(command_specs());
    assert_eq!(reg.get("status").map(|c| c.name), Some("status"));
    assert!(reg.get("").is_none());
    assert!(reg.get("Status").is_none());
}
