use vstd::prelude::*;

use crate::browser::{RawChannelModel, RawMessageModel, Reply, StepModel};
use crate::error::ErrorModel;
use crate::channels::{absorb_channel, absorb_channels, channels_answer, ChannelModel};
use crate::executor::dispatch_of;
use crate::manifest::command_table;
use crate::navigate::{channel_not_found, nav_next, nav_start, probe_at, server_not_found, NavPhase};
use crate::params::{is_white_space, present_text, trim_end, trim_start, trimmed, Params};
use crate::read::{absorb_message, absorb_messages, message_key, no_messages_row, read_answer, MessageModel};

verus! {

// ---------------------------------------------------------------------------
// Parameters
// ---------------------------------------------------------------------------

proof fn lemma_trim_start_shape(s: Seq<char>)
    ensures
        trim_start(s).len() > 0 ==> !is_white_space(trim_start(s)[0]),
        trim_start(s).len() <= s.len(),
        trim_start(s) == s.subrange(s.len() - trim_start(s).len(), s.len() as int),
    decreases s.len(),
{
    if s.len() > 0 && is_white_space(s[0]) {
        lemma_trim_start_shape(s.drop_first());
        let t = trim_start(s.drop_first());
        assert(s.drop_first().subrange(s.drop_first().len() - t.len(), s.drop_first().len() as int)
            =~= s.subrange(s.len() - t.len(), s.len() as int));
    } else {
        assert(s.subrange(0, s.len() as int) =~= s);
    }
}

proof fn lemma_trim_end_shape(s: Seq<char>)
    ensures
        trim_end(s).len() > 0 ==> !is_white_space(trim_end(s).last()),
        trim_end(s).len() <= s.len(),
        trim_end(s) == s.subrange(0, trim_end(s).len() as int),
    decreases s.len(),
{
    if s.len() > 0 && is_white_space(s.last()) {
        lemma_trim_end_shape(s.drop_last());
        let t = trim_end(s.drop_last());
        assert(s.drop_last().subrange(0, t.len() as int) =~= s.subrange(0, t.len() as int));
    } else {
        assert(s.subrange(0, s.len() as int) =~= s);
    }
}

/// Trimming text that is already trimmed changes nothing; trimmed text that
/// is not empty neither starts nor ends with white space.
pub proof fn lemma_trim_idempotent(s: Seq<char>)
    ensures
        trimmed(trimmed(s)) == trimmed(s),
        trimmed(s).len() > 0 ==> !is_white_space(trimmed(s)[0]) && !is_white_space(trimmed(s).last()),
{
    let a = trim_start(s);
    let t = trim_end(a);
    lemma_trim_start_shape(s);
    lemma_trim_end_shape(a);
    if t.len() > 0 {
        assert(t[0] == a[0]);
        assert(!is_white_space(t[0]));
        assert(trim_start(t) == t);
        assert(trim_end(t) == t);
    } else {
        assert(trim_start(t) == t);
        assert(trim_end(t) == t);
    }
}

/// A string parameter that a command accepts is never blank and carries no
/// surrounding white space.
pub proof fn lemma_present_text_is_trimmed(p: Params, key: Seq<char>)
    ensures
        present_text(p, key) matches Some(t) ==> t.len() > 0 && trimmed(t) == t
            && !is_white_space(t[0]) && !is_white_space(t.last()),
{
    if let Some(t) = present_text(p, key) {
        let raw = crate::params::text_param(p, key)->0;
        lemma_trim_idempotent(raw);
    }
}

// ---------------------------------------------------------------------------
// Navigation
// ---------------------------------------------------------------------------

/// With neither a server nor a channel to switch to, a navigation asks
/// nothing of the browser and succeeds at once.
pub proof fn lemma_nothing_to_navigate()
    ensures
        nav_start(Seq::empty(), Seq::empty()) == (NavPhase::Finished, StepModel::<()>::Finish(Ok(()))),
{
}

/// A navigation fails only because the server is not found, the channel is
/// not found, or the browser failed (with that failure).
pub proof fn lemma_navigation_failures(p: NavPhase, server: Seq<char>, channel: Seq<char>, r: Reply)
    requires
        !(p is Finished),
        crate::browser::fits(r, crate::navigate::nav_pending(p)),
    ensures
        nav_next(p, server, channel, r).1 matches StepModel::Finish(Err(e)) ==> {
            ||| e == server_not_found(server)
            ||| e == channel_not_found(channel)
            ||| r matches Reply::Failed(f) && e == f@
        },
{
}

/// The channel list is searched by scrolling in steps of `step` from `step`
/// up to below `height + step`: at position `pos` the navigation scrolls
/// exactly when `pos < height + step`, and otherwise reports the channel as
/// not found.
pub proof fn lemma_channel_probe_range(pos: u128, step: u64, height: u64, channel: Seq<char>)
    ensures
        probe_at(pos, step, height, channel).1 is Act <==> pos < height + step,
        !(pos < height + step) ==> probe_at(pos, step, height, channel).1 == StepModel::<()>::Finish(
            Err(channel_not_found(channel)),
        ),
{
}

// ---------------------------------------------------------------------------
// Reading messages
// ---------------------------------------------------------------------------

/// Messages collected by `read`: each has text, and no two share a key.
pub open spec fn well_collected(rows: Seq<MessageModel>) -> bool {
    &&& forall|i: int| 0 <= i < rows.len() ==> (#[trigger] rows[i]).message.len() > 0
    &&& forall|i: int, j: int|
        0 <= i < j < rows.len() ==> message_key(#[trigger] rows[i]) != message_key(#[trigger] rows[j])
}

/// Seeing more messages keeps the collection well formed, and what was
/// collected stays, in its place.
pub proof fn lemma_absorb_messages_well_collected(rows: Seq<MessageModel>, batch: Seq<RawMessageModel>)
    requires
        well_collected(rows),
    ensures
        well_collected(absorb_messages(rows, batch)),
        rows.len() <= absorb_messages(rows, batch).len(),
        absorb_messages(rows, batch).subrange(0, rows.len() as int) == rows,
    decreases batch.len(),
{
    if batch.len() > 0 {
        lemma_absorb_messages_well_collected(rows, batch.drop_last());
        let before = absorb_messages(rows, batch.drop_last());
        let after = absorb_message(before, batch.last());
        if after != before {
            assert(after == before.push(crate::read::message_of(batch.last())));
            assert(after.subrange(0, rows.len() as int) =~= before.subrange(0, rows.len() as int));
        }
    }
}

/// The answer of `read` holds at most `count` messages (one notice where
/// there is none), newest first, with no two sharing a key.
pub proof fn lemma_read_answer(rows: Seq<MessageModel>, count: u64)
    requires
        well_collected(rows),
    ensures
        ({
            let a = read_answer(rows, count);
            if count == 0 || rows.len() == 0 {
                a == seq![no_messages_row()]
            } else {
                &&& a.len() == (if count < rows.len() { count as int } else { rows.len() as int })
                &&& forall|i: int| 0 <= i < a.len() ==> #[trigger] a[i] == rows[rows.len() - 1 - i]
                &&& well_collected(a)
            }
        }),
{
    let a = read_answer(rows, count);
    if !(count == 0 || rows.len() == 0) {
        assert forall|i: int, j: int| 0 <= i < j < a.len() implies message_key(#[trigger] a[i])
            != message_key(#[trigger] a[j]) by {
            assert(a[i] == rows[rows.len() - 1 - i]);
            assert(a[j] == rows[rows.len() - 1 - j]);
        }
    }
}

// ---------------------------------------------------------------------------
// Listing channels
// ---------------------------------------------------------------------------

/// Channels collected by `channels`: each is named, and no two share a name.
pub open spec fn channels_well_collected(rows: Seq<ChannelModel>) -> bool {
    &&& forall|i: int| 0 <= i < rows.len() ==> (#[trigger] rows[i]).name.len() > 0
    &&& forall|i: int, j: int| 0 <= i < j < rows.len() ==> (#[trigger] rows[i]).name != (#[trigger] rows[j]).name
}

/// Seeing more channels keeps the collection well formed, and what was
/// collected stays, in its place.
pub proof fn lemma_absorb_channels_well_collected(rows: Seq<ChannelModel>, batch: Seq<RawChannelModel>)
    requires
        channels_well_collected(rows),
    ensures
        channels_well_collected(absorb_channels(rows, batch)),
        rows.len() <= absorb_channels(rows, batch).len(),
        absorb_channels(rows, batch).subrange(0, rows.len() as int) == rows,
    decreases batch.len(),
{
    if batch.len() > 0 {
        lemma_absorb_channels_well_collected(rows, batch.drop_last());
        let before = absorb_channels(rows, batch.drop_last());
        let after = absorb_channel(before, batch.last());
        if after != before {
            assert(after.subrange(0, rows.len() as int) =~= before.subrange(0, rows.len() as int));
        }
    }
}

/// The answer of `channels` numbers the channels 1, 2, ... in the order they
/// were first seen, with no name twice; with none, it is one row numbered 0.
pub proof fn lemma_channels_answer(rows: Seq<ChannelModel>)
    requires
        channels_well_collected(rows),
    ensures
        ({
            let a = channels_answer(rows);
            if rows.len() == 0 {
                a.len() == 1 && a[0].index == 0
            } else {
                &&& a.len() == rows.len()
                &&& forall|i: int| 0 <= i < a.len() ==> (#[trigger] a[i]).index == i + 1 && a[i].channel == rows[i].name
                &&& forall|i: int, j: int| 0 <= i < j < a.len() ==> (#[trigger] a[i]).channel != (#[trigger] a[j]).channel
            }
        }),
{
    let a = channels_answer(rows);
    if rows.len() > 0 {
        assert forall|i: int, j: int| 0 <= i < j < a.len() implies (#[trigger] a[i]).channel
            != (#[trigger] a[j]).channel by {
            assert(a[i].channel == rows[i].name);
            assert(a[j].channel == rows[j].name);
        }
    }
}

// ---------------------------------------------------------------------------
// Dispatch
// ---------------------------------------------------------------------------

/// Every registered command but `open` runs an implementation; `open` is
/// answered as planned.
pub proof fn lemma_registered_commands_dispatch()
    ensures
        forall|i: int|
            0 <= i < command_table().len() ==> ((dispatch_of(#[trigger] command_table()[i].name) is Planned)
                <==> i == 2),
        command_table()[2].name == "open"@,
{
    reveal_strlit("servers");
    reveal_strlit("channels");
    reveal_strlit("open");
    reveal_strlit("members");
    reveal_strlit("read");
    reveal_strlit("search");
    reveal_strlit("send");
    reveal_strlit("status");
    reveal_strlit("switch");
    let c = command_table();
    assert(c[0].name.len() == 7 && c[0].name[0] == 's' && c[0].name[1] == 'e' && c[0].name[2] == 'r');
    assert("members"@[0] == 'm');
    assert("search"@[2] == 'a');
    assert("channels"@.len() == 8 && "read"@.len() == 4 && "send"@.len() == 4);
    assert(c[0].name != "channels"@ && c[0].name != "members"@ && c[0].name != "read"@);
    assert(c[0].name != "search"@ && c[0].name != "send"@);
    assert(dispatch_of(c[0].name) is Servers);
    assert(c[4].name.len() == 4 && c[4].name[0] == 'r');
    assert(c[4].name != "channels"@ && c[4].name != "members"@);
    assert(dispatch_of(c[1].name) is Channels);
    assert(c[2].name.len() == 4 && c[2].name[0] == 'o');
    assert(dispatch_of(c[2].name) is Planned);
    assert(dispatch_of(c[3].name) is Members);
    assert(dispatch_of(c[4].name) is Read);
    assert(dispatch_of(c[5].name) is Search);
    assert(dispatch_of(c[6].name) is Send);
    assert(c[7].name.len() == 6 && c[7].name[0] == 's' && c[7].name[1] == 't');
    assert("search"@[1] == 'e' && "send"@.len() == 4 && "servers"@.len() == 7);
    assert(c[7].name != "channels"@ && c[7].name != "members"@ && c[7].name != "read"@);
    assert(c[7].name != "search"@ && c[7].name != "send"@ && c[7].name != "servers"@);
    assert(dispatch_of(c[7].name) is Status);
    assert(c[8].name.len() == 6 && c[8].name[0] == 's' && c[8].name[1] == 'w');
    assert("status"@[1] == 't');
    assert(c[8].name != "channels"@ && c[8].name != "members"@ && c[8].name != "read"@);
    assert(c[8].name != "search"@ && c[8].name != "send"@ && c[8].name != "servers"@);
    assert(c[8].name != "status"@);
    assert(dispatch_of(c[8].name) is Switch);
}



// ---------------------------------------------------------------------------
// Every command waits for the kind of reply that its last action calls for
// ---------------------------------------------------------------------------

/// A navigation waits for the kind of reply that the action it asked for
/// calls for.
pub proof fn lemma_navigation_waits_for_its_action(p: NavPhase, server: Seq<char>, channel: Seq<char>, r: Reply)
    requires
        !(p is Finished),
        crate::browser::fits(r, crate::navigate::nav_pending(p)),
    ensures
        nav_start(server, channel).1 matches StepModel::Act(a) ==> crate::navigate::nav_pending(
            nav_start(server, channel).0,
        ) == crate::browser::kind_of(a),
        nav_next(p, server, channel, r).1 matches StepModel::Act(a) ==> crate::navigate::nav_pending(
            nav_next(p, server, channel, r).0,
        ) == crate::browser::kind_of(a),
        nav_next(p, server, channel, r).1 is Act <==> !(nav_next(p, server, channel, r).0 is Finished),
{
}

/// A `read` waits for the kind of reply that the action it asked for calls
/// for.
pub proof fn lemma_read_waits_for_its_action(
    p: crate::read::ReadPhase,
    rows: Seq<MessageModel>,
    count: u64,
    r: Reply,
    nav: NavPhase,
)
    requires
        !(p is Navigating) && !(p is Finished),
        crate::browser::fits(r, crate::read::read_pending(p, nav)),
    ensures
        crate::read::read_next(p, rows, count, r).2 matches StepModel::Act(a) ==> crate::read::read_pending(
            crate::read::read_next(p, rows, count, r).0,
            nav,
        ) == crate::browser::kind_of(a),
        crate::read::read_begin().1 matches StepModel::Act(a) ==> crate::read::read_pending(
            crate::read::read_begin().0,
            nav,
        ) == crate::browser::kind_of(a),
{
}

/// A `channels` waits for the kind of reply that the action it asked for
/// calls for.
pub proof fn lemma_channels_waits_for_its_action(p: crate::channels::ChannelsPhase, rows: Seq<ChannelModel>, r: Reply)
    requires
        !(p is Finished),
        crate::browser::fits(r, crate::channels::channels_pending(p)),
    ensures
        crate::channels::channels_next(p, rows, r).2 matches StepModel::Act(a)
            ==> crate::channels::channels_pending(crate::channels::channels_next(p, rows, r).0)
            == crate::browser::kind_of(a),
{
}

/// A `search` waits for the kind of reply that the action it asked for
/// calls for.
pub proof fn lemma_search_waits_for_its_action(
    p: crate::search::SearchPhase,
    q: Seq<char>,
    results: Seq<crate::search::SearchItemModel>,
    r: Reply,
    nav: NavPhase,
)
    requires
        !(p is Navigating) && !(p is Finished),
        crate::browser::fits(r, crate::search::search_pending(p, nav)),
    ensures
        crate::search::search_next(p, q, results, r).2 matches StepModel::Act(a)
            ==> crate::search::search_pending(crate::search::search_next(p, q, results, r).0, nav)
            == crate::browser::kind_of(a),
        crate::search::search_begin(Some(q)).1 matches StepModel::Act(a) ==> crate::search::search_pending(
            crate::search::search_begin(Some(q)).0,
            nav,
        ) == crate::browser::kind_of(a),
{
}

/// A `send` waits for the kind of reply that the action it asked for calls
/// for.
pub proof fn lemma_send_waits_for_its_action(p: crate::send::SendPhase, t: Seq<char>, r: Reply, nav: NavPhase)
    requires
        !(p is Navigating) && !(p is Finished),
        crate::browser::fits(r, crate::send::send_pending(p, nav)),
    ensures
        crate::send::send_next(p, r).1 matches StepModel::Act(a) ==> crate::send::send_pending(
            crate::send::send_next(p, r).0,
            nav,
        ) == crate::browser::kind_of(a),
        crate::send::send_begin(Some(t)).1 matches StepModel::Act(a) ==> crate::send::send_pending(
            crate::send::send_begin(Some(t)).0,
            nav,
        ) == crate::browser::kind_of(a),
{
}

/// A `switch` waits for the kind of reply that the action it asked for
/// calls for.
pub proof fn lemma_switch_waits_for_its_action(channel: Seq<char>, lines: Seq<Seq<char>>, server: Seq<char>)
    ensures
        crate::switch::switch_channel_part(channel, lines).3 matches StepModel::Act(a)
            ==> crate::switch::switch_pending(
            crate::switch::switch_channel_part(channel, lines).0,
            crate::switch::switch_channel_part(channel, lines).1,
        ) == crate::browser::kind_of(a),
        crate::switch::switch_pending(crate::switch::SwitchPhase::ServerProbe, NavPhase::Finished)
            == crate::browser::kind_of(crate::browser::ActionModel::EvalStatus(
            crate::script::server_switch_script(server),
        )),
{
}

// ---------------------------------------------------------------------------
// Switching before reading, searching or sending
// ---------------------------------------------------------------------------

/// `read`, `search` and `send` switch server and channel first; where the
/// switch fails, the command fails with the same error and asks the browser
/// for nothing more. Where it succeeds, `read` goes on to the message list.
pub proof fn lemma_failed_switch_is_an_error(e: ErrorModel, q: Option<Seq<char>>)
    ensures
        crate::read::read_lift(StepModel::Finish(Err(e))) == (
            crate::read::ReadPhase::Finished,
            StepModel::<Seq<MessageModel>>::Finish(Err(e)),
        ),
        crate::search::search_lift(StepModel::Finish(Err(e)), q) == (
            crate::search::SearchPhase::Finished,
            StepModel::<Seq<crate::search::SearchItemModel>>::Finish(Err(e)),
        ),
        crate::send::send_lift(StepModel::Finish(Err(e)), q) == (
            crate::send::SendPhase::Finished,
            StepModel::<Seq<char>>::Finish(Err(e)),
        ),
        crate::read::read_lift(StepModel::Finish(Ok(()))) == crate::read::read_begin(),
{
}

/// Without a usable `count`, `read` returns at most 20 messages.
pub proof fn lemma_read_count_defaults_to_twenty(p: Params)
    ensures
        !(crate::params::lookup(p.entries@, "count"@) matches Some(crate::params::ParamValue::Unsigned(_)))
            ==> crate::read::read_count(p) == 20,
{
}

/// With a `count` that is an unsigned integer `v`, `read` keeps up to `v`
/// messages, whatever `v` is: 20 applies only where no such count is given.
pub proof fn lemma_read_count_is_the_given_count(p: Params, v: u64)
    requires
        crate::params::lookup(p.entries@, "count"@) == Some(crate::params::ParamValue::Unsigned(v)),
    ensures
        crate::read::read_count(p) == v,
{
}

/// `read` with a `count` of `v > 0` over `n > 0` collected messages answers
/// with `min(v, n)` of them, the newest first; where `v >= n`, with every
/// collected message.
pub proof fn lemma_read_keeps_the_given_count(p: Params, v: u64, rows: Seq<MessageModel>)
    requires
        crate::params::lookup(p.entries@, "count"@) == Some(crate::params::ParamValue::Unsigned(v)),
        rows.len() > 0,
        v > 0,
    ensures
        read_answer(rows, crate::read::read_count(p)).len()
            == (if v < rows.len() { v as int } else { rows.len() as int }),
        forall|i: int| 0 <= i < read_answer(rows, crate::read::read_count(p)).len()
            ==> #[trigger] read_answer(rows, crate::read::read_count(p))[i] == rows[rows.len() - 1 - i],
{
}

/// A navigation with no channel to look for succeeds as soon as its server
/// part succeeds. After the server switch reports `switched`, it waits and
/// then finishes with `Ok`; after any other status but `not_found` (the page
/// was already on that server) it finishes with `Ok` at once. It fails only
/// where the server is not found (or the browser fails).
pub proof fn lemma_navigation_without_channel(server: Seq<char>, s: String, r: Reply)
    requires
        server.len() > 0,
        !(r is Failed),
    ensures
        nav_start(server, Seq::empty()).0 == NavPhase::ServerProbe,
        s@ == "switched"@ ==> {
            let (p1, st1) = nav_next(NavPhase::ServerProbe, server, Seq::empty(), Reply::Status(s));
            &&& st1 is Act
            &&& nav_next(p1, server, Seq::empty(), r) == (NavPhase::Finished, StepModel::<()>::Finish(Ok(())))
        },
        s@ != "switched"@ && s@ != "not_found"@ ==> nav_next(
            NavPhase::ServerProbe,
            server,
            Seq::empty(),
            Reply::Status(s),
        ) == (NavPhase::Finished, StepModel::<()>::Finish(Ok(()))),
        s@ == "not_found"@ ==> nav_next(NavPhase::ServerProbe, server, Seq::empty(), Reply::Status(s)).1
            == StepModel::<()>::Finish(Err(server_not_found(server))),
        nav_next(NavPhase::ServerSettle, server, Seq::empty(), r)
            == (NavPhase::Finished, StepModel::<()>::Finish(Ok(()))),
{
    reveal_strlit("switched");
    reveal_strlit("not_found");
    if s@ == "switched"@ {
        assert("switched"@.len() != "not_found"@.len());
        assert(nav_next(NavPhase::ServerProbe, server, Seq::empty(), Reply::Status(s)).0 == NavPhase::ServerSettle);
    }
}

/// Where the search scraped at least one result, its answer is exactly the
/// scraped results, in the order scraped; only where it scraped none does it
/// answer with one row that names the query.
pub proof fn lemma_search_answers_what_it_scraped(
    query: Seq<char>,
    before: Seq<crate::search::SearchItemModel>,
    found: Vec<crate::browser::SearchResultItem>,
    r: Reply,
)
    requires
        !(r is Failed),
    ensures
        ({
            let (p1, results, _) = crate::search::search_next(
                crate::search::SearchPhase::Scraping,
                query,
                before,
                Reply::SearchResults(found),
            );
            let (p2, _, step) = crate::search::search_next(p1, query, results, r);
            &&& p2 is Finished
            &&& step matches StepModel::Finish(Ok(a))
            &&& (found@.len() > 0 ==> {
                &&& a.len() == found@.len()
                &&& forall|i: int| 0 <= i < a.len() ==> #[trigger] a[i] == found@[i]@
            })
            &&& (found@.len() == 0 ==> a.len() == 1 && a[0].index == 0)
        }),
        forall|res: Seq<crate::search::SearchItemModel>| res.len() > 0
            ==> #[trigger] crate::search::search_answer(res, query) == res,
{
}

/// `servers` answers with the servers that the page listed, all of them and
/// in the same order; only an empty list becomes one placeholder row.
pub proof fn lemma_servers_lists_every_server(found: Seq<crate::servers::ServerModel>)
    ensures
        found.len() > 0 ==> crate::servers::servers_answer(found) == found,
        found.len() == 0 ==> crate::servers::servers_answer(found).len() == 1
            && crate::servers::servers_answer(found)[0].index == 0,
{
}

/// `members` answers with the members that the page listed, all of them and
/// in the same order; only an empty list becomes one placeholder row.
pub proof fn lemma_members_lists_every_member(found: Seq<crate::members::MemberModel>)
    ensures
        found.len() > 0 ==> crate::members::members_answer(found) == found,
        found.len() == 0 ==> crate::members::members_answer(found).len() == 1
            && crate::members::members_answer(found)[0].index == 0,
{
}

} // verus!
