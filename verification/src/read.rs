use vstd::prelude::*;

use crate::browser::{fits, Action, ActionModel, RawMessage, RawMessageModel, Reply, ReplyKind, Step, StepModel};
use crate::navigate::{navigate, nav_next, nav_pending, nav_progress, nav_start, NavPhase, Navigation};
use crate::params::{lookup, optional_string, optional_u64, target_param, text_or_empty, ParamValue, Params};
use crate::script::{make_messages_scroll_script, messages_scroll_script, MESSAGES_COLLECT, MESSAGES_SCROLL_BOTTOM, MESSAGES_SCROLL_INFO};
use crate::laws::well_collected;
use crate::text::join3;

verus! {

/// A message of the channel.
#[derive(Debug, PartialEq, Eq)]
pub struct MessageRow {
    pub author: String,
    pub time: String,
    pub message: String,
}

pub struct MessageModel {
    pub author: Seq<char>,
    pub time: Seq<char>,
    pub message: Seq<char>,
}

impl View for MessageRow {
    type V = MessageModel;

    open spec fn view(&self) -> MessageModel {
        MessageModel { author: self.author@, time: self.time@, message: self.message@ }
    }
}

pub open spec fn rows_view(v: Seq<MessageRow>) -> Seq<MessageModel> {
    v.map_values(|r: MessageRow| r@)
}

/// The answer of `read`.
#[derive(Debug, PartialEq, Eq)]
pub struct Messages {
    pub rows: Vec<MessageRow>,
}

impl View for Messages {
    type V = Seq<MessageModel>;

    open spec fn view(&self) -> Seq<MessageModel> {
        rows_view(self.rows@)
    }
}

/// The key by which two messages count as the same: `author|time|message`.
pub open spec fn message_key(m: MessageModel) -> Seq<char> {
    m.author + "|"@ + m.time + "|"@ + m.message
}

/// The message that a reported item stands for.
pub open spec fn message_of(item: RawMessageModel) -> MessageModel {
    MessageModel {
        author: text_or_empty(item.author),
        time: text_or_empty(item.time),
        message: text_or_empty(item.message),
    }
}

/// Does some message of `rows` have the key `key`?
pub open spec fn has_key(rows: Seq<MessageModel>, key: Seq<char>) -> bool {
    exists|j: int| 0 <= j < rows.len() && message_key(#[trigger] rows[j]) == key
}

/// `rows` after seeing `item`: a message with text, whose key is new, is
/// added at the end; anything else is passed over.
pub open spec fn absorb_message(rows: Seq<MessageModel>, item: RawMessageModel) -> Seq<MessageModel> {
    let m = message_of(item);
    if m.message.len() == 0 || has_key(rows, message_key(m)) {
        rows
    } else {
        rows.push(m)
    }
}

/// `rows` after seeing the items of `batch`, in order.
pub open spec fn absorb_messages(rows: Seq<MessageModel>, batch: Seq<RawMessageModel>) -> Seq<MessageModel>
    decreases batch.len(),
{
    if batch.len() == 0 {
        rows
    } else {
        absorb_message(absorb_messages(rows, batch.drop_last()), batch.last())
    }
}

pub open spec fn raw_messages_view(v: Seq<RawMessage>) -> Seq<RawMessageModel> {
    v.map_values(|m: RawMessage| m@)
}

/// The answer when no message was found.
pub open spec fn no_messages_row() -> MessageModel {
    MessageModel { author: "System"@, time: ""@, message: "No messages found in the current channel."@ }
}

/// The answer of `read`: the last `count` messages collected, newest first.
pub open spec fn read_answer(rows: Seq<MessageModel>, count: u64) -> Seq<MessageModel> {
    let n: int = if count < rows.len() {
        count as int
    } else {
        rows.len() as int
    };
    if n == 0 {
        seq![no_messages_row()]
    } else {
        Seq::new(n as nat, |i: int| rows[rows.len() - 1 - i])
    }
}

/// The smallest scroll step through the message list, in pixels.
pub open spec fn message_min_step() -> u64 {
    300
}

/// Where a `read` stands.
pub enum ReadPhase {
    /// Switching server and channel first.
    Navigating,
    /// Waiting for the dimensions of the message list.
    InfoProbe,
    /// Waiting after reading them.
    InfoSettle { height: u64, client: u64 },
    /// Waiting for the messages visible at first.
    FirstBatch { height: u64, client: u64 },
    /// Waiting for the message list to scroll to its bottom.
    BottomScroll { height: u64, client: u64 },
    /// Waiting after that.
    BottomSettle { height: u64, client: u64 },
    /// Waiting for the message list to scroll up to `pos`.
    Scrolling { pos: u64, step: u64 },
    /// Waiting after that.
    ScrollWait { pos: u64, step: u64 },
    /// Waiting for the messages visible at `pos`.
    Batch { pos: u64, step: u64 },
    Finished,
}

/// The `read` command: the most recent messages of the active channel.
pub struct Read {
    nav: Navigation,
    count: u64,
    entries: Vec<(String, MessageRow)>,
    phase: ReadPhase,
}

pub open spec fn read_pending(p: ReadPhase, nav: NavPhase) -> ReplyKind {
    match p {
        ReadPhase::Navigating => nav_pending(nav),
        ReadPhase::InfoProbe => ReplyKind::Scroll,
        ReadPhase::FirstBatch { .. } => ReplyKind::Messages,
        ReadPhase::Batch { .. } => ReplyKind::Messages,
        _ => ReplyKind::Done,
    }
}

/// After collecting at the bottom: scroll up through the list while it
/// overflows and fewer than `2 * count` messages are known.
pub open spec fn loop_entry(height: u64, client: u64, known: nat, count: u64) -> bool {
    height > client && known < 2 * count
}

/// Go on scrolling up while `pos > 0` and fewer than `3 * count` messages
/// are known.
pub open spec fn loop_goes_on(pos: u64, known: nat, count: u64) -> bool {
    pos > 0 && known < 3 * count
}

/// The step that scrolls to `pos`, or the end.
pub open spec fn read_probe(pos: u64, step: u64, rows: Seq<MessageModel>, count: u64) -> (ReadPhase, StepModel<Seq<MessageModel>>) {
    if loop_goes_on(pos, rows.len(), count) {
        (ReadPhase::Scrolling { pos, step }, StepModel::Act(ActionModel::Eval(messages_scroll_script(pos))))
    } else {
        (ReadPhase::Finished, StepModel::Finish(Ok(read_answer(rows, count))))
    }
}

/// The step after the bottom of the list was reached.
pub open spec fn read_after_bottom(height: u64, client: u64, rows: Seq<MessageModel>, count: u64) -> (ReadPhase, StepModel<Seq<MessageModel>>) {
    if loop_entry(height, client, rows.len(), count) {
        read_probe(height, if client > message_min_step() { client } else { message_min_step() }, rows, count)
    } else {
        (ReadPhase::Finished, StepModel::Finish(Ok(read_answer(rows, count))))
    }
}

/// The step after the navigation: ask for the dimensions of the list.
pub open spec fn read_begin() -> (ReadPhase, StepModel<Seq<MessageModel>>) {
    (ReadPhase::InfoProbe, StepModel::Act(ActionModel::EvalScroll(MESSAGES_SCROLL_INFO@)))
}

/// The next phase, collected messages and step of a `read` in phase `p` that
/// receives `r` (outside the navigation).
pub open spec fn read_next(p: ReadPhase, rows: Seq<MessageModel>, count: u64, r: Reply) -> (ReadPhase, Seq<MessageModel>, StepModel<Seq<MessageModel>>) {
    match r {
        Reply::Failed(e) => (ReadPhase::Finished, rows, StepModel::Finish(Err(e@))),
        _ => match p {
            ReadPhase::InfoProbe => match r {
                Reply::Scroll(info) => (
                    ReadPhase::InfoSettle { height: info.scroll_height, client: info.client_height },
                    rows,
                    StepModel::Act(ActionModel::Wait(300)),
                ),
                _ => arbitrary(),
            },
            ReadPhase::InfoSettle { height, client } => (
                ReadPhase::FirstBatch { height, client },
                rows,
                StepModel::Act(ActionModel::EvalMessages(MESSAGES_COLLECT@)),
            ),
            ReadPhase::FirstBatch { height, client } => match r {
                Reply::Messages(batch) => {
                    let rows2 = absorb_messages(rows, raw_messages_view(batch@));
                    if height > 0 {
                        (
                            ReadPhase::BottomScroll { height, client },
                            rows2,
                            StepModel::Act(ActionModel::Eval(MESSAGES_SCROLL_BOTTOM@)),
                        )
                    } else {
                        let (q, s) = read_after_bottom(height, client, rows2, count);
                        (q, rows2, s)
                    }
                },
                _ => arbitrary(),
            },
            ReadPhase::BottomScroll { height, client } => (
                ReadPhase::BottomSettle { height, client },
                rows,
                StepModel::Act(ActionModel::Wait(500)),
            ),
            ReadPhase::BottomSettle { height, client } => {
                let (q, s) = read_after_bottom(height, client, rows, count);
                (q, rows, s)
            },
            ReadPhase::Scrolling { pos, step } => (
                ReadPhase::ScrollWait { pos, step },
                rows,
                StepModel::Act(ActionModel::Wait(400)),
            ),
            ReadPhase::ScrollWait { pos, step } => (
                ReadPhase::Batch { pos, step },
                rows,
                StepModel::Act(ActionModel::EvalMessages(MESSAGES_COLLECT@)),
            ),
            ReadPhase::Batch { pos, step } => match r {
                Reply::Messages(batch) => {
                    let rows2 = absorb_messages(rows, raw_messages_view(batch@));
                    if pos <= step {
                        (ReadPhase::Finished, rows2, StepModel::Finish(Ok(read_answer(rows2, count))))
                    } else {
                        let (q, s) = read_probe((pos - step) as u64, step, rows2, count);
                        (q, rows2, s)
                    }
                },
                _ => arbitrary(),
            },
            _ => arbitrary(),
        },
    }
}

/// What follows a step of the navigation.
pub open spec fn read_lift(s: StepModel<()>) -> (ReadPhase, StepModel<Seq<MessageModel>>) {
    match s {
        StepModel::Act(a) => (ReadPhase::Navigating, StepModel::Act(a)),
        StepModel::Finish(Ok(_)) => read_begin(),
        StepModel::Finish(Err(e)) => (ReadPhase::Finished, StepModel::Finish(Err(e))),
    }
}

/// The number of messages that `read` returns at most: the parameter
/// `count`, 20 by default.
pub open spec fn read_count(p: Params) -> u64 {
    match lookup(p.entries@, "count"@) {
        Some(ParamValue::Unsigned(v)) => v,
        _ => 20,
    }
}

pub open spec fn read_rank(p: ReadPhase) -> int {
    match p {
        ReadPhase::Navigating => 8,
        ReadPhase::InfoProbe => 7,
        ReadPhase::InfoSettle { .. } => 6,
        ReadPhase::FirstBatch { .. } => 5,
        ReadPhase::BottomScroll { .. } => 4,
        ReadPhase::BottomSettle { .. } => 3,
        ReadPhase::Scrolling { .. } => 2,
        ReadPhase::ScrollWait { .. } => 2,
        ReadPhase::Batch { .. } => 2,
        ReadPhase::Finished => 0,
    }
}

pub open spec fn read_distance(p: ReadPhase) -> int {
    match p {
        ReadPhase::Scrolling { pos, .. } => 3 * pos + 2,
        ReadPhase::ScrollWait { pos, .. } => 3 * pos + 1,
        ReadPhase::Batch { pos, .. } => 3 * pos,
        _ => 0,
    }
}

/// `q` is nearer the end than `p`.
pub open spec fn read_progress(p: ReadPhase, q: ReadPhase) -> bool {
    ||| read_rank(q) < read_rank(p)
    ||| (read_rank(q) == read_rank(p) && 0 <= read_distance(q) < read_distance(p))
}

spec fn read_phase_ok(p: ReadPhase) -> bool {
    match p {
        ReadPhase::Scrolling { step, .. } => step >= 1,
        ReadPhase::ScrollWait { step, .. } => step >= 1,
        ReadPhase::Batch { step, .. } => step >= 1,
        _ => true,
    }
}

impl Read {
    #[verifier::type_invariant]
    spec fn inv(&self) -> bool {
        &&& read_phase_ok(self.phase)
        &&& (self.phase is Navigating ==> !(self.nav.phase() is Finished))
        &&& forall|i: int| 0 <= i < self.entries@.len() ==> #[trigger] self.entries@[i].0@ == message_key(self.entries@[i].1@)
        &&& well_collected(self.entries@.map_values(|e: (String, MessageRow)| e.1@))
    }

    pub closed spec fn phase(&self) -> ReadPhase {
        self.phase
    }

    pub closed spec fn navigation(&self) -> Navigation {
        self.nav
    }

    /// How many messages were asked for.
    pub closed spec fn count(&self) -> u64 {
        self.count
    }

    /// The messages collected so far, in the order they were first seen.
    pub closed spec fn rows(&self) -> Seq<MessageModel> {
        self.entries@.map_values(|e: (String, MessageRow)| e.1@)
    }

    fn answer(&self) -> (res: Messages)
        ensures
            res@ == read_answer(self.rows(), self.count()),
    {
        Messages { rows: self.answer_rows() }
    }

    fn answer_rows(&self) -> (v: Vec<MessageRow>)
        ensures
            rows_view(v@) == read_answer(self.rows(), self.count()),
    {
        let len: usize = self.entries.len();
        let n: usize = if (self.count as u128) < (len as u128) {
            self.count as usize
        } else {
            len
        };
        let mut v: Vec<MessageRow> = Vec::new();
        if n == 0 {
            proof {
                reveal_strlit("");
            }
            v.push(MessageRow {
                author: "System".to_string(),
                time: "".to_string(),
                message: "No messages found in the current channel.".to_string(),
            });
            assert(rows_view(v@) =~= read_answer(self.rows(), self.count()));
            return v;
        }
        let mut i: usize = 0;
        while i < n
            invariant
                n <= len == self.entries@.len(),
                i <= n,
                n == (if self.count() < len { self.count() as int } else { len as int }),
                n > 0,
                rows_view(v@) =~= Seq::new(i as nat, |k: int| self.rows()[len - 1 - k]),
            decreases n - i,
        {
            let e = &self.entries[len - 1 - i];
            let row = MessageRow { author: e.1.author.clone(), time: e.1.time.clone(), message: e.1.message.clone() };
            assert(row@ == self.rows()[len - 1 - i]);
            let ghost before = v@;
            v.push(row);
            assert(rows_view(v@) =~= rows_view(before).push(row@));
            i = i + 1;
        }
        v
    }

    fn absorb(&mut self, item: &RawMessage)
        ensures
            final(self).rows() == absorb_message(old(self).rows(), item@),
            final(self).phase == old(self).phase,
            final(self).nav == old(self).nav,
            final(self).count == old(self).count,
    {
        proof { use_type_invariant(&*self); }
        let author = match &item.author {
            Some(s) => s.clone(),
            None => String::new(),
        };
        let time = match &item.time {
            Some(s) => s.clone(),
            None => String::new(),
        };
        let message = match &item.message {
            Some(s) => s.clone(),
            None => String::new(),
        };
        let ghost m = MessageModel { author: author@, time: time@, message: message@ };
        assert(m == message_of(item@));
        if message.as_str().is_empty() {
            return;
        }
        let mut key = join3(author.as_str(), "|", time.as_str());
        key.append("|");
        key.append(message.as_str());
        assert(key@ == message_key(m));
        let mut j: usize = 0;
        while j < self.entries.len()
            invariant
                j <= self.entries@.len(),
                *self == *old(self),
                m == message_of(item@),
                m.message.len() > 0,
                key@ == message_key(m),
                forall|k: int| 0 <= k < self.entries@.len() ==> #[trigger] self.entries@[k].0@ == message_key(self.entries@[k].1@),
                forall|k: int| 0 <= k < j ==> message_key(#[trigger] self.rows()[k]) != key@,
            decreases self.entries@.len() - j,
        {
            if self.entries[j].0 == key {
                assert(message_key(self.rows()[j as int]) == key@);
                assert(has_key(self.rows(), message_key(m)));
                return;
            }
            j = j + 1;
        }
        assert(!has_key(old(self).rows(), message_key(m)));
        let ghost grown = old(self).rows().push(m);
        assert(well_collected(grown)) by {
            assert forall|a: int, b: int| 0 <= a < b < grown.len() implies message_key(#[trigger] grown[a])
                != message_key(#[trigger] grown[b]) by {
                if b == grown.len() - 1 {
                    assert(message_key(old(self).rows()[a]) != key@);
                }
            }
        }
        let mut entries: Vec<(String, MessageRow)> = Vec::new();
        std::mem::swap(&mut entries, &mut self.entries);
        entries.push((key, MessageRow { author, time, message }));
        assert(entries@.map_values(|e: (String, MessageRow)| e.1@) =~= grown);
        self.entries = entries;
        assert(self.rows() =~= old(self).rows().push(m));
    }

    fn absorb_batch(&mut self, batch: Vec<RawMessage>)
        ensures
            final(self).rows() == absorb_messages(old(self).rows(), raw_messages_view(batch@)),
            final(self).phase == old(self).phase,
            final(self).nav == old(self).nav,
            final(self).count == old(self).count,
    {
        let ghost start = self.rows();
        let mut i: usize = 0;
        while i < batch.len()
            invariant
                i <= batch@.len(),
                self.phase == old(self).phase,
                self.nav == old(self).nav,
                self.count == old(self).count,
                self.rows() == absorb_messages(start, raw_messages_view(batch@).take(i as int)),
            decreases batch@.len() - i,
        {
            let ghost before = raw_messages_view(batch@).take(i as int);
            let ghost after = raw_messages_view(batch@).take(i + 1);
            assert(after.drop_last() =~= before);
            self.absorb(&batch[i]);
            i = i + 1;
        }
        assert(raw_messages_view(batch@).take(batch@.len() as int) =~= raw_messages_view(batch@));
    }
}

impl Read {

    fn after_navigation(&mut self, s: Step<()>) -> (step: Step<Messages>)
        requires
            s is Act ==> !(old(self).nav.phase() is Finished),
        ensures
            final(self).nav == old(self).nav,
            final(self).count == old(self).count,
            final(self).entries == old(self).entries,
            (final(self).phase, step@) == read_lift(s@),
    {
        proof { use_type_invariant(&*self); }
        match s {
            Step::Act(a) => {
                self.phase = ReadPhase::Navigating;
                Step::Act(a)
            },
            Step::Finish(Ok(())) => {
                self.phase = ReadPhase::InfoProbe;
                Step::Act(Action::EvalScroll(MESSAGES_SCROLL_INFO.to_string()))
            },
            Step::Finish(Err(e)) => {
                self.phase = ReadPhase::Finished;
                Step::Finish(Err(e))
            },
        }
    }

    fn probe(&mut self, pos: u64, step: u64) -> (res: Step<Messages>)
        requires
            step >= 1,
        ensures
            final(self).nav == old(self).nav,
            final(self).count == old(self).count,
            final(self).entries == old(self).entries,
            (final(self).phase, res@) == read_probe(pos, step, old(self).rows(), old(self).count),
    {
        proof { use_type_invariant(&*self); }
        let known: u128 = self.entries.len() as u128;
        if pos > 0 && known < (self.count as u128) * 3 {
            self.phase = ReadPhase::Scrolling { pos, step };
            Step::Act(Action::Eval(make_messages_scroll_script(pos)))
        } else {
            self.phase = ReadPhase::Finished;
            Step::Finish(Ok(self.answer()))
        }
    }

    fn after_bottom(&mut self, height: u64, client: u64) -> (res: Step<Messages>)
        ensures
            final(self).nav == old(self).nav,
            final(self).count == old(self).count,
            final(self).entries == old(self).entries,
            (final(self).phase, res@) == read_after_bottom(height, client, old(self).rows(), old(self).count),
    {
        proof { use_type_invariant(&*self); }
        let known: u128 = self.entries.len() as u128;
        if height > client && known < (self.count as u128) * 2 {
            let step: u64 = if client > 300 {
                client
            } else {
                300
            };
            self.probe(height, step)
        } else {
            self.phase = ReadPhase::Finished;
            Step::Finish(Ok(self.answer()))
        }
    }

    /// The kind of reply that the `read` waits for, if it is not over.
    pub fn pending(&self) -> (k: Option<ReplyKind>)
        ensures
            k == (if self.phase() is Finished {
                None
            } else {
                Some(read_pending(self.phase(), self.navigation().phase()))
            }),
    {
        match self.phase {
            ReadPhase::Finished => None,
            ReadPhase::Navigating => match self.nav.pending() {
                Some(k) => Some(k),
                None => Some(ReplyKind::Done),
            },
            ReadPhase::InfoProbe => Some(ReplyKind::Scroll),
            ReadPhase::FirstBatch { .. } => Some(ReplyKind::Messages),
            ReadPhase::Batch { .. } => Some(ReplyKind::Messages),
            _ => Some(ReplyKind::Done),
        }
    }

    /// Takes the browser's reply to the last action and says what comes next.
    pub fn resume(&mut self, reply: Reply) -> (step: Step<Messages>)
        requires
            !(old(self).phase() is Finished),
            fits(reply, read_pending(old(self).phase(), old(self).navigation().phase())),
        ensures
            final(self).count() == old(self).count(),
            final(self).navigation().server() == old(self).navigation().server(),
            final(self).navigation().channel() == old(self).navigation().channel(),
            old(self).phase() is Navigating ==> {
                let (np, ns) = nav_next(
                    old(self).navigation().phase(),
                    old(self).navigation().server(),
                    old(self).navigation().channel(),
                    reply,
                );
                &&& final(self).navigation().phase() == np
                &&& final(self).rows() == old(self).rows()
                &&& (final(self).phase(), step@) == read_lift(ns)
            },
            !(old(self).phase() is Navigating) ==> {
                &&& final(self).navigation() == old(self).navigation()
                &&& (final(self).phase(), final(self).rows(), step@) == read_next(
                    old(self).phase(),
                    old(self).rows(),
                    old(self).count(),
                    reply,
                )
            },
            step is Act ==> {
                ||| read_progress(old(self).phase(), final(self).phase())
                ||| (old(self).phase() is Navigating && final(self).phase() is Navigating
                    && nav_progress(old(self).navigation().phase(), final(self).navigation().phase()))
            },
            step is Finish <==> final(self).phase() is Finished,
            well_collected(final(self).rows()),
    {
        proof { use_type_invariant(&*self); }
        if let ReadPhase::Navigating = self.phase {
            self.phase = ReadPhase::Finished;
            let mut nav = Navigation::idle();
            std::mem::swap(&mut nav, &mut self.nav);
            let s = nav.resume(reply);
            self.nav = nav;
            return self.after_navigation(s);
        }
        match reply {
            Reply::Failed(e) => {
                self.phase = ReadPhase::Finished;
                Step::Finish(Err(e))
            },
            Reply::Scroll(info) => {
                self.phase = ReadPhase::InfoSettle { height: info.scroll_height, client: info.client_height };
                Step::Act(Action::Wait(300))
            },
            Reply::Messages(batch) => {
                match self.phase {
                    ReadPhase::FirstBatch { height, client } => {
                        self.absorb_batch(batch);
                        proof { use_type_invariant(&*self); }
                        if height > 0 {
                            self.phase = ReadPhase::BottomScroll { height, client };
                            Step::Act(Action::Eval(MESSAGES_SCROLL_BOTTOM.to_string()))
                        } else {
                            self.after_bottom(height, client)
                        }
                    },
                    ReadPhase::Batch { pos, step } => {
                        self.absorb_batch(batch);
                        proof { use_type_invariant(&*self); }
                        if pos <= step {
                            self.phase = ReadPhase::Finished;
                            Step::Finish(Ok(self.answer()))
                        } else {
                            self.probe(pos - step, step)
                        }
                    },
                    _ => {
                        assert(false);
                        Step::Finish(Ok(self.answer()))
                    },
                }
            },
            _ => {
                match self.phase {
                    ReadPhase::InfoSettle { height, client } => {
                        self.phase = ReadPhase::FirstBatch { height, client };
                        Step::Act(Action::EvalMessages(MESSAGES_COLLECT.to_string()))
                    },
                    ReadPhase::BottomScroll { height, client } => {
                        self.phase = ReadPhase::BottomSettle { height, client };
                        Step::Act(Action::Wait(500))
                    },
                    ReadPhase::BottomSettle { height, client } => self.after_bottom(height, client),
                    ReadPhase::Scrolling { pos, step } => {
                        self.phase = ReadPhase::ScrollWait { pos, step };
                        Step::Act(Action::Wait(400))
                    },
                    ReadPhase::ScrollWait { pos, step } => {
                        self.phase = ReadPhase::Batch { pos, step };
                        Step::Act(Action::EvalMessages(MESSAGES_COLLECT.to_string()))
                    },
                    _ => {
                        assert(false);
                        Step::Finish(Ok(self.answer()))
                    },
                }
            },
        }
    }
}

/// Starts a `read`: switch to the server and channel the parameters
/// name, then collect messages.
pub fn execute(params: &Params) -> (res: (Read, Step<Messages>))
    ensures
        res.0.navigation().server() == target_param(*params, "server"@),
        res.0.navigation().channel() == target_param(*params, "channel"@),
        res.0.count() == read_count(*params),
        res.0.rows() == Seq::<MessageModel>::empty(),
        (res.0.phase(), res.1@) == read_lift(
            nav_start(target_param(*params, "server"@), target_param(*params, "channel"@)).1,
        ),
        res.0.navigation().phase() == nav_start(
            target_param(*params, "server"@),
            target_param(*params, "channel"@),
        ).0,
{
    let server = match optional_string(params, "server") {
        Some(s) => s,
        None => "",
    };
    let channel = match optional_string(params, "channel") {
        Some(s) => s,
        None => "",
    };
    proof {
        reveal_strlit("");
    }
    let (nav, first) = navigate(server, channel);
    let count = optional_u64(params, "count", 20);
    let mut read = Read { nav, count, entries: Vec::new(), phase: ReadPhase::Finished };
    assert(read.rows() =~= Seq::<MessageModel>::empty());
    let step = read.after_navigation(first);
    (read, step)
}

} // verus!
