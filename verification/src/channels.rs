use vstd::prelude::*;

use crate::browser::{fits, Action, ActionModel, RawChannel, RawChannelModel, Reply, ReplyKind, Step, StepModel};
use crate::laws::channels_well_collected;
use crate::navigate::{channel_min_step, saturate, scroll_step};
use crate::script::{channels_scroll_script, make_channels_scroll_script, CHANNELS_COLLECT, CHANNEL_LIST_SCROLL_INFO};

verus! {

/// A channel of the current server, numbered from 1.
#[derive(Debug, PartialEq, Eq)]
pub struct ChannelRow {
    pub index: usize,
    pub channel: String,
    pub kind: String,
}

pub struct ChannelRowModel {
    pub index: int,
    pub channel: Seq<char>,
    pub kind: Seq<char>,
}

impl View for ChannelRow {
    type V = ChannelRowModel;

    open spec fn view(&self) -> ChannelRowModel {
        ChannelRowModel { index: self.index as int, channel: self.channel@, kind: self.kind@ }
    }
}

/// The answer of `channels`.
#[derive(Debug, PartialEq, Eq)]
pub struct ChannelList {
    pub rows: Vec<ChannelRow>,
}

impl View for ChannelList {
    type V = Seq<ChannelRowModel>;

    open spec fn view(&self) -> Seq<ChannelRowModel> {
        self.rows@.map_values(|r: ChannelRow| r@)
    }
}

/// A channel seen so far: its name and its type.
pub struct ChannelModel {
    pub name: Seq<char>,
    pub kind: Seq<char>,
}

/// The channel that a reported item stands for; its type is "Text" where the
/// page did not say.
pub open spec fn channel_of(item: RawChannelModel) -> ChannelModel {
    ChannelModel {
        name: match item.channel {
            Some(n) => n,
            None => Seq::empty(),
        },
        kind: match item.kind {
            Some(k) => k,
            None => "Text"@,
        },
    }
}

pub open spec fn has_name(rows: Seq<ChannelModel>, name: Seq<char>) -> bool {
    exists|j: int| 0 <= j < rows.len() && (#[trigger] rows[j]).name == name
}

/// `rows` after seeing `item`: a named channel not seen before is added at
/// the end; anything else is passed over.
pub open spec fn absorb_channel(rows: Seq<ChannelModel>, item: RawChannelModel) -> Seq<ChannelModel> {
    let c = channel_of(item);
    if c.name.len() == 0 || has_name(rows, c.name) {
        rows
    } else {
        rows.push(c)
    }
}

pub open spec fn absorb_channels(rows: Seq<ChannelModel>, batch: Seq<RawChannelModel>) -> Seq<ChannelModel>
    decreases batch.len(),
{
    if batch.len() == 0 {
        rows
    } else {
        absorb_channel(absorb_channels(rows, batch.drop_last()), batch.last())
    }
}

pub open spec fn raw_channels_view(v: Seq<RawChannel>) -> Seq<RawChannelModel> {
    v.map_values(|c: RawChannel| c@)
}

/// The answer of `channels`: the channels in the order first seen, numbered
/// from 1; a single row with index 0 where there is none.
pub open spec fn channels_answer(rows: Seq<ChannelModel>) -> Seq<ChannelRowModel> {
    if rows.len() == 0 {
        seq![ChannelRowModel { index: 0, channel: "No channels found"@, kind: "\u{2014}"@ }]
    } else {
        Seq::new(rows.len(), |i: int| ChannelRowModel { index: i + 1, channel: rows[i].name, kind: rows[i].kind })
    }
}

/// Where a `channels` stands.
pub enum ChannelsPhase {
    /// Waiting for the dimensions of the channel list (scrolled to its top).
    InfoProbe,
    InfoSettle { height: u64, client: u64 },
    /// Waiting for the channels visible at the top.
    FirstBatch { height: u64, client: u64 },
    Scrolling { pos: u128, step: u64, height: u64 },
    ScrollWait { pos: u128, step: u64, height: u64 },
    /// Waiting for the channels visible at `pos`.
    Batch { pos: u128, step: u64, height: u64 },
    Finished,
}

/// The `channels` command: every channel of the current server, found by
/// scrolling through the channel list.
pub struct Channels {
    rows: Vec<(String, String)>,
    phase: ChannelsPhase,
}

pub open spec fn channels_pending(p: ChannelsPhase) -> ReplyKind {
    match p {
        ChannelsPhase::InfoProbe => ReplyKind::Scroll,
        ChannelsPhase::FirstBatch { .. } => ReplyKind::Channels,
        ChannelsPhase::Batch { .. } => ReplyKind::Channels,
        _ => ReplyKind::Done,
    }
}

/// Scroll to `pos` while `pos < height + step`; past that, answer.
pub open spec fn channels_probe(pos: u128, step: u64, height: u64, rows: Seq<ChannelModel>) -> (ChannelsPhase, StepModel<Seq<ChannelRowModel>>) {
    if pos < height + step {
        (
            ChannelsPhase::Scrolling { pos, step, height },
            StepModel::Act(ActionModel::Eval(channels_scroll_script(saturate(pos)))),
        )
    } else {
        (ChannelsPhase::Finished, StepModel::Finish(Ok(channels_answer(rows))))
    }
}

pub open spec fn channels_next(p: ChannelsPhase, rows: Seq<ChannelModel>, r: Reply) -> (ChannelsPhase, Seq<ChannelModel>, StepModel<Seq<ChannelRowModel>>) {
    match r {
        Reply::Failed(e) => (ChannelsPhase::Finished, rows, StepModel::Finish(Err(e@))),
        _ => match p {
            ChannelsPhase::InfoProbe => match r {
                Reply::Scroll(info) => (
                    ChannelsPhase::InfoSettle { height: info.scroll_height, client: info.client_height },
                    rows,
                    StepModel::Act(ActionModel::Wait(300)),
                ),
                _ => arbitrary(),
            },
            ChannelsPhase::InfoSettle { height, client } => (
                ChannelsPhase::FirstBatch { height, client },
                rows,
                StepModel::Act(ActionModel::EvalChannels(CHANNELS_COLLECT@)),
            ),
            ChannelsPhase::FirstBatch { height, client } => match r {
                Reply::Channels(batch) => {
                    let rows2 = absorb_channels(rows, raw_channels_view(batch@));
                    if height > client {
                        let step: u64 = scroll_step(client, channel_min_step());
                        let (q, s) = channels_probe(step as u128, step, height, rows2);
                        (q, rows2, s)
                    } else {
                        (ChannelsPhase::Finished, rows2, StepModel::Finish(Ok(channels_answer(rows2))))
                    }
                },
                _ => arbitrary(),
            },
            ChannelsPhase::Scrolling { pos, step, height } => (
                ChannelsPhase::ScrollWait { pos, step, height },
                rows,
                StepModel::Act(ActionModel::Wait(300)),
            ),
            ChannelsPhase::ScrollWait { pos, step, height } => (
                ChannelsPhase::Batch { pos, step, height },
                rows,
                StepModel::Act(ActionModel::EvalChannels(CHANNELS_COLLECT@)),
            ),
            ChannelsPhase::Batch { pos, step, height } => match r {
                Reply::Channels(batch) => {
                    let rows2 = absorb_channels(rows, raw_channels_view(batch@));
                    let (q, s) = channels_probe((pos + step) as u128, step, height, rows2);
                    (q, rows2, s)
                },
                _ => arbitrary(),
            },
            ChannelsPhase::Finished => arbitrary(),
        },
    }
}

pub open spec fn channels_rank(p: ChannelsPhase) -> int {
    match p {
        ChannelsPhase::InfoProbe => 5,
        ChannelsPhase::InfoSettle { .. } => 4,
        ChannelsPhase::FirstBatch { .. } => 3,
        ChannelsPhase::Scrolling { .. } => 2,
        ChannelsPhase::ScrollWait { .. } => 2,
        ChannelsPhase::Batch { .. } => 2,
        ChannelsPhase::Finished => 0,
    }
}

pub open spec fn channels_distance(p: ChannelsPhase) -> int {
    match p {
        ChannelsPhase::Scrolling { pos, step, height } => 3 * (height + step - pos) + 2,
        ChannelsPhase::ScrollWait { pos, step, height } => 3 * (height + step - pos) + 1,
        ChannelsPhase::Batch { pos, step, height } => 3 * (height + step - pos),
        _ => 0,
    }
}

pub open spec fn channels_progress(p: ChannelsPhase, q: ChannelsPhase) -> bool {
    ||| channels_rank(q) < channels_rank(p)
    ||| (channels_rank(q) == channels_rank(p) && 0 <= channels_distance(q) < channels_distance(p))
}

spec fn channels_phase_ok(p: ChannelsPhase) -> bool {
    match p {
        ChannelsPhase::Scrolling { pos, step, height } => step >= 1 && pos < height + step,
        ChannelsPhase::ScrollWait { pos, step, height } => step >= 1 && pos < height + step,
        ChannelsPhase::Batch { pos, step, height } => step >= 1 && pos < height + step,
        _ => true,
    }
}

impl Channels {
    #[verifier::type_invariant]
    spec fn inv(&self) -> bool {
        &&& channels_phase_ok(self.phase)
        &&& channels_well_collected(self.rows@.map_values(|e: (String, String)| ChannelModel { name: e.0@, kind: e.1@ }))
    }

    pub closed spec fn phase(&self) -> ChannelsPhase {
        self.phase
    }

    /// The channels seen so far, in the order first seen.
    pub closed spec fn rows(&self) -> Seq<ChannelModel> {
        self.rows@.map_values(|e: (String, String)| ChannelModel { name: e.0@, kind: e.1@ })
    }


    fn answer(&self) -> (res: ChannelList)
        ensures
            res@ == channels_answer(self.rows()),
    {
        let mut v: Vec<ChannelRow> = Vec::new();
        if self.rows.len() == 0 {
            v.push(ChannelRow { index: 0, channel: "No channels found".to_string(), kind: "\u{2014}".to_string() });
            let res = ChannelList { rows: v };
            assert(res@ =~= channels_answer(self.rows()));
            return res;
        }
        let mut i: usize = 0;
        while i < self.rows.len()
            invariant
                i <= self.rows@.len(),
                v@.map_values(|r: ChannelRow| r@) =~= Seq::new(
                    i as nat,
                    |k: int| ChannelRowModel { index: k + 1, channel: self.rows()[k].name, kind: self.rows()[k].kind },
                ),
            decreases self.rows@.len() - i,
        {
            let row = ChannelRow { index: i + 1, channel: self.rows[i].0.clone(), kind: self.rows[i].1.clone() };
            let ghost before = v@;
            v.push(row);
            assert(v@.map_values(|r: ChannelRow| r@) =~= before.map_values(|r: ChannelRow| r@).push(row@));
            i = i + 1;
        }
        ChannelList { rows: v }
    }

    fn absorb(&mut self, item: &RawChannel)
        ensures
            final(self).rows() == absorb_channel(old(self).rows(), item@),
            final(self).phase == old(self).phase,
    {
        proof { use_type_invariant(&*self); }
        let name = match &item.channel {
            Some(s) => s.clone(),
            None => String::new(),
        };
        let kind = match &item.kind {
            Some(s) => s.clone(),
            None => "Text".to_string(),
        };
        let ghost c = ChannelModel { name: name@, kind: kind@ };
        assert(c == channel_of(item@));
        if name.as_str().is_empty() {
            return;
        }
        let mut j: usize = 0;
        while j < self.rows.len()
            invariant
                j <= self.rows@.len(),
                *self == *old(self),
                c == channel_of(item@),
                name@ == c.name,
                forall|k: int| 0 <= k < j ==> (#[trigger] self.rows()[k]).name != c.name,
            decreases self.rows@.len() - j,
        {
            if self.rows[j].0 == name {
                assert(self.rows()[j as int].name == c.name);
                assert(has_name(self.rows(), c.name));
                return;
            }
            j = j + 1;
        }
        assert(!has_name(old(self).rows(), c.name));
        let ghost grown = old(self).rows().push(c);
        assert(channels_well_collected(grown)) by {
            assert forall|a: int, b: int| 0 <= a < b < grown.len() implies (#[trigger] grown[a]).name
                != (#[trigger] grown[b]).name by {
                if b == grown.len() - 1 {
                    assert(old(self).rows()[a].name != c.name);
                }
            }
        }
        let mut rows: Vec<(String, String)> = Vec::new();
        std::mem::swap(&mut rows, &mut self.rows);
        rows.push((name, kind));
        assert(rows@.map_values(|e: (String, String)| ChannelModel { name: e.0@, kind: e.1@ }) =~= grown);
        self.rows = rows;
        assert(self.rows() =~= old(self).rows().push(c));
    }

    fn absorb_batch(&mut self, batch: Vec<RawChannel>)
        ensures
            final(self).rows() == absorb_channels(old(self).rows(), raw_channels_view(batch@)),
            final(self).phase == old(self).phase,
    {
        let ghost start = self.rows();
        let mut i: usize = 0;
        while i < batch.len()
            invariant
                i <= batch@.len(),
                self.phase == old(self).phase,
                self.rows() == absorb_channels(start, raw_channels_view(batch@).take(i as int)),
            decreases batch@.len() - i,
        {
            let ghost before = raw_channels_view(batch@).take(i as int);
            let ghost after = raw_channels_view(batch@).take(i + 1);
            assert(after.drop_last() =~= before);
            self.absorb(&batch[i]);
            i = i + 1;
        }
        assert(raw_channels_view(batch@).take(batch@.len() as int) =~= raw_channels_view(batch@));
    }

    fn probe(&mut self, pos: u128, step: u64, height: u64) -> (res: Step<ChannelList>)
        requires
            step >= 1,
        ensures
            final(self).rows == old(self).rows,
            (final(self).phase, res@) == channels_probe(pos, step, height, old(self).rows()),
    {
        proof { use_type_invariant(&*self); }
        if pos < height as u128 + step as u128 {
            self.phase = ChannelsPhase::Scrolling { pos, step, height };
            let shown: u64 = if pos > u64::MAX as u128 {
                u64::MAX
            } else {
                pos as u64
            };
            Step::Act(Action::Eval(make_channels_scroll_script(shown)))
        } else {
            self.phase = ChannelsPhase::Finished;
            Step::Finish(Ok(self.answer()))
        }
    }

    /// The kind of reply that the command waits for, if it is not over.
    pub fn pending(&self) -> (k: Option<ReplyKind>)
        ensures
            k == (if self.phase() is Finished {
                None
            } else {
                Some(channels_pending(self.phase()))
            }),
    {
        match self.phase {
            ChannelsPhase::Finished => None,
            ChannelsPhase::InfoProbe => Some(ReplyKind::Scroll),
            ChannelsPhase::FirstBatch { .. } => Some(ReplyKind::Channels),
            ChannelsPhase::Batch { .. } => Some(ReplyKind::Channels),
            _ => Some(ReplyKind::Done),
        }
    }

    /// Takes the browser's reply to the last action and says what comes next.
    pub fn resume(&mut self, reply: Reply) -> (step: Step<ChannelList>)
        requires
            !(old(self).phase() is Finished),
            fits(reply, channels_pending(old(self).phase())),
        ensures
            (final(self).phase(), final(self).rows(), step@) == channels_next(old(self).phase(), old(self).rows(), reply),
            step is Act ==> channels_progress(old(self).phase(), final(self).phase()),
            step is Finish <==> final(self).phase() is Finished,
            channels_well_collected(final(self).rows()),
    {
        proof { use_type_invariant(&*self); }
        match reply {
            Reply::Failed(e) => {
                self.phase = ChannelsPhase::Finished;
                Step::Finish(Err(e))
            },
            Reply::Scroll(info) => {
                self.phase = ChannelsPhase::InfoSettle { height: info.scroll_height, client: info.client_height };
                Step::Act(Action::Wait(300))
            },
            Reply::Channels(batch) => {
                match self.phase {
                    ChannelsPhase::FirstBatch { height, client } => {
                        self.absorb_batch(batch);
                        proof { use_type_invariant(&*self); }
                        if height > client {
                            let step: u64 = if client > 200 {
                                client
                            } else {
                                200
                            };
                            self.probe(step as u128, step, height)
                        } else {
                            self.phase = ChannelsPhase::Finished;
                            Step::Finish(Ok(self.answer()))
                        }
                    },
                    ChannelsPhase::Batch { pos, step, height } => {
                        self.absorb_batch(batch);
                        proof { use_type_invariant(&*self); }
                        self.probe(pos + step as u128, step, height)
                    },
                    _ => {
                        assert(false);
                        Step::Finish(Ok(self.answer()))
                    },
                }
            },
            _ => {
                match self.phase {
                    ChannelsPhase::InfoSettle { height, client } => {
                        self.phase = ChannelsPhase::FirstBatch { height, client };
                        Step::Act(Action::EvalChannels(CHANNELS_COLLECT.to_string()))
                    },
                    ChannelsPhase::Scrolling { pos, step, height } => {
                        self.phase = ChannelsPhase::ScrollWait { pos, step, height };
                        Step::Act(Action::Wait(300))
                    },
                    ChannelsPhase::ScrollWait { pos, step, height } => {
                        self.phase = ChannelsPhase::Batch { pos, step, height };
                        Step::Act(Action::EvalChannels(CHANNELS_COLLECT.to_string()))
                    },
                    _ => {
                        assert(false);
                        Step::Finish(Ok(self.answer()))
                    },
                }
            },
        }
    }
}

/// Starts a `channels`: the channel list is first scrolled to its top.
pub fn execute() -> (res: (Channels, Step<ChannelList>))
    ensures
        res.0.phase() is InfoProbe,
        res.0.rows() == Seq::<ChannelModel>::empty(),
        res.1@ == StepModel::<Seq<ChannelRowModel>>::Act(ActionModel::EvalScroll(CHANNEL_LIST_SCROLL_INFO@)),
{
    let c = Channels { rows: Vec::new(), phase: ChannelsPhase::InfoProbe };
    assert(c.rows() =~= Seq::<ChannelModel>::empty());
    (c, Step::Act(Action::EvalScroll(CHANNEL_LIST_SCROLL_INFO.to_string())))
}

} // verus!
