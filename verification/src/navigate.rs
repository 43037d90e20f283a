use vstd::prelude::*;

use crate::browser::{fits, Action, ActionModel, Reply, ReplyKind, Step, StepModel};
use crate::error::{AppError, ErrorModel};
use crate::script::{
    channel_click_script, make_channel_click_script, make_navigate_scroll_script,
    make_server_switch_script, navigate_scroll_script, server_switch_script, CHANNEL_LIST_SCROLL_INFO,
};
use crate::text::join2;

verus! {

/// Where a navigation stands.
pub enum NavPhase {
    /// Waiting for the status of the server switch.
    ServerProbe,
    /// Waiting for the page to settle after a server switch.
    ServerSettle,
    /// Waiting for the status of the first channel click.
    ChannelProbe,
    /// Waiting for the dimensions of the channel list.
    ScrollProbe,
    /// Waiting after reading the dimensions of the channel list.
    ScrollSettle { height: u64, client: u64 },
    /// Waiting for the channel list to scroll to `pos`.
    Scrolling { pos: u128, step: u64, height: u64 },
    /// Waiting after scrolling the channel list to `pos`.
    ScrollWait { pos: u128, step: u64, height: u64 },
    /// Waiting for the status of a channel click at scroll position `pos`.
    Reprobe { pos: u128, step: u64, height: u64 },
    /// The navigation is over.
    Finished,
}

/// Switching the page to a server and/or a channel, named by a part of their
/// names (case-insensitive). An empty name leaves that part alone.
pub struct Navigation {
    server: String,
    channel: String,
    click: String,
    phase: NavPhase,
}

/// The smallest scroll step through the channel list, in pixels.
pub open spec fn channel_min_step() -> u64 {
    200
}

/// `max(client, min)`: one scroll step.
pub open spec fn scroll_step(client: u64, min: u64) -> u64 {
    if client > min {
        client
    } else {
        min
    }
}

/// A scroll position as the page receives it: `pos`, saturated to `u64`.
pub open spec fn saturate(pos: u128) -> u64 {
    if pos > u64::MAX {
        u64::MAX
    } else {
        pos as u64
    }
}

pub open spec fn server_not_found(server: Seq<char>) -> ErrorModel {
    ErrorModel::InvalidParams("server not found: "@ + server)
}

pub open spec fn channel_not_found(channel: Seq<char>) -> ErrorModel {
    ErrorModel::InvalidParams("channel not found: "@ + channel)
}

/// The step after the server part: click the channel, or finish.
pub open spec fn channel_entry(channel: Seq<char>) -> (NavPhase, StepModel<()>) {
    if channel.len() == 0 {
        (NavPhase::Finished, StepModel::Finish(Ok(())))
    } else {
        (NavPhase::ChannelProbe, StepModel::Act(ActionModel::EvalStatus(channel_click_script(channel))))
    }
}

/// Scroll the channel list to `pos` while `pos < height + step`; past that,
/// the channel is not there.
pub open spec fn probe_at(pos: u128, step: u64, height: u64, channel: Seq<char>) -> (NavPhase, StepModel<()>) {
    if pos < height + step {
        (
            NavPhase::Scrolling { pos, step, height },
            StepModel::Act(ActionModel::Eval(navigate_scroll_script(saturate(pos)))),
        )
    } else {
        (NavPhase::Finished, StepModel::Finish(Err(channel_not_found(channel))))
    }
}

/// The first step of a navigation.
pub open spec fn nav_start(server: Seq<char>, channel: Seq<char>) -> (NavPhase, StepModel<()>) {
    if server.len() > 0 {
        (NavPhase::ServerProbe, StepModel::Act(ActionModel::EvalStatus(server_switch_script(server))))
    } else {
        channel_entry(channel)
    }
}

/// The kind of reply that a navigation in phase `p` waits for.
pub open spec fn nav_pending(p: NavPhase) -> ReplyKind {
    match p {
        NavPhase::ServerProbe => ReplyKind::Status,
        NavPhase::ChannelProbe => ReplyKind::Status,
        NavPhase::Reprobe { .. } => ReplyKind::Status,
        NavPhase::ScrollProbe => ReplyKind::Scroll,
        _ => ReplyKind::Done,
    }
}

/// The next phase and step of a navigation in phase `p` that receives `r`.
pub open spec fn nav_next(p: NavPhase, server: Seq<char>, channel: Seq<char>, r: Reply) -> (NavPhase, StepModel<()>) {
    match r {
        Reply::Failed(e) => (NavPhase::Finished, StepModel::Finish(Err(e@))),
        _ => match p {
            NavPhase::ServerProbe => match r {
                Reply::Status(s) => if s@ == "not_found"@ {
                    (NavPhase::Finished, StepModel::Finish(Err(server_not_found(server))))
                } else if s@ == "switched"@ {
                    (NavPhase::ServerSettle, StepModel::Act(ActionModel::Wait(1000)))
                } else {
                    channel_entry(channel)
                },
                _ => arbitrary(),
            },
            NavPhase::ServerSettle => channel_entry(channel),
            NavPhase::ChannelProbe => match r {
                Reply::Status(s) => if s@ == "switched"@ {
                    (NavPhase::Finished, StepModel::Finish(Ok(())))
                } else {
                    (NavPhase::ScrollProbe, StepModel::Act(ActionModel::EvalScroll(CHANNEL_LIST_SCROLL_INFO@)))
                },
                _ => arbitrary(),
            },
            NavPhase::ScrollProbe => match r {
                Reply::Scroll(info) => (
                    NavPhase::ScrollSettle { height: info.scroll_height, client: info.client_height },
                    StepModel::Act(ActionModel::Wait(300)),
                ),
                _ => arbitrary(),
            },
            NavPhase::ScrollSettle { height, client } => if height > client {
                let step: u64 = scroll_step(client, channel_min_step());
                probe_at(step as u128, step, height, channel)
            } else {
                (NavPhase::Finished, StepModel::Finish(Err(channel_not_found(channel))))
            },
            NavPhase::Scrolling { pos, step, height } => (
                NavPhase::ScrollWait { pos, step, height },
                StepModel::Act(ActionModel::Wait(300)),
            ),
            NavPhase::ScrollWait { pos, step, height } => (
                NavPhase::Reprobe { pos, step, height },
                StepModel::Act(ActionModel::EvalStatus(channel_click_script(channel))),
            ),
            NavPhase::Reprobe { pos, step, height } => match r {
                Reply::Status(s) => if s@ == "switched"@ {
                    (NavPhase::Finished, StepModel::Finish(Ok(())))
                } else {
                    probe_at((pos + step) as u128, step, height, channel)
                },
                _ => arbitrary(),
            },
            NavPhase::Finished => arbitrary(),
        },
    }
}

/// How far a navigation in phase `p` is from its end: first the phase, then,
/// inside the scrolling loop, the distance left to scroll.
pub open spec fn nav_rank(p: NavPhase) -> int {
    match p {
        NavPhase::ServerProbe => 7,
        NavPhase::ServerSettle => 6,
        NavPhase::ChannelProbe => 5,
        NavPhase::ScrollProbe => 4,
        NavPhase::ScrollSettle { .. } => 3,
        NavPhase::Scrolling { .. } => 2,
        NavPhase::ScrollWait { .. } => 2,
        NavPhase::Reprobe { .. } => 2,
        NavPhase::Finished => 0,
    }
}

pub open spec fn nav_distance(p: NavPhase) -> int {
    match p {
        NavPhase::Scrolling { pos, step, height } => 3 * (height + step - pos) + 2,
        NavPhase::ScrollWait { pos, step, height } => 3 * (height + step - pos) + 1,
        NavPhase::Reprobe { pos, step, height } => 3 * (height + step - pos),
        _ => 0,
    }
}

/// `q` is nearer the end than `p`.
pub open spec fn nav_progress(p: NavPhase, q: NavPhase) -> bool {
    ||| nav_rank(q) < nav_rank(p)
    ||| (nav_rank(q) == nav_rank(p) && 0 <= nav_distance(q) < nav_distance(p))
}

spec fn phase_ok(p: NavPhase) -> bool {
    match p {
        NavPhase::Scrolling { pos, step, height } => step >= 1 && pos < height + step,
        NavPhase::ScrollWait { pos, step, height } => step >= 1 && pos < height + step,
        NavPhase::Reprobe { pos, step, height } => step >= 1 && pos < height + step,
        _ => true,
    }
}

impl Navigation {
    #[verifier::type_invariant]
    spec fn inv(&self) -> bool {
        &&& self.click@ == channel_click_script(self.channel@)
        &&& phase_ok(self.phase)
    }

    /// The server to switch to; empty for none.
    pub closed spec fn server(&self) -> Seq<char> {
        self.server@
    }

    /// The channel to switch to; empty for none.
    pub closed spec fn channel(&self) -> Seq<char> {
        self.channel@
    }

    pub closed spec fn phase(&self) -> NavPhase {
        self.phase
    }

    /// A navigation that is over and has nothing to do.
    pub fn idle() -> (nav: Navigation)
        ensures
            nav.phase() is Finished,
    {
        Navigation {
            server: "".to_string(),
            channel: "".to_string(),
            click: make_channel_click_script(""),
            phase: NavPhase::Finished,
        }
    }


    fn enter_channel(&mut self) -> (step: Step<()>)
        ensures
            final(self).server == old(self).server,
            final(self).channel == old(self).channel,
            (final(self).phase, step@) == channel_entry(old(self).channel@),
    {
        proof { use_type_invariant(&*self); }
        if self.channel.as_str().unicode_len() == 0 {
            self.phase = NavPhase::Finished;
            Step::Finish(Ok(()))
        } else {
            self.phase = NavPhase::ChannelProbe;
            Step::Act(Action::EvalStatus(self.click.clone()))
        }
    }

    fn probe(&mut self, pos: u128, step: u64, height: u64) -> (res: Step<()>)
        requires
            step >= 1,
        ensures
            final(self).server == old(self).server,
            final(self).channel == old(self).channel,
            (final(self).phase, res@) == probe_at(pos, step, height, old(self).channel@),
    {
        proof { use_type_invariant(&*self); }
        if pos < height as u128 + step as u128 {
            self.phase = NavPhase::Scrolling { pos, step, height };
            let shown: u64 = if pos > u64::MAX as u128 {
                u64::MAX
            } else {
                pos as u64
            };
            Step::Act(Action::Eval(make_navigate_scroll_script(shown)))
        } else {
            self.phase = NavPhase::Finished;
            Step::Finish(Err(AppError::InvalidParams(join2("channel not found: ", self.channel.as_str()))))
        }
    }

    /// The kind of reply that the navigation waits for, if it is not over.
    pub fn pending(&self) -> (k: Option<ReplyKind>)
        ensures
            k == (if self.phase() is Finished {
                None
            } else {
                Some(nav_pending(self.phase()))
            }),
    {
        match self.phase {
            NavPhase::Finished => None,
            NavPhase::ServerProbe => Some(ReplyKind::Status),
            NavPhase::ChannelProbe => Some(ReplyKind::Status),
            NavPhase::Reprobe { .. } => Some(ReplyKind::Status),
            NavPhase::ScrollProbe => Some(ReplyKind::Scroll),
            _ => Some(ReplyKind::Done),
        }
    }

    /// Takes the browser's reply to the last action and says what comes next.
    pub fn resume(&mut self, reply: Reply) -> (step: Step<()>)
        requires
            !(old(self).phase() is Finished),
            fits(reply, nav_pending(old(self).phase())),
        ensures
            final(self).server() == old(self).server(),
            final(self).channel() == old(self).channel(),
            (final(self).phase(), step@) == nav_next(old(self).phase(), old(self).server(), old(self).channel(), reply),
            step is Act ==> nav_progress(old(self).phase(), final(self).phase()),
            step is Finish <==> final(self).phase() is Finished,
    {
        proof { use_type_invariant(&*self); }
        match reply {
            Reply::Failed(e) => {
                self.phase = NavPhase::Finished;
                Step::Finish(Err(e))
            },
            Reply::Status(s) => {
                match self.phase {
                    NavPhase::ServerProbe => {
                        proof {
                            reveal_strlit("not_found");
                            reveal_strlit("switched");
                        }
                        if s == "not_found".to_string() {
                            self.phase = NavPhase::Finished;
                            Step::Finish(Err(AppError::InvalidParams(join2("server not found: ", self.server.as_str()))))
                        } else if s == "switched".to_string() {
                            self.phase = NavPhase::ServerSettle;
                            Step::Act(Action::Wait(1000))
                        } else {
                            self.enter_channel()
                        }
                    },
                    NavPhase::ChannelProbe => {
                        if s == "switched".to_string() {
                            self.phase = NavPhase::Finished;
                            Step::Finish(Ok(()))
                        } else {
                            self.phase = NavPhase::ScrollProbe;
                            Step::Act(Action::EvalScroll(CHANNEL_LIST_SCROLL_INFO.to_string()))
                        }
                    },
                    NavPhase::Reprobe { pos, step, height } => {
                        if s == "switched".to_string() {
                            self.phase = NavPhase::Finished;
                            Step::Finish(Ok(()))
                        } else {
                            self.probe(pos + step as u128, step, height)
                        }
                    },
                    _ => {
                        assert(false);
                        Step::Finish(Ok(()))
                    },
                }
            },
            Reply::Scroll(info) => {
                self.phase = NavPhase::ScrollSettle { height: info.scroll_height, client: info.client_height };
                Step::Act(Action::Wait(300))
            },
            _ => {
                match self.phase {
                    NavPhase::ServerSettle => self.enter_channel(),
                    NavPhase::ScrollSettle { height, client } => {
                        if height > client {
                            let step: u64 = if client > 200 {
                                client
                            } else {
                                200
                            };
                            self.probe(step as u128, step, height)
                        } else {
                            self.phase = NavPhase::Finished;
                            Step::Finish(Err(AppError::InvalidParams(join2("channel not found: ", self.channel.as_str()))))
                        }
                    },
                    NavPhase::Scrolling { pos, step, height } => {
                        self.phase = NavPhase::ScrollWait { pos, step, height };
                        Step::Act(Action::Wait(300))
                    },
                    NavPhase::ScrollWait { pos, step, height } => {
                        self.phase = NavPhase::Reprobe { pos, step, height };
                        Step::Act(Action::EvalStatus(self.click.clone()))
                    },
                    _ => {
                        assert(false);
                        Step::Finish(Ok(()))
                    },
                }
            },
        }
    }
}

/// Starts switching to `server` and then to `channel`.
pub fn navigate(server: &str, channel: &str) -> (res: (Navigation, Step<()>))
    ensures
        res.0.server() == server@,
        res.0.channel() == channel@,
        (res.0.phase(), res.1@) == nav_start(server@, channel@),
{
    let click = make_channel_click_script(channel);
    let mut nav = Navigation {
        server: server.to_string(),
        channel: channel.to_string(),
        click,
        phase: NavPhase::Finished,
    };
    let step = if server.unicode_len() > 0 {
        nav.phase = NavPhase::ServerProbe;
        Step::Act(Action::EvalStatus(make_server_switch_script(server)))
    } else {
        nav.enter_channel()
    };
    (nav, step)
}

} // verus!
