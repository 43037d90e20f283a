use vstd::prelude::*;

use crate::browser::{fits, Action, ActionModel, Reply, ReplyKind, StatusLine, Step, StepModel};
use crate::error::error_text;
use crate::navigate::{navigate, nav_next, nav_pending, nav_progress, NavPhase, Navigation};
use crate::params::{optional_string, Params, target_param};
use crate::script::{channel_click_script, make_server_switch_script, server_switch_script};
use crate::text::join2;

verus! {

/// The lines of `lines` joined by `sep`.
pub open spec fn join_lines(lines: Seq<Seq<char>>, sep: Seq<char>) -> Seq<char>
    decreases lines.len(),
{
    if lines.len() == 0 {
        Seq::empty()
    } else if lines.len() == 1 {
        lines[0]
    } else {
        join_lines(lines.drop_last(), sep) + sep + lines.last()
    }
}

/// Where a `switch` stands.
pub enum SwitchPhase {
    /// Waiting for the status of the server switch.
    ServerProbe,
    /// Waiting for the page to settle after the server switch.
    ServerSettle,
    /// Switching the channel.
    Navigating,
    Finished,
}

/// How far a switch is from its end, counting the phases still ahead of it:
/// every action that does not belong to the channel navigation moves it
/// closer.
pub open spec fn switch_rank(p: SwitchPhase) -> nat {
    match p {
        SwitchPhase::ServerProbe => 3,
        SwitchPhase::ServerSettle => 2,
        SwitchPhase::Navigating => 1,
        SwitchPhase::Finished => 0,
    }
}

/// The `switch` command: switch to a server and/or a channel, and report
/// what happened, one line per part.
pub struct Switch {
    server: String,
    channel: String,
    lines: Vec<String>,
    nav: Navigation,
    phase: SwitchPhase,
}

pub open spec fn switch_pending(p: SwitchPhase, nav: NavPhase) -> ReplyKind {
    match p {
        SwitchPhase::ServerProbe => ReplyKind::Status,
        SwitchPhase::Navigating => nav_pending(nav),
        _ => ReplyKind::Done,
    }
}

/// The answer: the report lines joined by "; ".
pub open spec fn switch_answer(lines: Seq<Seq<char>>) -> StepModel<Seq<char>> {
    StepModel::Finish(Ok(join_lines(lines, "; "@)))
}

/// After the server part: switch the channel, or answer.
pub open spec fn switch_channel_part(channel: Seq<char>, lines: Seq<Seq<char>>) -> (SwitchPhase, NavPhase, Seq<Seq<char>>, StepModel<Seq<char>>) {
    if channel.len() > 0 {
        (
            SwitchPhase::Navigating,
            NavPhase::ChannelProbe,
            lines,
            StepModel::Act(ActionModel::EvalStatus(channel_click_script(channel))),
        )
    } else {
        (SwitchPhase::Finished, NavPhase::Finished, lines, switch_answer(lines))
    }
}

/// What follows a step of the channel navigation: a failure is reported as a
/// line, not as an error.
pub open spec fn switch_after_nav(s: StepModel<()>, channel: Seq<char>, lines: Seq<Seq<char>>) -> (SwitchPhase, Seq<Seq<char>>, StepModel<Seq<char>>) {
    match s {
        StepModel::Act(a) => (SwitchPhase::Navigating, lines, StepModel::Act(a)),
        StepModel::Finish(Ok(_)) => {
            let l = lines.push("switched to channel: "@ + channel);
            (SwitchPhase::Finished, l, switch_answer(l))
        },
        StepModel::Finish(Err(e)) => {
            let l = lines.push(error_text(e));
            (SwitchPhase::Finished, l, switch_answer(l))
        },
    }
}

/// The line that reports the server switch, from the status the page gave.
pub open spec fn server_line(status: Seq<char>, server: Seq<char>) -> Seq<char> {
    if status == "switched"@ {
        "switched to server: "@ + server
    } else if status == "already_on"@ {
        "already on server: "@ + server
    } else {
        "server not found: "@ + server
    }
}

impl Switch {
    #[verifier::type_invariant]
    spec fn inv(&self) -> bool {
        self.phase is Navigating ==> !(self.nav.phase() is Finished) && self.nav.server() == Seq::<char>::empty()
            && self.nav.channel() == self.channel@
    }

    pub closed spec fn server(&self) -> Seq<char> {
        self.server@
    }

    pub closed spec fn channel(&self) -> Seq<char> {
        self.channel@
    }

    /// The report lines so far.
    pub closed spec fn lines(&self) -> Seq<Seq<char>> {
        self.lines@.map_values(|l: String| l@)
    }

    pub closed spec fn phase(&self) -> SwitchPhase {
        self.phase
    }

    pub closed spec fn navigation(&self) -> Navigation {
        self.nav
    }

    fn answer(&self) -> (res: StatusLine)
        ensures
            StepModel::<Seq<char>>::Finish(Ok(res@)) == switch_answer(self.lines()),
    {
        let mut out = String::new();
        let mut i: usize = 0;
        while i < self.lines.len()
            invariant
                i <= self.lines@.len(),
                out@ == join_lines(self.lines().take(i as int), "; "@),
            decreases self.lines@.len() - i,
        {
            let ghost before = self.lines().take(i as int);
            assert(self.lines().take(i + 1).drop_last() =~= before);
            if i > 0 {
                out.append("; ");
            } else {
                assert(before =~= Seq::<Seq<char>>::empty());
            }
            out.append(self.lines[i].as_str());
            assert(self.lines().take(i + 1).last() == self.lines[i as int]@);
            i = i + 1;
        }
        assert(self.lines().take(self.lines@.len() as int) =~= self.lines());
        StatusLine { status: out }
    }

    fn push_line(&mut self, line: String)
        ensures
            final(self).lines() == old(self).lines().push(line@),
            final(self).server == old(self).server,
            final(self).channel == old(self).channel,
            final(self).phase == old(self).phase,
            final(self).nav == old(self).nav,
    {
        proof { use_type_invariant(&*self); }
        let mut lines: Vec<String> = Vec::new();
        std::mem::swap(&mut lines, &mut self.lines);
        lines.push(line);
        self.lines = lines;
        assert(self.lines() =~= old(self).lines().push(line@));
    }

    fn channel_part(&mut self) -> (step: Step<StatusLine>)
        requires
            !(old(self).phase is Navigating),
        ensures
            final(self).server == old(self).server,
            final(self).channel == old(self).channel,
            (final(self).phase, final(self).nav.phase(), final(self).lines(), step@)
                == switch_channel_part(old(self).channel@, old(self).lines()),
    {
        proof { use_type_invariant(&*self); }
        if self.channel.as_str().unicode_len() > 0 {
            proof { reveal_strlit(""); }
            let (nav, s) = navigate("", self.channel.as_str());
            assert(nav.server() =~= Seq::<char>::empty());
            match s {
                Step::Act(a) => {
                    self.nav = nav;
                    self.phase = SwitchPhase::Navigating;
                    Step::Act(a)
                },
                _ => {
                    assert(false);
                    Step::Finish(Ok(self.answer()))
                },
            }
        } else {
            self.phase = SwitchPhase::Finished;
            self.nav = Navigation::idle();
            Step::Finish(Ok(self.answer()))
        }
    }


    /// The kind of reply that the command waits for, if it is not over.
    pub fn pending(&self) -> (k: Option<ReplyKind>)
        ensures
            k == (if self.phase() is Finished {
                None
            } else {
                Some(switch_pending(self.phase(), self.navigation().phase()))
            }),
    {
        match self.phase {
            SwitchPhase::Finished => None,
            SwitchPhase::ServerProbe => Some(ReplyKind::Status),
            SwitchPhase::ServerSettle => Some(ReplyKind::Done),
            SwitchPhase::Navigating => match self.nav.pending() {
                Some(k) => Some(k),
                None => Some(ReplyKind::Done),
            },
        }
    }

    /// Takes the browser's reply to the last action and says what comes next.
    pub fn resume(&mut self, reply: Reply) -> (step: Step<StatusLine>)
        requires
            !(old(self).phase() is Finished),
            fits(reply, switch_pending(old(self).phase(), old(self).navigation().phase())),
        ensures
            final(self).server() == old(self).server(),
            final(self).channel() == old(self).channel(),
            step is Finish <==> final(self).phase() is Finished,
            old(self).phase() is ServerProbe ==> match reply {
                Reply::Failed(e) => step@ == StepModel::<Seq<char>>::Finish(Err(e@)),
                Reply::Status(s) => {
                    let lines = old(self).lines().push(server_line(s@, old(self).server()));
                    if s@ == "switched"@ {
                        &&& final(self).phase() is ServerSettle
                        &&& final(self).lines() == lines
                        &&& step@ == StepModel::<Seq<char>>::Act(ActionModel::Wait(1000))
                    } else {
                        (final(self).phase(), final(self).navigation().phase(), final(self).lines(), step@)
                            == switch_channel_part(old(self).channel(), lines)
                    }
                },
                _ => true,
            },
            old(self).phase() is ServerSettle ==> match reply {
                Reply::Failed(e) => step@ == StepModel::<Seq<char>>::Finish(Err(e@)),
                _ => (final(self).phase(), final(self).navigation().phase(), final(self).lines(), step@)
                    == switch_channel_part(old(self).channel(), old(self).lines()),
            },
            old(self).phase() is Navigating ==> {
                let (np, ns) = nav_next(
                    old(self).navigation().phase(),
                    old(self).navigation().server(),
                    old(self).navigation().channel(),
                    reply,
                );
                &&& final(self).navigation().phase() == np
                &&& (final(self).phase(), final(self).lines(), step@)
                    == switch_after_nav(ns, old(self).channel(), old(self).lines())
                &&& (step is Act ==> nav_progress(old(self).navigation().phase(), np))
            },
            step is Act && !(old(self).phase() is Navigating)
                ==> switch_rank(final(self).phase()) < switch_rank(old(self).phase()),
    {
        proof { use_type_invariant(&*self); }
        match self.phase {
            SwitchPhase::ServerProbe => match reply {
                Reply::Failed(e) => {
                    self.phase = SwitchPhase::Finished;
                    Step::Finish(Err(e))
                },
                Reply::Status(s) => {
                    proof {
                        reveal_strlit("switched");
                        reveal_strlit("already_on");
                    }
                    if s == "switched".to_string() {
                        let line = join2("switched to server: ", self.server.as_str());
                        self.push_line(line);
                        self.phase = SwitchPhase::ServerSettle;
                        Step::Act(Action::Wait(1000))
                    } else if s == "already_on".to_string() {
                        let line = join2("already on server: ", self.server.as_str());
                        self.push_line(line);
                        self.channel_part()
                    } else {
                        let line = join2("server not found: ", self.server.as_str());
                        self.push_line(line);
                        self.channel_part()
                    }
                },
                _ => {
                    assert(false);
                    Step::Finish(Ok(self.answer()))
                },
            },
            SwitchPhase::ServerSettle => match reply {
                Reply::Failed(e) => {
                    self.phase = SwitchPhase::Finished;
                    Step::Finish(Err(e))
                },
                _ => self.channel_part(),
            },
            SwitchPhase::Navigating => {
                self.phase = SwitchPhase::Finished;
                let mut nav = Navigation::idle();
                std::mem::swap(&mut nav, &mut self.nav);
                let s = nav.resume(reply);
                match s {
                    Step::Act(a) => {
                        self.nav = nav;
                        self.phase = SwitchPhase::Navigating;
                        Step::Act(a)
                    },
                    Step::Finish(Ok(())) => {
                        self.nav = nav;
                        let line = join2("switched to channel: ", self.channel.as_str());
                        self.push_line(line);
                        Step::Finish(Ok(self.answer()))
                    },
                    Step::Finish(Err(e)) => {
                        self.nav = nav;
                        let line = e.message();
                        self.push_line(line);
                        Step::Finish(Ok(self.answer()))
                    },
                }
            },
            SwitchPhase::Finished => {
                assert(false);
                Step::Finish(Ok(self.answer()))
            },
        }
    }
}

/// Starts a `switch` to the server and channel that the parameters name.
pub fn execute(params: &Params) -> (res: (Switch, Step<StatusLine>))
    ensures
        res.0.server() == target_param(*params, "server"@),
        res.0.channel() == target_param(*params, "channel"@),
        ({
            let server = target_param(*params, "server"@);
            let channel = target_param(*params, "channel"@);
            if server.len() == 0 && channel.len() == 0 {
                &&& res.0.phase() is Finished
                &&& res.1@ == StepModel::<Seq<char>>::Finish(Ok("nothing to do"@))
            } else if server.len() > 0 {
                &&& res.0.phase() is ServerProbe
                &&& res.0.lines() == Seq::<Seq<char>>::empty()
                &&& res.1@ == StepModel::<Seq<char>>::Act(ActionModel::EvalStatus(server_switch_script(server)))
            } else {
                (res.0.phase(), res.0.navigation().phase(), res.0.lines(), res.1@)
                    == switch_channel_part(channel, Seq::empty())
            }
        }),
{
    let server = match optional_string(params, "server") {
        Some(s) => s,
        None => "",
    };
    let channel = match optional_string(params, "channel") {
        Some(s) => s,
        None => "",
    };
    proof {
        reveal_strlit("");
    }
    let mut sw = Switch {
        server: server.to_string(),
        channel: channel.to_string(),
        lines: Vec::new(),
        nav: Navigation::idle(),
        phase: SwitchPhase::Finished,
    };
    assert(sw.lines() =~= Seq::<Seq<char>>::empty());
    if server.unicode_len() == 0 && channel.unicode_len() == 0 {
        return (sw, Step::Finish(Ok(StatusLine { status: "nothing to do".to_string() })));
    }
    if server.unicode_len() > 0 {
        sw.phase = SwitchPhase::ServerProbe;
        let script = make_server_switch_script(server);
        return (sw, Step::Act(Action::EvalStatus(script)));
    }
    let step = sw.channel_part();
    (sw, step)
}

} // verus!
