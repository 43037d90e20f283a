use vstd::prelude::*;

use crate::browser::{fits, Action, ActionModel, Reply, ReplyKind, StatusLine, Step, StepModel};
use crate::error::AppError;
use crate::navigate::{navigate, nav_next, nav_pending, nav_progress, nav_start, NavPhase, Navigation};
use crate::params::{missing_param, optional_string, present_text, Params, target_param};
use crate::script::{make_send_insert_script, send_insert_script, SEND_SUBMIT};
use crate::text::join3;

verus! {

/// Where a `send` stands.
pub enum SendPhase {
    Navigating,
    /// Waiting for the text to be typed into the editor.
    Inserting,
    InsertWait,
    /// Waiting for Enter to be pressed.
    Submitting,
    Finished,
}

/// The `send` command: post a message to a channel.
pub struct Send {
    nav: Navigation,
    text: Option<String>,
    phase: SendPhase,
}

pub open spec fn send_pending(p: SendPhase, nav: NavPhase) -> ReplyKind {
    match p {
        SendPhase::Navigating => nav_pending(nav),
        _ => ReplyKind::Done,
    }
}

/// The step after the navigation: a missing text is an error, else type it.
pub open spec fn send_begin(text: Option<Seq<char>>) -> (SendPhase, StepModel<Seq<char>>) {
    match text {
        None => (SendPhase::Finished, StepModel::Finish(Err(missing_param("text"@)))),
        Some(t) => (SendPhase::Inserting, StepModel::Act(ActionModel::Eval(send_insert_script(t)))),
    }
}

pub open spec fn send_lift(s: StepModel<()>, text: Option<Seq<char>>) -> (SendPhase, StepModel<Seq<char>>) {
    match s {
        StepModel::Act(a) => (SendPhase::Navigating, StepModel::Act(a)),
        StepModel::Finish(Ok(_)) => send_begin(text),
        StepModel::Finish(Err(e)) => (SendPhase::Finished, StepModel::Finish(Err(e))),
    }
}

/// The next phase and step of a `send` in phase `p` (past the navigation).
pub open spec fn send_next(p: SendPhase, r: Reply) -> (SendPhase, StepModel<Seq<char>>) {
    match r {
        Reply::Failed(e) => (SendPhase::Finished, StepModel::Finish(Err(e@))),
        _ => match p {
            SendPhase::Inserting => (SendPhase::InsertWait, StepModel::Act(ActionModel::Wait(300))),
            SendPhase::InsertWait => (SendPhase::Submitting, StepModel::Act(ActionModel::Eval(SEND_SUBMIT@))),
            SendPhase::Submitting => (SendPhase::Finished, StepModel::Finish(Ok("Success"@))),
            _ => arbitrary(),
        },
    }
}

impl Send {
    #[verifier::type_invariant]
    spec fn inv(&self) -> bool {
        self.phase is Navigating ==> !(self.nav.phase() is Finished)
    }

    pub closed spec fn phase(&self) -> SendPhase {
        self.phase
    }

    pub closed spec fn navigation(&self) -> Navigation {
        self.nav
    }

    /// The text to send, trimmed; `None` where it is missing or blank.
    pub closed spec fn text(&self) -> Option<Seq<char>> {
        match self.text {
            Some(t) => Some(t@),
            None => None,
        }
    }

    fn after_navigation(&mut self, s: Step<()>) -> (step: Step<StatusLine>)
        requires
            s is Act ==> !(old(self).nav.phase() is Finished),
        ensures
            final(self).nav == old(self).nav,
            final(self).text == old(self).text,
            (final(self).phase, step@) == send_lift(s@, old(self).text()),
    {
        match s {
            Step::Act(a) => {
                self.phase = SendPhase::Navigating;
                Step::Act(a)
            },
            Step::Finish(Ok(())) => match &self.text {
                Some(t) => {
                    let script = make_send_insert_script(t.as_str());
                    self.phase = SendPhase::Inserting;
                    Step::Act(Action::Eval(script))
                },
                None => {
                    self.phase = SendPhase::Finished;
                    Step::Finish(Err(AppError::InvalidParams(join3("`", "text", "` is required"))))
                },
            },
            Step::Finish(Err(e)) => {
                self.phase = SendPhase::Finished;
                Step::Finish(Err(e))
            },
        }
    }


    /// The kind of reply that the command waits for, if it is not over.
    pub fn pending(&self) -> (k: Option<ReplyKind>)
        ensures
            k == (if self.phase() is Finished {
                None
            } else {
                Some(send_pending(self.phase(), self.navigation().phase()))
            }),
    {
        match self.phase {
            SendPhase::Finished => None,
            SendPhase::Navigating => match self.nav.pending() {
                Some(k) => Some(k),
                None => Some(ReplyKind::Done),
            },
            _ => Some(ReplyKind::Done),
        }
    }

    /// Takes the browser's reply to the last action and says what comes next.
    pub fn resume(&mut self, reply: Reply) -> (step: Step<StatusLine>)
        requires
            !(old(self).phase() is Finished),
            fits(reply, send_pending(old(self).phase(), old(self).navigation().phase())),
        ensures
            final(self).text() == old(self).text(),
            old(self).phase() is Navigating ==> {
                let (np, ns) = nav_next(
                    old(self).navigation().phase(),
                    old(self).navigation().server(),
                    old(self).navigation().channel(),
                    reply,
                );
                &&& final(self).navigation().phase() == np
                &&& (final(self).phase(), step@) == send_lift(ns, old(self).text())
                &&& (step is Act && final(self).phase() is Navigating ==> nav_progress(old(self).navigation().phase(), np))
            },
            !(old(self).phase() is Navigating) ==> (final(self).phase(), step@) == send_next(old(self).phase(), reply),
            step is Finish <==> final(self).phase() is Finished,
    {
        proof { use_type_invariant(&*self); }
        if let SendPhase::Navigating = self.phase {
            self.phase = SendPhase::Finished;
            let mut nav = Navigation::idle();
            std::mem::swap(&mut nav, &mut self.nav);
            let s = nav.resume(reply);
            self.nav = nav;
            return self.after_navigation(s);
        }
        if let Reply::Failed(e) = reply {
            self.phase = SendPhase::Finished;
            return Step::Finish(Err(e));
        }
        match self.phase {
            SendPhase::Inserting => {
                self.phase = SendPhase::InsertWait;
                Step::Act(Action::Wait(300))
            },
            SendPhase::InsertWait => {
                self.phase = SendPhase::Submitting;
                Step::Act(Action::Eval(SEND_SUBMIT.to_string()))
            },
            _ => {
                self.phase = SendPhase::Finished;
                Step::Finish(Ok(StatusLine { status: "Success".to_string() }))
            },
        }
    }
}

/// Starts a `send`: switch to the server and channel that the parameters
/// name, then post the parameter `text`.
pub fn execute(params: &Params) -> (res: (Send, Step<StatusLine>))
    ensures
        res.0.navigation().server() == target_param(*params, "server"@),
        res.0.navigation().channel() == target_param(*params, "channel"@),
        res.0.text() == present_text(*params, "text"@),
        res.0.navigation().phase() == nav_start(
            target_param(*params, "server"@),
            target_param(*params, "channel"@),
        ).0,
        (res.0.phase(), res.1@) == send_lift(
            nav_start(target_param(*params, "server"@), target_param(*params, "channel"@)).1,
            present_text(*params, "text"@),
        ),
{
    let server = match optional_string(params, "server") {
        Some(s) => s,
        None => "",
    };
    let channel = match optional_string(params, "channel") {
        Some(s) => s,
        None => "",
    };
    proof {
        reveal_strlit("");
    }
    let (nav, first) = navigate(server, channel);
    let text = match optional_string(params, "text") {
        Some(t) => Some(t.to_string()),
        None => None,
    };
    let mut send = Send { nav, text, phase: SendPhase::Finished };
    let step = send.after_navigation(first);
    (send, step)
}

} // verus!
