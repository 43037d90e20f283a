use vstd::prelude::*;

use crate::browser::{fits, Action, ActionModel, Reply, ReplyKind, SearchResultItem, Step, StepModel};
use crate::error::AppError;
use crate::navigate::{navigate, nav_next, nav_pending, nav_progress, nav_start, NavPhase, Navigation};
use crate::params::{missing_param, optional_string, present_text, Params, target_param};
use crate::script::{make_search_type_script, search_type_script, SEARCH_CLOSE, SEARCH_OPEN, SEARCH_SCRAPE, SEARCH_SUBMIT};
use crate::text::join3;

verus! {

pub struct SearchItemModel {
    pub index: u32,
    pub author: Seq<char>,
    pub message: Seq<char>,
}

impl View for SearchResultItem {
    type V = SearchItemModel;

    open spec fn view(&self) -> SearchItemModel {
        SearchItemModel { index: self.index, author: self.author@, message: self.message@ }
    }
}

pub open spec fn results_view(v: Seq<SearchResultItem>) -> Seq<SearchItemModel> {
    v.map_values(|r: SearchResultItem| r@)
}

/// The answer of `search`.
#[derive(Debug, PartialEq, Eq)]
pub struct SearchAnswer {
    pub rows: Vec<SearchResultItem>,
}

impl View for SearchAnswer {
    type V = Seq<SearchItemModel>;

    open spec fn view(&self) -> Seq<SearchItemModel> {
        results_view(self.rows@)
    }
}

/// The answer of `search`: the results, or one row saying that there is none.
pub open spec fn search_answer(results: Seq<SearchItemModel>, query: Seq<char>) -> Seq<SearchItemModel> {
    if results.len() == 0 {
        seq![SearchItemModel { index: 0, author: "System"@, message: "No results for \""@ + query + "\""@ }]
    } else {
        results
    }
}

/// Where a `search` stands.
pub enum SearchPhase {
    Navigating,
    /// Waiting for the search box to open.
    Opening,
    OpenWait,
    /// Waiting for the query to be typed.
    Typing,
    /// Waiting for Enter to be pressed.
    Submitting,
    SubmitWait,
    /// Waiting for the results.
    Scraping,
    /// Waiting for the search box to close.
    Closing,
    Finished,
}

/// The `search` command: search the messages of a server or channel.
pub struct Search {
    nav: Navigation,
    query: Option<String>,
    results: Vec<SearchResultItem>,
    phase: SearchPhase,
}

pub open spec fn search_pending(p: SearchPhase, nav: NavPhase) -> ReplyKind {
    match p {
        SearchPhase::Navigating => nav_pending(nav),
        SearchPhase::Scraping => ReplyKind::SearchResults,
        _ => ReplyKind::Done,
    }
}

/// The step after the navigation: a missing query is an error, else open the
/// search box.
pub open spec fn search_begin(query: Option<Seq<char>>) -> (SearchPhase, StepModel<Seq<SearchItemModel>>) {
    match query {
        None => (SearchPhase::Finished, StepModel::Finish(Err(missing_param("query"@)))),
        Some(_) => (SearchPhase::Opening, StepModel::Act(ActionModel::Eval(SEARCH_OPEN@))),
    }
}

pub open spec fn search_lift(s: StepModel<()>, query: Option<Seq<char>>) -> (SearchPhase, StepModel<Seq<SearchItemModel>>) {
    match s {
        StepModel::Act(a) => (SearchPhase::Navigating, StepModel::Act(a)),
        StepModel::Finish(Ok(_)) => search_begin(query),
        StepModel::Finish(Err(e)) => (SearchPhase::Finished, StepModel::Finish(Err(e))),
    }
}

/// The next phase, results and step of a `search` in phase `p` (past the
/// navigation) that receives `r`; `query` is present past the navigation.
pub open spec fn search_next(p: SearchPhase, query: Seq<char>, results: Seq<SearchItemModel>, r: Reply) -> (SearchPhase, Seq<SearchItemModel>, StepModel<Seq<SearchItemModel>>) {
    match r {
        Reply::Failed(e) => (SearchPhase::Finished, results, StepModel::Finish(Err(e@))),
        _ => match p {
            SearchPhase::Opening => (SearchPhase::OpenWait, results, StepModel::Act(ActionModel::Wait(500))),
            SearchPhase::OpenWait => (
                SearchPhase::Typing,
                results,
                StepModel::Act(ActionModel::Eval(search_type_script(query))),
            ),
            SearchPhase::Typing => (SearchPhase::Submitting, results, StepModel::Act(ActionModel::Eval(SEARCH_SUBMIT@))),
            SearchPhase::Submitting => (SearchPhase::SubmitWait, results, StepModel::Act(ActionModel::Wait(2000))),
            SearchPhase::SubmitWait => (
                SearchPhase::Scraping,
                results,
                StepModel::Act(ActionModel::EvalSearchResults(SEARCH_SCRAPE@)),
            ),
            SearchPhase::Scraping => match r {
                Reply::SearchResults(found) => (
                    SearchPhase::Closing,
                    results_view(found@),
                    StepModel::Act(ActionModel::Eval(SEARCH_CLOSE@)),
                ),
                _ => arbitrary(),
            },
            SearchPhase::Closing => (
                SearchPhase::Finished,
                results,
                StepModel::Finish(Ok(search_answer(results, query))),
            ),
            _ => arbitrary(),
        },
    }
}

pub open spec fn search_rank(p: SearchPhase) -> int {
    match p {
        SearchPhase::Navigating => 8,
        SearchPhase::Opening => 7,
        SearchPhase::OpenWait => 6,
        SearchPhase::Typing => 5,
        SearchPhase::Submitting => 4,
        SearchPhase::SubmitWait => 3,
        SearchPhase::Scraping => 2,
        SearchPhase::Closing => 1,
        SearchPhase::Finished => 0,
    }
}

impl Search {
    #[verifier::type_invariant]
    spec fn inv(&self) -> bool {
        &&& (self.phase is Navigating ==> !(self.nav.phase() is Finished))
        &&& (!(self.phase is Navigating) && !(self.phase is Finished) ==> self.query is Some)
    }

    pub closed spec fn phase(&self) -> SearchPhase {
        self.phase
    }

    pub closed spec fn navigation(&self) -> Navigation {
        self.nav
    }

    /// The query, trimmed; `None` where it is missing or blank.
    pub closed spec fn query(&self) -> Option<Seq<char>> {
        match self.query {
            Some(q) => Some(q@),
            None => None,
        }
    }

    /// The results scraped so far.
    pub closed spec fn results(&self) -> Seq<SearchItemModel> {
        results_view(self.results@)
    }

    fn answer(&self) -> (res: SearchAnswer)
        requires
            self.query() is Some,
        ensures
            res@ == search_answer(self.results(), self.query()->0),
    {
        if self.results.len() == 0 {
            let q = match &self.query {
                Some(q) => q.as_str(),
                None => "",
            };
            let mut v: Vec<SearchResultItem> = Vec::new();
            v.push(SearchResultItem {
                index: 0,
                author: "System".to_string(),
                message: join3("No results for \"", q, "\""),
            });
            let res = SearchAnswer { rows: v };
            assert(res@ =~= search_answer(self.results(), self.query()->0));
            res
        } else {
            let mut v: Vec<SearchResultItem> = Vec::new();
            let mut i: usize = 0;
            while i < self.results.len()
                invariant
                    i <= self.results@.len(),
                    results_view(v@) =~= self.results().take(i as int),
                decreases self.results@.len() - i,
            {
                let r = &self.results[i];
                let item = SearchResultItem { index: r.index, author: r.author.clone(), message: r.message.clone() };
                let ghost before = v@;
                v.push(item);
                assert(results_view(v@) =~= results_view(before).push(item@));
                i = i + 1;
            }
            assert(self.results().take(self.results@.len() as int) =~= self.results());
            SearchAnswer { rows: v }
        }
    }

    fn after_navigation(&mut self, s: Step<()>) -> (step: Step<SearchAnswer>)
        requires
            s is Act ==> !(old(self).nav.phase() is Finished),
        ensures
            final(self).nav == old(self).nav,
            final(self).query == old(self).query,
            final(self).results == old(self).results,
            (final(self).phase, step@) == search_lift(s@, old(self).query()),
    {
        match s {
            Step::Act(a) => {
                self.phase = SearchPhase::Navigating;
                Step::Act(a)
            },
            Step::Finish(Ok(())) => {
                if self.query.is_some() {
                    self.phase = SearchPhase::Opening;
                    Step::Act(Action::Eval(SEARCH_OPEN.to_string()))
                } else {
                    self.phase = SearchPhase::Finished;
                    Step::Finish(Err(AppError::InvalidParams(join3("`", "query", "` is required"))))
                }
            },
            Step::Finish(Err(e)) => {
                self.phase = SearchPhase::Finished;
                Step::Finish(Err(e))
            },
        }
    }


    /// The kind of reply that the command waits for, if it is not over.
    pub fn pending(&self) -> (k: Option<ReplyKind>)
        ensures
            k == (if self.phase() is Finished {
                None
            } else {
                Some(search_pending(self.phase(), self.navigation().phase()))
            }),
    {
        match self.phase {
            SearchPhase::Finished => None,
            SearchPhase::Navigating => match self.nav.pending() {
                Some(k) => Some(k),
                None => Some(ReplyKind::Done),
            },
            SearchPhase::Scraping => Some(ReplyKind::SearchResults),
            _ => Some(ReplyKind::Done),
        }
    }

    /// Takes the browser's reply to the last action and says what comes next.
    pub fn resume(&mut self, reply: Reply) -> (step: Step<SearchAnswer>)
        requires
            !(old(self).phase() is Finished),
            fits(reply, search_pending(old(self).phase(), old(self).navigation().phase())),
        ensures
            final(self).query() == old(self).query(),
            old(self).phase() is Navigating ==> {
                let (np, ns) = nav_next(
                    old(self).navigation().phase(),
                    old(self).navigation().server(),
                    old(self).navigation().channel(),
                    reply,
                );
                &&& final(self).navigation().phase() == np
                &&& final(self).results() == old(self).results()
                &&& (final(self).phase(), step@) == search_lift(ns, old(self).query())
                &&& (step is Act && final(self).phase() is Navigating ==> nav_progress(old(self).navigation().phase(), np))
            },
            !(old(self).phase() is Navigating) ==> {
                &&& old(self).query() is Some
                &&& (final(self).phase(), final(self).results(), step@) == search_next(
                    old(self).phase(),
                    old(self).query()->0,
                    old(self).results(),
                    reply,
                )
            },
            step is Act && !(final(self).phase() is Navigating) ==> search_rank(final(self).phase()) < search_rank(old(self).phase()),
            step is Finish <==> final(self).phase() is Finished,
    {
        proof { use_type_invariant(&*self); }
        if let SearchPhase::Navigating = self.phase {
            self.phase = SearchPhase::Finished;
            let mut nav = Navigation::idle();
            std::mem::swap(&mut nav, &mut self.nav);
            let s = nav.resume(reply);
            self.nav = nav;
            return self.after_navigation(s);
        }
        if let Reply::Failed(e) = reply {
            self.phase = SearchPhase::Finished;
            return Step::Finish(Err(e));
        }
        match self.phase {
            SearchPhase::Opening => {
                self.phase = SearchPhase::OpenWait;
                Step::Act(Action::Wait(500))
            },
            SearchPhase::OpenWait => {
                let script = match &self.query {
                    Some(q) => make_search_type_script(q.as_str()),
                    None => make_search_type_script(""),
                };
                self.phase = SearchPhase::Typing;
                Step::Act(Action::Eval(script))
            },
            SearchPhase::Typing => {
                self.phase = SearchPhase::Submitting;
                Step::Act(Action::Eval(SEARCH_SUBMIT.to_string()))
            },
            SearchPhase::Submitting => {
                self.phase = SearchPhase::SubmitWait;
                Step::Act(Action::Wait(2000))
            },
            SearchPhase::SubmitWait => {
                self.phase = SearchPhase::Scraping;
                Step::Act(Action::EvalSearchResults(SEARCH_SCRAPE.to_string()))
            },
            SearchPhase::Scraping => {
                match reply {
                    Reply::SearchResults(found) => {
                        self.results = found;
                        self.phase = SearchPhase::Closing;
                        Step::Act(Action::Eval(SEARCH_CLOSE.to_string()))
                    },
                    _ => {
                        assert(false);
                        Step::Finish(Ok(self.answer()))
                    },
                }
            },
            _ => {
                self.phase = SearchPhase::Finished;
                Step::Finish(Ok(self.answer()))
            },
        }
    }
}

/// Starts a `search`: switch to the server and channel that the
/// parameters name, then search for the parameter `query`.
pub fn execute(params: &Params) -> (res: (Search, Step<SearchAnswer>))
    ensures
        res.0.navigation().server() == target_param(*params, "server"@),
        res.0.navigation().channel() == target_param(*params, "channel"@),
        res.0.query() == present_text(*params, "query"@),
        res.0.navigation().phase() == nav_start(
            target_param(*params, "server"@),
            target_param(*params, "channel"@),
        ).0,
        (res.0.phase(), res.1@) == search_lift(
            nav_start(target_param(*params, "server"@), target_param(*params, "channel"@)).1,
            present_text(*params, "query"@),
        ),
{
    let server = match optional_string(params, "server") {
        Some(s) => s,
        None => "",
    };
    let channel = match optional_string(params, "channel") {
        Some(s) => s,
        None => "",
    };
    proof {
        reveal_strlit("");
    }
    let (nav, first) = navigate(server, channel);
    let query = match optional_string(params, "query") {
        Some(q) => Some(q.to_string()),
        None => None,
    };
    let mut search = Search { nav, query, results: Vec::new(), phase: SearchPhase::Finished };
    let step = search.after_navigation(first);
    (search, step)
}

} // verus!
