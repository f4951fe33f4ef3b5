//! One request, step by step. The exporter itself reaches no container
//! runtime: it says what to ask next, is told what came back, and in the end
//! says what to answer.

use crate::container::{ContainerDescriptor, ExecRequest};
use crate::exporter::{
    combine, combined, is_curl_request, is_marker_query, ContainerQuery, ContainerScrape,
    Rejection, ServiceMetricsExporter,
};
use crate::scrape::{InspectOutcome, ScrapeAttempt, StartOutcome};
use vstd::prelude::*;

verus! {

/// Where a request stands.
#[derive(Clone, Debug)]
pub enum Stage {
    /// The containers are being listed.
    Listing,
    /// The fetch command is being registered in `container`.
    Creating { container: ContainerDescriptor },
    /// The registered command is being started and its output read.
    Starting { container: ContainerDescriptor, exec_id: String },
    /// The command's exit status is being asked for.
    Inspecting { container: ContainerDescriptor, exec_id: String, start: StartOutcome },
    /// Every container has been dealt with.
    Finished,
    /// The containers could not be listed.
    Rejected,
}

/// A request under way: its stage, the containers still to come, in order, and
/// what came of those already dealt with, in order.
#[derive(Clone, Debug)]
pub struct Run {
    pub stage: Stage,
    pub pending: Vec<ContainerDescriptor>,
    pub scrapes: Vec<ContainerScrape>,
}

/// What the container runtime did on being asked.
#[derive(Clone, Debug)]
pub enum Event {
    /// The containers that carry the marker label, or none if listing failed.
    Listed { containers: Option<Vec<ContainerDescriptor>> },
    /// The identifier of the registered command, or none if registering failed.
    Created { exec_id: Option<String> },
    /// How starting the command went.
    Started { outcome: StartOutcome },
    /// What the runtime said of the command afterwards.
    Inspected { outcome: InspectOutcome },
}

/// What to do next.
#[derive(Debug)]
pub enum Action {
    /// List the containers; answer with `Event::Listed`.
    List { query: ContainerQuery },
    /// Register the command; answer with `Event::Created`.
    Create { request: ExecRequest },
    /// Start the command and read its output to the end; answer with
    /// `Event::Started`.
    Start { exec_id: String },
    /// Ask for the command's exit status; answer with `Event::Inspected`.
    Inspect { exec_id: String },
    /// Answer the request.
    Respond { answer: Result<String, Rejection> },
}

/// The next container is taken up: the first of those pending, if there is
/// one; otherwise the request is finished.
pub open spec fn takes_next(
    stage: Stage,
    pending: Seq<ContainerDescriptor>,
    waiting: Seq<ContainerDescriptor>,
) -> bool {
    if waiting.len() > 0 {
        stage == (Stage::Creating { container: waiting[0] }) && pending == waiting.drop_first()
    } else {
        stage == Stage::Finished && pending == waiting
    }
}

/// Whether `next` is what `run` becomes on `event`.
///
/// A list of containers starts the first scrape; a failed listing rejects the
/// request. A registered command is started; one that could not be registered
/// ends its container's scrape. A started command is inspected, however the
/// start went. An inspected command ends its container's scrape. Once a scrape
/// has ended, it is put on record and the next container is taken up. An event
/// that does not answer what was asked changes nothing.
pub open spec fn follows(run: Run, event: Event, next: Run) -> bool {
    match (run.stage, event) {
        (Stage::Listing, Event::Listed { containers: Some(list) }) => {
            &&& next.scrapes@ == run.scrapes@
            &&& takes_next(next.stage, next.pending@, list@)
        },
        (Stage::Listing, Event::Listed { containers: None }) => {
            &&& next.stage == Stage::Rejected
            &&& next.pending@ == run.pending@
            &&& next.scrapes@ == run.scrapes@
        },
        (Stage::Creating { container }, Event::Created { exec_id: Some(exec_id) }) => {
            &&& next.stage == (Stage::Starting { container, exec_id })
            &&& next.pending@ == run.pending@
            &&& next.scrapes@ == run.scrapes@
        },
        (Stage::Creating { container }, Event::Created { exec_id: None }) => {
            &&& next.scrapes@ == run.scrapes@.push(
                ContainerScrape { container, attempt: ScrapeAttempt::CreateFailed },
            )
            &&& takes_next(next.stage, next.pending@, run.pending@)
        },
        (Stage::Starting { container, exec_id }, Event::Started { outcome }) => {
            &&& next.stage == (Stage::Inspecting { container, exec_id, start: outcome })
            &&& next.pending@ == run.pending@
            &&& next.scrapes@ == run.scrapes@
        },
        (Stage::Inspecting { container, exec_id, start }, Event::Inspected { outcome }) => {
            &&& next.scrapes@ == run.scrapes@.push(
                ContainerScrape {
                    container,
                    attempt: ScrapeAttempt::Ran { start, inspect: outcome },
                },
            )
            &&& takes_next(next.stage, next.pending@, run.pending@)
        },
        _ => {
            &&& next.stage == run.stage
            &&& next.pending@ == run.pending@
            &&& next.scrapes@ == run.scrapes@
        },
    }
}

/// Whether `action` is what `run` asks for, under the given marker label.
pub open spec fn asks(run: Run, marker: Seq<char>, action: Action) -> bool {
    match run.stage {
        Stage::Listing => action matches Action::List { query } && is_marker_query(query, marker),
        Stage::Creating { container } => action matches Action::Create { request }
            && is_curl_request(request, container, marker),
        Stage::Starting { exec_id, .. } => action == (Action::Start { exec_id }),
        Stage::Inspecting { exec_id, .. } => action == (Action::Inspect { exec_id }),
        Stage::Finished => action matches Action::Respond { answer: Ok(text) } && text@
            == combined(run.scrapes@),
        Stage::Rejected => action matches Action::Respond { answer: Err(_) },
    }
}

/// The containers of the scrapes on record, in order.
pub open spec fn scraped(scrapes: Seq<ContainerScrape>) -> Seq<ContainerDescriptor> {
    Seq::new(scrapes.len(), |i: int| scrapes[i].container)
}

/// The containers of a run, in order: those dealt with, the one being dealt
/// with, and those still to come.
pub open spec fn containers_of(run: Run) -> Seq<ContainerDescriptor> {
    let current = match run.stage {
        Stage::Creating { container } => seq![container],
        Stage::Starting { container, .. } => seq![container],
        Stage::Inspecting { container, .. } => seq![container],
        _ => Seq::empty(),
    };
    scraped(run.scrapes@) + current + run.pending@
}

/// Once the containers are listed, no step adds, drops or reorders one: each
/// is scraped in the place in which it was listed.
pub proof fn steps_keep_container_order(run: Run, event: Event, next: Run)
    requires
        follows(run, event, next),
        !(run.stage is Listing),
    ensures
        containers_of(next) =~= containers_of(run),
{
    let ended = match (run.stage, event) {
        (Stage::Creating { .. }, Event::Created { exec_id: None }) => true,
        (Stage::Inspecting { .. }, Event::Inspected { .. }) => true,
        _ => false,
    };
    if ended {
        assert(scraped(next.scrapes@).drop_last() =~= scraped(run.scrapes@));
        if run.pending@.len() > 0 {
            assert(run.pending@ =~= seq![run.pending@[0]] + run.pending@.drop_first());
        }
    }
}

/// The list that starts a fresh run is the run's containers, in its order.
pub proof fn listing_sets_container_order(run: Run, list: Vec<ContainerDescriptor>, next: Run)
    requires
        run.stage is Listing,
        run.scrapes@.len() == 0,
        follows(run, Event::Listed { containers: Some(list) }, next),
    ensures
        containers_of(next) =~= list@,
{
    if list@.len() > 0 {
        assert(list@ =~= seq![list@[0]] + list@.drop_first());
    }
}

/// No step changes what is on record; a step that ends a container's scrape
/// adds that scrape at the end.
pub proof fn steps_only_add_to_record(run: Run, event: Event, next: Run)
    requires
        follows(run, event, next),
    ensures
        next.scrapes@ == run.scrapes@ || (next.scrapes@.len() == run.scrapes@.len() + 1
            && next.scrapes@.drop_last() == run.scrapes@),
{
    if next.scrapes@ != run.scrapes@ {
        assert(next.scrapes@.drop_last() =~= run.scrapes@);
    }
}

/// Takes up the next of the waiting containers.
fn take_next(waiting: Vec<ContainerDescriptor>, scrapes: Vec<ContainerScrape>) -> (next: Run)
    ensures
        next.scrapes == scrapes,
        takes_next(next.stage, next.pending@, waiting@),
{
    let mut pending = waiting;
    if pending.len() > 0 {
        let container = pending.remove(0);
        proof {
            assert(waiting@.remove(0) =~= waiting@.drop_first());
        }
        Run { stage: Stage::Creating { container }, pending, scrapes }
    } else {
        Run { stage: Stage::Finished, pending, scrapes }
    }
}

/// Puts the scrape of `container` on record and takes up the next container.
fn record(
    container: ContainerDescriptor,
    attempt: ScrapeAttempt,
    pending: Vec<ContainerDescriptor>,
    scrapes: Vec<ContainerScrape>,
) -> (next: Run)
    ensures
        next.scrapes@ == scrapes@.push(ContainerScrape { container, attempt }),
        takes_next(next.stage, next.pending@, pending@),
{
    let mut scrapes = scrapes;
    scrapes.push(ContainerScrape { container, attempt });
    take_next(pending, scrapes)
}

impl Run {
    /// A request at its start: nothing listed, nothing scraped.
    pub fn new() -> (run: Run)
        ensures
            run.stage is Listing,
            run.pending@.len() == 0,
            run.scrapes@.len() == 0,
    {
        Run { stage: Stage::Listing, pending: Vec::new(), scrapes: Vec::new() }
    }

    /// The run after `event`.
    pub fn advance(self, event: Event) -> (next: Run)
        ensures
            follows(self, event, next),
    {
        let Run { stage, pending, scrapes } = self;
        match (stage, event) {
            (Stage::Listing, Event::Listed { containers: Some(list) }) => take_next(list, scrapes),
            (Stage::Listing, Event::Listed { containers: None }) => Run {
                stage: Stage::Rejected,
                pending,
                scrapes,
            },
            (Stage::Creating { container }, Event::Created { exec_id: Some(exec_id) }) => Run {
                stage: Stage::Starting { container, exec_id },
                pending,
                scrapes,
            },
            (Stage::Creating { container }, Event::Created { exec_id: None }) => record(
                container,
                ScrapeAttempt::CreateFailed,
                pending,
                scrapes,
            ),
            (Stage::Starting { container, exec_id }, Event::Started { outcome }) => Run {
                stage: Stage::Inspecting { container, exec_id, start: outcome },
                pending,
                scrapes,
            },
            (Stage::Inspecting { container, exec_id, start }, Event::Inspected { outcome }) => {
                record(container, ScrapeAttempt::Ran { start, inspect: outcome }, pending, scrapes)
            },
            (stage, _) => Run { stage, pending, scrapes },
        }
    }
}

impl ServiceMetricsExporter {
    /// What `run` asks for next.
    pub fn pending_action(&self, run: &Run) -> (action: Action)
        ensures
            asks(*run, self.marker(), action),
    {
        match &run.stage {
            Stage::Listing => Action::List { query: self.container_query() },
            Stage::Creating { container } => Action::Create {
                request: self.curl_exec_request(container),
            },
            Stage::Starting { exec_id, .. } => Action::Start { exec_id: exec_id.clone() },
            Stage::Inspecting { exec_id, .. } => Action::Inspect { exec_id: exec_id.clone() },
            Stage::Finished => Action::Respond { answer: Ok(combine(&run.scrapes)) },
            Stage::Rejected => Action::Respond { answer: Err(Rejection) },
        }
    }
}

} // verus!
