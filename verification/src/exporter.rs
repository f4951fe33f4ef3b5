//! The exporter: what it asks of the container runtime, and the one text it
//! makes of what came back.

use crate::container::{display_name, scrape_url, ContainerDescriptor, ExecRequest};
use crate::relabel::{
    add_service_name_to_metric_line, classify, line_kind, relabeled, LineKind,
};
use crate::scrape::{accept, accepted_lines, ScrapeAttempt};
use crate::text::{join, join_lines, join_of_two_runs, line_views};
use vstd::prelude::*;
use vstd::string::*;

verus! {

/// The query that finds the containers to scrape: those that run and carry the
/// label, whatever its value.
#[derive(Clone, Debug)]
pub struct ContainerQuery {
    /// Whether stopped containers are listed too.
    pub all: bool,
    /// Whether sizes are reported.
    pub size: bool,
    /// The key that a container's labels must hold.
    pub label: String,
}

/// A container together with what came of scraping it.
#[derive(Clone, Debug)]
pub struct ContainerScrape {
    pub container: ContainerDescriptor,
    pub attempt: ScrapeAttempt,
}

/// What one request found.
#[derive(Clone, Debug)]
pub enum Discovery {
    /// The containers could not be listed.
    Failed,
    /// The containers were listed, and each was scraped in the order listed.
    Listed { scrapes: Vec<ContainerScrape> },
}

/// The answer to a request whose containers could not be listed.
#[derive(Clone, Copy, Debug, PartialEq, Eq, Structural)]
pub struct Rejection;

/// Each line, relabeled with `name`.
pub open spec fn relabeled_lines(lines: Seq<Seq<char>>, name: Seq<char>) -> Seq<Seq<char>> {
    Seq::new(lines.len(), |i: int| relabeled(lines[i], name))
}

/// The lines that one container adds to the response: its accepted lines, each
/// relabeled with the container's name; none where its scrape does not count.
pub open spec fn contribution(scrape: ContainerScrape) -> Seq<Seq<char>> {
    match accepted_lines(scrape.attempt) {
        Some(lines) => relabeled_lines(lines, display_name(scrape.container.labels@)),
        None => Seq::empty(),
    }
}

/// The lines of the response: those of each container, in the order of the
/// containers.
pub open spec fn all_lines(scrapes: Seq<ContainerScrape>) -> Seq<Seq<char>>
    decreases scrapes.len(),
{
    if scrapes.len() == 0 {
        Seq::empty()
    } else {
        all_lines(scrapes.drop_last()) + contribution(scrapes.last())
    }
}

/// The response text: all lines, with a newline between each two. A container
/// whose scrape does not count adds neither a line nor a newline.
pub open spec fn combined(scrapes: Seq<ContainerScrape>) -> Seq<char> {
    join_lines(all_lines(scrapes))
}

/// The accepted lines of a container that are malformed, in their order.
pub open spec fn malformed_among(lines: Seq<Seq<char>>) -> Seq<Seq<char>> {
    lines.filter(|line: Seq<char>| line_kind(line) == LineKind::Malformed)
}

/// The lines of a container that went into the response as they came because
/// they are malformed.
pub open spec fn malformed_contribution(scrape: ContainerScrape) -> Seq<Seq<char>> {
    match accepted_lines(scrape.attempt) {
        Some(lines) => malformed_among(lines),
        None => Seq::empty(),
    }
}

/// The response to a request: the combined text, or nothing where the
/// containers could not be listed.
pub open spec fn response(discovery: Discovery) -> Option<Seq<char>> {
    match discovery {
        Discovery::Failed => None,
        Discovery::Listed { scrapes } => Some(combined(scrapes@)),
    }
}

/// With no container listed, the response is the empty text, and no failure.
pub proof fn no_container_gives_empty_text(scrapes: Vec<ContainerScrape>)
    requires
        scrapes@.len() == 0,
    ensures
        response(Discovery::Listed { scrapes }) == Some(Seq::<char>::empty()),
{
}

/// The lines of two runs of containers, one after the other, are the lines of
/// the first followed by the lines of the second: the order of the containers
/// is the order of the lines, and no container's outcome touches another's
/// lines.
pub proof fn lines_follow_container_order(
    first: Seq<ContainerScrape>,
    second: Seq<ContainerScrape>,
)
    ensures
        all_lines(first + second) == all_lines(first) + all_lines(second),
    decreases second.len(),
{
    if second.len() == 0 {
        assert(first + second =~= first);
        assert(all_lines(first) + all_lines(second) =~= all_lines(first));
    } else {
        lines_follow_container_order(first, second.drop_last());
        assert((first + second).drop_last() =~= first + second.drop_last());
        assert((first + second).last() == second.last());
        assert(all_lines(first + second) =~= all_lines(first) + all_lines(second));
    }
}

/// Where two runs of containers each yield a line, the text of both is the
/// text of the first, a newline, and the text of the second.
pub proof fn text_follows_container_order(
    first: Seq<ContainerScrape>,
    second: Seq<ContainerScrape>,
)
    requires
        all_lines(first).len() > 0,
        all_lines(second).len() > 0,
    ensures
        combined(first + second) == combined(first) + seq!['\n'] + combined(second),
{
    lines_follow_container_order(first, second);
    join_of_two_runs(all_lines(first), all_lines(second));
}

/// A container whose scrape does not count leaves the response as if it had
/// not been listed: it adds no line and no newline, and what stands before and
/// after it is still there.
pub proof fn rejected_container_is_skipped(
    before: Seq<ContainerScrape>,
    skipped: ContainerScrape,
    after: Seq<ContainerScrape>,
)
    requires
        accepted_lines(skipped.attempt) is None,
    ensures
        all_lines(before.push(skipped) + after) == all_lines(before + after),
        combined(before.push(skipped) + after) == combined(before + after),
{
    lines_follow_container_order(before.push(skipped), after);
    lines_follow_container_order(before, after);
    assert(before.push(skipped).drop_last() =~= before);
    assert(all_lines(before.push(skipped)) =~= all_lines(before));
}

/// Where no container's scrape counts, the response is the empty text.
pub proof fn all_rejected_gives_empty_text(scrapes: Seq<ContainerScrape>)
    requires
        forall|i: int| 0 <= i < scrapes.len() ==> accepted_lines(
            (#[trigger] scrapes[i]).attempt,
        ) is None,
    ensures
        all_lines(scrapes) == Seq::<Seq<char>>::empty(),
        combined(scrapes) == Seq::<char>::empty(),
    decreases scrapes.len(),
{
    if scrapes.len() > 0 {
        assert(accepted_lines(scrapes[scrapes.len() - 1].attempt) is None);
        all_rejected_gives_empty_text(scrapes.drop_last());
        assert(all_lines(scrapes) =~= Seq::<Seq<char>>::empty());
    }
}

/// A container's lines stand in the order in which they were read, each
/// relabeled on its own.
pub proof fn contribution_keeps_line_order(scrape: ContainerScrape, lines: Seq<Seq<char>>)
    requires
        accepted_lines(scrape.attempt) == Some(lines),
    ensures
        contribution(scrape).len() == lines.len(),
        forall|i: int|
            0 <= i < lines.len() ==> #[trigger] contribution(scrape)[i] == relabeled(
                lines[i],
                display_name(scrape.container.labels@),
            ),
{
}

/// Whether `request` is the command that fetches the metrics of `container`:
/// `curl`, silent, on the container's own loopback address, with standard
/// output attached and standard error not.
pub open spec fn is_curl_request(
    request: ExecRequest,
    container: ContainerDescriptor,
    marker: Seq<char>,
) -> bool {
    &&& request.container_id@ == container.id@
    &&& request.attach_stdout
    &&& !request.attach_stderr
    &&& request.cmd@.len() == 3
    &&& request.cmd@[0]@ == "/bin/curl"@
    &&& request.cmd@[1]@ == "-s"@
    &&& request.cmd@[2]@ == scrape_url(container.labels@, marker)
}

/// Whether `query` finds the containers to scrape: running ones only, by the
/// marker label's key.
pub open spec fn is_marker_query(query: ContainerQuery, marker: Seq<char>) -> bool {
    &&& !query.all
    &&& !query.size
    &&& query.label@ == marker
}

/// Relabels each line with `name`.
pub fn relabel_lines(lines: &Vec<String>, name: &str) -> (out: Vec<String>)
    ensures
        line_views(out@) == relabeled_lines(line_views(lines@), name@),
{
    let mut out: Vec<String> = Vec::new();
    let mut i: usize = 0;
    while i < lines.len()
        invariant
            i <= lines@.len(),
            out@.len() == i,
            forall|k: int| 0 <= k < i ==> (#[trigger] out@[k])@ == relabeled(lines@[k]@, name@),
        decreases lines@.len() - i,
    {
        let line = add_service_name_to_metric_line(lines[i].as_str(), name);
        out.push(line);
        i = i + 1;
    }
    proof {
        assert(line_views(out@) =~= relabeled_lines(line_views(lines@), name@));
    }
    out
}

/// The lines that one container adds to the response.
pub fn contribution_of(scrape: &ContainerScrape) -> (lines: Vec<String>)
    ensures
        line_views(lines@) == contribution(*scrape),
{
    let name = scrape.container.display_name();
    match accept(&scrape.attempt) {
        Some(lines) => relabel_lines(&lines, name.as_str()),
        None => {
            let none: Vec<String> = Vec::new();
            proof {
                assert(line_views(none@) =~= Seq::<Seq<char>>::empty());
            }
            none
        },
    }
}

/// The accepted lines of a container that are malformed, in their order: the
/// lines that went into the response without the container's name.
pub fn malformed_lines(scrape: &ContainerScrape) -> (lines: Vec<String>)
    ensures
        line_views(lines@) == malformed_contribution(*scrape),
{
    let mut found: Vec<String> = Vec::new();
    proof {
        assert(line_views(found@) =~= Seq::<Seq<char>>::empty());
    }
    match accept(&scrape.attempt) {
        Some(lines) => {
            let ghost all = line_views(lines@);
            let mut i: usize = 0;
            proof {
                reveal(Seq::filter);
                assert(all.take(0) =~= Seq::<Seq<char>>::empty());
            }
            while i < lines.len()
                invariant
                    i <= lines@.len(),
                    all == line_views(lines@),
                    line_views(found@) == malformed_among(all.take(i as int)),
                decreases lines@.len() - i,
            {
                let ghost before = line_views(found@);
                let kind = classify(lines[i].as_str());
                proof {
                    assert(all.take(i + 1) =~= all.take(i as int).push(lines@[i as int]@));
                    all.take(i as int).lemma_filter_push(
                        lines@[i as int]@,
                        |line: Seq<char>| line_kind(line) == LineKind::Malformed,
                    );
                }
                if kind == LineKind::Malformed {
                    found.push(lines[i].clone());
                    proof {
                        assert(line_views(found@) =~= before.push(lines@[i as int]@));
                    }
                }
                i = i + 1;
            }
            proof {
                assert(all.take(i as int) =~= all);
            }
            found
        },
        None => found,
    }
}

/// The response text made of `scrapes`.
pub fn combine(scrapes: &Vec<ContainerScrape>) -> (metrics: String)
    ensures
        metrics@ == combined(scrapes@),
{
    let mut lines: Vec<String> = Vec::new();
    let mut i: usize = 0;
    proof {
        assert(line_views(lines@) =~= all_lines(scrapes@.take(0)));
    }
    while i < scrapes.len()
        invariant
            i <= scrapes@.len(),
            line_views(lines@) == all_lines(scrapes@.take(i as int)),
        decreases scrapes@.len() - i,
    {
        let ghost before = lines@;
        let mut part = contribution_of(&scrapes[i]);
        let ghost added = part@;
        lines.append(&mut part);
        proof {
            assert(scrapes@.take(i + 1).drop_last() =~= scrapes@.take(i as int));
            assert(line_views(before + added) =~= line_views(before) + line_views(added));
        }
        i = i + 1;
    }
    proof {
        assert(scrapes@.take(i as int) =~= scrapes@);
    }
    join(&lines)
}

/// Collects metrics from the containers of one host that carry a marker label.
#[derive(Clone, Debug)]
pub struct ServiceMetricsExporter {
    label_has_metrics: String,
}

impl ServiceMetricsExporter {
    /// The marker label: the key that a container's labels must hold for the
    /// container to be scraped, and whose value says where.
    pub closed spec fn marker(&self) -> Seq<char> {
        self.label_has_metrics@
    }

    /// An exporter for the containers that carry `label_has_metrics`.
    pub fn new(label_has_metrics: String) -> (exporter: ServiceMetricsExporter)
        ensures
            exporter.marker() == label_has_metrics@,
    {
        ServiceMetricsExporter { label_has_metrics }
    }

    /// The query for the containers to scrape: running containers only, by the
    /// marker label's key.
    pub fn container_query(&self) -> (query: ContainerQuery)
        ensures
            is_marker_query(query, self.marker()),
    {
        ContainerQuery { all: false, size: false, label: self.label_has_metrics.clone() }
    }

    /// The command that fetches a container's metrics from inside it: `curl`,
    /// silent, on the container's own loopback address, with standard output
    /// attached and standard error not.
    pub fn curl_exec_request(&self, container: &ContainerDescriptor) -> (request: ExecRequest)
        ensures
            is_curl_request(request, *container, self.marker()),
    {
        let target = container.scrape_target(self.label_has_metrics.as_str());
        let mut url = String::from_str("http://localhost:");
        url.append(target.as_str());
        let mut cmd: Vec<String> = Vec::new();
        cmd.push(String::from_str("/bin/curl"));
        cmd.push(String::from_str("-s"));
        cmd.push(url);
        ExecRequest {
            container_id: container.id.clone(),
            cmd,
            attach_stdout: true,
            attach_stderr: false,
        }
    }

    /// The one text made of what a request found, or nothing where the
    /// containers could not be listed.
    pub fn get_combined_metrics_from_all_containers(&self, discovery: &Discovery) -> (metrics:
        Option<String>)
        ensures
            match metrics {
                Some(text) => response(*discovery) == Some(text@),
                None => response(*discovery) is None,
            },
    {
        match discovery {
            Discovery::Failed => None,
            Discovery::Listed { scrapes } => Some(combine(scrapes)),
        }
    }

    /// Answers one request: the combined text, or a rejection where the
    /// containers could not be listed.
    pub fn export_metrics(&self, discovery: &Discovery) -> (answer: Result<String, Rejection>)
        ensures
            match answer {
                Ok(text) => response(*discovery) == Some(text@),
                Err(_) => response(*discovery) is None,
            },
    {
        match self.get_combined_metrics_from_all_containers(discovery) {
            None => Err(Rejection),
            Some(metrics) => Ok(metrics),
        }
    }
}

} // verus!
