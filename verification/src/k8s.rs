//! Workload references, the query that finds a workload's pods, and the
//! log stream of one pod.
//!
//! Nothing here talks to a cluster. Each function decides what is to be
//! asked of it next, or what to make of its answer.
use crate::text::{
    contains_text, lemma_empty_occurs_everywhere, occurs_in, plain_text, texts,
};
use crate::traits::{resolved_selector, HasSpec, SpecSelector};
use crate::util::{get_rnd_color, paint};
use itertools::Itertools;
use vstd::prelude::*;

verus! {

/// A kind of workload.
#[derive(Clone, Copy, Debug, PartialEq, Eq, Structural)]
pub enum ResourceKind {
    Deployment,
    StatefulSet,
    DaemonSet,
    Job,
    CronJob,
}

/// A kind of workload, with the name of one workload of that kind.
#[derive(Clone, Debug)]
pub enum ResourceType {
    Deployment(String),
    StatefulSet(String),
    DaemonSet(String),
    Job(String),
    CronJob(String),
}

/// A watched workload: its kind and name, and the namespace it lives in.
#[derive(Clone, Debug)]
pub struct ResourceInfo {
    pub resource_type: ResourceType,
    pub namespace: String,
}

/// What a `ResourceInfo` holds.
pub struct ResourceInfoView {
    pub kind: ResourceKind,
    pub name: Seq<char>,
    pub namespace: Seq<char>,
}

impl View for ResourceInfo {
    type V = ResourceInfoView;

    open spec fn view(&self) -> ResourceInfoView {
        ResourceInfoView {
            kind: self.resource_type.kind_of(),
            name: self.resource_type.name_text(),
            namespace: self.namespace@,
        }
    }
}

impl ResourceType {
    /// The kind of the workload.
    pub open spec fn kind_of(&self) -> ResourceKind {
        match self {
            ResourceType::Deployment(_) => ResourceKind::Deployment,
            ResourceType::StatefulSet(_) => ResourceKind::StatefulSet,
            ResourceType::DaemonSet(_) => ResourceKind::DaemonSet,
            ResourceType::Job(_) => ResourceKind::Job,
            ResourceType::CronJob(_) => ResourceKind::CronJob,
        }
    }

    /// The workload of this kind and name.
    pub fn of(kind: ResourceKind, name: String) -> (r: ResourceType)
        ensures
            r.kind_of() == kind,
            r.name_text() == name@,
    {
        match kind {
            ResourceKind::Deployment => ResourceType::Deployment(name),
            ResourceKind::StatefulSet => ResourceType::StatefulSet(name),
            ResourceKind::DaemonSet => ResourceType::DaemonSet(name),
            ResourceKind::Job => ResourceType::Job(name),
            ResourceKind::CronJob => ResourceType::CronJob(name),
        }
    }

    /// The kind of the workload.
    pub fn kind(&self) -> (r: ResourceKind)
        ensures
            r == self.kind_of(),
    {
        match self {
            ResourceType::Deployment(_) => ResourceKind::Deployment,
            ResourceType::StatefulSet(_) => ResourceKind::StatefulSet,
            ResourceType::DaemonSet(_) => ResourceKind::DaemonSet,
            ResourceType::Job(_) => ResourceKind::Job,
            ResourceType::CronJob(_) => ResourceKind::CronJob,
        }
    }

    /// The name of the workload.
    pub open spec fn name_text(&self) -> Seq<char> {
        match self {
            ResourceType::Deployment(name) => name@,
            ResourceType::StatefulSet(name) => name@,
            ResourceType::DaemonSet(name) => name@,
            ResourceType::Job(name) => name@,
            ResourceType::CronJob(name) => name@,
        }
    }

    /// The name of the workload.
    pub fn name(&self) -> (r: &String)
        ensures
            r@ == self.name_text(),
    {
        match self {
            ResourceType::Deployment(name) => name,
            ResourceType::StatefulSet(name) => name,
            ResourceType::DaemonSet(name) => name,
            ResourceType::Job(name) => name,
            ResourceType::CronJob(name) => name,
        }
    }
}

/// Why the pods of a workload could not be found.
#[derive(Debug)]
pub enum DiscoveryError {
    /// The workload has no spec, or its spec has no selector.
    MissingSelector,
    /// The workload's selector names no labels to match.
    MissingMatchLabels,
    /// The cluster did not answer as hoped: the workload does not exist, or
    /// a call failed. The text says which.
    Api(String),
}

impl DiscoveryError {
    /// What a log line says of this failure.
    pub open spec fn message_text(&self) -> Seq<char> {
        match self {
            DiscoveryError::MissingSelector => "Missing selector"@,
            DiscoveryError::MissingMatchLabels => "Missing match labels"@,
            DiscoveryError::Api(cause) => cause@,
        }
    }

    /// A copy of this failure.
    pub fn duplicate(&self) -> (r: DiscoveryError)
        ensures
            r == *self,
    {
        match self {
            DiscoveryError::MissingSelector => DiscoveryError::MissingSelector,
            DiscoveryError::MissingMatchLabels => DiscoveryError::MissingMatchLabels,
            DiscoveryError::Api(cause) => DiscoveryError::Api(cause.clone()),
        }
    }

    /// What a log line says of this failure.
    pub fn message(&self) -> (r: String)
        ensures
            r@ == self.message_text(),
    {
        match self {
            DiscoveryError::MissingSelector => String::from_str("Missing selector"),
            DiscoveryError::MissingMatchLabels => String::from_str("Missing match labels"),
            DiscoveryError::Api(cause) => cause.clone(),
        }
    }
}

/// The pods to list: those of `namespace` that `label_selector` matches.
#[derive(Debug)]
pub struct PodListRequest {
    pub namespace: String,
    pub label_selector: String,
}

/// One label as a selector query writes it: `key=value`.
pub open spec fn label_term(label: (String, String)) -> Seq<char> {
    label.0@ + seq!['='] + label.1@
}

/// The terms of `labels`, in order.
pub open spec fn label_terms(labels: Seq<(String, String)>) -> Seq<Seq<char>> {
    labels.map_values(|label: (String, String)| label_term(label))
}

/// `parts` written one after the other with `sep` between each two.
pub open spec fn joined(parts: Seq<Seq<char>>, sep: Seq<char>) -> Seq<char>
    decreases parts.len(),
{
    if parts.len() == 0 {
        Seq::<char>::empty()
    } else if parts.len() == 1 {
        parts[0]
    } else {
        joined(parts.drop_last(), sep) + sep + parts.last()
    }
}

/// The selector query that matches the pods carrying all of `labels`:
/// `key=value` terms separated by commas.
pub open spec fn label_query(labels: Seq<(String, String)>) -> Seq<char> {
    joined(label_terms(labels), seq![','])
}

/// `Itertools::join` over the strings of `parts`: the first string, then for
/// each further one `sep` and the string.
#[verifier::external_body]
fn join_texts(parts: &Vec<String>, sep: &str) -> (r: String)
    ensures
        r@ == joined(texts(parts@), sep@),
{
    parts.iter().join(sep)
}

/// The request that lists the pods of `ns_name` carrying all of
/// `match_labels`.
pub fn get_pod_list(ns_name: &str, match_labels: &Vec<(String, String)>) -> (r: PodListRequest)
    ensures
        r.namespace@ == ns_name@,
        r.label_selector@ == label_query(match_labels@),
{
    let mut terms: Vec<String> = Vec::new();
    let mut at: usize = 0;
    while at < match_labels.len()
        invariant
            at <= match_labels@.len(),
            terms@.len() == at,
            texts(terms@) == label_terms(match_labels@.take(at as int)),
        decreases match_labels@.len() - at,
    {
        let mut term = match_labels[at].0.clone();
        term.append("=");
        term.append(match_labels[at].1.as_str());
        proof {
            reveal_strlit("=");
            assert("="@ =~= seq!['=']);
            assert(term@ =~= label_term(match_labels@[at as int]));
            assert forall|i: int| 0 <= i < at implies texts(terms@.push(term))[i] == label_terms(
                match_labels@.take(at + 1),
            )[i] by {
                assert(texts(terms@)[i] == label_terms(match_labels@.take(at as int))[i]);
            }
            assert(texts(terms@.push(term)) =~= label_terms(match_labels@.take(at + 1)));
        }
        terms.push(term);
        at += 1;
    }
    proof {
        reveal_strlit(",");
        assert(","@ =~= seq![',']);
        assert(match_labels@.take(at as int) =~= match_labels@);
    }
    PodListRequest { namespace: ns_name.to_owned(), label_selector: join_texts(&terms, ",") }
}

/// The labels that select the pods of `workload`, where it names any.
pub open spec fn selecting_labels<T: HasSpec>(workload: &T) -> Option<Vec<(String, String)>> {
    match resolved_selector(workload) {
        Some(selector) => selector.match_labels,
        None => None,
    }
}

/// The request that lists the pods of `workload`, a workload of `ns_name`
/// as the cluster returned it.
///
/// Fails with `MissingSelector` where the workload has no spec or the spec
/// no selector, and with `MissingMatchLabels` where the selector names no
/// labels.
pub fn get_pod_list_for_resource<T: HasSpec>(workload: &T, ns_name: &str) -> (r: Result<
    PodListRequest,
    DiscoveryError,
>)
    ensures
        match r {
            Ok(request) => {
                &&& selecting_labels(workload) matches Some(labels)
                &&& request.namespace@ == ns_name@
                &&& request.label_selector@ == label_query(labels@)
            },
            Err(DiscoveryError::MissingSelector) => resolved_selector(workload) is None,
            Err(DiscoveryError::MissingMatchLabels) => {
                &&& resolved_selector(workload) is Some
                &&& selecting_labels(workload) is None
            },
            Err(DiscoveryError::Api(_)) => false,
        },
{
    let selector = match workload.spec() {
        Some(spec) => match spec.selector() {
            Some(selector) => selector,
            None => {
                return Err(DiscoveryError::MissingSelector);
            },
        },
        None => {
            return Err(DiscoveryError::MissingSelector);
        },
    };
    match &selector.match_labels {
        Some(labels) => Ok(get_pod_list(ns_name, labels)),
        None => Err(DiscoveryError::MissingMatchLabels),
    }
}

/// The names of the listed pods, in order.
pub open spec fn present_names(listed: Seq<Option<String>>) -> Seq<Seq<char>> {
    listed.map_values(|name: Option<String>| name->0@)
}

/// The names of the pods that a list call returned, in order. Every listed
/// pod must have a name.
pub fn collect_pod_names(listed: Vec<Option<String>>) -> (r: Vec<String>)
    requires
        forall|i: int| 0 <= i < listed@.len() ==> listed@[i] is Some,
    ensures
        texts(r@) == present_names(listed@),
{
    let mut names: Vec<String> = Vec::new();
    let mut at: usize = 0;
    while at < listed.len()
        invariant
            at <= listed@.len(),
            forall|i: int| 0 <= i < listed@.len() ==> listed@[i] is Some,
            names@.len() == at,
            texts(names@) == present_names(listed@.take(at as int)),
        decreases listed@.len() - at,
    {
        match &listed[at] {
            Some(name) => {
                let name = name.clone();
                proof {
                    assert forall|i: int| 0 <= i < at implies texts(names@.push(name))[i]
                        == present_names(listed@.take(at + 1))[i] by {
                        assert(texts(names@)[i] == present_names(listed@.take(at as int))[i]);
                    }
                    assert(texts(names@.push(name)) =~= present_names(listed@.take(at + 1)));
                }
                names.push(name);
            },
            None => {},
        }
        at += 1;
    }
    proof {
        assert(listed@.take(at as int) =~= listed@);
    }
    names
}

/// A log stream to start: the pod, its namespace, whether to follow the log
/// as it grows, and the text a line must hold to be shown.
#[derive(Debug)]
pub struct StreamRequest {
    pub pod_name: String,
    pub namespace: String,
    pub follow: bool,
    pub filter: String,
}

/// What to ask of the cluster to open a pod's log.
#[derive(Debug)]
pub struct LogRequest {
    pub pod_name: String,
    pub namespace: String,
    pub container: String,
    pub follow: bool,
    pub pretty: bool,
}

/// How far the stream of one pod has come.
#[derive(Clone, Copy, Debug, PartialEq, Eq, Structural)]
pub enum StreamPhase {
    /// The pod is being looked up.
    Locating,
    /// The pod is known, its log is being opened.
    Opening,
    /// The log is open, lines are being read.
    Reading,
    /// The stream is over, for good.
    Closed,
}

/// The stream of one pod.
#[derive(Debug)]
pub struct StreamTask {
    pub request: StreamRequest,
    pub phase: StreamPhase,
    /// The container whose log is read: set once the pod is known.
    pub container: String,
    /// What marks this pod's lines: set once the log is open.
    pub prefix: String,
}

/// What the cluster answered, or what the log stream gave.
#[derive(Debug)]
pub enum StreamEvent {
    /// The pod exists. These are the names of its containers, in order.
    PodFound(Vec<String>),
    /// The log is open.
    LogOpened,
    /// The log gave this line.
    Line(String),
    /// The log has ended.
    EndOfLog,
    /// The last call failed. The text says how.
    Failed(String),
}

/// What the stream needs done next.
#[derive(Debug)]
pub enum StreamAction {
    /// Look the pod up.
    GetPod { pod_name: String, namespace: String },
    /// Open the log.
    OpenLog(LogRequest),
    /// Read the next line.
    ReadLine,
    /// Nothing more: the stream is over.
    Stop,
}

/// What a step of the stream gives to show.
#[derive(Debug)]
pub enum StreamOutput {
    Nothing,
    /// A log line for standard output.
    Line(String),
    /// A complaint for standard error.
    Error(String),
}

/// Whether a line is shown under `filter`: it holds `filter` somewhere. The
/// empty filter shows every line.
pub open spec fn line_passes(line: Seq<char>, filter: Seq<char>) -> bool {
    occurs_in(filter, line)
}

/// The empty filter shows every line.
pub proof fn lemma_empty_filter_shows_every_line(line: Seq<char>)
    ensures
        line_passes(line, Seq::<char>::empty()),
{
    lemma_empty_occurs_everywhere(line);
}

/// A log line as shown: the pod's prefix, a space, the line.
pub open spec fn shown_line(prefix: Seq<char>, line: Seq<char>) -> Seq<char> {
    prefix + seq![' '] + line
}

/// The complaint about a stream that failed.
pub open spec fn stream_error_text(pod_name: Seq<char>, cause: Seq<char>) -> Seq<char> {
    "Error streaming logs for pod "@ + pod_name + seq![':', ' '] + cause
}

/// Whether `event` answers what a stream in `phase` has asked.
pub open spec fn answers(phase: StreamPhase, event: StreamEvent) -> bool {
    match (phase, event) {
        (StreamPhase::Locating, StreamEvent::PodFound(_)) => true,
        (StreamPhase::Opening, StreamEvent::LogOpened) => true,
        (StreamPhase::Reading, StreamEvent::Line(_)) => true,
        (StreamPhase::Reading, StreamEvent::EndOfLog) => true,
        (StreamPhase::Closed, _) => false,
        (_, StreamEvent::Failed(_)) => true,
        _ => false,
    }
}

/// What the complaint says of a pod that was found without a container.
pub open spec fn no_container_text() -> Seq<char> {
    "the pod has no container"@
}

/// The phase that follows `phase` on `event`. An event that answers
/// nothing changes nothing, a failure closes the stream, and a closed stream
/// stays closed. So does a pod found without a container: there is no log to
/// open.
pub open spec fn next_phase(phase: StreamPhase, event: StreamEvent) -> StreamPhase {
    if !answers(phase, event) {
        phase
    } else {
        match event {
            StreamEvent::PodFound(containers) => if containers@.len() > 0 {
                StreamPhase::Opening
            } else {
                StreamPhase::Closed
            },
            StreamEvent::LogOpened => StreamPhase::Reading,
            StreamEvent::Line(_) => StreamPhase::Reading,
            StreamEvent::EndOfLog => StreamPhase::Closed,
            StreamEvent::Failed(_) => StreamPhase::Closed,
        }
    }
}

/// What a stream with `task`'s request and prefix shows on `event`.
pub open spec fn shows(task: StreamTask, event: StreamEvent, output: StreamOutput) -> bool {
    if !answers(task.phase, event) {
        output is Nothing
    } else {
        match event {
            StreamEvent::Line(line) => if line_passes(line@, task.request.filter@) {
                output matches StreamOutput::Line(text) && text@ == shown_line(
                    task.prefix@,
                    line@,
                )
            } else {
                output is Nothing
            },
            StreamEvent::Failed(cause) => output matches StreamOutput::Error(text) && text@
                == stream_error_text(task.request.pod_name@, cause@),
            StreamEvent::PodFound(containers) => if containers@.len() > 0 {
                output is Nothing
            } else {
                output matches StreamOutput::Error(text) && text@ == stream_error_text(
                    task.request.pod_name@,
                    no_container_text(),
                )
            },
            _ => output is Nothing,
        }
    }
}

/// A log line as shown: the pod's prefix, a space, the line.
pub fn format_log_line(prefix: &str, line: &str) -> (r: String)
    ensures
        r@ == shown_line(prefix@, line@),
{
    proof {
        reveal_strlit(" ");
        assert(" "@ =~= seq![' ']);
    }
    let mut out = prefix.to_owned();
    out.append(" ");
    out.append(line);
    out
}

/// The complaint about the stream of `pod_name`, which failed with `cause`.
pub fn stream_error_report(pod_name: &str, cause: &str) -> (r: String)
    ensures
        r@ == stream_error_text(pod_name@, cause@),
{
    proof {
        reveal_strlit(": ");
        assert(": "@ =~= seq![':', ' ']);
    }
    let mut out = String::from_str("Error streaming logs for pod ");
    out.append(pod_name);
    out.append(": ");
    out.append(cause);
    out
}

impl StreamTask {
    /// A stream that has not begun: its pod is yet to be looked up.
    pub fn new(request: StreamRequest) -> (task: StreamTask)
        ensures
            task.request == request,
            task.phase == StreamPhase::Locating,
            task.container@.len() == 0,
            task.prefix@.len() == 0,
    {
        StreamTask {
            request,
            phase: StreamPhase::Locating,
            container: String::new(),
            prefix: String::new(),
        }
    }

    /// What the stream needs done next: look the pod up, open the log of
    /// its chosen container (pretty-printed, following as the request
    /// says), read a line, or stop.
    pub fn pending(&self) -> (action: StreamAction)
        ensures
            match self.phase {
                StreamPhase::Locating => action matches StreamAction::GetPod { pod_name, namespace }
                    && pod_name@ == self.request.pod_name@ && namespace@
                    == self.request.namespace@,
                StreamPhase::Opening => action matches StreamAction::OpenLog(log) && log.pod_name@
                    == self.request.pod_name@ && log.namespace@ == self.request.namespace@
                    && log.container@ == self.container@ && log.follow == self.request.follow
                    && log.pretty,
                StreamPhase::Reading => action is ReadLine,
                StreamPhase::Closed => action is Stop,
            },
    {
        match self.phase {
            StreamPhase::Locating => StreamAction::GetPod {
                pod_name: self.request.pod_name.clone(),
                namespace: self.request.namespace.clone(),
            },
            StreamPhase::Opening => StreamAction::OpenLog(
                LogRequest {
                    pod_name: self.request.pod_name.clone(),
                    namespace: self.request.namespace.clone(),
                    container: self.container.clone(),
                    follow: self.request.follow,
                    pretty: true,
                },
            ),
            StreamPhase::Reading => StreamAction::ReadLine,
            StreamPhase::Closed => StreamAction::Stop,
        }
    }
}

/// One step of the stream of a pod: takes what the cluster answered and
/// says what to show.
///
/// A pod that is found has its first container chosen. When the log opens,
/// the pod's name in a colour drawn at random becomes the prefix of its
/// lines: the prefix holds the name, unless the name itself holds an escape
/// character. A line is shown, behind the prefix, if it holds the filter.
/// The end of the log closes the stream. A failure closes it too, with a
/// complaint that names the pod, and so does a pod that was found without a
/// container. An event that answers nothing that was asked is ignored.
pub fn stream_single_pod_logs(task: &mut StreamTask, event: StreamEvent) -> (output: StreamOutput)
    ensures
        final(task).request == old(task).request,
        final(task).phase == next_phase(old(task).phase, event),
        shows(*old(task), event, output),
        final(task).container@ == (match event {
            StreamEvent::PodFound(containers) if old(task).phase == StreamPhase::Locating
                && containers@.len() > 0 => containers@[0]@,
            _ => old(task).container@,
        }),
        !(old(task).phase == StreamPhase::Opening && event is LogOpened) ==> final(task).prefix
            == old(task).prefix,
        old(task).phase == StreamPhase::Opening && event is LogOpened && plain_text(
            old(task).request.pod_name@,
        ) ==> occurs_in(old(task).request.pod_name@, final(task).prefix@),
{
    match task.phase {
        StreamPhase::Closed => StreamOutput::Nothing,
        StreamPhase::Locating => match event {
            StreamEvent::PodFound(containers) => {
                if containers.len() > 0 {
                    task.container = containers[0].clone();
                    task.phase = StreamPhase::Opening;
                    StreamOutput::Nothing
                } else {
                    task.phase = StreamPhase::Closed;
                    StreamOutput::Error(
                        stream_error_report(
                            task.request.pod_name.as_str(),
                            "the pod has no container",
                        ),
                    )
                }
            },
            StreamEvent::Failed(cause) => {
                task.phase = StreamPhase::Closed;
                StreamOutput::Error(
                    stream_error_report(task.request.pod_name.as_str(), cause.as_str()),
                )
            },
            _ => StreamOutput::Nothing,
        },
        StreamPhase::Opening => match event {
            StreamEvent::LogOpened => {
                let color = get_rnd_color();
                task.prefix = paint(task.request.pod_name.as_str(), &color);
                task.phase = StreamPhase::Reading;
                StreamOutput::Nothing
            },
            StreamEvent::Failed(cause) => {
                task.phase = StreamPhase::Closed;
                StreamOutput::Error(
                    stream_error_report(task.request.pod_name.as_str(), cause.as_str()),
                )
            },
            _ => StreamOutput::Nothing,
        },
        StreamPhase::Reading => match event {
            StreamEvent::Line(line) => {
                if contains_text(line.as_str(), task.request.filter.as_str()) {
                    StreamOutput::Line(format_log_line(task.prefix.as_str(), line.as_str()))
                } else {
                    StreamOutput::Nothing
                }
            },
            StreamEvent::EndOfLog => {
                task.phase = StreamPhase::Closed;
                StreamOutput::Nothing
            },
            StreamEvent::Failed(cause) => {
                task.phase = StreamPhase::Closed;
                StreamOutput::Error(
                    stream_error_report(task.request.pod_name.as_str(), cause.as_str()),
                )
            },
            _ => StreamOutput::Nothing,
        },
    }
}

} // verus!
