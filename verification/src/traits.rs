//! Where each kind of workload keeps the label selector of its pods.
//!
//! The types here hold, of a workload read from the cluster, what pod
//! discovery looks at: the selector and the path that leads to it.
use crate::text::{comes_before, lemma_not_before_itself, lemma_precedes_in_turn, text_precedes};
use vstd::prelude::*;

verus! {

/// A label selector: the labels a pod must carry to belong to a workload, in
/// the order in which they are to be written into a query. A cluster keeps
/// them as a map by key: see `well_formed`.
#[derive(Clone, Debug, Default, PartialEq, Eq)]
pub struct LabelSelector {
    pub match_labels: Option<Vec<(String, String)>>,
}

/// Whether the keys of `labels` ascend strictly in the order of strings.
pub open spec fn keys_ascend(labels: Seq<(String, String)>) -> bool {
    forall|i: int, j: int|
        0 <= i < j < labels.len() ==> text_precedes(
            (#[trigger] labels[i]).0@,
            (#[trigger] labels[j]).0@,
        )
}

/// Labels whose keys ascend hold no key twice.
pub proof fn lemma_ascending_keys_differ(labels: Seq<(String, String)>)
    requires
        keys_ascend(labels),
    ensures
        forall|i: int, j: int|
            0 <= i < labels.len() && 0 <= j < labels.len() && i != j ==> (#[trigger] labels[i]).0@
                != (#[trigger] labels[j]).0@,
{
    assert forall|i: int, j: int|
        0 <= i < labels.len() && 0 <= j < labels.len() && i != j implies (#[trigger] labels[i]).0@
        != (#[trigger] labels[j]).0@ by {
        lemma_not_before_itself(labels[i].0@, 0);
        if i < j {
            assert(text_precedes(labels[i].0@, labels[j].0@));
        } else {
            assert(text_precedes(labels[j].0@, labels[i].0@));
        }
    }
}

impl LabelSelector {
    /// Whether the labels are as a cluster gives them: a map by key, walked
    /// in the order of its keys. So the keys ascend, and none comes twice.
    pub open spec fn well_formed(&self) -> bool {
        match self.match_labels {
            Some(labels) => keys_ascend(labels@),
            None => true,
        }
    }

    /// Whether the labels are as a cluster gives them.
    pub fn is_well_formed(&self) -> (r: bool)
        ensures
            r == self.well_formed(),
    {
        match &self.match_labels {
            None => true,
            Some(labels) => {
                if labels.len() == 0 {
                    return true;
                }
                let mut at: usize = 1;
                while at < labels.len()
                    invariant
                        1 <= at <= labels@.len(),
                        self.match_labels == Some(*labels),
                        keys_ascend(labels@.take(at as int)),
                    decreases labels@.len() - at,
                {
                    if !comes_before(labels[at - 1].0.as_str(), labels[at].0.as_str()) {
                        assert(!text_precedes(labels@[at - 1].0@, labels@[at as int].0@));
                        return false;
                    }
                    proof {
                        let longer = labels@.take(at + 1);
                        let shorter = labels@.take(at as int);
                        assert forall|i: int, j: int| 0 <= i < j < longer.len() implies text_precedes(
                            (#[trigger] longer[i]).0@,
                            (#[trigger] longer[j]).0@,
                        ) by {
                            if j < at {
                                assert(text_precedes(shorter[i].0@, shorter[j].0@));
                            } else if i < at - 1 {
                                assert(text_precedes(shorter[i].0@, shorter[at - 1].0@));
                                lemma_precedes_in_turn(
                                    longer[i].0@,
                                    longer[at - 1].0@,
                                    longer[j].0@,
                                    0,
                                );
                            }
                        }
                    }
                    at += 1;
                }
                proof {
                    assert(labels@.take(at as int) =~= labels@);
                }
                true
            },
        }
    }
}

/// The spec of a Deployment. Its selector is mandatory.
#[derive(Clone, Debug, Default, PartialEq, Eq)]
pub struct DeploymentSpec {
    pub selector: LabelSelector,
}

/// The spec of a StatefulSet. Its selector is mandatory.
#[derive(Clone, Debug, Default, PartialEq, Eq)]
pub struct StatefulSetSpec {
    pub selector: LabelSelector,
}

/// The spec of a DaemonSet. Its selector is mandatory.
#[derive(Clone, Debug, Default, PartialEq, Eq)]
pub struct DaemonSetSpec {
    pub selector: LabelSelector,
}

/// The spec of a Job. Its selector is optional.
#[derive(Clone, Debug, Default, PartialEq, Eq)]
pub struct JobSpec {
    pub selector: Option<LabelSelector>,
}

/// The template from which a CronJob makes its Jobs.
#[derive(Clone, Debug, Default, PartialEq, Eq)]
pub struct JobTemplateSpec {
    pub spec: Option<JobSpec>,
}

/// The spec of a CronJob. Its selector is that of the Job template.
#[derive(Clone, Debug, Default, PartialEq, Eq)]
pub struct CronJobSpec {
    pub job_template: JobTemplateSpec,
}

/// A Deployment, as far as pod discovery reads it.
#[derive(Clone, Debug, Default, PartialEq, Eq)]
pub struct Deployment {
    pub spec: Option<DeploymentSpec>,
}

/// A StatefulSet, as far as pod discovery reads it.
#[derive(Clone, Debug, Default, PartialEq, Eq)]
pub struct StatefulSet {
    pub spec: Option<StatefulSetSpec>,
}

/// A DaemonSet, as far as pod discovery reads it.
#[derive(Clone, Debug, Default, PartialEq, Eq)]
pub struct DaemonSet {
    pub spec: Option<DaemonSetSpec>,
}

/// A Job, as far as pod discovery reads it.
#[derive(Clone, Debug, Default, PartialEq, Eq)]
pub struct Job {
    pub spec: Option<JobSpec>,
}

/// A CronJob, as far as pod discovery reads it.
#[derive(Clone, Debug, Default, PartialEq, Eq)]
pub struct CronJob {
    pub spec: Option<CronJobSpec>,
}

/// What `found` refers to.
pub open spec fn referent<T>(found: Option<&T>) -> Option<T> {
    match found {
        Some(target) => Some(*target),
        None => None,
    }
}

/// A workload spec that may hold a label selector.
pub trait SpecSelector {
    /// The selector that this spec holds, if it holds one.
    spec fn held_selector(&self) -> Option<LabelSelector>;

    /// The selector of this spec, where it has one.
    fn selector(&self) -> (r: Option<&LabelSelector>)
        ensures
            referent(r) == self.held_selector(),
    ;
}

impl SpecSelector for DeploymentSpec {
    open spec fn held_selector(&self) -> Option<LabelSelector> {
        Some(self.selector)
    }

    fn selector(&self) -> (r: Option<&LabelSelector>) {
        Some(&self.selector)
    }
}

impl SpecSelector for StatefulSetSpec {
    open spec fn held_selector(&self) -> Option<LabelSelector> {
        Some(self.selector)
    }

    fn selector(&self) -> (r: Option<&LabelSelector>) {
        Some(&self.selector)
    }
}

impl SpecSelector for DaemonSetSpec {
    open spec fn held_selector(&self) -> Option<LabelSelector> {
        Some(self.selector)
    }

    fn selector(&self) -> (r: Option<&LabelSelector>) {
        Some(&self.selector)
    }
}

impl SpecSelector for JobSpec {
    open spec fn held_selector(&self) -> Option<LabelSelector> {
        self.selector
    }

    fn selector(&self) -> (r: Option<&LabelSelector>) {
        self.selector.as_ref()
    }
}

impl SpecSelector for CronJobSpec {
    open spec fn held_selector(&self) -> Option<LabelSelector> {
        match self.job_template.spec {
            Some(job) => job.selector,
            None => None,
        }
    }

    fn selector(&self) -> (r: Option<&LabelSelector>) {
        match &self.job_template.spec {
            Some(job) => job.selector.as_ref(),
            None => None,
        }
    }
}

/// A workload that may have a spec, and through it a selector.
pub trait HasSpec {
    type Spec: SpecSelector;

    /// The spec that this workload holds, if it holds one.
    spec fn held_spec(&self) -> Option<Self::Spec>;

    /// The spec of this workload, where it has one.
    fn spec(&self) -> (r: Option<&Self::Spec>)
        ensures
            referent(r) == self.held_spec(),
    ;

    /// The selector of this workload: that of its spec, and none where it
    /// has no spec.
    fn selector(&self) -> (r: Option<&LabelSelector>)
        ensures
            referent(r) == match self.held_spec() {
                Some(spec) => spec.held_selector(),
                None => None,
            },
    ;
}

/// The selector that a workload resolves to: the one its spec holds, and
/// none where it has no spec or the spec holds none.
pub open spec fn resolved_selector<T: HasSpec + ?Sized>(workload: &T) -> Option<LabelSelector> {
    match workload.held_spec() {
        Some(spec) => spec.held_selector(),
        None => None,
    }
}

impl HasSpec for Deployment {
    type Spec = DeploymentSpec;

    open spec fn held_spec(&self) -> Option<DeploymentSpec> {
        self.spec
    }

    fn spec(&self) -> (r: Option<&DeploymentSpec>) {
        self.spec.as_ref()
    }

    fn selector(&self) -> (r: Option<&LabelSelector>) {
        match &self.spec {
            Some(spec) => Some(&spec.selector),
            None => None,
        }
    }
}

impl HasSpec for StatefulSet {
    type Spec = StatefulSetSpec;

    open spec fn held_spec(&self) -> Option<StatefulSetSpec> {
        self.spec
    }

    fn spec(&self) -> (r: Option<&StatefulSetSpec>) {
        self.spec.as_ref()
    }

    fn selector(&self) -> (r: Option<&LabelSelector>) {
        match &self.spec {
            Some(spec) => Some(&spec.selector),
            None => None,
        }
    }
}

impl HasSpec for DaemonSet {
    type Spec = DaemonSetSpec;

    open spec fn held_spec(&self) -> Option<DaemonSetSpec> {
        self.spec
    }

    fn spec(&self) -> (r: Option<&DaemonSetSpec>) {
        self.spec.as_ref()
    }

    fn selector(&self) -> (r: Option<&LabelSelector>) {
        match &self.spec {
            Some(spec) => Some(&spec.selector),
            None => None,
        }
    }
}

impl HasSpec for Job {
    type Spec = JobSpec;

    open spec fn held_spec(&self) -> Option<JobSpec> {
        self.spec
    }

    fn spec(&self) -> (r: Option<&JobSpec>) {
        self.spec.as_ref()
    }

    fn selector(&self) -> (r: Option<&LabelSelector>) {
        match &self.spec {
            Some(spec) => spec.selector.as_ref(),
            None => None,
        }
    }
}

impl HasSpec for CronJob {
    type Spec = CronJobSpec;

    open spec fn held_spec(&self) -> Option<CronJobSpec> {
        self.spec
    }

    fn spec(&self) -> (r: Option<&CronJobSpec>) {
        self.spec.as_ref()
    }

    fn selector(&self) -> (r: Option<&LabelSelector>) {
        match &self.spec {
            Some(spec) => match &spec.job_template.spec {
                Some(job) => job.selector.as_ref(),
                None => None,
            },
            None => None,
        }
    }
}

} // verus!
