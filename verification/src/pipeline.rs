//! The per-challenge deployment pipeline, modelled as a state machine.
//!
//! Deploying one challenge proceeds in strictly ordered phases: acquire a
//! cluster handle, apply the namespace and wait for every object it yields,
//! then for each pod in order apply its deployment, wait for readiness under
//! a fixed bound, partition the pod's ports by expose type and apply the
//! TCP service and the HTTP service/ingress for the nonempty subsets, each
//! followed by its own bounded wait. The machine only decides: every cluster
//! call is performed outside and its outcome fed back as an [`Event`]; the
//! machine answers with the next [`Action`] to perform. A fatal event moves
//! the machine into a terminal failed state carrying the challenge directory,
//! the pod name and the phase that failed.

use vstd::prelude::*;

use crate::config::{
    BuildResult,
    ChallengeConfig,
    ChallengeConfigView,
    ExposeType,
    PortSpec,
    ProfileConfig,
    ProfileConfigView,
    image_lookup,
};
use crate::render::{RenderContext, RenderContextView, TemplateKind};

verus! {

/// Seconds a pod-scoped readiness wait is bounded by: a bounded
/// [`Action::WaitReady`] that has not resolved after this long must be fed
/// back as [`Event::TimedOut`].
pub const READY_TIMEOUT_SECS: u64 = 300;

/// The opaque handle the cluster returns for one applied object, consumed
/// by the readiness waiter.
pub struct ClusterObjectRef {
    pub kind: String,
    pub namespace: String,
    pub name: String,
}

pub struct ClusterObjectRefView {
    pub kind: Seq<char>,
    pub namespace: Seq<char>,
    pub name: Seq<char>,
}

impl View for ClusterObjectRef {
    type V = ClusterObjectRefView;

    open spec fn view(&self) -> ClusterObjectRefView {
        ClusterObjectRefView { kind: self.kind@, namespace: self.namespace@, name: self.name@ }
    }
}

impl ClusterObjectRef {
    pub fn duplicate(&self) -> (r: ClusterObjectRef)
        ensures
            r@ == self@,
    {
        ClusterObjectRef {
            kind: self.kind.clone(),
            namespace: self.namespace.clone(),
            name: self.name.clone(),
        }
    }
}

/// One externally reachable endpoint produced for a pod.
#[derive(Debug, PartialEq)]
pub enum PodDeployResult {
    Http { domain: String },
    Tcp { port: usize },
}

pub enum PodDeployResultView {
    Http { domain: Seq<char> },
    Tcp { port: int },
}

impl View for PodDeployResult {
    type V = PodDeployResultView;

    open spec fn view(&self) -> PodDeployResultView {
        match self {
            PodDeployResult::Http { domain } => PodDeployResultView::Http { domain: domain@ },
            PodDeployResult::Tcp { port } => PodDeployResultView::Tcp { port: *port as int },
        }
    }
}

/// How and where one challenge was deployed and exposed.
#[derive(Debug, PartialEq)]
pub struct DeployResult {
    pub exposed: Vec<PodDeployResult>,
}

impl View for DeployResult {
    type V = Seq<PodDeployResultView>;

    open spec fn view(&self) -> Seq<PodDeployResultView> {
        self.exposed@.map_values(|e: PodDeployResult| e@)
    }
}

/// What went wrong.
#[derive(Clone, Copy, PartialEq, Eq, Structural, Debug)]
pub enum ErrorKind {
    /// The named profile is unknown.
    Config,
    /// The cluster is unreachable or refused the connection.
    Connection,
    /// No build record resolves a pod's image for this profile.
    ImageResolution,
    /// A template/context mismatch: a programmer error, fatal.
    Render,
    /// The cluster rejected a manifest.
    Apply,
    /// An applied object reported a failed condition.
    Status,
    /// Readiness was not reached within the bound.
    Timeout,
}

/// The phase of the pipeline an error arose in.
#[derive(Clone, Copy, PartialEq, Eq, Structural, Debug)]
pub enum Stage {
    Profile,
    Connect,
    Namespace,
    Deployment,
    TcpService,
    HttpIngress,
}

/// A fatal pipeline error: its kind, and an ordered chain of context —
/// the phase it arose in, the challenge directory, the pod being worked
/// on where one is in scope, and innermost the collaborator's own message
/// where the failure came from outside (empty where the pipeline itself
/// decided, as for a timeout or a missing build record).
#[derive(Debug, PartialEq)]
pub struct DeployError {
    pub kind: ErrorKind,
    pub stage: Stage,
    pub challenge: String,
    pub pod: Option<String>,
    pub reason: String,
}

pub struct DeployErrorView {
    pub kind: ErrorKind,
    pub stage: Stage,
    pub challenge: Seq<char>,
    pub pod: Option<Seq<char>>,
    pub reason: Seq<char>,
}

impl View for DeployError {
    type V = DeployErrorView;

    open spec fn view(&self) -> DeployErrorView {
        DeployErrorView {
            kind: self.kind,
            stage: self.stage,
            challenge: self.challenge@,
            pod: match self.pod {
                Some(p) => Some(p@),
                None => None,
            },
            reason: self.reason@,
        }
    }
}

/// The ports of `ports` exposed over raw TCP, in order.
pub open spec fn tcp_of(ports: Seq<PortSpec>) -> Seq<PortSpec> {
    ports.filter(|p: PortSpec| p.expose is Tcp)
}

/// The ports of `ports` exposed over HTTP, in order.
pub open spec fn http_of(ports: Seq<PortSpec>) -> Seq<PortSpec> {
    ports.filter(|p: PortSpec| p.expose is Http)
}

/// The bare port numbers of `ports`, in order.
pub open spec fn port_numbers(ports: Seq<PortSpec>) -> Seq<u16> {
    ports.map_values(|p: PortSpec| p.number)
}

/// Split a pod's port list into its TCP and HTTP subsets, each in the
/// original order: every port lands in exactly one subset, decided by its
/// expose type alone.
pub fn partition_ports(ports: &Vec<PortSpec>) -> (r: (Vec<PortSpec>, Vec<PortSpec>))
    ensures
        r.0@ == tcp_of(ports@),
        r.1@ == http_of(ports@),
{
    let mut tcp: Vec<PortSpec> = Vec::new();
    let mut http: Vec<PortSpec> = Vec::new();
    let mut i: usize = 0;
    proof {
        reveal(Seq::filter);
        assert(ports@.take(0) =~= Seq::<PortSpec>::empty());
    }
    while i < ports.len()
        invariant
            0 <= i <= ports.len(),
            tcp@ == tcp_of(ports@.take(i as int)),
            http@ == http_of(ports@.take(i as int)),
        decreases ports.len() - i,
    {
        let p = ports[i];
        proof {
            reveal(Seq::filter);
            assert(ports@.take(i + 1).drop_last() =~= ports@.take(i as int));
            assert(ports@.take(i + 1).last() == ports@[i as int]);
        }
        match p.expose {
            ExposeType::Tcp => tcp.push(p),
            ExposeType::Http => http.push(p),
        }
        i += 1;
    }
    proof {
        assert(ports@.take(ports@.len() as int) =~= ports@);
    }
    (tcp, http)
}

/// The domain one pod's HTTP exposure is routed under: the challenge slug
/// and the pod name joined by `-`, below the profile's base domain.
pub open spec fn domain_view(slug: Seq<char>, pod_name: Seq<char>, base: Seq<char>) -> Seq<char> {
    slug + "-"@ + pod_name + "."@ + base
}

/// Derive the routed domain for one pod of a challenge.
pub fn domain_for(slug: &String, pod_name: &String, base: &String) -> (r: String)
    ensures
        r@ == domain_view(slug@, pod_name@, base@),
{
    let mut s = slug.clone();
    s.append("-");
    s.append(pod_name.as_str());
    s.append(".");
    s.append(base.as_str());
    s
}

/// Everything one challenge's pipeline decides from: the resolved profile,
/// the challenge definition and the build records for its pods.
pub struct DeployInput {
    pub profile: ProfileConfig,
    pub chal: ChallengeConfig,
    pub build: BuildResult,
}

pub struct DeployInputView {
    pub profile: ProfileConfigView,
    pub chal: ChallengeConfigView,
    pub build: Seq<(Seq<char>, Seq<char>)>,
}

impl View for DeployInput {
    type V = DeployInputView;

    open spec fn view(&self) -> DeployInputView {
        DeployInputView { profile: self.profile@, chal: self.chal@, build: self.build@ }
    }
}

/// Resolve the named profile, as one challenge's first pipeline step:
/// the first profile of that name, or the config error that aborts this
/// challenge when the name is unknown.
pub fn resolve_profile_for(
    profiles: &Vec<ProfileConfig>,
    name: &String,
    chal: &ChallengeConfig,
) -> (r: Result<usize, DeployError>)
    ensures
        r is Ok <==> exists|j: int| 0 <= j < profiles@.len() && profiles@[j]@.name == name@,
        r matches Ok(i) ==> i < profiles@.len() && profiles@[i as int]@.name == name@ && forall|
            j: int,
        | 0 <= j < i ==> profiles@[j]@.name != name@,
        r matches Err(e) ==> e@.kind == ErrorKind::Config && e@.stage == Stage::Profile && e@.challenge
            == chal@.directory && e@.pod is None && e@.reason == Seq::<char>::empty(),
{
    match crate::config::resolve_profile(profiles, name) {
        Some(i) => Ok(i),
        None => Err(
            DeployError {
                kind: ErrorKind::Config,
                stage: Stage::Profile,
                challenge: chal.directory.clone(),
                pod: None,
                reason: String::new(),
            },
        ),
    }
}

/// The image resolved for pod `i`, where one is recorded.
pub open spec fn image_of(inp: DeployInputView, i: int) -> Seq<char> {
    image_lookup(inp.build, inp.chal.pods[i].name).unwrap()
}

/// The context the namespace manifest is rendered from.
pub open spec fn namespace_ctx_view(inp: DeployInputView) -> RenderContextView {
    RenderContextView {
        slug: inp.chal.slug,
        directory: inp.chal.directory,
        pod_name: Seq::empty(),
        pod_image: Seq::empty(),
        profile_name: inp.profile.name,
        domain_base: Seq::empty(),
        host: Seq::empty(),
        ports: Seq::empty(),
    }
}

/// The context pod `i`'s deployment manifest is rendered from.
pub open spec fn deployment_ctx_view(inp: DeployInputView, i: int) -> RenderContextView {
    RenderContextView {
        slug: inp.chal.slug,
        directory: inp.chal.directory,
        pod_name: inp.chal.pods[i].name,
        pod_image: image_of(inp, i),
        profile_name: inp.profile.name,
        domain_base: Seq::empty(),
        host: Seq::empty(),
        ports: Seq::empty(),
    }
}

/// The context pod `i`'s TCP service manifest is rendered from: exactly the
/// TCP subset of the pod's ports.
pub open spec fn tcp_ctx_view(inp: DeployInputView, i: int) -> RenderContextView {
    RenderContextView {
        slug: inp.chal.slug,
        directory: inp.chal.directory,
        pod_name: inp.chal.pods[i].name,
        pod_image: Seq::empty(),
        profile_name: inp.profile.name,
        domain_base: inp.profile.challenges_domain,
        host: Seq::empty(),
        ports: port_numbers(tcp_of(inp.chal.pods[i].ports)),
    }
}

/// The context pod `i`'s HTTP service/ingress manifest is rendered from:
/// exactly the HTTP subset of the pod's ports, under the derived host.
pub open spec fn http_ctx_view(inp: DeployInputView, i: int) -> RenderContextView {
    RenderContextView {
        slug: inp.chal.slug,
        directory: inp.chal.directory,
        pod_name: inp.chal.pods[i].name,
        pod_image: Seq::empty(),
        profile_name: inp.profile.name,
        domain_base: inp.profile.challenges_domain,
        host: domain_view(inp.chal.slug, inp.chal.pods[i].name, inp.profile.challenges_domain),
        ports: port_numbers(http_of(inp.chal.pods[i].ports)),
    }
}

fn namespace_ctx(inp: &DeployInput) -> (c: RenderContext)
    ensures
        c@ == namespace_ctx_view(inp@),
{
    RenderContext {
        slug: inp.chal.slug.clone(),
        directory: inp.chal.directory.clone(),
        pod_name: String::new(),
        pod_image: String::new(),
        profile_name: inp.profile.name.clone(),
        domain_base: String::new(),
        host: String::new(),
        ports: Vec::new(),
    }
}

fn deployment_ctx(inp: &DeployInput, i: usize, image: String) -> (c: RenderContext)
    requires
        i < inp.chal.pods@.len(),
        image@ == image_of(inp@, i as int),
    ensures
        c@ == deployment_ctx_view(inp@, i as int),
{
    RenderContext {
        slug: inp.chal.slug.clone(),
        directory: inp.chal.directory.clone(),
        pod_name: inp.chal.pods[i].name.clone(),
        pod_image: image,
        profile_name: inp.profile.name.clone(),
        domain_base: String::new(),
        host: String::new(),
        ports: Vec::new(),
    }
}

fn number_vec(ports: &Vec<PortSpec>) -> (r: Vec<u16>)
    ensures
        r@ == port_numbers(ports@),
{
    let mut r: Vec<u16> = Vec::new();
    let mut i: usize = 0;
    proof {
        assert(port_numbers(ports@.take(0)) =~= Seq::<u16>::empty());
    }
    while i < ports.len()
        invariant
            0 <= i <= ports.len(),
            r@ == port_numbers(ports@.take(i as int)),
        decreases ports.len() - i,
    {
        r.push(ports[i].number);
        proof {
            assert(port_numbers(ports@.take(i as int)).push(ports@[i as int].number) =~= port_numbers(
                ports@.take(i + 1),
            ));
        }
        i += 1;
    }
    proof {
        assert(ports@.take(ports@.len() as int) =~= ports@);
    }
    r
}

fn tcp_ctx(inp: &DeployInput, i: usize, tcp_ports: &Vec<PortSpec>) -> (c: RenderContext)
    requires
        i < inp.chal.pods@.len(),
        tcp_ports@ == tcp_of(inp@.chal.pods[i as int].ports),
    ensures
        c@ == tcp_ctx_view(inp@, i as int),
{
    RenderContext {
        slug: inp.chal.slug.clone(),
        directory: inp.chal.directory.clone(),
        pod_name: inp.chal.pods[i].name.clone(),
        pod_image: String::new(),
        profile_name: inp.profile.name.clone(),
        domain_base: inp.profile.challenges_domain.clone(),
        host: String::new(),
        ports: number_vec(tcp_ports),
    }
}

fn http_ctx(inp: &DeployInput, i: usize, http_ports: &Vec<PortSpec>) -> (c: RenderContext)
    requires
        i < inp.chal.pods@.len(),
        http_ports@ == http_of(inp@.chal.pods[i as int].ports),
    ensures
        c@ == http_ctx_view(inp@, i as int),
{
    RenderContext {
        slug: inp.chal.slug.clone(),
        directory: inp.chal.directory.clone(),
        pod_name: inp.chal.pods[i].name.clone(),
        pod_image: String::new(),
        profile_name: inp.profile.name.clone(),
        domain_base: inp.profile.challenges_domain.clone(),
        host: domain_for(&inp.chal.slug, &inp.chal.pods[i].name, &inp.profile.challenges_domain),
        ports: number_vec(http_ports),
    }
}

/// The response the machine is waiting for. `Await*Apply` phases wait for
/// the outcome of rendering and applying a manifest; `Await*Ready` phases
/// wait for one applied object's readiness; `Complete` and `Failed` are
/// terminal.
#[derive(Clone, Copy, PartialEq, Eq, Structural, Debug)]
pub enum PhaseTag {
    AwaitConnect,
    AwaitNamespaceApply,
    AwaitNamespaceReady,
    AwaitDeploymentApply,
    AwaitDeploymentReady,
    AwaitTcpApply,
    AwaitTcpReady,
    AwaitHttpApply,
    AwaitHttpReady,
    Complete,
    Failed,
}

/// The machine's state between two events: the phase, the pod being worked
/// on, the objects of the phase still being waited on, and the exposure
/// entries accumulated so far.
pub struct Pipeline {
    pub phase: PhaseTag,
    pub error: Option<DeployError>,
    pub pod: usize,
    pub objs: Vec<ClusterObjectRef>,
    pub next_obj: usize,
    pub exposed: Vec<PodDeployResult>,
}

pub struct PipelineView {
    pub phase: PhaseTag,
    pub error: Option<DeployErrorView>,
    pub pod: int,
    pub objs: Seq<ClusterObjectRefView>,
    pub next_obj: int,
    pub exposed: Seq<PodDeployResultView>,
}

impl View for Pipeline {
    type V = PipelineView;

    open spec fn view(&self) -> PipelineView {
        PipelineView {
            phase: self.phase,
            error: match self.error {
                Some(e) => Some(e@),
                None => None,
            },
            pod: self.pod as int,
            objs: self.objs@.map_values(|o: ClusterObjectRef| o@),
            next_obj: self.next_obj as int,
            exposed: self.exposed@.map_values(|e: PodDeployResult| e@),
        }
    }
}

/// The phases scoped to one pod.
pub open spec fn pod_scoped(phase: PhaseTag) -> bool {
    match phase {
        PhaseTag::AwaitDeploymentApply => true,
        PhaseTag::AwaitDeploymentReady => true,
        PhaseTag::AwaitTcpApply => true,
        PhaseTag::AwaitTcpReady => true,
        PhaseTag::AwaitHttpApply => true,
        PhaseTag::AwaitHttpReady => true,
        _ => false,
    }
}

/// The phases waiting on one applied object's readiness.
pub open spec fn awaiting_ready(phase: PhaseTag) -> bool {
    match phase {
        PhaseTag::AwaitNamespaceReady => true,
        PhaseTag::AwaitDeploymentReady => true,
        PhaseTag::AwaitTcpReady => true,
        PhaseTag::AwaitHttpReady => true,
        _ => false,
    }
}

impl PipelineView {
    /// Well-formedness of a state against its input, established by
    /// [`start_pipeline`] and preserved by every step.
    pub open spec fn wf(self, inp: DeployInputView) -> bool {
        &&& 0 <= self.pod <= inp.chal.pods.len()
        &&& (pod_scoped(self.phase) ==> self.pod < inp.chal.pods.len() && image_lookup(
            inp.build,
            inp.chal.pods[self.pod].name,
        ) is Some)
        &&& (awaiting_ready(self.phase) ==> 0 <= self.next_obj < self.objs.len())
        &&& (self.phase == PhaseTag::Failed <==> self.error is Some)
    }
}

/// The outcome of the action the machine last asked for.
pub enum Event {
    /// The cluster handle was acquired.
    Connected,
    /// The cluster handle could not be acquired, with the client's message.
    ConnectFailed { reason: String },
    /// A manifest was applied; these objects were created or updated.
    Applied { objects: Vec<ClusterObjectRef> },
    /// The cluster rejected the manifest, with its message.
    ApplyFailed { reason: String },
    /// The manifest could not be rendered from its template, with the
    /// renderer's message.
    RenderFailed { reason: String },
    /// The waited-on object reported ready.
    Ready,
    /// The waited-on object reported a failed condition, with its message.
    StatusFailed { reason: String },
    /// A bounded wait did not resolve within [`READY_TIMEOUT_SECS`].
    TimedOut,
}

pub enum EventView {
    Connected,
    ConnectFailed { reason: Seq<char> },
    Applied { objects: Seq<ClusterObjectRefView> },
    ApplyFailed { reason: Seq<char> },
    RenderFailed { reason: Seq<char> },
    Ready,
    StatusFailed { reason: Seq<char> },
    TimedOut,
}

impl View for Event {
    type V = EventView;

    open spec fn view(&self) -> EventView {
        match self {
            Event::Connected => EventView::Connected,
            Event::ConnectFailed { reason } => EventView::ConnectFailed { reason: reason@ },
            Event::Applied { objects } => EventView::Applied {
                objects: objects@.map_values(|o: ClusterObjectRef| o@),
            },
            Event::ApplyFailed { reason } => EventView::ApplyFailed { reason: reason@ },
            Event::RenderFailed { reason } => EventView::RenderFailed { reason: reason@ },
            Event::Ready => EventView::Ready,
            Event::StatusFailed { reason } => EventView::StatusFailed { reason: reason@ },
            Event::TimedOut => EventView::TimedOut,
        }
    }
}

/// What the surrounding process must perform next.
pub enum Action {
    /// Acquire a cluster handle for the profile.
    Connect,
    /// Render the template of `kind` from `ctx` and apply the text.
    Apply { kind: TemplateKind, ctx: RenderContext },
    /// Wait for the object's readiness; a bounded wait is cut off after
    /// [`READY_TIMEOUT_SECS`] and fed back as [`Event::TimedOut`].
    WaitReady { object: ClusterObjectRef, bounded: bool },
    /// The pipeline is finished: the state is terminal.
    Done,
}

pub enum ActionView {
    Connect,
    Apply { kind: TemplateKind, ctx: RenderContextView },
    WaitReady { object: ClusterObjectRefView, bounded: bool },
    Done,
}

impl View for Action {
    type V = ActionView;

    open spec fn view(&self) -> ActionView {
        match self {
            Action::Connect => ActionView::Connect,
            Action::Apply { kind, ctx } => ActionView::Apply { kind: *kind, ctx: ctx@ },
            Action::WaitReady { object, bounded } => ActionView::WaitReady {
                object: object@,
                bounded: *bounded,
            },
            Action::Done => ActionView::Done,
        }
    }
}

/// Move into the terminal failed state, annotating the error with the
/// challenge directory and the collaborator's message where there is one.
pub open spec fn fail_view(
    inp: DeployInputView,
    st: PipelineView,
    kind: ErrorKind,
    stage: Stage,
    pod: Option<Seq<char>>,
    reason: Seq<char>,
) -> (PipelineView, ActionView) {
    (
        PipelineView {
            phase: PhaseTag::Failed,
            error: Some(
                DeployErrorView { kind, stage, challenge: inp.chal.directory, pod, reason },
            ),
            ..st
        },
        ActionView::Done,
    )
}

/// The action the machine is waiting on in state `st`: re-issued when an
/// event does not answer it.
pub open spec fn pending_action_view(inp: DeployInputView, st: PipelineView) -> ActionView {
    match st.phase {
        PhaseTag::AwaitConnect => ActionView::Connect,
        PhaseTag::AwaitNamespaceApply => ActionView::Apply {
            kind: TemplateKind::Namespace,
            ctx: namespace_ctx_view(inp),
        },
        PhaseTag::AwaitNamespaceReady => ActionView::WaitReady {
            object: st.objs[st.next_obj],
            bounded: false,
        },
        PhaseTag::AwaitDeploymentApply => ActionView::Apply {
            kind: TemplateKind::Deployment,
            ctx: deployment_ctx_view(inp, st.pod),
        },
        PhaseTag::AwaitDeploymentReady => ActionView::WaitReady {
            object: st.objs[st.next_obj],
            bounded: true,
        },
        PhaseTag::AwaitTcpApply => ActionView::Apply {
            kind: TemplateKind::ServiceTcp,
            ctx: tcp_ctx_view(inp, st.pod),
        },
        PhaseTag::AwaitTcpReady => ActionView::WaitReady {
            object: st.objs[st.next_obj],
            bounded: true,
        },
        PhaseTag::AwaitHttpApply => ActionView::Apply {
            kind: TemplateKind::ServiceHttp,
            ctx: http_ctx_view(inp, st.pod),
        },
        PhaseTag::AwaitHttpReady => ActionView::WaitReady {
            object: st.objs[st.next_obj],
            bounded: true,
        },
        PhaseTag::Complete => ActionView::Done,
        PhaseTag::Failed => ActionView::Done,
    }
}

/// Start pod `i`'s phase sequence, or complete the pipeline when every pod
/// is done. A pod whose image no build record resolves fails the challenge.
pub open spec fn begin_pod_view(inp: DeployInputView, st: PipelineView, i: int) -> (
    PipelineView,
    ActionView,
) {
    if i >= inp.chal.pods.len() {
        (PipelineView { phase: PhaseTag::Complete, pod: i, ..st }, ActionView::Done)
    } else if image_lookup(inp.build, inp.chal.pods[i].name) is None {
        fail_view(
            inp,
            PipelineView { pod: i, ..st },
            ErrorKind::ImageResolution,
            Stage::Deployment,
            Some(inp.chal.pods[i].name),
            Seq::empty(),
        )
    } else {
        (
            PipelineView {
                phase: PhaseTag::AwaitDeploymentApply,
                pod: i,
                objs: Seq::empty(),
                next_obj: 0,
                ..st
            },
            ActionView::Apply { kind: TemplateKind::Deployment, ctx: deployment_ctx_view(inp, i) },
        )
    }
}

/// After pod `i`'s deployment is ready: expose its TCP subset, where that
/// is nonempty.
pub open spec fn after_deployment_view(inp: DeployInputView, st: PipelineView, i: int) -> (
    PipelineView,
    ActionView,
) {
    if tcp_of(inp.chal.pods[i].ports).len() > 0 {
        (
            PipelineView { phase: PhaseTag::AwaitTcpApply, objs: Seq::empty(), next_obj: 0, ..st },
            ActionView::Apply { kind: TemplateKind::ServiceTcp, ctx: tcp_ctx_view(inp, i) },
        )
    } else {
        after_tcp_view(inp, st, i)
    }
}

/// After pod `i`'s TCP exposure (or with none owed): expose its HTTP
/// subset, where that is nonempty.
pub open spec fn after_tcp_view(inp: DeployInputView, st: PipelineView, i: int) -> (
    PipelineView,
    ActionView,
) {
    if http_of(inp.chal.pods[i].ports).len() > 0 {
        (
            PipelineView { phase: PhaseTag::AwaitHttpApply, objs: Seq::empty(), next_obj: 0, ..st },
            ActionView::Apply { kind: TemplateKind::ServiceHttp, ctx: http_ctx_view(inp, i) },
        )
    } else {
        begin_pod_view(inp, st, i + 1)
    }
}

/// The exposure entries pod `i` contributes: one `Http` entry per HTTP
/// port, under the derived domain.
pub open spec fn http_entries_view(inp: DeployInputView, i: int) -> Seq<PodDeployResultView> {
    http_of(inp.chal.pods[i].ports).map_values(
        |p: PortSpec| PodDeployResultView::Http {
            domain: domain_view(inp.chal.slug, inp.chal.pods[i].name, inp.profile.challenges_domain),
        },
    )
}

/// After pod `i`'s HTTP exposure is ready: record its endpoints and move
/// to the next pod.
pub open spec fn after_http_view(inp: DeployInputView, st: PipelineView, i: int) -> (
    PipelineView,
    ActionView,
) {
    begin_pod_view(
        inp,
        PipelineView { exposed: st.exposed + http_entries_view(inp, i), ..st },
        i + 1,
    )
}

/// The full transition relation: from a state and the event answering its
/// pending action, the next state and the next action to perform. An event
/// that does not answer the pending action leaves the state unchanged and
/// re-issues that action.
pub open spec fn step_view(inp: DeployInputView, st: PipelineView, ev: EventView) -> (
    PipelineView,
    ActionView,
) {
    match (st.phase, ev) {
        (PhaseTag::AwaitConnect, EventView::Connected) => (
            PipelineView { phase: PhaseTag::AwaitNamespaceApply, ..st },
            ActionView::Apply { kind: TemplateKind::Namespace, ctx: namespace_ctx_view(inp) },
        ),
        (PhaseTag::AwaitConnect, EventView::ConnectFailed { reason }) => fail_view(
            inp,
            st,
            ErrorKind::Connection,
            Stage::Connect,
            None,
            reason,
        ),
        (PhaseTag::AwaitNamespaceApply, EventView::Applied { objects }) => if objects.len() == 0 {
            begin_pod_view(inp, st, 0)
        } else {
            (
                PipelineView { phase: PhaseTag::AwaitNamespaceReady, objs: objects, next_obj: 0, ..st },
                ActionView::WaitReady { object: objects[0], bounded: false },
            )
        },
        (PhaseTag::AwaitNamespaceApply, EventView::ApplyFailed { reason }) => fail_view(
            inp,
            st,
            ErrorKind::Apply,
            Stage::Namespace,
            None,
            reason,
        ),
        (PhaseTag::AwaitNamespaceApply, EventView::RenderFailed { reason }) => fail_view(
            inp,
            st,
            ErrorKind::Render,
            Stage::Namespace,
            None,
            reason,
        ),
        (PhaseTag::AwaitNamespaceReady, EventView::Ready) => if st.next_obj + 1 < st.objs.len() {
            (
                PipelineView { next_obj: st.next_obj + 1, ..st },
                ActionView::WaitReady { object: st.objs[st.next_obj + 1], bounded: false },
            )
        } else {
            begin_pod_view(inp, st, 0)
        },
        (PhaseTag::AwaitNamespaceReady, EventView::StatusFailed { reason }) => fail_view(
            inp,
            st,
            ErrorKind::Status,
            Stage::Namespace,
            None,
            reason,
        ),
        (PhaseTag::AwaitDeploymentApply, EventView::Applied { objects }) => if objects.len() == 0 {
            after_deployment_view(inp, st, st.pod)
        } else {
            (
                PipelineView { phase: PhaseTag::AwaitDeploymentReady, objs: objects, next_obj: 0, ..st },
                ActionView::WaitReady { object: objects[0], bounded: true },
            )
        },
        (PhaseTag::AwaitDeploymentApply, EventView::ApplyFailed { reason }) => fail_view(
            inp,
            st,
            ErrorKind::Apply,
            Stage::Deployment,
            Some(inp.chal.pods[st.pod].name),
            reason,
        ),
        (PhaseTag::AwaitDeploymentApply, EventView::RenderFailed { reason }) => fail_view(
            inp,
            st,
            ErrorKind::Render,
            Stage::Deployment,
            Some(inp.chal.pods[st.pod].name),
            reason,
        ),
        (PhaseTag::AwaitDeploymentReady, EventView::Ready) => if st.next_obj + 1 < st.objs.len() {
            (
                PipelineView { next_obj: st.next_obj + 1, ..st },
                ActionView::WaitReady { object: st.objs[st.next_obj + 1], bounded: true },
            )
        } else {
            after_deployment_view(inp, st, st.pod)
        },
        (PhaseTag::AwaitDeploymentReady, EventView::StatusFailed { reason }) => fail_view(
            inp,
            st,
            ErrorKind::Status,
            Stage::Deployment,
            Some(inp.chal.pods[st.pod].name),
            reason,
        ),
        (PhaseTag::AwaitDeploymentReady, EventView::TimedOut) => fail_view(
            inp,
            st,
            ErrorKind::Timeout,
            Stage::Deployment,
            Some(inp.chal.pods[st.pod].name),
            Seq::empty(),
        ),
        (PhaseTag::AwaitTcpApply, EventView::Applied { objects }) => if objects.len() == 0 {
            after_tcp_view(inp, st, st.pod)
        } else {
            (
                PipelineView { phase: PhaseTag::AwaitTcpReady, objs: objects, next_obj: 0, ..st },
                ActionView::WaitReady { object: objects[0], bounded: true },
            )
        },
        (PhaseTag::AwaitTcpApply, EventView::ApplyFailed { reason }) => fail_view(
            inp,
            st,
            ErrorKind::Apply,
            Stage::TcpService,
            Some(inp.chal.pods[st.pod].name),
            reason,
        ),
        (PhaseTag::AwaitTcpApply, EventView::RenderFailed { reason }) => fail_view(
            inp,
            st,
            ErrorKind::Render,
            Stage::TcpService,
            Some(inp.chal.pods[st.pod].name),
            reason,
        ),
        (PhaseTag::AwaitTcpReady, EventView::Ready) => if st.next_obj + 1 < st.objs.len() {
            (
                PipelineView { next_obj: st.next_obj + 1, ..st },
                ActionView::WaitReady { object: st.objs[st.next_obj + 1], bounded: true },
            )
        } else {
            after_tcp_view(inp, st, st.pod)
        },
        (PhaseTag::AwaitTcpReady, EventView::StatusFailed { reason }) => fail_view(
            inp,
            st,
            ErrorKind::Status,
            Stage::TcpService,
            Some(inp.chal.pods[st.pod].name),
            reason,
        ),
        (PhaseTag::AwaitTcpReady, EventView::TimedOut) => fail_view(
            inp,
            st,
            ErrorKind::Timeout,
            Stage::TcpService,
            Some(inp.chal.pods[st.pod].name),
            Seq::empty(),
        ),
        (PhaseTag::AwaitHttpApply, EventView::Applied { objects }) => if objects.len() == 0 {
            after_http_view(inp, st, st.pod)
        } else {
            (
                PipelineView { phase: PhaseTag::AwaitHttpReady, objs: objects, next_obj: 0, ..st },
                ActionView::WaitReady { object: objects[0], bounded: true },
            )
        },
        (PhaseTag::AwaitHttpApply, EventView::ApplyFailed { reason }) => fail_view(
            inp,
            st,
            ErrorKind::Apply,
            Stage::HttpIngress,
            Some(inp.chal.pods[st.pod].name),
            reason,
        ),
        (PhaseTag::AwaitHttpApply, EventView::RenderFailed { reason }) => fail_view(
            inp,
            st,
            ErrorKind::Render,
            Stage::HttpIngress,
            Some(inp.chal.pods[st.pod].name),
            reason,
        ),
        (PhaseTag::AwaitHttpReady, EventView::Ready) => if st.next_obj + 1 < st.objs.len() {
            (
                PipelineView { next_obj: st.next_obj + 1, ..st },
                ActionView::WaitReady { object: st.objs[st.next_obj + 1], bounded: true },
            )
        } else {
            after_http_view(inp, st, st.pod)
        },
        (PhaseTag::AwaitHttpReady, EventView::StatusFailed { reason }) => fail_view(
            inp,
            st,
            ErrorKind::Status,
            Stage::HttpIngress,
            Some(inp.chal.pods[st.pod].name),
            reason,
        ),
        (PhaseTag::AwaitHttpReady, EventView::TimedOut) => fail_view(
            inp,
            st,
            ErrorKind::Timeout,
            Stage::HttpIngress,
            Some(inp.chal.pods[st.pod].name),
            Seq::empty(),
        ),
        (_, _) => (st, pending_action_view(inp, st)),
    }
}

/// Every step from a well-formed state yields a well-formed state.
pub proof fn lemma_step_view_wf(inp: DeployInputView, st: PipelineView, ev: EventView)
    requires
        st.wf(inp),
    ensures
        step_view(inp, st, ev).0.wf(inp),
{
}

fn make_fail(
    inp: &DeployInput,
    st: Pipeline,
    kind: ErrorKind,
    stage: Stage,
    pod: Option<String>,
    reason: String,
) -> (r: (Pipeline, Action))
    ensures
        r.0@ == fail_view(
            inp@,
            st@,
            kind,
            stage,
            match pod {
                Some(p) => Some(p@),
                None => None,
            },
            reason@,
        ).0,
        r.1@ == fail_view(
            inp@,
            st@,
            kind,
            stage,
            match pod {
                Some(p) => Some(p@),
                None => None,
            },
            reason@,
        ).1,
{
    (
        Pipeline {
            phase: PhaseTag::Failed,
            error: Some(
                DeployError { kind, stage, challenge: inp.chal.directory.clone(), pod, reason },
            ),
            ..st
        },
        Action::Done,
    )
}

fn empty_objs() -> (r: Vec<ClusterObjectRef>)
    ensures
        r@.map_values(|o: ClusterObjectRef| o@) == Seq::<ClusterObjectRefView>::empty(),
{
    let r: Vec<ClusterObjectRef> = Vec::new();
    proof {
        assert(r@.map_values(|o: ClusterObjectRef| o@) =~= Seq::<ClusterObjectRefView>::empty());
    }
    r
}

fn empty_exposed() -> (r: Vec<PodDeployResult>)
    ensures
        r@.map_values(|e: PodDeployResult| e@) == Seq::<PodDeployResultView>::empty(),
{
    let r: Vec<PodDeployResult> = Vec::new();
    proof {
        assert(r@.map_values(|e: PodDeployResult| e@) =~= Seq::<PodDeployResultView>::empty());
    }
    r
}

fn current_pod_name(inp: &DeployInput, st: &Pipeline) -> (r: String)
    requires
        st@.pod < inp.chal.pods@.len(),
    ensures
        r@ == inp@.chal.pods[st@.pod].name,
{
    inp.chal.pods[st.pod].name.clone()
}

fn begin_pod(inp: &DeployInput, st: Pipeline, i: usize) -> (r: (Pipeline, Action))
    requires
        i <= inp.chal.pods@.len(),
    ensures
        r.0@ == begin_pod_view(inp@, st@, i as int).0,
        r.1@ == begin_pod_view(inp@, st@, i as int).1,
{
    if i >= inp.chal.pods.len() {
        (Pipeline { phase: PhaseTag::Complete, pod: i, ..st }, Action::Done)
    } else {
        match inp.build.image_for_pod(&inp.chal.pods[i].name) {
            None => make_fail(
                inp,
                Pipeline { pod: i, ..st },
                ErrorKind::ImageResolution,
                Stage::Deployment,
                Some(inp.chal.pods[i].name.clone()),
                String::new(),
            ),
            Some(image) => {
                let ctx = deployment_ctx(inp, i, image);
                (
                    Pipeline {
                        phase: PhaseTag::AwaitDeploymentApply,
                        pod: i,
                        objs: empty_objs(),
                        next_obj: 0,
                        ..st
                    },
                    Action::Apply { kind: TemplateKind::Deployment, ctx },
                )
            },
        }
    }
}

fn after_tcp(inp: &DeployInput, st: Pipeline) -> (r: (Pipeline, Action))
    requires
        st@.pod < inp.chal.pods@.len(),
    ensures
        r.0@ == after_tcp_view(inp@, st@, st@.pod).0,
        r.1@ == after_tcp_view(inp@, st@, st@.pod).1,
{
    let _n = inp.chal.pods.len();
    let pod = st.pod;
    let (_tcp, http) = partition_ports(&inp.chal.pods[pod].ports);
    if http.len() > 0 {
        let ctx = http_ctx(inp, pod, &http);
        (
            Pipeline { phase: PhaseTag::AwaitHttpApply, objs: empty_objs(), next_obj: 0, ..st },
            Action::Apply { kind: TemplateKind::ServiceHttp, ctx },
        )
    } else {
        begin_pod(inp, st, pod + 1)
    }
}

fn after_deployment(inp: &DeployInput, st: Pipeline) -> (r: (Pipeline, Action))
    requires
        st@.pod < inp.chal.pods@.len(),
    ensures
        r.0@ == after_deployment_view(inp@, st@, st@.pod).0,
        r.1@ == after_deployment_view(inp@, st@, st@.pod).1,
{
    let pod = st.pod;
    let (tcp, _http) = partition_ports(&inp.chal.pods[pod].ports);
    if tcp.len() > 0 {
        let ctx = tcp_ctx(inp, pod, &tcp);
        (
            Pipeline { phase: PhaseTag::AwaitTcpApply, objs: empty_objs(), next_obj: 0, ..st },
            Action::Apply { kind: TemplateKind::ServiceTcp, ctx },
        )
    } else {
        after_tcp(inp, st)
    }
}

fn http_entries(inp: &DeployInput, i: usize, http_ports: &Vec<PortSpec>) -> (r: Vec<
    PodDeployResult,
>)
    requires
        i < inp.chal.pods@.len(),
        http_ports@ == http_of(inp@.chal.pods[i as int].ports),
    ensures
        r@.map_values(|e: PodDeployResult| e@) == http_entries_view(inp@, i as int),
{
    let domain = domain_for(&inp.chal.slug, &inp.chal.pods[i].name, &inp.profile.challenges_domain);
    let mut r: Vec<PodDeployResult> = Vec::new();
    let mut k: usize = 0;
    while k < http_ports.len()
        invariant
            0 <= k <= http_ports.len(),
            i < inp.chal.pods@.len(),
            http_ports@ == http_of(inp@.chal.pods[i as int].ports),
            domain@ == domain_view(
                inp@.chal.slug,
                inp@.chal.pods[i as int].name,
                inp@.profile.challenges_domain,
            ),
            r@.len() == k,
            forall|j: int|
                0 <= j < k ==> (#[trigger] r@[j])@ == (PodDeployResultView::Http {
                    domain: domain_view(
                        inp@.chal.slug,
                        inp@.chal.pods[i as int].name,
                        inp@.profile.challenges_domain,
                    ),
                }),
        decreases http_ports.len() - k,
    {
        r.push(PodDeployResult::Http { domain: domain.clone() });
        k += 1;
    }
    proof {
        assert(r@.map_values(|e: PodDeployResult| e@) =~= http_entries_view(inp@, i as int));
    }
    r
}

fn after_http(inp: &DeployInput, st: Pipeline) -> (r: (Pipeline, Action))
    requires
        st@.pod < inp.chal.pods@.len(),
    ensures
        r.0@ == after_http_view(inp@, st@, st@.pod).0,
        r.1@ == after_http_view(inp@, st@, st@.pod).1,
{
    let ghost st0 = st@;
    let _n = inp.chal.pods.len();
    let pod = st.pod;
    let (_tcp, http) = partition_ports(&inp.chal.pods[pod].ports);
    let mut entries = http_entries(inp, pod, &http);
    let mut st = st;
    st.exposed.append(&mut entries);
    proof {
        assert(st@.exposed =~= st0.exposed + http_entries_view(inp@, st0.pod));
        assert(st@ == PipelineView { exposed: st0.exposed + http_entries_view(inp@, st0.pod), ..st0 });
    }
    begin_pod(inp, st, pod + 1)
}

fn pending_action(inp: &DeployInput, st: &Pipeline) -> (a: Action)
    requires
        st@.wf(inp@),
    ensures
        a@ == pending_action_view(inp@, st@),
{
    match st.phase {
        PhaseTag::AwaitConnect => Action::Connect,
        PhaseTag::AwaitNamespaceApply => Action::Apply {
            kind: TemplateKind::Namespace,
            ctx: namespace_ctx(inp),
        },
        PhaseTag::AwaitNamespaceReady => Action::WaitReady {
            object: st.objs[st.next_obj].duplicate(),
            bounded: false,
        },
        PhaseTag::AwaitDeploymentApply => {
            match inp.build.image_for_pod(&inp.chal.pods[st.pod].name) {
                Some(image) => Action::Apply {
                    kind: TemplateKind::Deployment,
                    ctx: deployment_ctx(inp, st.pod, image),
                },
                None => unreached(),
            }
        },
        PhaseTag::AwaitDeploymentReady => Action::WaitReady {
            object: st.objs[st.next_obj].duplicate(),
            bounded: true,
        },
        PhaseTag::AwaitTcpApply => {
            let (tcp, _http) = partition_ports(&inp.chal.pods[st.pod].ports);
            Action::Apply { kind: TemplateKind::ServiceTcp, ctx: tcp_ctx(inp, st.pod, &tcp) }
        },
        PhaseTag::AwaitTcpReady => Action::WaitReady {
            object: st.objs[st.next_obj].duplicate(),
            bounded: true,
        },
        PhaseTag::AwaitHttpApply => {
            let (_tcp, http) = partition_ports(&inp.chal.pods[st.pod].ports);
            Action::Apply { kind: TemplateKind::ServiceHttp, ctx: http_ctx(inp, st.pod, &http) }
        },
        PhaseTag::AwaitHttpReady => Action::WaitReady {
            object: st.objs[st.next_obj].duplicate(),
            bounded: true,
        },
        PhaseTag::Complete => Action::Done,
        PhaseTag::Failed => Action::Done,
    }
}

/// The state a pipeline starts in.
pub open spec fn init_view() -> PipelineView {
    PipelineView {
        phase: PhaseTag::AwaitConnect,
        error: None,
        pod: 0,
        objs: Seq::empty(),
        next_obj: 0,
        exposed: Seq::empty(),
    }
}

/// A fresh state is well-formed against any input.
pub proof fn lemma_init_wf(inp: DeployInputView)
    ensures
        init_view().wf(inp),
{
}

/// Start one challenge's pipeline: the initial state, and the first action
/// to perform (acquiring the cluster handle).
pub fn start_pipeline() -> (r: (Pipeline, Action))
    ensures
        r.0@ == init_view(),
        r.1@ == ActionView::Connect,
{
    (
        Pipeline {
            phase: PhaseTag::AwaitConnect,
            error: None,
            pod: 0,
            objs: empty_objs(),
            next_obj: 0,
            exposed: empty_exposed(),
        },
        Action::Connect,
    )
}

/// Feed one event into the machine: exactly the transition relation
/// [`step_view`], and well-formedness is preserved.
pub fn step(inp: &DeployInput, st: Pipeline, ev: Event) -> (r: (Pipeline, Action))
    requires
        st@.wf(inp@),
    ensures
        r.0@ == step_view(inp@, st@, ev@).0,
        r.1@ == step_view(inp@, st@, ev@).1,
        r.0@.wf(inp@),
{
    let ghost st0 = st@;
    let ghost ev0 = ev@;
    let r = match (st.phase, ev) {
        (PhaseTag::AwaitConnect, Event::Connected) => {
            let ctx = namespace_ctx(inp);
            (
                Pipeline { phase: PhaseTag::AwaitNamespaceApply, ..st },
                Action::Apply { kind: TemplateKind::Namespace, ctx },
            )
        },
        (PhaseTag::AwaitConnect, Event::ConnectFailed { reason }) => make_fail(
            inp,
            st,
            ErrorKind::Connection,
            Stage::Connect,
            None,
            reason,
        ),
        (PhaseTag::AwaitNamespaceApply, Event::Applied { objects }) => {
            if objects.len() == 0 {
                begin_pod(inp, st, 0)
            } else {
                let first = objects[0].duplicate();
                (
                    Pipeline { phase: PhaseTag::AwaitNamespaceReady, objs: objects, next_obj: 0, ..st },
                    Action::WaitReady { object: first, bounded: false },
                )
            }
        },
        (PhaseTag::AwaitNamespaceApply, Event::ApplyFailed { reason }) => make_fail(
            inp,
            st,
            ErrorKind::Apply,
            Stage::Namespace,
            None,
            reason,
        ),
        (PhaseTag::AwaitNamespaceApply, Event::RenderFailed { reason }) => make_fail(
            inp,
            st,
            ErrorKind::Render,
            Stage::Namespace,
            None,
            reason,
        ),
        (PhaseTag::AwaitNamespaceReady, Event::Ready) => {
            let n_objs = st.objs.len();
            if st.next_obj + 1 < n_objs {
                let idx = st.next_obj + 1;
                let object = st.objs[idx].duplicate();
                (
                    Pipeline { next_obj: idx, ..st },
                    Action::WaitReady { object, bounded: false },
                )
            } else {
                begin_pod(inp, st, 0)
            }
        },
        (PhaseTag::AwaitNamespaceReady, Event::StatusFailed { reason }) => make_fail(
            inp,
            st,
            ErrorKind::Status,
            Stage::Namespace,
            None,
            reason,
        ),
        (PhaseTag::AwaitDeploymentApply, Event::Applied { objects }) => {
            if objects.len() == 0 {
                after_deployment(inp, st)
            } else {
                let first = objects[0].duplicate();
                (
                    Pipeline { phase: PhaseTag::AwaitDeploymentReady, objs: objects, next_obj: 0, ..st },
                    Action::WaitReady { object: first, bounded: true },
                )
            }
        },
        (PhaseTag::AwaitDeploymentApply, Event::ApplyFailed { reason }) => {
            let pod = current_pod_name(inp, &st);
            make_fail(inp, st, ErrorKind::Apply, Stage::Deployment, Some(pod), reason)
        },
        (PhaseTag::AwaitDeploymentApply, Event::RenderFailed { reason }) => {
            let pod = current_pod_name(inp, &st);
            make_fail(inp, st, ErrorKind::Render, Stage::Deployment, Some(pod), reason)
        },
        (PhaseTag::AwaitDeploymentReady, Event::Ready) => {
            let n_objs = st.objs.len();
            if st.next_obj + 1 < n_objs {
                let idx = st.next_obj + 1;
                let object = st.objs[idx].duplicate();
                (Pipeline { next_obj: idx, ..st }, Action::WaitReady { object, bounded: true })
            } else {
                after_deployment(inp, st)
            }
        },
        (PhaseTag::AwaitDeploymentReady, Event::StatusFailed { reason }) => {
            let pod = current_pod_name(inp, &st);
            make_fail(inp, st, ErrorKind::Status, Stage::Deployment, Some(pod), reason)
        },
        (PhaseTag::AwaitDeploymentReady, Event::TimedOut) => {
            let pod = current_pod_name(inp, &st);
            make_fail(inp, st, ErrorKind::Timeout, Stage::Deployment, Some(pod), String::new())
        },
        (PhaseTag::AwaitTcpApply, Event::Applied { objects }) => {
            if objects.len() == 0 {
                after_tcp(inp, st)
            } else {
                let first = objects[0].duplicate();
                (
                    Pipeline { phase: PhaseTag::AwaitTcpReady, objs: objects, next_obj: 0, ..st },
                    Action::WaitReady { object: first, bounded: true },
                )
            }
        },
        (PhaseTag::AwaitTcpApply, Event::ApplyFailed { reason }) => {
            let pod = current_pod_name(inp, &st);
            make_fail(inp, st, ErrorKind::Apply, Stage::TcpService, Some(pod), reason)
        },
        (PhaseTag::AwaitTcpApply, Event::RenderFailed { reason }) => {
            let pod = current_pod_name(inp, &st);
            make_fail(inp, st, ErrorKind::Render, Stage::TcpService, Some(pod), reason)
        },
        (PhaseTag::AwaitTcpReady, Event::Ready) => {
            let n_objs = st.objs.len();
            if st.next_obj + 1 < n_objs {
                let idx = st.next_obj + 1;
                let object = st.objs[idx].duplicate();
                (Pipeline { next_obj: idx, ..st }, Action::WaitReady { object, bounded: true })
            } else {
                after_tcp(inp, st)
            }
        },
        (PhaseTag::AwaitTcpReady, Event::StatusFailed { reason }) => {
            let pod = current_pod_name(inp, &st);
            make_fail(inp, st, ErrorKind::Status, Stage::TcpService, Some(pod), reason)
        },
        (PhaseTag::AwaitTcpReady, Event::TimedOut) => {
            let pod = current_pod_name(inp, &st);
            make_fail(inp, st, ErrorKind::Timeout, Stage::TcpService, Some(pod), String::new())
        },
        (PhaseTag::AwaitHttpApply, Event::Applied { objects }) => {
            if objects.len() == 0 {
                after_http(inp, st)
            } else {
                let first = objects[0].duplicate();
                (
                    Pipeline { phase: PhaseTag::AwaitHttpReady, objs: objects, next_obj: 0, ..st },
                    Action::WaitReady { object: first, bounded: true },
                )
            }
        },
        (PhaseTag::AwaitHttpApply, Event::ApplyFailed { reason }) => {
            let pod = current_pod_name(inp, &st);
            make_fail(inp, st, ErrorKind::Apply, Stage::HttpIngress, Some(pod), reason)
        },
        (PhaseTag::AwaitHttpApply, Event::RenderFailed { reason }) => {
            let pod = current_pod_name(inp, &st);
            make_fail(inp, st, ErrorKind::Render, Stage::HttpIngress, Some(pod), reason)
        },
        (PhaseTag::AwaitHttpReady, Event::Ready) => {
            let n_objs = st.objs.len();
            if st.next_obj + 1 < n_objs {
                let idx = st.next_obj + 1;
                let object = st.objs[idx].duplicate();
                (Pipeline { next_obj: idx, ..st }, Action::WaitReady { object, bounded: true })
            } else {
                after_http(inp, st)
            }
        },
        (PhaseTag::AwaitHttpReady, Event::StatusFailed { reason }) => {
            let pod = current_pod_name(inp, &st);
            make_fail(inp, st, ErrorKind::Status, Stage::HttpIngress, Some(pod), reason)
        },
        (PhaseTag::AwaitHttpReady, Event::TimedOut) => {
            let pod = current_pod_name(inp, &st);
            make_fail(inp, st, ErrorKind::Timeout, Stage::HttpIngress, Some(pod), String::new())
        },
        (_, _) => {
            let a = pending_action(inp, &st);
            (st, a)
        },
    };
    proof {
        lemma_step_view_wf(inp@, st0, ev0);
    }
    r
}

/// Replay a whole event trace from the initial state: the final state, and
/// the action answered to each event in turn.
pub open spec fn run_view(inp: DeployInputView, st: PipelineView, evs: Seq<EventView>) -> (
    PipelineView,
    Seq<ActionView>,
)
    decreases evs.len(),
{
    if evs.len() == 0 {
        (st, Seq::empty())
    } else {
        let first = step_view(inp, st, evs[0]);
        let rest = run_view(inp, first.0, evs.drop_first());
        (rest.0, seq![first.1] + rest.1)
    }
}

/// Feed a whole event trace through the machine, from the initial state:
/// exactly the replay [`run_view`] of the trace.
pub fn run_pipeline(inp: &DeployInput, events: Vec<Event>) -> (r: (Pipeline, Vec<Action>))
    ensures
        r.0@ == run_view(inp@, init_view(), events@.map_values(|e: Event| e@)).0,
        r.1@.map_values(|a: Action| a@) == run_view(
            inp@,
            init_view(),
            events@.map_values(|e: Event| e@),
        ).1,
        r.0@.wf(inp@),
{
    let ghost full = events@.map_values(|e: Event| e@);
    let mut events = events;
    let (mut st, _first_action) = start_pipeline();
    let mut acts: Vec<Action> = Vec::new();
    proof {
        lemma_init_wf(inp@);
        assert(acts@.map_values(|a: Action| a@) =~= Seq::<ActionView>::empty());
    }
    while events.len() > 0
        invariant
            st@.wf(inp@),
            run_view(inp@, init_view(), full).0 == run_view(
                inp@,
                st@,
                events@.map_values(|e: Event| e@),
            ).0,
            run_view(inp@, init_view(), full).1 == acts@.map_values(|a: Action| a@) + run_view(
                inp@,
                st@,
                events@.map_values(|e: Event| e@),
            ).1,
        decreases events.len(),
    {
        let ghost pre_events = events@;
        let ghost pre_st = st@;
        let ghost pre_acts = acts@;
        let e = events.remove(0);
        let ghost rem_pre = pre_events.map_values(|e: Event| e@);
        proof {
            assert(rem_pre[0] == e@);
            assert(events@.map_values(|e: Event| e@) =~= rem_pre.drop_first());
        }
        let res = step(inp, st, e);
        st = res.0;
        acts.push(res.1);
        proof {
            assert(run_view(inp@, pre_st, rem_pre).0 == run_view(
                inp@,
                st@,
                events@.map_values(|e: Event| e@),
            ).0);
            assert(acts@.map_values(|a: Action| a@) =~= pre_acts.map_values(|a: Action| a@).push(
                res.1@,
            ));
            assert(pre_acts.map_values(|a: Action| a@) + (seq![res.1@] + run_view(
                inp@,
                st@,
                events@.map_values(|e: Event| e@),
            ).1) =~= acts@.map_values(|a: Action| a@) + run_view(
                inp@,
                st@,
                events@.map_values(|e: Event| e@),
            ).1);
        }
    }
    proof {
        assert(events@.map_values(|e: Event| e@) =~= Seq::<EventView>::empty());
        assert(acts@.map_values(|a: Action| a@) + Seq::<ActionView>::empty() =~= acts@.map_values(
            |a: Action| a@,
        ));
    }
    (st, acts)
}

/// For every port in a pod's list, which exposure subset it lands in is
/// decided by its expose type alone: it stands in exactly one of the TCP
/// and HTTP subsets, and the two subsets together carry the whole list.
pub proof fn lemma_partition_total(ports: Seq<PortSpec>, i: int)
    requires
        0 <= i < ports.len(),
    ensures
        ports[i].expose is Tcp ==> tcp_of(ports).contains(ports[i]) && !http_of(ports).contains(
            ports[i],
        ),
        ports[i].expose is Http ==> http_of(ports).contains(ports[i]) && !tcp_of(ports).contains(
            ports[i],
        ),
        tcp_of(ports).len() + http_of(ports).len() == ports.len(),
{
    lemma_partition_sizes(ports);
    if ports[i].expose is Tcp {
        ports.lemma_filter_contains(|p: PortSpec| p.expose is Tcp, i);
        if http_of(ports).contains(ports[i]) {
            let j = choose|j: int| 0 <= j < http_of(ports).len() && http_of(ports)[j] == ports[i];
            ports.lemma_filter_pred(|p: PortSpec| p.expose is Http, j);
        }
    }
    if ports[i].expose is Http {
        ports.lemma_filter_contains(|p: PortSpec| p.expose is Http, i);
        if tcp_of(ports).contains(ports[i]) {
            let j = choose|j: int| 0 <= j < tcp_of(ports).len() && tcp_of(ports)[j] == ports[i];
            ports.lemma_filter_pred(|p: PortSpec| p.expose is Tcp, j);
        }
    }
}

/// The TCP and HTTP subsets of a port list split it without loss.
pub proof fn lemma_partition_sizes(ports: Seq<PortSpec>)
    ensures
        tcp_of(ports).len() + http_of(ports).len() == ports.len(),
    decreases ports.len(),
{
    reveal(Seq::filter);
    if ports.len() > 0 {
        lemma_partition_sizes(ports.drop_last());
    }
}

/// A pod with an empty port list triggers no exposure phase at all: right
/// after its deployment is ready, the pipeline moves straight on to the
/// next pod — no service or ingress manifest is rendered or applied for
/// it, and no exposure entry is recorded.
pub proof fn lemma_empty_ports_no_exposure(inp: DeployInputView, st: PipelineView, i: int)
    requires
        0 <= i < inp.chal.pods.len(),
        inp.chal.pods[i].ports.len() == 0,
    ensures
        after_deployment_view(inp, st, i) == begin_pod_view(inp, st, i + 1),
{
    reveal(Seq::filter);
    assert(tcp_of(inp.chal.pods[i].ports).len() == 0);
    assert(http_of(inp.chal.pods[i].ports).len() == 0);
}

/// A bounded readiness wait that times out fails the whole challenge: the
/// pipeline answers `Done`, its error carries the timeout kind, the
/// challenge directory and the name of the pod being worked on.
pub proof fn lemma_timeout_fails_pod(inp: DeployInputView, st: PipelineView)
    requires
        st.wf(inp),
        st.phase == PhaseTag::AwaitDeploymentReady || st.phase == PhaseTag::AwaitTcpReady
            || st.phase == PhaseTag::AwaitHttpReady,
    ensures
        step_view(inp, st, EventView::TimedOut).0.phase == PhaseTag::Failed,
        step_view(inp, st, EventView::TimedOut).0.error matches Some(e) && e.kind
            == ErrorKind::Timeout && e.challenge == inp.chal.directory && e.pod == Some(
            inp.chal.pods[st.pod].name,
        ) && e.reason == Seq::<char>::empty(),
        step_view(inp, st, EventView::TimedOut).1 == ActionView::Done,
{
}

/// A failed pipeline is terminal: whatever events still arrive, the state
/// never changes and every answer is `Done` — in particular, no further
/// manifest is applied for this challenge.
pub proof fn lemma_failed_is_terminal(inp: DeployInputView, st: PipelineView, evs: Seq<EventView>)
    requires
        st.phase == PhaseTag::Failed,
    ensures
        run_view(inp, st, evs).0 == st,
        run_view(inp, st, evs).1.len() == evs.len(),
        forall|k: int| 0 <= k < evs.len() ==> run_view(inp, st, evs).1[k] == ActionView::Done,
    decreases evs.len(),
{
    if evs.len() > 0 {
        assert(step_view(inp, st, evs[0]).0 == st);
        assert(step_view(inp, st, evs[0]).1 == ActionView::Done);
        lemma_failed_is_terminal(inp, st, evs.drop_first());
        assert forall|k: int| 0 <= k < evs.len() implies run_view(inp, st, evs).1[k]
            == ActionView::Done by {
            if k > 0 {
                assert(run_view(inp, st, evs).1[k] == run_view(inp, st, evs.drop_first()).1[k - 1]);
            }
        }
    }
}

/// Deploying is idempotent at the decision level: the pipeline is a pure
/// function of its inputs and of the cluster's responses. Re-invoking the
/// per-challenge deploy with identical inputs and no external drift — the
/// cluster answering identically — renders and applies exactly the same
/// manifests, waits on the same object identities, and ends in the same
/// state.
pub proof fn lemma_deploy_idempotent(
    inp: DeployInputView,
    first_run: Seq<EventView>,
    second_run: Seq<EventView>,
)
    requires
        first_run == second_run,
    ensures
        run_view(inp, init_view(), first_run) == run_view(inp, init_view(), second_run),
{
}

} // verus!

