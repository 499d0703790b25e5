//! The fleet deployer's decision logic.
//!
//! The per-challenge pipelines run concurrently, one task per
//! (challenge, build) pair, and are joined regardless of individual
//! failures. What is decided afterwards is verified here: the aggregation
//! of the joined outcomes — all succeeded, or the first fatal error
//! propagates — and the union of TCP ports the fleet needs routed, which
//! is what the cluster-wide ingress TCP synchronizer reconciles against.
//! The synchronizer runs exactly once per fleet, and only when
//! [`aggregate_fleet`] returns `Ok`.

use vstd::prelude::*;

use crate::config::{ChallengeConfig, ChallengeConfigView, PodConfigView, PortSpec};
use crate::pipeline::{DeployError, DeployErrorView, DeployResult, PodDeployResultView};

verus! {

/// What one challenge's joined pipeline contributed on success: its
/// exposure entries (and nothing, where it failed).
pub open spec fn result_of(o: Result<DeployResult, DeployError>) -> Seq<PodDeployResultView> {
    match o {
        Ok(d) => d@,
        Err(_) => Seq::empty(),
    }
}

/// `os[j]` is the first failed outcome and its error is `e`.
pub open spec fn first_failure(
    os: Seq<Result<DeployResult, DeployError>>,
    j: int,
    e: DeployErrorView,
) -> bool {
    &&& 0 <= j < os.len()
    &&& (match os[j] {
        Err(x) => x@ == e,
        Ok(_) => false,
    })
    &&& forall|k: int| 0 <= k < j ==> os[k] is Ok
}

/// Aggregate the joined per-challenge outcomes of one run, one per
/// dispatched (challenge, build) pair, in dispatch order.
///
/// Succeeds exactly when every challenge succeeded, and then returns
/// exactly as many results as there were outcomes, each challenge's own,
/// in order. Otherwise the first fatal error propagates. The caller
/// invokes the ingress TCP synchronizer exactly once, and only on `Ok`;
/// challenges that succeeded stay deployed either way — there is no
/// rollback.
pub fn aggregate_fleet(outcomes: Vec<Result<DeployResult, DeployError>>) -> (r: Result<
    Vec<DeployResult>,
    DeployError,
>)
    ensures
        r is Ok <==> (forall|k: int| 0 <= k < outcomes@.len() ==> outcomes@[k] is Ok),
        r matches Ok(rs) ==> rs@.len() == outcomes@.len() && (forall|k: int|
            0 <= k < outcomes@.len() ==> rs@[k]@ == result_of(outcomes@[k])),
        r matches Err(e) ==> exists|j: int| first_failure(outcomes@, j, e@),
{
    let ghost all = outcomes@;
    let mut pending = outcomes;
    let total = pending.len();
    let mut results: Vec<DeployResult> = Vec::new();
    let mut i: usize = 0;
    proof {
        assert(all.skip(0) =~= all);
    }
    while pending.len() > 0
        invariant
            all == outcomes@,
            0 <= i <= all.len(),
            all.len() == total,
            pending@ == all.skip(i as int),
            results@.len() == i,
            forall|k: int| 0 <= k < i ==> all[k] is Ok,
            forall|k: int| 0 <= k < i ==> results@[k]@ == result_of(all[k]),
        decreases pending@.len(),
    {
        proof {
            assert(all.skip(i as int)[0] == all[i as int]);
            assert(all.skip(i as int).drop_first() =~= all.skip(i + 1));
        }
        let o = pending.remove(0);
        match o {
            Ok(d) => {
                results.push(d);
                i += 1;
            },
            Err(e) => {
                proof {
                    assert(!(all[i as int] is Ok));
                    assert(first_failure(all, i as int, e@));
                }
                return Err(e);
            },
        }
    }
    proof {
        assert(all.skip(i as int).len() == 0);
    }
    Ok(results)
}

/// One challenge's failure is isolated from its siblings: the pipelines
/// are joined one outcome per slot, so however one slot turns into a
/// failure, every other slot — another challenge's completed result or
/// error — is exactly what it was. (Each pipeline's own run depends only
/// on its own input and its own cluster responses; see
/// [`crate::pipeline::run_view`], which takes nothing of any sibling.)
pub proof fn lemma_failure_isolation(
    outs: Seq<Result<DeployResult, DeployError>>,
    failed: Result<DeployResult, DeployError>,
    i: int,
    j: int,
)
    requires
        0 <= i < outs.len(),
        0 <= j < outs.len(),
        i != j,
        failed is Err,
    ensures
        outs.update(j, failed)[i] == outs[i],
        outs.update(j, failed).len() == outs.len(),
{
}

/// Some port of `ports` is `port`, exposed over raw TCP.
pub open spec fn pod_needs_port(ports: Seq<PortSpec>, port: u16) -> bool {
    exists|q: int| 0 <= q < ports.len() && ports[q].number == port && ports[q].expose is Tcp
}

/// Some pod of `pods` exposes `port` over raw TCP.
pub open spec fn pods_need_port(pods: Seq<PodConfigView>, port: u16) -> bool {
    exists|p: int| 0 <= p < pods.len() && pod_needs_port(pods[p].ports, port)
}

/// Some challenge of the fleet exposes `port` over raw TCP.
pub open spec fn fleet_needs_port(cs: Seq<ChallengeConfigView>, port: u16) -> bool {
    exists|i: int| 0 <= i < cs.len() && pods_need_port(cs[i].pods, port)
}

proof fn lemma_push_contains(s: Seq<u16>, x: u16, y: u16)
    ensures
        s.push(x).contains(y) <==> (s.contains(y) || y == x),
{
    if s.contains(y) {
        let k = choose|k: int| 0 <= k < s.len() && s[k] == y;
        assert(s.push(x)[k] == y);
    }
    if y == x {
        assert(s.push(x)[s.len() as int] == y);
    }
    if s.push(x).contains(y) && y != x {
        let k = choose|k: int| 0 <= k < s.push(x).len() && s.push(x)[k] == y;
        assert(s[k] == y);
    }
}

fn ports_contain(v: &Vec<u16>, x: u16) -> (b: bool)
    ensures
        b == v@.contains(x),
{
    let mut i: usize = 0;
    while i < v.len()
        invariant
            0 <= i <= v.len(),
            forall|k: int| 0 <= k < i ==> v@[k] != x,
        decreases v.len() - i,
    {
        if v[i] == x {
            return true;
        }
        i += 1;
    }
    false
}

/// The union of TCP ports the fleet needs routed: the input the ingress
/// TCP synchronizer reconciles the shared ingress controller against. A
/// port is listed exactly when some pod of some challenge exposes it over
/// raw TCP, and no port is listed twice. (The reconciliation itself —
/// diffing against the controller's current configuration and updating
/// it — is a deliberate extension point, performed outside.)
pub fn required_tcp_ports(challenges: &Vec<ChallengeConfig>) -> (r: Vec<u16>)
    ensures
        forall|port: u16| #[trigger] r@.contains(port) <==> fleet_needs_port(
            challenges@.map_values(|c: ChallengeConfig| c@),
            port,
        ),
        forall|a: int, b: int| 0 <= a < b < r@.len() ==> r@[a] != r@[b],
{
    let ghost cs = challenges@.map_values(|c: ChallengeConfig| c@);
    let mut r: Vec<u16> = Vec::new();
    let mut i: usize = 0;
    proof {
        assert(cs.take(0) =~= Seq::<ChallengeConfigView>::empty());
    }
    while i < challenges.len()
        invariant
            0 <= i <= challenges.len(),
            cs == challenges@.map_values(|c: ChallengeConfig| c@),
            forall|port: u16| #[trigger] r@.contains(port) <==> fleet_needs_port(
                cs.take(i as int),
                port,
            ),
            forall|a: int, b: int| 0 <= a < b < r@.len() ==> r@[a] != r@[b],
        decreases challenges.len() - i,
    {
        let ghost pods = cs[i as int].pods;
        let mut p: usize = 0;
        proof {
            assert(pods.take(0) =~= Seq::<PodConfigView>::empty());
        }
        while p < challenges[i].pods.len()
            invariant
                0 <= i < challenges.len(),
                0 <= p <= challenges@[i as int].pods@.len(),
                cs == challenges@.map_values(|c: ChallengeConfig| c@),
                pods == cs[i as int].pods,
                forall|port: u16| #[trigger] r@.contains(port) <==> (fleet_needs_port(
                    cs.take(i as int),
                    port,
                ) || pods_need_port(pods.take(p as int), port)),
                forall|a: int, b: int| 0 <= a < b < r@.len() ==> r@[a] != r@[b],
            decreases challenges@[i as int].pods@.len() - p,
        {
            let ghost ports = pods[p as int].ports;
            let mut q: usize = 0;
            proof {
                assert(ports.take(0) =~= Seq::<PortSpec>::empty());
            }
            while q < challenges[i].pods[p].ports.len()
                invariant
                    0 <= i < challenges.len(),
                    0 <= p < challenges@[i as int].pods@.len(),
                    0 <= q <= challenges@[i as int].pods@[p as int].ports@.len(),
                    cs == challenges@.map_values(|c: ChallengeConfig| c@),
                    pods == cs[i as int].pods,
                    ports == pods[p as int].ports,
                    ports == challenges@[i as int].pods@[p as int].ports@,
                    forall|port: u16| #[trigger] r@.contains(port) <==> (fleet_needs_port(
                        cs.take(i as int),
                        port,
                    ) || pods_need_port(pods.take(p as int), port) || pod_needs_port(
                        ports.take(q as int),
                        port,
                    )),
                    forall|a: int, b: int| 0 <= a < b < r@.len() ==> r@[a] != r@[b],
                decreases challenges@[i as int].pods@[p as int].ports@.len() - q,
            {
                let ghost r_pre = r@;
                let spec = challenges[i].pods[p].ports[q];
                let is_tcp = match spec.expose {
                    crate::config::ExposeType::Tcp => true,
                    crate::config::ExposeType::Http => false,
                };
                if is_tcp && !ports_contain(&r, spec.number) {
                    r.push(spec.number);
                }
                proof {
                    assert(ports.take(q + 1).drop_last() =~= ports.take(q as int));
                    assert(ports.take(q + 1)[q as int] == ports[q as int]);
                    assert forall|port: u16| #[trigger] r@.contains(port) <==> (fleet_needs_port(
                        cs.take(i as int),
                        port,
                    ) || pods_need_port(pods.take(p as int), port) || pod_needs_port(
                        ports.take(q + 1),
                        port,
                    )) by {
                        lemma_push_contains(r_pre, ports[q as int].number, port);
                        if pod_needs_port(ports.take(q + 1), port) {
                            let w = choose|w: int|
                                0 <= w < ports.take(q + 1).len() && (#[trigger] ports.take(
                                    q + 1,
                                )[w]).number == port && ports.take(q + 1)[w].expose is Tcp;
                            if w < q {
                                assert(ports.take(q as int)[w] == ports.take(q + 1)[w]);
                                assert(pod_needs_port(ports.take(q as int), port));
                            }
                        }
                        if pod_needs_port(ports.take(q as int), port) {
                            let w = choose|w: int|
                                0 <= w < ports.take(q as int).len() && (#[trigger] ports.take(
                                    q as int,
                                )[w]).number == port && ports.take(q as int)[w].expose is Tcp;
                            assert(ports.take(q + 1)[w] == ports.take(q as int)[w]);
                            assert(pod_needs_port(ports.take(q + 1), port));
                        }
                    }
                }
                q += 1;
            }
            proof {
                assert(ports.take(ports.len() as int) =~= ports);
                assert(pods.take(p + 1).drop_last() =~= pods.take(p as int));
                assert(pods.take(p + 1)[p as int] == pods[p as int]);
                assert forall|port: u16| #[trigger] r@.contains(port) <==> (fleet_needs_port(
                    cs.take(i as int),
                    port,
                ) || pods_need_port(pods.take(p + 1), port)) by {
                    if pods_need_port(pods.take(p + 1), port) {
                        let w = choose|w: int|
                            0 <= w < pods.take(p + 1).len() && #[trigger] pod_needs_port(
                                pods.take(p + 1)[w].ports,
                                port,
                            );
                        if w < p {
                            assert(pods.take(p as int)[w] == pods.take(p + 1)[w]);
                            assert(pods_need_port(pods.take(p as int), port));
                        }
                    }
                    if pods_need_port(pods.take(p as int), port) {
                        let w = choose|w: int|
                            0 <= w < pods.take(p as int).len() && #[trigger] pod_needs_port(
                                pods.take(p as int)[w].ports,
                                port,
                            );
                        assert(pods.take(p + 1)[w] == pods.take(p as int)[w]);
                        assert(pods_need_port(pods.take(p + 1), port));
                    }
                }
            }
            p += 1;
        }
        proof {
            assert(pods.take(pods.len() as int) =~= pods);
            assert(cs.take(i + 1).drop_last() =~= cs.take(i as int));
            assert(cs.take(i + 1)[i as int] == cs[i as int]);
            assert forall|port: u16| #[trigger] r@.contains(port) <==> fleet_needs_port(
                cs.take(i + 1),
                port,
            ) by {
                if fleet_needs_port(cs.take(i + 1), port) {
                    let w = choose|w: int|
                        0 <= w < cs.take(i + 1).len() && #[trigger] pods_need_port(
                            cs.take(i + 1)[w].pods,
                            port,
                        );
                    if w < i {
                        assert(cs.take(i as int)[w] == cs.take(i + 1)[w]);
                        assert(fleet_needs_port(cs.take(i as int), port));
                    }
                }
                if fleet_needs_port(cs.take(i as int), port) {
                    let w = choose|w: int|
                        0 <= w < cs.take(i as int).len() && #[trigger] pods_need_port(
                            cs.take(i as int)[w].pods,
                            port,
                        );
                    assert(cs.take(i + 1)[w] == cs.take(i as int)[w]);
                    assert(fleet_needs_port(cs.take(i + 1), port));
                }
            }
        }
        i += 1;
    }
    proof {
        assert(cs.take(cs.len() as int) =~= cs);
    }
    r
}

} // verus!
