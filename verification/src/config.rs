//! Read-only inputs of a deployment run: challenge definitions, deployment
//! profiles and the per-pod build records used to resolve container images.

use vstd::prelude::*;

verus! {

/// How a pod port is reached from outside the cluster.
#[derive(Clone, Copy, PartialEq, Eq, Structural, Debug)]
pub enum ExposeType {
    /// Raw TCP passthrough through the shared ingress controller.
    Tcp,
    /// HTTP(S) under a routed domain.
    Http,
}

/// One declared port of a pod together with how it is exposed.
#[derive(Clone, Copy, PartialEq, Eq, Structural, Debug)]
pub struct PortSpec {
    pub number: u16,
    pub expose: ExposeType,
}

/// One pod of a challenge: its name and the ports it exposes.
#[derive(Clone)]
pub struct PodConfig {
    pub name: String,
    pub ports: Vec<PortSpec>,
}

pub struct PodConfigView {
    pub name: Seq<char>,
    pub ports: Seq<PortSpec>,
}

impl View for PodConfig {
    type V = PodConfigView;

    open spec fn view(&self) -> PodConfigView {
        PodConfigView { name: self.name@, ports: self.ports@ }
    }
}

/// An immutable per-challenge definition: the directory the challenge was
/// defined in, its slug (a normalized DNS/URL-safe name derived from the
/// directory by the configuration loader) and its pods, in order.
#[derive(Clone)]
pub struct ChallengeConfig {
    pub directory: String,
    pub slug: String,
    pub pods: Vec<PodConfig>,
}

pub struct ChallengeConfigView {
    pub directory: Seq<char>,
    pub slug: Seq<char>,
    pub pods: Seq<PodConfigView>,
}

impl View for ChallengeConfig {
    type V = ChallengeConfigView;

    open spec fn view(&self) -> ChallengeConfigView {
        ChallengeConfigView {
            directory: self.directory@,
            slug: self.slug@,
            pods: self.pods@.map_values(|p: PodConfig| p@),
        }
    }
}

/// A named deployment target: where to connect and under which base domain
/// HTTP-exposed challenges are routed.
#[derive(Clone)]
pub struct ProfileConfig {
    pub name: String,
    pub cluster: String,
    pub challenges_domain: String,
}

pub struct ProfileConfigView {
    pub name: Seq<char>,
    pub cluster: Seq<char>,
    pub challenges_domain: Seq<char>,
}

impl View for ProfileConfig {
    type V = ProfileConfigView;

    open spec fn view(&self) -> ProfileConfigView {
        ProfileConfigView {
            name: self.name@,
            cluster: self.cluster@,
            challenges_domain: self.challenges_domain@,
        }
    }
}

/// The build system's record for one pod: the image reference that was
/// built and pushed for it.
pub struct PodImage {
    pub pod_name: String,
    pub image: String,
}

/// The build system's output for one challenge, used only to resolve
/// per-pod image references.
pub struct BuildResult {
    pub images: Vec<PodImage>,
}

impl View for BuildResult {
    type V = Seq<(Seq<char>, Seq<char>)>;

    open spec fn view(&self) -> Seq<(Seq<char>, Seq<char>)> {
        self.images@.map_values(|p: PodImage| (p.pod_name@, p.image@))
    }
}

/// The image recorded for `pod_name`, taking the first matching record.
pub open spec fn image_lookup(images: Seq<(Seq<char>, Seq<char>)>, pod_name: Seq<char>) -> Option<
    Seq<char>,
>
    decreases images.len(),
{
    if images.len() == 0 {
        None
    } else if images[0].0 == pod_name {
        Some(images[0].1)
    } else {
        image_lookup(images.drop_first(), pod_name)
    }
}

impl BuildResult {
    /// Resolve the image built for the named pod: `Some` exactly when some
    /// record carries that pod's name, and then the first such record's image.
    pub fn image_for_pod(&self, pod_name: &String) -> (r: Option<String>)
        ensures
            r is Some <==> image_lookup(self@, pod_name@) is Some,
            r matches Some(img) ==> Some(img@) == image_lookup(self@, pod_name@),
    {
        let ghost all = self@;
        proof {
            assert(all.skip(0) =~= all);
        }
        let mut i: usize = 0;
        while i < self.images.len()
            invariant
                0 <= i <= self.images.len(),
                all == self@,
                image_lookup(all, pod_name@) == image_lookup(all.skip(i as int), pod_name@),
            decreases self.images.len() - i,
        {
            proof {
                assert(all.skip(i as int)[0] == all[i as int]);
                assert(all.skip(i as int).drop_first() =~= all.skip(i + 1));
            }
            if self.images[i].pod_name == *pod_name {
                return Some(self.images[i].image.clone());
            }
            i += 1;
        }
        proof {
            assert(all.skip(i as int).len() == 0);
        }
        None
    }
}

/// Look the named profile up: `Some(i)` exactly when a profile of that name
/// exists, and then `i` is the first index carrying the name.
pub fn resolve_profile(profiles: &Vec<ProfileConfig>, name: &String) -> (r: Option<usize>)
    ensures
        r is Some <==> exists|j: int| 0 <= j < profiles@.len() && profiles@[j]@.name == name@,
        r matches Some(i) ==> i < profiles@.len() && profiles@[i as int]@.name == name@ && forall|
            j: int,
        | 0 <= j < i ==> profiles@[j]@.name != name@,
{
    let mut i: usize = 0;
    while i < profiles.len()
        invariant
            0 <= i <= profiles.len(),
            forall|j: int| 0 <= j < i ==> profiles@[j]@.name != name@,
        decreases profiles.len() - i,
    {
        if profiles[i].name == *name {
            return Some(i);
        }
        i += 1;
    }
    None
}

/// A character a slug may hold: lowercase ASCII letters, digits, `-`.
pub open spec fn is_slug_char(c: char) -> bool {
    ('a' <= c && c <= 'z') || ('0' <= c && c <= '9') || c == '-'
}

/// A well-formed slug: nonempty and DNS/URL-safe throughout.
pub open spec fn slug_ok(s: Seq<char>) -> bool {
    s.len() > 0 && forall|i: int| 0 <= i < s.len() ==> is_slug_char(#[trigger] s[i])
}

/// Decide whether `s` is a well-formed slug.
pub fn check_slug(s: &str) -> (b: bool)
    ensures
        b == slug_ok(s@),
{
    let n = s.unicode_len();
    if n == 0 {
        return false;
    }
    let mut i: usize = 0;
    while i < n
        invariant
            0 <= i <= n,
            n == s@.len(),
            forall|j: int| 0 <= j < i ==> is_slug_char(#[trigger] s@[j]),
        decreases n - i,
    {
        let c = s.get_char(i);
        if !(('a' <= c && c <= 'z') || ('0' <= c && c <= '9') || c == '-') {
            return false;
        }
        i += 1;
    }
    true
}

impl ChallengeConfig {
    /// Build a challenge definition, accepted exactly when the slug the
    /// loader derived is a well-formed DNS/URL-safe name.
    pub fn new(directory: String, slug: String, pods: Vec<PodConfig>) -> (r: Result<
        ChallengeConfig,
        (String, String, Vec<PodConfig>),
    >)
        ensures
            r matches Ok(c) ==> c@.directory == directory@ && c@.slug == slug@ && c@.pods
                == pods@.map_values(|p: PodConfig| p@) && slug_ok(slug@),
            r is Err <==> !slug_ok(slug@),
    {
        if check_slug(slug.as_str()) {
            Ok(ChallengeConfig { directory, slug, pods })
        } else {
            Err((directory, slug, pods))
        }
    }
}

} // verus!
