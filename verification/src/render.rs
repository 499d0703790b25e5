//! The manifest renderer: a deterministic mapping from a template and a
//! structured context to manifest text, with no side effects.
//!
//! The template text itself is cluster-specific and owned by the operator:
//! it is loaded once at process start into a [`TemplateSet`] and injected
//! here by reference. Rendering failure (a template/context mismatch) is a
//! programmer error and fatal for the challenge being deployed.

use vstd::prelude::*;

verus! {

/// Which manifest a template renders.
#[derive(Clone, Copy, PartialEq, Eq, Structural, Debug)]
pub enum TemplateKind {
    /// The challenge's namespace.
    Namespace,
    /// One pod's deployment.
    Deployment,
    /// The service exposing a pod's TCP ports.
    ServiceTcp,
    /// The service and ingress exposing a pod's HTTP ports under a domain.
    ServiceHttp,
}

/// The immutable template registry, one template text per manifest kind.
pub struct TemplateSet {
    pub namespace_tpl: String,
    pub deployment_tpl: String,
    pub service_tcp_tpl: String,
    pub service_http_tpl: String,
}

pub struct TemplateSetView {
    pub namespace_tpl: Seq<char>,
    pub deployment_tpl: Seq<char>,
    pub service_tcp_tpl: Seq<char>,
    pub service_http_tpl: Seq<char>,
}

impl View for TemplateSet {
    type V = TemplateSetView;

    open spec fn view(&self) -> TemplateSetView {
        TemplateSetView {
            namespace_tpl: self.namespace_tpl@,
            deployment_tpl: self.deployment_tpl@,
            service_tcp_tpl: self.service_tcp_tpl@,
            service_http_tpl: self.service_http_tpl@,
        }
    }
}

/// The template registered for `kind`.
pub open spec fn template_for_view(t: TemplateSetView, kind: TemplateKind) -> Seq<char> {
    match kind {
        TemplateKind::Namespace => t.namespace_tpl,
        TemplateKind::Deployment => t.deployment_tpl,
        TemplateKind::ServiceTcp => t.service_tcp_tpl,
        TemplateKind::ServiceHttp => t.service_http_tpl,
    }
}

impl TemplateSet {
    pub fn template_for(&self, kind: TemplateKind) -> (r: &String)
        ensures
            r@ == template_for_view(self@, kind),
    {
        match kind {
            TemplateKind::Namespace => &self.namespace_tpl,
            TemplateKind::Deployment => &self.deployment_tpl,
            TemplateKind::ServiceTcp => &self.service_tcp_tpl,
            TemplateKind::ServiceHttp => &self.service_http_tpl,
        }
    }
}

/// The structured context a manifest is rendered from. Fields a template
/// kind does not use are left empty.
pub struct RenderContext {
    /// The challenge's DNS/URL-safe name; also the namespace's name.
    pub slug: String,
    /// The challenge's directory identifier.
    pub directory: String,
    /// The pod the manifest is for.
    pub pod_name: String,
    /// The image reference resolved for the pod.
    pub pod_image: String,
    /// The deployment profile's name.
    pub profile_name: String,
    /// The profile's base domain for HTTP exposure.
    pub domain_base: String,
    /// The full host the pod's HTTP ports are routed under.
    pub host: String,
    /// The exposed port numbers of the partitioned subset.
    pub ports: Vec<u16>,
}

pub struct RenderContextView {
    pub slug: Seq<char>,
    pub directory: Seq<char>,
    pub pod_name: Seq<char>,
    pub pod_image: Seq<char>,
    pub profile_name: Seq<char>,
    pub domain_base: Seq<char>,
    pub host: Seq<char>,
    pub ports: Seq<u16>,
}

impl View for RenderContext {
    type V = RenderContextView;

    open spec fn view(&self) -> RenderContextView {
        RenderContextView {
            slug: self.slug@,
            directory: self.directory@,
            pod_name: self.pod_name@,
            pod_image: self.pod_image@,
            profile_name: self.profile_name@,
            domain_base: self.domain_base@,
            host: self.host@,
            ports: self.ports@,
        }
    }
}

/// The text minijinja renders from a template and the context values: a
/// function of these arguments alone.
pub uninterp spec fn rendered_of(
    template: Seq<char>,
    slug: Seq<char>,
    directory: Seq<char>,
    pod_name: Seq<char>,
    pod_image: Seq<char>,
    profile_name: Seq<char>,
    domain_base: Seq<char>,
    host: Seq<char>,
    ports: Seq<u16>,
) -> Seq<char>;

/// Whether minijinja renders this template with these context values at
/// all, rather than reporting a template/context mismatch: like the text
/// itself, a function of these arguments alone.
pub uninterp spec fn renders_ok(
    template: Seq<char>,
    slug: Seq<char>,
    directory: Seq<char>,
    pod_name: Seq<char>,
    pod_image: Seq<char>,
    profile_name: Seq<char>,
    domain_base: Seq<char>,
    host: Seq<char>,
    ports: Seq<u16>,
) -> bool;

/// Shorthand for [`rendered_of`] over a whole context view.
pub open spec fn rendered_view(template: Seq<char>, c: RenderContextView) -> Seq<char> {
    rendered_of(
        template,
        c.slug,
        c.directory,
        c.pod_name,
        c.pod_image,
        c.profile_name,
        c.domain_base,
        c.host,
        c.ports,
    )
}

/// Shorthand for [`renders_ok`] over a whole context view.
pub open spec fn renders_ok_view(template: Seq<char>, c: RenderContextView) -> bool {
    renders_ok(
        template,
        c.slug,
        c.directory,
        c.pod_name,
        c.pod_image,
        c.profile_name,
        c.domain_base,
        c.host,
        c.ports,
    )
}

/// Relies on minijinja's `Environment::render_str` (with the default
/// environment and the context map built below): both whether rendering
/// succeeds and the rendered text are deterministic in the template text
/// and the context values, and an error is reported as a `Result`, never
/// a panic.
#[verifier::external_body]
fn render_str_call(template: &str, ctx: &RenderContext) -> (r: Result<String, String>)
    ensures
        r is Ok <==> renders_ok(
            template@,
            ctx.slug@,
            ctx.directory@,
            ctx.pod_name@,
            ctx.pod_image@,
            ctx.profile_name@,
            ctx.domain_base@,
            ctx.host@,
            ctx.ports@,
        ),
        r matches Ok(text) ==> text@ == rendered_of(
            template@,
            ctx.slug@,
            ctx.directory@,
            ctx.pod_name@,
            ctx.pod_image@,
            ctx.profile_name@,
            ctx.domain_base@,
            ctx.host@,
            ctx.ports@,
        ),
{
    let env = minijinja::Environment::new();
    let ctx_map = std::collections::BTreeMap::from([
        ("slug", minijinja::Value::from(ctx.slug.clone())),
        ("directory", minijinja::Value::from(ctx.directory.clone())),
        ("pod_name", minijinja::Value::from(ctx.pod_name.clone())),
        ("pod_image", minijinja::Value::from(ctx.pod_image.clone())),
        ("profile_name", minijinja::Value::from(ctx.profile_name.clone())),
        ("domain", minijinja::Value::from(ctx.domain_base.clone())),
        ("host", minijinja::Value::from(ctx.host.clone())),
        ("ports", minijinja::Value::from_serialize(&ctx.ports)),
    ]);
    env.render_str(template, ctx_map).map_err(|e| e.to_string())
}

/// Render the manifest of `kind` from its registered template. Succeeds
/// exactly when the renderer accepts this template with this context, and
/// then returns exactly the renderer's text for them — so two renders of
/// the same template and context agree on success and on every byte. On a
/// template/context mismatch the error carries the renderer's message.
pub fn render_manifest(templates: &TemplateSet, kind: TemplateKind, ctx: &RenderContext) -> (r:
    Result<String, String>)
    ensures
        r is Ok <==> renders_ok_view(template_for_view(templates@, kind), ctx@),
        r matches Ok(text) ==> text@ == rendered_view(template_for_view(templates@, kind), ctx@),
{
    render_str_call(templates.template_for(kind).as_str(), ctx)
}

} // verus!
