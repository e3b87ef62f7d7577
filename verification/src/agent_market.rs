//! The Agent Market package: its manifest re-targeted at a deployment's server.

use vstd::prelude::*;

use crate::capability::EffectKind;
use crate::mcp::endpoint::plain_https;
use crate::text::{
    contains_char, contains_white_space, is_white_space, law_replacing_goes_from_left_to_right,
    replace_all, replaced, same_text, trim, trimmed,
};
use crate::web::{parse_url, parsed_url, UrlParts, UrlPartsView};

verus! {

/// Id of the package.
pub const ID: &'static str = "agent-market";

/// What the shipped manifest holds in place of the server's URL.
pub const SERVER_URL_PLACEHOLDER: &'static str = "https://MARKET_PUBLIC_HOST/mcp";

/// Variable that names the server of a deployment.
pub const SERVER_URL_ENV: &'static str = "AGENT_MARKET_MCP_URL";

/// Whether a text can stand inside a TOML string on one line: no quote, no
/// comment sign, no escape and no white space.
pub open spec fn toml_safe(text: Seq<char>) -> bool {
    &&& !text.contains('"')
    &&& !text.contains('#')
    &&& !text.contains('\\')
    &&& !(exists|k: int| 0 <= k < text.len() && is_white_space(#[trigger] text[k]))
}

/// Whether a text, with these URL components, may be put into the manifest: a
/// plain HTTPS URL that is safe inside a TOML string.
pub open spec fn acceptable(text: Seq<char>, parts: Option<UrlPartsView>) -> bool {
    &&& parts matches Some(components) && plain_https(components)
    &&& toml_safe(text)
}

/// Whether a server URL is acceptable once trimmed.
pub open spec fn acceptable_server_url(raw: Seq<char>) -> bool {
    acceptable(trimmed(raw), parsed_url(trimmed(raw)))
}

/// Why a server URL was rejected, with the trimmed text.
#[derive(Debug, PartialEq, Eq)]
pub enum ServerUrlRejection {
    /// It does not parse as a URL.
    NotAUrl { text: String },
    /// It is no plain HTTPS URL, or not safe inside a TOML string.
    NotPlain { text: String },
}

/// The mathematical value of a [`ServerUrlRejection`].
#[verifier::ext_equal]
pub enum ServerUrlRejectionView {
    NotAUrl { text: Seq<char> },
    NotPlain { text: Seq<char> },
}

impl View for ServerUrlRejection {
    type V = ServerUrlRejectionView;

    open spec fn view(&self) -> ServerUrlRejectionView {
        match self {
            ServerUrlRejection::NotAUrl { text } => ServerUrlRejectionView::NotAUrl { text: text@ },
            ServerUrlRejection::NotPlain { text } => ServerUrlRejectionView::NotPlain {
                text: text@,
            },
        }
    }
}

impl DeepView for ServerUrlRejection {
    type V = ServerUrlRejectionView;

    open spec fn deep_view(&self) -> ServerUrlRejectionView {
        self@
    }
}

impl Clone for ServerUrlRejection {
    fn clone(&self) -> (r: Self)
        ensures
            r@ == self@,
    {
        match self {
            ServerUrlRejection::NotAUrl { text } => ServerUrlRejection::NotAUrl {
                text: text.clone(),
            },
            ServerUrlRejection::NotPlain { text } => ServerUrlRejection::NotPlain {
                text: text.clone(),
            },
        }
    }
}

/// The rejection of a server URL that is not acceptable.
pub open spec fn rejection(raw: Seq<char>) -> ServerUrlRejectionView {
    if parsed_url(trimmed(raw)) is None {
        ServerUrlRejectionView::NotAUrl { text: trimmed(raw) }
    } else {
        ServerUrlRejectionView::NotPlain { text: trimmed(raw) }
    }
}

/// Whether a text, with these URL components, may be put into the manifest.
pub fn accepts(text: &str, parts: &Option<UrlParts>) -> (r: bool)
    ensures
        r == acceptable(text@, parts.deep_view()),
{
    let plain = match parts {
        Some(parts) => same_text(parts.scheme.as_str(), "https") && parts.host.is_some()
            && parts.username.as_str().is_empty() && parts.password.is_none()
            && parts.query.is_none() && parts.fragment.is_none(),
        None => false,
    };
    plain && !contains_char(text, '"') && !contains_char(text, '#') && !contains_char(text, '\\')
        && !contains_white_space(text)
}

/// The server URL, trimmed.
///
/// The value is spliced into a TOML string, so one that could break out of it is
/// left out by the precondition; [`checked_server_url`] tests for it.
pub fn validated_server_url(raw: &str) -> (r: String)
    requires
        acceptable_server_url(raw@),
    ensures
        r@ == trimmed(raw@),
{
    trim(raw)
}

/// The server URL, trimmed, or why it was rejected.
pub fn checked_server_url(raw: &str) -> (r: Result<String, ServerUrlRejection>)
    ensures
        match r {
            Ok(url) => acceptable_server_url(raw@) && url@ == trimmed(raw@),
            Err(found) => !acceptable_server_url(raw@) && found@ == rejection(raw@),
        },
        trimmed(raw@).len() == 0 ==> r is Err,
{
    let text = trim(raw);
    let parts = parse_url(text.as_str());
    if accepts(text.as_str(), &parts) {
        return Ok(validated_server_url(raw));
    }
    if parts.is_none() {
        Err(ServerUrlRejection::NotAUrl { text })
    } else {
        Err(ServerUrlRejection::NotPlain { text })
    }
}

/// A file of the package.
#[derive(Debug, PartialEq, Eq)]
pub struct PackageAsset {
    pub path: String,
    pub bytes: Vec<u8>,
}

/// The mathematical value of a [`PackageAsset`].
#[verifier::ext_equal]
pub struct PackageAssetView {
    pub path: Seq<char>,
    pub bytes: Seq<u8>,
}

impl View for PackageAsset {
    type V = PackageAssetView;

    open spec fn view(&self) -> PackageAssetView {
        PackageAssetView {
            path: self.path@,
            bytes: self.bytes@,
        }
    }
}

impl DeepView for PackageAsset {
    type V = PackageAssetView;

    open spec fn deep_view(&self) -> PackageAssetView {
        self@
    }
}

impl Clone for PackageAsset {
    fn clone(&self) -> (r: Self)
        ensures
            r@ == self@,
    {
        let r = PackageAsset {
            path: self.path.clone(),
            bytes: self.bytes.clone(),
        };
        assert(r.bytes@ =~= self.bytes@);
        r
    }
}

/// What an operator reads when the package is installed.
#[derive(Debug, PartialEq, Eq)]
pub struct PackageOnboarding {
    pub instructions: String,
    pub credential_instructions: Option<String>,
    pub setup_url: Option<String>,
    pub credential_next_step: String,
}

/// The mathematical value of a [`PackageOnboarding`].
#[verifier::ext_equal]
pub struct PackageOnboardingView {
    pub instructions: Seq<char>,
    pub credential_instructions: Option<Seq<char>>,
    pub setup_url: Option<Seq<char>>,
    pub credential_next_step: Seq<char>,
}

impl View for PackageOnboarding {
    type V = PackageOnboardingView;

    open spec fn view(&self) -> PackageOnboardingView {
        PackageOnboardingView {
            instructions: self.instructions@,
            credential_instructions: self.credential_instructions.deep_view(),
            setup_url: self.setup_url.deep_view(),
            credential_next_step: self.credential_next_step@,
        }
    }
}

impl DeepView for PackageOnboarding {
    type V = PackageOnboardingView;

    open spec fn deep_view(&self) -> PackageOnboardingView {
        self@
    }
}

impl Clone for PackageOnboarding {
    fn clone(&self) -> (r: Self)
        ensures
            r@ == self@,
    {
        let r = PackageOnboarding {
            instructions: self.instructions.clone(),
            credential_instructions: self.credential_instructions.clone(),
            setup_url: self.setup_url.clone(),
            credential_next_step: self.credential_next_step.clone(),
        };
        assert(r.credential_instructions.deep_view() =~= self.credential_instructions.deep_view());
        assert(r.setup_url.deep_view() =~= self.setup_url.deep_view());
        r
    }
}

/// A package ready to be installed.
#[derive(Debug, PartialEq, Eq)]
pub struct PackageBundle {
    pub id: String,
    pub display_name: String,
    pub manifest_toml: String,
    pub assets: Vec<PackageAsset>,
    pub onboarding: Option<PackageOnboarding>,
    pub trust_effects: Option<Vec<EffectKind>>,
}

/// The mathematical value of a [`PackageBundle`].
#[verifier::ext_equal]
pub struct PackageBundleView {
    pub id: Seq<char>,
    pub display_name: Seq<char>,
    pub manifest_toml: Seq<char>,
    pub assets: Seq<PackageAssetView>,
    pub onboarding: Option<PackageOnboardingView>,
    pub trust_effects: Option<Seq<EffectKind>>,
}

impl View for PackageBundle {
    type V = PackageBundleView;

    open spec fn view(&self) -> PackageBundleView {
        PackageBundleView {
            id: self.id@,
            display_name: self.display_name@,
            manifest_toml: self.manifest_toml@,
            assets: self.assets.deep_view(),
            onboarding: self.onboarding.deep_view(),
            trust_effects: match self.trust_effects {
                Some(effects) => Some(effects@),
                None => None,
            },
        }
    }
}

impl DeepView for PackageBundle {
    type V = PackageBundleView;

    open spec fn deep_view(&self) -> PackageBundleView {
        self@
    }
}

impl Clone for PackageBundle {
    fn clone(&self) -> (r: Self)
        ensures
            r@ == self@,
    {
        let r = PackageBundle {
            id: self.id.clone(),
            display_name: self.display_name.clone(),
            manifest_toml: self.manifest_toml.clone(),
            assets: self.assets.clone(),
            onboarding: self.onboarding.clone(),
            trust_effects: match &self.trust_effects {
                Some(effects) => {
                    let copy = effects.clone();
                    assert(copy@ =~= effects@);
                    Some(copy)
                },
                None => None,
            },
        };
        assert(r.assets.deep_view() =~= self.assets.deep_view());
        assert(r.onboarding.deep_view() =~= self.onboarding.deep_view());
        r
    }
}

/// The schema files of the package, in order.
pub open spec fn schema_paths() -> Seq<Seq<char>> {
    seq![
        "schemas/search_agents.input.v1.json"@,
        "schemas/hire_agent.input.v1.json"@,
        "schemas/create_job.input.v1.json"@,
        "schemas/get_job_result.input.v1.json"@,
        "schemas/submit_deliverable.input.v1.json"@,
        "schemas/read_messages.input.v1.json"@,
        "schemas/list_jobs.input.v1.json"@,
        "schemas/cancel_job.input.v1.json"@,
    ]
}

/// The schema files of the package, in order.
pub fn schema_asset_paths() -> (r: Vec<&'static str>)
    ensures
        r.deep_view() == schema_paths(),
{
    let paths: Vec<&'static str> = vec![
        "schemas/search_agents.input.v1.json",
        "schemas/hire_agent.input.v1.json",
        "schemas/create_job.input.v1.json",
        "schemas/get_job_result.input.v1.json",
        "schemas/submit_deliverable.input.v1.json",
        "schemas/read_messages.input.v1.json",
        "schemas/list_jobs.input.v1.json",
        "schemas/cancel_job.input.v1.json",
    ];
    assert(paths.deep_view() =~= schema_paths());
    paths
}

/// The files of the package: the manifest first, then each schema under its
/// path.
pub open spec fn assets_of(manifest: Seq<u8>, schemas: Seq<Seq<u8>>) -> Seq<PackageAssetView> {
    seq![PackageAssetView { path: "manifest.toml"@, bytes: manifest }] + Seq::new(
        schema_paths().len(),
        |i: int| PackageAssetView { path: schema_paths()[i], bytes: schemas[i] },
    )
}

/// The contents of some files.
pub open spec fn contents_of(files: Seq<Vec<u8>>) -> Seq<Seq<u8>> {
    files.map_values(|file: Vec<u8>| file@)
}

fn copy_bytes(bytes: &Vec<u8>) -> (r: Vec<u8>)
    ensures
        r@ == bytes@,
{
    let copy = bytes.clone();
    assert(copy@ =~= bytes@);
    copy
}

/// The files of the package. `schemas` are the contents of its schema files, in
/// the order of their paths.
pub fn assets(manifest: &Vec<u8>, schemas: &Vec<Vec<u8>>) -> (r: Vec<PackageAsset>)
    requires
        schemas@.len() == schema_paths().len(),
    ensures
        r.deep_view() == assets_of(manifest@, contents_of(schemas@)),
{
    let paths = schema_asset_paths();
    let ghost all = assets_of(manifest@, contents_of(schemas@));
    let mut out: Vec<PackageAsset> = Vec::new();
    out.push(PackageAsset { path: "manifest.toml".to_string(), bytes: copy_bytes(manifest) });
    assert(out.deep_view() =~= all.take(1));
    let mut i: usize = 0;
    while i < paths.len()
        invariant
            paths.deep_view() == schema_paths(),
            schemas@.len() == paths@.len(),
            all == assets_of(manifest@, contents_of(schemas@)),
            i <= paths@.len(),
            out.deep_view() == all.take(i + 1),
        decreases paths@.len() - i,
    {
        let ghost before = out.deep_view();
        assert(paths.deep_view()[i as int] == paths@[i as int]@);
        let asset = PackageAsset { path: paths[i].to_string(), bytes: copy_bytes(&schemas[i]) };
        let ghost added = asset@;
        out.push(asset);
        assert(out.deep_view() =~= before.push(added));
        assert(all[i + 1] == added);
        assert(all.take(i + 2) =~= all.take(i + 1).push(added));
        i = i + 1;
    }
    assert(all.take(all.len() as int) =~= all);
    out
}

/// The manifest of a deployment: the shipped one, with the placeholder replaced
/// by the deployment's server where it names one.
pub open spec fn manifest_for(shipped: Seq<char>, server_url: Option<Seq<char>>) -> Seq<char> {
    match server_url {
        Some(url) => replaced(shipped, SERVER_URL_PLACEHOLDER@, trimmed(url)),
        None => shipped,
    }
}

/// Whether a deployment names a server, and it is not acceptable.
pub open spec fn misconfigured(server_url: Option<Seq<char>>) -> bool {
    match server_url {
        Some(url) => !acceptable_server_url(url),
        None => false,
    }
}

/// The manifest of a deployment. `server_url` is what the deployment's
/// environment holds; a value that is set but not acceptable, a blank one
/// included, is an error.
pub fn manifest_toml(shipped: &str, server_url: Option<String>) -> (r: Result<
    String,
    ServerUrlRejection,
>)
    ensures
        match r {
            Ok(manifest) => !misconfigured(server_url.deep_view()) && manifest@ == manifest_for(
                shipped@,
                server_url.deep_view(),
            ),
            Err(found) => misconfigured(server_url.deep_view()) && found@ == rejection(
                server_url->0@,
            ),
        },
        server_url matches Some(url) && trimmed(url@).len() == 0 ==> r is Err,
{
    match server_url {
        None => Ok(shipped.to_string()),
        Some(url) => match checked_server_url(url.as_str()) {
            Ok(server) => Ok(replace_all(shipped, SERVER_URL_PLACEHOLDER, server.as_str())),
            Err(found) => Err(found),
        },
    }
}

/// The effects the package is trusted with.
pub open spec fn market_effects() -> Seq<EffectKind> {
    seq![
        EffectKind::DispatchCapability,
        EffectKind::Network,
        EffectKind::UseSecret,
        EffectKind::ExternalWrite,
    ]
}

/// What an operator reads when the package is installed.
pub open spec fn market_onboarding() -> PackageOnboardingView {
    PackageOnboardingView {
        instructions:
            "Agent Market needs the marketplace-issued API token before its search and hire tools can run."@,
        credential_instructions: Some(
            "Paste the `axm_` bearer the marketplace issued for this account. Managed deployments deliver it automatically at provisioning."@,
        ),
        setup_url: None,
        credential_next_step:
            "After saving the token, IronClaw finishes Agent Market installation automatically and publishes its MCP tools."@,
    }
}

/// The package of a deployment. `encoded` is the manifest in UTF-8.
pub open spec fn bundle_of(
    manifest: Seq<char>,
    encoded: Seq<u8>,
    schemas: Seq<Seq<u8>>,
) -> PackageBundleView {
    PackageBundleView {
        id: ID@,
        display_name: "Agent Market"@,
        manifest_toml: manifest,
        assets: assets_of(encoded, schemas),
        onboarding: Some(market_onboarding()),
        trust_effects: Some(market_effects()),
    }
}

/// The package of a deployment: the manifest re-targeted at its server, and the
/// same bytes among the files.
pub fn bundle(shipped: &str, server_url: Option<String>, schemas: &Vec<Vec<u8>>) -> (r: Result<
    PackageBundle,
    ServerUrlRejection,
>)
    requires
        schemas@.len() == schema_paths().len(),
    ensures
        match r {
            Ok(package) => !misconfigured(server_url.deep_view()) && package@ == bundle_of(
                manifest_for(shipped@, server_url.deep_view()),
                vstd::utf8::encode_utf8(manifest_for(shipped@, server_url.deep_view())),
                contents_of(schemas@),
            ),
            Err(found) => misconfigured(server_url.deep_view()) && found@ == rejection(
                server_url->0@,
            ),
        },
        server_url matches Some(url) && trimmed(url@).len() == 0 ==> r is Err,
{
    let manifest = match manifest_toml(shipped, server_url) {
        Ok(manifest) => manifest,
        Err(found) => return Err(found),
    };
    let encoded = manifest.as_str().as_bytes_vec();
    let effects: Vec<EffectKind> = vec![
        EffectKind::DispatchCapability,
        EffectKind::Network,
        EffectKind::UseSecret,
        EffectKind::ExternalWrite,
    ];
    assert(effects@ =~= market_effects());
    let package = PackageBundle {
        id: ID.to_string(),
        display_name: "Agent Market".to_string(),
        assets: assets(&encoded, schemas),
        manifest_toml: manifest,
        onboarding: Some(
            PackageOnboarding {
                instructions:
                    "Agent Market needs the marketplace-issued API token before its search and hire tools can run.".to_string(),
                credential_instructions: Some(
                    "Paste the `axm_` bearer the marketplace issued for this account. Managed deployments deliver it automatically at provisioning.".to_string(),
                ),
                setup_url: None,
                credential_next_step:
                    "After saving the token, IronClaw finishes Agent Market installation automatically and publishes its MCP tools.".to_string(),
            },
        ),
        trust_effects: Some(effects),
    };
    Ok(package)
}

/// The manifest among the package's files holds the very bytes of the manifest
/// that the package is validated with.
pub proof fn law_manifest_asset_is_the_manifest(
    manifest: Seq<char>,
    encoded: Seq<u8>,
    schemas: Seq<Seq<u8>>,
)
    requires
        encoded == vstd::utf8::encode_utf8(manifest),
    ensures
        bundle_of(manifest, encoded, schemas).assets[0].path == "manifest.toml"@,
        bundle_of(manifest, encoded, schemas).assets[0].bytes == vstd::utf8::encode_utf8(
            bundle_of(manifest, encoded, schemas).manifest_toml,
        ),
{
}

/// An acceptable server URL can neither end the TOML string it is put into nor
/// comment out what follows: it holds no quote, comment sign, escape or line
/// break.
pub proof fn law_acceptable_url_stays_inside_its_string(text: Seq<char>, parts: Option<UrlPartsView>)
    requires
        acceptable(text, parts),
    ensures
        !text.contains('"'),
        !text.contains('#'),
        !text.contains('\\'),
        !text.contains('\n'),
        !text.contains('\r'),
{
    if text.contains('\n') {
        let k = choose|k: int| 0 <= k < text.len() && text[k] == '\n';
        assert(is_white_space(text[k]));
    }
    if text.contains('\r') {
        let k = choose|k: int| 0 <= k < text.len() && text[k] == '\r';
        assert(is_white_space(text[k]));
    }
}

/// A server URL is acceptable exactly if, trimmed, it is an HTTPS URL with a host, and
/// without user, password, query and fragment, and holds no quote, no comment sign, no
/// escape and no white space. It is else rejected as it stands, trimmed.
pub proof fn law_acceptable_urls_are_plain_and_safe(raw: Seq<char>)
    ensures
        ({
            let text = trimmed(raw);
            let parsed = parsed_url(text);
            let plain = parsed is Some && parsed->0.scheme == "https"@ && parsed->0.host is Some
                && parsed->0.username.len() == 0 && parsed->0.password is None
                && parsed->0.query is None && parsed->0.fragment is None;
            let safe = forall|k: int|
                0 <= k < text.len() ==> (#[trigger] text[k]) != '"' && text[k] != '#' && text[k]
                    != '\\' && !is_white_space(text[k]);
            &&& acceptable_server_url(raw) <==> plain && safe
            &&& rejection(raw) == if parsed is None {
                ServerUrlRejectionView::NotAUrl { text }
            } else {
                ServerUrlRejectionView::NotPlain { text }
            }
        }),
{
    let text = trimmed(raw);
    assert(!text.contains('"') <==> forall|k: int|
        0 <= k < text.len() ==> (#[trigger] text[k]) != '"');
    assert(!text.contains('#') <==> forall|k: int|
        0 <= k < text.len() ==> (#[trigger] text[k]) != '#');
    assert(!text.contains('\\') <==> forall|k: int|
        0 <= k < text.len() ==> (#[trigger] text[k]) != '\\');
}

/// A deployment is misconfigured exactly if it names a server that is not acceptable. Its
/// manifest is the shipped one, with the deployment's server, trimmed, in each place of
/// the placeholder; without a server it is the shipped one as it is.
pub proof fn law_manifest_is_the_shipped_one_with_the_server(
    shipped: Seq<char>,
    rest: Seq<char>,
    url: Seq<char>,
)
    ensures
        manifest_for(shipped, None) == shipped,
        !misconfigured(None),
        misconfigured(Some(url)) <==> !acceptable_server_url(url),
        manifest_for("https://MARKET_PUBLIC_HOST/mcp"@ + rest, Some(url)) == trimmed(url)
            + manifest_for(rest, Some(url)),
        shipped.len() > 0 && !"https://MARKET_PUBLIC_HOST/mcp"@.is_prefix_of(shipped)
            ==> manifest_for(shipped, Some(url)) == seq![shipped[0]] + manifest_for(
            shipped.drop_first(),
            Some(url),
        ),
        manifest_for(Seq::empty(), Some(url)).len() == 0,
{
    reveal_strlit("https://MARKET_PUBLIC_HOST/mcp");
    let from = "https://MARKET_PUBLIC_HOST/mcp"@;
    assert(from == SERVER_URL_PLACEHOLDER@);
    law_replacing_goes_from_left_to_right(from, trimmed(url), rest, ' ');
    if shipped.len() > 0 {
        assert(seq![shipped[0]] + shipped.drop_first() =~= shipped);
        law_replacing_goes_from_left_to_right(
            from,
            trimmed(url),
            shipped.drop_first(),
            shipped[0],
        );
    }
}

/// The package is the Agent Market's, with the manifest it is validated with, the manifest
/// and each schema among its files, and trusted to dispatch, to use the network and a
/// secret, and to write outside, and nothing else.
pub proof fn law_package_holds_its_manifest_and_schemas(
    manifest: Seq<char>,
    encoded: Seq<u8>,
    schemas: Seq<Seq<u8>>,
)
    ensures
        ({
            let package = bundle_of(manifest, encoded, schemas);
            &&& package.id == "agent-market"@
            &&& package.display_name == "Agent Market"@
            &&& package.manifest_toml == manifest
            &&& package.onboarding is Some
            &&& package.onboarding->0.setup_url is None
            &&& package.onboarding->0.credential_instructions is Some
            &&& package.assets.len() == 9
            &&& package.assets[0].path == "manifest.toml"@
            &&& package.assets[0].bytes == encoded
            &&& forall|k: int|
                0 <= k < 8 ==> package.assets[k + 1].path == #[trigger] schema_paths()[k]
                    && package.assets[k + 1].bytes == schemas[k]
            &&& package.trust_effects is Some
            &&& forall|effect: EffectKind|
                #![trigger package.trust_effects->0.contains(effect)]
                package.trust_effects->0.contains(effect) <==> effect
                    == EffectKind::DispatchCapability || effect == EffectKind::Network || effect
                    == EffectKind::UseSecret || effect == EffectKind::ExternalWrite
        }),
{
    let effects = market_effects();
    assert(effects[0] == EffectKind::DispatchCapability);
    assert(effects[1] == EffectKind::Network);
    assert(effects[2] == EffectKind::UseSecret);
    assert(effects[3] == EffectKind::ExternalWrite);
}

/// The schemas stand under the names of the tools they are for.
pub proof fn law_schemas_stand_under_their_tools()
    ensures
        schema_paths().len() == 8,
        schema_paths()[0] == "schemas/search_agents.input.v1.json"@,
        schema_paths()[1] == "schemas/hire_agent.input.v1.json"@,
        schema_paths()[2] == "schemas/create_job.input.v1.json"@,
        schema_paths()[3] == "schemas/get_job_result.input.v1.json"@,
        schema_paths()[4] == "schemas/submit_deliverable.input.v1.json"@,
        schema_paths()[5] == "schemas/read_messages.input.v1.json"@,
        schema_paths()[6] == "schemas/list_jobs.input.v1.json"@,
        schema_paths()[7] == "schemas/cancel_job.input.v1.json"@,
{
}

/// An operator is told that the package needs a token, where to paste it, and what happens
/// next.
pub proof fn law_onboarding_asks_for_the_token(
    manifest: Seq<char>,
    encoded: Seq<u8>,
    schemas: Seq<Seq<u8>>,
)
    ensures
        ({
            let onboarding = bundle_of(manifest, encoded, schemas).onboarding->0;
            &&& onboarding.instructions
                == "Agent Market needs the marketplace-issued API token before its search and hire tools can run."@
            &&& onboarding.credential_instructions == Some(
                "Paste the `axm_` bearer the marketplace issued for this account. Managed deployments deliver it automatically at provisioning."@,
            )
            &&& onboarding.credential_next_step
                == "After saving the token, IronClaw finishes Agent Market installation automatically and publishes its MCP tools."@
        }),
{
}

} // verus!
