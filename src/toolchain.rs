//! The active platform (runtime and package-manager versions) and its
//! in-memory lifecycle: each mutator changes the platform only when the new
//! value differs from the current one, and reports whether the platform file
//! must be written again.
use vstd::prelude::*;

use vstd::string::StringExecFns;

use crate::error::ErrorDetails;
use crate::text::{decimal, joined_with, json_escaped, push_decimal, push_joined, push_json_escaped};

verus! {

/// A semantic version: numeric core, pre-release identifiers and build
/// metadata, each identifier kept as its text.
#[derive(Clone, Debug)]
pub struct Version {
    pub major: u64,
    pub minor: u64,
    pub patch: u64,
    pub pre: Vec<String>,
    pub build: Vec<String>,
}

pub ghost struct VersionView {
    pub major: nat,
    pub minor: nat,
    pub patch: nat,
    pub pre: Seq<Seq<char>>,
    pub build: Seq<Seq<char>>,
}

impl View for Version {
    type V = VersionView;

    open spec fn view(&self) -> VersionView {
        VersionView {
            major: self.major as nat,
            minor: self.minor as nat,
            patch: self.patch as nat,
            pre: self.pre.deep_view(),
            build: self.build.deep_view(),
        }
    }
}

/// Semantic-version equality: build metadata does not take part.
pub open spec fn same_version(a: VersionView, b: VersionView) -> bool {
    a.major == b.major && a.minor == b.minor && a.patch == b.patch && a.pre == b.pre
}

/// Equality of optional versions, each present one compared by `same_version`.
pub open spec fn same_opt_version(a: Option<VersionView>, b: Option<VersionView>) -> bool {
    match (a, b) {
        (Some(x), Some(y)) => same_version(x, y),
        (None, None) => true,
        _ => false,
    }
}

/// What the semver parser makes of a text: a version, or nothing when the
/// text is not a semantic version.
pub uninterp spec fn semver_parse(text: Seq<char>) -> Option<VersionView>;

/// Relies on semver::Version::parse: parses `text` into a version (each
/// identifier rendered back to its text), or reports the parser's message.
#[verifier::external_body]
fn parse_semver(text: &str) -> (r: Result<Version, String>)
    ensures
        match r {
            Ok(v) => semver_parse(text@) == Some(v@),
            Err(_) => semver_parse(text@).is_none(),
        },
{
    match semver::Version::parse(text) {
        Ok(v) => Ok(Version {
            major: v.major,
            minor: v.minor,
            patch: v.patch,
            pre: v.pre.iter().map(|i| i.to_string()).collect(),
            build: v.build.iter().map(|i| i.to_string()).collect(),
        }),
        Err(e) => Err(e.to_string()),
    }
}

/// Whether two identifier lists are equal, identifier by identifier.
fn same_identifiers(a: &Vec<String>, b: &Vec<String>) -> (r: bool)
    ensures
        r == (a.deep_view() == b.deep_view()),
{
    if a.len() != b.len() {
        proof {
            assert(a.deep_view().len() != b.deep_view().len());
        }
        return false;
    }
    let mut i: usize = 0;
    while i < a.len()
        invariant
            a.len() == b.len(),
            i <= a.len(),
            forall|k: int| 0 <= k < i ==> a@[k]@ == b@[k]@,
        decreases a.len() - i,
    {
        if a[i] != b[i] {
            proof {
                assert(a.deep_view()[i as int] != b.deep_view()[i as int]);
            }
            return false;
        }
        i = i + 1;
    }
    proof {
        assert(a.deep_view() =~= b.deep_view());
    }
    true
}

impl Version {
    /// Parses a semantic version, mapping the parser's failure to
    /// `VersionParseError`.
    pub fn parse(text: &str) -> (r: Result<Version, ErrorDetails>)
        ensures
            match r {
                Ok(v) => semver_parse(text@) == Some(v@),
                Err(e) => semver_parse(text@).is_none() && e matches ErrorDetails::VersionParseError { .. },
            },
    {
        match parse_semver(text) {
            Ok(v) => Ok(v),
            Err(error) => Err(ErrorDetails::VersionParseError { error }),
        }
    }

    /// Appends the text of this version.
    pub fn push_text(&self, s: &mut String)
        ensures
            final(s)@ == old(s)@ + version_text(self@),
    {
        proof {
            reveal_strlit(".");
            reveal_strlit("-");
            reveal_strlit("+");
        }
        push_decimal(s, self.major);
        s.append(".");
        push_decimal(s, self.minor);
        s.append(".");
        push_decimal(s, self.patch);
        let ghost core = s@;
        if self.pre.len() > 0 {
            s.append("-");
            push_joined(s, &self.pre, ".");
        }
        let ghost with_pre = s@;
        if self.build.len() > 0 {
            s.append("+");
            push_joined(s, &self.build, ".");
        }
        proof {
            assert("."@[0] == '.');
            assert(final(s)@ =~= old(s)@ + version_text(self@));
        }
    }

    /// The text of this version, as semver writes it.
    pub fn to_string(&self) -> (r: String)
        ensures
            r@ == version_text(self@),
    {
        let mut s = String::new();
        self.push_text(&mut s);
        proof {
            assert(s@ =~= version_text(self@));
        }
        s
    }

    /// Semantic-version equality: build metadata is ignored.
    pub fn same_as(&self, other: &Version) -> (r: bool)
        ensures
            r == same_version(self@, other@),
    {
        self.major == other.major && self.minor == other.minor && self.patch == other.patch
            && same_identifiers(&self.pre, &other.pre)
    }
}

/// The text of a version: `major.minor.patch`, then `-` and the pre-release
/// identifiers, then `+` and the build identifiers, each list dot-separated
/// and each part present only when non-empty.
pub open spec fn version_text(v: VersionView) -> Seq<char> {
    decimal(v.major) + "."@ + decimal(v.minor) + "."@ + decimal(v.patch)
        + (if v.pre.len() > 0 { "-"@ + joined_with(v.pre, '.') } else { Seq::empty() })
        + (if v.build.len() > 0 { "+"@ + joined_with(v.build, '.') } else { Seq::empty() })
}

/// A JSON string member `"key":"<version text>"`, the text escaped as JSON
/// requires.
pub open spec fn version_member(key: Seq<char>, v: VersionView) -> Seq<char> {
    "\""@ + key + "\":\""@ + json_escaped(version_text(v)) + "\""@
}

/// The platform file's text: `{}` without a platform, else an object with a
/// `node` member (`runtime`, and `npm` when present) and a `yarn` member when
/// present.
pub open spec fn platform_json(p: Option<PlatformView>) -> Seq<char> {
    match p {
        None => "{}"@,
        Some(q) => "{\"node\":{"@ + version_member("runtime"@, q.node_runtime)
            + (match q.npm {
                Some(n) => ","@ + version_member("npm"@, n),
                None => Seq::empty(),
            }) + "}"@
            + (match q.yarn {
                Some(y) => ","@ + version_member("yarn"@, y),
                None => Seq::empty(),
            }) + "}"@,
    }
}

/// Appends `"key":"<version text>"`.
fn push_member(s: &mut String, key: &str, v: &Version)
    ensures
        final(s)@ == old(s)@ + version_member(key@, v@),
{
    s.append("\"");
    s.append(key);
    s.append("\":\"");
    let text = v.to_string();
    push_json_escaped(s, text.as_str());
    s.append("\"");
    proof {
        assert(final(s)@ =~= old(s)@ + version_member(key@, v@));
    }
}

/// Whether an optional version is present and equal to `v`.
fn holds_version(current: &Option<Version>, v: &Version) -> (r: bool)
    ensures
        r == same_opt_version(opt_view(*current), Some(v@)),
{
    match current {
        Some(c) => c.same_as(v),
        None => false,
    }
}

pub open spec fn opt_view(v: Option<Version>) -> Option<VersionView> {
    match v {
        Some(x) => Some(x@),
        None => None,
    }
}

/// The active versions of one pin scope.
#[derive(Clone, Debug)]
pub struct PlatformSpec {
    pub node_runtime: Version,
    pub npm: Option<Version>,
    pub yarn: Option<Version>,
}

pub ghost struct PlatformView {
    pub node_runtime: VersionView,
    pub npm: Option<VersionView>,
    pub yarn: Option<VersionView>,
}

impl View for PlatformSpec {
    type V = PlatformView;

    open spec fn view(&self) -> PlatformView {
        PlatformView {
            node_runtime: self.node_runtime@,
            npm: opt_view(self.npm),
            yarn: opt_view(self.yarn),
        }
    }
}

/// A runtime version together with the npm version bundled with it.
#[derive(Clone, Debug)]
pub struct NodeVersion {
    pub runtime: Version,
    pub npm: Version,
}

/// The platform after pinning `runtime` and `npm`, and whether it changed.
/// A field keeps its current value when the new one is the same version.
pub open spec fn node_step(
    p: Option<PlatformView>,
    runtime: VersionView,
    npm: VersionView,
) -> (Option<PlatformView>, bool) {
    match p {
        None => (Some(PlatformView { node_runtime: runtime, npm: Some(npm), yarn: None }), true),
        Some(q) => {
            let runtime_same = same_version(q.node_runtime, runtime);
            let npm_same = same_opt_version(q.npm, Some(npm));
            (
                Some(
                    PlatformView {
                        node_runtime: if runtime_same { q.node_runtime } else { runtime },
                        npm: if npm_same { q.npm } else { Some(npm) },
                        yarn: q.yarn,
                    },
                ),
                !runtime_same || !npm_same,
            )
        },
    }
}

/// The platform after pinning yarn `v`, and whether it changed. Without a
/// platform nothing happens.
pub open spec fn yarn_step(p: Option<PlatformView>, v: VersionView) -> (Option<PlatformView>, bool) {
    match p {
        None => (None, false),
        Some(q) => if same_opt_version(q.yarn, Some(v)) {
            (p, false)
        } else {
            (Some(PlatformView { yarn: Some(v), ..q }), true)
        },
    }
}

/// The platform after pinning npm `v`, and whether it changed. Without a
/// platform nothing happens.
pub open spec fn npm_step(p: Option<PlatformView>, v: VersionView) -> (Option<PlatformView>, bool) {
    match p {
        None => (None, false),
        Some(q) => if same_opt_version(q.npm, Some(v)) {
            (p, false)
        } else {
            (Some(PlatformView { npm: Some(v), ..q }), true)
        },
    }
}

/// The resolved platform of the user scope: `None` until a runtime is pinned.
pub struct Toolchain {
    platform: Option<PlatformSpec>,
}

pub open spec fn platform_view(p: Option<PlatformSpec>) -> Option<PlatformView> {
    match p {
        Some(x) => Some(x@),
        None => None,
    }
}

impl View for Toolchain {
    type V = Option<PlatformView>;

    closed spec fn view(&self) -> Option<PlatformView> {
        platform_view(self.platform)
    }
}

impl Toolchain {
    /// A toolchain holding the platform read from the platform file.
    pub fn new(platform: Option<PlatformSpec>) -> (r: Toolchain)
        ensures
            r@ == platform_view(platform),
    {
        Toolchain { platform }
    }

    pub fn platform_ref(&self) -> (r: Option<&PlatformSpec>)
        ensures
            match r {
                Some(p) => self@ == Some(p@),
                None => self@.is_none(),
            },
    {
        self.platform.as_ref()
    }

    /// Pins a runtime and its npm. Returns whether the platform changed, that
    /// is whether the platform file must be saved.
    pub fn set_active_node(&mut self, node_version: NodeVersion) -> (dirty: bool)
        ensures
            (final(self)@, dirty) == node_step(old(self)@, node_version.runtime@, node_version.npm@),
    {
        let mut dirty = false;
        match self.platform.take() {
            Some(mut platform) => {
                if !platform.node_runtime.same_as(&node_version.runtime) {
                    platform.node_runtime = node_version.runtime;
                    dirty = true;
                }
                if !holds_version(&platform.npm, &node_version.npm) {
                    platform.npm = Some(node_version.npm);
                    dirty = true;
                }
                self.platform = Some(platform);
            },
            None => {
                self.platform = Some(
                    PlatformSpec { node_runtime: node_version.runtime, npm: Some(node_version.npm), yarn: None },
                );
                dirty = true;
            },
        }
        dirty
    }

    /// Pins a yarn version; without a platform nothing changes. Returns
    /// whether the platform changed.
    pub fn set_active_yarn(&mut self, yarn_version: Version) -> (dirty: bool)
        ensures
            (final(self)@, dirty) == yarn_step(old(self)@, yarn_version@),
    {
        let mut dirty = false;
        if let Some(platform) = &mut self.platform {
            if !holds_version(&platform.yarn, &yarn_version) {
                platform.yarn = Some(yarn_version);
                dirty = true;
            }
        }
        dirty
    }

    /// Pins an npm version; without a platform nothing changes. Returns
    /// whether the platform changed.
    pub fn set_active_npm(&mut self, npm_version: Version) -> (dirty: bool)
        ensures
            (final(self)@, dirty) == npm_step(old(self)@, npm_version@),
    {
        let mut dirty = false;
        if let Some(platform) = &mut self.platform {
            if !holds_version(&platform.npm, &npm_version) {
                platform.npm = Some(npm_version);
                dirty = true;
            }
        }
        dirty
    }
    /// The text to write to the platform file for the current platform.
    pub fn save(&self) -> (r: String)
        ensures
            r@ == platform_json(self@),
    {
        match &self.platform {
            Some(p) => {
                let mut s = String::from_str("{\"node\":{");
                push_member(&mut s, "runtime", &p.node_runtime);
                if let Some(n) = &p.npm {
                    s.append(",");
                    push_member(&mut s, "npm", n);
                }
                s.append("}");
                if let Some(y) = &p.yarn {
                    s.append(",");
                    push_member(&mut s, "yarn", y);
                }
                s.append("}");
                proof {
                    assert(s@ =~= platform_json(self@));
                }
                s
            },
            None => String::from_str("{}"),
        }
    }
}

/// The platform described by the version texts of a platform file: none
/// without a `node` member (a lone `yarn` member has no meaning then), else
/// the parsed runtime, npm and yarn versions. The first text that is not a
/// semantic version gives `VersionParseError`.
pub fn platform_from_texts(
    node: Option<(String, Option<String>)>,
    yarn: Option<String>,
) -> (r: Result<Option<PlatformSpec>, ErrorDetails>)
    ensures
        match node {
            None => r matches Ok(None),
            Some((runtime, npm)) => {
                let parsed = semver_parse(runtime@) is Some
                    && (npm matches Some(n) ==> semver_parse(n@) is Some)
                    && (yarn matches Some(y) ==> semver_parse(y@) is Some);
                &&& parsed <==> r is Ok
                &&& r matches Ok(p) ==> p matches Some(q) && q@ == PlatformView {
                    node_runtime: semver_parse(runtime@)->Some_0,
                    npm: match npm {
                        Some(n) => semver_parse(n@),
                        None => None,
                    },
                    yarn: match yarn {
                        Some(y) => semver_parse(y@),
                        None => None,
                    },
                }
                &&& r matches Err(e) ==> e matches ErrorDetails::VersionParseError { .. }
            },
        },
{
    match node {
        None => Ok(None),
        Some((runtime, npm)) => {
            let node_runtime = Version::parse(runtime.as_str())?;
            let npm = match npm {
                Some(n) => Some(Version::parse(n.as_str())?),
                None => None,
            };
            let yarn = match yarn {
                Some(y) => Some(Version::parse(y.as_str())?),
                None => None,
            };
            Ok(Some(PlatformSpec { node_runtime, npm, yarn }))
        },
    }
}

/// The toolchain of one process, loaded at most once: it stays empty until a
/// load succeeds, and a failed load may be tried again.
pub struct LazyToolchain {
    toolchain: Option<Toolchain>,
}

impl View for LazyToolchain {
    type V = Option<Option<PlatformView>>;

    closed spec fn view(&self) -> Option<Option<PlatformView>> {
        match self.toolchain {
            Some(t) => Some(t@),
            None => None,
        }
    }
}

impl LazyToolchain {
    /// An empty cache: nothing loaded yet.
    pub fn new() -> (r: LazyToolchain)
        ensures
            r@.is_none(),
    {
        LazyToolchain { toolchain: None }
    }

    /// Whether a toolchain has been loaded.
    pub fn is_loaded(&self) -> (r: bool)
        ensures
            r == self@.is_some(),
    {
        self.toolchain.is_some()
    }

    /// Hands in the outcome of loading the toolchain. An already loaded
    /// toolchain is kept and the outcome dropped; otherwise a loaded
    /// toolchain is stored, and a failure is returned with the cache left
    /// empty.
    pub fn load_with(&mut self, loaded: Result<Toolchain, ErrorDetails>) -> (r: Result<(), ErrorDetails>)
        ensures
            old(self)@ is Some ==> final(self)@ == old(self)@ && r is Ok,
            old(self)@ is None ==> match loaded {
                Ok(t) => final(self)@ == Some(t@) && r is Ok,
                Err(e) => final(self)@ is None && r == Err::<(), ErrorDetails>(e),
            },
    {
        if self.toolchain.is_some() {
            return Ok(());
        }
        match loaded {
            Ok(t) => {
                self.toolchain = Some(t);
                Ok(())
            },
            Err(e) => Err(e),
        }
    }

    /// The loaded toolchain, if any.
    pub fn get(&self) -> (r: Option<&Toolchain>)
        ensures
            match r {
                Some(t) => self@ == Some(t@),
                None => self@ is None,
            },
    {
        self.toolchain.as_ref()
    }

    /// The loaded toolchain for mutation, if any.
    pub fn get_mut(&mut self) -> (r: Option<&mut Toolchain>)
        ensures
            match r {
                Some(t) => old(self)@ == Some(t@) && final(self)@ == Some(final(t)@),
                None => old(self)@ is None && final(self)@ is None,
            },
    {
        self.toolchain.as_mut()
    }
}

/// Pinning the same runtime and npm twice in a row changes nothing the second
/// time, so only the first pin asks for a save.
pub proof fn lemma_node_pin_idempotent(p: Option<PlatformView>, runtime: VersionView, npm: VersionView)
    ensures
        node_step(node_step(p, runtime, npm).0, runtime, npm) == (node_step(p, runtime, npm).0, false),
{
}

/// Before any runtime is pinned, pinning yarn or npm leaves the platform
/// absent and asks for no save.
pub proof fn lemma_no_platform_no_change(v: VersionView)
    ensures
        yarn_step(None, v) == (None::<PlatformView>, false),
        npm_step(None, v) == (None::<PlatformView>, false),
{
}

/// Pinning the yarn version that is already active changes nothing and asks
/// for no save.
pub proof fn lemma_yarn_repin_no_change(p: PlatformView, v: VersionView)
    requires
        p.yarn matches Some(y) && same_version(y, v),
    ensures
        yarn_step(Some(p), v) == (Some(p), false),
{
}

/// Pinning the npm version that is already active changes nothing and asks
/// for no save.
pub proof fn lemma_npm_repin_no_change(p: PlatformView, v: VersionView)
    requires
        p.npm matches Some(n) && same_version(n, v),
    ensures
        npm_step(Some(p), v) == (Some(p), false),
{
}

} // verus!
