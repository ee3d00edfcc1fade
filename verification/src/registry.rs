//! Registry configuration, image references and artifact references.
use vstd::prelude::*;
use vstd::string::*;
use vstd::utf8::*;

use crate::error::{config_error, Error};
use crate::path::{join_path, joined_path};
use crate::scan::{
    contains_char, find_from, find_last, first_of, has_prefix, last_of, lemma_first_of,
    lemma_first_of_facts, lemma_last_of, lemma_last_of_facts, lemma_split_cons, lemma_split_pieces,
    lemma_split_single, lemma_trimmed_ends, lemma_trimmed_id, split, split_all, strip_prefix, trim,
    trimmed,
};
use crate::table::Table;
use crate::text::{char_vec, decimal, decimal_text, hex_digit, is_hex_digit, is_white_space};

verus! {

// ---------------------------------------------------------------------------
// Registry configuration
// ---------------------------------------------------------------------------

/// Registry configuration.
#[derive(Debug)]
pub struct RegistryConfig {
    /// Per-registry configuration entries.
    pub registries: Table<RegistryEntry>,
    /// Default settings.
    pub defaults: RegistryDefaults,
}

/// Configuration for a single registry.
#[derive(Debug)]
pub struct RegistryEntry {
    /// Username for authentication.
    pub username: Option<String>,
    /// Password (plaintext - not recommended, use password_env instead).
    pub password: Option<String>,
    /// Environment variable containing the password.
    pub password_env: Option<String>,
    /// Mirror URL to use instead of this registry.
    pub mirror: Option<String>,
}

/// The mathematical value of a [`RegistryEntry`].
pub struct RegistryEntryView {
    /// See [`RegistryEntry::username`].
    pub username: Option<Seq<char>>,
    /// See [`RegistryEntry::password`].
    pub password: Option<Seq<char>>,
    /// See [`RegistryEntry::password_env`].
    pub password_env: Option<Seq<char>>,
    /// See [`RegistryEntry::mirror`].
    pub mirror: Option<Seq<char>>,
}

impl View for RegistryEntry {
    type V = RegistryEntryView;

    open spec fn view(&self) -> RegistryEntryView {
        RegistryEntryView {
            username: self.username.deep_view(),
            password: self.password.deep_view(),
            password_env: self.password_env.deep_view(),
            mirror: self.mirror.deep_view(),
        }
    }
}

/// Default registry settings.
#[derive(Debug)]
pub struct RegistryDefaults {
    /// Default registry when none specified (defaults to docker.io).
    pub registry: Option<String>,
}

/// Credentials for a registry.
#[derive(Debug)]
pub struct RegistryAuth {
    /// Username.
    pub username: String,
    /// Password.
    pub password: String,
}

impl Default for RegistryEntry {
    fn default() -> (r: RegistryEntry)
        ensures
            r == (RegistryEntry { username: None, password: None, password_env: None, mirror: None }),
    {
        RegistryEntry { username: None, password: None, password_env: None, mirror: None }
    }
}

impl Default for RegistryDefaults {
    fn default() -> (r: RegistryDefaults)
        ensures
            r.registry is None,
    {
        RegistryDefaults { registry: None }
    }
}

impl Default for RegistryConfig {
    fn default() -> (r: RegistryConfig)
        ensures
            r.registries@ == Map::<Seq<char>, RegistryEntryView>::empty(),
            r.defaults.registry is None,
    {
        RegistryConfig { registries: Table::new(), defaults: RegistryDefaults::default() }
    }
}

/// The user name and password of an entry, given the value of the environment
/// variable that it names: the variable comes before the plain password.
pub open spec fn entry_credentials(
    e: RegistryEntryView,
    variable: Option<Seq<char>>,
) -> Option<(Seq<char>, Seq<char>)> {
    match e.username {
        None => None,
        Some(user) => match (e.password_env, variable, e.password) {
            (Some(_), Some(value), _) => Some((user, value)),
            (_, _, Some(password)) => Some((user, password)),
            _ => None,
        },
    }
}

impl RegistryConfig {
    /// The configuration, given what was read of its file: nothing where there is none,
    /// or why it could not be read or parsed. A file that is missing or unusable is an
    /// empty configuration; the error is for the log only.
    pub fn load(file: Result<Option<RegistryConfig>, String>) -> (r: RegistryConfig)
        ensures
            match file {
                Ok(Some(config)) => r == config,
                _ => r.registries@ == Map::<Seq<char>, RegistryEntryView>::empty()
                    && r.defaults.registry is None,
            },
    {
        match file {
            Ok(Some(config)) => config,
            _ => RegistryConfig::default(),
        }
    }

    /// Get the path to the registry configuration file, below the user's home
    /// directory. It is the same on every platform.
    pub fn config_path(home: Option<String>) -> (r: Result<String, Error>)
        ensures
            match home {
                Some(h) => r matches Ok(p) && p@ == joined_path(
                    joined_path(joined_path(h@, ".config"@), "smolvm"@),
                    "registries.toml"@,
                ),
                None => r matches Err(e) && e@ == config_error(
                    "resolve path"@,
                    "no home directory found"@,
                ),
            },
    {
        match home {
            Some(h) => Ok(
                join_path(
                    join_path(join_path(h.as_str(), ".config").as_str(), "smolvm").as_str(),
                    "registries.toml",
                ),
            ),
            None => Err(Error::config("resolve path", String::from_str("no home directory found"))),
        }
    }

    /// The environment variable in which the password for a registry is looked up.
    pub fn password_variable(&self, registry: &str) -> (r: Option<&str>)
        ensures
            match r {
                Some(v) => self.registries@.dom().contains(registry@)
                    && self.registries@[registry@].password_env == Some(v@),
                None => self.registries@.dom().contains(registry@)
                    ==> self.registries@[registry@].password_env is None,
            },
    {
        match self.registries.get(registry) {
            Some(entry) => match &entry.password_env {
                Some(v) => Some(v.as_str()),
                None => None,
            },
            None => None,
        }
    }

    /// Get credentials for a registry, given the value of the environment variable
    /// that its entry names.
    ///
    /// Returns `None` if there is no entry for this registry, no username
    /// configured, or no password available.
    pub fn get_credentials(&self, registry: &str, variable: Option<String>) -> (r: Option<
        RegistryAuth,
    >)
        ensures
            ({
                let expected = if self.registries@.dom().contains(registry@) {
                    entry_credentials(self.registries@[registry@], variable.deep_view())
                } else {
                    None
                };
                match r {
                    Some(a) => expected == Some((a.username@, a.password@)),
                    None => expected is None,
                }
            }),
    {
        let entry = match self.registries.get(registry) {
            Some(entry) => entry,
            None => {
                return None;
            },
        };
        let username = match &entry.username {
            Some(u) => u.clone(),
            None => {
                return None;
            },
        };
        if entry.password_env.is_some() {
            if let Some(password) = variable {
                return Some(RegistryAuth { username, password });
            }
        }
        match &entry.password {
            Some(p) => Some(RegistryAuth { username, password: p.clone() }),
            None => None,
        }
    }

    /// Get mirror URL for a registry if configured.
    pub fn get_mirror(&self, registry: &str) -> (r: Option<&str>)
        ensures
            match r {
                Some(m) => self.registries@.dom().contains(registry@)
                    && self.registries@[registry@].mirror == Some(m@),
                None => self.registries@.dom().contains(registry@)
                    ==> self.registries@[registry@].mirror is None,
            },
    {
        match self.registries.get(registry) {
            Some(entry) => match &entry.mirror {
                Some(m) => Some(m.as_str()),
                None => None,
            },
            None => None,
        }
    }

    /// Get the default registry (defaults to "docker.io").
    pub fn default_registry(&self) -> (r: &str)
        ensures
            r@ == (match self.defaults.registry {
                Some(d) => d@,
                None => DEFAULT_REGISTRY@,
            }),
    {
        match &self.defaults.registry {
            Some(d) => d.as_str(),
            None => DEFAULT_REGISTRY,
        }
    }

    /// Check if any registries are configured.
    pub fn has_registries(&self) -> (r: bool)
        ensures
            r == (self.registries@ != Map::<Seq<char>, RegistryEntryView>::empty()),
    {
        !self.registries.is_empty()
    }
}

/// Without a user name there are no credentials, and a set variable overrides the
/// plain password.
pub proof fn credentials_prefer_the_variable(
    e: RegistryEntryView,
    value: Seq<char>,
    variable: Option<Seq<char>>,
)
    ensures
        e.username is None ==> entry_credentials(e, variable) is None,
        e.username is Some && e.password_env is Some ==> entry_credentials(e, Some(value)) == Some(
            (e.username->0, value),
        ),
        e.password_env is None ==> entry_credentials(e, variable) == entry_credentials(e, None),
{
}

/// The plain password stands where no variable gives one, and an entry with neither has no
/// credentials; the user name is always that of the entry.
pub proof fn credentials_are_those_configured(e: RegistryEntryView, variable: Option<Seq<char>>)
    requires
        e.username is Some,
    ensures
        e.password_env is None || variable is None ==> match e.password {
            Some(password) => entry_credentials(e, variable) == Some((e.username->0, password)),
            None => entry_credentials(e, variable) is None,
        },
        entry_credentials(e, variable) matches Some((user, _)) ==> user == e.username->0,
{
}

// ---------------------------------------------------------------------------
// Image references
// ---------------------------------------------------------------------------

/// Default registry when none specified in image reference.
pub const DEFAULT_REGISTRY: &'static str = "docker.io";

/// Whether a path component looks like a registry hostname: it holds a dot or a port.
pub open spec fn is_host(s: Seq<char>) -> bool {
    s.contains('.') || s.contains(':')
}

fn looks_like_host(s: &str) -> (r: bool)
    ensures
        r == is_host(s@),
{
    contains_char(s, '.') || contains_char(s, ':')
}

/// The registry that an image reference names: its first path component where that
/// looks like a hostname, else the default.
pub open spec fn image_registry(image: Seq<char>) -> Seq<char> {
    let slash = first_of(image, '/');
    if slash < image.len() && is_host(image.take(slash)) {
        image.take(slash)
    } else {
        DEFAULT_REGISTRY@
    }
}

/// Extract the registry hostname from an image reference.
pub fn extract_registry(image: &str) -> (r: String)
    ensures
        r@ == image_registry(image@),
{
    let chars = char_vec(image);
    let slash: usize = find_from(&chars, '/', 0);
    proof {
        assert(image@.skip(0) =~= image@);
    }
    if slash < chars.len() {
        let host = image.substring_char(0, slash);
        proof {
            assert(host@ =~= image@.take(slash as int));
        }
        if looks_like_host(host) {
            return host.to_owned();
        }
    }
    DEFAULT_REGISTRY.to_owned()
}

/// An image reference with another registry.
pub open spec fn rewritten_image(image: Seq<char>, new_registry: Seq<char>) -> Seq<char> {
    let current = image_registry(image);
    if has_prefix(image, current) {
        new_registry + image.skip(current.len() as int)
    } else if image.contains('/') {
        new_registry + "/"@ + image
    } else {
        new_registry + "/library/"@ + image
    }
}

/// Rewrite an image reference to use a different registry.
pub fn rewrite_image_registry(image: &str, new_registry: &str) -> (r: String)
    ensures
        r@ == rewritten_image(image@, new_registry@),
{
    let current = extract_registry(image);
    match strip_prefix(image, current.as_str()) {
        Some(rest) => new_registry.to_owned().concat(rest.as_str()),
        None => if contains_char(image, '/') {
            new_registry.to_owned().concat("/").concat(image)
        } else {
            new_registry.to_owned().concat("/library/").concat(image)
        },
    }
}

/// A rewritten reference names the new registry, for a registry that is a hostname,
/// and for every image but one without a path that starts with the default
/// registry's name.
pub proof fn rewriting_changes_the_registry(image: Seq<char>, new_registry: Seq<char>)
    requires
        is_host(new_registry),
        !new_registry.contains('/'),
        image.contains('/') || !has_prefix(image, DEFAULT_REGISTRY@),
    ensures
        image_registry(rewritten_image(image, new_registry)) == new_registry,
{
    let current = image_registry(image);
    let r = rewritten_image(image, new_registry);
    let n = new_registry.len() as int;
    lemma_first_of_facts(image, '/');
    reveal_strlit("/");
    reveal_strlit("/library/");
    reveal_strlit("docker.io");
    if has_prefix(image, current) {
        let slash = first_of(image, '/');
        if !is_host(image.take(slash)) {
            assert(current == DEFAULT_REGISTRY@);
            assert(image.contains('/'));
            assert(slash < image.len());
            let d = DEFAULT_REGISTRY@;
            assert(image.take(d.len() as int) == d);
            assert(d[6] == '.');
            assert(image[6] == '.');
            if slash < d.len() {
                assert(image.take(d.len() as int)[slash] == '/');
                assert(false);
            }
            assert(image.take(slash)[6] == '.');
            assert(false);
        }
        assert(slash < image.len());
        assert(r[n] == image[slash]);
    } else if image.contains('/') {
        assert(r[n] == "/"@[0]);
    } else {
        assert(r[n] == "/library/"@[0]);
    }
    assert(r.take(n) =~= new_registry);
    assert forall|j: int| 0 <= j < n implies r[j] != '/' by {
        assert(r[j] == new_registry[j]);
    }
    lemma_first_of(r, '/', n);
}

/// The registry of an image is the hostname before its first slash. An image without a
/// slash, and one whose first part is no hostname, is one of the default registry.
pub proof fn registries_are_read_off_images(first: Seq<char>, rest: Seq<char>)
    requires
        !first.contains('/'),
    ensures
        image_registry(first + seq!['/'] + rest) == (if first.contains('.') || first.contains(':') {
            first
        } else {
            DEFAULT_REGISTRY@
        }),
        image_registry(first) == DEFAULT_REGISTRY@,
{
    let image = first + seq!['/'] + rest;
    assert forall|j: int| 0 <= j < first.len() implies image[j] != '/' by {
        assert(first.contains(first[j]));
    }
    lemma_first_of(image, '/', first.len() as int);
    assert(image.take(first.len() as int) == first);
    lemma_first_of_facts(first, '/');
}

/// Another registry takes the place of the one that an image names, and the rest of the
/// image stays as it is. An image without a slash is one of the default registry's library.
pub proof fn rewriting_keeps_the_path(host: Seq<char>, rest: Seq<char>, new_registry: Seq<char>)
    requires
        !host.contains('/'),
        host.contains('.') || host.contains(':'),
    ensures
        rewritten_image(host + seq!['/'] + rest, new_registry) == new_registry + seq!['/'] + rest,
        !rest.contains('/') && !has_prefix(rest, DEFAULT_REGISTRY@) ==> rewritten_image(
            rest,
            new_registry,
        ) == new_registry + "/library/"@ + rest,
{
    let image = host + seq!['/'] + rest;
    registries_are_read_off_images(host, rest);
    assert(image.take(host.len() as int) == host);
    assert(image.skip(host.len() as int) == seq!['/'] + rest);
    assert(new_registry + image.skip(host.len() as int) == new_registry + seq!['/'] + rest);
    if !rest.contains('/') {
        registries_are_read_off_images(rest, rest);
    }
}

/// An image below a namespace that is no hostname is looked up under the same path in the
/// other registry.
pub proof fn rewriting_keeps_namespaces(space: Seq<char>, rest: Seq<char>, new_registry: Seq<char>)
    requires
        !space.contains('/'),
        !space.contains('.') && !space.contains(':'),
        !has_prefix(space + seq!['/'] + rest, DEFAULT_REGISTRY@),
    ensures
        rewritten_image(space + seq!['/'] + rest, new_registry) == new_registry + "/"@ + space
            + seq!['/'] + rest,
{
    let image = space + seq!['/'] + rest;
    registries_are_read_off_images(space, rest);
    assert(image[space.len() as int] == '/');
    assert(image.contains('/'));
    assert(new_registry + "/"@ + image == new_registry + "/"@ + space + seq!['/'] + rest);
}

// ---------------------------------------------------------------------------
// Artifact references
// ---------------------------------------------------------------------------

/// Default registry for smolmachines artifacts.
pub const SMOLMACHINES_REGISTRY: &'static str = "registry.smolmachines.com";

/// Error parsing an artifact reference.
#[derive(Debug, PartialEq)]
pub struct ReferenceError {
    /// The input that failed to parse.
    pub input: String,
    /// What went wrong.
    pub reason: String,
}

impl ReferenceError {
    fn new(input: &str, reason: String) -> (r: ReferenceError)
        ensures
            r.input@ == input@,
            r.reason@ == reason@,
    {
        ReferenceError { input: input.to_owned(), reason }
    }

    /// The message for the error.
    pub fn to_string(&self) -> (r: String)
        ensures
            r@ == "invalid reference '"@ + self.input@ + "': "@ + self.reason@,
    {
        String::from_str("invalid reference '").concat(self.input.as_str()).concat("': ").concat(
            self.reason.as_str(),
        )
    }
}

/// A parsed OCI-style reference for smolmachine artifacts.
///
/// Supports both tag and digest references:
/// ```text
/// smolmachines.com/python-dev:latest              # tag
/// smolmachines.com/python-dev@sha256:abc123...    # digest (immutable)
/// smolmachines.com/binsquare/custom:v1            # user namespace
/// python-dev:latest                                # shorthand (default registry)
/// python-dev                                       # bare (default registry + "latest")
/// ```
#[derive(Debug, PartialEq)]
pub struct Reference {
    /// Registry hostname (e.g., "registry.smolmachines.com").
    pub registry: String,
    /// User namespace, if present (e.g., "binsquare"). None for official.
    pub namespace: Option<String>,
    /// Machine name (e.g., "python-dev").
    pub name: String,
    /// Tag (e.g., "latest", "v1.0"). None if digest is set.
    pub tag: Option<String>,
    /// Digest (e.g., "sha256:abc123..."). None if tag is set.
    pub digest: Option<String>,
}

/// The mathematical value of a [`Reference`].
pub struct ReferenceView {
    /// See [`Reference::registry`].
    pub registry: Seq<char>,
    /// See [`Reference::namespace`].
    pub namespace: Option<Seq<char>>,
    /// See [`Reference::name`].
    pub name: Seq<char>,
    /// See [`Reference::tag`].
    pub tag: Option<Seq<char>>,
    /// See [`Reference::digest`].
    pub digest: Option<Seq<char>>,
}

impl View for Reference {
    type V = ReferenceView;

    open spec fn view(&self) -> ReferenceView {
        ReferenceView {
            registry: self.registry@,
            namespace: self.namespace.deep_view(),
            name: self.name@,
            tag: self.tag.deep_view(),
            digest: self.digest.deep_view(),
        }
    }
}

/// What is wrong with a digest, if anything: it must be `sha256:` and 64 hex characters.
pub open spec fn digest_error(digest: Seq<char>) -> Option<Seq<char>> {
    if !has_prefix(digest, "sha256:"@) {
        Some("unsupported digest algorithm in '"@ + digest + "': only sha256 is supported"@)
    } else {
        let hex = digest.skip("sha256:"@.len() as int);
        if encode_utf8(hex).len() != 64 {
            Some("digest has "@ + decimal(encode_utf8(hex).len()) + " hex chars, expected 64"@)
        } else if exists|i: int| 0 <= i < hex.len() && !is_hex_digit(#[trigger] hex[i]) {
            Some("digest contains non-hex characters"@)
        } else {
            None
        }
    }
}

/// A reference cut into path, tag and digest, or what is wrong with it.
pub open spec fn cut_reference(s: Seq<char>) -> Result<
    (Seq<char>, Option<Seq<char>>, Option<Seq<char>>),
    Seq<char>,
> {
    let at = first_of(s, '@');
    if at < s.len() {
        match digest_error(s.skip(at + 1)) {
            Some(reason) => Err(reason),
            None => Ok((s.take(at), None, Some(s.skip(at + 1)))),
        }
    } else {
        let from = last_of(s, '/') + 1;
        let colon = from + first_of(s.skip(from), ':');
        if colon < s.len() {
            if colon + 1 == s.len() {
                Err("empty tag"@)
            } else {
                Ok((s.take(colon), Some(s.skip(colon + 1)), None))
            }
        } else {
            Ok((s, None, None))
        }
    }
}

/// A path as registry, namespace and name, or what is wrong with it.
pub open spec fn cut_path(path: Seq<char>) -> Result<
    (Seq<char>, Option<Seq<char>>, Seq<char>),
    Seq<char>,
> {
    let parts = split_all(path, '/');
    if parts.len() == 1 {
        Ok((SMOLMACHINES_REGISTRY@, None, parts[0]))
    } else if parts.len() == 2 {
        if is_host(parts[0]) {
            Ok((parts[0], None, parts[1]))
        } else {
            Ok((SMOLMACHINES_REGISTRY@, Some(parts[0]), parts[1]))
        }
    } else if parts.len() == 3 {
        if is_host(parts[0]) {
            Ok((parts[0], Some(parts[1]), parts[2]))
        } else {
            Err("first component '"@ + parts[0] + "' doesn't look like a registry hostname"@)
        }
    } else {
        Err("too many path components"@)
    }
}

/// The reference that a text denotes, or what is wrong with it.
pub open spec fn parsed_reference(input: Seq<char>) -> Result<ReferenceView, Seq<char>> {
    let s = trimmed(input);
    if s.len() == 0 {
        Err("empty reference"@)
    } else {
        match cut_reference(s) {
            Err(reason) => Err(reason),
            Ok((path, tag, digest)) => match cut_path(path) {
                Err(reason) => Err(reason),
                Ok((registry, namespace, name)) => if name.len() == 0 {
                    Err("empty name"@)
                } else {
                    Ok(ReferenceView { registry, namespace, name, tag, digest })
                },
            },
        }
    }
}

/// The repository path of a reference.
pub open spec fn repository_of(r: ReferenceView) -> Seq<char> {
    match r.namespace {
        Some(ns) => ns + "/"@ + r.name,
        None => r.name,
    }
}

/// The text by which a reference is shown.
pub open spec fn shown_reference(r: ReferenceView) -> Seq<char> {
    let suffix = match (r.digest, r.tag) {
        (Some(d), _) => "@"@ + d,
        (None, Some(t)) => ":"@ + t,
        (None, None) => ":latest"@,
    };
    r.registry + "/"@ + repository_of(r) + suffix
}

/// What a registry is asked for: the digest, else the tag, else "latest".
pub open spec fn tag_or_digest(r: ReferenceView) -> Seq<char> {
    match (r.digest, r.tag) {
        (Some(d), _) => d,
        (None, Some(t)) => t,
        (None, None) => "latest"@,
    }
}

/// Validate a digest string: must be `sha256:` followed by exactly 64 hex chars.
fn validate_digest(raw_input: &str, digest: &str) -> (r: Result<(), ReferenceError>)
    ensures
        match digest_error(digest@) {
            None => r is Ok,
            Some(reason) => r matches Err(e) && e.input@ == raw_input@ && e.reason@ == reason,
        },
{
    let hex = match strip_prefix(digest, "sha256:") {
        Some(h) => h,
        None => {
            return Err(
                ReferenceError::new(
                    raw_input,
                    String::from_str("unsupported digest algorithm in '").concat(digest).concat(
                        "': only sha256 is supported",
                    ),
                ),
            );
        },
    };
    let bytes: usize = hex.as_str().as_bytes().len();
    if bytes != 64 {
        return Err(
            ReferenceError::new(
                raw_input,
                String::from_str("digest has ").concat(decimal_text(bytes as u64).as_str()).concat(
                    " hex chars, expected 64",
                ),
            ),
        );
    }
    let chars = char_vec(hex.as_str());
    for i in 0..chars.len()
        invariant
            chars@ == hex@,
            has_prefix(digest@, "sha256:"@),
            hex@ == digest@.skip("sha256:"@.len() as int),
            encode_utf8(hex@).len() == 64,
            forall|j: int| 0 <= j < i ==> is_hex_digit(#[trigger] hex@[j]),
    {
        if !hex_digit(chars[i]) {
            assert(!is_hex_digit(hex@[i as int]));
            return Err(
                ReferenceError::new(
                    raw_input,
                    String::from_str("digest contains non-hex characters"),
                ),
            );
        }
    }
    Ok(())
}

/// A text piece between two character positions.
fn piece(s: &str, from: usize, to: usize) -> (r: String)
    requires
        from <= to <= s@.len(),
    ensures
        r@ == s@.subrange(from as int, to as int),
{
    s.substring_char(from, to).to_owned()
}

impl Reference {
    /// Parse a reference string.
    ///
    /// Returns a [`ReferenceError`] if the reference is empty or malformed.
    pub fn parse(input: &str) -> (r: Result<Reference, ReferenceError>)
        ensures
            match parsed_reference(input@) {
                Ok(v) => r matches Ok(x) && x@ == v,
                Err(reason) => r matches Err(e) && e.input@ == input@ && e.reason@ == reason,
            },
    {
        let s = trim(input);
        let chars = char_vec(s);
        let n: usize = chars.len();
        if n == 0 {
            return Err(ReferenceError::new(input, String::from_str("empty reference")));
        }
        let at: usize = find_from(&chars, '@', 0);
        proof {
            assert(s@.skip(0) =~= s@);
            lemma_last_of_facts(s@, '/');
        }
        let (path, tag, digest) = if at < n {
            let digest = piece(s, at + 1, n);
            proof {
                assert(digest@ =~= s@.skip(at + 1));
            }
            match validate_digest(input, digest.as_str()) {
                Ok(()) => {},
                Err(e) => {
                    return Err(e);
                },
            }
            let path = piece(s, 0, at);
            proof {
                assert(path@ =~= s@.take(at as int));
            }
            (path, None, Some(digest))
        } else {
            let from: usize = find_last(&chars, '/');
            let colon: usize = find_from(&chars, ':', from);
            if colon < n {
                if colon + 1 == n {
                    return Err(ReferenceError::new(input, String::from_str("empty tag")));
                }
                let path = piece(s, 0, colon);
                let tag = piece(s, colon + 1, n);
                proof {
                    assert(path@ =~= s@.take(colon as int));
                    assert(tag@ =~= s@.skip(colon + 1));
                }
                (path, Some(tag), None)
            } else {
                (s.to_owned(), None, None)
            }
        };
        let parts = split(path.as_str(), '/');
        let ghost pv = parts.deep_view();
        proof {
            assert forall|i: int| 0 <= i < pv.len() implies #[trigger] pv[i] == parts@[i]@ by {}
        }
        let (registry, namespace, name) = if parts.len() == 1 {
            (SMOLMACHINES_REGISTRY.to_owned(), None, parts[0].clone())
        } else if parts.len() == 2 {
            if looks_like_host(parts[0].as_str()) {
                (parts[0].clone(), None, parts[1].clone())
            } else {
                (SMOLMACHINES_REGISTRY.to_owned(), Some(parts[0].clone()), parts[1].clone())
            }
        } else if parts.len() == 3 {
            if !looks_like_host(parts[0].as_str()) {
                return Err(
                    ReferenceError::new(
                        input,
                        String::from_str("first component '").concat(parts[0].as_str()).concat(
                            "' doesn't look like a registry hostname",
                        ),
                    ),
                );
            }
            (parts[0].clone(), Some(parts[1].clone()), parts[2].clone())
        } else {
            return Err(ReferenceError::new(input, String::from_str("too many path components")));
        };
        if name.as_str().is_empty() {
            return Err(ReferenceError::new(input, String::from_str("empty name")));
        }
        Ok(Reference { registry, namespace, name, tag, digest })
    }

    /// The full repository path (namespace/name or just name).
    pub fn repository(&self) -> (r: String)
        ensures
            r@ == repository_of(self@),
    {
        match &self.namespace {
            Some(ns) => ns.clone().concat("/").concat(self.name.as_str()),
            None => self.name.clone(),
        }
    }

    /// The text by which the reference is shown.
    pub fn to_string(&self) -> (r: String)
        ensures
            r@ == shown_reference(self@),
    {
        let suffix = match (&self.digest, &self.tag) {
            (Some(d), _) => String::from_str("@").concat(d.as_str()),
            (None, Some(t)) => String::from_str(":").concat(t.as_str()),
            (None, None) => String::from_str(":latest"),
        };
        self.registry.clone().concat("/").concat(self.repository().as_str()).concat(
            suffix.as_str(),
        )
    }

    /// What a registry is asked for: the digest, else the tag, else "latest".
    pub fn tag_or_digest(&self) -> (r: &str)
        ensures
            r@ == tag_or_digest(self@),
    {
        match (&self.digest, &self.tag) {
            (Some(d), _) => d.as_str(),
            (None, Some(t)) => t.as_str(),
            (None, None) => "latest",
        }
    }

    /// The tag, else "latest".
    pub fn tag_or_latest(&self) -> (r: &str)
        ensures
            r@ == (match self@.tag {
                Some(t) => t,
                None => "latest"@,
            }),
    {
        match &self.tag {
            Some(t) => t.as_str(),
            None => "latest",
        }
    }
}

/// A reference whose parts are what parsing can give: a hostname, a name, and
/// either a valid digest or a tag, if any.
pub open spec fn is_clean(r: ReferenceView) -> bool {
    &&& is_host(r.registry) && !r.registry.contains('/') && !r.registry.contains('@')
        && !is_white_space(r.registry[0])
    &&& r.namespace matches Some(ns) ==> !ns.contains('/') && !ns.contains('@')
    &&& r.name.len() > 0 && !r.name.contains('/') && !r.name.contains('@')
    &&& match r.digest {
        Some(d) => r.tag is None && digest_error(d) is None,
        None => !r.name.contains(':') && (r.tag matches Some(t) ==> t.len() > 0 && !t.contains('/')
            && !t.contains('@') && !is_white_space(t.last())),
    }
}

/// The same reference with the tag that it is shown with.
pub open spec fn with_latest(r: ReferenceView) -> ReferenceView {
    if r.tag is None && r.digest is None {
        ReferenceView { tag: Some("latest"@), ..r }
    } else {
        r
    }
}

proof fn lemma_digest_end(d: Seq<char>)
    requires
        digest_error(d) is None,
    ensures
        d.len() > 0,
        !is_white_space(d.last()),
{
    reveal_strlit("sha256:");
    let hex = d.skip("sha256:"@.len() as int);
    if hex.len() == 0 {
        assert(hex =~= Seq::empty());
        assert(encode_utf8(hex).len() == 0);
    }
    assert(hex.last() == d.last());
    assert(is_hex_digit(hex[hex.len() - 1]));
}

/// Every reference that parsing gives is clean: it names a hostname and a
/// non-empty name, and has a tag or a valid digest, never both.
pub proof fn parsed_references_are_clean(input: Seq<char>, r: ReferenceView)
    requires
        parsed_reference(input) == Ok::<ReferenceView, Seq<char>>(r),
    ensures
        is_clean(r),
{
    let s = trimmed(input);
    lemma_trimmed_ends(input);
    lemma_first_of_facts(s, '@');
    lemma_last_of_facts(s, '/');
    let (path, tag, digest) = cut_reference(s)->Ok_0;
    let at = first_of(s, '@');
    let from = last_of(s, '/') + 1;
    lemma_first_of_facts(s.skip(from), ':');
    let colon = from + first_of(s.skip(from), ':');
    lemma_split_pieces(path, '/');
    lemma_first_of_facts(path, '/');
    let parts = split_all(path, '/');
    assert(!path.contains('@')) by {
        if path.contains('@') {
            let j = choose|j: int| 0 <= j < path.len() && path[j] == '@';
            assert(s[j] == '@');
            assert(at <= j);
        }
    }
    assert forall|i: int| 0 <= i < parts.len() implies !(#[trigger] parts[i]).contains('@') by {
        if parts[i].contains('@') {
            assert(path.contains('@'));
        }
    }
    reveal_strlit("registry.smolmachines.com");
    let home = SMOLMACHINES_REGISTRY@;
    assert(home[8] == '.');
    assert(home.contains('.'));
    if parts.len() >= 2 && is_host(parts[0]) {
        assert(parts[0].len() > 0);
        assert(parts[0][0] == path[0]);
        assert(path[0] == s[0]);
    }
    if digest is None {
        assert(at == s.len());
        assert(parts.last() == path.skip(last_of(path, '/') + 1));
        if tag is Some {
            assert(last_of(path, '/') == last_of(s, '/')) by {
                lemma_last_of(path, '/', last_of(s, '/'));
            }
            let t = tag->0;
            assert(t.last() == s.last());
            assert forall|j: int| 0 <= j < t.len() implies t[j] != '/' && t[j] != '@' by {
                assert(t[j] == s[colon + 1 + j]);
            }
        }
        let name = parts.last();
        assert forall|j: int| 0 <= j < name.len() implies name[j] != ':' by {
            assert(name[j] == s.skip(from)[j]);
        }
    }
}

/// What is shown of a clean reference parses to that reference; where it has
/// neither tag nor digest, the tag "latest" is added.
pub proof fn clean_reference_round_trip(r: ReferenceView)
    requires
        is_clean(r),
    ensures
        parsed_reference(shown_reference(r)) == Ok::<ReferenceView, Seq<char>>(with_latest(r)),
        shown_reference(with_latest(r)) == shown_reference(r),
{
    reveal_strlit("/");
    reveal_strlit("@");
    reveal_strlit(":");
    reveal_strlit(":latest");
    reveal_strlit("latest");
    assert("/"@ =~= seq!['/']);
    assert("@"@ =~= seq!['@']);
    assert(":latest"@ =~= ":"@ + "latest"@);
    let repo = repository_of(r);
    let path = r.registry + "/"@ + repo;
    let d = shown_reference(r);
    let tag = match r.tag {
        Some(t) => t,
        None => "latest"@,
    };
    let suffix = match r.digest {
        Some(x) => "@"@ + x,
        None => ":"@ + tag,
    };
    assert(d =~= path + suffix);
    // The path falls into its parts again.
    lemma_split_cons(r.registry, '/', repo);
    match r.namespace {
        Some(ns) => {
            lemma_split_cons(ns, '/', r.name);
            lemma_split_single(r.name, '/');
            assert(split_all(path, '/') =~= seq![r.registry, ns, r.name]);
        },
        None => {
            lemma_split_single(r.name, '/');
            assert(split_all(path, '/') =~= seq![r.registry, r.name]);
        },
    }
    assert(cut_path(path) == Ok::<(Seq<char>, Option<Seq<char>>, Seq<char>), Seq<char>>(
        (r.registry, r.namespace, r.name),
    ));
    // No part of the path holds an '@'.
    let p = path.len() as int;
    let start = p - r.name.len();
    assert forall|j: int| 0 <= j < p implies d[j] != '@' by {
        assert(d[j] == path[j]);
        if j < r.registry.len() {
            assert(path[j] == r.registry[j]);
        } else if j >= start {
            assert(path[j] == r.name[j - start]);
        } else if j > r.registry.len() {
            let ns = r.namespace->0;
            if j < start - 1 {
                assert(path[j] == ns[j - r.registry.len() - 1]);
            }
        }
    }
    assert(d[0] == r.registry[0]);
    match r.digest {
        Some(x) => {
            lemma_digest_end(x);
            assert(d.last() == x.last());
            lemma_trimmed_id(d);
            lemma_first_of(d, '@', p);
            assert(d.take(p) =~= path);
            assert(d.skip(p + 1) =~= x);
        },
        None => {
            assert("latest"@.last() == 't');
            assert(d.last() == tag.last());
            assert(!is_white_space(tag.last()));
            lemma_trimmed_id(d);
            assert forall|j: int| 0 <= j < d.len() implies d[j] != '@' by {
                if j > p {
                    assert(d[j] == tag[j - p - 1]);
                }
            }
            lemma_first_of(d, '@', d.len() as int);
            assert(path[start - 1] == '/');
            assert forall|j: int| start - 1 < j < d.len() implies d[j] != '/' by {
                if j < p {
                    assert(d[j] == r.name[j - start]);
                } else if j > p {
                    assert(d[j] == tag[j - p - 1]);
                }
            }
            lemma_last_of(d, '/', start - 1);
            let after = d.skip(start);
            assert forall|j: int| 0 <= j < r.name.len() implies after[j] != ':' by {
                assert(after[j] == r.name[j]);
            }
            lemma_first_of(after, ':', r.name.len() as int);
            assert(d.take(p) =~= path);
            assert(d.skip(p + 1) =~= tag);
        },
    }
}

/// Showing a parsed reference and parsing it again changes nothing but that a
/// missing tag becomes "latest".
pub proof fn reference_round_trip(input: Seq<char>, r: ReferenceView)
    requires
        parsed_reference(input) == Ok::<ReferenceView, Seq<char>>(r),
    ensures
        parsed_reference(shown_reference(r)) == Ok::<ReferenceView, Seq<char>>(with_latest(r)),
{
    parsed_references_are_clean(input, r);
    clean_reference_round_trip(r);
}

/// A digest is valid exactly where it is `sha256:` and 64 hexadecimal digits.
pub proof fn digests_are_sixty_four_hex_digits(hex: Seq<char>)
    ensures
        hex.len() == 64 && (forall|i: int| 0 <= i < hex.len() ==> is_hex_digit(#[trigger] hex[i]))
            ==> digest_error("sha256:"@ + hex) is None,
        digest_error("sha256:"@ + hex) is None ==> encode_utf8(hex).len() == 64 && (forall|i: int|
            0 <= i < hex.len() ==> is_hex_digit(#[trigger] hex[i])),
{
    let d = "sha256:"@ + hex;
    let n = "sha256:"@.len() as int;
    assert(d.take(n) == "sha256:"@);
    assert(d.skip(n) == hex);
    if forall|i: int| 0 <= i < hex.len() ==> is_hex_digit(#[trigger] hex[i]) {
        assert(is_ascii_chars(hex)) by {
            assert forall|i: int| 0 <= i < hex.len() implies '\0' <= #[trigger] hex[i] <= '\u{7f}' by {
                assert(is_hex_digit(hex[i]));
            }
        }
        is_ascii_chars_encode_utf8(hex);
    }
}

/// A reference without a registry is one of the default registry, with the name and the
/// namespace that it gives, and the tag that it gives, if any.
pub proof fn short_references_use_the_default_registry(
    space: Seq<char>,
    name: Seq<char>,
    tag: Seq<char>,
)
    requires
        name.len() > 0 && !is_white_space(name[0]) && !is_white_space(name.last()),
        !name.contains('/') && !name.contains('@') && !name.contains(':'),
        space.len() > 0 && !is_white_space(space[0]),
        !space.contains('/') && !space.contains('@') && !space.contains(':') && !space.contains('.'),
        tag.len() > 0 && !is_white_space(tag.last()),
        !tag.contains('/') && !tag.contains('@'),
    ensures
        parsed_reference(name) == Ok::<ReferenceView, Seq<char>>(
            ReferenceView {
                registry: SMOLMACHINES_REGISTRY@,
                namespace: None,
                name,
                tag: None,
                digest: None,
            },
        ),
        parsed_reference(name + seq![':'] + tag) == Ok::<ReferenceView, Seq<char>>(
            ReferenceView {
                registry: SMOLMACHINES_REGISTRY@,
                namespace: None,
                name,
                tag: Some(tag),
                digest: None,
            },
        ),
        parsed_reference(space + seq!['/'] + name) == Ok::<ReferenceView, Seq<char>>(
            ReferenceView {
                registry: SMOLMACHINES_REGISTRY@,
                namespace: Some(space),
                name,
                tag: None,
                digest: None,
            },
        ),
{
    lemma_short_reference(name, name, None);
    lemma_split_single(name, '/');
    let tagged = name + seq![':'] + tag;
    assert(tagged.last() == tag.last());
    lemma_short_reference(tagged, name, Some(tag));
    let spaced = space + seq!['/'] + name;
    assert(spaced.last() == name.last());
    lemma_split_cons(space, '/', name);
    lemma_trimmed_id(spaced);
    assert forall|j: int| 0 <= j < spaced.len() implies spaced[j] != '@' by {
        if j < space.len() {
            assert(space.contains(space[j]));
        } else if j > space.len() {
            assert(name.contains(name[j - space.len() - 1]));
        }
    }
    lemma_first_of(spaced, '@', spaced.len() as int);
    assert forall|j: int| space.len() < j < spaced.len() implies spaced[j] != '/' by {
        assert(name.contains(name[j - space.len() - 1]));
    }
    lemma_last_of(spaced, '/', space.len() as int);
    assert(spaced.skip((space.len() + 1) as int) == name);
    lemma_first_of_facts(name, ':');
    assert(split_all(spaced, '/') == seq![space, name]);
}

proof fn lemma_short_reference(s: Seq<char>, name: Seq<char>, tag: Option<Seq<char>>)
    requires
        name.len() > 0 && !is_white_space(name[0]) && !is_white_space(s.last()),
        !name.contains('/') && !name.contains('@') && !name.contains(':'),
        match tag {
            None => s == name,
            Some(t) => s == name + seq![':'] + t && t.len() > 0 && !t.contains('/') && !t.contains(
                '@',
            ),
        },
    ensures
        parsed_reference(s) == Ok::<ReferenceView, Seq<char>>(
            ReferenceView {
                registry: SMOLMACHINES_REGISTRY@,
                namespace: None,
                name,
                tag,
                digest: None,
            },
        ),
{
    lemma_trimmed_id(s);
    assert forall|j: int| 0 <= j < s.len() implies s[j] != '@' && s[j] != '/' by {
        if j < name.len() {
            assert(name.contains(name[j]));
        } else if j > name.len() {
            assert(tag->0.contains(tag->0[j - name.len() - 1]));
        }
    }
    lemma_first_of(s, '@', s.len() as int);
    lemma_last_of(s, '/', -1);
    assert(s.skip(0) == s);
    assert forall|j: int| 0 <= j < name.len() implies s[j] != ':' by {
        assert(name.contains(name[j]));
    }
    lemma_first_of(s, ':', name.len() as int);
    assert(s.take(name.len() as int) == name);
    if let Some(t) = tag {
        assert(s.skip((name.len() + 1) as int) == t);
    }
    lemma_split_single(name, '/');
}

/// A registry is asked for the digest of a reference where it has one, else for its tag,
/// and for "latest" only where it has neither; its repository is its name below its
/// namespace.
pub proof fn registries_are_asked_for_what_is_referenced(r: ReferenceView)
    ensures
        r.digest matches Some(d) ==> tag_or_digest(r) == d,
        r.digest is None ==> (r.tag matches Some(t) ==> tag_or_digest(r) == t),
        r.digest is None && r.tag is None ==> tag_or_digest(r) == "latest"@,
        r.namespace is None ==> repository_of(r) == r.name,
        r.namespace matches Some(ns) ==> repository_of(r) == ns + "/"@ + r.name,
{
}

} // verus!
