//! Choosing the registry for a raw specifier, the address to ask it at, and
//! the line written once it has answered.
//!
//! A raw specifier is `npm:<path>` for the flat namespace, `jsr:<path>` for
//! the scoped one. A specifier without either tag is taken as a path of the
//! flat namespace: an untagged name resolves as if it were tagged `npm:`.
use vstd::prelude::*;

use crate::specifier::{
    extract_jsr_parts, extract_npm_parts, flat_parts, lemma_parts_stable, scoped_parts,
};

verus! {

/// The registry that a package path is looked up in.
#[derive(Clone, Copy, Debug, PartialEq, Eq, Structural)]
pub enum Registry {
    /// The flat namespace: names may or may not be scoped.
    Npm,
    /// The scoped namespace: every name is `@scope/pkg`.
    Jsr,
}

/// The tag that names a registry in a specifier.
pub open spec fn registry_tag(registry: Registry) -> Seq<char> {
    match registry {
        Registry::Npm => seq!['n', 'p', 'm'],
        Registry::Jsr => seq!['j', 's', 'r'],
    }
}

/// How a path is split under the convention of a registry.
pub open spec fn package_parts(registry: Registry, path: Seq<char>) -> (Seq<char>, Seq<char>) {
    match registry {
        Registry::Npm => flat_parts(path),
        Registry::Jsr => scoped_parts(path),
    }
}

/// The address at which a registry reports the versions of a base package.
pub open spec fn registry_url(registry: Registry, base: Seq<char>) -> Seq<char> {
    match registry {
        Registry::Npm => "https://registry.npmjs.org/"@ + base,
        Registry::Jsr => "https://jsr.io/"@ + base + "/meta.json"@,
    }
}

/// The canonical specifier `<tag>:<base>@<version><subpath>`.
pub open spec fn specifier_text(
    registry: Registry,
    base: Seq<char>,
    version: Seq<char>,
    subpath: Seq<char>,
) -> Seq<char> {
    registry_tag(registry) + seq![':'] + base + seq!['@'] + version + subpath
}

/// The message that reports a failed lookup of `package` in `registry`.
pub open spec fn failure_text(registry: Registry, package: Seq<char>, cause: Seq<char>) -> Seq<
    char,
> {
    "Error: Failed to get "@ + registry_tag(registry) + " version for "@ + package + ": "@ + cause
}

/// `s` begins with the tag of `registry` followed by `:`.
pub open spec fn has_tag(s: Seq<char>, registry: Registry) -> bool {
    s.len() >= 4 && s.take(4) == registry_tag(registry) + seq![':']
}

/// The registry that a raw specifier is resolved against.
pub open spec fn input_registry(s: Seq<char>) -> Registry {
    if has_tag(s, Registry::Jsr) {
        Registry::Jsr
    } else {
        Registry::Npm
    }
}

/// The package path of a raw specifier: what follows its tag, or the whole
/// specifier when it has none.
pub open spec fn input_path(s: Seq<char>) -> Seq<char> {
    if has_tag(s, Registry::Npm) || has_tag(s, Registry::Jsr) {
        s.skip(4)
    } else {
        s
    }
}

impl Registry {
    /// The tag of this registry, `npm` or `jsr`.
    pub fn tag(&self) -> (r: &'static str)
        ensures
            r@ == registry_tag(*self),
    {
        match self {
            Registry::Npm => {
                let t = "npm";
                proof {
                    reveal_strlit("npm");
                }
                assert(t@ =~= seq!['n', 'p', 'm']);
                t
            },
            Registry::Jsr => {
                let t = "jsr";
                proof {
                    reveal_strlit("jsr");
                }
                assert(t@ =~= seq!['j', 's', 'r']);
                t
            },
        }
    }
}

/// Writing the canonical specifier of a split path loses nothing: the text
/// after the tag and `:`, with the `@` and the version taken out, is the
/// path again, and splitting it gives back the same base and subpath.
/// Splitting the base alone gives the base and an empty subpath.
pub proof fn lemma_specifier_reparse(registry: Registry, path: Seq<char>, version: Seq<char>)
    ensures
        ({
            let (base, subpath) = package_parts(registry, path);
            let text = specifier_text(registry, base, version, subpath);
            let back = text.subrange(4, 4 + base.len() as int) + text.skip(
                5 + base.len() + version.len() as int,
            );
            &&& back == path
            &&& package_parts(registry, back) == (base, subpath)
            &&& package_parts(registry, base) == (base, Seq::<char>::empty())
        }),
{
    lemma_parts_stable(path);
    let (base, subpath) = package_parts(registry, path);
    let text = specifier_text(registry, base, version, subpath);
    assert(text.subrange(4, 4 + base.len() as int) =~= base);
    assert(text.skip(5 + base.len() + version.len() as int) =~= subpath);
}

/// What a raw specifier asks for: the registry, the package path, and the
/// split of that path into base package and subpath.
pub struct Request<'a> {
    pub registry: Registry,
    pub package: &'a str,
    pub base: &'a str,
    pub subpath: &'a str,
}

impl<'a> Request<'a> {
    /// The request is the one that the raw specifier `s` describes.
    pub open spec fn describes(&self, s: Seq<char>) -> bool {
        &&& self.registry == input_registry(s)
        &&& self.package@ == input_path(s)
        &&& (self.base@, self.subpath@) == package_parts(self.registry, self.package@)
    }
}

impl<'a> Request<'a> {
    /// The message that reports why the lookup of this request failed.
    pub fn failure_message(&self, cause: &str) -> (r: String)
        ensures
            r@ == failure_text(self.registry, self.package@, cause@),
    {
        let mut out = String::from_str("Error: Failed to get ");
        out.append(self.registry.tag());
        out.append(" version for ");
        out.append(self.package);
        out.append(": ");
        out.append(cause);
        out
    }

    /// What is reported once the registry has been asked: the canonical
    /// specifier when it named a latest version, the failure message when
    /// the lookup failed.
    pub fn outcome(&self, fetched: Result<&str, &str>) -> (r: Result<String, String>)
        ensures
            match fetched {
                Ok(version) => r matches Ok(line) && line@ == specifier_text(
                    self.registry,
                    self.base@,
                    version@,
                    self.subpath@,
                ),
                Err(cause) => r matches Err(msg) && msg@ == failure_text(
                    self.registry,
                    self.package@,
                    cause@,
                ),
            },
    {
        match fetched {
            Ok(version) => Ok(compose_specifier(self.registry, self.base, version, self.subpath)),
            Err(cause) => Err(self.failure_message(cause)),
        }
    }
}

/// Tells whether `s` begins with the tag of `registry` and `:`.
fn starts_with_tag(s: &str, registry: Registry) -> (r: bool)
    ensures
        r == has_tag(s@, registry),
{
    let tag = registry.tag();
    let len = s.unicode_len();
    if len < 4 {
        return false;
    }
    let mut i: usize = 0;
    while i < 3
        invariant
            len == s@.len() >= 4,
            tag@ == registry_tag(registry),
            i <= 3,
            forall|j: int| 0 <= j < i ==> s@[j] == tag@[j],
        decreases 3 - i,
    {
        if s.get_char(i) != tag.get_char(i) {
            assert(s@.take(4)[i as int] != (registry_tag(registry) + seq![':'])[i as int]);
            return false;
        }
        i = i + 1;
    }
    let r = s.get_char(3) == ':';
    assert(r ==> s@.take(4) =~= registry_tag(registry) + seq![':']);
    assert(!r ==> s@.take(4)[3] != (registry_tag(registry) + seq![':'])[3]);
    r
}

/// Reads a raw specifier: takes off its `npm:` or `jsr:` tag, if any, and
/// splits the package path by the convention of the registry it names. A
/// specifier without a tag is a path of the flat namespace.
pub fn parse_input<'a>(input: &'a str) -> (r: Request<'a>)
    ensures
        r.describes(input@),
{
    let len = input.unicode_len();
    if starts_with_tag(input, Registry::Jsr) {
        let package = input.substring_char(4, len);
        let (base, subpath) = extract_jsr_parts(package);
        Request { registry: Registry::Jsr, package, base, subpath }
    } else {
        let package = if starts_with_tag(input, Registry::Npm) {
            input.substring_char(4, len)
        } else {
            input
        };
        let (base, subpath) = extract_npm_parts(package);
        Request { registry: Registry::Npm, package, base, subpath }
    }
}

/// The address at which `registry` reports the latest version of `base`.
pub fn registry_query_url(registry: Registry, base: &str) -> (r: String)
    ensures
        r@ == registry_url(registry, base@),
{
    match registry {
        Registry::Npm => {
            let mut u = String::from_str("https://registry.npmjs.org/");
            u.append(base);
            u
        },
        Registry::Jsr => {
            let mut u = String::from_str("https://jsr.io/");
            u.append(base);
            u.append("/meta.json");
            u
        },
    }
}

/// Writes the canonical specifier `<tag>:<base>@<version><subpath>`.
pub fn compose_specifier(registry: Registry, base: &str, version: &str, subpath: &str) -> (r:
    String)
    ensures
        r@ == specifier_text(registry, base@, version@, subpath@),
{
    let mut out = String::from_str(registry.tag());
    let colon = ":";
    let at = "@";
    proof {
        reveal_strlit(":");
        reveal_strlit("@");
    }
    assert(colon@ =~= seq![':']);
    assert(at@ =~= seq!['@']);
    out.append(colon);
    out.append(base);
    out.append(at);
    out.append(version);
    out.append(subpath);
    out
}

} // verus!
