use vstd::prelude::*;
use vstd::string::*;

verus! {

/// Why a registry fetch failed.  A missing package is not an error: the
/// lookup functions report it as an absent value instead.
#[derive(Debug, PartialEq, Eq)]
pub enum RegistryErrorKind {
    /// The policy forbids network access and nothing local could answer.
    NotCached,
    /// The transport failed or the registry answered with an
    /// unexpected status; the payload describes the failure.
    Transport(String),
    /// The registry answered with a body that could not be decoded;
    /// fatal for that fetch, since the registry is the authoritative
    /// source.
    Deserialization(String),
}

/// A failed registry fetch, carrying enough context to name the
/// package and the URL that was requested.
#[derive(Debug, PartialEq, Eq)]
pub struct RegistryError {
    pub name: String,
    pub url: String,
    pub kind: RegistryErrorKind,
}

impl RegistryError {
    /// The description of the underlying failure, without the
    /// request context.
    pub open spec fn spec_cause(&self) -> Seq<char> {
        match self.kind {
            RegistryErrorKind::NotCached => "An npm specifier not found in cache: \""@
                + self.name@ + "\", --cached-only is specified."@,
            RegistryErrorKind::Transport(detail) => detail@,
            RegistryErrorKind::Deserialization(detail) => detail@,
        }
    }

    /// The full rendering: request context first, then the cause.
    pub open spec fn spec_message(&self) -> Seq<char> {
        "Error getting response at "@ + self.url@ + " for package \""@ + self.name@ + "\": "@
            + self.spec_cause()
    }

    /// A policy refusal: the cache-only setting is active and `name`
    /// has no usable local data.
    pub fn not_cached(name: String, url: String) -> (r: Self)
        ensures
            r.name == name,
            r.url == url,
            r.kind is NotCached,
    {
        RegistryError { name, url, kind: RegistryErrorKind::NotCached }
    }

    /// A transport-level failure described by `detail`.
    pub fn transport(name: String, url: String, detail: String) -> (r: Self)
        ensures
            r.name == name,
            r.url == url,
            r.kind matches RegistryErrorKind::Transport(d) && d == detail,
    {
        RegistryError { name, url, kind: RegistryErrorKind::Transport(detail) }
    }

    /// A fetched body that could not be decoded, described by `detail`.
    pub fn deserialization(name: String, url: String, detail: String) -> (r: Self)
        ensures
            r.name == name,
            r.url == url,
            r.kind matches RegistryErrorKind::Deserialization(d) && d == detail,
    {
        RegistryError { name, url, kind: RegistryErrorKind::Deserialization(detail) }
    }

    /// Renders the error the way it is reported to a resolver: the
    /// request context, then the cause.
    pub fn message(&self) -> (r: String)
        ensures
            r@ == self.spec_message(),
    {
        let mut m: String = "Error getting response at ".to_owned();
        m.append(self.url.as_str());
        m.append(" for package \"");
        m.append(self.name.as_str());
        m.append("\": ");
        match &self.kind {
            RegistryErrorKind::NotCached => {
                m.append("An npm specifier not found in cache: \"");
                m.append(self.name.as_str());
                m.append("\", --cached-only is specified.");
            },
            RegistryErrorKind::Transport(detail) => {
                m.append(detail.as_str());
            },
            RegistryErrorKind::Deserialization(detail) => {
                m.append(detail.as_str());
            },
        }
        proof {
            assert(m@ =~= self.spec_message());
        }
        m
    }
}

} // verus!
