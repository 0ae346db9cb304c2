//! Isolation scopes for cached artifacts.

use vstd::prelude::*;

verus! {

/// The isolation boundary a cached artifact belongs to.
///
/// The scope's textual rendering seeds every cache key, so it must stay
/// stable forever: the same scope must render to the same text in every
/// build, or all previously cached artifacts become unreachable.
#[derive(Debug, Clone)]
pub enum Scope {
    /// Artifacts shared across all tenants.
    Global,
    /// Artifacts isolated to one tenant, named by a stable identifier
    /// (for example an organization or project id).
    Scoped(String),
}

impl Scope {
    /// The stable text that identifies this scope inside provenance text:
    /// `global` for the global scope, the identifier itself otherwise.
    pub open spec fn text(self) -> Seq<char> {
        match self {
            Scope::Global => "global"@,
            Scope::Scoped(id) => id@,
        }
    }

    /// Appends the scope's stable text to `s`.
    pub fn push_text(&self, s: &mut String)
        ensures
            final(s)@ == old(s)@ + self.text(),
    {
        match self {
            Scope::Global => s.append("global"),
            Scope::Scoped(id) => s.append(id.as_str()),
        }
    }
}

} // verus!
