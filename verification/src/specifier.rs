//! What one module takes from another.
use crate::syntax::{Id, Str};
use vstd::prelude::*;

verus! {

/// The number of a module.
#[derive(Clone, Copy, Debug, PartialEq, Eq, Structural)]
pub struct ModuleId(pub u32);

/// One name that an import binds.
#[derive(Clone, Copy, Debug, PartialEq, Eq, Structural)]
pub enum Specifier {
    /// `import { alias as local }`, or `import { local }` where there is no
    /// alias.
    Specific {
        local: Id,
        alias: Option<Id>,
    },
    /// `import * as local`
    Namespace {
        local: Id,
    },
}

impl Specifier {
    /// The name that the importing module uses.
    pub open spec fn spec_local(self) -> Id {
        match self {
            Specifier::Specific { local, .. } => local,
            Specifier::Namespace { local } => local,
        }
    }

    /// The name that the importing module uses.
    pub fn local(&self) -> (r: Id)
        ensures
            r == self.spec_local(),
    {
        match self {
            Specifier::Specific { local, .. } => *local,
            Specifier::Namespace { local } => *local,
        }
    }

    /// The name under which the other module knows what is taken.
    pub open spec fn spec_foreign(self) -> Id {
        match self {
            Specifier::Specific { local, alias: Some(alias) } => alias,
            Specifier::Specific { local, alias: None } => local,
            Specifier::Namespace { local } => local,
        }
    }

    /// The name under which the other module knows what is taken.
    pub fn foreign(&self) -> (r: Id)
        ensures
            r == self.spec_foreign(),
    {
        match self {
            Specifier::Specific { local: _, alias: Some(alias) } => *alias,
            Specifier::Specific { local, alias: None } => *local,
            Specifier::Namespace { local } => *local,
        }
    }

    /// Whether the specifier is `import * as local`.
    pub fn is_namespace(&self) -> (r: bool)
        ensures
            r == (*self is Namespace),
    {
        match self {
            Specifier::Specific { .. } => false,
            Specifier::Namespace { .. } => true,
        }
    }
}

/// The importer's name is the one that the specifier binds. The other module's is
/// the alias where there is one.
pub proof fn law_names_of_specifier(specifier: Specifier)
    ensures
        specifier matches Specifier::Namespace { local } ==> specifier.spec_local() == local
            && specifier.spec_foreign() == local,
        specifier matches Specifier::Specific { local, alias } ==> specifier.spec_local() == local
            && (alias is None ==> specifier.spec_foreign() == local) && (alias matches Some(a)
            ==> specifier.spec_foreign() == a),
{
}

/// The module that an import names.
#[derive(Clone, Copy, Debug, PartialEq, Eq, Structural)]
pub struct Source {
    pub module_id: ModuleId,
    /// The path as the import writes it.
    pub src: Str,
}

} // verus!
