//! Rule registry: the catalog of available analysis rules and their
//! metadata. It is populated once by an explicit startup routine, rejects a
//! second rule under an already-taken name, and is read-only thereafter;
//! instantiation picks, in registration order, the rules whose names were
//! enabled by configuration.

use vstd::prelude::*;

use crate::types::Severity;

verus! {

/// How a rule inspects a file.
#[derive(Clone, Copy, Debug, PartialEq, Eq, Structural)]
pub enum RuleType {
    /// The rule walks the parsed syntax tree.
    Ast,
}

/// Broad grouping of a rule, for configuration and presentation.
#[derive(Clone, Copy, Debug, PartialEq, Eq, Structural)]
pub enum RuleCategory {
    TypeSafety,
}

/// The concrete analysis units the engine knows how to run.
#[derive(Clone, Copy, Debug, PartialEq, Eq, Structural)]
pub enum RuleKind {
    NoImplicitAny,
}

/// Descriptive information about one rule.
pub struct RuleMetadata {
    pub name: String,
    pub display_name: String,
    pub description: String,
    pub rule_type: RuleType,
    pub default_severity: Severity,
    pub default_enabled: bool,
    pub category: RuleCategory,
}

/// Mathematical content of a [`RuleMetadata`].
pub ghost struct RuleMetadataV {
    pub name: Seq<char>,
    pub display_name: Seq<char>,
    pub description: Seq<char>,
    pub rule_type: RuleType,
    pub default_severity: Severity,
    pub default_enabled: bool,
    pub category: RuleCategory,
}

impl View for RuleMetadata {
    type V = RuleMetadataV;

    open spec fn view(&self) -> RuleMetadataV {
        RuleMetadataV {
            name: self.name@,
            display_name: self.display_name@,
            description: self.description@,
            rule_type: self.rule_type,
            default_severity: self.default_severity,
            default_enabled: self.default_enabled,
            category: self.category,
        }
    }
}

impl DeepView for RuleMetadata {
    type V = RuleMetadataV;

    open spec fn deep_view(&self) -> RuleMetadataV {
        self.view()
    }
}

impl Clone for RuleMetadata {
    fn clone(&self) -> (r: Self)
        ensures
            r@ == self@,
    {
        RuleMetadata {
            name: self.name.clone(),
            display_name: self.display_name.clone(),
            description: self.description.clone(),
            rule_type: self.rule_type,
            default_severity: self.default_severity,
            default_enabled: self.default_enabled,
            category: self.category,
        }
    }
}

/// One registered rule: the unit to run and its metadata.
pub struct RuleEntry {
    pub kind: RuleKind,
    pub metadata: RuleMetadata,
}

/// Mathematical content of a [`RuleEntry`].
pub ghost struct RuleEntryV {
    pub kind: RuleKind,
    pub metadata: RuleMetadataV,
}

impl View for RuleEntry {
    type V = RuleEntryV;

    open spec fn view(&self) -> RuleEntryV {
        RuleEntryV { kind: self.kind, metadata: self.metadata@ }
    }
}

impl DeepView for RuleEntry {
    type V = RuleEntryV;

    open spec fn deep_view(&self) -> RuleEntryV {
        self.view()
    }
}

/// Why a registration was refused.
#[derive(Clone, Copy, Debug, PartialEq, Eq, Structural)]
pub enum RegistryError {
    /// A rule under the same name is already registered.
    DuplicateName,
}

/// No two registered rules share a name.
pub open spec fn unique_names(entries: Seq<RuleEntryV>) -> bool {
    forall|i: int, j: int|
        0 <= i < j < entries.len() ==> entries[i].metadata.name != entries[j].metadata.name
}

/// The rules to run for a configuration that enables `names`: the
/// registered rules whose name is among `names`, in registration order.
pub open spec fn instantiate_spec(entries: Seq<RuleEntryV>, names: Seq<Seq<char>>) -> Seq<RuleKind>
    decreases entries.len(),
{
    if entries.len() == 0 {
        Seq::empty()
    } else {
        instantiate_spec(entries.drop_last(), names) + if names.contains(
            entries.last().metadata.name,
        ) {
            seq![entries.last().kind]
        } else {
            Seq::empty()
        }
    }
}

/// Process-wide catalog of available rules.
pub struct RuleRegistry {
    entries: Vec<RuleEntry>,
}

impl View for RuleRegistry {
    type V = Seq<RuleEntryV>;

    closed spec fn view(&self) -> Seq<RuleEntryV> {
        self.entries.deep_view()
    }
}

impl RuleRegistry {
    /// Creates an empty registry.
    pub fn new() -> (r: RuleRegistry)
        ensures
            r@ =~= Seq::<RuleEntryV>::empty(),
    {
        RuleRegistry { entries: Vec::new() }
    }

    /// Whether some registered rule carries `name`.
    pub open spec fn spec_has_name(&self, name: Seq<char>) -> bool {
        exists|i: int| 0 <= i < self@.len() && self@[i].metadata.name == name
    }

    /// Whether some registered rule carries `name`.
    pub fn has_name(&self, name: &String) -> (r: bool)
        ensures
            r == self.spec_has_name(name@),
    {
        let mut i: usize = 0;
        while i < self.entries.len()
            invariant
                i <= self.entries.len(),
                self@.len() == self.entries@.len(),
                forall|j: int| 0 <= j < i ==> self@[j].metadata.name != name@,
            decreases self.entries.len() - i,
        {
            if self.entries[i].metadata.name == *name {
                proof {
                    assert(self@[i as int].metadata.name == name@);
                }
                return true;
            }
            i += 1;
        }
        false
    }

    /// Registers one rule with its metadata. Fails, leaving the registry
    /// unchanged, when a rule under the same name is already registered.
    pub fn register(&mut self, kind: RuleKind, metadata: RuleMetadata) -> (r: Result<
        (),
        RegistryError,
    >)
        ensures
            r is Ok ==> !old(self).spec_has_name(metadata@.name) && final(self)@ =~= old(
                self,
            )@.push(RuleEntryV { kind, metadata: metadata@ }),
            r is Err ==> old(self).spec_has_name(metadata@.name) && final(self)@ == old(self)@,
            unique_names(old(self)@) ==> unique_names(final(self)@),
    {
        if self.has_name(&metadata.name) {
            Result::Err(RegistryError::DuplicateName)
        } else {
            let ghost mdv = metadata@;
            let ghost k = kind;
            let ghost pre = self@;
            self.entries.push(RuleEntry { kind, metadata });
            proof {
                assert forall|j: int| 0 <= j < self@.len() implies self@[j] == pre.push(
                    RuleEntryV { kind: k, metadata: mdv },
                )[j] by {
                    if j < pre.len() {
                        assert(self.entries@[j] == old(self).entries@[j]);
                    } else {
                        assert(self.entries@[j]@ == RuleEntryV { kind: k, metadata: mdv });
                    }
                }
                assert(self@ =~= pre.push(RuleEntryV { kind: k, metadata: mdv }));
            }
            Result::Ok(())
        }
    }

    /// Metadata of every registered rule, in registration order; used by
    /// configuration resolution to decide which rules are enabled.
    pub fn all_metadata(&self) -> (r: Vec<RuleMetadata>)
        ensures
            r.deep_view().len() == self@.len(),
            forall|i: int| 0 <= i < self@.len() ==> r.deep_view()[i] == self@[i].metadata,
    {
        let mut r: Vec<RuleMetadata> = Vec::new();
        let mut i: usize = 0;
        while i < self.entries.len()
            invariant
                i <= self.entries.len(),
                self@.len() == self.entries@.len(),
                r@.len() == i,
                forall|j: int| 0 <= j < i ==> r@[j]@ == self@[j].metadata,
            decreases self.entries.len() - i,
        {
            let m = self.entries[i].metadata.clone();
            r.push(m);
            i += 1;
        }
        proof {
            assert forall|i: int| 0 <= i < self@.len() implies r.deep_view()[i]
                == self@[i].metadata by {
                assert(r@[i]@ == self@[i].metadata);
            }
        }
        r
    }

    /// Builds the rule set to run for a scan: the registered rules whose
    /// name is among `names`, in registration order.
    pub fn instantiate(&self, names: &Vec<String>) -> (r: Vec<RuleKind>)
        ensures
            r@ == instantiate_spec(self@, names.deep_view()),
    {
        let mut r: Vec<RuleKind> = Vec::new();
        let mut i: usize = 0;
        while i < self.entries.len()
            invariant
                i <= self.entries.len(),
                self@.len() == self.entries@.len(),
                r@ =~= instantiate_spec(self@.take(i as int), names.deep_view()),
            decreases self.entries.len() - i,
        {
            let ghost pre = r@;
            if contains_string(names, &self.entries[i].metadata.name) {
                let k = self.entries[i].kind;
                r.push(k);
            }
            i += 1;
            proof {
                assert(self@.take(i as int).drop_last() =~= self@.take(i - 1));
                assert(self@.take(i as int).last() == self@[i - 1]);
                assert(r@ =~= instantiate_spec(self@.take(i as int), names.deep_view()));
            }
        }
        proof {
            assert(self@.take(self@.len() as int) =~= self@);
        }
        r
    }
}

/// Whether `name`'s content occurs among `names`.
pub fn contains_string(names: &Vec<String>, name: &String) -> (r: bool)
    ensures
        r == names.deep_view().contains(name@),
{
    let mut i: usize = 0;
    while i < names.len()
        invariant
            i <= names.len(),
            names.deep_view().len() == names@.len(),
            forall|j: int| 0 <= j < i ==> names@[j]@ != name@,
        decreases names.len() - i,
    {
        if names[i] == *name {
            proof {
                assert(names.deep_view()[i as int] == name@);
            }
            return true;
        }
        i += 1;
    }
    proof {
        assert forall|j: int| 0 <= j < names.deep_view().len() implies names.deep_view()[j]
            != name@ by {
            assert(names@[j]@ != name@);
        }
    }
    false
}

} // verus!
