//! Module registry and the static module-graph resolver.
//!
//! Every module the host creates for an engine instance is recorded here,
//! keyed by the engine-assigned identity, together with its name, whether it
//! is the main module, the engine handle of the compiled module, and the
//! list of static import specifiers it requests. The registry is append-only
//! for the life of the context. During linking the engine asks, for each
//! static import of a referrer module, that the specifier be resolved to an
//! already-registered module handle; the resolution callback that maps a
//! specifier and referrer to a target module id is host business, so its
//! answer is taken as an argument here and checked against the registry.

use vstd::prelude::*;

verus! {

/// One registered module.
pub struct ModuleInfo {
    /// Engine-assigned identity of the module; unique within the registry.
    pub id: u64,
    /// The module's name (its URL).
    pub name: String,
    /// Whether this is the main module of the context.
    pub main: bool,
    /// Opaque engine handle of the compiled module.
    pub handle: u64,
    /// The static import specifiers this module requests, in source order.
    pub requests: Vec<String>,
}

/// Mathematical image of one registered module.
pub ghost struct ModuleInfoView {
    pub id: u64,
    pub name: Seq<char>,
    pub main: bool,
    pub handle: u64,
    pub requests: Seq<Seq<char>>,
}

impl View for ModuleInfo {
    type V = ModuleInfoView;

    open spec fn view(&self) -> ModuleInfoView {
        ModuleInfoView {
            id: self.id,
            name: self.name@,
            main: self.main,
            handle: self.handle,
            requests: self.requests.deep_view(),
        }
    }
}

impl DeepView for ModuleInfo {
    type V = ModuleInfoView;

    open spec fn deep_view(&self) -> ModuleInfoView {
        self.view()
    }
}

/// Whether some module with this identity is registered.
pub open spec fn registered(mods: Seq<ModuleInfoView>, id: u64) -> bool {
    exists|i: int| 0 <= i < mods.len() && mods[i].id == id
}

/// The first registered module with this identity, if any. Identities are
/// unique in a well-formed registry, so "first" is "the".
pub open spec fn lookup(mods: Seq<ModuleInfoView>, id: u64) -> Option<ModuleInfoView>
    decreases mods.len(),
{
    if mods.len() == 0 {
        None
    } else if mods[0].id == id {
        Some(mods[0])
    } else {
        lookup(mods.drop_first(), id)
    }
}

/// Whether `specifier` occurs among a module's recorded import requests.
pub open spec fn has_request(requests: Seq<Seq<char>>, specifier: Seq<char>) -> bool {
    exists|i: int| 0 <= i < requests.len() && requests[i] == specifier
}

proof fn lemma_lookup_at(mods: Seq<ModuleInfoView>, id: u64, k: int)
    requires
        0 <= k < mods.len(),
        mods[k].id == id,
        forall|j: int| 0 <= j < k ==> mods[j].id != id,
    ensures
        lookup(mods, id) == Some(mods[k]),
    decreases k,
{
    if k > 0 {
        lemma_lookup_at(mods.drop_first(), id, k - 1);
        assert(mods.drop_first()[k - 1] == mods[k]);
    }
}

proof fn lemma_lookup_none(mods: Seq<ModuleInfoView>, id: u64)
    requires
        forall|j: int| 0 <= j < mods.len() ==> mods[j].id != id,
    ensures
        lookup(mods, id) is None,
    decreases mods.len(),
{
    if mods.len() > 0 {
        lemma_lookup_none(mods.drop_first(), id);
    }
}

/// Why a module registration was refused.
#[derive(Clone, Copy, Debug, PartialEq, Eq)]
pub enum ModuleError {
    /// A module with the same identity is already registered.
    DuplicateModule,
}

/// Why a static import specifier failed to resolve.
#[derive(Clone, Copy, Debug, PartialEq, Eq)]
pub enum ResolveError {
    /// The referrer module is not in the registry at all; the engine and the
    /// registry disagree, which is a contract violation by the caller.
    UnknownReferrer,
    /// The specifier is not among the referrer's recorded import requests;
    /// equally a contract violation if engine and registry agree.
    SpecifierNotRequested,
    /// The host resolution callback named a module id that is not
    /// registered; surfaced to the linker naming specifier and referrer.
    TargetNotRegistered,
}

/// The append-only module registry of one execution context.
pub struct ModuleRegistry {
    pub infos: Vec<ModuleInfo>,
}

impl View for ModuleRegistry {
    type V = Seq<ModuleInfoView>;

    open spec fn view(&self) -> Seq<ModuleInfoView> {
        self.infos.deep_view()
    }
}

impl ModuleRegistry {
    /// Identities are unique across the registry.
    pub open spec fn wf(self) -> bool {
        forall|i: int, j: int| 0 <= i < j < self@.len() ==> self@[i].id != self@[j].id
    }

    pub fn new() -> (r: Self)
        ensures
            r@ == Seq::<ModuleInfoView>::empty(),
            r.wf(),
    {
        let r = ModuleRegistry { infos: Vec::new() };
        proof {
            assert(r@ =~= Seq::<ModuleInfoView>::empty());
        }
        r
    }

    /// Records a newly created module. Identities never repeat within a
    /// context; a duplicate is refused and the registry is unchanged.
    pub fn register(&mut self, info: ModuleInfo) -> (r: Result<(), ModuleError>)
        requires
            old(self).wf(),
        ensures
            final(self).wf(),
            match r {
                Ok(()) => !registered(old(self)@, info.id) && final(self)@ == old(self)@.push(
                    info@,
                ),
                Err(ModuleError::DuplicateModule) => registered(old(self)@, info.id)
                    && final(self)@ == old(self)@,
            },
    {
        if self.contains_id(info.id) {
            Err(ModuleError::DuplicateModule)
        } else {
            let ghost prior: Seq<ModuleInfoView> = self@;
            let ghost iv: ModuleInfoView = info@;
            self.infos.push(info);
            proof {
                assert(self@ =~= prior.push(iv));
                assert forall|i: int, j: int| 0 <= i < j < self@.len() implies self@[i].id
                    != self@[j].id by {
                    if j < prior.len() {
                    } else {
                        assert(self@[j] == iv);
                        assert(!registered(prior, iv.id));
                    }
                }
            }
            Ok(())
        }
    }

    /// Whether a module with this identity is registered.
    pub fn contains_id(&self, id: u64) -> (b: bool)
        ensures
            b == registered(self@, id),
    {
        let mut i: usize = 0;
        while i < self.infos.len()
            invariant
                i <= self@.len(),
                self@.len() == self.infos@.len(),
                forall|j: int| 0 <= j < i ==> self@[j].id != id,
            decreases self@.len() - i,
        {
            if self.infos[i].id == id {
                assert(self@[i as int].id == id);
                return true;
            }
            i = i + 1;
        }
        false
    }

    /// Looks a module up by its engine-assigned identity.
    pub fn get_info(&self, id: u64) -> (r: Option<&ModuleInfo>)
        ensures
            match r {
                Some(info) => registered(self@, id) && lookup(self@, id) == Some(info@),
                None => !registered(self@, id),
            },
    {
        let mut i: usize = 0;
        while i < self.infos.len()
            invariant
                i <= self@.len(),
                self@.len() == self.infos@.len(),
                forall|j: int| 0 <= j < i ==> self@[j].id != id,
            decreases self@.len() - i,
        {
            if self.infos[i].id == id {
                proof {
                    assert(self@[i as int].id == id);
                    lemma_lookup_at(self@, id, i as int);
                }
                return Some(&self.infos[i]);
            }
            i = i + 1;
        }
        proof {
            lemma_lookup_none(self@, id);
        }
        None
    }

    /// Resolves a static import during linking. `specifier` is the import
    /// being linked, `referrer_id` the identity of the module that requests
    /// it, and `target_id` the answer of the host resolution callback for
    /// `(specifier, referrer_id)`. The call succeeds with the target's
    /// engine handle exactly when the referrer is registered, the specifier
    /// is among the referrer's recorded requests, and the target id names a
    /// registered module.
    pub fn resolve(&self, specifier: &String, referrer_id: u64, target_id: u64) -> (r: Result<
        u64,
        ResolveError,
    >)
        ensures
            match r {
                Ok(handle) => ({
                    &&& lookup(self@, referrer_id) matches Some(referrer) && has_request(
                        referrer.requests,
                        specifier@,
                    )
                    &&& lookup(self@, target_id) matches Some(target) && handle == target.handle
                }),
                Err(ResolveError::UnknownReferrer) => !registered(self@, referrer_id),
                Err(ResolveError::SpecifierNotRequested) => (lookup(self@, referrer_id)
                    matches Some(referrer) && !has_request(referrer.requests, specifier@)),
                Err(ResolveError::TargetNotRegistered) => ({
                    &&& lookup(self@, referrer_id) matches Some(referrer) && has_request(
                        referrer.requests,
                        specifier@,
                    )
                    &&& !registered(self@, target_id)
                }),
            },
    {
        let referrer = match self.get_info(referrer_id) {
            Some(info) => info,
            None => {
                return Err(ResolveError::UnknownReferrer);
            }
        };
        if !find_request(&referrer.requests, specifier) {
            return Err(ResolveError::SpecifierNotRequested);
        }
        match self.get_info(target_id) {
            Some(target) => Ok(target.handle),
            None => Err(ResolveError::TargetNotRegistered),
        }
    }

    /// The metadata exposed to a module during instantiation: its URL and
    /// whether it is the main module.
    pub fn import_meta(&self, id: u64) -> (r: Option<ModuleMeta>)
        ensures
            match r {
                Some(meta) => (lookup(self@, id) matches Some(info) && meta.url@ == info.name
                    && meta.main == info.main),
                None => !registered(self@, id),
            },
    {
        match self.get_info(id) {
            Some(info) => Some(ModuleMeta { url: info.name.clone(), main: info.main }),
            None => None,
        }
    }
}

/// Metadata handed to the guest for one module's meta object.
#[derive(Clone, Debug, PartialEq, Eq)]
pub struct ModuleMeta {
    pub url: String,
    pub main: bool,
}

/// Whether `specifier` occurs in `requests`, comparing whole strings.
fn find_request(requests: &Vec<String>, specifier: &String) -> (b: bool)
    ensures
        b == has_request(requests.deep_view(), specifier@),
{
    let mut i: usize = 0;
    while i < requests.len()
        invariant
            i <= requests@.len(),
            requests.deep_view().len() == requests@.len(),
            forall|j: int| 0 <= j < i ==> requests.deep_view()[j] != specifier@,
        decreases requests@.len() - i,
    {
        if requests[i] == *specifier {
            assert(requests.deep_view()[i as int] == specifier@);
            return true;
        }
        assert(requests.deep_view()[i as int] == requests@[i as int]@);
        i = i + 1;
    }
    false
}

} // verus!
