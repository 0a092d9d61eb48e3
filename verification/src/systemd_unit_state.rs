//! Service-unit activation states and the lazily grown unit cache.
//!
//! A tracked unit reports one of eight activation states; the engine
//! publishes a one-hot encoding over the full state set.  Resolving a
//! unit name to a service-manager object path is cached for the process
//! lifetime: the cache only ever grows, and a unit removed externally
//! leaves a stale entry behind — an accepted limitation, not masked.

use vstd::prelude::*;

use crate::strutil::opts_get;
use crate::strutil::opts_get_spec;

verus! {

/// All possible values of a unit's activation state.
#[derive(Clone, Copy, PartialEq, Eq, Structural, Debug)]
pub enum ActiveState {
    /// Started, bound, plugged in, …, depending on the unit type.
    Active,
    /// Stopped, unbound, unplugged, …, depending on the unit type.
    Inactive,
    /// Like inactive, but the unit failed in some way.
    Failed,
    /// Changing from inactive to active.
    Activating,
    /// Changing from active to inactive.
    Deactivating,
    /// Inactive while a maintenance operation is in progress.
    Maintenance,
    /// Active and reloading its configuration.
    Reloading,
    /// Active while a new mount is being activated in its namespace.
    Refreshing,
}

/// The canonical name of one state.
pub open spec fn state_name(s: ActiveState) -> Seq<char> {
    match s {
        ActiveState::Active => "active"@,
        ActiveState::Inactive => "inactive"@,
        ActiveState::Failed => "failed"@,
        ActiveState::Activating => "activating"@,
        ActiveState::Deactivating => "deactivating"@,
        ActiveState::Maintenance => "maintenance"@,
        ActiveState::Reloading => "reloading"@,
        ActiveState::Refreshing => "refreshing"@,
    }
}

/// The full state set, in canonical order.
pub open spec fn all_states_spec() -> Seq<ActiveState> {
    seq![
        ActiveState::Active,
        ActiveState::Inactive,
        ActiveState::Failed,
        ActiveState::Activating,
        ActiveState::Deactivating,
        ActiveState::Maintenance,
        ActiveState::Reloading,
        ActiveState::Refreshing,
    ]
}

/// The state whose canonical name is `s`, if any.
pub open spec fn parse_state_spec(s: Seq<char>) -> Option<ActiveState> {
    if s == "active"@ {
        Some(ActiveState::Active)
    } else if s == "inactive"@ {
        Some(ActiveState::Inactive)
    } else if s == "failed"@ {
        Some(ActiveState::Failed)
    } else if s == "activating"@ {
        Some(ActiveState::Activating)
    } else if s == "deactivating"@ {
        Some(ActiveState::Deactivating)
    } else if s == "maintenance"@ {
        Some(ActiveState::Maintenance)
    } else if s == "reloading"@ {
        Some(ActiveState::Reloading)
    } else if s == "refreshing"@ {
        Some(ActiveState::Refreshing)
    } else {
        None
    }
}

impl ActiveState {
    /// All state names, in canonical order.
    pub fn all_states() -> (r: Vec<&'static str>)
        ensures
            r.deep_view() == all_states_spec().map_values(|s: ActiveState| state_name(s)),
    {
        let mut v: Vec<&'static str> = Vec::new();
        v.push("active");
        v.push("inactive");
        v.push("failed");
        v.push("activating");
        v.push("deactivating");
        v.push("maintenance");
        v.push("reloading");
        v.push("refreshing");
        proof {
            assert(v.deep_view() =~~= all_states_spec().map_values(
                |s: ActiveState| state_name(s),
            ));
        }
        v
    }

    /// The canonical name of this state.
    pub fn as_str(self) -> (r: &'static str)
        ensures
            r@ == state_name(self),
    {
        match self {
            ActiveState::Active => "active",
            ActiveState::Inactive => "inactive",
            ActiveState::Failed => "failed",
            ActiveState::Activating => "activating",
            ActiveState::Deactivating => "deactivating",
            ActiveState::Maintenance => "maintenance",
            ActiveState::Reloading => "reloading",
            ActiveState::Refreshing => "refreshing",
        }
    }

    /// Parse a state from its canonical name; any other string is
    /// unknown.
    pub fn from_str(s: &str) -> (r: Option<ActiveState>)
        ensures
            r == parse_state_spec(s@),
    {
        if crate::registry::str_eq(s, "active") {
            Some(ActiveState::Active)
        } else if crate::registry::str_eq(s, "inactive") {
            Some(ActiveState::Inactive)
        } else if crate::registry::str_eq(s, "failed") {
            Some(ActiveState::Failed)
        } else if crate::registry::str_eq(s, "activating") {
            Some(ActiveState::Activating)
        } else if crate::registry::str_eq(s, "deactivating") {
            Some(ActiveState::Deactivating)
        } else if crate::registry::str_eq(s, "maintenance") {
            Some(ActiveState::Maintenance)
        } else if crate::registry::str_eq(s, "reloading") {
            Some(ActiveState::Reloading)
        } else if crate::registry::str_eq(s, "refreshing") {
            Some(ActiveState::Refreshing)
        } else {
            None
        }
    }
}

/// Parsing the canonical name of a state gives that state back: the
/// eight names are distinct and [`ActiveState::from_str`] inverts
/// [`ActiveState::as_str`].
pub proof fn lemma_state_name_round_trip(s: ActiveState)
    ensures
        parse_state_spec(state_name(s)) == Some(s),
{
    reveal_strlit("active");
    reveal_strlit("inactive");
    reveal_strlit("failed");
    reveal_strlit("activating");
    reveal_strlit("deactivating");
    reveal_strlit("maintenance");
    reveal_strlit("reloading");
    reveal_strlit("refreshing");
    assert("active"@.len() == 6);
    assert("inactive"@.len() == 8);
    assert("failed"@.len() == 6);
    assert("activating"@.len() == 10);
    assert("deactivating"@.len() == 12);
    assert("maintenance"@.len() == 11);
    assert("reloading"@.len() == 9);
    assert("refreshing"@.len() == 10);
    assert("failed"@[0] == 'f' && "active"@[0] == 'a');
    assert("refreshing"@[0] == 'r' && "activating"@[0] == 'a');
    assert("failed"@ != "active"@);
    assert("refreshing"@ != "activating"@);
}

/// The eight state names are pairwise distinct: equal names mean
/// equal states.
pub proof fn lemma_state_names_injective(a: ActiveState, b: ActiveState)
    requires
        state_name(a) == state_name(b),
    ensures
        a == b,
{
    lemma_state_name_round_trip(a);
    lemma_state_name_round_trip(b);
}

/// The cache mapping unit names to resolved service-manager object
/// paths.  It grows monotonically: entries are never replaced or
/// removed during the process lifetime.
#[derive(Clone, PartialEq, Eq, Debug)]
pub struct UnitCache {
    entries: Vec<(String, String)>,
}

impl View for UnitCache {
    type V = Seq<(Seq<char>, Seq<char>)>;

    closed spec fn view(&self) -> Seq<(Seq<char>, Seq<char>)> {
        self.entries.deep_view()
    }
}

/// No unit name occurs twice among the cache entries.
pub open spec fn cache_wf(entries: Seq<(Seq<char>, Seq<char>)>) -> bool {
    forall|i: int, j: int|
        0 <= i < j < entries.len() ==> (#[trigger] entries[i].0) != (#[trigger] entries[j].0)
}

impl UnitCache {
    /// Shorthand for [`cache_wf`] of this cache's view.
    pub open spec fn wf(&self) -> bool {
        cache_wf(self@)
    }

    /// An empty cache.
    pub fn new() -> (r: UnitCache)
        ensures
            r@ == Seq::<(Seq<char>, Seq<char>)>::empty(),
            r.wf(),
    {
        let r = UnitCache { entries: Vec::new() };
        proof {
            assert(r@ =~= Seq::<(Seq<char>, Seq<char>)>::empty());
        }
        r
    }

    /// Number of cached units.
    pub fn len(&self) -> (n: usize)
        ensures
            n == self@.len(),
    {
        self.entries.len()
    }

    /// The cached object path of `unit`, if this unit was resolved
    /// before.
    pub fn get(&self, unit: &str) -> (r: Option<String>)
        ensures
            match r {
                Some(p) => opts_get_spec(self@, unit@) == Some(p@),
                None => opts_get_spec(self@, unit@) is None,
            },
    {
        opts_get(&self.entries, unit)
    }

    /// Remember the object path resolved for `unit`.  A unit already
    /// cached keeps its first path: the cache only grows.
    pub fn store(&mut self, unit: String, path: String)
        requires
            old(self).wf(),
        ensures
            final(self).wf(),
            opts_get_spec(old(self)@, unit@) is Some ==> final(self)@ == old(self)@,
            opts_get_spec(old(self)@, unit@) is None ==> final(self)@ == old(self)@.push(
                (unit@, path@),
            ),
            opts_get_spec(final(self)@, unit@) is Some,
            old(self)@.len() <= final(self)@.len(),
    {
        let present = self.get(unit.as_str());
        match present {
            Some(_) => {
                proof {
                    lemma_opts_get_present(self@, unit@);
                }
            },
            None => {
                let ghost before = self@;
                let ghost unit_v = unit@;
                let ghost path_v = path@;
                proof {
                    lemma_opts_get_absent(before, unit_v);
                }
                self.entries.push((unit, path));
                proof {
                    assert(self@ =~~= before.push((unit_v, path_v)));
                    assert forall|i: int, j: int| 0 <= i < j < self@.len() implies (
                    #[trigger] self@[i].0) != (#[trigger] self@[j].0) by {
                        if j < self@.len() - 1 {
                            assert(before[i].0 != before[j].0);
                        } else {
                            assert(self@[i].0 == before[i].0);
                        }
                    }
                    lemma_opts_get_found_at_end(before, unit_v, path_v);
                }
            },
        }
    }
}

/// A present key stays present under lookup (restating the lookup's
/// meaning for the `Some` case).
proof fn lemma_opts_get_present(entries: Seq<(Seq<char>, Seq<char>)>, key: Seq<char>)
    requires
        opts_get_spec(entries, key) is Some,
    ensures
        exists|i: int| 0 <= i < entries.len() && (#[trigger] entries[i].0) == key,
    decreases entries.len(),
{
    if entries.len() > 0 {
        if entries[0].0 == key {
            assert(entries[0].0 == key);
        } else {
            lemma_opts_get_present(entries.skip(1), key);
            let i = choose|i: int|
                0 <= i < entries.skip(1).len() && (#[trigger] entries.skip(1)[i].0) == key;
            assert(entries[i + 1].0 == key);
        }
    }
}

/// An absent key means no entry carries it.
proof fn lemma_opts_get_absent(entries: Seq<(Seq<char>, Seq<char>)>, key: Seq<char>)
    requires
        opts_get_spec(entries, key) is None,
    ensures
        forall|i: int| 0 <= i < entries.len() ==> (#[trigger] entries[i].0) != key,
    decreases entries.len(),
{
    if entries.len() > 0 {
        lemma_opts_get_absent(entries.skip(1), key);
        assert forall|i: int| 0 <= i < entries.len() implies (#[trigger] entries[i].0) != key by {
            if i > 0 {
                assert(entries.skip(1)[i - 1].0 != key);
            }
        }
    }
}

/// After appending a key absent before, lookup finds it.
proof fn lemma_opts_get_found_at_end(
    entries: Seq<(Seq<char>, Seq<char>)>,
    key: Seq<char>,
    val: Seq<char>,
)
    requires
        opts_get_spec(entries, key) is None,
    ensures
        opts_get_spec(entries.push((key, val)), key) == Some(val),
    decreases entries.len(),
{
    if entries.len() == 0 {
        assert(entries.push((key, val))[0] == (key, val));
    } else {
        assert(entries.push((key, val))[0] == entries[0]);
        assert(entries.push((key, val)).skip(1) =~~= entries.skip(1).push((key, val)));
        lemma_opts_get_found_at_end(entries.skip(1), key, val);
    }
}

} // verus!
