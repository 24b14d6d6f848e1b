//! Per-render-pass mutable state: the filter registry and the cooperative
//! interrupt flag.
//!
//! The registry maps a filter name to a [`Filter`]; a later registration for
//! the same name wins. Lookup is the business of the nodes that apply
//! filters; the composite in `template` only registers. The interrupt flag is
//! raised by control-flow nodes and only read by the composite.

use crate::filters::Filter;
use vstd::prelude::*;

verus! {

/// The mathematical state of a context: which filter each name resolves to,
/// and whether an interrupt has been raised.
pub struct ContextModel {
    pub filters: Map<Seq<char>, Filter>,
    pub interrupted: bool,
}

/// The mapping an ordered registration list denotes: each entry inserted in
/// order, so a later registration for a name overwrites an earlier one.
pub open spec fn registrations_map(entries: Seq<(String, Filter)>) -> Map<Seq<char>, Filter>
    decreases entries.len(),
{
    if entries.len() == 0 {
        Map::empty()
    } else {
        registrations_map(entries.drop_last()).insert(entries.last().0@, entries.last().1)
    }
}

/// A name that no entry carries is absent from the denoted mapping.
proof fn lemma_registrations_map_absent(entries: Seq<(String, Filter)>, name: Seq<char>)
    requires
        forall|j: int| 0 <= j < entries.len() ==> entries[j].0@ != name,
    ensures
        !registrations_map(entries).contains_key(name),
    decreases entries.len(),
{
    if entries.len() > 0 {
        lemma_registrations_map_absent(entries.drop_last(), name);
    }
}

/// The denoted mapping sends a name to the value of its last entry: if entry
/// `i` carries `name` and no later entry does, the mapping answers its filter.
proof fn lemma_registrations_map_last(entries: Seq<(String, Filter)>, name: Seq<char>, i: int)
    requires
        0 <= i < entries.len(),
        entries[i].0@ == name,
        forall|j: int| i < j < entries.len() ==> entries[j].0@ != name,
    ensures
        registrations_map(entries).contains_key(name),
        registrations_map(entries)[name] == entries[i].1,
    decreases entries.len(),
{
    if i < entries.len() - 1 {
        lemma_registrations_map_last(entries.drop_last(), name, i);
    }
}

/// The per-pass render context. One instance serves one top-level render
/// invocation; filters registered into it are scoped to that pass.
pub struct Context {
    registrations: Vec<(String, Filter)>,
    interrupt: bool,
}

impl View for Context {
    type V = ContextModel;

    closed spec fn view(&self) -> ContextModel {
        ContextModel { filters: registrations_map(self.registrations@), interrupted: self.interrupt }
    }
}

impl Context {
    /// A fresh context: no filter registered, no interrupt raised.
    pub fn new() -> (c: Context)
        ensures
            c@.filters == Map::<Seq<char>, Filter>::empty(),
            !c@.interrupted,
    {
        Context { registrations: Vec::new(), interrupt: false }
    }

    /// Register `filter` under `name`, inserting or overwriting: the last
    /// registration for a name wins.
    pub fn add_filter(&mut self, name: &str, filter: Filter)
        ensures
            final(self)@.filters == old(self)@.filters.insert(name@, filter),
            final(self)@.interrupted == old(self)@.interrupted,
    {
        self.registrations.push((name.to_owned(), filter));
        proof {
            assert(self.registrations@.drop_last() =~= old(self).registrations@);
            assert(final(self)@.filters =~= old(self)@.filters.insert(name@, filter));
        }
    }

    /// The filter the registry resolves `name` to: the most recent
    /// registration under that name, or nothing if the name was never
    /// registered.
    pub fn get_filter(&self, name: &str) -> (r: Option<Filter>)
        ensures
            self@.filters.contains_key(name@) ==> r == Some(self@.filters[name@]),
            !self@.filters.contains_key(name@) ==> r is None,
    {
        let n = self.registrations.len();
        let mut i: usize = n;
        while i > 0
            invariant
                i <= n,
                n == self.registrations.len(),
                forall|j: int| i <= j < n ==> self.registrations@[j].0@ != name@,
            decreases i,
        {
            i = i - 1;
            let entry = &self.registrations[i];
            if str_eq(entry.0.as_str(), name) {
                proof {
                    lemma_registrations_map_last(self.registrations@, name@, i as int);
                }
                return Some(entry.1);
            }
        }
        proof {
            lemma_registrations_map_absent(self.registrations@, name@);
        }
        None
    }

    /// Whether some already-rendered node has raised the interrupt.
    pub fn interrupted(&self) -> (r: bool)
        ensures
            r == self@.interrupted,
    {
        self.interrupt
    }

    /// Raise the interrupt flag. Control-flow nodes outside this core call
    /// this; the composite only reads it. The registry is untouched.
    pub fn set_interrupt(&mut self)
        ensures
            final(self)@.filters == old(self)@.filters,
            final(self)@.interrupted,
    {
        self.interrupt = true;
    }
}

/// Relies on `str`'s `PartialEq`: two string slices are equal exactly when
/// they hold the same characters.
#[verifier::external_body]
fn str_eq(a: &str, b: &str) -> (r: bool)
    ensures
        r == (a@ == b@),
{
    a == b
}

/// Registering twice under one name leaves only the final registration
/// effective: the registry after both calls is the registry after the second
/// alone, whatever was registered first.
pub proof fn lemma_register_twice_last_wins(
    m: Map<Seq<char>, Filter>,
    name: Seq<char>,
    first: Filter,
    second: Filter,
)
    ensures
        m.insert(name, first).insert(name, second) == m.insert(name, second),
{
    assert(m.insert(name, first).insert(name, second) =~= m.insert(name, second));
}

} // verus!
