//! What a search view asks of the client, and the joining of the two
//! concurrent catalog fetches. The index and alias listings are fetched
//! side by side; their outcomes are combined into a three-way result, so a
//! failure of one endpoint does not discard what the other returned.

use vstd::prelude::*;
use crate::decode::{ElasticSearchAlias, ElasticSearchIndex};
use crate::text::push_str;

verus! {

/// Which kind of search the view is set to.
#[derive(Debug, Default, Clone)]
pub enum SearchType {
    #[default]
    StringSearch,
    GenericSearch,
}

/// One change to the selected search filters.
#[derive(Debug, Clone)]
pub enum FiltersUpdate {
    AddIndex(String),
    RemoveIndex(String),
    AddAlias(String),
    RemoveAlias(String),
}

/// An invocation the search view hands to the client's runner.
pub enum Context {
    AllIndiciesAndAliases,
    GenericSearch { body: String, indices: Vec<String>, aliases: Vec<String> },
    QueryStringSearch { query_string: String, indices: Vec<String>, aliases: Vec<String> },
}

/// Which search filters are known and which of them are selected: an
/// association of names to flags, each name held once, in listing order
/// (of a name listed twice the first occurrence counts).
pub struct FilterSelection {
    entries: Vec<(String, bool)>,
}

/// Whether `entries` holds `name`.
pub open spec fn spec_has_name(entries: Seq<(String, bool)>, name: Seq<char>) -> bool {
    exists|i: int| 0 <= i < entries.len() && entries[i].0@ == name
}

/// `entries` with the flag of `name` set to `value` and everything else as
/// it was.
pub open spec fn spec_set_flag(
    entries: Seq<(String, bool)>,
    name: Seq<char>,
    value: bool,
) -> Seq<(String, bool)> {
    Seq::new(
        entries.len(),
        |k: int|
            if entries[k].0@ == name {
                (entries[k].0, value)
            } else {
                entries[k]
            },
    )
}

/// The distinct names of a listing, first occurrences in order.
pub open spec fn spec_first_occurrences(names: Seq<Seq<char>>) -> Seq<Seq<char>>
    decreases names.len(),
{
    if names.len() == 0 {
        Seq::empty()
    } else {
        let prefix = spec_first_occurrences(names.drop_last());
        if prefix.contains(names.last()) {
            prefix
        } else {
            prefix.push(names.last())
        }
    }
}

/// The selected names, in order.
pub open spec fn spec_selected(entries: Seq<(String, bool)>) -> Seq<Seq<char>>
    decreases entries.len(),
{
    if entries.len() == 0 {
        Seq::empty()
    } else {
        spec_selected(entries.drop_last()) + (if entries.last().1 {
            seq![entries.last().0@]
        } else {
            Seq::empty()
        })
    }
}

impl FilterSelection {
    /// Each name appears at most once.
    pub closed spec fn wf(&self) -> bool {
        forall|i: int, j: int|
            0 <= i < j < self.entries@.len() ==> self.entries@[i].0@ != self.entries@[j].0@
    }

    /// The known names, in order.
    pub closed spec fn spec_names(&self) -> Seq<Seq<char>> {
        Seq::new(self.entries@.len(), |i: int| self.entries@[i].0@)
    }

    pub closed spec fn spec_entries(&self) -> Seq<(String, bool)> {
        self.entries@
    }

    /// A fresh selection over a listing's names, none of them selected.
    #[verifier::loop_isolation(false)]
    pub fn from_names(names: Vec<String>) -> (r: FilterSelection)
        ensures
            r.wf(),
            r.spec_names() =~= spec_first_occurrences(crate::text::spec_strings(names@)),
            forall|i: int| 0 <= i < r.spec_entries().len() ==> !r.spec_entries()[i].1,
    {
        let ghost views = crate::text::spec_strings(names@);
        let mut r = FilterSelection { entries: Vec::new() };
        let mut i: usize = 0;
        while i < names.len()
            invariant
                i <= names@.len(),
                r.wf(),
                r.spec_names() =~= spec_first_occurrences(views.take(i as int)),
                forall|k: int| 0 <= k < r.spec_entries().len() ==> !r.spec_entries()[k].1,
            decreases names@.len() - i,
        {
            proof {
                assert(views.take(i + 1).drop_last() =~= views.take(i as int));
                assert(views.take(i + 1).last() == views[i as int]);
            }
            if !r.has_name(names[i].as_str()) {
                proof {
                    assert(!r.spec_names().contains(views[i as int]));
                }
                r.entries.push((names[i].clone(), false));
                proof {
                    assert(r.spec_names() =~= spec_first_occurrences(views.take(i + 1)));
                }
            } else {
                proof {
                    let v = views[i as int];
                    assert(r.spec_names().contains(v)) by {
                        let w = choose|k: int|
                            0 <= k < r.spec_entries().len() && r.spec_entries()[k].0@ == v;
                        assert(r.spec_names()[w] == v);
                    }
                    assert(r.spec_names() =~= spec_first_occurrences(views.take(i + 1)));
                }
            }
            i = i + 1;
        }
        proof {
            assert(views.take(views.len() as int) =~= views);
        }
        r
    }

    /// Whether `name` is a known filter.
    pub fn has_name(&self, name: &str) -> (r: bool)
        ensures
            r == spec_has_name(self.spec_entries(), name@),
    {
        let mut i: usize = 0;
        while i < self.entries.len()
            invariant
                i <= self.entries@.len(),
                forall|k: int| 0 <= k < i ==> self.entries@[k].0@ != name@,
            decreases self.entries@.len() - i,
        {
            if crate::text::str_eq(self.entries[i].0.as_str(), name) {
                proof {
                    assert(self.spec_entries()[i as int].0@ == name@);
                }
                return true;
            }
            i = i + 1;
        }
        false
    }

    /// Selects or deselects a known filter; an unknown name changes
    /// nothing, as when a stale toggle arrives after a refresh.
    #[verifier::loop_isolation(false)]
    pub fn set_selected(&mut self, name: &str, value: bool)
        requires
            old(self).wf(),
        ensures
            spec_has_name(old(self).spec_entries(), name@) ==> final(self).spec_entries()
                =~= spec_set_flag(old(self).spec_entries(), name@, value),
            !spec_has_name(old(self).spec_entries(), name@) ==> final(self).spec_entries()
                == old(self).spec_entries(),
            final(self).wf(),
    {
        let ghost entries0 = self.entries@;
        let mut i: usize = 0;
        while i < self.entries.len()
            invariant
                i <= self.entries@.len(),
                self.entries@ == entries0,
                forall|k: int| 0 <= k < i ==> entries0[k].0@ != name@,
            decreases self.entries@.len() - i,
        {
            if crate::text::str_eq(self.entries[i].0.as_str(), name) {
                let key = self.entries[i].0.clone();
                self.entries[i] = (key, value);
                proof {
                    assert(forall|k: int|
                        0 <= k < entries0.len() && k != i ==> entries0[k].0@ != name@);
                    assert(self.entries@ =~= spec_set_flag(entries0, name@, value));
                }
                return ;
            }
            i = i + 1;
        }
    }

    /// The names currently selected, in order.
    #[verifier::loop_isolation(false)]
    pub fn selected_names(&self) -> (r: Vec<String>)
        ensures
            crate::text::spec_strings(r@) =~= spec_selected(self.spec_entries()),
    {
        let mut r: Vec<String> = Vec::new();
        let mut i: usize = 0;
        while i < self.entries.len()
            invariant
                i <= self.entries@.len(),
                crate::text::spec_strings(r@) =~= spec_selected(self.spec_entries().take(i as int)),
            decreases self.entries@.len() - i,
        {
            proof {
                assert(self.spec_entries().take(i + 1).drop_last() =~= self.spec_entries().take(
                    i as int,
                ));
                assert(self.spec_entries().take(i + 1).last() == self.spec_entries()[i as int]);
            }
            if self.entries[i].1 {
                r.push(self.entries[i].0.clone());
                proof {
                    assert(crate::text::spec_strings(r@) =~= spec_selected(
                        self.spec_entries().take(i + 1),
                    ));
                }
            } else {
                proof {
                    assert(crate::text::spec_strings(r@) =~= spec_selected(
                        self.spec_entries().take(i + 1),
                    ));
                }
            }
            i = i + 1;
        }
        proof {
            assert(self.spec_entries().take(self.spec_entries().len() as int)
                =~= self.spec_entries());
        }
        r
    }
}

/// Routes one filter toggle to the index or alias selection it names.
pub fn apply_filters_update(
    indices: &mut FilterSelection,
    aliases: &mut FilterSelection,
    update: &FiltersUpdate,
)
    requires
        old(indices).wf(),
        old(aliases).wf(),
    ensures
        final(indices).wf(),
        final(aliases).wf(),
        match *update {
            FiltersUpdate::AddIndex(ref n) => (spec_has_name(old(indices).spec_entries(), n@)
                ==> final(indices).spec_entries() =~= spec_set_flag(
                old(indices).spec_entries(),
                n@,
                true,
            )) && (!spec_has_name(old(indices).spec_entries(), n@) ==> final(indices).spec_entries() == old(indices).spec_entries()) && final(aliases).spec_entries()
                == old(aliases).spec_entries(),
            FiltersUpdate::RemoveIndex(ref n) => (spec_has_name(old(indices).spec_entries(), n@)
                ==> final(indices).spec_entries() =~= spec_set_flag(
                old(indices).spec_entries(),
                n@,
                false,
            )) && (!spec_has_name(old(indices).spec_entries(), n@) ==> final(indices).spec_entries() == old(indices).spec_entries()) && final(aliases).spec_entries()
                == old(aliases).spec_entries(),
            FiltersUpdate::AddAlias(ref n) => (spec_has_name(old(aliases).spec_entries(), n@)
                ==> final(aliases).spec_entries() =~= spec_set_flag(
                old(aliases).spec_entries(),
                n@,
                true,
            )) && (!spec_has_name(old(aliases).spec_entries(), n@) ==> final(aliases).spec_entries() == old(aliases).spec_entries()) && final(indices).spec_entries()
                == old(indices).spec_entries(),
            FiltersUpdate::RemoveAlias(ref n) => (spec_has_name(old(aliases).spec_entries(), n@)
                ==> final(aliases).spec_entries() =~= spec_set_flag(
                old(aliases).spec_entries(),
                n@,
                false,
            )) && (!spec_has_name(old(aliases).spec_entries(), n@) ==> final(aliases).spec_entries() == old(aliases).spec_entries()) && final(indices).spec_entries()
                == old(indices).spec_entries(),
        },
{
    match update {
        FiltersUpdate::AddIndex(n) => indices.set_selected(n.as_str(), true),
        FiltersUpdate::RemoveIndex(n) => indices.set_selected(n.as_str(), false),
        FiltersUpdate::AddAlias(n) => aliases.set_selected(n.as_str(), true),
        FiltersUpdate::RemoveAlias(n) => aliases.set_selected(n.as_str(), false),
    }
}

/// The invocation a pressed search button comes to: a query-string search
/// or a generic body search, scoped to the currently selected filters.
pub fn search_invocation(
    search_type: &SearchType,
    query_string: String,
    body: String,
    indices: Vec<String>,
    aliases: Vec<String>,
) -> (r: Context)
    ensures
        match *search_type {
            SearchType::StringSearch => r == (Context::QueryStringSearch {
                query_string,
                indices,
                aliases,
            }),
            SearchType::GenericSearch => r == (Context::GenericSearch { body, indices, aliases }),
        },
{
    match search_type {
        SearchType::StringSearch => Context::QueryStringSearch { query_string, indices, aliases },
        SearchType::GenericSearch => Context::GenericSearch { body, indices, aliases },
    }
}

/// The names of the listed indices, in order.
pub fn index_names(indices: &Vec<ElasticSearchIndex>) -> (r: Vec<String>)
    ensures
        r@.len() == indices@.len(),
        forall|i: int| 0 <= i < r@.len() ==> r@[i]@ == indices@[i]@.name,
{
    let mut r: Vec<String> = Vec::new();
    let mut i: usize = 0;
    while i < indices.len()
        invariant
            i <= indices@.len(),
            r@.len() == i,
            forall|k: int| 0 <= k < i ==> r@[k]@ == indices@[k]@.name,
        decreases indices@.len() - i,
    {
        r.push(indices[i].name.clone());
        i = i + 1;
    }
    r
}

/// The names of the listed aliases, in order.
pub fn alias_names(aliases: &Vec<ElasticSearchAlias>) -> (r: Vec<String>)
    ensures
        r@.len() == aliases@.len(),
        forall|i: int| 0 <= i < r@.len() ==> r@[i]@ == aliases@[i]@.name,
{
    let mut r: Vec<String> = Vec::new();
    let mut i: usize = 0;
    while i < aliases.len()
        invariant
            i <= aliases@.len(),
            r@.len() == i,
            forall|k: int| 0 <= k < i ==> r@[k]@ == aliases@[k]@.name,
        decreases aliases@.len() - i,
    {
        r.push(aliases[i].name.clone());
        i = i + 1;
    }
    r
}

/// The indices and aliases a search is scoped to, as one list.
pub fn combined_scope(indices: Vec<String>, aliases: Vec<String>) -> (r: Vec<String>)
    ensures
        r@ == indices@ + aliases@,
{
    let mut r = indices;
    let mut rest = aliases;
    r.append(&mut rest);
    r
}

/// Joins the outcomes of the concurrent index and alias fetches. Both
/// succeeding yields both listings; one failing reports that failure's
/// message while still carrying the other's listing; both failing reports
/// both messages. Nothing obtained is ever discarded silently.
pub fn combine_catalog_results(
    indicies_res: Result<Vec<String>, String>,
    aliases_res: Result<Vec<String>, String>,
) -> (r: Result<(Vec<String>, Vec<String>), (String, Option<Vec<String>>, Option<Vec<String>>)>)
    ensures
        match (indicies_res, aliases_res) {
            (Ok(idx), Ok(al)) => r == Ok::<(Vec<String>, Vec<String>), (
                String,
                Option<Vec<String>>,
                Option<Vec<String>>,
            )>((idx, al)),
            (Ok(idx), Err(ae)) => r matches Err((msg, oi, oa)) && msg@ == "Failed to get aliases: "@
                + ae@ && oi == Some(idx) && oa is None,
            (Err(ie), Ok(al)) => r matches Err((msg, oi, oa)) && msg@
                == "Failed to get indicies: "@ + ie@ && oi is None && oa == Some(al),
            (Err(ie), Err(ae)) => r matches Err((msg, oi, oa)) && msg@
                == "Failed to get indicies: "@ + ie@ + "\n Failed to get aliases: "@ + ae@
                && oi is None && oa is None,
        },
{
    match (indicies_res, aliases_res) {
        (Ok(idx), Ok(al)) => Ok((idx, al)),
        (Ok(idx), Err(ae)) => {
            let mut msg = "Failed to get aliases: ".to_owned();
            push_str(&mut msg, ae.as_str());
            Err((msg, Some(idx), None))
        },
        (Err(ie), Ok(al)) => {
            let mut msg = "Failed to get indicies: ".to_owned();
            push_str(&mut msg, ie.as_str());
            Err((msg, None, Some(al)))
        },
        (Err(ie), Err(ae)) => {
            let mut msg = "Failed to get indicies: ".to_owned();
            push_str(&mut msg, ie.as_str());
            push_str(&mut msg, "\n Failed to get aliases: ");
            push_str(&mut msg, ae.as_str());
            Err((msg, None, None))
        },
    }
}

} // verus!
