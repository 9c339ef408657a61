use vstd::prelude::*;

use crate::model::{
    collection_views, copy_strings, counter_id, stage_views, CollectionView, PackageCollection, Stage, StageId,
    StageView,
};

use crate::names::{distinct_of, distinct_texts};
use vstd::pervasive::VecAdditionalExecFns;

verus! {

broadcast use vstd::seq_lib::group_filter_ensures;

/// What a store holds: its package collections and its stage records, in
/// insertion order.
pub struct StoreView {
    pub collections: Seq<CollectionView>,
    pub stages: Seq<StageView>,
}

impl StoreView {
    /// Every stage record carries the identifier of its position.
    pub open spec fn wf(self) -> bool {
        &&& self.stages.len() <= usize::MAX
        &&& forall|i: int| 0 <= i < self.stages.len() ==> #[trigger] self.stages[i].id == Some(counter_id(i as u64))
    }
}

/// The collections recorded under `uri`, in storage order.
pub open spec fn collections_under(cs: Seq<CollectionView>, uri: Seq<char>) -> Seq<CollectionView> {
    cs.filter(collection_uri_is(uri))
}

pub open spec fn collection_uri_is(uri: Seq<char>) -> spec_fn(CollectionView) -> bool {
    |c: CollectionView| c.uri == uri
}

/// Whether a stage record is selected by a query on `uri`, restricted to active
/// records when `active_only` is `Some(true)`.
pub open spec fn stage_selected(s: StageView, uri: Seq<char>, active_only: Option<bool>) -> bool {
    s.uri == uri && (active_only == Some(true) ==> s.active)
}

/// The stages that a query on `uri` returns, in storage order.
pub open spec fn stages_under(ss: Seq<StageView>, uri: Seq<char>, active_only: Option<bool>) -> Seq<StageView> {
    ss.filter(stage_selected_by(uri, active_only))
}

pub open spec fn stage_selected_by(uri: Seq<char>, active_only: Option<bool>) -> spec_fn(StageView) -> bool {
    |s: StageView| stage_selected(s, uri, active_only)
}

/// Every version of the stage `name` under `uri`, active or not, in storage order.
pub open spec fn stage_history(ss: Seq<StageView>, name: Seq<char>, uri: Seq<char>) -> Seq<StageView> {
    ss.filter(stage_in_group(name, uri))
}

pub open spec fn stage_in_group(name: Seq<char>, uri: Seq<char>) -> spec_fn(StageView) -> bool {
    |s: StageView| s.in_group(name, uri)
}

/// `ss` with the `active` flag of every record of the group `(name, uri)` set to
/// `active`, and every other record unchanged.
pub open spec fn with_group_active(ss: Seq<StageView>, name: Seq<char>, uri: Seq<char>, active: bool) -> Seq<StageView> {
    Seq::new(ss.len(), |i: int| if ss[i].in_group(name, uri) { ss[i].with_active(active) } else { ss[i] })
}

/// `i` is the first position of a collection with this version and URI.
pub open spec fn first_collection(cs: Seq<CollectionView>, version: Seq<char>, uri: Seq<char>, i: int) -> bool {
    &&& 0 <= i < cs.len()
    &&& cs[i].version == version && cs[i].uri == uri
    &&& forall|j: int| 0 <= j < i ==> !(cs[j].version == version && cs[j].uri == uri)
}

/// No collection has this version and URI.
pub open spec fn no_collection(cs: Seq<CollectionView>, version: Seq<char>, uri: Seq<char>) -> bool {
    forall|j: int| 0 <= j < cs.len() ==> !(cs[j].version == version && cs[j].uri == uri)
}

/// `i` is the first position of a stage with identifier `id`.
pub open spec fn first_with_id(ss: Seq<StageView>, id: Seq<u8>, i: int) -> bool {
    &&& 0 <= i < ss.len()
    &&& ss[i].id == Some(id)
    &&& forall|j: int| 0 <= j < i ==> ss[j].id != Some(id)
}

/// No stage has identifier `id`.
pub open spec fn no_stage_with_id(ss: Seq<StageView>, id: Seq<u8>) -> bool {
    forall|j: int| 0 <= j < ss.len() ==> ss[j].id != Some(id)
}

/// The name of each stage record, in storage order.
pub open spec fn stage_names(ss: Seq<StageView>) -> Seq<Seq<char>> {
    ss.map_values(|s: StageView| s.name)
}

/// The in-memory persistence gateway: collections and stage records kept in
/// insertion order.
pub struct StageStore {
    collections: Vec<PackageCollection>,
    stages: Vec<Stage>,
}

impl View for StageStore {
    type V = StoreView;

    closed spec fn view(&self) -> StoreView {
        StoreView { collections: collection_views(self.collections@), stages: stage_views(self.stages@) }
    }
}

impl StageStore {
    /// An empty store.
    pub fn new() -> (r: StageStore)
        ensures
            r@.collections.len() == 0,
            r@.stages.len() == 0,
            r@.wf(),
    {
        let r = StageStore { collections: Vec::new(), stages: Vec::new() };
        assert(r@.stages =~= Seq::<StageView>::empty());
        r
    }

    /// The collections recorded under `uri`.
    pub fn find_package_collections_by_uri(&self, uri: &str) -> (r: Vec<PackageCollection>)
        ensures
            collection_views(r@) == collections_under(self@.collections, uri@),
    {
        let ghost cs = self@.collections;
        let key = uri.to_owned();
        let mut r: Vec<PackageCollection> = Vec::new();
        let mut i: usize = 0;
        while i < self.collections.len()
            invariant
                i <= self.collections@.len(),
                cs == collection_views(self.collections@),
                key@ == uri@,
                collection_views(r@) == collections_under(cs.take(i as int), uri@),
            decreases self.collections@.len() - i,
        {
            let c = &self.collections[i];
            proof {
                assert(cs.take(i + 1) =~= cs.take(i as int).push(c@));
                cs.take(i as int).lemma_filter_push(c@, collection_uri_is(uri@));
            }
            if c.uri == key {
                let ghost before = r@;
                r.push(c.copy());
                assert(collection_views(r@) =~= collection_views(before).push(c@));
            }
            i += 1;
        }
        assert(cs.take(i as int) =~= cs);
        r
    }

    /// Every recorded collection.
    pub fn find_all_package_collections(&self) -> (r: Vec<PackageCollection>)
        ensures
            collection_views(r@) == self@.collections,
    {
        let mut r: Vec<PackageCollection> = Vec::new();
        let mut i: usize = 0;
        while i < self.collections.len()
            invariant
                i <= self.collections@.len(),
                r@.len() == i,
                forall|k: int| 0 <= k < i ==> #[trigger] r@[k]@ == self.collections@[k]@,
            decreases self.collections@.len() - i,
        {
            r.push(self.collections[i].copy());
            i += 1;
        }
        assert(collection_views(r@) =~= collection_views(self.collections@));
        r
    }

    /// Records a collection. Versions are not checked for uniqueness.
    pub fn insert_package_collection(&mut self, package_data: PackageCollection)
        ensures
            final(self)@.collections == old(self)@.collections.push(package_data@),
            final(self)@.stages == old(self)@.stages,
    {
        self.collections.push(package_data);
        assert(collection_views(self.collections@) =~= collection_views(old(self).collections@).push(package_data@));
    }

    /// The tools of the first collection with this version and URI, or `None`
    /// when there is no such collection.
    pub fn find_package_collection_tools(&self, version: &str, uri: &str) -> (r: Option<Vec<String>>)
        ensures
            r is None <==> no_collection(self@.collections, version@, uri@),
            r matches Some(t) ==> exists|i: int|
                first_collection(self@.collections, version@, uri@, i) && t.deep_view() == #[trigger] self@.collections[i].tools,
    {
        let ghost cs = self@.collections;
        let v = version.to_owned();
        let u = uri.to_owned();
        let mut i: usize = 0;
        while i < self.collections.len()
            invariant
                i <= self.collections@.len(),
                cs == collection_views(self.collections@),
                v@ == version@,
                u@ == uri@,
                forall|j: int| 0 <= j < i ==> !(cs[j].version == version@ && cs[j].uri == uri@),
            decreases self.collections@.len() - i,
        {
            let c = &self.collections[i];
            if c.version == v && c.uri == u {
                let t = copy_strings(&c.tools);
                assert(cs[i as int] == c@);
                assert(first_collection(cs, version@, uri@, i as int) && t.deep_view() == cs[i as int].tools);
                return Some(t);
            }
            i += 1;
        }
        None
    }

    /// The stages recorded under `uri`; only the active ones when `active_only`
    /// is `Some(true)`.
    pub fn find_stages_by_uri(&self, uri: &str, active_only: Option<bool>) -> (r: Vec<Stage>)
        ensures
            stage_views(r@) == stages_under(self@.stages, uri@, active_only),
    {
        let ghost ss = self@.stages;
        let key = uri.to_owned();
        let only_active = match active_only {
            Some(true) => true,
            _ => false,
        };
        let mut r: Vec<Stage> = Vec::new();
        let mut i: usize = 0;
        while i < self.stages.len()
            invariant
                i <= self.stages@.len(),
                ss == stage_views(self.stages@),
                key@ == uri@,
                only_active == (active_only == Some(true)),
                stage_views(r@) == stages_under(ss.take(i as int), uri@, active_only),
            decreases self.stages@.len() - i,
        {
            let st = &self.stages[i];
            proof {
                assert(ss.take(i + 1) =~= ss.take(i as int).push(st@));
                ss.take(i as int).lemma_filter_push(st@, stage_selected_by(uri@, active_only));
            }
            if st.uri == key && (!only_active || st.active) {
                let ghost before = r@;
                r.push(st.copy());
                assert(stage_views(r@) =~= stage_views(before).push(st@));
            }
            i += 1;
        }
        assert(ss.take(i as int) =~= ss);
        r
    }

    /// Records a stage under a fresh identifier, which it returns. An identifier
    /// already carried by `stage_data` is replaced.
    pub fn insert_stage(&mut self, stage_data: Stage) -> (id: StageId)
        requires
            old(self)@.wf(),
            old(self)@.stages.len() < usize::MAX,
        ensures
            final(self)@.wf(),
            id@ == counter_id(old(self)@.stages.len() as u64),
            final(self)@.stages == old(self)@.stages.push(StageView { id: Some(id@), ..stage_data@ }),
            final(self)@.collections == old(self)@.collections,
    {
        let n = self.stages.len();
        let id = StageId::from_counter(n as u64);
        let mut stage_data = stage_data;
        stage_data.id = Some(id);
        self.stages.push(stage_data);
        assert(stage_views(self.stages@) =~= stage_views(old(self).stages@).push(stage_data@));
        id
    }

    /// Sets the `active` flag of every stage of the group `(name, uri)`; a group
    /// with no record is no failure.
    pub fn update_stages_active_status(&mut self, name: &str, uri: &str, active: bool)
        requires
            old(self)@.wf(),
        ensures
            final(self)@.wf(),
            final(self)@.stages == with_group_active(old(self)@.stages, name@, uri@, active),
            final(self)@.collections == old(self)@.collections,
    {
        let ghost ss = old(self)@.stages;
        let n = name.to_owned();
        let u = uri.to_owned();
        let mut i: usize = 0;
        while i < self.stages.len()
            invariant
                i <= self.stages@.len(),
                ss.len() == self.stages@.len(),
                n@ == name@,
                u@ == uri@,
                self@.collections == old(self)@.collections,
                forall|j: int| 0 <= j < i ==> #[trigger] self.stages@[j]@ == with_group_active(ss, name@, uri@, active)[j],
                forall|j: int| i <= j < ss.len() ==> #[trigger] self.stages@[j]@ == ss[j],
            decreases self.stages@.len() - i,
        {
            assert(self.stages@[i as int]@ == ss[i as int]);
            if self.stages[i].name == n && self.stages[i].uri == u {
                let mut st = self.stages[i].copy();
                st.active = active;
                assert(st@ == with_group_active(ss, name@, uri@, active)[i as int]);
                self.stages.set(i, st);
            }
            i += 1;
        }
        assert(stage_views(self.stages@) =~= with_group_active(ss, name@, uri@, active));
    }

    /// Sets the `active` flag of the first stage with identifier `id`; no record
    /// changes when there is none.
    pub fn update_stage_active_status_by_id(&mut self, id: &StageId, active: bool)
        requires
            old(self)@.wf(),
        ensures
            final(self)@.wf(),
            final(self)@.collections == old(self)@.collections,
            no_stage_with_id(old(self)@.stages, id@) ==> final(self)@.stages == old(self)@.stages,
            forall|i: int| first_with_id(old(self)@.stages, id@, i) ==>
                final(self)@.stages == old(self)@.stages.update(i, old(self)@.stages[i].with_active(active)),
    {
        let ghost ss = old(self)@.stages;
        let mut i: usize = 0;
        while i < self.stages.len()
            invariant
                i <= self.stages@.len(),
                *self == *old(self),
                ss == stage_views(self.stages@),
                ss == old(self)@.stages,
                old(self)@.wf(),
                forall|j: int| 0 <= j < i ==> ss[j].id != Some(id@),
            decreases self.stages@.len() - i,
        {
            let found = match &self.stages[i].id {
                Some(k) => k.same_as(id),
                None => false,
            };
            assert(ss[i as int] == self.stages@[i as int]@);
            if found {
                assert(first_with_id(ss, id@, i as int));
                let mut st = self.stages[i].copy();
                st.active = active;
                assert(st@ == ss[i as int].with_active(active));
                self.stages.set(i, st);
                assert(stage_views(self.stages@) =~= ss.update(i as int, ss[i as int].with_active(active)));
                assert forall|k: int| 0 <= k < self@.stages.len() implies #[trigger] self@.stages[k].id == Some(
                    counter_id(k as u64),
                ) by {
                    assert(ss[k].id == Some(counter_id(k as u64)));
                }
                return;
            }
            i += 1;
        }
    }

    /// The first stage with identifier `id`, if any.
    pub fn find_stage_by_id(&self, id: &StageId) -> (r: Option<Stage>)
        ensures
            r is None <==> no_stage_with_id(self@.stages, id@),
            r matches Some(s) ==> exists|i: int| first_with_id(self@.stages, id@, i) && s@ == #[trigger] self@.stages[i],
    {
        let ghost ss = self@.stages;
        let mut i: usize = 0;
        while i < self.stages.len()
            invariant
                i <= self.stages@.len(),
                ss == stage_views(self.stages@),
                forall|j: int| 0 <= j < i ==> ss[j].id != Some(id@),
            decreases self.stages@.len() - i,
        {
            let found = match &self.stages[i].id {
                Some(k) => k.same_as(id),
                None => false,
            };
            assert(ss[i as int] == self.stages@[i as int]@);
            if found {
                let s = self.stages[i].copy();
                assert(first_with_id(self@.stages, id@, i as int) && s@ == self@.stages[i as int]);
                return Some(s);
            }
            i += 1;
        }
        None
    }

    /// Every version of the stage `stage_name` under `uri`, active or not, in
    /// storage order.
    pub fn find_stage_history(&self, stage_name: &str, uri: &str) -> (r: Vec<Stage>)
        ensures
            stage_views(r@) == stage_history(self@.stages, stage_name@, uri@),
            forall|k: int| 0 <= k < r@.len() ==> (#[trigger] r@[k])@.in_group(stage_name@, uri@),
    {
        let ghost ss = self@.stages;
        let n = stage_name.to_owned();
        let u = uri.to_owned();
        let mut r: Vec<Stage> = Vec::new();
        let mut i: usize = 0;
        while i < self.stages.len()
            invariant
                i <= self.stages@.len(),
                ss == stage_views(self.stages@),
                n@ == stage_name@,
                u@ == uri@,
                stage_views(r@) == stage_history(ss.take(i as int), stage_name@, uri@),
            decreases self.stages@.len() - i,
        {
            let st = &self.stages[i];
            proof {
                assert(ss.take(i + 1) =~= ss.take(i as int).push(st@));
                ss.take(i as int).lemma_filter_push(st@, stage_in_group(stage_name@, uri@));
            }
            if st.name == n && st.uri == u {
                let ghost before = r@;
                r.push(st.copy());
                assert(stage_views(r@) =~= stage_views(before).push(st@));
            }
            i += 1;
        }
        assert(ss.take(i as int) =~= ss);
        assert forall|k: int| 0 <= k < r@.len() implies (#[trigger] r@[k])@.in_group(stage_name@, uri@) by {
            assert(stage_views(r@)[k] == r@[k]@);
            ss.lemma_filter_pred(stage_in_group(stage_name@, uri@), k);
        }
        r
    }

    /// Each stage name once, in the order in which the names first occur.
    pub fn find_distinct_stage_names(&self) -> (r: Vec<String>)
        ensures
            r.deep_view() == distinct_of(stage_names(self@.stages)),
            r.deep_view().no_duplicates(),
            r.deep_view().to_set() == stage_names(self@.stages).to_set(),
    {
        let mut names: Vec<String> = Vec::new();
        let mut i: usize = 0;
        while i < self.stages.len()
            invariant
                i <= self.stages@.len(),
                names@.len() == i,
                forall|k: int| 0 <= k < i ==> #[trigger] names@[k]@ == self.stages@[k].name@,
            decreases self.stages@.len() - i,
        {
            names.push(self.stages[i].name.clone());
            i += 1;
        }
        assert(names.deep_view() =~= stage_names(self@.stages));
        distinct_texts(&names)
    }
}

} // verus!
