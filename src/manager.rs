use vstd::prelude::*;

use crate::lifecycle::{
    no_version, snapshot_to_load, LoadError, RevertAction, RevertError, RevertSession, SaveAction, SaveError,
    SaveSession,
};
use crate::model::{CollectionView, counter_id, lemma_counter_id_injective, Stage, StageId, StageView};
use crate::object_id::{is_stage_id_text, parse_stage_id, stage_id_bytes};
use crate::store::{
    collection_uri_is, collections_under, first_with_id, no_collection, no_stage_with_id, stage_history, stage_in_group, with_group_active,
    StageStore, StoreView,
};

verus! {

broadcast use vstd::seq_lib::group_filter_ensures;

/// The stage records after a save of `stage` with snapshot `snapshot`: the group
/// `(stage.name, stage.uri)` set inactive, then the new record appended, active,
/// under the next identifier.
pub open spec fn saved_stages(ss: Seq<StageView>, stage: StageView, snapshot: Seq<char>) -> Seq<StageView> {
    with_group_active(ss, stage.name, stage.uri, false).push(
        StageView { id: Some(counter_id(ss.len() as u64)), rxt: snapshot, active: true, ..stage },
    )
}

/// The stage records after a revert to the record at position `i`: its group
/// set inactive, then that record set active.
pub open spec fn reverted_stages(ss: Seq<StageView>, i: int) -> Seq<StageView> {
    with_group_active(ss, ss[i].name, ss[i].uri, false).update(i, ss[i].with_active(true))
}

/// Exactly one record of the group `(name, uri)` is active.
pub open spec fn exactly_one_active(ss: Seq<StageView>, name: Seq<char>, uri: Seq<char>) -> bool {
    exists|i: int|
        0 <= i < ss.len() && #[trigger] ss[i].in_group(name, uri) && ss[i].active
            && forall|j: int| 0 <= j < ss.len() && j != i && #[trigger] ss[j].in_group(name, uri) ==> !ss[j].active
}

/// No two active records share a name and a URI.
pub open spec fn at_most_one_active(ss: Seq<StageView>) -> bool {
    forall|i: int, j: int|
        0 <= i < ss.len() && 0 <= j < ss.len() && i != j && #[trigger] ss[i].active && #[trigger] ss[j].active
            ==> !ss[i].in_group(ss[j].name, ss[j].uri)
}

/// A save keeps every group at no more than one active stage.
pub proof fn lemma_save_keeps_one_active_per_group(ss: Seq<StageView>, stage: StageView, snapshot: Seq<char>)
    requires
        at_most_one_active(ss),
    ensures
        at_most_one_active(saved_stages(ss, stage, snapshot)),
{
    let r = saved_stages(ss, stage, snapshot);
    let n = ss.len() as int;
    assert forall|i: int, j: int|
        0 <= i < r.len() && 0 <= j < r.len() && i != j && #[trigger] r[i].active && #[trigger] r[j].active
            implies !r[i].in_group(r[j].name, r[j].uri) by {
        if i < n {
            assert(r[i] == if ss[i].in_group(stage.name, stage.uri) { ss[i].with_active(false) } else { ss[i] });
        }
        if j < n {
            assert(r[j] == if ss[j].in_group(stage.name, stage.uri) { ss[j].with_active(false) } else { ss[j] });
        }
        if i < n && j < n {
            assert(ss[i].active && ss[j].active);
        }
    }
}

/// A revert keeps every group at no more than one active stage.
pub proof fn lemma_revert_keeps_one_active_per_group(ss: Seq<StageView>, t: int)
    requires
        at_most_one_active(ss),
        0 <= t < ss.len(),
    ensures
        at_most_one_active(reverted_stages(ss, t)),
{
    let r = reverted_stages(ss, t);
    assert forall|i: int, j: int|
        0 <= i < r.len() && 0 <= j < r.len() && i != j && #[trigger] r[i].active && #[trigger] r[j].active
            implies !r[i].in_group(r[j].name, r[j].uri) by {
        if i != t {
            assert(r[i] == if ss[i].in_group(ss[t].name, ss[t].uri) { ss[i].with_active(false) } else { ss[i] });
        }
        if j != t {
            assert(r[j] == if ss[j].in_group(ss[t].name, ss[t].uri) { ss[j].with_active(false) } else { ss[j] });
        }
        if i != t && j != t {
            assert(ss[i].active && ss[j].active);
        }
    }
}

/// After a save, exactly one stage of the saved stage's group is active.
pub proof fn lemma_save_leaves_one_active(ss: Seq<StageView>, stage: StageView, snapshot: Seq<char>)
    ensures
        exactly_one_active(saved_stages(ss, stage, snapshot), stage.name, stage.uri),
{
    let r = saved_stages(ss, stage, snapshot);
    let n = ss.len() as int;
    assert(r[n].in_group(stage.name, stage.uri) && r[n].active);
    assert forall|j: int| 0 <= j < r.len() && j != n && #[trigger] r[j].in_group(stage.name, stage.uri) implies !r[j].active by {
        assert(r[j] == ss[j].with_active(false));
    }
}

/// After a revert to the record at position `i`, exactly one stage of its group
/// is active: that record.
pub proof fn lemma_revert_leaves_one_active(ss: Seq<StageView>, i: int)
    requires
        0 <= i < ss.len(),
    ensures
        exactly_one_active(reverted_stages(ss, i), ss[i].name, ss[i].uri),
        reverted_stages(ss, i)[i].active,
{
    let r = reverted_stages(ss, i);
    assert(r[i].in_group(ss[i].name, ss[i].uri) && r[i].active);
    assert forall|j: int| 0 <= j < r.len() && j != i && #[trigger] r[j].in_group(ss[i].name, ss[i].uri) implies !r[j].active by {
        assert(r[j] == ss[j].with_active(false));
    }
}

/// Changing the `active` flags of a group leaves the number of its versions
/// unchanged.
pub proof fn lemma_history_len_under_flag_change(ss: Seq<StageView>, name: Seq<char>, uri: Seq<char>, active: bool)
    ensures
        stage_history(with_group_active(ss, name, uri, active), name, uri).len() == stage_history(ss, name, uri).len(),
    decreases ss.len(),
{
    if ss.len() > 0 {
        let w = with_group_active(ss, name, uri, active);
        let p = ss.drop_last();
        lemma_history_len_under_flag_change(p, name, uri, active);
        assert(w.drop_last() =~= with_group_active(p, name, uri, active));
        assert(ss =~= p.push(ss.last()));
        assert(w =~= w.drop_last().push(w.last()));
        p.lemma_filter_push(ss.last(), stage_in_group(name, uri));
        w.drop_last().lemma_filter_push(w.last(), stage_in_group(name, uri));
    }
}

/// Each save adds exactly one version to the history of its group, whatever the
/// `active` flags of the earlier versions.
pub proof fn lemma_save_adds_one_version(ss: Seq<StageView>, stage: StageView, snapshot: Seq<char>)
    ensures
        stage_history(saved_stages(ss, stage, snapshot), stage.name, stage.uri).len()
            == stage_history(ss, stage.name, stage.uri).len() + 1,
{
    let w = with_group_active(ss, stage.name, stage.uri, false);
    let new = StageView { id: Some(counter_id(ss.len() as u64)), rxt: snapshot, active: true, ..stage };
    lemma_history_len_under_flag_change(ss, stage.name, stage.uri, false);
    w.lemma_filter_push(new, stage_in_group(stage.name, stage.uri));
}

/// The snapshot that a save records is the one that a later load of the new
/// stage finds: the new record is the first with its identifier, and carries
/// the snapshot unchanged.
pub proof fn lemma_snapshot_round_trip(st: StoreView, stage: StageView, snapshot: Seq<char>)
    requires
        st.wf(),
    ensures
        first_with_id(saved_stages(st.stages, stage, snapshot), counter_id(st.stages.len() as u64), st.stages.len() as int),
        saved_stages(st.stages, stage, snapshot)[st.stages.len() as int].rxt == snapshot,
{
    let ss = st.stages;
    let r = saved_stages(ss, stage, snapshot);
    let n = ss.len() as int;
    assert forall|j: int| 0 <= j < n implies r[j].id != Some(counter_id(n as u64)) by {
        assert(ss[j].id == Some(counter_id(j as u64)));
        assert(r[j].id == ss[j].id);
        lemma_counter_id_injective(j as u64, n as u64);
    }
}

/// Among the collections under `uri`, one has version `version` exactly when a
/// collection has both.
proof fn lemma_source_lookup(cs: Seq<CollectionView>, version: Seq<char>, uri: Seq<char>)
    ensures
        no_version(collections_under(cs, uri), version) <==> no_collection(cs, version, uri),
{
    let f = collections_under(cs, uri);
    if no_collection(cs, version, uri) {
        assert forall|k: int| 0 <= k < f.len() implies f[k].version != version by {
            assert(f.contains(f[k]));
            cs.lemma_filter_contains_rev(collection_uri_is(uri), f[k]);
            let i = choose|i: int| 0 <= i < cs.len() && cs[i] == f[k];
            assert(!(cs[i].version == version && cs[i].uri == uri));
        }
    } else {
        let i = choose|i: int| 0 <= i < cs.len() && cs[i].version == version && cs[i].uri == uri;
        cs.lemma_filter_contains(collection_uri_is(uri), i);
        let k = choose|k: int| 0 <= k < f.len() && f[k] == cs[i];
        assert(f[k].version == version);
    }
}

impl StageStore {
    /// Saves `stage_data` as the new active version of its group. `generated` is
    /// what the snapshot generator gave for the packages of the source
    /// collection: the snapshot, or its error message. Nothing is written unless
    /// the source collection exists and a snapshot was produced.
    pub fn save_stage(&mut self, stage_data: Stage, generated: Result<String, String>) -> (r: Result<(), SaveError>)
        requires
            old(self)@.wf(),
            old(self)@.stages.len() < usize::MAX,
        ensures
            final(self)@.wf(),
            final(self)@.collections == old(self)@.collections,
            if no_collection(old(self)@.collections, stage_data.from_version@, stage_data.uri@) {
                &&& r matches Err(SaveError::SourceNotFound(v)) && v@ == stage_data.from_version@
                &&& final(self)@.stages == old(self)@.stages
            } else {
                match generated {
                    Err(e) => {
                        &&& r matches Err(SaveError::Generation(m)) && m@ == e@
                        &&& final(self)@.stages == old(self)@.stages
                    },
                    Ok(b) => {
                        &&& r is Ok
                        &&& final(self)@.stages == saved_stages(old(self)@.stages, stage_data@, b@)
                    },
                }
            },
            r is Ok ==> exactly_one_active(final(self)@.stages, stage_data.name@, stage_data.uri@),
            at_most_one_active(old(self)@.stages) ==> at_most_one_active(final(self)@.stages),
    {
        let ghost st = self@;
        let ghost sv = stage_data@;
        let (mut session, first) = SaveSession::start(stage_data);
        let found = match first {
            SaveAction::FindCollections { uri } => self.find_package_collections_by_uri(uri.as_str()),
            _ => {
                proof {
                    assert(false);
                }
                Vec::new()
            },
        };
        proof {
            lemma_source_lookup(st.collections, sv.from_version, sv.uri);
        }
        let next = session.on_collections(Ok(found));
        let next = match next {
            SaveAction::GenerateSnapshot { .. } => session.on_snapshot(generated),
            SaveAction::Failed(e) => {
                return Err(e);
            },
            _ => {
                proof {
                    assert(false);
                }
                return Err(SaveError::Storage(String::new()));
            },
        };
        let next = match next {
            SaveAction::DeactivateStages { name, uri } => {
                self.update_stages_active_status(name.as_str(), uri.as_str(), false);
                session.on_written(Ok(()))
            },
            SaveAction::Failed(e) => {
                return Err(e);
            },
            _ => {
                proof {
                    assert(false);
                }
                return Err(SaveError::Storage(String::new()));
            },
        };
        match next {
            SaveAction::InsertStage { stage } => {
                self.insert_stage(stage);
                let _ = session.on_written(Ok(()));
                proof {
                    assert(self@.stages =~= saved_stages(st.stages, sv, session@.snapshot));
                    lemma_save_leaves_one_active(st.stages, sv, session@.snapshot);
                    if at_most_one_active(st.stages) {
                        lemma_save_keeps_one_active_per_group(st.stages, sv, session@.snapshot);
                    }
                }
                Ok(())
            },
            _ => {
                proof {
                    assert(false);
                }
                Err(SaveError::Storage(String::new()))
            },
        }
    }

    /// Makes the stage with identifier `id` the active version of its group.
    pub fn revert_to(&mut self, id: &StageId) -> (r: Result<(), RevertError>)
        requires
            old(self)@.wf(),
        ensures
            final(self)@.wf(),
            final(self)@.collections == old(self)@.collections,
            no_stage_with_id(old(self)@.stages, id@) ==> {
                &&& r matches Err(RevertError::NotFound)
                &&& final(self)@.stages == old(self)@.stages
            },
            forall|i: int| #[trigger] first_with_id(old(self)@.stages, id@, i) ==> {
                &&& r is Ok
                &&& final(self)@.stages == reverted_stages(old(self)@.stages, i)
                &&& exactly_one_active(final(self)@.stages, old(self)@.stages[i].name, old(self)@.stages[i].uri)
            },
            at_most_one_active(old(self)@.stages) ==> at_most_one_active(final(self)@.stages),
    {
        let ghost ss = self@.stages;
        let (mut session, first) = RevertSession::start(*id);
        let found = match first {
            RevertAction::FindStage { id: k } => self.find_stage_by_id(&k),
            _ => {
                proof {
                    assert(false);
                }
                None
            },
        };
        let ghost target = found;
        let next = session.on_stage(Ok(found));
        match next {
            RevertAction::DeactivateStages { name, uri } => {
                let ghost i = choose|i: int| first_with_id(ss, id@, i) && target->0@ == #[trigger] ss[i];
                self.update_stages_active_status(name.as_str(), uri.as_str(), false);
                let ghost mid = self@.stages;
                proof {
                    assert(first_with_id(mid, id@, i));
                }
                let next = session.on_written(Ok(()));
                match next {
                    RevertAction::ActivateStage { id: k } => {
                        self.update_stage_active_status_by_id(&k, true);
                        let _ = session.on_written(Ok(()));
                        proof {
                            assert(self@.stages =~= reverted_stages(ss, i));
                            lemma_revert_leaves_one_active(ss, i);
                            if at_most_one_active(ss) {
                                lemma_revert_keeps_one_active_per_group(ss, i);
                            }
                        }
                        Ok(())
                    },
                    _ => {
                        proof {
                            assert(false);
                        }
                        Err(RevertError::NotFound)
                    },
                }
            },
            RevertAction::Failed(e) => Err(e),
            _ => {
                proof {
                    assert(false);
                }
                Err(RevertError::NotFound)
            },
        }
    }

    /// Makes the stage whose identifier has the text form `stage_id` the active
    /// version of its group.
    pub fn revert_stage(&mut self, stage_id: &str) -> (r: Result<(), RevertError>)
        requires
            old(self)@.wf(),
        ensures
            final(self)@.wf(),
            final(self)@.collections == old(self)@.collections,
            !is_stage_id_text(stage_id@) ==> {
                &&& r matches Err(RevertError::InvalidId(_))
                &&& final(self)@.stages == old(self)@.stages
            },
            is_stage_id_text(stage_id@) && no_stage_with_id(old(self)@.stages, stage_id_bytes(stage_id@)) ==> {
                &&& r matches Err(RevertError::NotFound)
                &&& final(self)@.stages == old(self)@.stages
            },
            forall|i: int|
                is_stage_id_text(stage_id@) && #[trigger] first_with_id(old(self)@.stages, stage_id_bytes(stage_id@), i) ==> {
                    &&& r is Ok
                    &&& final(self)@.stages == reverted_stages(old(self)@.stages, i)
                    &&& exactly_one_active(final(self)@.stages, old(self)@.stages[i].name, old(self)@.stages[i].uri)
                },
            at_most_one_active(old(self)@.stages) ==> at_most_one_active(final(self)@.stages),
    {
        match parse_stage_id(stage_id) {
            Ok(id) => self.revert_to(&id),
            Err(m) => Err(RevertError::InvalidId(m)),
        }
    }

    /// The snapshot of the stage with identifier `id`, to hand to the resolver.
    pub fn load_snapshot(&self, id: &StageId) -> (r: Result<String, LoadError>)
        ensures
            no_stage_with_id(self@.stages, id@) ==> r matches Err(LoadError::NotFound),
            forall|i: int| #[trigger] first_with_id(self@.stages, id@, i) ==> if self@.stages[i].rxt.len() == 0 {
                r matches Err(LoadError::EmptySnapshot)
            } else {
                r matches Ok(b) && b@ == self@.stages[i].rxt
            },
    {
        snapshot_to_load(Ok(self.find_stage_by_id(id)))
    }

    /// The snapshot of the stage whose identifier has the text form `stage_id`.
    pub fn load_stage_by_id(&self, stage_id: &str) -> (r: Result<String, LoadError>)
        ensures
            !is_stage_id_text(stage_id@) ==> r matches Err(LoadError::InvalidId(_)),
            is_stage_id_text(stage_id@) && no_stage_with_id(self@.stages, stage_id_bytes(stage_id@)) ==> r matches Err(LoadError::NotFound),
            forall|i: int|
                is_stage_id_text(stage_id@) && #[trigger] first_with_id(self@.stages, stage_id_bytes(stage_id@), i) ==> if self@.stages[i].rxt.len() == 0 {
                    r matches Err(LoadError::EmptySnapshot)
                } else {
                    r matches Ok(b) && b@ == self@.stages[i].rxt
                },
    {
        match parse_stage_id(stage_id) {
            Ok(id) => self.load_snapshot(&id),
            Err(m) => Err(LoadError::InvalidId(m)),
        }
    }
}

} // verus!
