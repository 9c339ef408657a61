use vstd::prelude::*;

use crate::model::{copy_strings, CollectionView, PackageCollection, Stage, StageId, StageView, collection_views};

verus! {

/// Why saving a stage failed.
#[derive(Clone, Debug, PartialEq)]
pub enum SaveError {
    /// The storage refused a query or a write; its message.
    Storage(String),
    /// No collection under the stage's URI has the stage's source version.
    SourceNotFound(String),
    /// The snapshot generator failed; its message.
    Generation(String),
}

/// What a save asks for next.
#[derive(Clone, Debug, PartialEq)]
pub enum SaveAction {
    /// Query the collections recorded under `uri`.
    FindCollections { uri: String },
    /// Run the snapshot generator on `packages`.
    GenerateSnapshot { packages: Vec<String> },
    /// Set every stage of the group `(name, uri)` inactive.
    DeactivateStages { name: String, uri: String },
    /// Record `stage`.
    InsertStage { stage: Stage },
    /// The save is complete.
    Done,
    /// The save stopped; nothing more is to be done.
    Failed(SaveError),
}

#[derive(Clone, Copy, Debug, PartialEq, Eq, Structural)]
pub enum SaveStep {
    FindSource,
    Generate,
    Deactivate,
    Insert,
    Finished,
}

pub struct SaveSessionView {
    pub stage: StageView,
    pub step: SaveStep,
    pub snapshot: Seq<char>,
}

/// The decisions of one save of a stage: look up the source collection, have
/// the snapshot generated, set the group inactive, record the new stage active.
/// Each step starts only once the previous one has reported back.
pub struct SaveSession {
    stage: Stage,
    step: SaveStep,
    snapshot: String,
}

impl View for SaveSession {
    type V = SaveSessionView;

    closed spec fn view(&self) -> SaveSessionView {
        SaveSessionView { stage: self.stage@, step: self.step, snapshot: self.snapshot@ }
    }
}

/// `i` is the first position of a collection with version `version`.
pub open spec fn first_with_version(cs: Seq<CollectionView>, version: Seq<char>, i: int) -> bool {
    &&& 0 <= i < cs.len()
    &&& cs[i].version == version
    &&& forall|j: int| 0 <= j < i ==> cs[j].version != version
}

/// No collection has version `version`.
pub open spec fn no_version(cs: Seq<CollectionView>, version: Seq<char>) -> bool {
    forall|j: int| 0 <= j < cs.len() ==> cs[j].version != version
}

impl SaveSession {
    /// Starts the save of `stage_data`: first the collections under its URI are
    /// queried.
    pub fn start(stage_data: Stage) -> (r: (SaveSession, SaveAction))
        ensures
            r.0@ == (SaveSessionView { stage: stage_data@, step: SaveStep::FindSource, snapshot: Seq::empty() }),
            r.1 matches SaveAction::FindCollections { uri } && uri@ == stage_data.uri@,
    {
        let uri = stage_data.uri.clone();
        (SaveSession { stage: stage_data, step: SaveStep::FindSource, snapshot: String::new() }, SaveAction::FindCollections { uri })
    }

    /// Takes the collections recorded under the stage's URI. The first one with
    /// the stage's source version gives the packages to generate from.
    pub fn on_collections(&mut self, found: Result<Vec<PackageCollection>, String>) -> (a: SaveAction)
        requires
            old(self)@.step == SaveStep::FindSource,
        ensures
            final(self)@.stage == old(self)@.stage,
            match found {
                Err(e) => final(self)@.step == SaveStep::Finished
                    && (a matches SaveAction::Failed(SaveError::Storage(m)) && m@ == e@),
                Ok(cs) => if no_version(collection_views(cs@), old(self)@.stage.from_version) {
                    final(self)@.step == SaveStep::Finished
                    && (a matches SaveAction::Failed(SaveError::SourceNotFound(v)) && v@ == old(self)@.stage.from_version)
                } else {
                    final(self)@.step == SaveStep::Generate
                    && (a matches SaveAction::GenerateSnapshot { packages }
                    && exists|i: int| first_with_version(collection_views(cs@), old(self)@.stage.from_version, i)
                        && packages.deep_view() == #[trigger] collection_views(cs@)[i].packages)
                },
            },
    {
        match found {
            Err(e) => {
                self.step = SaveStep::Finished;
                SaveAction::Failed(SaveError::Storage(e))
            },
            Ok(cs) => {
                let ghost cv = collection_views(cs@);
                let mut i: usize = 0;
                while i < cs.len()
                    invariant
                        i <= cs@.len(),
                        cv == collection_views(cs@),
                        *self == *old(self),
                        found == Ok::<Vec<PackageCollection>, String>(cs),
                        forall|j: int| 0 <= j < i ==> cv[j].version != self.stage.from_version@,
                    decreases cs@.len() - i,
                {
                    if cs[i].version == self.stage.from_version {
                        let packages = copy_strings(&cs[i].packages);
                        assert(first_with_version(cv, self.stage.from_version@, i as int)
                            && packages.deep_view() == cv[i as int].packages);
                        self.step = SaveStep::Generate;
                        return SaveAction::GenerateSnapshot { packages };
                    }
                    i += 1;
                }
                self.step = SaveStep::Finished;
                SaveAction::Failed(SaveError::SourceNotFound(self.stage.from_version.clone()))
            },
        }
    }

    /// Takes the outcome of the snapshot generator: its output, or its error
    /// message. The group is set inactive only after a snapshot was produced.
    pub fn on_snapshot(&mut self, generated: Result<String, String>) -> (a: SaveAction)
        requires
            old(self)@.step == SaveStep::Generate,
        ensures
            final(self)@.stage == old(self)@.stage,
            generated matches Err(e) ==> final(self)@.step == SaveStep::Finished
                && (a matches SaveAction::Failed(SaveError::Generation(m)) && m@ == e@),
            generated matches Ok(b) ==> final(self)@.step == SaveStep::Deactivate
                && final(self)@.snapshot == b@
                && (a matches SaveAction::DeactivateStages { name, uri }
                && name@ == old(self)@.stage.name && uri@ == old(self)@.stage.uri),
    {
        match generated {
            Err(e) => {
                self.step = SaveStep::Finished;
                SaveAction::Failed(SaveError::Generation(e))
            },
            Ok(b) => {
                self.snapshot = b;
                self.step = SaveStep::Deactivate;
                SaveAction::DeactivateStages { name: self.stage.name.clone(), uri: self.stage.uri.clone() }
            },
        }
    }

    /// Takes the outcome of the write that was asked for last. After the group
    /// was set inactive, the new stage is recorded active with the snapshot.
    pub fn on_written(&mut self, written: Result<(), String>) -> (a: SaveAction)
        requires
            old(self)@.step == SaveStep::Deactivate || old(self)@.step == SaveStep::Insert,
        ensures
            final(self)@.stage == old(self)@.stage,
            final(self)@.snapshot == old(self)@.snapshot,
            written matches Err(e) ==> final(self)@.step == SaveStep::Finished
                && (a matches SaveAction::Failed(SaveError::Storage(m)) && m@ == e@),
            written is Ok && old(self)@.step == SaveStep::Deactivate ==> final(self)@.step == SaveStep::Insert
                && (a matches SaveAction::InsertStage { stage }
                && stage@ == (StageView { rxt: old(self)@.snapshot, active: true, ..old(self)@.stage })),
            written is Ok && old(self)@.step == SaveStep::Insert ==> final(self)@.step == SaveStep::Finished
                && a is Done,
    {
        match written {
            Err(e) => {
                self.step = SaveStep::Finished;
                SaveAction::Failed(SaveError::Storage(e))
            },
            Ok(()) => {
                if self.step == SaveStep::Deactivate {
                    let mut stage = self.stage.copy();
                    stage.rxt = self.snapshot.clone();
                    stage.active = true;
                    self.step = SaveStep::Insert;
                    SaveAction::InsertStage { stage }
                } else {
                    self.step = SaveStep::Finished;
                    SaveAction::Done
                }
            },
        }
    }
}

/// Why reverting to a stage failed.
#[derive(Clone, Debug, PartialEq)]
pub enum RevertError {
    /// The text is not the text form of a stage identifier; a description.
    InvalidId(String),
    /// No stage has the identifier.
    NotFound,
    /// The storage refused a query or a write; its message.
    Storage(String),
}

/// What a revert asks for next.
#[derive(Clone, Debug, PartialEq)]
pub enum RevertAction {
    /// Look up the stage with identifier `id`.
    FindStage { id: StageId },
    /// Set every stage of the group `(name, uri)` inactive.
    DeactivateStages { name: String, uri: String },
    /// Set the stage with identifier `id` active.
    ActivateStage { id: StageId },
    /// The revert is complete.
    Done,
    /// The revert stopped; nothing more is to be done.
    Failed(RevertError),
}

#[derive(Clone, Copy, Debug, PartialEq, Eq, Structural)]
pub enum RevertStep {
    Lookup,
    Deactivate,
    Activate,
    Finished,
}

pub struct RevertSessionView {
    pub id: Seq<u8>,
    pub step: RevertStep,
}

/// The decisions of one revert: look up the target stage, set its group
/// inactive, then set the target active. Each step starts only once the
/// previous one has reported back.
pub struct RevertSession {
    id: StageId,
    step: RevertStep,
}

impl View for RevertSession {
    type V = RevertSessionView;

    closed spec fn view(&self) -> RevertSessionView {
        RevertSessionView { id: self.id@, step: self.step }
    }
}

impl RevertSession {
    /// Starts the revert to the stage with identifier `id`: first that stage is
    /// looked up.
    pub fn start(id: StageId) -> (r: (RevertSession, RevertAction))
        ensures
            r.0@ == (RevertSessionView { id: id@, step: RevertStep::Lookup }),
            r.1 matches RevertAction::FindStage { id: k } && k@ == id@,
    {
        (RevertSession { id, step: RevertStep::Lookup }, RevertAction::FindStage { id })
    }

    /// Takes the outcome of the lookup of the target stage.
    pub fn on_stage(&mut self, found: Result<Option<Stage>, String>) -> (a: RevertAction)
        requires
            old(self)@.step == RevertStep::Lookup,
        ensures
            final(self)@.id == old(self)@.id,
            match found {
                Err(e) => final(self)@.step == RevertStep::Finished
                    && (a matches RevertAction::Failed(RevertError::Storage(m)) && m@ == e@),
                Ok(None) => final(self)@.step == RevertStep::Finished
                    && (a matches RevertAction::Failed(RevertError::NotFound)),
                Ok(Some(s)) => final(self)@.step == RevertStep::Deactivate
                    && (a matches RevertAction::DeactivateStages { name, uri } && name@ == s.name@ && uri@ == s.uri@),
            },
    {
        match found {
            Err(e) => {
                self.step = RevertStep::Finished;
                RevertAction::Failed(RevertError::Storage(e))
            },
            Ok(None) => {
                self.step = RevertStep::Finished;
                RevertAction::Failed(RevertError::NotFound)
            },
            Ok(Some(s)) => {
                self.step = RevertStep::Deactivate;
                RevertAction::DeactivateStages { name: s.name, uri: s.uri }
            },
        }
    }

    /// Takes the outcome of the write that was asked for last. After the group
    /// was set inactive, the target is set active.
    pub fn on_written(&mut self, written: Result<(), String>) -> (a: RevertAction)
        requires
            old(self)@.step == RevertStep::Deactivate || old(self)@.step == RevertStep::Activate,
        ensures
            final(self)@.id == old(self)@.id,
            match written {
                Err(e) => final(self)@.step == RevertStep::Finished
                    && (a matches RevertAction::Failed(RevertError::Storage(m)) && m@ == e@),
                Ok(()) => if old(self)@.step == RevertStep::Deactivate {
                    final(self)@.step == RevertStep::Activate
                    && (a matches RevertAction::ActivateStage { id } && id@ == old(self)@.id)
                } else {
                    final(self)@.step == RevertStep::Finished && a is Done
                },
            },
    {
        match written {
            Err(e) => {
                self.step = RevertStep::Finished;
                RevertAction::Failed(RevertError::Storage(e))
            },
            Ok(()) => {
                if self.step == RevertStep::Deactivate {
                    self.step = RevertStep::Activate;
                    RevertAction::ActivateStage { id: self.id }
                } else {
                    self.step = RevertStep::Finished;
                    RevertAction::Done
                }
            },
        }
    }
}

/// Why loading a stage failed.
#[derive(Clone, Debug, PartialEq)]
pub enum LoadError {
    /// The text is not the text form of a stage identifier; a description.
    InvalidId(String),
    /// No stage has the identifier.
    NotFound,
    /// The stage has no snapshot.
    EmptySnapshot,
    /// The storage refused the query; its message.
    Storage(String),
}

/// Takes the outcome of the lookup of the stage to load, and gives the snapshot
/// to hand to the resolver.
pub fn snapshot_to_load(found: Result<Option<Stage>, String>) -> (r: Result<String, LoadError>)
    ensures
        match found {
            Err(e) => r matches Err(LoadError::Storage(m)) && m@ == e@,
            Ok(None) => r matches Err(LoadError::NotFound),
            Ok(Some(s)) => if s.rxt@.len() == 0 {
                r matches Err(LoadError::EmptySnapshot)
            } else {
                r matches Ok(b) && b@ == s.rxt@
            },
        },
{
    match found {
        Err(e) => Err(LoadError::Storage(e)),
        Ok(None) => Err(LoadError::NotFound),
        Ok(Some(s)) => {
            if s.rxt.as_str().is_empty() {
                Err(LoadError::EmptySnapshot)
            } else {
                Ok(s.rxt)
            }
        },
    }
}

} // verus!
