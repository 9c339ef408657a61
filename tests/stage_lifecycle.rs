use rez_launcher::lifecycle::{
    snapshot_to_load, LoadError, RevertAction, RevertError, RevertSession, SaveAction, SaveError,
    SaveSession,
};
use rez_launcher::model::{PackageCollection, Stage, StageId};
use rez_launcher::store::StageStore;

fn collection(version: &str, uri: &str, packages: &[&str]) -> PackageCollection {
    PackageCollection {
        version: version.to_string(),
        packages: packages.iter().map(|p| p.to_string()).collect(),
        herit: "base".to_string(),
        tools: vec!["maya".to_string()],
        created_at: "2024-05-01T10:00:00Z".to_string(),
        created_by: "artist".to_string(),
        uri: uri.to_string(),
    }
}

fn stage(name: &str, uri: &str, from_version: &str) -> Stage {
    Stage {
        id: None,
        name: name.to_string(),
        uri: uri.to_string(),
        from_version: from_version.to_string(),
        rxt: String::new(),
        tools: vec!["maya".to_string()],
        created_at: "2024-05-02T10:00:00Z".to_string(),
        created_by: "artist".to_string(),
        active: false,
    }
}

fn id_text(id: &StageId) -> String {
    id.bytes.iter().map(|b| format!("{:02x}", b)).collect()
}

fn active_count(store: &StageStore, name: &str, uri: &str) -> usize {
    store.find_stage_history(name, uri).iter().filter(|s| s.active).count()
}

fn shot_store() -> StageStore {
    let mut store = StageStore::new();
    store.insert_package_collection(collection("1.0", "shots/010", &["maya-2024", "arnold-5"]));
    store.insert_package_collection(collection("2.0", "shots/010", &["maya-2025", "arnold-5"]));
    store
}

#[test]
fn save_leaves_exactly_one_active_stage() {
    let mut store = shot_store();
    for _ in 0..3 {
        assert_eq!(store.save_stage(stage("prod", "shots/010", "1.0"), Ok("snapshot".to_string())), Ok(()));
        assert_eq!(active_count(&store, "prod", "shots/010"), 1);
    }
    assert_eq!(store.save_stage(stage("dev", "shots/010", "2.0"), Ok("snapshot".to_string())), Ok(()));
    assert_eq!(active_count(&store, "dev", "shots/010"), 1);
    assert_eq!(active_count(&store, "prod", "shots/010"), 1);
}

#[test]
fn revert_leaves_exactly_one_active_stage() {
    let mut store = shot_store();
    store.save_stage(stage("prod", "shots/010", "1.0"), Ok("first".to_string())).unwrap();
    store.save_stage(stage("prod", "shots/010", "2.0"), Ok("second".to_string())).unwrap();
    let history = store.find_stage_history("prod", "shots/010");
    let first_id = history[0].id.unwrap();

    assert_eq!(store.revert_stage(&id_text(&first_id)), Ok(()));

    let history = store.find_stage_history("prod", "shots/010");
    assert_eq!(active_count(&store, "prod", "shots/010"), 1);
    assert!(history[0].active);
    assert!(!history[1].active);
}

#[test]
fn save_without_source_version_writes_nothing() {
    let mut store = shot_store();
    store.save_stage(stage("prod", "shots/010", "1.0"), Ok("kept".to_string())).unwrap();
    let before = store.find_stages_by_uri("shots/010", None);

    let result = store.save_stage(stage("prod", "shots/010", "3.0"), Ok("never".to_string()));

    assert_eq!(result, Err(SaveError::SourceNotFound("3.0".to_string())));
    assert_eq!(store.find_stages_by_uri("shots/010", None), before);
}

#[test]
fn save_with_source_under_another_uri_is_not_found() {
    let mut store = shot_store();
    let result = store.save_stage(stage("prod", "shots/020", "1.0"), Ok("never".to_string()));
    assert_eq!(result, Err(SaveError::SourceNotFound("1.0".to_string())));
    assert!(store.find_stages_by_uri("shots/020", None).is_empty());
}

#[test]
fn save_with_failed_generation_writes_nothing() {
    let mut store = shot_store();
    store.save_stage(stage("prod", "shots/010", "1.0"), Ok("kept".to_string())).unwrap();
    let before = store.find_stages_by_uri("shots/010", None);

    let result = store.save_stage(stage("prod", "shots/010", "2.0"), Err("resolve failed".to_string()));

    assert_eq!(result, Err(SaveError::Generation("resolve failed".to_string())));
    assert_eq!(store.find_stages_by_uri("shots/010", None), before);
    assert!(before[0].active);
}

#[test]
fn tools_of_unknown_collection_are_none() {
    let store = shot_store();
    assert_eq!(store.find_package_collection_tools("9.9", "no/such/uri"), None);
    assert_eq!(store.find_package_collection_tools("1.0", "shots/010"), Some(vec!["maya".to_string()]));
}

#[test]
fn distinct_stage_names_drop_repeats() {
    let mut store = StageStore::new();
    assert!(store.find_distinct_stage_names().is_empty());
    store.insert_stage(stage("A", "u", "1.0"));
    store.insert_stage(stage("B", "u", "1.0"));
    store.insert_stage(stage("A", "v", "1.0"));
    assert_eq!(store.find_distinct_stage_names(), vec!["A".to_string(), "B".to_string()]);
}

#[test]
fn history_has_every_saved_version() {
    let mut store = shot_store();
    store.save_stage(stage("prod", "shots/010", "1.0"), Ok("a".to_string())).unwrap();
    store.save_stage(stage("prod", "shots/010", "2.0"), Ok("b".to_string())).unwrap();
    store.save_stage(stage("lookdev", "shots/010", "2.0"), Ok("x".to_string())).unwrap();
    store.save_stage(stage("prod", "shots/010", "1.0"), Ok("c".to_string())).unwrap();

    let history = store.find_stage_history("prod", "shots/010");

    assert_eq!(history.len(), 3);
    assert!(history.iter().all(|s| s.name == "prod" && s.uri == "shots/010"));
    let snapshots: Vec<&str> = history.iter().map(|s| s.rxt.as_str()).collect();
    assert_eq!(snapshots, vec!["a", "b", "c"]);
    let flags: Vec<bool> = history.iter().map(|s| s.active).collect();
    assert_eq!(flags, vec![false, false, true]);
}

#[test]
fn revert_to_unknown_id_writes_nothing() {
    let mut store = shot_store();
    store.save_stage(stage("prod", "shots/010", "1.0"), Ok("a".to_string())).unwrap();
    let before = store.find_stages_by_uri("shots/010", None);

    let result = store.revert_stage("ffffffffffffffffffffffff");

    assert_eq!(result, Err(RevertError::NotFound));
    assert_eq!(store.find_stages_by_uri("shots/010", None), before);
}

#[test]
fn revert_with_malformed_id_is_refused() {
    let mut store = shot_store();
    store.save_stage(stage("prod", "shots/010", "1.0"), Ok("a".to_string())).unwrap();
    let before = store.find_stages_by_uri("shots/010", None);

    let result = store.revert_stage("not-an-id");

    assert!(matches!(result, Err(RevertError::InvalidId(_))));
    assert_eq!(store.find_stages_by_uri("shots/010", None), before);
}

#[test]
fn loaded_snapshot_is_the_saved_one() {
    let mut store = shot_store();
    let blob = "# resolved context\nmaya-2024 arnold-5\n\u{e9}t\u{e9}".to_string();
    store.save_stage(stage("prod", "shots/010", "1.0"), Ok(blob.clone())).unwrap();
    let id = store.find_stage_history("prod", "shots/010")[0].id.unwrap();

    assert_eq!(store.load_stage_by_id(&id_text(&id)), Ok(blob.clone()));
    assert_eq!(store.load_snapshot(&id), Ok(blob));
}

#[test]
fn load_errors() {
    let mut store = shot_store();
    store.save_stage(stage("prod", "shots/010", "1.0"), Ok(String::new())).unwrap();
    let id = store.find_stage_history("prod", "shots/010")[0].id.unwrap();

    assert_eq!(store.load_snapshot(&id), Err(LoadError::EmptySnapshot));
    assert_eq!(store.load_stage_by_id("ffffffffffffffffffffffff"), Err(LoadError::NotFound));
    assert!(matches!(store.load_stage_by_id("12345"), Err(LoadError::InvalidId(_))));
}

#[test]
fn snapshot_to_load_outcomes() {
    let mut s = stage("prod", "u", "1.0");
    assert_eq!(snapshot_to_load(Err("down".to_string())), Err(LoadError::Storage("down".to_string())));
    assert_eq!(snapshot_to_load(Ok(None)), Err(LoadError::NotFound));
    assert_eq!(snapshot_to_load(Ok(Some(s.clone()))), Err(LoadError::EmptySnapshot));
    s.rxt = "ctx".to_string();
    assert_eq!(snapshot_to_load(Ok(Some(s))), Ok("ctx".to_string()));
}

#[test]
fn prod_stage_scenario() {
    let mut store = shot_store();

    assert_eq!(store.save_stage(stage("prod", "shots/010", "1.0"), Ok("snapshot 1".to_string())), Ok(()));
    let active = store.find_stages_by_uri("shots/010", Some(true));
    assert_eq!(active.len(), 1);
    assert_eq!(active[0].name, "prod");
    assert_eq!(active[0].from_version, "1.0");

    assert_eq!(store.save_stage(stage("prod", "shots/010", "2.0"), Ok("snapshot 2".to_string())), Ok(()));
    let history = store.find_stage_history("prod", "shots/010");
    assert_eq!(history.len(), 2);
    assert_eq!(history[0].from_version, "1.0");
    assert!(!history[0].active);
    assert_eq!(history[1].from_version, "2.0");
    assert!(history[1].active);
    let active = store.find_stages_by_uri("shots/010", Some(true));
    assert_eq!(active.len(), 1);
    assert_eq!(active[0].from_version, "2.0");
}

#[test]
fn save_session_steps_in_order() {
    let mut st = stage("prod", "shots/010", "2.0");
    st.active = false;
    let (mut session, first) = SaveSession::start(st.clone());
    assert_eq!(first, SaveAction::FindCollections { uri: "shots/010".to_string() });

    let found = vec![collection("1.0", "shots/010", &["a"]), collection("2.0", "shots/010", &["b", "c"])];
    let next = session.on_collections(Ok(found));
    assert_eq!(next, SaveAction::GenerateSnapshot { packages: vec!["b".to_string(), "c".to_string()] });

    let next = session.on_snapshot(Ok("ctx".to_string()));
    assert_eq!(next, SaveAction::DeactivateStages { name: "prod".to_string(), uri: "shots/010".to_string() });

    let next = session.on_written(Ok(()));
    let mut expected = st;
    expected.rxt = "ctx".to_string();
    expected.active = true;
    assert_eq!(next, SaveAction::InsertStage { stage: expected });

    assert_eq!(session.on_written(Ok(())), SaveAction::Done);
}

#[test]
fn save_session_surfaces_write_failure() {
    let (mut session, _) = SaveSession::start(stage("prod", "u", "1.0"));
    session.on_collections(Ok(vec![collection("1.0", "u", &["a"])]));
    session.on_snapshot(Ok("ctx".to_string()));
    assert_eq!(session.on_written(Err("write refused".to_string())), SaveAction::Failed(SaveError::Storage("write refused".to_string())));
}

#[test]
fn revert_session_steps_in_order() {
    let id = StageId::from_counter(7);
    let (mut session, first) = RevertSession::start(id);
    assert_eq!(first, RevertAction::FindStage { id });

    let mut target = stage("prod", "shots/010", "1.0");
    target.id = Some(id);
    let next = session.on_stage(Ok(Some(target)));
    assert_eq!(next, RevertAction::DeactivateStages { name: "prod".to_string(), uri: "shots/010".to_string() });
    assert_eq!(session.on_written(Ok(())), RevertAction::ActivateStage { id });
    assert_eq!(session.on_written(Ok(())), RevertAction::Done);
}

#[test]
fn revert_session_failures() {
    let (mut session, _) = RevertSession::start(StageId::from_counter(1));
    assert_eq!(session.on_stage(Ok(None)), RevertAction::Failed(RevertError::NotFound));
    let (mut session, _) = RevertSession::start(StageId::from_counter(1));
    assert_eq!(session.on_stage(Err("down".to_string())), RevertAction::Failed(RevertError::Storage("down".to_string())));
}

#[test]
fn inserted_stages_get_distinct_ids() {
    let mut store = StageStore::new();
    let a = store.insert_stage(stage("A", "u", "1.0"));
    let b = store.insert_stage(stage("A", "u", "1.0"));
    assert!(!a.same_as(&b));
    assert_eq!(a.bytes, [0, 0, 0, 0, 0, 0, 0, 0, 0, 0, 0, 0]);
    assert_eq!(b.bytes, [0, 0, 0, 0, 0, 0, 0, 0, 0, 0, 0, 1]);
    assert_eq!(StageId::from_counter(0x0102030405060708).bytes, [0, 0, 0, 0, 1, 2, 3, 4, 5, 6, 7, 8]);
}

#[test]
fn update_by_id_touches_one_record() {
    let mut store = StageStore::new();
    let a = store.insert_stage(stage("A", "u", "1.0"));
    store.insert_stage(stage("A", "u", "1.0"));
    store.update_stage_active_status_by_id(&a, true);
    let flags: Vec<bool> = store.find_stage_history("A", "u").iter().map(|s| s.active).collect();
    assert_eq!(flags, vec![true, false]);
    store.update_stages_active_status("A", "u", true);
    assert_eq!(active_count(&store, "A", "u"), 2);
    assert_eq!(store.find_stage_by_id(&a).map(|s| s.id), Some(Some(a)));
    assert_eq!(store.find_stage_by_id(&StageId::from_counter(9)), None);
}

#[test]
fn saves_and_reverts_keep_one_active_per_group() {
    let mut store = shot_store();
    store.save_stage(stage("prod", "shots/010", "1.0"), Ok("p1".to_string())).unwrap();
    store.save_stage(stage("dev", "shots/010", "1.0"), Ok("d1".to_string())).unwrap();
    store.save_stage(stage("prod", "shots/010", "2.0"), Ok("p2".to_string())).unwrap();
    store.save_stage(stage("dev", "shots/010", "2.0"), Ok("d2".to_string())).unwrap();
    let first_prod = store.find_stage_history("prod", "shots/010")[0].id.unwrap();
    store.revert_stage(&id_text(&first_prod)).unwrap();

    let active = store.find_stages_by_uri("shots/010", Some(true));
    let mut groups: Vec<&str> = active.iter().map(|s| s.name.as_str()).collect();
    groups.sort();
    assert_eq!(groups, vec!["dev", "prod"]);
    let prod = active.iter().find(|s| s.name == "prod").unwrap();
    assert_eq!(prod.rxt, "p1");
    let dev = active.iter().find(|s| s.name == "dev").unwrap();
    assert_eq!(dev.rxt, "d2");
}
