use draw_core::assets::{AssetLoader, Assets, ParseKind, BYTES_TAG};

#[test]
fn tick_on_empty_storage_is_a_noop_success() {
    let mut assets = Assets::new();
    let jobs = assets.tick().expect("tick on empty storage succeeds");
    assert!(jobs.is_empty());
    assert_eq!(assets.storage().slot_count(), 0);
}

#[test]
fn unknown_extension_falls_back_to_byte_loader() {
    let mut assets = Assets::new();
    // no "png" loader is registered: the raw-byte fallback takes the id
    let handle = assets.load_asset("sprites/hero.png").expect("load succeeds");
    assert_eq!(handle.type_tag, BYTES_TAG);
    assert!(!assets.is_done(&handle));

    assets.complete_fetch("sprites/hero.png".to_string(), vec![1, 2, 3, 4]);
    let jobs = assets.tick().expect("tick succeeds");
    assert!(jobs.is_empty());

    assert!(assets.is_done(&handle));
    let bytes = assets
        .storage()
        .bytes_of("sprites/hero.png")
        .expect("the asset resolved to raw bytes");
    assert_eq!(bytes.as_slice(), &[1, 2, 3, 4]);
}

#[test]
fn loading_twice_shares_one_slot() {
    let mut assets = Assets::new();
    let h1 = assets.load_asset("a.png").expect("first load succeeds");
    let h2 = assets.load_asset("a.png").expect("second load succeeds");
    assert_eq!(assets.storage().slot_count(), 1);
    assert_eq!(h1.type_tag, h2.type_tag);
    assert!(!assets.is_done(&h1));
    assert!(!assets.is_done(&h2));

    assets.complete_fetch("a.png".to_string(), vec![9]);
    assets.tick().expect("tick succeeds");

    // both handles become ready together: they read one shared slot
    assert!(assets.is_done(&h1));
    assert!(assets.is_done(&h2));
}

#[test]
fn registered_byte_loader_keeps_its_own_tag() {
    let mut assets = Assets::new();
    assets.add_loader(AssetLoader {
        extensions: vec!["bin".to_string()],
        type_tag: Some(7),
        kind: ParseKind::Bytes,
    });
    let handle = assets.load_asset("data/blob.bin").expect("load succeeds");
    assert_eq!(handle.type_tag, 7);

    assets.complete_fetch("data/blob.bin".to_string(), vec![5, 6]);
    assets.tick().expect("tick succeeds");
    assert!(assets.is_done(&handle));
    assert_eq!(
        assets.storage().bytes_of("data/blob.bin").unwrap().as_slice(),
        &[5, 6],
    );
}

#[test]
fn external_loader_hands_work_out_and_resolves_on_completion() {
    let mut assets = Assets::new();
    assets.add_loader(AssetLoader {
        extensions: vec!["png".to_string()],
        type_tag: Some(5),
        kind: ParseKind::External,
    });
    let handle = assets.load_asset("tex.png").expect("load succeeds");
    assert_eq!(handle.type_tag, 5);

    assets.complete_fetch("tex.png".to_string(), vec![0xAA, 0xBB]);
    let jobs = assets.tick().expect("tick succeeds");
    assert_eq!(jobs.len(), 1);
    assert_eq!(jobs[0].id, "tex.png");
    assert_eq!(jobs[0].type_tag, 5);
    assert_eq!(jobs[0].bytes.as_slice(), &[0xAA, 0xBB]);
    assert!(!assets.is_done(&handle));

    assets
        .complete_decode("tex.png", 5, Some(42))
        .expect("decode completion succeeds");
    assert!(assets.is_done(&handle));
}

#[test]
fn failed_decode_marks_the_slot_failed() {
    let mut assets = Assets::new();
    assets.add_loader(AssetLoader {
        extensions: vec!["png".to_string()],
        type_tag: Some(5),
        kind: ParseKind::External,
    });
    let handle = assets.load_asset("bad.png").expect("load succeeds");
    assets.complete_fetch("bad.png".to_string(), vec![1]);
    let jobs = assets.tick().expect("tick succeeds");
    assert_eq!(jobs.len(), 1);
    assets
        .complete_decode("bad.png", 5, None)
        .expect("reporting a failure succeeds");
    assert!(!assets.is_done(&handle));
    assert!(assets.storage().bytes_of("bad.png").is_none());
}

#[test]
fn loader_without_output_tag_fails_the_load() {
    let mut assets = Assets::new();
    assets.add_loader(AssetLoader {
        extensions: vec!["raw".to_string()],
        type_tag: None,
        kind: ParseKind::External,
    });
    let err = assets.load_asset("x.raw").unwrap_err();
    assert_eq!(err, "Loader without output type id");
}

#[test]
fn tag_mismatch_aborts_the_tick() {
    let mut assets = Assets::new();
    assets.add_loader(AssetLoader {
        extensions: vec!["bin".to_string()],
        type_tag: Some(7),
        kind: ParseKind::Bytes,
    });
    assets.load_asset("a.bin").expect("load succeeds");
    // re-registering the extension wins: the slot keeps tag 7, the loader now says 9
    assets.add_loader(AssetLoader {
        extensions: vec!["bin".to_string()],
        type_tag: Some(9),
        kind: ParseKind::Bytes,
    });
    assets.complete_fetch("a.bin".to_string(), vec![1]);
    let err = assets.tick().unwrap_err();
    assert_eq!(err, "asset type tag mismatch");
}

#[test]
fn empty_registration_batch_is_swallowed() {
    let mut assets = Assets::new();
    assets.add_loader(AssetLoader { extensions: vec![], type_tag: Some(3), kind: ParseKind::Bytes });
    // the failed registration left no loader behind: ids still fall back to bytes
    let handle = assets.load_asset("thing.xyz").expect("load succeeds");
    assert_eq!(handle.type_tag, BYTES_TAG);
}

#[test]
fn load_list_tracks_all_ids() {
    let mut assets = Assets::new();
    let paths = vec!["a.png".to_string(), "b.png".to_string()];
    let list = assets.load_list(&paths).expect("list load succeeds");
    assert_eq!(list.len(), 2);
    assert!(!list.is_loaded(&assets));

    assets.complete_fetch("a.png".to_string(), vec![1]);
    assets.tick().expect("tick succeeds");
    assert!(!list.is_loaded(&assets));

    assets.complete_fetch("b.png".to_string(), vec![2]);
    assets.tick().expect("tick succeeds");
    assert!(list.is_loaded(&assets));
}

#[test]
fn released_ready_assets_are_cleaned_up() {
    let mut assets = Assets::new();
    let handle = assets.load_asset("tmp.png").expect("load succeeds");
    assets.complete_fetch("tmp.png".to_string(), vec![1]);
    assets.tick().expect("tick succeeds");
    assert_eq!(assets.storage().slot_count(), 1);

    assets.release(&handle);
    // the next tick's periodic cleanup drops the unreferenced ready slot
    assets.tick().expect("tick succeeds");
    assert_eq!(assets.storage().slot_count(), 0);
    assert!(!assets.is_done(&handle));
}

#[test]
fn pending_slots_survive_cleanup() {
    let mut assets = Assets::new();
    let handle = assets.load_asset("keep.png").expect("load succeeds");
    assets.tick().expect("tick succeeds");
    assert_eq!(assets.storage().slot_count(), 1);
    assert!(!assets.is_done(&handle));
}
