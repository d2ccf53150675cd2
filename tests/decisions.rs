use opfacade::{
    add_to_chunk, batch_outcome, check_outcome, collect_step, normalize_all, read_step,
    stat_outcome, removal_requests, TreeAction, TreeRemoval, CollectStep, DeleteRequest, Entry, ReadStep,
    check_stat_conditions, check_transfer_paths, delete_outcome, exists_from_stat,
    first_failure, plan_batches, remove_all_step, resolve_range, BytesRange, Capability, Error,
    ErrorKind, Metadata, EntryMode, Metakey, MetakeySet, OpStat, RemoveAllStep,
    DEFAULT_BATCH_LIMIT,
};

fn strings(v: &[&str]) -> Vec<String> {
    v.iter().map(|s| s.to_string()).collect()
}

#[test]
fn batches_cover_paths_in_order() {
    let paths = strings(&["a", "b", "c", "d", "e"]);
    let chunks = plan_batches(&paths, 2);
    assert_eq!(chunks.len(), 3);
    assert_eq!(chunks[0], strings(&["a", "b"]));
    assert_eq!(chunks[1], strings(&["c", "d"]));
    assert_eq!(chunks[2], strings(&["e"]));
}

#[test]
fn batches_exact_multiple_and_empty() {
    let paths = strings(&["a", "b", "c", "d"]);
    assert_eq!(plan_batches(&paths, 2).len(), 2);
    assert_eq!(plan_batches(&paths, 4).len(), 1);
    assert_eq!(plan_batches(&paths, 1000).len(), 1);
    assert!(plan_batches(&Vec::new(), 3).is_empty());
}

#[test]
fn batches_count_is_ceiling() {
    for n in 0..30usize {
        for l in 1..8usize {
            let paths: Vec<String> = (0..n).map(|i| format!("p{}", i)).collect();
            let chunks = plan_batches(&paths, l);
            assert_eq!(chunks.len(), (n + l - 1) / l);
            assert!(chunks.iter().all(|c| !c.is_empty() && c.len() <= l));
            let flat: Vec<String> = chunks.concat();
            assert_eq!(flat, paths);
        }
    }
}

#[test]
fn missing_path_delete_is_success() {
    assert!(delete_outcome(Err(Error::new(ErrorKind::NotFound, "gone"))).is_ok());
    let e = delete_outcome(Err(Error::new(ErrorKind::PermissionDenied, "no"))).unwrap_err();
    assert_eq!(e.kind(), ErrorKind::PermissionDenied);
}

#[test]
fn first_failure_reports_first_failing_item() {
    let results = vec![
        ("a".to_string(), Ok(())),
        ("b".to_string(), Err(Error::new(ErrorKind::NotFound, "gone"))),
        ("c".to_string(), Err(Error::new(ErrorKind::PermissionDenied, "first"))),
        ("d".to_string(), Err(Error::new(ErrorKind::Unexpected, "second"))),
    ];
    let e = first_failure(results).unwrap_err();
    assert_eq!(e.kind(), ErrorKind::PermissionDenied);
    assert_eq!(e.message(), "first");
    assert!(first_failure(vec![("a".to_string(), Ok(()))]).is_ok());
    assert!(first_failure(Vec::new()).is_ok());
}

#[test]
fn stat_condition_if_match_mismatch() {
    let meta = Metadata::new(EntryMode::File).with_etag("etag-B");
    let args = OpStat::new().with_if_match("etag-A");
    let e = check_stat_conditions(&args, meta.clone()).unwrap_err();
    assert_eq!(e.kind(), ErrorKind::ConditionNotMatch);
    let ok = check_stat_conditions(&OpStat::new().with_if_match("etag-B"), meta.clone());
    assert_eq!(ok.unwrap().etag.as_deref(), Some("etag-B"));
    assert!(check_stat_conditions(&OpStat::new().with_if_match("*"), meta).is_ok());
}

#[test]
fn stat_condition_if_none_match() {
    let meta = Metadata::new(EntryMode::File).with_etag("etag-B");
    let e = check_stat_conditions(&OpStat::new().with_if_none_match("etag-B"), meta.clone());
    assert_eq!(e.unwrap_err().kind(), ErrorKind::ConditionNotMatch);
    let e = check_stat_conditions(&OpStat::new().with_if_none_match("*"), meta.clone());
    assert_eq!(e.unwrap_err().kind(), ErrorKind::ConditionNotMatch);
    assert!(check_stat_conditions(&OpStat::new().with_if_none_match("etag-A"), meta).is_ok());
}

#[test]
fn stat_condition_unknown_etag_passes() {
    let meta = Metadata::new(EntryMode::File);
    assert!(check_stat_conditions(&OpStat::new().with_if_match("etag-A"), meta).is_ok());
}

#[test]
fn complete_range_values() {
    assert_eq!(BytesRange::full().complete(10), BytesRange::new(Some(0), Some(10)));
    assert_eq!(BytesRange::new(Some(3), None).complete(10), BytesRange::new(Some(3), Some(7)));
    assert_eq!(BytesRange::new(Some(12), None).complete(10), BytesRange::new(Some(12), Some(0)));
    assert_eq!(BytesRange::new(None, Some(4)).complete(10), BytesRange::new(Some(6), Some(4)));
    assert_eq!(BytesRange::new(None, Some(40)).complete(10), BytesRange::new(Some(0), Some(10)));
    assert_eq!(BytesRange::new(Some(1), Some(2)).complete(10), BytesRange::new(Some(1), Some(2)));
}

#[test]
fn resolve_range_needs_length() {
    let meta = Metadata::new(EntryMode::File).with_content_length(8);
    assert_eq!(resolve_range(BytesRange::full(), &meta).unwrap(), BytesRange::new(Some(0), Some(8)));
    let e = resolve_range(BytesRange::full(), &Metadata::new(EntryMode::File)).unwrap_err();
    assert_eq!(e.kind(), ErrorKind::Unexpected);
}

#[test]
fn transfer_paths_checks() {
    let e = check_transfer_paths("copy", "memory", "x", "x").unwrap_err();
    assert_eq!(e.kind(), ErrorKind::IsSameFile);
    assert_eq!(e.operation(), "copy");
    let e = check_transfer_paths("copy", "memory", "/x", "x").unwrap_err();
    assert_eq!(e.kind(), ErrorKind::IsSameFile);
    let e = check_transfer_paths("copy", "memory", "d/", "x").unwrap_err();
    assert_eq!(e.kind(), ErrorKind::IsADirectory);
    let e = check_transfer_paths("copy", "memory", "x", "d/").unwrap_err();
    assert_eq!(e.kind(), ErrorKind::IsADirectory);
    let (f, t) = check_transfer_paths("copy", "memory", "//a//b", "c").unwrap();
    assert_eq!((f.as_str(), t.as_str()), ("a/b", "c"));
}

#[test]
fn remove_all_steps() {
    let missing = remove_all_step(Err(Error::new(ErrorKind::NotFound, "gone")));
    assert_eq!(missing.unwrap(), RemoveAllStep::Done);
    let e = remove_all_step(Err(Error::new(ErrorKind::PermissionDenied, "no"))).unwrap_err();
    assert_eq!(e.kind(), ErrorKind::PermissionDenied);
    assert_eq!(remove_all_step(Ok(Metadata::new(EntryMode::Dir))).unwrap(), RemoveAllStep::DeleteTree);
    assert_eq!(remove_all_step(Ok(Metadata::new(EntryMode::File))).unwrap(), RemoveAllStep::DeleteFile);
}

#[test]
fn exists_from_stat_results() {
    assert!(exists_from_stat(Ok(Metadata::new(EntryMode::File))).unwrap());
    assert!(!exists_from_stat(Err(Error::new(ErrorKind::NotFound, "gone"))).unwrap());
    assert!(exists_from_stat(Err(Error::new(ErrorKind::Unexpected, "x"))).is_err());
}

#[test]
fn metakey_sets() {
    let s = MetakeySet::empty();
    assert!(!s.contains(Metakey::Mode));
    let s = s.with(Metakey::Mode).with(Metakey::Etag);
    assert!(s.contains(Metakey::Mode));
    assert!(s.contains(Metakey::Etag));
    assert!(!s.contains(Metakey::ContentLength));
    assert_eq!(MetakeySet::of(Metakey::Version), MetakeySet::empty().with(Metakey::Version));
}

#[test]
fn initial_limit_from_capability() {
    let mut cap = Capability::new();
    assert_eq!(cap.initial_limit(), DEFAULT_BATCH_LIMIT);
    assert_eq!(DEFAULT_BATCH_LIMIT, 1000);
    cap.batch_max_operations = Some(50);
    assert_eq!(cap.initial_limit(), 50);
    cap.batch_max_operations = Some(0);
    assert_eq!(cap.initial_limit(), 1000);
}

#[test]
fn error_context_is_recorded() {
    let e = Error::new(ErrorKind::IsADirectory, "m").with_operation("op").with_context("path", "p");
    assert_eq!(e.kind(), ErrorKind::IsADirectory);
    assert_eq!(e.operation(), "op");
    assert_eq!(e.context, vec![("path".to_string(), "p".to_string())]);
}

#[test]
fn normalize_all_keeps_order() {
    let out = normalize_all(&strings(&["//a", "b//c/", ""]));
    assert_eq!(out, strings(&["a", "b/c/", "/"]));
    assert_eq!(normalize_all(&out), out);
}

#[test]
fn batch_outcome_cases() {
    let e = batch_outcome(Err(Error::new(ErrorKind::PermissionDenied, "request"))).unwrap_err();
    assert_eq!(e.message(), "request");
    let items = vec![
        ("a".to_string(), Err(Error::new(ErrorKind::NotFound, "gone"))),
        ("b".to_string(), Err(Error::new(ErrorKind::Unexpected, "item"))),
    ];
    assert_eq!(batch_outcome(Ok(items)).unwrap_err().message(), "item");
    assert!(batch_outcome(Ok(vec![("a".to_string(), Ok(()))])).is_ok());
}

#[test]
fn chunk_fills_then_empties() {
    let (c, full) = add_to_chunk(Vec::new(), "a".to_string(), 2);
    assert_eq!(c, strings(&["a"]));
    assert!(full.is_none());
    let (c, full) = add_to_chunk(c, "b".to_string(), 2);
    assert!(c.is_empty());
    assert_eq!(full.unwrap(), strings(&["a", "b"]));
    let (c, full) = add_to_chunk(Vec::new(), "z".to_string(), 1);
    assert!(c.is_empty());
    assert_eq!(full.unwrap(), strings(&["z"]));
}

#[test]
fn read_steps() {
    match read_step(vec![1, 2], vec![3], 4) {
        ReadStep::More(b) => assert_eq!(b, vec![1, 2, 3]),
        ReadStep::Finished(_) => panic!("expected more"),
    }
    match read_step(vec![1, 2], vec![3, 4, 5], 4) {
        ReadStep::Finished(r) => assert_eq!(r.unwrap_err().kind(), ErrorKind::ContentIncomplete),
        ReadStep::More(_) => panic!("expected an error"),
    }
    match read_step(vec![1, 2], Vec::new(), 4) {
        ReadStep::Finished(r) => assert_eq!(r.unwrap_err().kind(), ErrorKind::ContentIncomplete),
        ReadStep::More(_) => panic!("expected an error"),
    }
    match read_step(vec![1, 2], Vec::new(), 2) {
        ReadStep::Finished(r) => assert_eq!(r.unwrap(), vec![1, 2]),
        ReadStep::More(_) => panic!("expected the end"),
    }
}

#[test]
fn collect_steps() {
    let e = Entry::new("a", Metadata::new(EntryMode::File));
    match collect_step(Vec::new(), Ok(Some(e))) {
        CollectStep::More(v) => assert_eq!(v[0].path(), "a"),
        CollectStep::Finished(_) => panic!("expected more"),
    }
    match collect_step(Vec::new(), Ok(None)) {
        CollectStep::Finished(r) => assert!(r.unwrap().is_empty()),
        CollectStep::More(_) => panic!("expected the end"),
    }
    match collect_step(Vec::new(), Err(Error::new(ErrorKind::Unexpected, "x"))) {
        CollectStep::Finished(r) => assert!(r.is_err()),
        CollectStep::More(_) => panic!("expected the end"),
    }
}

#[test]
fn check_outcomes() {
    assert!(check_outcome(Ok(None)).is_ok());
    assert!(check_outcome(Err(Error::new(ErrorKind::NotFound, "x"))).is_ok());
    let e = check_outcome(Err(Error::new(ErrorKind::PermissionDenied, "x"))).unwrap_err();
    assert_eq!(e.kind(), ErrorKind::PermissionDenied);
}

#[test]
fn stat_outcome_passes_not_found() {
    let args = OpStat::new().with_if_match("etag-A");
    let e = stat_outcome(&args, Err(Error::new(ErrorKind::NotFound, "gone"))).unwrap_err();
    assert_eq!(e.kind(), ErrorKind::NotFound);
    let meta = Metadata::new(EntryMode::File).with_etag("etag-B");
    let e = stat_outcome(&args, Ok(meta)).unwrap_err();
    assert_eq!(e.kind(), ErrorKind::ConditionNotMatch);
}

fn describe(r: &[DeleteRequest]) -> Vec<String> {
    r.iter()
        .map(|q| match q {
            DeleteRequest::Batch(b) => format!("batch {}", b.join(",")),
            DeleteRequest::Single(p) => format!("single {}", p),
        })
        .collect()
}

#[test]
fn removal_requests_batch_and_single() {
    let paths = strings(&["//a", "b", "c//d", "e"]);
    let batched = removal_requests(&paths, true, 3);
    assert_eq!(describe(&batched), vec!["batch a,b,c/d".to_string(), "batch e".to_string()]);
    let single = removal_requests(&paths, false, 3);
    assert_eq!(
        describe(&single),
        vec!["single a".to_string(), "single b".to_string(), "single c/d".to_string(), "single e".to_string()]
    );
    let pre = normalize_all(&paths);
    assert_eq!(describe(&removal_requests(&pre, true, 3)), describe(&batched));
    assert!(removal_requests(&Vec::new(), true, 3).is_empty());
}

fn entry(p: &str) -> Result<Option<Entry>, Error> {
    Ok(Some(Entry::new(p, Metadata::new(EntryMode::File))))
}

#[test]
fn tree_steps_batch_then_finish() {
    let t = TreeRemoval::new(true, 2, "d/");
    let (t, a) = t.step(entry("d//a")).unwrap();
    assert!(matches!(a, TreeAction::Fetch));
    let (t, a) = t.step(entry("d/b")).unwrap();
    match a {
        TreeAction::DeleteBatch(b) => assert_eq!(b, strings(&["d/a", "d/b"])),
        _ => panic!("expected a batch"),
    }
    let (t, a) = t.step(entry("d/c")).unwrap();
    assert!(matches!(a, TreeAction::Fetch));
    let (_, a) = t.step(Ok(None)).unwrap();
    match a {
        TreeAction::Finish(Some(b)) => assert_eq!(b, strings(&["d/c"])),
        _ => panic!("expected the end with one pending path"),
    }
}

#[test]
fn tree_steps_single_and_errors() {
    let t = TreeRemoval::new(false, 5, "d/");
    let (t, a) = t.step(entry("/x")).unwrap();
    match a {
        TreeAction::DeleteOne(p) => assert_eq!(p, "x"),
        _ => panic!("expected a single delete"),
    }
    let (t2, a) = t.step(Ok(None)).unwrap();
    assert!(matches!(a, TreeAction::Finish(None)));
    let e = t2.step(Err(Error::new(ErrorKind::PermissionDenied, "no"))).err().unwrap();
    assert_eq!(e.kind(), ErrorKind::PermissionDenied);
}
