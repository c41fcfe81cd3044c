use s3_concat::engine::{Engine, Phase, Step};
use s3_concat::error::ErrorKind;
use s3_concat::pattern::{judge, Pattern, Resolution};
use s3_concat::session::{SessionState, SourceObject, UploadSession, MIN_PART_SIZE};

const SIX_MB: u64 = 6_000_000;

fn dated() -> Pattern {
    Pattern::new(r"logs/(\d{4}-\d{2}-\d{2})\.part\d+", "logs/$1.merged").unwrap()
}

fn object(key: &str, size: u64) -> SourceObject {
    SourceObject { key: key.to_string(), size }
}

/// Feeds one object to the engine and answers every request with success.
/// Returns the part number that was copied, if any.
fn feed(engine: &mut Engine, pattern: &Pattern, key: &str, size: u64, id: &str) -> Option<u64> {
    assert_eq!(engine.phase, Phase::Discovering);
    match engine.offer(pattern, object(key, size)) {
        Step::Create { key: k, target: _ } => {
            assert_eq!(k, key);
            let copy = engine.created(id.to_string());
            assert_eq!(copy.source_key, key);
            assert_eq!(copy.upload_id, id);
            engine.copied();
            Some(copy.part_number)
        }
        Step::Copy(copy) => {
            assert_eq!(copy.source_key, key);
            engine.copied();
            Some(copy.part_number)
        }
        Step::Skip | Step::Report { .. } => None,
        Step::Fatal { error, .. } => panic!("unexpected failure: {}", error.message()),
    }
}

#[test]
fn pattern_resolves_capture_groups() {
    let p = dated();
    assert!(p.is_match("logs/2024-01-01.part1"));
    assert!(!p.is_match("data/2024-01-01.part1"));
    assert_eq!(p.target_for("logs/2024-01-01.part1"), "logs/2024-01-01.merged");
    match p.resolve("logs/2024-01-02.part7") {
        Resolution::Target(t) => assert_eq!(t, "logs/2024-01-02.merged"),
        other => panic!("unexpected resolution: {:?}", other),
    }
    assert!(matches!(p.resolve("other/file"), Resolution::NoMatch));
}

#[test]
fn invalid_pattern_is_a_configuration_error() {
    match Pattern::new("logs/(", "x") {
        Err(e) => {
            assert_eq!(e.kind(), ErrorKind::Configuration);
            assert!(!e.message().is_empty());
        }
        Ok(_) => panic!("the pattern should not compile"),
    }
}

#[test]
fn self_target_is_skipped() {
    let p = Pattern::new(r"(.*)\.log", "$1.log").unwrap();
    assert!(matches!(p.resolve("a/b.log"), Resolution::SelfTarget));
    let mut engine = Engine::new(false, true);
    assert!(matches!(engine.offer(&p, object("a/b.log", SIX_MB)), Step::Skip));
    assert_eq!(engine.sessions.len(), 0);
    assert_eq!(engine.phase, Phase::Discovering);
    assert!(matches!(engine.accept("k".to_string(), "k".to_string()), Step::Skip));
    assert_eq!(engine.sessions.len(), 0);
}

#[test]
fn judge_tells_self_target_from_target() {
    assert!(matches!(judge("same".to_string(), "same"), Resolution::SelfTarget));
    match judge("other".to_string(), "same") {
        Resolution::Target(t) => assert_eq!(t, "other"),
        other => panic!("unexpected resolution: {:?}", other),
    }
}

#[test]
fn non_matching_key_is_skipped_whatever_its_size() {
    let p = dated();
    let mut engine = Engine::new(false, false);
    assert!(matches!(engine.offer(&p, object("README", 10)), Step::Skip));
    assert_eq!(engine.phase, Phase::Discovering);
    assert_eq!(engine.sessions.len(), 0);
}

#[test]
fn part_numbers_follow_discovery_order() {
    let p = Pattern::new(r"in/.*", "out").unwrap();
    let mut engine = Engine::new(false, false);
    let keys = ["in/c", "in/a", "in/b", "in/z", "in/y"];
    for (i, key) in keys.iter().enumerate() {
        assert_eq!(feed(&mut engine, &p, key, SIX_MB, "u1"), Some(i as u64 + 1));
    }
    assert_eq!(engine.sessions.len(), 1);
    assert_eq!(engine.sessions[0].source_keys, keys);
    assert_eq!(engine.sessions[0].target_key, "out");
    assert_eq!(engine.sessions[0].upload_id, Some("u1".to_string()));
}

#[test]
fn two_dated_groups_are_merged_and_cleaned_up() {
    let p = dated();
    let mut engine = Engine::new(false, true);
    assert_eq!(feed(&mut engine, &p, "logs/2024-01-01.part1", SIX_MB, "A"), Some(1));
    assert_eq!(feed(&mut engine, &p, "logs/2024-01-01.part2", SIX_MB, "A"), Some(2));
    assert_eq!(feed(&mut engine, &p, "logs/2024-01-02.part1", SIX_MB, "B"), Some(1));

    assert_eq!(engine.sessions.len(), 2);
    assert_eq!(engine.sessions[0].target_key, "logs/2024-01-01.merged");
    assert_eq!(
        engine.sessions[0].source_keys,
        ["logs/2024-01-01.part1", "logs/2024-01-01.part2"]
    );
    assert_eq!(engine.sessions[1].target_key, "logs/2024-01-02.merged");
    assert_eq!(engine.sessions[1].source_keys, ["logs/2024-01-02.part1"]);

    let refs = engine.finish_discovery();
    assert_eq!(engine.phase, Phase::Finalizing);
    assert_eq!(refs.len(), 2);
    assert_eq!(refs[0].session, 0);
    assert_eq!(refs[0].upload_id, "A");
    assert_eq!(refs[0].target_key, "logs/2024-01-01.merged");
    assert_eq!(refs[1].session, 1);
    assert_eq!(refs[1].upload_id, "B");
    assert!(engine.sessions.iter().all(|s| s.state == SessionState::Completing));
    assert!(engine.cleanup_keys().is_empty());

    engine.completed(0);
    assert_eq!(
        engine.cleanup_keys(),
        ["logs/2024-01-01.part1", "logs/2024-01-01.part2"]
    );
    engine.completed(1);
    assert!(engine.sessions.iter().all(|s| s.state == SessionState::Completed));
    assert_eq!(
        engine.cleanup_keys(),
        ["logs/2024-01-01.part1", "logs/2024-01-01.part2", "logs/2024-01-02.part1"]
    );
}

#[test]
fn cleanup_disabled_deletes_nothing() {
    let p = dated();
    let mut engine = Engine::new(false, false);
    feed(&mut engine, &p, "logs/2024-01-01.part1", SIX_MB, "A");
    engine.finish_discovery();
    engine.completed(0);
    assert_eq!(engine.sessions[0].state, SessionState::Completed);
    assert!(engine.cleanup_keys().is_empty());
}

#[test]
fn small_source_fails_the_run_before_any_upload() {
    let p = dated();
    let mut engine = Engine::new(false, true);
    match engine.offer(&p, object("logs/2024-01-01.part1", 4_000_000)) {
        Step::Fatal { error, aborts } => {
            assert_eq!(error.kind(), ErrorKind::SizeConstraint);
            assert_eq!(
                error.message(),
                "Unable to concat files below 5MB: logs/2024-01-01.part1"
            );
            assert!(aborts.is_empty());
        }
        other => panic!("unexpected step: {:?}", other),
    }
    assert_eq!(engine.phase, Phase::Failed);
    assert_eq!(engine.sessions.len(), 0);
    assert!(engine.cleanup_keys().is_empty());
}

#[test]
fn minimum_size_is_inclusive() {
    assert_eq!(MIN_PART_SIZE, 5_000_000);
    let p = dated();
    let mut engine = Engine::new(false, false);
    assert!(matches!(
        engine.offer(&p, object("logs/2024-01-01.part1", 5_000_000)),
        Step::Create { .. }
    ));
    let mut engine = Engine::new(false, false);
    assert!(matches!(
        engine.offer(&p, object("logs/2024-01-01.part1", 4_999_999)),
        Step::Fatal { .. }
    ));
}

#[test]
fn small_self_target_still_fails_the_run() {
    let p = Pattern::new(r"(.*)\.log", "$1.log").unwrap();
    let mut engine = Engine::new(false, false);
    assert!(matches!(engine.offer(&p, object("a.log", 1)), Step::Fatal { .. }));
}

#[test]
fn small_source_aborts_the_uploads_already_open() {
    let p = dated();
    let mut engine = Engine::new(false, true);
    feed(&mut engine, &p, "logs/2024-01-01.part1", SIX_MB, "A");
    feed(&mut engine, &p, "logs/2024-01-02.part1", SIX_MB, "B");
    match engine.offer(&p, object("logs/2024-01-03.part1", 4_000_000)) {
        Step::Fatal { error, aborts } => {
            assert_eq!(error.kind(), ErrorKind::SizeConstraint);
            assert_eq!(aborts.len(), 2);
            assert_eq!(aborts[0].upload_id, "A");
            assert_eq!(aborts[0].target_key, "logs/2024-01-01.merged");
            assert_eq!(aborts[1].upload_id, "B");
        }
        other => panic!("unexpected step: {:?}", other),
    }
    assert!(engine.sessions.iter().all(|s| s.state == SessionState::Aborted));
    assert!(engine.cleanup_keys().is_empty());
}

#[test]
fn dry_run_reports_and_changes_nothing() {
    let p = dated();
    let mut dry = Engine::new(true, true);
    let mut live = Engine::new(false, true);
    let keys = ["logs/2024-01-01.part1", "logs/2024-01-01.part2", "logs/2024-01-02.part1"];
    for key in keys.iter() {
        let reported = match dry.offer(&p, object(key, SIX_MB)) {
            Step::Report { key, target } => (key, target),
            other => panic!("unexpected step: {:?}", other),
        };
        let announced = match live.offer(&p, object(key, SIX_MB)) {
            Step::Create { key, target } => {
                live.created("id".to_string());
                live.copied();
                (key, target)
            }
            Step::Copy(c) => {
                live.copied();
                (c.source_key, c.target_key)
            }
            other => panic!("unexpected step: {:?}", other),
        };
        assert_eq!(reported, announced);
        assert_eq!(dry.phase, Phase::Discovering);
        assert_eq!(dry.sessions.len(), 0);
    }
    assert!(dry.finish_discovery().is_empty());
    assert!(dry.cleanup_keys().is_empty());
    let mut dry = Engine::new(true, true);
    assert!(dry.fail().is_empty());
}

#[test]
fn failed_copy_aborts_every_open_session() {
    let p = dated();
    let mut engine = Engine::new(false, true);
    feed(&mut engine, &p, "logs/2024-01-01.part1", SIX_MB, "A");
    feed(&mut engine, &p, "logs/2024-01-02.part1", SIX_MB, "B");
    match engine.offer(&p, object("logs/2024-01-01.part2", SIX_MB)) {
        Step::Copy(c) => {
            assert_eq!(c.part_number, 2);
            assert_eq!(c.upload_id, "A");
            assert_eq!(c.source_ref("bucket"), "bucket/logs/2024-01-01.part2");
        }
        other => panic!("unexpected step: {:?}", other),
    }
    assert_eq!(engine.phase, Phase::AwaitingCopy);
    let aborts = engine.fail();
    assert_eq!(aborts.len(), 2);
    assert_eq!(aborts[0].session, 0);
    assert_eq!(aborts[0].upload_id, "A");
    assert_eq!(aborts[1].session, 1);
    assert_eq!(aborts[1].upload_id, "B");
    assert_eq!(engine.phase, Phase::Failed);
    assert!(engine.sessions.iter().all(|s| s.state == SessionState::Aborted));
    assert_eq!(engine.sessions[0].source_keys, ["logs/2024-01-01.part1"]);
    assert!(engine.cleanup_keys().is_empty());
}

#[test]
fn failed_create_aborts_only_what_was_opened() {
    let p = dated();
    let mut engine = Engine::new(false, true);
    feed(&mut engine, &p, "logs/2024-01-01.part1", SIX_MB, "A");
    assert!(matches!(
        engine.offer(&p, object("logs/2024-01-02.part1", SIX_MB)),
        Step::Create { .. }
    ));
    assert_eq!(engine.phase, Phase::AwaitingCreate);
    assert_eq!(engine.sessions[1].state, SessionState::Pending);
    assert_eq!(engine.sessions[1].upload_id, None);
    let aborts = engine.fail();
    assert_eq!(aborts.len(), 1);
    assert_eq!(aborts[0].upload_id, "A");
    assert!(engine.sessions.iter().all(|s| s.state == SessionState::Aborted));
}

#[test]
fn failed_completion_aborts_that_session_only() {
    let p = dated();
    let mut engine = Engine::new(false, true);
    feed(&mut engine, &p, "logs/2024-01-01.part1", SIX_MB, "A");
    feed(&mut engine, &p, "logs/2024-01-01.part2", SIX_MB, "A");
    feed(&mut engine, &p, "logs/2024-01-02.part1", SIX_MB, "B");
    let refs = engine.finish_discovery();
    assert_eq!(refs.len(), 2);
    let abort = engine.finalize_failed(0);
    assert_eq!(abort.session, 0);
    assert_eq!(abort.upload_id, "A");
    assert_eq!(abort.target_key, "logs/2024-01-01.merged");
    engine.completed(1);
    assert_eq!(engine.sessions[0].state, SessionState::Aborted);
    assert_eq!(engine.sessions[1].state, SessionState::Completed);
    assert_eq!(engine.cleanup_keys(), ["logs/2024-01-02.part1"]);
}

#[test]
fn created_opens_the_session_and_copies_part_one() {
    let mut engine = Engine::new(false, false);
    match engine.accept("src/a".to_string(), "dst".to_string()) {
        Step::Create { key, target } => {
            assert_eq!(key, "src/a");
            assert_eq!(target, "dst");
        }
        other => panic!("unexpected step: {:?}", other),
    }
    assert_eq!(engine.sessions[0].state, SessionState::Pending);
    let copy = engine.created("upload-7".to_string());
    assert_eq!(copy.part_number, 1);
    assert_eq!(copy.target_key, "dst");
    assert_eq!(copy.upload_id, "upload-7");
    assert_eq!(copy.source_key, "src/a");
    assert_eq!(copy.source_ref("my-bucket"), "my-bucket/src/a");
    assert_eq!(engine.sessions[0].state, SessionState::Open);
    assert_eq!(engine.phase, Phase::AwaitingCopy);
    assert!(engine.sessions[0].source_keys.is_empty());
    engine.copied();
    assert_eq!(engine.sessions[0].source_keys, ["src/a"]);
    assert_eq!(engine.find(&"dst".to_string()), Some(0));
    assert_eq!(engine.find(&"src/a".to_string()), None);
}

#[test]
fn pending_session_is_empty() {
    let s = UploadSession::pending("t".to_string());
    assert_eq!(s.state, SessionState::Pending);
    assert_eq!(s.target_key, "t");
    assert_eq!(s.upload_id, None);
    assert!(s.source_keys.is_empty());
}

#[test]
fn reject_names_the_key() {
    let mut engine = Engine::new(false, false);
    match engine.reject("tiny") {
        Step::Fatal { error, aborts } => {
            assert_eq!(error.message(), "Unable to concat files below 5MB: tiny");
            assert!(aborts.is_empty());
        }
        other => panic!("unexpected step: {:?}", other),
    }
    assert_eq!(engine.phase, Phase::Failed);
}
