//! The audit log, the audit chain and forensic replay.

use cognos_hal::audit_chain;
use cognos_hal::audit_chain::AuditChain;
use cognos_hal::audit_log::{entry_row, initial_hash, seal, table_header, LogLine};
use cognos_hal::clock::Timestamp;
use cognos_hal::forensic_replay::{ForensicReplay, ReplayWindow};
use cognos_hal::score::Score;
use cognos_hal::table::Table;
use cognos_hal::{AuditEntry, AuditFilter, AuditLog};

fn no_filter() -> AuditFilter {
    AuditFilter {
        agent: None,
        action: None,
        since: None,
        intent_id: None,
        hal_level: None,
        target_contains: None,
    }
}

/// The JSON text of an entry under an empty hash.
fn json(e: &AuditEntry) -> String {
    let mut m = serde_json::Map::new();
    m.insert("ts".to_string(), serde_json::Value::from(e.ts.nanos));
    m.insert("agent".to_string(), serde_json::Value::from(e.agent.clone()));
    m.insert("action".to_string(), serde_json::Value::from(e.action.clone()));
    m.insert("outcome".to_string(), serde_json::Value::from(e.outcome.clone()));
    if let Some(t) = &e.target {
        m.insert("target".to_string(), serde_json::Value::from(t.clone()));
    }
    m.insert("chain_hash".to_string(), serde_json::Value::from(""));
    serde_json::Value::Object(m).to_string()
}

fn write(
    log: &mut AuditLog,
    agent: &str,
    action: &str,
    outcome: &str,
    target: Option<&str>,
    hal_score: Option<Score>,
    hal_level: Option<&str>,
    reversible: Option<bool>,
    note: Option<&str>,
) {
    let e = AuditLog::build_entry(
        agent, action, outcome, target, hal_score, hal_level, None, reversible, note, None,
    );
    let text = json(&e);
    log.append(e, &text, 0);
}

fn lines(entries: &[AuditEntry]) -> Vec<LogLine> {
    entries.iter().map(|e| Some((e.clone(), json(e)))).collect()
}

#[test]
fn write_and_read_entry() {
    let mut log = AuditLog::open(None);
    write(
        &mut log,
        "file_agent",
        "open_file",
        "success",
        Some("~/motor.py"),
        Some(Score::from_nanos(120_000_000)),
        Some("silent"),
        Some(true),
        Some("opened at line 47"),
    );
    let entries = AuditLog::query(log.flush(), &no_filter());
    assert_eq!(entries.len(), 1);
    assert_eq!(entries[0].agent, "file_agent");
    assert_eq!(entries[0].action, "open_file");
}

#[test]
fn chain_integrity_passes_on_fresh_log() {
    let mut log = AuditLog::open(None);
    write(&mut log, "memory", "index_file", "success", Some("~/motor.py"), None, None, None, None);
    write(
        &mut log,
        "hal",
        "gate_request",
        "approved",
        Some("install_pkg"),
        Some(Score::from_nanos(650_000_000)),
        Some("notify"),
        Some(false),
        None,
    );
    let result = AuditLog::verify(&lines(&log.flush()));
    assert!(result.valid, "Chain verification failed: {:?}", result.error);
}

#[test]
fn tampered_entry_detected() {
    let mut log = AuditLog::open(None);
    write(
        &mut log,
        "file_agent",
        "delete_file",
        "denied",
        Some("~/motor.py"),
        Some(Score::from_nanos(900_000_000)),
        Some("block"),
        None,
        None,
    );
    let mut entries = log.flush();
    entries[0].outcome = entries[0].outcome.replace("denied", "success");
    let result = AuditLog::verify(&lines(&entries));
    assert!(!result.valid, "Tampered log should fail verification");
    assert_eq!(result.broken_at, Some(1));
    assert_eq!(
        result.error,
        Some("Chain broken at entry 1 (agent=file_agent, action=delete_file)".to_string())
    );
}

#[test]
fn filter_by_agent() {
    let mut log = AuditLog::open(None);
    write(&mut log, "file_agent", "open", "success", None, None, None, None, None);
    write(&mut log, "memory", "index", "success", None, None, None, None, None);
    write(&mut log, "file_agent", "move", "success", None, None, None, None, None);
    let entries = AuditLog::query(
        log.flush(),
        &AuditFilter { agent: Some("file_agent".to_string()), ..no_filter() },
    );
    assert_eq!(entries.len(), 2);
    assert!(entries.iter().all(|e| e.agent == "file_agent"));
}

#[test]
fn wipe_clears_all_entries() {
    let mut log = AuditLog::open(None);
    write(&mut log, "agent", "action", "success", None, None, None, None, None);
    log.wipe();
    let entries = AuditLog::query(log.flush(), &no_filter());
    assert!(entries.is_empty());
    assert_eq!(log.previous_hash, initial_hash());
}

#[test]
fn filters_combine() {
    let now = Timestamp::from_nanos(100);
    let e = AuditLog::build_entry_at(
        now,
        "file",
        "open",
        "success",
        Some("~/a/b"),
        None,
        Some("silent"),
        Some(9),
        None,
        None,
        None,
    );
    let all = AuditFilter {
        agent: Some("file".to_string()),
        action: Some("open".to_string()),
        since: Some(now),
        intent_id: Some(9),
        hal_level: Some("silent".to_string()),
        target_contains: Some("a/b".to_string()),
    };
    assert!(AuditLog::matches_filter(&e, &all));
    let later = AuditFilter { since: Some(Timestamp::from_nanos(101)), ..no_filter() };
    assert!(!AuditLog::matches_filter(&e, &later));
    let other = AuditFilter { intent_id: Some(8), ..no_filter() };
    assert!(!AuditLog::matches_filter(&e, &other));
    let level = AuditFilter { hal_level: Some("block".to_string()), ..no_filter() };
    assert!(!AuditLog::matches_filter(&e, &level));
    let target = AuditFilter { target_contains: Some("c".to_string()), ..no_filter() };
    assert!(!AuditLog::matches_filter(&e, &target));
}

#[test]
fn seals_are_sha256_over_tip_and_entry() {
    // SHA-256 of "cognos-audit-v1" and of "abc".
    assert_eq!(initial_hash().len(), 64);
    assert_eq!(
        seal("a", "bc"),
        "ba7816bf8f01cfea414140de5dae2223b00361a396177a9cb410ff61f20015ad"
    );
}

#[test]
fn saved_tip_continues_the_chain() {
    assert_eq!(AuditLog::open(Some("abc")).previous_hash, "abc");
    assert_eq!(AuditLog::open(Some("  \n")).previous_hash, initial_hash());
    let mut log = AuditLog::open(Some("abc"));
    write(&mut log, "a", "b", "success", None, None, None, None, None);
    let e = &log.pending[0];
    assert_eq!(e.chain_hash, seal("abc", &json(e)));
    assert_eq!(log.previous_hash, e.chain_hash);
}

#[test]
fn flush_is_due_by_count_and_by_time() {
    let mut log = AuditLog::open(None);
    let e = AuditLog::build_entry("a", "b", "success", None, None, None, None, None, None, None);
    assert!(!log.append(e.clone(), "{}", 0));
    let mut due = false;
    let mut n = 1;
    while !due && n < 1000 {
        due = log.append(e.clone(), "{}", 0);
        n += 1;
    }
    assert!(due);
    assert_eq!(log.flush().len(), n);
    assert!(log.append(e, "{}", 3_600_000));
}

#[test]
fn rotation_renames_from_the_oldest() {
    let plan = AuditLog::rotation_plan();
    assert_eq!(plan.last(), Some(&(0, 1)));
    assert_eq!(plan[0].0 as usize + 1, plan.len());
    assert!(!AuditLog::needs_rotation(0));
    assert!(AuditLog::needs_rotation(u64::MAX));
    let broken = AuditLog::unreadable("no such file".to_string());
    assert!(!broken.valid);
}

#[test]
fn rows_are_aligned() {
    let e = AuditLog::build_entry_at(
        Timestamp::from_nanos(0),
        "file",
        "open",
        "success",
        None,
        None,
        None,
        None,
        None,
        None,
        None,
    );
    assert_eq!(
        entry_row(&e),
        "1970-01-01T00:00:00        file         open                 success      —"
    );
    assert!(table_header().starts_with("TIMESTAMP                  AGENT"));
}

fn chained(agent: &str, at: i64, score: Option<i64>, level: Option<&str>) -> audit_chain::AuditEntry {
    audit_chain::AuditEntry {
        id: 1,
        ts: Timestamp::from_nanos(at),
        agent: agent.to_string(),
        action: "open".to_string(),
        hal_score: score.map(Score::from_nanos),
        hal_level: level.map(|l| l.to_string()),
        metadata: Table::new(),
    }
}

fn three() -> AuditChain {
    let mut c = AuditChain::new();
    for (i, agent) in ["a", "b", "a"].iter().enumerate() {
        let seq = c
            .append(
                chained(agent, i as i64, Some(100 * i as i64), Some("confirm")),
                Ok(format!("{}", i)),
            )
            .unwrap();
        assert_eq!(seq, i as u64);
    }
    c
}

fn jsons() -> Vec<Result<String, String>> {
    vec![Ok("0".to_string()), Ok("1".to_string()), Ok("2".to_string())]
}

#[test]
fn chain_verifies_what_was_appended() {
    let c = three();
    let r = c.verify(&jsons());
    assert!(r.valid);
    assert_eq!(r.entries_inspected, 3);
    assert_eq!(c.entries()[2].entry_hash, c.head_hash());
    assert_eq!(c.len(), 3);
}

#[test]
fn chain_reports_the_first_broken_link() {
    let c = three();
    let mut altered = jsons();
    altered[1] = Ok("x".to_string());
    let r = c.verify(&altered);
    assert!(!r.valid);
    assert_eq!(r.broken_at, Some(1));
    let mut unwritable = jsons();
    unwritable[2] = Err("bad".to_string());
    let r = c.verify(&unwritable);
    assert_eq!(r.broken_at, Some(2));
}

#[test]
fn chain_refuses_what_does_not_serialize() {
    let mut c = three();
    let e = c.append(chained("a", 9, None, None), Err("bad".to_string())).unwrap_err();
    assert!(e.to_text().contains("bad"));
    assert_eq!(c.len(), 3);
    assert!(AuditChain::new().is_empty());
}

#[test]
fn replay_takes_both_ends() {
    let r = ForensicReplay::new(three());
    let events = r.replay_range(Timestamp::from_nanos(1), Timestamp::from_nanos(2));
    assert_eq!(events.len(), 2);
    assert_eq!(events[0].agent, "b");
    assert_eq!(events[1].seq, 2);
    assert_eq!(r.chain().len(), 3);
    let w = ReplayWindow {
        from: Timestamp::from_nanos(0),
        to: Timestamp::from_nanos(9),
        agent: None,
    };
    assert!(r.find_anomalies(w).is_empty());
}

#[test]
fn snapshot_sums_up_to_a_moment() {
    let r = ForensicReplay::new(three());
    let s = r.reconstruct_state(Timestamp::from_nanos(1));
    assert_eq!(s.agent_action_counts.get_text("a"), Some(&1));
    assert_eq!(s.agent_action_counts.get_text("b"), Some(&1));
    assert_eq!(s.last_action_per_agent.get_text("a").unwrap().seq, 0);
    assert_eq!(s.peak_score_last_hour, Some(Score::from_nanos(100)));
    assert_eq!(s.confirm_or_block_last_hour, 2);
    let hour = 3_600_000_000_000;
    let s = r.reconstruct_state(Timestamp::from_nanos(1 + hour));
    assert_eq!(s.agent_action_counts.get_text("a"), Some(&2));
    assert_eq!(s.confirm_or_block_last_hour, 1);
    assert_eq!(s.peak_score_last_hour, Some(Score::from_nanos(200)));
}
