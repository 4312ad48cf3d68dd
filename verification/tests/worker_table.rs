use buzz_transfer::worker_table::{
    desired_workers, find_saved_agent, DesiredWorker, RunningWorker, SavedAgent, WorkerTable,
};

fn agent(pubkey: &str, updated_at: &str) -> SavedAgent {
    SavedAgent {
        pubkey: pubkey.into(),
        local: true,
        private_key_nsec: "nsec".into(),
        updated_at: updated_at.into(),
    }
}

fn desired(pubkey: &str, fingerprint: &str) -> DesiredWorker {
    DesiredWorker {
        pubkey: pubkey.into(),
        fingerprint: fingerprint.into(),
    }
}

fn running(pubkey: &str, fingerprint: &str, token: u32) -> RunningWorker<u32> {
    RunningWorker {
        pubkey: pubkey.into(),
        fingerprint: fingerprint.into(),
        token,
    }
}

#[test]
fn local_agents_with_a_key_get_a_worker() {
    let mut remote = agent("remote", "1");
    remote.local = false;
    let mut blank = agent("blank", "1");
    blank.private_key_nsec = " \t\n\u{a0}\u{3000}".into();
    let mut padded = agent("padded", "2");
    padded.private_key_nsec = "  nsec ".into();
    assert_eq!(
        desired_workers(&vec![agent("a", "1"), remote, blank, padded], "wss://relay"),
        vec![desired("a", "wss://relay|1"), desired("padded", "wss://relay|2")]
    );
}

#[test]
fn of_two_agents_with_one_key_the_later_counts() {
    assert_eq!(
        desired_workers(&vec![agent("a", "1"), agent("b", "1"), agent("a", "2")], "r"),
        vec![desired("a", "r|2"), desired("b", "r|1")]
    );
}

#[test]
fn the_first_saved_agent_is_found() {
    let agents = vec![agent("a", "1"), agent("b", "1"), agent("b", "2")];
    assert_eq!(find_saved_agent(&agents, "b"), Some(1));
    assert_eq!(find_saved_agent(&agents, "c"), None);
}

#[test]
fn reconciliation_leaves_the_desired_workers() {
    let mut table: WorkerTable<u32> = WorkerTable::new();
    table.insert(desired("kept", "r|1"), 1);
    table.insert(desired("changed", "r|1"), 2);
    table.insert(desired("removed", "r|1"), 3);
    let wanted = vec![desired("kept", "r|1"), desired("changed", "r|2"), desired("new", "r|1")];

    let mut retired = table.retire_stale(&wanted);
    retired.sort_by_key(|worker| worker.token);
    assert_eq!(
        retired,
        vec![running("changed", "r|1", 2), running("removed", "r|1", 3)]
    );
    assert!(table.contains("kept"));
    assert!(!table.contains("changed"));

    let missing = table.missing(&wanted);
    assert_eq!(missing, vec![desired("changed", "r|2"), desired("new", "r|1")]);
    for (index, worker) in missing.into_iter().enumerate() {
        table.insert(worker, 10 + index as u32);
    }
    assert_eq!(table.retire_stale(&wanted), vec![]);
    assert_eq!(table.missing(&wanted), vec![]);

    let mut all = table.cancel_all_workers();
    all.sort_by_key(|worker| worker.token);
    assert_eq!(
        all,
        vec![
            running("kept", "r|1", 1),
            running("changed", "r|2", 10),
            running("new", "r|1", 11)
        ]
    );
    assert!(!table.contains("kept"));
}
