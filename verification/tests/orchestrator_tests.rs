use hfmirror::listing::parse_listing;
use hfmirror::orchestrator::{build_jobs, dest_path};
use hfmirror::progress::ProgressRegistry;
use hfmirror::repo::parse_repo_id;
use hfmirror::resolver::build_config;
use hfmirror::task::{task_start, task_step, TaskEvent, TaskOutcome, TaskPhase};

#[test]
fn one_job_per_asset_with_index_and_total() {
    let repo = parse_repo_id("google/gemma-2-2b-it").unwrap();
    let cfg = build_config(None, None, &repo).unwrap();
    let assets = vec![
        String::from("a.bin"),
        String::from("b.bin"),
        String::from("c.bin"),
    ];
    let jobs = build_jobs(&cfg, &assets, "/data/gemma-2-2b-it");
    assert_eq!(jobs.len(), 3);
    for (i, job) in jobs.iter().enumerate() {
        assert_eq!(job.index, i);
        assert_eq!(job.total, 3);
    }
    assert_eq!(
        jobs[0].url,
        "https://hg.whl.moe/huggingface.co/google/gemma-2-2b-it/resolve/main/a.bin"
    );
    assert_eq!(jobs[0].destination, "/data/gemma-2-2b-it/a.bin");
    assert_eq!(jobs[2].destination, "/data/gemma-2-2b-it/c.bin");
}

#[test]
fn empty_asset_list_plans_no_jobs() {
    let repo = parse_repo_id("a/b").unwrap();
    let cfg = build_config(None, None, &repo).unwrap();
    let jobs = build_jobs(&cfg, &vec![], "/tmp/b");
    assert!(jobs.is_empty());
}

#[test]
fn destination_respects_directory_separator() {
    assert_eq!(dest_path("/data/m", "a.bin"), "/data/m/a.bin");
    assert_eq!(dest_path("/data/m/", "a.bin"), "/data/m/a.bin");
}

#[test]
fn listing_to_jobs_end_to_end() {
    let repo = parse_repo_id("google/gemma-2-2b-it").unwrap();
    let cfg = build_config(None, None, &repo).unwrap();
    let names = parse_listing("aaa - one.bin\nbbb - two.bin\n").unwrap();
    let jobs = build_jobs(&cfg, &names, "/data/gemma-2-2b-it");
    assert_eq!(jobs.len(), 2);
    assert_eq!(
        jobs[1].url,
        "https://hg.whl.moe/huggingface.co/google/gemma-2-2b-it/resolve/main/two.bin"
    );
    assert_eq!(jobs[1].destination, "/data/gemma-2-2b-it/two.bin");
}

#[test]
fn three_assets_register_three_displays_and_all_reach_terminal_counts() {
    let repo = parse_repo_id("google/gemma-2-2b-it").unwrap();
    let cfg = build_config(None, None, &repo).unwrap();
    let assets = vec![
        String::from("a.bin"),
        String::from("b.bin"),
        String::from("c.bin"),
    ];
    let jobs = build_jobs(&cfg, &assets, "/data/gemma-2-2b-it");
    let mut registry = ProgressRegistry::new();
    let mut outcomes = Vec::new();
    let sizes: Vec<u64> = vec![100, 200, 300];
    for job in jobs.iter() {
        let s0 = task_start();
        let s1 = task_step(&s0, &TaskEvent::FileCreated);
        let size = sizes[job.index];
        let s2 = task_step(
            &s1,
            &TaskEvent::ResponseReceived { status: 200, content_length: Some(size) },
        );
        assert!(s2.display_registered);
        let handle = registry.register(s2.expected_total);
        assert_eq!(handle.id, job.index);
        let s3 = task_step(&s2, &TaskEvent::ChunkWritten { len: size });
        registry.advance(&handle, size);
        let s4 = task_step(&s3, &TaskEvent::StreamEnded);
        match s4.phase {
            TaskPhase::Done(outcome) => outcomes.push(outcome),
            _ => panic!("task did not reach a terminal state"),
        }
        assert_eq!(registry.position_of(&handle), s4.bytes_written);
        assert_eq!(registry.total_of(&handle), size);
    }
    // Exactly one display per asset, and the run ends only with all three
    // outcomes in hand.
    assert_eq!(registry.count(), 3);
    assert_eq!(outcomes.len(), 3);
    assert!(outcomes.iter().all(|o| *o == TaskOutcome::Completed));
    assert!(hfmirror::orchestrator::collect_outcomes(&outcomes).is_ok());
}
