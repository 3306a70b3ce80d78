use modpack_updater::app::{GitProgress, Ratio};
use modpack_updater::lfs::LfsFile;
use modpack_updater::sync::{Outcome, Parent, SyncAction, SyncJob, SyncStage};

const FULL: Ratio = Ratio { done: 1, total: 1 };
const ZERO: Ratio = Ratio { done: 0, total: 1 };

fn update(text: &str, ratio: Ratio) -> GitProgress {
    GitProgress::Update(text.to_string(), ratio)
}

/// Runs a job: every piece of work succeeds unless `answer` says otherwise.
fn drive(
    path: &str,
    branch: &str,
    answer: &dyn Fn(&SyncAction, SyncStage) -> Option<Outcome>,
) -> (Vec<SyncAction>, Vec<GitProgress>) {
    let (mut job, mut events) = SyncJob::begin(path.to_string(), branch.to_string());
    let mut actions = Vec::new();
    let mut steps = 0;
    while let Some(action) = job.action() {
        steps += 1;
        assert!(steps < 1000, "the job does not end");
        let outcome = answer(&action, job.stage).unwrap_or(match action {
            SyncAction::AnalyzeMerge => Outcome::Analysis { up_to_date: true, fast_forward: false },
            SyncAction::MergeTrees => Outcome::Merged { conflicts: false },
            SyncAction::ProbeSource { .. } | SyncAction::ProbeDestination { .. } => {
                Outcome::Exists(false)
            }
            SyncAction::ScanPointers { .. } => Outcome::Pointers(Vec::new()),
            SyncAction::RequestBatch { .. } => Outcome::Batch {
                accepted: true,
                status: "200 OK".to_string(),
                href: Some("https://objects.example/x".to_string()),
            },
            SyncAction::GetObject { .. } => {
                Outcome::Response { delivered: true, status: "200 OK".to_string() }
            }
            _ => Outcome::Done,
        });
        assert!(job.accepts(&outcome), "{:?} does not fit {:?}", outcome, job.stage);
        actions.push(action);
        events.extend(job.advance(outcome));
    }
    assert!(job.is_finished());
    (actions, events)
}

fn terminals(events: &[GitProgress]) -> usize {
    events.iter().filter(|e| e.ends_channel()).count()
}

fn assert_protocol(events: &[GitProgress]) {
    assert_eq!(terminals(events), 1);
    assert!(events.last().unwrap().ends_channel());
}

fn cleaned(actions: &[SyncAction]) -> Vec<String> {
    actions
        .iter()
        .filter_map(|a| match a {
            SyncAction::CleanDirectory { name } => Some(name.clone()),
            _ => None,
        })
        .collect()
}

fn probed(actions: &[SyncAction]) -> Vec<String> {
    actions
        .iter()
        .filter_map(|a| match a {
            SyncAction::ProbeSource { source } => Some(source.clone()),
            _ => None,
        })
        .collect()
}

fn commits(actions: &[SyncAction]) -> usize {
    actions.iter().filter(|a| matches!(a, SyncAction::CommitMerge { .. })).count()
}

fn touches_refs(actions: &[SyncAction]) -> bool {
    actions.iter().any(|a| {
        matches!(
            a,
            SyncAction::CommitMerge { .. }
                | SyncAction::CreateReference { .. }
                | SyncAction::Retarget { .. }
        )
    })
}

const MANAGED: [&str; 6] =
    ["mods", "kubejs", "configureddefaults", "resourcepacks", "patchouli_books", "datapacks"];

const OVERLAY: [&str; 15] = [
    "config/fancymenu",
    "customsplashscreen",
    "config/fog",
    "config/customsplashscreen.json",
    "config/raised.json",
    "sodium-extra.properties",
    "sodiumextrainformation.json",
    "sodium-extra-options.json",
    "sodium-fingerprint.json",
    "sodium-mixins.properties",
    "sodium-options.json",
    "sodium-shadowy-path-blocks-options.json",
    "tectonic.json",
    "sparsestructures.json5",
    "parcool-client.toml",
];

fn success_for(path: &str) -> GitProgress {
    GitProgress::Success(format!(
        "Successfully updated and verified repository at:\n\n{}\n\nPress Enter to close.",
        path
    ))
}

#[test]
fn fresh_directory_is_initialised_and_fast_forwarded() {
    let (actions, events) = drive("/inst", "main", &|action, stage| match action {
        SyncAction::OpenRepository => Some(Outcome::Failed("no repository".to_string())),
        SyncAction::AnalyzeMerge => {
            Some(Outcome::Analysis { up_to_date: false, fast_forward: false })
        }
        SyncAction::ResolveHead => Some(Outcome::Failed("unborn branch".to_string())),
        SyncAction::FindReference { .. } if stage == SyncStage::FindingLocal => {
            Some(Outcome::Failed("not found".to_string()))
        }
        _ => None,
    });
    let head: Vec<SyncAction> = actions.iter().take(13).cloned().collect();
    assert_eq!(
        head,
        vec![
            SyncAction::OpenRepository,
            SyncAction::InitRepository,
            SyncAction::SetRemoteUrl {
                name: "origin".to_string(),
                url: "https://github.com/minecraftwithtwink/Twinkcraft-Modpack.git".to_string(),
            },
            SyncAction::FindRemote { name: "origin".to_string() },
            SyncAction::Fetch { refspec: "+refs/heads/main:refs/remotes/origin/main".to_string() },
            SyncAction::FindReference { name: "refs/remotes/origin/main".to_string() },
            SyncAction::PeelToCommit,
            SyncAction::AnalyzeMerge,
            SyncAction::ResolveHead,
            SyncAction::FindReference { name: "refs/heads/main".to_string() },
            SyncAction::CreateReference {
                name: "refs/heads/main".to_string(),
                log: "Create local branch".to_string(),
            },
            SyncAction::Retarget {
                name: "refs/heads/main".to_string(),
                log: "Fast-forward".to_string(),
            },
            SyncAction::CheckoutHead,
        ]
    );
    assert_eq!(commits(&actions), 0);
    assert_eq!(cleaned(&actions), MANAGED);
    assert_eq!(probed(&actions), OVERLAY);
    assert_eq!(
        events,
        vec![
            update("Setting up remote...", ZERO),
            update("Fetching from remote...", ZERO),
            update("Analyzing changes...", FULL),
            update("Applying fast-forward update...", FULL),
            update("Cleaning managed directories...", FULL),
            update("Applying default configurations...", FULL),
            update("Scanning for LFS files...", ZERO),
            update("No LFS files found.", FULL),
            success_for("/inst"),
        ]
    );
}

#[test]
fn directory_at_the_remote_tip_is_verified_and_nothing_is_committed() {
    let (actions, events) = drive("/inst", "main", &|_, _| None);
    assert_eq!(actions[0], SyncAction::OpenRepository);
    assert_eq!(
        actions[1],
        SyncAction::SetRemoteUrl {
            name: "origin".to_string(),
            url: "https://github.com/minecraftwithtwink/Twinkcraft-Modpack.git".to_string(),
        }
    );
    assert!(!touches_refs(&actions));
    assert_eq!(actions.iter().filter(|a| **a == SyncAction::CheckoutHead).count(), 1);
    assert_eq!(cleaned(&actions), MANAGED);
    assert_eq!(probed(&actions), OVERLAY);
    assert_eq!(
        events,
        vec![
            update("Setting up remote...", ZERO),
            update("Fetching from remote...", ZERO),
            update("Analyzing changes...", FULL),
            update("Repository up-to-date. Verifying files...", FULL),
            update("Cleaning managed directories...", FULL),
            update("Applying default configurations...", FULL),
            update("Scanning for LFS files...", ZERO),
            update("No LFS files found.", FULL),
            success_for("/inst"),
        ]
    );
    assert_protocol(&events);
}

#[test]
fn running_twice_succeeds_twice_with_the_same_work() {
    let first = drive("/inst", "main", &|_, _| None);
    let second = drive("/inst", "main", &|_, _| None);
    assert_eq!(first, second);
    assert_eq!(first.1.last(), Some(&success_for("/inst")));
}

#[test]
fn fast_forward_moves_the_existing_branch() {
    let (actions, events) = drive("/inst", "dev", &|action, _| match action {
        SyncAction::AnalyzeMerge => {
            Some(Outcome::Analysis { up_to_date: false, fast_forward: true })
        }
        _ => None,
    });
    assert!(!actions.contains(&SyncAction::ResolveHead));
    assert!(!actions.iter().any(|a| matches!(a, SyncAction::CreateReference { .. })));
    assert!(actions.contains(&SyncAction::Retarget {
        name: "refs/heads/dev".to_string(),
        log: "Fast-forward".to_string(),
    }));
    assert_eq!(commits(&actions), 0);
    assert!(events.contains(&update("Applying fast-forward update...", FULL)));
    assert_eq!(events.last(), Some(&success_for("/inst")));
}

#[test]
fn diverged_branch_without_conflicts_gets_one_merge_commit() {
    let (actions, events) = drive("/inst", "main", &|action, _| match action {
        SyncAction::AnalyzeMerge => {
            Some(Outcome::Analysis { up_to_date: false, fast_forward: false })
        }
        _ => None,
    });
    assert_eq!(commits(&actions), 1);
    let at = actions.iter().position(|a| *a == SyncAction::MergeTrees).unwrap();
    assert_eq!(actions[at - 1], SyncAction::ResolveHead);
    assert_eq!(
        actions[at + 1],
        SyncAction::CommitMerge {
            message: "Merge remote-tracking branch 'origin/main'".to_string(),
            author: "Modpack Updater".to_string(),
            email: "updater@example.com".to_string(),
            first_parent: Parent::Local,
            second_parent: Parent::Fetched,
        }
    );
    assert_eq!(actions[at + 2], SyncAction::CheckoutHead);
    assert!(!actions.iter().any(|a| matches!(a, SyncAction::Retarget { .. })));
    assert!(events.contains(&update("Merging changes...", FULL)));
    assert_eq!(events.last(), Some(&success_for("/inst")));
    assert_protocol(&events);
    assert_eq!(cleaned(&actions), MANAGED);
}

#[test]
fn conflicting_merge_fails_and_commits_nothing() {
    let (actions, events) = drive("/inst", "main", &|action, _| match action {
        SyncAction::AnalyzeMerge => {
            Some(Outcome::Analysis { up_to_date: false, fast_forward: false })
        }
        SyncAction::MergeTrees => Some(Outcome::Merged { conflicts: true }),
        _ => None,
    });
    assert_eq!(actions.last(), Some(&SyncAction::MergeTrees));
    assert!(!touches_refs(&actions));
    assert!(cleaned(&actions).is_empty());
    assert_eq!(
        events.last(),
        Some(&GitProgress::Failure(
            "Merge conflict detected! Please resolve manually.".to_string()
        ))
    );
    assert_protocol(&events);
    assert_eq!(
        events,
        vec![
            update("Setting up remote...", ZERO),
            update("Fetching from remote...", ZERO),
            update("Analyzing changes...", FULL),
            update("Merging changes...", FULL),
            GitProgress::Failure(
                "Merge conflict detected! Please resolve manually.".to_string()
            ),
        ]
    );
}

#[test]
fn up_to_date_run_still_cleans_and_overlays() {
    let (actions, _) = drive("/inst", "main", &|action, _| match action {
        SyncAction::ProbeSource { .. } => Some(Outcome::Exists(true)),
        SyncAction::ProbeDestination { destination } => {
            Some(Outcome::Exists(destination == "config/fog"))
        }
        _ => None,
    });
    assert_eq!(commits(&actions), 0);
    assert_eq!(cleaned(&actions), MANAGED);
    let from = actions.iter().position(|a| matches!(a, SyncAction::ProbeSource { .. })).unwrap();
    let to = actions.iter().position(|a| *a == SyncAction::PrepareDownloads).unwrap();
    let mut expected = Vec::new();
    for (i, path) in OVERLAY.iter().enumerate() {
        let path = path.to_string();
        expected.push(SyncAction::ProbeSource { source: path.clone() });
        expected.push(SyncAction::CreateParent { destination: path.clone() });
        if i < 3 {
            expected.push(SyncAction::ProbeDestination { destination: path.clone() });
            if path == "config/fog" {
                expected.push(SyncAction::RemoveDestination { destination: path.clone() });
            }
            expected
                .push(SyncAction::CopyDirectory { source: path.clone(), destination: path.clone() });
        } else {
            expected.push(SyncAction::CopyFile { source: path.clone(), destination: path.clone() });
        }
    }
    assert_eq!(actions[from..to].to_vec(), expected);
}

#[test]
fn absent_overlay_sources_are_skipped() {
    let (actions, events) = drive("/inst", "main", &|action, _| match action {
        SyncAction::ProbeSource { source } => Some(Outcome::Exists(source == "tectonic.json")),
        _ => None,
    });
    let copies: Vec<&SyncAction> = actions
        .iter()
        .filter(|a| {
            matches!(
                a,
                SyncAction::CopyFile { .. }
                    | SyncAction::CopyDirectory { .. }
                    | SyncAction::CreateParent { .. }
            )
        })
        .collect();
    assert_eq!(
        copies,
        vec![
            &SyncAction::CreateParent { destination: "tectonic.json".to_string() },
            &SyncAction::CopyFile {
                source: "tectonic.json".to_string(),
                destination: "tectonic.json".to_string(),
            },
        ]
    );
    assert_eq!(probed(&actions), OVERLAY);
    assert_eq!(events.last(), Some(&success_for("/inst")));
}

fn failure_at(fails: &dyn Fn(&SyncAction, SyncStage) -> bool) -> (Vec<SyncAction>, GitProgress) {
    let (actions, events) = drive("/inst", "main", &|action, stage| {
        if fails(action, stage) {
            Some(Outcome::Failed("cause".to_string()))
        } else {
            None
        }
    });
    assert_protocol(&events);
    (actions, events.last().unwrap().clone())
}

fn failure(text: &str) -> GitProgress {
    GitProgress::Failure(text.to_string())
}

#[test]
fn failures_name_the_step_that_failed() {
    let (_, last) = failure_at(&|a, _| matches!(a, SyncAction::SetRemoteUrl { .. }));
    assert_eq!(last, failure("Failed to set remote URL: cause"));
    let (_, last) = failure_at(&|a, _| matches!(a, SyncAction::FindRemote { .. }));
    assert_eq!(last, failure("Failed to find remote 'origin': cause"));
    let (actions, last) = failure_at(&|a, _| matches!(a, SyncAction::Fetch { .. }));
    assert_eq!(
        last,
        failure("Failed to fetch. Check network/proxy/branch name ('main').: cause")
    );
    assert_eq!(actions.len(), 4);
    let (_, last) = failure_at(&|a, _| *a == SyncAction::PeelToCommit);
    assert_eq!(last, failure("Failed to find the latest commit: cause"));
    let (actions, last) = failure_at(&|a, _| {
        matches!(a, SyncAction::CleanDirectory { name } if name == "kubejs")
    });
    assert_eq!(last, failure("Failed to clean the 'kubejs' directory.: cause"));
    assert_eq!(cleaned(&actions), vec!["mods", "kubejs"]);
    assert!(probed(&actions).is_empty());
}

#[test]
fn other_failures_are_passed_on_as_they_are() {
    for fails in [
        (&|a: &SyncAction, s: SyncStage| {
            matches!(a, SyncAction::FindReference { .. }) && s == SyncStage::FindingFetched
        }) as &dyn Fn(&SyncAction, SyncStage) -> bool,
        &|a, _| *a == SyncAction::AnalyzeMerge,
        &|a, _| *a == SyncAction::CheckoutHead,
        &|a, _| matches!(a, SyncAction::ProbeSource { .. }),
        &|a, _| *a == SyncAction::PrepareDownloads,
        &|a, _| matches!(a, SyncAction::ScanPointers { .. }),
    ] {
        let (_, last) = failure_at(fails);
        assert_eq!(last, failure("cause"));
    }
}

#[test]
fn init_failure_ends_the_job() {
    let (actions, events) = drive("/inst", "main", &|action, _| match action {
        SyncAction::OpenRepository => Some(Outcome::Failed("none".to_string())),
        SyncAction::InitRepository => Some(Outcome::Failed("read-only".to_string())),
        _ => None,
    });
    assert_eq!(actions, vec![SyncAction::OpenRepository, SyncAction::InitRepository]);
    assert_eq!(
        events,
        vec![update("Setting up remote...", ZERO), failure("read-only")]
    );
}

#[test]
fn fetch_reports_its_progress() {
    let (mut job, _) = SyncJob::begin("/inst".to_string(), "main".to_string());
    for _ in 0..3 {
        job.advance(Outcome::Done);
    }
    assert_eq!(job.stage, SyncStage::Fetching);
    assert_eq!(
        job.advance(Outcome::Transfer { received: 5, total: 10, bytes: 3 * 1024 * 1024 + 17 }),
        vec![update("Downloading objects: 5 / 10 (3 MB)", Ratio { done: 5, total: 10 })]
    );
    assert_eq!(job.stage, SyncStage::Fetching);
    assert_eq!(
        job.advance(Outcome::Transfer { received: 0, total: 0, bytes: 0 }),
        vec![update("Downloading objects: 0 / 0 (0 MB)", ZERO)]
    );
    assert_eq!(
        job.advance(Outcome::Transfer { received: 7, total: 0, bytes: 1048575 }),
        vec![update("Downloading objects: 7 / 0 (0 MB)", ZERO)]
    );
    assert_eq!(
        job.advance(Outcome::Transfer { received: 12, total: 10, bytes: 0 }),
        vec![update("Downloading objects: 12 / 10 (0 MB)", Ratio { done: 10, total: 10 })]
    );
    assert_eq!(
        job.advance(Outcome::Transfer { received: 1234, total: 1234, bytes: 1048576 }),
        vec![update("Downloading objects: 1234 / 1234 (1 MB)", Ratio { done: 1234, total: 1234 })]
    );
    assert_eq!(job.advance(Outcome::Done), vec![update("Analyzing changes...", FULL)]);
    assert_eq!(job.stage, SyncStage::FindingFetched);
}

fn pointers() -> Vec<LfsFile> {
    vec![
        LfsFile { path: "mods/a.jar".to_string(), oid: "aa".to_string(), size: 10 },
        LfsFile { path: "mods/b.jar".to_string(), oid: "bb".to_string(), size: 20 },
        LfsFile { path: "big/c.zip".to_string(), oid: "cc".to_string(), size: 30 },
    ]
}

#[test]
fn large_files_are_downloaded_one_by_one() {
    let (actions, events) = drive("/inst", "main", &|action, _| match action {
        SyncAction::ScanPointers { branch } => {
            assert_eq!(branch, "main");
            Some(Outcome::Pointers(pointers()))
        }
        SyncAction::RequestBatch { oid, .. } => Some(Outcome::Batch {
            accepted: true,
            status: "200 OK".to_string(),
            href: Some(format!("https://objects.example/{}", oid)),
        }),
        _ => None,
    });
    let from = actions.iter().position(|a| matches!(a, SyncAction::ScanPointers { .. })).unwrap();
    let url = "https://github.com/minecraftwithtwink/Twinkcraft-Modpack.git/info/lfs/objects/batch";
    let mut expected = Vec::new();
    for file in pointers() {
        expected.push(SyncAction::RequestBatch {
            url: url.to_string(),
            oid: file.oid.clone(),
            size: file.size,
        });
        expected.push(SyncAction::GetObject { href: format!("https://objects.example/{}", file.oid) });
        expected.push(SyncAction::StoreObject { path: file.path.clone() });
    }
    assert_eq!(actions[from + 1..].to_vec(), expected);
    let tail: Vec<GitProgress> = events[events.len() - 7..].to_vec();
    assert_eq!(
        tail,
        vec![
            update("Scanning for LFS files...", ZERO),
            update("Found 3 LFS files, downloading...", Ratio { done: 1, total: 10 }),
            update("Downloading LFS file: mods/a.jar", Ratio { done: 3, total: 30 }),
            update("Downloading LFS file: mods/b.jar", Ratio { done: 12, total: 30 }),
            update("Downloading LFS file: big/c.zip", Ratio { done: 21, total: 30 }),
            update("LFS files downloaded successfully.", FULL),
            success_for("/inst"),
        ]
    );
    assert_protocol(&events);
}

fn failing_download(answer: &dyn Fn(&SyncAction) -> Option<Outcome>) -> (Vec<SyncAction>, GitProgress) {
    let (actions, events) = drive("/inst", "main", &|action, _| match action {
        SyncAction::ScanPointers { .. } => Some(Outcome::Pointers(pointers())),
        other => answer(other),
    });
    assert_protocol(&events);
    (actions, events.last().unwrap().clone())
}

#[test]
fn refused_batch_request_ends_the_job() {
    let (actions, last) = failing_download(&|action| match action {
        SyncAction::RequestBatch { .. } => Some(Outcome::Batch {
            accepted: false,
            status: "403 Forbidden".to_string(),
            href: Some("https://objects.example/x".to_string()),
        }),
        _ => None,
    });
    assert_eq!(last, failure("LFS batch request failed: 403 Forbidden"));
    assert!(matches!(actions.last(), Some(SyncAction::RequestBatch { .. })));
}

#[test]
fn batch_answer_without_address_ends_the_job() {
    let (_, last) = failing_download(&|action| match action {
        SyncAction::RequestBatch { oid, .. } if oid == "bb" => {
            Some(Outcome::Batch { accepted: true, status: "200 OK".to_string(), href: None })
        }
        _ => None,
    });
    assert_eq!(last, failure("No download URL found for LFS file with OID: bb"));
}

#[test]
fn undelivered_object_ends_the_job() {
    let (actions, last) = failing_download(&|action| match action {
        SyncAction::GetObject { .. } => {
            Some(Outcome::Response { delivered: false, status: "404 Not Found".to_string() })
        }
        _ => None,
    });
    assert_eq!(last, failure("Failed to download LFS file: 404 Not Found"));
    assert!(!actions.iter().any(|a| matches!(a, SyncAction::StoreObject { .. })));
}

#[test]
fn failing_store_ends_the_job() {
    let (actions, last) = failing_download(&|action| match action {
        SyncAction::StoreObject { path } if path == "mods/b.jar" => {
            Some(Outcome::Failed("disk full".to_string()))
        }
        _ => None,
    });
    assert_eq!(last, failure("disk full"));
    assert_eq!(actions.iter().filter(|a| matches!(a, SyncAction::StoreObject { .. })).count(), 2);
}

#[test]
fn outcomes_must_fit_the_work() {
    let (mut job, _) = SyncJob::begin("/inst".to_string(), "main".to_string());
    assert!(job.accepts(&Outcome::Done));
    assert!(job.accepts(&Outcome::Failed("x".to_string())));
    assert!(!job.accepts(&Outcome::Exists(true)));
    assert!(!job.accepts(&Outcome::Merged { conflicts: false }));
    assert!(!job.accepts(&Outcome::Transfer { received: 0, total: 0, bytes: 0 }));
    for _ in 0..3 {
        job.advance(Outcome::Done);
    }
    assert!(job.accepts(&Outcome::Transfer { received: 0, total: 0, bytes: 0 }));
    for _ in 0..3 {
        job.advance(Outcome::Done);
    }
    assert_eq!(job.stage, SyncStage::Analyzing);
    assert!(!job.accepts(&Outcome::Done));
    assert!(job.accepts(&Outcome::Analysis { up_to_date: false, fast_forward: true }));
    job.advance(Outcome::Failed("x".to_string()));
    assert!(job.is_finished());
    assert!(!job.accepts(&Outcome::Done));
    assert!(!job.accepts(&Outcome::Failed("x".to_string())));
    assert_eq!(job.action(), None);
}

#[test]
fn conflict_failure_begins_by_naming_the_conflict() {
    let (_, events) = drive("/inst", "main", &|action, _| match action {
        SyncAction::AnalyzeMerge => {
            Some(Outcome::Analysis { up_to_date: false, fast_forward: false })
        }
        SyncAction::MergeTrees => Some(Outcome::Merged { conflicts: true }),
        _ => None,
    });
    match events.last() {
        Some(GitProgress::Failure(text)) => assert!(text.starts_with("Merge conflict detected")),
        other => panic!("no failure at the end: {:?}", other),
    }
    assert!(!events.iter().any(|e| matches!(e, GitProgress::Success(_))));
}

#[test]
fn job_takes_only_what_it_can_take() {
    let (mut job, _) = SyncJob::begin("/inst".to_string(), "main".to_string());
    assert!(job.is_well_formed());
    assert_eq!(job.report(Outcome::Exists(true)), None);
    assert_eq!(job.report(Outcome::Merged { conflicts: true }), None);
    assert_eq!(job.stage, SyncStage::Opening);
    assert_eq!(job.next_action(), Some(SyncAction::OpenRepository));
    assert_eq!(job.report(Outcome::Done), Some(Vec::new()));
    assert_eq!(job.stage, SyncStage::BindingRemote);
    assert_eq!(
        job.report(Outcome::Failed("x".to_string())),
        Some(vec![GitProgress::Failure("Failed to set remote URL: x".to_string())])
    );
    assert!(job.is_finished());
    assert_eq!(job.next_action(), None);
    assert_eq!(job.report(Outcome::Done), None);
    assert_eq!(job.report(Outcome::Failed("y".to_string())), None);
    assert!(job.is_finished());
}

#[test]
fn job_that_points_nowhere_does_nothing() {
    for stage in [
        SyncStage::Cleaning(6),
        SyncStage::ProbingSource(15),
        SyncStage::CopyingFile(99),
        SyncStage::RequestingBatch(0),
        SyncStage::StoringObject(3),
    ] {
        let (mut job, _) = SyncJob::begin("/inst".to_string(), "main".to_string());
        job.stage = stage;
        assert!(!job.is_well_formed());
        assert_eq!(job.next_action(), None);
        assert_eq!(job.report(Outcome::Done), None);
        assert_eq!(job.report(Outcome::Failed("x".to_string())), None);
        assert_eq!(job.stage, stage);
    }
    for stage in [SyncStage::Cleaning(5), SyncStage::ProbingSource(14), SyncStage::Finished] {
        let (mut job, _) = SyncJob::begin("/inst".to_string(), "main".to_string());
        job.stage = stage;
        assert!(job.is_well_formed());
    }
    let (mut job, _) = SyncJob::begin("/inst".to_string(), "main".to_string());
    job.pointers = pointers();
    job.stage = SyncStage::GettingObject(2);
    assert!(job.is_well_formed());
    job.stage = SyncStage::GettingObject(3);
    assert!(!job.is_well_formed());
}

#[test]
fn merge_commit_has_the_local_commit_first() {
    let (mut job, _) = SyncJob::begin("/inst".to_string(), "dev".to_string());
    job.stage = SyncStage::Committing;
    match job.next_action() {
        Some(SyncAction::CommitMerge { first_parent, second_parent, .. }) => {
            assert_eq!((first_parent, second_parent), (Parent::Local, Parent::Fetched));
        }
        other => panic!("no commit asked for: {:?}", other),
    }
}
