//! What holds of every synchronisation job, whatever comes of its work.
//!
//! A run is a job together with the outcomes that were reported to it, in
//! order. The laws below speak of the stages that a run passes through and
//! of the events that it sends.

use crate::sync::{
    managed_count, notices, outcome_fits, overlay_count, stage_wf, step, Notice, Outcome, Signal,
    SyncJob, SyncStage, CONFLICT,
};
use crate::sync::tables::lemma_table_sizes;
use vstd::prelude::*;

verus! {

/// The job after the outcomes have been reported to it, in order.
pub open spec fn job_after(job: SyncJob, outcomes: Seq<Outcome>) -> SyncJob
    decreases outcomes.len(),
{
    if outcomes.len() == 0 {
        job
    } else {
        step(job_after(job, outcomes.drop_last()), outcomes.last())
    }
}

/// Everything the job sends while the outcomes are reported to it, in order.
pub open spec fn sent(job: SyncJob, outcomes: Seq<Outcome>) -> Seq<Notice>
    decreases outcomes.len(),
{
    if outcomes.len() == 0 {
        Seq::empty()
    } else {
        sent(job, outcomes.drop_last()) + notices(
            job_after(job, outcomes.drop_last()),
            outcomes.last(),
        )
    }
}

/// Whether each outcome is one that the work asked for at its point of the
/// run can have.
pub open spec fn admissible(job: SyncJob, outcomes: Seq<Outcome>) -> bool
    decreases outcomes.len(),
{
    outcomes.len() > 0 ==> {
        &&& admissible(job, outcomes.drop_last())
        &&& outcome_fits(job_after(job, outcomes.drop_last()).stage, outcomes.last())
    }
}

/// Whether the run passes through `stage`: the job stands there at the start
/// or after some of the outcomes.
pub open spec fn visits(job: SyncJob, outcomes: Seq<Outcome>, stage: SyncStage) -> bool {
    exists|k: int|
        0 <= k <= outcomes.len() && #[trigger] job_after(job, outcomes.take(k)).stage == stage
}

/// Whether the events are updates only.
pub open spec fn only_updates(events: Seq<Notice>) -> bool {
    forall|i: int| 0 <= i < events.len() ==> (#[trigger] events[i]).signal == Signal::Update
}

/// Whether the events are updates followed by one terminal event.
pub open spec fn ends_once(events: Seq<Notice>) -> bool {
    &&& events.len() > 0
    &&& events.last().signal != Signal::Update
    &&& only_updates(events.drop_last())
}

/// The place of a stage in the order of the work. Work never goes back: the
/// stage that follows a stage has a higher place, or the same place while a
/// fetch reports its progress.
pub open spec fn place(stage: SyncStage) -> int {
    let cleaning: int = 15;
    let overlay: int = cleaning + managed_count();
    let downloads: int = overlay + 6 * overlay_count();
    match stage {
        SyncStage::Opening => 0,
        SyncStage::Initializing => 1,
        SyncStage::BindingRemote => 2,
        SyncStage::FindingRemote => 3,
        SyncStage::Fetching => 4,
        SyncStage::FindingFetched => 5,
        SyncStage::PeelingFetched => 6,
        SyncStage::Analyzing => 7,
        SyncStage::ResolvingHead => 8,
        SyncStage::FindingLocal => 9,
        SyncStage::CreatingLocal => 10,
        SyncStage::Retargeting => 11,
        SyncStage::MergingTrees => 12,
        SyncStage::Committing => 13,
        SyncStage::CheckingOut => 14,
        SyncStage::Cleaning(i) => cleaning + i,
        SyncStage::ProbingSource(i) => overlay + 6 * i,
        SyncStage::CreatingParent(i) => overlay + 6 * i + 1,
        SyncStage::ProbingDestination(i) => overlay + 6 * i + 2,
        SyncStage::RemovingDestination(i) => overlay + 6 * i + 3,
        SyncStage::CopyingDirectory(i) => overlay + 6 * i + 4,
        SyncStage::CopyingFile(i) => overlay + 6 * i + 5,
        SyncStage::PreparingDownloads => downloads,
        SyncStage::ScanningPointers => downloads + 1,
        SyncStage::RequestingBatch(i) => downloads + 2 + 3 * i,
        SyncStage::GettingObject(i) => downloads + 2 + 3 * i + 1,
        SyncStage::StoringObject(i) => downloads + 2 + 3 * i + 2,
        SyncStage::Finished => -1,
    }
}

/// A step keeps the job well formed.
pub proof fn lemma_step_wf(job: SyncJob, outcome: Outcome)
    requires
        job.wf(),
    ensures
        step(job, outcome).wf(),
{
    lemma_table_sizes();
}

/// A step never goes back, and never leaves the end.
pub proof fn lemma_step_onward(job: SyncJob, outcome: Outcome)
    requires
        job.wf(),
    ensures
        job.stage is Finished ==> step(job, outcome).stage is Finished,
        !(step(job, outcome).stage is Finished) ==> place(job.stage) <= place(
            step(job, outcome).stage,
        ),
{
    lemma_table_sizes();
}

/// A run keeps the job well formed.
pub proof fn lemma_run_wf(job: SyncJob, outcomes: Seq<Outcome>)
    requires
        job.wf(),
    ensures
        job_after(job, outcomes).wf(),
    decreases outcomes.len(),
{
    if outcomes.len() > 0 {
        lemma_run_wf(job, outcomes.drop_last());
        lemma_step_wf(job_after(job, outcomes.drop_last()), outcomes.last());
    }
}

/// Work never goes back: while a run has not finished, each stage it has
/// passed through lies no further on than the stage it stands at, and none
/// of them is the end.
pub proof fn lemma_run_onward(job: SyncJob, outcomes: Seq<Outcome>, k: int)
    requires
        job.wf(),
        0 <= k <= outcomes.len(),
        !(job_after(job, outcomes).stage is Finished),
    ensures
        !(job_after(job, outcomes.take(k)).stage is Finished),
        place(job_after(job, outcomes.take(k)).stage) <= place(job_after(job, outcomes).stage),
    decreases outcomes.len(),
{
    if k == outcomes.len() {
        assert(outcomes.take(k) =~= outcomes);
    } else {
        let before = outcomes.drop_last();
        lemma_run_wf(job, before);
        lemma_step_onward(job_after(job, before), outcomes.last());
        lemma_run_onward(job, before, k);
        assert(before.take(k) =~= outcomes.take(k));
    }
}

/// A job that has finished stays finished.
pub proof fn lemma_finished_stays(job: SyncJob, outcomes: Seq<Outcome>, k: int)
    requires
        job.wf(),
        0 <= k <= outcomes.len(),
        job_after(job, outcomes.take(k)).stage is Finished,
    ensures
        job_after(job, outcomes).stage is Finished,
{
    if !(job_after(job, outcomes).stage is Finished) {
        lemma_run_onward(job, outcomes, k);
    }
}

/// A step of a job that has not finished sends updates only, unless it ends
/// the job: then it sends updates and, last, one terminal event.
pub proof fn lemma_step_stream(job: SyncJob, outcome: Outcome)
    requires
        job.wf(),
        outcome_fits(job.stage, outcome),
    ensures
        step(job, outcome).stage is Finished ==> ends_once(notices(job, outcome)),
        !(step(job, outcome).stage is Finished) ==> only_updates(notices(job, outcome)),
{
    lemma_table_sizes();
    let events = notices(job, outcome);
    let heralds = crate::sync::heralds(job, outcome);
    assert(only_updates(heralds));
    if step(job, outcome).stage is Finished {
        assert(crate::sync::ending(job, outcome) is Some);
        assert(events.drop_last() =~= heralds);
    }
}

/// The progress channel protocol. Whatever comes of its work, a job sends
/// updates only while it runs, and ends with exactly one terminal event: a
/// run that has not finished has sent updates only, and a run that has
/// finished has sent updates and then one terminal event, as the last.
pub proof fn lemma_protocol(job: SyncJob, outcomes: Seq<Outcome>)
    requires
        job.wf(),
        !(job.stage is Finished),
        admissible(job, outcomes),
    ensures
        job_after(job, outcomes).stage is Finished ==> ends_once(sent(job, outcomes)),
        !(job_after(job, outcomes).stage is Finished) ==> only_updates(sent(job, outcomes)),
    decreases outcomes.len(),
{
    if outcomes.len() > 0 {
        let before = outcomes.drop_last();
        let last = outcomes.last();
        let mid = job_after(job, before);
        lemma_protocol(job, before);
        lemma_run_wf(job, before);
        lemma_step_stream(mid, last);
        let earlier = sent(job, before);
        let now = notices(mid, last);
        assert(!(mid.stage is Finished));
        assert(only_updates(earlier));
        if job_after(job, outcomes).stage is Finished {
            assert((earlier + now).drop_last() =~= earlier + now.drop_last());
            assert(only_updates(earlier + now.drop_last()));
        } else {
            assert(only_updates(earlier + now));
        }
    }
}

/// Whether every event tells of a part of the work between nothing and
/// all of it.
pub open spec fn ratios_in_range(events: Seq<Notice>) -> bool {
    forall|i: int| 0 <= i < events.len() ==> (#[trigger] events[i]).ratio.in_unit_range()
}

/// Progress stays within bounds. Whatever comes of the work, every event of
/// a step tells of a part of the work between nothing and all of it.
pub proof fn lemma_step_ratios(job: SyncJob, outcome: Outcome)
    requires
        job.wf(),
        outcome_fits(job.stage, outcome),
    ensures
        ratios_in_range(notices(job, outcome)),
{
    lemma_table_sizes();
    let heralds = crate::sync::heralds(job, outcome);
    assert(ratios_in_range(heralds));
}

/// Progress stays within bounds, throughout a run.
pub proof fn lemma_run_ratios(job: SyncJob, outcomes: Seq<Outcome>)
    requires
        job.wf(),
        admissible(job, outcomes),
    ensures
        ratios_in_range(sent(job, outcomes)),
    decreases outcomes.len(),
{
    if outcomes.len() > 0 {
        let before = outcomes.drop_last();
        lemma_run_ratios(job, before);
        lemma_run_wf(job, before);
        lemma_step_ratios(job_after(job, before), outcomes.last());
    }
}

/// Whether no step of the run met with a mishap.
pub open spec fn all_went_well(job: SyncJob, outcomes: Seq<Outcome>) -> bool
    decreases outcomes.len(),
{
    outcomes.len() > 0 ==> {
        &&& all_went_well(job, outcomes.drop_last())
        &&& crate::sync::mishap(job_after(job, outcomes.drop_last()), outcomes.last()) is None
    }
}

/// A job ends in success unless something went wrong. If a run has finished
/// and no step of it met with a mishap, then the last thing the job sent was
/// the success that names the folder.
pub proof fn lemma_success_unless_mishap(job: SyncJob, outcomes: Seq<Outcome>)
    requires
        job.wf(),
        !(job.stage is Finished),
        admissible(job, outcomes),
        all_went_well(job, outcomes),
        job_after(job, outcomes).stage is Finished,
    ensures
        sent(job, outcomes).len() > 0,
        sent(job, outcomes).last() == (Notice {
            signal: Signal::Success,
            text: crate::sync::success_text(job.path@),
            ratio: crate::app::Ratio { done: 1, total: 1 },
        }),
    decreases outcomes.len(),
{
    let before = outcomes.drop_last();
    let mid = job_after(job, before);
    lemma_run_wf(job, before);
    lemma_run_keeps_folder(job, before);
    if mid.stage is Finished {
        assert(!outcome_fits(mid.stage, outcomes.last()));
    }
    assert(crate::sync::ending(mid, outcomes.last()) is Some);
}

/// A run leaves the folder and the branch of a job as they are.
pub proof fn lemma_run_keeps_folder(job: SyncJob, outcomes: Seq<Outcome>)
    ensures
        job_after(job, outcomes).path == job.path,
        job_after(job, outcomes).branch == job.branch,
    decreases outcomes.len(),
{
    if outcomes.len() > 0 {
        lemma_run_keeps_folder(job, outcomes.drop_last());
    }
}

/// A merge with conflicts aborts the job. If the trees were merged with
/// conflicts at some point of a run, then the next thing the job sent was a
/// failure that names the conflict, the job finished with it, and at no
/// point of the run, before or after, did the job ask for a commit.
pub proof fn lemma_conflict_aborts(job: SyncJob, outcomes: Seq<Outcome>, k: int)
    requires
        job.wf(),
        0 <= k < outcomes.len(),
        job_after(job, outcomes.take(k)).stage is MergingTrees,
        outcomes[k] == (Outcome::Merged { conflicts: true }),
    ensures
        notices(job_after(job, outcomes.take(k)), outcomes[k]) == seq![
            Notice {
                signal: Signal::Failure,
                text: CONFLICT@,
                ratio: crate::app::Ratio { done: 1, total: 1 },
            },
        ],
        job_after(job, outcomes).stage is Finished,
        !visits(job, outcomes, SyncStage::Committing),
{
    let at = job_after(job, outcomes.take(k));
    let upto = outcomes.take(k + 1);
    assert(upto.drop_last() =~= outcomes.take(k));
    assert(upto.last() == outcomes[k]);
    assert(job_after(job, upto).stage is Finished);
    lemma_finished_stays(job, outcomes, k + 1);
    assert(notices(at, outcomes[k]) =~= seq![
        Notice {
            signal: Signal::Failure,
            text: CONFLICT@,
            ratio: crate::app::Ratio { done: 1, total: 1 },
        },
    ]);
    assert forall|j: int| 0 <= j <= outcomes.len() implies #[trigger] job_after(
        job,
        outcomes.take(j),
    ).stage != SyncStage::Committing by {
        if j <= k {
            lemma_run_onward(job, outcomes.take(k), j);
            assert(outcomes.take(k).take(j) =~= outcomes.take(j));
        } else {
            assert(outcomes.take(j).take(k + 1) =~= upto);
            lemma_finished_stays(job, outcomes.take(j), k + 1);
        }
    }
}

/// The failure that a merge with conflicts ends in begins by naming the
/// conflict.
pub proof fn lemma_conflict_is_named()
    ensures
        crate::text::has_prefix(CONFLICT@, "Merge conflict detected"@),
{
    reveal_strlit("Merge conflict detected! Please resolve manually.");
    reveal_strlit("Merge conflict detected");
    let whole = "Merge conflict detected! Please resolve manually."@;
    let start = "Merge conflict detected"@;
    assert(whole.subrange(0, start.len() as int) =~= start);
}

/// Whether the stage changes what the repository holds: its history, or
/// where its branches point.
pub open spec fn rewrites_history(stage: SyncStage) -> bool {
    stage is CreatingLocal || stage is Retargeting || stage is Committing
}

/// A step into a stage past the cleaning of a directory comes from that
/// cleaning or from past it; likewise for the probing of an overlay entry.
proof fn lemma_no_skipping(job: SyncJob, outcome: Outcome, mark: SyncStage)
    requires
        job.wf(),
        mark is Cleaning || mark is ProbingSource,
        stage_wf(mark, 0),
        !(step(job, outcome).stage is Finished),
        place(mark) < place(step(job, outcome).stage),
        place(job.stage) >= 14 || place(job.stage) < 8,
    ensures
        place(mark) <= place(job.stage),
{
    lemma_table_sizes();
}

/// Once the analysis has found nothing new, the job is past every stage that
/// rewrites history, and every later stage up to the stage the run stands at
/// was reached by way of each cleaning and each probing that lies before it.
proof fn lemma_after_up_to_date(
    job: SyncJob,
    outcomes: Seq<Outcome>,
    k: int,
    j: int,
    mark: SyncStage,
)
    requires
        job.wf(),
        0 <= k < j <= outcomes.len(),
        job_after(job, outcomes.take(k)).stage is Analyzing,
        outcomes[k] matches Outcome::Analysis { up_to_date, .. } && up_to_date,
        mark is Cleaning || mark is ProbingSource,
        stage_wf(mark, 0),
        !(job_after(job, outcomes.take(j)).stage is Finished),
    ensures
        place(job_after(job, outcomes.take(j)).stage) >= 14,
        place(mark) < place(job_after(job, outcomes.take(j)).stage) ==> visits(job, outcomes, mark),
    decreases j,
{
    lemma_table_sizes();
    let now = outcomes.take(j);
    let before = outcomes.take(j - 1);
    assert(now.drop_last() =~= before);
    assert(now.last() == outcomes[j - 1]);
    lemma_run_wf(job, before);
    lemma_step_onward(job_after(job, before), outcomes[j - 1]);
    if j == k + 1 {
        assert(job_after(job, now).stage is CheckingOut);
    } else {
        lemma_after_up_to_date(job, outcomes, k, j - 1, mark);
        if place(mark) < place(job_after(job, now).stage) {
            lemma_no_skipping(job_after(job, before), outcomes[j - 1], mark);
            if place(mark) == place(job_after(job, before).stage) {
                assert(job_after(job, before).stage == mark);
                assert(job_after(job, outcomes.take(j - 1)).stage == mark);
            }
        }
    }
}

/// With nothing new on the remote, no commit is made and the folder is still
/// put in order. If the analysis found the folder up to date at some point
/// of a run, then at no point of the run did the job create or move a branch
/// or ask for a commit; and if the run went on to the downloads, then it
/// cleaned every managed directory and probed every overlay entry on its
/// way.
pub proof fn lemma_up_to_date_still_cleans(job: SyncJob, outcomes: Seq<Outcome>, k: int)
    requires
        job.wf(),
        0 <= k < outcomes.len(),
        job_after(job, outcomes.take(k)).stage is Analyzing,
        outcomes[k] matches Outcome::Analysis { up_to_date, .. } && up_to_date,
    ensures
        forall|stage: SyncStage| rewrites_history(stage) ==> !visits(job, outcomes, stage),
        place(job_after(job, outcomes).stage) >= place(SyncStage::PreparingDownloads) ==> {
            &&& forall|i: usize|
                i < managed_count() ==> #[trigger] visits(job, outcomes, SyncStage::Cleaning(i))
            &&& forall|i: usize|
                i < overlay_count() ==> #[trigger] visits(
                    job,
                    outcomes,
                    SyncStage::ProbingSource(i),
                )
        },
{
    lemma_table_sizes();
    assert forall|stage: SyncStage| rewrites_history(stage) implies !visits(
        job,
        outcomes,
        stage,
    ) by {
        assert forall|j: int| 0 <= j <= outcomes.len() implies #[trigger] job_after(
            job,
            outcomes.take(j),
        ).stage != stage by {
            if j <= k {
                lemma_run_onward(job, outcomes.take(k), j);
                assert(outcomes.take(k).take(j) =~= outcomes.take(j));
            } else if !(job_after(job, outcomes.take(j)).stage is Finished) {
                lemma_after_up_to_date(job, outcomes, k, j, SyncStage::Cleaning(0));
            }
        }
    }
    if place(job_after(job, outcomes).stage) >= place(SyncStage::PreparingDownloads) {
        assert(outcomes.take(outcomes.len() as int) =~= outcomes);
        assert forall|i: usize| i < managed_count() implies #[trigger] visits(
            job,
            outcomes,
            SyncStage::Cleaning(i),
        ) by {
            lemma_after_up_to_date(job, outcomes, k, outcomes.len() as int, SyncStage::Cleaning(i));
        }
        assert forall|i: usize| i < overlay_count() implies #[trigger] visits(
            job,
            outcomes,
            SyncStage::ProbingSource(i),
        ) by {
            lemma_after_up_to_date(
                job,
                outcomes,
                k,
                outcomes.len() as int,
                SyncStage::ProbingSource(i),
            );
        }
    }
}

} // verus!
