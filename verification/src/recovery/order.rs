//! What holds of every upgrade, whatever the system answers: the steps come
//! in one order, a failure ends the course, and what was acquired is given
//! back in reverse.

use crate::recovery::upgrade::ActionModel;
use crate::recovery::upgrade::Event;
use crate::recovery::upgrade::Resource;
use crate::recovery::upgrade::SourceModel;
use crate::recovery::upgrade::Stage;
use crate::recovery::upgrade::UpgradeModel;
use vstd::prelude::*;

verus! {

/// Everything an upgrade with this source acquires, in the order of acquiring.
pub open spec fn acquisitions(source: SourceModel) -> Seq<Resource> {
    match source {
        SourceModel::FromRelease { .. } => seq![
            Resource::DownloadDir,
            Resource::File,
            Resource::MountDir,
            Resource::Mount,
        ],
        SourceModel::FromFile { .. } => seq![Resource::MountDir, Resource::Mount],
    }
}

/// How much of `acquisitions` is held while the step of `stage` is waited for.
pub open spec fn held_while(stage: Stage, source: SourceModel) -> nat {
    let fetched: nat = if source is FromRelease {
        2
    } else {
        0
    };
    match stage {
        Stage::Open => 1,
        Stage::Fetch | Stage::Flush | Stage::Rewind | Stage::Validate => 2,
        Stage::MountDir => fetched,
        Stage::Mount => fetched + 1,
        Stage::Mirror(_) | Stage::Copy(_) => fetched + 2,
        _ => 0,
    }
}

/// The place of a stage in the order of the steps.
pub open spec fn rank(stage: Stage) -> nat {
    match stage {
        Stage::Recovery => 0,
        Stage::Efi => 1,
        Stage::Uuid => 2,
        Stage::IsoFile => 3,
        Stage::Version => 3,
        Stage::Arch => 4,
        Stage::Catalog => 5,
        Stage::DownloadDir => 6,
        Stage::Open => 7,
        Stage::Fetch => 8,
        Stage::Flush => 9,
        Stage::Rewind => 10,
        Stage::Validate => 11,
        Stage::MountDir => 12,
        Stage::Mount => 13,
        Stage::Mirror(index) => 14 + index as nat,
        Stage::Copy(index) => 18 + index as nat,
        Stage::Finished => 20,
    }
}

/// Whether an event reports that a step did not succeed.
pub open spec fn reports_failure(event: Event) -> bool {
    match event {
        Event::Exists(found) => !found,
        Event::Text(result) => result is Err,
        Event::Done(result) => result is Err,
        Event::Version(result) => result is Err,
        Event::Arch(result) => result is Err,
        Event::Release(result) => result is Err,
        Event::Checked(result) => result is Err,
    }
}

/// What holds of an upgrade at every point of its course.
pub open spec fn on_course(upgrade: UpgradeModel) -> bool {
    let all = acquisitions(upgrade.source);
    &&& upgrade.held.len() <= all.len()
    &&& upgrade.held == all.take(upgrade.held.len() as int)
    &&& upgrade.stage != Stage::Finished ==> upgrade.held.len() == held_while(
        upgrade.stage,
        upgrade.source,
    )
    &&& upgrade.stage != Stage::Finished ==> upgrade.failure is None
    &&& upgrade.stage == Stage::IsoFile ==> upgrade.source is FromFile
    &&& 3 < rank(upgrade.stage) < 12 ==> upgrade.source is FromRelease
    &&& upgrade.stage == Stage::Version ==> upgrade.source is FromRelease
    &&& upgrade.stage matches Stage::Mirror(index) ==> index < upgrade.plan().mirrors.len()
    &&& upgrade.stage matches Stage::Copy(index) ==> index < upgrade.plan().payloads.len()
}

/// An upgrade starts on course.
pub proof fn starts_on_course(recovery: Seq<char>, source: SourceModel)
    ensures
        on_course(UpgradeModel::start(recovery, source)),
{
    let start = UpgradeModel::start(recovery, source);
    assert(start.held =~= acquisitions(source).take(0));
}

/// Whatever answer it is given, an upgrade stays on course.
pub proof fn stays_on_course(upgrade: UpgradeModel, event: Event)
    requires
        on_course(upgrade),
    ensures
        on_course(upgrade.advance(event)),
{
    let next = upgrade.advance(event);
    let all = acquisitions(upgrade.source);
    assert(next.held == upgrade.held || (upgrade.held.len() < all.len() && next.held
        == upgrade.held.push(all[upgrade.held.len() as int])));
    assert(next.held =~= all.take(next.held.len() as int));
}

/// A step is followed by a later one, never by itself or an earlier one, so
/// that a course ends after at most twenty answers.
pub proof fn steps_go_forward(upgrade: UpgradeModel, event: Event)
    requires
        on_course(upgrade),
        upgrade.accepts(event),
    ensures
        rank(upgrade.stage) < rank(upgrade.advance(event).stage) <= 20,
{
}

/// The first failure ends the course: nothing more is asked for, the failure
/// is kept as the outcome, and what is held is left as it is, to be released.
pub proof fn failure_ends_course(upgrade: UpgradeModel, event: Event)
    requires
        upgrade.accepts(event),
        reports_failure(event),
    ensures
        upgrade.advance(event).stage == Stage::Finished,
        upgrade.advance(event).pending() == ActionModel::Finish,
        upgrade.advance(event).outcome() is Some,
        upgrade.advance(event).outcome()->Some_0 is Err,
        upgrade.advance(event).held == upgrade.held,
{
}

/// An ended course stays ended: no event is an answer, and none changes it.
pub proof fn end_is_final(upgrade: UpgradeModel, event: Event)
    requires
        upgrade.stage == Stage::Finished,
    ensures
        !upgrade.accepts(event),
        upgrade.advance(event) == upgrade,
{
}

/// A course ends well only with the success of the last copy.
pub proof fn success_is_last_copy(upgrade: UpgradeModel, event: Event)
    requires
        on_course(upgrade),
        upgrade.stage != Stage::Finished,
        upgrade.advance(event).outcome() == Some(Ok::<(), crate::recovery::error::Failure>(())),
    ensures
        upgrade.stage matches Stage::Copy(index) && index + 1 == upgrade.plan().payloads.len(),
        event matches Event::Done(Ok(_)),
{
}

/// The steps of fetching come in one order, each after the success of the one
/// before: the file is opened, filled, flushed, rewound, and only then held
/// against the announced digest.
pub proof fn fetch_is_ordered(upgrade: UpgradeModel, event: Event)
    requires
        upgrade.advance(event).stage != upgrade.stage,
    ensures
        upgrade.advance(event).stage == Stage::Fetch ==> upgrade.stage == Stage::Open
            && event matches Event::Done(Ok(_)),
        upgrade.advance(event).stage == Stage::Flush ==> upgrade.stage == Stage::Fetch
            && event matches Event::Done(Ok(_)),
        upgrade.advance(event).stage == Stage::Rewind ==> upgrade.stage == Stage::Flush
            && event matches Event::Done(Ok(_)),
        upgrade.advance(event).stage == Stage::Validate ==> upgrade.stage == Stage::Rewind
            && event matches Event::Done(Ok(_)),
{
}

/// An image is mounted only once it is trusted: a fetched image after it was
/// found to have the announced digest, a given file after it was found to
/// exist.
pub proof fn mount_needs_trust(upgrade: UpgradeModel, event: Event)
    requires
        upgrade.advance(event).stage == Stage::MountDir,
        upgrade.stage != Stage::MountDir,
    ensures
        (upgrade.stage == Stage::Validate && event matches Event::Checked(Ok(_))) || (upgrade.stage
            == Stage::IsoFile && upgrade.source is FromFile && event == Event::Exists(true)),
{
}

/// Trees are mirrored and payloads copied only while the image is mounted,
/// the trees first, in the order of the sync specification, and then the
/// payloads.
pub proof fn writes_need_mount(upgrade: UpgradeModel)
    requires
        on_course(upgrade),
        upgrade.pending() is Mirror || upgrade.pending() is Copy,
    ensures
        upgrade.held.len() > 0,
        upgrade.held.last() == Resource::Mount,
        upgrade.pending() is Mirror ==> upgrade.stage is Mirror,
        upgrade.pending() is Copy ==> upgrade.stage is Copy,
{
}

/// The first write follows the success of the mount, and the first copy the
/// success of the last mirror.
pub proof fn writes_are_ordered(upgrade: UpgradeModel, event: Event)
    requires
        on_course(upgrade),
        upgrade.advance(event).stage != upgrade.stage,
    ensures
        upgrade.advance(event).stage matches Stage::Mirror(index) ==> event matches Event::Done(
            Ok(_),
        ) && (if index == 0 {
            upgrade.stage == Stage::Mount
        } else {
            upgrade.stage == Stage::Mirror((index - 1) as usize)
        }),
        upgrade.advance(event).stage matches Stage::Copy(index) ==> event matches Event::Done(
            Ok(_),
        ) && (if index == 0 {
            upgrade.stage == Stage::Mirror((upgrade.plan().mirrors.len() - 1) as usize)
        } else {
            upgrade.stage == Stage::Copy((index - 1) as usize)
        }),
{
}

/// Whatever is held is released exactly once, the last acquired first: the
/// image is unmounted before the directory it was mounted at is removed, and
/// the file of a fetched image is closed before its directory is removed.
pub proof fn release_is_exact(upgrade: UpgradeModel)
    requires
        on_course(upgrade),
    ensures
        upgrade.release().len() == upgrade.held.len(),
        forall|resource: Resource|
            upgrade.held.contains(resource) <==> upgrade.release().contains(resource),
        forall|i: int, j: int|
            0 <= i < j < upgrade.release().len() ==> upgrade.release()[i] != upgrade.release()[j],
        forall|i: int, j: int|
            0 <= i < upgrade.release().len() && 0 <= j < upgrade.release().len()
                && upgrade.release()[i] == Resource::Mount && upgrade.release()[j]
                == Resource::MountDir ==> i < j,
        forall|i: int, j: int|
            0 <= i < upgrade.release().len() && 0 <= j < upgrade.release().len()
                && upgrade.release()[i] == Resource::File && upgrade.release()[j]
                == Resource::DownloadDir ==> i < j,
        upgrade.held.contains(Resource::Mount) ==> upgrade.held.contains(Resource::MountDir),
{
    let held = upgrade.held;
    let release = upgrade.release();
    let all = acquisitions(upgrade.source);
    assert forall|i: int| 0 <= i < held.len() implies held[i] == all[i] by {
        assert(held[i] == all.take(held.len() as int)[i]);
    }
    assert forall|resource: Resource| held.contains(resource) <==> release.contains(resource) by {
        if held.contains(resource) {
            let i = choose|i: int| 0 <= i < held.len() && held[i] == resource;
            assert(release[held.len() - 1 - i] == resource);
        }
        if release.contains(resource) {
            let i = choose|i: int| 0 <= i < release.len() && release[i] == resource;
            assert(held[held.len() - 1 - i] == resource);
        }
    }
    if held.contains(Resource::Mount) {
        let i = choose|i: int| 0 <= i < held.len() && held[i] == Resource::Mount;
        assert(held[i - 1] == Resource::MountDir);
    }
}

/// The image that is mounted is the image that was held against the
/// announced digest, and it is mounted read-only at the directory made for it.
pub proof fn mounted_image_is_checked_image(upgrade: UpgradeModel, dir: String)
    requires
        upgrade.stage == Stage::Validate,
    ensures
        ({
            let checked = upgrade.pending();
            let mounting = upgrade.advance(Event::Checked(Ok(()))).advance(
                Event::Text(Ok(dir)),
            ).pending();
            &&& checked is Validate
            &&& mounting is Mount
            &&& mounting->Mount_source == checked->Validate_path
            &&& mounting->Mount_target == dir@
            &&& mounting->read_only
        }),
{
}

} // verus!
