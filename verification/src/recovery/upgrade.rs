//! The course of an upgrade, one step at a time.
//!
//! An [`Upgrade`] never touches the system. It names the step to take next,
//! is told how that step went, and so moves from probing the partitions to
//! the last copied file; whoever drives it does the work. At the first
//! failure the course ends, and everything acquired until then is named for
//! release, the last acquired first.

use crate::checksum::ValidateError;
use crate::recovery::error::Failure;
use crate::recovery::error::RecoveryError;
use crate::recovery::error::ReleaseArchError;
use crate::recovery::layout::join;
use crate::recovery::layout::joined;
use crate::recovery::layout::sync_of;
use crate::recovery::layout::sync_spec;
use crate::recovery::layout::SyncModel;
use crate::recovery::layout::SyncSpec;
use crate::recovery::layout::EFI_PATH;
use crate::recovery::layout::ISO_FILESYSTEM;
use crate::recovery::layout::ISO_NAME;
use crate::recovery::order::on_course;
use crate::recovery::order::starts_on_course;
use crate::recovery::order::stays_on_course;
use crate::release::api::ApiError;
use crate::release::api::Release;
use crate::release::check::next_str;
use crate::release::check::release_str;
use crate::release::check::upgrade_of;
use crate::release::check::Unsupported;
use crate::release::check::Version;
use vstd::prelude::*;

verus! {

/// How many transfers run at once while an image is fetched.
pub const FETCH_THREADS: usize = 8;

/// After how many milliseconds, at the least, progress is reported again.
pub const FETCH_CADENCE: u64 = 1000;

/// Where the installer image comes from.
#[derive(Debug)]
pub enum IsoSource {
    /// From the catalog. A version or architecture that is not given is that
    /// of the running system; with `next`, the version is the successor of
    /// the running release.
    FromRelease { version: Option<String>, arch: Option<String>, next: bool },
    /// From a file that is already there.
    FromFile { path: String },
}

/// An image source, its texts by their characters.
pub ghost enum SourceModel {
    FromRelease { version: Option<Seq<char>>, arch: Option<Seq<char>>, next: bool },
    FromFile { path: Seq<char> },
}

/// A text that may be missing, by its characters.
pub open spec fn text_of(text: Option<String>) -> Option<Seq<char>> {
    match text {
        Some(text) => Some(text@),
        None => None,
    }
}

impl View for IsoSource {
    type V = SourceModel;

    open spec fn view(&self) -> SourceModel {
        match *self {
            IsoSource::FromRelease { version, arch, next } => SourceModel::FromRelease {
                version: text_of(version),
                arch: text_of(arch),
                next,
            },
            IsoSource::FromFile { path } => SourceModel::FromFile { path: path@ },
        }
    }
}

/// Something acquired in the course of an upgrade that has to be given back.
#[derive(Clone, Copy, Debug, PartialEq, Eq, Structural)]
pub enum Resource {
    /// The temporary directory that holds the fetched image.
    DownloadDir,
    /// The open file of the fetched image.
    File,
    /// The temporary directory at which the image is mounted.
    MountDir,
    /// The mount of the image.
    Mount,
}

/// How far an upgrade has come: the step that is waited for.
#[derive(Clone, Copy, Debug, PartialEq, Eq, Structural)]
pub enum Stage {
    Recovery,
    Efi,
    Uuid,
    IsoFile,
    Version,
    Arch,
    Catalog,
    DownloadDir,
    Open,
    Fetch,
    Flush,
    Rewind,
    Validate,
    MountDir,
    Mount,
    /// Mirroring the tree with this index in the sync specification.
    Mirror(usize),
    /// Copying the payload with this index in the sync specification.
    Copy(usize),
    Finished,
}

/// The step to take next.
#[derive(Debug, PartialEq, Eq)]
pub enum Action {
    /// Find out whether `path` exists.
    CheckExists { path: String },
    /// Read the UUID of the filesystem mounted at `path`.
    ReadUuid { path: String },
    /// Read the version of the running release.
    DetectVersion,
    /// Determine the architecture of the machine.
    DetectArch,
    /// Ask the catalog to describe a release.
    GetRelease { version: String, arch: String },
    /// Make a temporary directory that nobody else uses.
    CreateDir,
    /// Create the file `path`, empty, for writing and reading.
    OpenFile { path: String },
    /// Fetch `url` into the open file, over `threads` transfers at once,
    /// reporting progress every `cadence` milliseconds at the most.
    Fetch { url: String, path: String, threads: usize, cadence: u64 },
    /// Flush the open file to stable storage.
    Flush,
    /// Move the read position of the open file to its start.
    Rewind,
    /// Hold the content of the open file against the digest `expected`.
    Validate { path: String, expected: String },
    /// Mount `source` at `target`. With `detach`, the mount is to be released
    /// by detaching it, which does not wait for files that are still open.
    Mount { source: String, target: String, filesystem: String, read_only: bool, detach: bool },
    /// Make `destination` hold an exact copy of the tree `source`, removing
    /// what `source` does not have.
    Mirror { source: String, destination: String },
    /// Copy the file `source` over `destination`.
    Copy { source: String, destination: String },
    /// Nothing is left to do but to release what is held.
    Finish,
}

/// A step, its texts by their characters.
pub ghost enum ActionModel {
    CheckExists { path: Seq<char> },
    ReadUuid { path: Seq<char> },
    DetectVersion,
    DetectArch,
    GetRelease { version: Seq<char>, arch: Seq<char> },
    CreateDir,
    OpenFile { path: Seq<char> },
    Fetch { url: Seq<char>, path: Seq<char>, threads: usize, cadence: u64 },
    Flush,
    Rewind,
    Validate { path: Seq<char>, expected: Seq<char> },
    Mount {
        source: Seq<char>,
        target: Seq<char>,
        filesystem: Seq<char>,
        read_only: bool,
        detach: bool,
    },
    Mirror { source: Seq<char>, destination: Seq<char> },
    Copy { source: Seq<char>, destination: Seq<char> },
    Finish,
}

impl View for Action {
    type V = ActionModel;

    open spec fn view(&self) -> ActionModel {
        match *self {
            Action::CheckExists { path } => ActionModel::CheckExists { path: path@ },
            Action::ReadUuid { path } => ActionModel::ReadUuid { path: path@ },
            Action::DetectVersion => ActionModel::DetectVersion,
            Action::DetectArch => ActionModel::DetectArch,
            Action::GetRelease { version, arch } => ActionModel::GetRelease {
                version: version@,
                arch: arch@,
            },
            Action::CreateDir => ActionModel::CreateDir,
            Action::OpenFile { path } => ActionModel::OpenFile { path: path@ },
            Action::Fetch { url, path, threads, cadence } => ActionModel::Fetch {
                url: url@,
                path: path@,
                threads,
                cadence,
            },
            Action::Flush => ActionModel::Flush,
            Action::Rewind => ActionModel::Rewind,
            Action::Validate { path, expected } => ActionModel::Validate {
                path: path@,
                expected: expected@,
            },
            Action::Mount { source, target, filesystem, read_only, detach } => ActionModel::Mount {
                source: source@,
                target: target@,
                filesystem: filesystem@,
                read_only,
                detach,
            },
            Action::Mirror { source, destination } => ActionModel::Mirror {
                source: source@,
                destination: destination@,
            },
            Action::Copy { source, destination } => ActionModel::Copy {
                source: source@,
                destination: destination@,
            },
            Action::Finish => ActionModel::Finish,
        }
    }
}

/// How a step went.
#[derive(Debug)]
pub enum Event {
    /// What a check for existence found.
    Exists(bool),
    /// What a step that yields a text came to: a UUID, or the path of a new
    /// directory.
    Text(Result<String, std::io::Error>),
    /// What a step that yields nothing came to.
    Done(Result<(), std::io::Error>),
    /// What reading the running release came to.
    Version(Result<Version, ubuntu_version::VersionError>),
    /// What determining the architecture came to.
    Arch(Result<String, ReleaseArchError>),
    /// What the catalog answered.
    Release(Result<Release, ApiError>),
    /// What holding the image against the announced digest came to.
    Checked(Result<(), ValidateError>),
}

/// The state of an upgrade as contracts speak of it.
pub ghost struct UpgradeModel {
    pub stage: Stage,
    pub source: SourceModel,
    /// Where the recovery partition is mounted.
    pub recovery: Seq<char>,
    /// The UUID of the filesystem of the recovery partition.
    pub uuid: Seq<char>,
    /// The release to fetch, and the architecture to fetch it for.
    pub version: Seq<char>,
    pub arch: Seq<char>,
    /// Where the image is fetched from, and its announced digest.
    pub url: Seq<char>,
    pub sha_sum: Seq<char>,
    /// The path of the image.
    pub iso: Seq<char>,
    /// Where the image is mounted.
    pub mount: Seq<char>,
    /// What has been acquired and not given back, in the order of acquiring.
    pub held: Seq<Resource>,
    /// Why the upgrade failed, if it did.
    pub failure: Option<Failure>,
}

impl UpgradeModel {
    /// An upgrade of the recovery partition at `recovery`, before its first step.
    pub open spec fn start(recovery: Seq<char>, source: SourceModel) -> UpgradeModel {
        UpgradeModel {
            stage: Stage::Recovery,
            source,
            recovery,
            uuid: Seq::empty(),
            version: Seq::empty(),
            arch: Seq::empty(),
            url: Seq::empty(),
            sha_sum: Seq::empty(),
            iso: Seq::empty(),
            mount: Seq::empty(),
            held: Seq::empty(),
            failure: None,
        }
    }

    /// What this upgrade writes once the image is mounted.
    pub open spec fn plan(self) -> SyncModel {
        sync_of(self.mount, self.recovery, self.uuid)
    }

    /// Whether `event` is an answer to the step that is waited for.
    pub open spec fn accepts(self, event: Event) -> bool {
        match self.stage {
            Stage::Recovery | Stage::Efi | Stage::IsoFile => event is Exists,
            Stage::Uuid | Stage::DownloadDir | Stage::MountDir => event is Text,
            Stage::Version => event is Version,
            Stage::Arch => event is Arch,
            Stage::Catalog => event is Release,
            Stage::Open | Stage::Fetch | Stage::Flush | Stage::Rewind | Stage::Mount => event is Done,
            Stage::Mirror(_) | Stage::Copy(_) => event is Done,
            Stage::Validate => event is Checked,
            Stage::Finished => false,
        }
    }

    /// This upgrade, waiting for another step.
    pub open spec fn at(self, stage: Stage) -> UpgradeModel {
        UpgradeModel { stage, ..self }
    }

    /// This upgrade, ended by a failure. What is held stays held.
    pub open spec fn fail(self, failure: Failure) -> UpgradeModel {
        UpgradeModel { stage: Stage::Finished, failure: Some(failure), ..self }
    }

    /// This upgrade, having acquired `resource`.
    pub open spec fn hold(self, resource: Resource) -> UpgradeModel {
        UpgradeModel { held: self.held.push(resource), ..self }
    }

    /// The step after the architecture is settled, or the step that settles it.
    pub open spec fn choose_arch(self) -> UpgradeModel {
        match self.source {
            SourceModel::FromRelease { arch: Some(arch), .. } => UpgradeModel {
                arch,
                ..self
            }.at(Stage::Catalog),
            _ => self.at(Stage::Arch),
        }
    }

    /// The first step towards the image.
    pub open spec fn resolve(self) -> UpgradeModel {
        match self.source {
            SourceModel::FromFile { .. } => self.at(Stage::IsoFile),
            SourceModel::FromRelease { version: Some(version), .. } => UpgradeModel {
                version,
                ..self
            }.choose_arch(),
            SourceModel::FromRelease { version: None, .. } => self.at(Stage::Version),
        }
    }

    /// The release to fetch when the running release is `running`: its
    /// successor if the successor was asked for, else the running release.
    pub open spec fn detected(self, running: Version) -> UpgradeModel {
        match upgrade_of(running.major, running.minor) {
            Some(upgrade) => UpgradeModel {
                version: if self.source matches SourceModel::FromRelease { next: true, .. } {
                    upgrade.next
                } else {
                    upgrade.current
                },
                ..self
            }.choose_arch(),
            None => self.fail(
                Failure::UnsupportedRelease(
                    Unsupported { major: running.major, minor: running.minor },
                ),
            ),
        }
    }

    /// The state after `event` answered the step that was waited for. An
    /// event that is no answer to that step changes nothing.
    pub open spec fn advance(self, event: Event) -> UpgradeModel {
        match (self.stage, event) {
            (Stage::Recovery, Event::Exists(found)) => if found {
                self.at(Stage::Efi)
            } else {
                self.fail(Failure::RecoveryNotFound)
            },
            (Stage::Efi, Event::Exists(found)) => if found {
                self.at(Stage::Uuid)
            } else {
                self.fail(Failure::EfiNotFound)
            },
            (Stage::Uuid, Event::Text(Ok(uuid))) => UpgradeModel { uuid: uuid@, ..self }.resolve(),
            (Stage::Uuid, Event::Text(Err(why))) => self.fail(Failure::Io(why)),
            (Stage::IsoFile, Event::Exists(found)) => match self.source {
                SourceModel::FromFile { path } if found => UpgradeModel { iso: path, ..self }.at(
                    Stage::MountDir,
                ),
                _ => self.fail(Failure::IsoNotFound),
            },
            (Stage::Version, Event::Version(Ok(running))) => self.detected(running),
            (Stage::Version, Event::Version(Err(why))) => self.fail(Failure::ReleaseVersion(why)),
            (Stage::Arch, Event::Arch(Ok(arch))) => UpgradeModel { arch: arch@, ..self }.at(
                Stage::Catalog,
            ),
            (Stage::Arch, Event::Arch(Err(why))) => self.fail(Failure::ReleaseArch(why)),
            (Stage::Catalog, Event::Release(Ok(release))) => UpgradeModel {
                url: release.url@,
                sha_sum: release.sha_sum@,
                ..self
            }.at(Stage::DownloadDir),
            (Stage::Catalog, Event::Release(Err(why))) => self.fail(Failure::ApiError(why)),
            (Stage::DownloadDir, Event::Text(Ok(dir))) => UpgradeModel {
                iso: joined(dir@, ISO_NAME@),
                ..self
            }.hold(Resource::DownloadDir).at(Stage::Open),
            (Stage::DownloadDir, Event::Text(Err(why))) => self.fail(
                Failure::Download(Box::new(Failure::TempDir(why))),
            ),
            (Stage::Open, Event::Done(Ok(_))) => self.hold(Resource::File).at(Stage::Fetch),
            (Stage::Open, Event::Done(Err(why))) => self.fail(
                Failure::Download(Box::new(Failure::Io(why))),
            ),
            (Stage::Fetch, Event::Done(Ok(_))) => self.at(Stage::Flush),
            (Stage::Fetch, Event::Done(Err(why))) => self.fail(
                Failure::Download(Box::new(Failure::Fetch { url: self.url, why })),
            ),
            (Stage::Flush, Event::Done(Ok(_))) => self.at(Stage::Rewind),
            (Stage::Flush, Event::Done(Err(why))) => self.fail(
                Failure::Download(Box::new(Failure::Io(why))),
            ),
            (Stage::Rewind, Event::Done(Ok(_))) => self.at(Stage::Validate),
            (Stage::Rewind, Event::Done(Err(why))) => self.fail(
                Failure::Download(Box::new(Failure::Io(why))),
            ),
            (Stage::Validate, Event::Checked(Ok(_))) => self.at(Stage::MountDir),
            (Stage::Validate, Event::Checked(Err(why))) => self.fail(
                Failure::Download(Box::new(Failure::Checksum { path: self.iso, why })),
            ),
            (Stage::MountDir, Event::Text(Ok(dir))) => UpgradeModel { mount: dir@, ..self }.hold(
                Resource::MountDir,
            ).at(Stage::Mount),
            (Stage::MountDir, Event::Text(Err(why))) => self.fail(Failure::TempDir(why)),
            (Stage::Mount, Event::Done(Ok(_))) => self.hold(Resource::Mount).at(Stage::Mirror(0)),
            (Stage::Mount, Event::Done(Err(why))) => self.fail(Failure::Io(why)),
            (Stage::Mirror(index), Event::Done(Ok(_))) => if index + 1 < self.plan().mirrors.len() {
                self.at(Stage::Mirror((index + 1) as usize))
            } else {
                self.at(Stage::Copy(0))
            },
            (Stage::Mirror(_), Event::Done(Err(why))) => self.fail(Failure::Io(why)),
            (Stage::Copy(index), Event::Done(Ok(_))) => if index + 1 < self.plan().payloads.len() {
                self.at(Stage::Copy((index + 1) as usize))
            } else {
                self.at(Stage::Finished)
            },
            (Stage::Copy(_), Event::Done(Err(why))) => self.fail(Failure::Io(why)),
            _ => self,
        }
    }

    /// The step that is waited for.
    pub open spec fn pending(self) -> ActionModel {
        match self.stage {
            Stage::Recovery => ActionModel::CheckExists { path: self.recovery },
            Stage::Efi => ActionModel::CheckExists { path: EFI_PATH@ },
            Stage::Uuid => ActionModel::ReadUuid { path: self.recovery },
            Stage::IsoFile => ActionModel::CheckExists {
                path: match self.source {
                    SourceModel::FromFile { path } => path,
                    _ => self.iso,
                },
            },
            Stage::Version => ActionModel::DetectVersion,
            Stage::Arch => ActionModel::DetectArch,
            Stage::Catalog => ActionModel::GetRelease { version: self.version, arch: self.arch },
            Stage::DownloadDir => ActionModel::CreateDir,
            Stage::Open => ActionModel::OpenFile { path: self.iso },
            Stage::Fetch => ActionModel::Fetch {
                url: self.url,
                path: self.iso,
                threads: FETCH_THREADS,
                cadence: FETCH_CADENCE,
            },
            Stage::Flush => ActionModel::Flush,
            Stage::Rewind => ActionModel::Rewind,
            Stage::Validate => ActionModel::Validate { path: self.iso, expected: self.sha_sum },
            Stage::MountDir => ActionModel::CreateDir,
            Stage::Mount => ActionModel::Mount {
                source: self.iso,
                target: self.mount,
                filesystem: ISO_FILESYSTEM@,
                read_only: true,
                detach: true,
            },
            Stage::Mirror(index) => if index < self.plan().mirrors.len() {
                ActionModel::Mirror {
                    source: self.plan().mirrors[index as int].source,
                    destination: self.plan().mirrors[index as int].destination,
                }
            } else {
                ActionModel::Finish
            },
            Stage::Copy(index) => if index < self.plan().payloads.len() {
                ActionModel::Copy {
                    source: self.plan().payloads[index as int].source,
                    destination: self.plan().payloads[index as int].destination,
                }
            } else {
                ActionModel::Finish
            },
            Stage::Finished => ActionModel::Finish,
        }
    }

    /// What is to be released when the upgrade ends here: all that is held,
    /// the last acquired first.
    pub open spec fn release(self) -> Seq<Resource> {
        self.held.reverse()
    }

    /// How the upgrade ended, if it has.
    pub open spec fn outcome(self) -> Option<Result<(), Failure>> {
        if self.stage == Stage::Finished {
            Some(
                match self.failure {
                    Some(failure) => Err(failure),
                    None => Ok(()),
                },
            )
        } else {
            None
        }
    }
}

/// An upgrade of the recovery partition, under way.
#[derive(Debug)]
pub struct Upgrade {
    stage: Stage,
    source: IsoSource,
    recovery: String,
    uuid: String,
    version: String,
    arch: String,
    url: String,
    sha_sum: String,
    iso: String,
    mount: String,
    plan: SyncSpec,
    held: Vec<Resource>,
    failure: Option<RecoveryError>,
}

impl View for Upgrade {
    type V = UpgradeModel;

    closed spec fn view(&self) -> UpgradeModel {
        UpgradeModel {
            stage: self.stage,
            source: self.source@,
            recovery: self.recovery@,
            uuid: self.uuid@,
            version: self.version@,
            arch: self.arch@,
            url: self.url@,
            sha_sum: self.sha_sum@,
            iso: self.iso@,
            mount: self.mount@,
            held: self.held@,
            failure: match self.failure {
                Some(error) => Some(error@),
                None => None,
            },
        }
    }
}

impl Upgrade {
    /// Every upgrade is on course, and while trees are mirrored and payloads
    /// copied, the sync specification at hand is its own.
    #[verifier::type_invariant]
    spec fn sound(self) -> bool {
        &&& on_course(self@)
        &&& (self.stage is Mirror || self.stage is Copy) ==> self.plan@ == sync_of(
            self.mount@,
            self.recovery@,
            self.uuid@,
        )
    }

    /// An upgrade of the recovery partition mounted at `recovery`, with the
    /// image taken from `source`. Its first step is to see that the
    /// partition is there.
    pub fn new(recovery: String, source: IsoSource) -> (upgrade: Upgrade)
        ensures
            upgrade@ == UpgradeModel::start(recovery@, source@),
            on_course(upgrade@),
    {
        proof {
            starts_on_course(recovery@, source@);
        }
        Upgrade {
            stage: Stage::Recovery,
            source,
            recovery,
            uuid: String::new(),
            version: String::new(),
            arch: String::new(),
            url: String::new(),
            sha_sum: String::new(),
            iso: String::new(),
            mount: String::new(),
            plan: SyncSpec { mirrors: Vec::new(), payloads: Vec::new() },
            held: Vec::new(),
            failure: None,
        }
    }

    /// The step that is waited for.
    pub fn stage(&self) -> (stage: Stage)
        ensures
            stage == self@.stage,
    {
        self.stage
    }

    /// Whether `event` is an answer to the step that is waited for.
    pub fn accepts(&self, event: &Event) -> (accepted: bool)
        ensures
            accepted == self@.accepts(*event),
    {
        match self.stage {
            Stage::Recovery | Stage::Efi | Stage::IsoFile => matches!(event, Event::Exists(_)),
            Stage::Uuid | Stage::DownloadDir | Stage::MountDir => matches!(event, Event::Text(_)),
            Stage::Version => matches!(event, Event::Version(_)),
            Stage::Arch => matches!(event, Event::Arch(_)),
            Stage::Catalog => matches!(event, Event::Release(_)),
            Stage::Open | Stage::Fetch | Stage::Flush | Stage::Rewind | Stage::Mount => matches!(
                event,
                Event::Done(_)
            ),
            Stage::Mirror(_) | Stage::Copy(_) => matches!(event, Event::Done(_)),
            Stage::Validate => matches!(event, Event::Checked(_)),
            Stage::Finished => false,
        }
    }

    fn at(self, stage: Stage) -> (next: Upgrade)
        requires
            !(stage is Mirror),
            !(stage is Copy),
            on_course(self@.at(stage)),
        ensures
            next@ == self@.at(stage),
    {
        Upgrade { stage, ..self }
    }

    fn fail(self, error: RecoveryError) -> (next: Upgrade)
        ensures
            next@ == self@.fail(error@),
    {
        proof {
            use_type_invariant(&self);
        }
        Upgrade { stage: Stage::Finished, failure: Some(error), ..self }
    }

    fn fail_download(self, cause: RecoveryError) -> (next: Upgrade)
        ensures
            next@ == self@.fail(Failure::Download(Box::new(cause@))),
    {
        self.fail(RecoveryError::Download(Box::new(cause)))
    }

    fn acquire(self, resource: Resource, stage: Stage) -> (next: Upgrade)
        requires
            !(stage is Mirror),
            !(stage is Copy),
            on_course(self@.hold(resource).at(stage)),
        ensures
            next@ == self@.hold(resource).at(stage),
    {
        let Upgrade {
            stage: _,
            source,
            recovery,
            uuid,
            version,
            arch,
            url,
            sha_sum,
            iso,
            mount,
            plan,
            held,
            failure,
        } = self;
        let mut held = held;
        held.push(resource);
        Upgrade {
            stage,
            source,
            recovery,
            uuid,
            version,
            arch,
            url,
            sha_sum,
            iso,
            mount,
            plan,
            held,
            failure,
        }
    }

    fn mounted(self) -> (next: Upgrade)
        requires
            on_course(self@.hold(Resource::Mount).at(Stage::Mirror(0))),
        ensures
            next@ == self@.hold(Resource::Mount).at(Stage::Mirror(0)),
    {
        let Upgrade {
            stage: _,
            source,
            recovery,
            uuid,
            version,
            arch,
            url,
            sha_sum,
            iso,
            mount,
            plan: _,
            held,
            failure,
        } = self;
        let plan = sync_spec(mount.as_str(), recovery.as_str(), uuid.as_str());
        let mut held = held;
        held.push(Resource::Mount);
        Upgrade {
            stage: Stage::Mirror(0),
            source,
            recovery,
            uuid,
            version,
            arch,
            url,
            sha_sum,
            iso,
            mount,
            plan,
            held,
            failure,
        }
    }

    fn choose_arch(self) -> (next: Upgrade)
        requires
            on_course(self@.choose_arch()),
        ensures
            next@ == self@.choose_arch(),
    {
        let given = match &self.source {
            IsoSource::FromRelease { arch: Some(arch), .. } => Some(arch.clone()),
            _ => None,
        };
        match given {
            Some(arch) => Upgrade { stage: Stage::Catalog, arch, ..self },
            None => self.at(Stage::Arch),
        }
    }

    fn resolve(self) -> (next: Upgrade)
        requires
            on_course(self@.resolve()),
        ensures
            next@ == self@.resolve(),
    {
        proof {
            use_type_invariant(&self);
        }
        let given = match &self.source {
            IsoSource::FromFile { .. } => {
                return self.at(Stage::IsoFile);
            },
            IsoSource::FromRelease { version: Some(version), .. } => Some(version.clone()),
            IsoSource::FromRelease { version: None, .. } => None,
        };
        match given {
            Some(version) => (Upgrade { version, ..self }).choose_arch(),
            None => self.at(Stage::Version),
        }
    }

    fn detected(self, running: Version) -> (next: Upgrade)
        requires
            on_course(self@.detected(running)),
        ensures
            next@ == self@.detected(running),
    {
        proof {
            use_type_invariant(&self);
        }
        let successor = match &self.source {
            IsoSource::FromRelease { next, .. } => *next,
            _ => false,
        };
        let name = if successor {
            next_str(running.major, running.minor)
        } else {
            release_str(running.major, running.minor)
        };
        match name {
            Ok(name) => (Upgrade { version: name.to_owned(), ..self }).choose_arch(),
            Err(unsupported) => self.fail(RecoveryError::UnsupportedRelease(unsupported)),
        }
    }

    /// Takes note of how the step that was waited for went. An event that is
    /// no answer to that step changes nothing.
    pub fn advance(self, event: Event) -> (next: Upgrade)
        ensures
            next@ == self@.advance(event),
            on_course(self@),
            on_course(next@),
    {
        proof {
            use_type_invariant(&self);
            stays_on_course(self@, event);
        }
        match (self.stage, event) {
            (Stage::Recovery, Event::Exists(found)) => if found {
                self.at(Stage::Efi)
            } else {
                self.fail(RecoveryError::RecoveryNotFound)
            },
            (Stage::Efi, Event::Exists(found)) => if found {
                self.at(Stage::Uuid)
            } else {
                self.fail(RecoveryError::EfiNotFound)
            },
            (Stage::Uuid, Event::Text(Ok(uuid))) => (Upgrade { uuid, ..self }).resolve(),
            (Stage::Uuid, Event::Text(Err(why))) => self.fail(RecoveryError::Io(why)),
            (Stage::IsoFile, Event::Exists(found)) => {
                let given = match &self.source {
                    IsoSource::FromFile { path } if found => Some(path.clone()),
                    _ => None,
                };
                match given {
                    Some(iso) => Upgrade { stage: Stage::MountDir, iso, ..self },
                    None => self.fail(RecoveryError::IsoNotFound),
                }
            },
            (Stage::Version, Event::Version(Ok(running))) => self.detected(running),
            (Stage::Version, Event::Version(Err(why))) => self.fail(
                RecoveryError::ReleaseVersion(why),
            ),
            (Stage::Arch, Event::Arch(Ok(arch))) => Upgrade { stage: Stage::Catalog, arch, ..self },
            (Stage::Arch, Event::Arch(Err(why))) => self.fail(RecoveryError::ReleaseArch(why)),
            (Stage::Catalog, Event::Release(Ok(release))) => Upgrade {
                stage: Stage::DownloadDir,
                url: release.url,
                sha_sum: release.sha_sum,
                ..self
            },
            (Stage::Catalog, Event::Release(Err(why))) => self.fail(RecoveryError::ApiError(why)),
            (Stage::DownloadDir, Event::Text(Ok(dir))) => (Upgrade {
                iso: join(dir.as_str(), ISO_NAME),
                ..self
            }).acquire(Resource::DownloadDir, Stage::Open),
            (Stage::DownloadDir, Event::Text(Err(why))) => self.fail_download(
                RecoveryError::TempDir(why),
            ),
            (Stage::Open, Event::Done(Ok(_))) => self.acquire(Resource::File, Stage::Fetch),
            (Stage::Open, Event::Done(Err(why))) => self.fail_download(RecoveryError::Io(why)),
            (Stage::Fetch, Event::Done(Ok(_))) => self.at(Stage::Flush),
            (Stage::Fetch, Event::Done(Err(why))) => {
                let url = self.url.clone();
                self.fail_download(RecoveryError::Fetch { url, why })
            },
            (Stage::Flush, Event::Done(Ok(_))) => self.at(Stage::Rewind),
            (Stage::Flush, Event::Done(Err(why))) => self.fail_download(RecoveryError::Io(why)),
            (Stage::Rewind, Event::Done(Ok(_))) => self.at(Stage::Validate),
            (Stage::Rewind, Event::Done(Err(why))) => self.fail_download(RecoveryError::Io(why)),
            (Stage::Validate, Event::Checked(Ok(_))) => self.at(Stage::MountDir),
            (Stage::Validate, Event::Checked(Err(why))) => {
                let path = self.iso.clone();
                self.fail_download(RecoveryError::Checksum { path, why })
            },
            (Stage::MountDir, Event::Text(Ok(dir))) => (Upgrade { mount: dir, ..self }).acquire(
                Resource::MountDir,
                Stage::Mount,
            ),
            (Stage::MountDir, Event::Text(Err(why))) => self.fail(RecoveryError::TempDir(why)),
            (Stage::Mount, Event::Done(Ok(_))) => self.mounted(),
            (Stage::Mount, Event::Done(Err(why))) => self.fail(RecoveryError::Io(why)),
            (Stage::Mirror(index), Event::Done(Ok(_))) => {
                if index < usize::MAX && index + 1 < self.plan.mirrors.len() {
                    Upgrade { stage: Stage::Mirror(index + 1), ..self }
                } else {
                    Upgrade { stage: Stage::Copy(0), ..self }
                }
            },
            (Stage::Mirror(_), Event::Done(Err(why))) => self.fail(RecoveryError::Io(why)),
            (Stage::Copy(index), Event::Done(Ok(_))) => {
                if index < usize::MAX && index + 1 < self.plan.payloads.len() {
                    Upgrade { stage: Stage::Copy(index + 1), ..self }
                } else {
                    self.at(Stage::Finished)
                }
            },
            (Stage::Copy(_), Event::Done(Err(why))) => self.fail(RecoveryError::Io(why)),
            _ => self,
        }
    }

    /// The step to take next.
    pub fn pending(&self) -> (action: Action)
        ensures
            action@ == self@.pending(),
            on_course(self@),
    {
        proof {
            use_type_invariant(self);
        }
        match self.stage {
            Stage::Recovery => Action::CheckExists { path: self.recovery.clone() },
            Stage::Efi => Action::CheckExists { path: EFI_PATH.to_owned() },
            Stage::Uuid => Action::ReadUuid { path: self.recovery.clone() },
            Stage::IsoFile => Action::CheckExists {
                path: match &self.source {
                    IsoSource::FromFile { path } => path.clone(),
                    _ => self.iso.clone(),
                },
            },
            Stage::Version => Action::DetectVersion,
            Stage::Arch => Action::DetectArch,
            Stage::Catalog => Action::GetRelease {
                version: self.version.clone(),
                arch: self.arch.clone(),
            },
            Stage::DownloadDir => Action::CreateDir,
            Stage::Open => Action::OpenFile { path: self.iso.clone() },
            Stage::Fetch => Action::Fetch {
                url: self.url.clone(),
                path: self.iso.clone(),
                threads: FETCH_THREADS,
                cadence: FETCH_CADENCE,
            },
            Stage::Flush => Action::Flush,
            Stage::Rewind => Action::Rewind,
            Stage::Validate => Action::Validate {
                path: self.iso.clone(),
                expected: self.sha_sum.clone(),
            },
            Stage::MountDir => Action::CreateDir,
            Stage::Mount => Action::Mount {
                source: self.iso.clone(),
                target: self.mount.clone(),
                filesystem: ISO_FILESYSTEM.to_owned(),
                read_only: true,
                detach: true,
            },
            Stage::Mirror(index) => if index < self.plan.mirrors.len() {
                Action::Mirror {
                    source: self.plan.mirrors[index].source.clone(),
                    destination: self.plan.mirrors[index].destination.clone(),
                }
            } else {
                Action::Finish
            },
            Stage::Copy(index) => if index < self.plan.payloads.len() {
                Action::Copy {
                    source: self.plan.payloads[index].source.clone(),
                    destination: self.plan.payloads[index].destination.clone(),
                }
            } else {
                Action::Finish
            },
            Stage::Finished => Action::Finish,
        }
    }

    /// What is to be released when the upgrade ends here: all that is held,
    /// the last acquired first.
    pub fn release(&self) -> (order: Vec<Resource>)
        ensures
            order@ == self@.release(),
            on_course(self@),
    {
        proof {
            use_type_invariant(self);
        }
        let mut order: Vec<Resource> = Vec::new();
        let mut left: usize = self.held.len();
        while left > 0
            invariant
                left <= self.held@.len(),
                order@.len() == self.held@.len() - left,
                forall|i: int|
                    0 <= i < order@.len() ==> order@[i] == self.held@[self.held@.len() - 1 - i],
            decreases left,
        {
            left = left - 1;
            order.push(self.held[left]);
        }
        order
    }

    /// How the upgrade ended, if it has.
    pub fn outcome(self) -> (outcome: Option<Result<(), RecoveryError>>)
        ensures
            match outcome {
                Some(Ok(_)) => self@.outcome() == Some(Ok::<(), Failure>(())),
                Some(Err(error)) => self@.outcome() == Some(Err::<(), Failure>(error@)),
                None => self@.outcome() is None,
            },
    {
        match self.stage {
            Stage::Finished => match self.failure {
                Some(error) => Some(Err(error)),
                None => Some(Ok(())),
            },
            _ => None,
        }
    }
}

} // verus!
