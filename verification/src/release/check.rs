//! The upgrade graph: which release follows the running one, and whether a
//! build of the successor can be had.

use crate::checksum::digit_char;
use crate::release::api::ApiError;
use crate::text::same_text;
use vstd::prelude::*;
use vstd::std_specs::cmp::PartialEqSpecImpl;
use vstd::std_specs::convert::FromSpecImpl;

verus! {

/// `ubuntu_version::VersionError`: why the running release could not be read.
/// It is carried as it came; nothing here looks inside it.
#[verifier::external_type_specification]
#[verifier::external_body]
pub struct ExVersionError(ubuntu_version::VersionError);

/// The version of a release, named after the date it came out.
#[derive(Clone, Copy, Debug, PartialEq, Eq, Structural)]
pub struct Version {
    pub major: u8,
    pub minor: u8,
    pub patch: u8,
}

/// A release that has no place in the upgrade graph.
#[derive(Clone, Copy, Debug, PartialEq, Eq, Structural)]
pub struct Unsupported {
    pub major: u8,
    pub minor: u8,
}

/// When the catalog is asked whether a build of the successor exists.
#[derive(Clone, Copy, Debug, PartialEq, Eq, Structural)]
pub enum BuildCheck {
    /// On every resolution.
    Always,
    /// Only when development releases were asked for; otherwise the successor
    /// counts as blacklisted.
    DevelopmentOnly,
    /// Never: the successor is blacklisted.
    Never,
}

impl BuildCheck {
    /// Whether a resolution with this flag asks the catalog.
    pub open spec fn queried(self, development: bool) -> bool {
        match self {
            BuildCheck::Always => true,
            BuildCheck::DevelopmentOnly => development,
            BuildCheck::Never => false,
        }
    }
}

/// One edge of the upgrade graph.
pub ghost struct Edge {
    /// The canonical name of the release the edge leaves.
    pub current: Seq<char>,
    /// The canonical name of the release it leads to.
    pub next: Seq<char>,
    /// Whether the release it leaves is a long-term-supported one.
    pub is_lts: bool,
    pub check: BuildCheck,
}

/// The upgrade graph. A release without an edge is unsupported.
pub open spec fn upgrade_of(major: u8, minor: u8) -> Option<Edge> {
    if major == 18 && minor == 4 {
        Some(Edge { current: "18.04"@, next: "20.04"@, is_lts: true, check: BuildCheck::Always })
    } else if major == 19 && minor == 10 {
        Some(Edge { current: "19.10"@, next: "20.04"@, is_lts: false, check: BuildCheck::Always })
    } else if major == 20 && minor == 4 {
        Some(Edge { current: "20.04"@, next: "20.10"@, is_lts: true, check: BuildCheck::Always })
    } else if major == 20 && minor == 10 {
        Some(
            Edge {
                current: "20.10"@,
                next: "21.04"@,
                is_lts: false,
                check: BuildCheck::DevelopmentOnly,
            },
        )
    } else if major == 21 && minor == 4 {
        Some(Edge { current: "21.04"@, next: "21.10"@, is_lts: false, check: BuildCheck::Never })
    } else {
        None
    }
}

/// Whether a build of a release can be had, and if not, why.
#[derive(Debug)]
pub enum BuildStatus {
    /// The release is held back, whatever the catalog may offer.
    Blacklisted,
    /// A build exists, with this number.
    Available(u16),
    /// The catalog could not be reached.
    ConnectionIssue(isahc::Error),
    /// The catalog answered, but not with a build number.
    InternalIssue(ApiError),
    /// The catalog answered with a status that is not a success.
    ServerIssue(isahc::http::StatusCode),
}

impl BuildStatus {
    /// The status as one number: the build number where a build can be had,
    /// and otherwise a negative code that tells the failures apart.
    pub open spec fn code(self) -> int {
        match self {
            BuildStatus::ConnectionIssue(_) => -3,
            BuildStatus::ServerIssue(_) => -2,
            BuildStatus::InternalIssue(_) => -1,
            BuildStatus::Available(build) => build as int,
            BuildStatus::Blacklisted => -4,
        }
    }

    /// Whether the two are of one kind and, if builds, have the same number.
    /// The cause of a failure is not compared.
    pub open spec fn same(self, other: BuildStatus) -> bool {
        match (self, other) {
            (BuildStatus::Blacklisted, BuildStatus::Blacklisted) => true,
            (BuildStatus::ConnectionIssue(_), BuildStatus::ConnectionIssue(_)) => true,
            (BuildStatus::InternalIssue(_), BuildStatus::InternalIssue(_)) => true,
            (BuildStatus::ServerIssue(_), BuildStatus::ServerIssue(_)) => true,
            (BuildStatus::Available(a), BuildStatus::Available(b)) => a == b,
            _ => false,
        }
    }

    /// The status that an answer of the catalog amounts to.
    pub open spec fn of(result: Result<u16, ApiError>) -> BuildStatus {
        match result {
            Err(ApiError::Get(why)) => BuildStatus::ConnectionIssue(why),
            Err(ApiError::Status(why)) => BuildStatus::ServerIssue(why),
            Err(otherwise) => BuildStatus::InternalIssue(otherwise),
            Ok(build) => BuildStatus::Available(build),
        }
    }

    /// Whether a build can be had.
    pub fn is_ok(&self) -> (ok: bool)
        ensures
            ok == (*self is Available),
    {
        if let BuildStatus::Available(_) = *self {
            true
        } else {
            false
        }
    }

    /// The status as one number: the build number where a build can be had,
    /// and otherwise a negative code for the kind of failure. The number is
    /// negative exactly if no build can be had.
    pub fn status_code(&self) -> (code: i32)
        ensures
            code == self.code(),
            *self matches BuildStatus::Available(build) ==> code == build,
            code >= 0 <==> *self is Available,
    {
        match *self {
            BuildStatus::ConnectionIssue(_) => -3,
            BuildStatus::ServerIssue(_) => -2,
            BuildStatus::InternalIssue(_) => -1,
            BuildStatus::Available(build) => build as i32,
            BuildStatus::Blacklisted => -4,
        }
    }
}

impl From<Result<u16, ApiError>> for BuildStatus {
    fn from(result: Result<u16, ApiError>) -> (status: BuildStatus) {
        match result {
            Err(ApiError::Get(why)) => BuildStatus::ConnectionIssue(why),
            Err(ApiError::Status(why)) => BuildStatus::ServerIssue(why),
            Err(otherwise) => BuildStatus::InternalIssue(otherwise),
            Ok(build) => BuildStatus::Available(build),
        }
    }
}

impl FromSpecImpl<Result<u16, ApiError>> for BuildStatus {
    open spec fn obeys_from_spec() -> bool {
        true
    }

    open spec fn from_spec(result: Result<u16, ApiError>) -> BuildStatus {
        BuildStatus::of(result)
    }
}

impl PartialEq for BuildStatus {
    fn eq(&self, other: &BuildStatus) -> (equal: bool) {
        match (self, other) {
            (BuildStatus::Blacklisted, BuildStatus::Blacklisted)
            | (BuildStatus::ConnectionIssue(_), BuildStatus::ConnectionIssue(_))
            | (BuildStatus::InternalIssue(_), BuildStatus::InternalIssue(_))
            | (BuildStatus::ServerIssue(_), BuildStatus::ServerIssue(_)) => true,
            (BuildStatus::Available(a), BuildStatus::Available(b)) => *a == *b,
            _ => false,
        }
    }
}

impl PartialEqSpecImpl for BuildStatus {
    open spec fn obeys_eq_spec() -> bool {
        true
    }

    open spec fn eq_spec(&self, other: &BuildStatus) -> bool {
        self.same(*other)
    }
}


/// The answer to "what comes after the running release?".
#[derive(Debug)]
pub struct ReleaseStatus {
    pub current: &'static str,
    pub next: &'static str,
    pub build: BuildStatus,
    pub is_lts: bool,
}

impl ReleaseStatus {
    /// Whether the running release is a long-term-supported one.
    pub fn is_lts(&self) -> (lts: bool)
        ensures
            lts == self.is_lts,
    {
        self.is_lts
    }

    /// Whether this status is what the edge `upgrade` gives, the build of the
    /// successor being what an answer of the catalog amounts to where the edge
    /// asks for it, and blacklisted where it does not. The catalog is asked
    /// through `build_exists`, about the successor and the architecture
    /// [`BUILD_ARCH`].
    pub open spec fn answered<Q: Fn(&str, &str) -> Result<u16, ApiError>>(
        self,
        upgrade: Edge,
        development: bool,
        build_exists: Q,
    ) -> bool {
        &&& self.current@ == upgrade.current
        &&& self.next@ == upgrade.next
        &&& self.is_lts == upgrade.is_lts
        &&& if upgrade.check.queried(development) {
            exists|answer: Result<u16, ApiError>|
                call_ensures(build_exists, (self.next, BUILD_ARCH), answer) && self.build
                    == BuildStatus::of(answer)
        } else {
            self.build == BuildStatus::Blacklisted
        }
    }

    /// Whether this status is what the edge `upgrade` gives, the build of the
    /// successor being what `release_check` answered where the edge asks for
    /// it, and blacklisted where it does not.
    pub open spec fn follows<F: Fn(&str) -> BuildStatus>(
        self,
        upgrade: Edge,
        development: bool,
        release_check: F,
    ) -> bool {
        &&& self.current@ == upgrade.current
        &&& self.next@ == upgrade.next
        &&& self.is_lts == upgrade.is_lts
        &&& if upgrade.check.queried(development) {
            call_ensures(release_check, (self.next,), self.build)
        } else {
            self.build == BuildStatus::Blacklisted
        }
    }
}

impl PartialEq for ReleaseStatus {
    fn eq(&self, other: &ReleaseStatus) -> (equal: bool) {
        same_text(self.current, other.current) && same_text(self.next, other.next) && self.build
            == other.build && self.is_lts == other.is_lts
    }
}

impl PartialEqSpecImpl for ReleaseStatus {
    open spec fn obeys_eq_spec() -> bool {
        true
    }

    open spec fn eq_spec(&self, other: &ReleaseStatus) -> bool {
        &&& self.current@ == other.current@
        &&& self.next@ == other.next@
        &&& self.build.same(other.build)
        &&& self.is_lts == other.is_lts
    }
}

/// Why no release could be resolved.
#[derive(Debug)]
pub enum ReleaseError {
    /// The running release could not be read.
    Detect(ubuntu_version::VersionError),
    /// The catalog has no build number for the release.
    Build { version: String, why: ApiError },
    /// The running release is outside the upgrade graph.
    Unsupported(Unsupported),
}

/// Maps the major and minor identifiers of a release to its canonical name.
pub fn release_str(major: u8, minor: u8) -> (name: Result<&'static str, Unsupported>)
    ensures
        match upgrade_of(major, minor) {
            Some(upgrade) => name is Ok && name->Ok_0@ == upgrade.current,
            None => name == Err::<&'static str, Unsupported>(Unsupported { major, minor }),
        },
{
    match (major, minor) {
        (18, 4) => Ok("18.04"),
        (19, 10) => Ok("19.10"),
        (20, 4) => Ok("20.04"),
        (20, 10) => Ok("20.10"),
        (21, 4) => Ok("21.04"),
        _ => Err(Unsupported { major, minor }),
    }
}

/// Maps the major and minor identifiers of a release to the canonical name of
/// its successor.
pub fn next_str(major: u8, minor: u8) -> (name: Result<&'static str, Unsupported>)
    ensures
        match upgrade_of(major, minor) {
            Some(upgrade) => name is Ok && name->Ok_0@ == upgrade.next,
            None => name == Err::<&'static str, Unsupported>(Unsupported { major, minor }),
        },
{
    match (major, minor) {
        (18, 4) => Ok("20.04"),
        (19, 10) => Ok("20.04"),
        (20, 4) => Ok("20.10"),
        (20, 10) => Ok("21.04"),
        (21, 4) => Ok("21.10"),
        _ => Err(Unsupported { major, minor }),
    }
}

/// The architecture for which the catalog is asked about builds.
pub const BUILD_ARCH: &'static str = "intel";

/// Whether a resolution from `current` asks the catalog about the release
/// named `version`.
pub open spec fn asks(current: Version, development: bool, version: Seq<char>) -> bool {
    upgrade_of(current.major, current.minor) matches Some(upgrade) && upgrade.check.queried(
        development,
    ) && version == upgrade.next
}

/// Resolves the successor of `current` along the upgrade graph. The catalog
/// is asked through `release_check`, with the successor's name, exactly where
/// the edge calls for it.
pub fn next_<F: Fn(&str) -> BuildStatus>(current: Version, development: bool, release_check: F) -> (status:
    Result<ReleaseStatus, Unsupported>)
    requires
        forall|version: &str|
            asks(current, development, version@) ==> call_requires(release_check, (version,)),
    ensures
        match upgrade_of(current.major, current.minor) {
            Some(upgrade) => status is Ok && status->Ok_0.follows(
                upgrade,
                development,
                release_check,
            ),
            None => status is Err && status->Err_0 == (Unsupported {
                major: current.major,
                minor: current.minor,
            }),
        },
{
    let next: &'static str;
    match (current.major, current.minor) {
        (18, 4) => {
            next = "20.04";
            Ok(ReleaseStatus { build: release_check(next), current: "18.04", is_lts: true, next })
        },
        (19, 10) => {
            next = "20.04";
            Ok(ReleaseStatus { build: release_check(next), current: "19.10", is_lts: false, next })
        },
        (20, 4) => {
            next = "20.10";
            Ok(ReleaseStatus { build: release_check(next), current: "20.04", is_lts: true, next })
        },
        (20, 10) => {
            next = "21.04";
            Ok(
                ReleaseStatus {
                    build: if development {
                        release_check(next)
                    } else {
                        BuildStatus::Blacklisted
                    },
                    current: "20.10",
                    is_lts: false,
                    next,
                },
            )
        },
        (21, 4) => Ok(
            ReleaseStatus {
                build: BuildStatus::Blacklisted,
                current: "21.04",
                is_lts: false,
                next: "21.10",
            },
        ),
        _ => Err(Unsupported { major: current.major, minor: current.minor }),
    }
}


/// Whether a resolution from `current` asks the catalog.
fn asked(current: Version, development: bool) -> (asked: bool)
    ensures
        asked == (upgrade_of(current.major, current.minor) matches Some(upgrade)
            && upgrade.check.queried(development)),
{
    match (current.major, current.minor) {
        (18, 4) | (19, 10) | (20, 4) => true,
        (20, 10) => development,
        _ => false,
    }
}

/// Whether `current` counts as a long-term-supported release in the upgrade
/// graph.
fn is_lts(current: Version) -> (lts: bool)
    ensures
        lts == (upgrade_of(current.major, current.minor) matches Some(upgrade) && upgrade.is_lts),
{
    match (current.major, current.minor) {
        (18, 4) | (20, 4) => true,
        _ => false,
    }
}

/// Resolves the successor of the running release, given what reading the
/// running release came to. Where the upgrade graph calls for it, the catalog
/// is asked through `build_exists` whether a build of the successor exists
/// for the architecture [`BUILD_ARCH`], and its answer is sorted by cause.
pub fn next<Q: Fn(&str, &str) -> Result<u16, ApiError>>(
    detected: Result<Version, ubuntu_version::VersionError>,
    development: bool,
    build_exists: Q,
) -> (status: Result<ReleaseStatus, ReleaseError>)
    requires
        forall|version: &str|
            detected matches Ok(current) && asks(current, development, version@) ==> call_requires(
                build_exists,
                (version, BUILD_ARCH),
            ),
    ensures
        match detected {
            Err(why) => status is Err && status->Err_0 == ReleaseError::Detect(why),
            Ok(current) => match upgrade_of(current.major, current.minor) {
                Some(upgrade) => status is Ok && status->Ok_0.answered(
                    upgrade,
                    development,
                    build_exists,
                ),
                None => status is Err && status->Err_0 == ReleaseError::Unsupported(
                    Unsupported { major: current.major, minor: current.minor },
                ),
            },
        },
{
    let current = match detected {
        Err(why) => {
            return Err(ReleaseError::Detect(why));
        },
        Ok(current) => current,
    };
    let (name, next) = match (release_str(current.major, current.minor), next_str(
        current.major,
        current.minor,
    )) {
        (Ok(name), Ok(next)) => (name, next),
        _ => {
            return Err(
                ReleaseError::Unsupported(
                    Unsupported { major: current.major, minor: current.minor },
                ),
            );
        },
    };
    let build = if asked(current, development) {
        BuildStatus::from(build_exists(next, BUILD_ARCH))
    } else {
        BuildStatus::Blacklisted
    };
    Ok(ReleaseStatus { current: name, next, build, is_lts: is_lts(current) })
}

/// Whether `found` is what a lookup for the release `version` comes to, the
/// catalog having answered `build`: the release with its build number, or the
/// failure with the release it was about.
pub open spec fn looked_up(
    found: Result<(String, u16), ReleaseError>,
    version: Seq<char>,
    build: Result<u16, ApiError>,
) -> bool {
    match build {
        Ok(number) => found is Ok && found->Ok_0.0@ == version && found->Ok_0.1 == number,
        Err(why) => found is Err && found->Err_0 is Build && found->Err_0->version@ == version
            && found->Err_0->why == why,
    }
}

/// Pairs the release `version` with the build number the catalog answered, or
/// reports the catalog's failure together with the release it was about.
pub fn current_build(version: &str, build: Result<u16, ApiError>) -> (found: Result<
    (String, u16),
    ReleaseError,
>)
    ensures
        looked_up(found, version@, build),
{
    match build {
        Ok(number) => Ok((version.to_owned(), number)),
        Err(why) => Err(ReleaseError::Build { version: version.to_owned(), why }),
    }
}

/// Resolves the release to start from, with its build number for the
/// architecture [`BUILD_ARCH`]. A given `version` is looked up as it is and
/// the running release is not read; otherwise the running release is read
/// through `detect` and looked up under its canonical name.
pub fn current<D, Q>(version: Option<&str>, detect: D, build_exists: Q) -> (found: Result<
    (String, u16),
    ReleaseError,
>) where
    D: FnOnce() -> Result<Version, ubuntu_version::VersionError>,
    Q: FnOnce(&str, &str) -> Result<u16, ApiError>,

    requires
        version matches Some(given) ==> call_requires(build_exists, (given, BUILD_ARCH)),
        version is None ==> call_requires(detect, ()),
        version is None ==> forall|running: Version, name: &str|
            call_ensures(detect, (), Ok::<Version, ubuntu_version::VersionError>(running))
                && upgrade_of(running.major, running.minor) is Some && name@ == upgrade_of(
                running.major,
                running.minor,
            )->Some_0.current ==> call_requires(build_exists, (name, BUILD_ARCH)),
    ensures
        match version {
            Some(given) => exists|build: Result<u16, ApiError>|
                call_ensures(build_exists, (given, BUILD_ARCH), build) && looked_up(
                    found,
                    given@,
                    build,
                ),
            None => exists|detected: Result<Version, ubuntu_version::VersionError>|
                call_ensures(detect, (), detected) && match detected {
                    Err(why) => found is Err && found->Err_0 == ReleaseError::Detect(why),
                    Ok(running) => match upgrade_of(running.major, running.minor) {
                        Some(upgrade) => exists|name: &str, build: Result<u16, ApiError>|
                            name@ == upgrade.current && call_ensures(
                                build_exists,
                                (name, BUILD_ARCH),
                                build,
                            ) && looked_up(found, name@, build),
                        None => found is Err && found->Err_0 == ReleaseError::Unsupported(
                            Unsupported { major: running.major, minor: running.minor },
                        ),
                    },
                },
        },
{
    if let Some(given) = version {
        let build = build_exists(given, BUILD_ARCH);
        return current_build(given, build);
    }
    match detect() {
        Err(why) => Err(ReleaseError::Detect(why)),
        Ok(running) => match release_str(running.major, running.minor) {
            Err(unsupported) => Err(ReleaseError::Unsupported(unsupported)),
            Ok(name) => {
                let build = build_exists(name, BUILD_ARCH);
                current_build(name, build)
            },
        },
    }
}

/// A number below a hundred, written with two decimal digits.
pub open spec fn two_digits(number: u8) -> Seq<char> {
    seq![digit_char(number as int / 10), digit_char(number as int % 10)]
}

/// The canonical name of every release in the upgrade graph is its major and
/// minor identifier, two digits each, with a dot between them.
pub proof fn names_are_numbers(major: u8, minor: u8)
    requires
        upgrade_of(major, minor) is Some,
    ensures
        upgrade_of(major, minor)->Some_0.current == two_digits(major) + seq!['.'] + two_digits(
            minor,
        ),
{
    reveal_strlit("18.04");
    reveal_strlit("19.10");
    reveal_strlit("20.04");
    reveal_strlit("20.10");
    reveal_strlit("21.04");
}

/// A release of the upgrade graph counts as long-term-supported exactly if
/// it came out in the April of an even year.
pub proof fn lts_is_even_april(major: u8, minor: u8)
    requires
        upgrade_of(major, minor) is Some,
    ensures
        upgrade_of(major, minor)->Some_0.is_lts == (major % 2 == 0 && minor == 4),
{
}

/// Where the upgrade graph does not ask the catalog, the successor is
/// blacklisted, whatever the catalog would have answered: from 21.04 always,
/// from 20.10 unless development releases were asked for.
pub proof fn held_back_without_asking<F: Fn(&str) -> BuildStatus>(
    status: ReleaseStatus,
    current: Version,
    development: bool,
    release_check: F,
)
    requires
        upgrade_of(current.major, current.minor) is Some,
        status.follows(upgrade_of(current.major, current.minor)->Some_0, development, release_check),
        (current.major == 21 && current.minor == 4) || (current.major == 20 && current.minor == 10
            && !development),
    ensures
        status.build == BuildStatus::Blacklisted,
        status.build.code() == -4,
{
}

/// The same holds where the catalog is asked through `build_exists`: from
/// 21.04 always, and from 20.10 unless development releases were asked for,
/// the successor is blacklisted and no answer of the catalog counts.
pub proof fn held_back_without_catalog<Q: Fn(&str, &str) -> Result<u16, ApiError>>(
    status: ReleaseStatus,
    current: Version,
    development: bool,
    build_exists: Q,
)
    requires
        upgrade_of(current.major, current.minor) is Some,
        status.answered(upgrade_of(current.major, current.minor)->Some_0, development, build_exists),
        (current.major == 21 && current.minor == 4) || (current.major == 20 && current.minor == 10
            && !development),
    ensures
        status.build == BuildStatus::Blacklisted,
        status.build.code() == -4,
{
}

/// Equality of build statuses is an equivalence. It looks at the kind alone,
/// and at the number where both are builds: two failures of one kind are
/// equal whatever their causes.
pub proof fn same_is_equivalence(a: BuildStatus, b: BuildStatus, c: BuildStatus)
    ensures
        a.same(a),
        a.same(b) == b.same(a),
        a.same(b) && b.same(c) ==> a.same(c),
        a is ConnectionIssue && b is ConnectionIssue ==> a.same(b),
        a is ServerIssue && b is ServerIssue ==> a.same(b),
        a is InternalIssue && b is InternalIssue ==> a.same(b),
        a is Available && b is Available ==> (a.same(b) <==> a->Available_0 == b->Available_0),
{
}

/// The status code tells the statuses apart: two statuses have one code
/// exactly if they are equal. No build number is the code of a failure.
pub proof fn codes_tell_apart(a: BuildStatus, b: BuildStatus)
    ensures
        a.code() == b.code() <==> a.same(b),
        a.code() >= 0 <==> a is Available,
{
}

} // verus!
