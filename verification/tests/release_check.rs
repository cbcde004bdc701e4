use recovery_upgrade::release::api::ApiError;
use recovery_upgrade::release::check::current;
use recovery_upgrade::release::check::current_build;
use recovery_upgrade::release::check::next;
use recovery_upgrade::release::check::next_;
use recovery_upgrade::release::check::next_str;
use recovery_upgrade::release::check::release_str;
use recovery_upgrade::release::check::BuildStatus;
use recovery_upgrade::release::check::BUILD_ARCH;
use recovery_upgrade::release::check::ReleaseError;
use recovery_upgrade::release::check::ReleaseStatus;
use recovery_upgrade::release::check::Unsupported;
use recovery_upgrade::release::check::Version;
use std::cell::Cell;
use std::cell::RefCell;

fn version(major: u8, minor: u8) -> Version {
    Version { major, minor, patch: 0 }
}

fn transport_failure() -> isahc::Error {
    isahc::Error::from(std::io::Error::new(std::io::ErrorKind::ConnectionRefused, "refused"))
}

fn other_transport_failure() -> isahc::Error {
    isahc::Error::from(std::io::Error::new(std::io::ErrorKind::TimedOut, "too slow"))
}

fn detection_failure() -> ubuntu_version::VersionError {
    ubuntu_version::VersionError::Parse(ubuntu_version::VersionParseError::NoMajor)
}

#[test]
fn release_str_names_supported_releases() {
    assert_eq!(release_str(18, 4), Ok("18.04"));
    assert_eq!(release_str(19, 10), Ok("19.10"));
    assert_eq!(release_str(20, 4), Ok("20.04"));
    assert_eq!(release_str(20, 10), Ok("20.10"));
    assert_eq!(release_str(21, 4), Ok("21.04"));
}

#[test]
fn release_str_rejects_what_is_not_in_the_graph() {
    assert_eq!(release_str(18, 10), Err(Unsupported { major: 18, minor: 10 }));
    assert_eq!(release_str(19, 4), Err(Unsupported { major: 19, minor: 4 }));
    assert_eq!(release_str(21, 10), Err(Unsupported { major: 21, minor: 10 }));
    assert_eq!(release_str(0, 0), Err(Unsupported { major: 0, minor: 0 }));
    assert_eq!(release_str(255, 255), Err(Unsupported { major: 255, minor: 255 }));
}

#[test]
fn release_str_is_defined_exactly_on_five_releases() {
    let mut supported = 0;
    for major in 0..=255u8 {
        for minor in 0..=255u8 {
            match release_str(major, minor) {
                Ok(name) => {
                    supported += 1;
                    assert_eq!(name, format!("{}.{:02}", major, minor));
                    assert!(next_str(major, minor).is_ok());
                }
                Err(unsupported) => {
                    assert_eq!(unsupported, Unsupported { major, minor });
                    assert_eq!(next_str(major, minor), Err(unsupported));
                }
            }
        }
    }
    assert_eq!(supported, 5);
}

#[test]
fn next_str_names_the_successor() {
    assert_eq!(next_str(18, 4), Ok("20.04"));
    assert_eq!(next_str(19, 10), Ok("20.04"));
    assert_eq!(next_str(20, 4), Ok("20.10"));
    assert_eq!(next_str(20, 10), Ok("21.04"));
    assert_eq!(next_str(21, 4), Ok("21.10"));
    assert_eq!(next_str(22, 4), Err(Unsupported { major: 22, minor: 4 }));
}

#[test]
fn next_follows_every_edge_of_the_graph() {
    let rows: [(u8, u8, &str, &str, bool); 3] = [
        (18, 4, "18.04", "20.04", true),
        (19, 10, "19.10", "20.04", false),
        (20, 4, "20.04", "20.10", true),
    ];
    for (major, minor, current, successor, is_lts) in rows {
        for development in [false, true] {
            let asked = RefCell::new(Vec::new());
            let status = next_(version(major, minor), development, |name| {
                asked.borrow_mut().push(name.to_owned());
                BuildStatus::Available(12)
            })
            .unwrap();
            assert_eq!(status.current, current);
            assert_eq!(status.next, successor);
            assert_eq!(status.is_lts, is_lts);
            assert_eq!(status.is_lts(), is_lts);
            assert_eq!(status.build, BuildStatus::Available(12));
            assert_eq!(*asked.borrow(), vec![successor.to_owned()]);
        }
    }
}

#[test]
fn next_from_20_10_is_blacklisted_without_asking() {
    let calls = Cell::new(0);
    let status = next_(version(20, 10), false, |_| {
        calls.set(calls.get() + 1);
        BuildStatus::Available(3)
    })
    .unwrap();
    assert_eq!(calls.get(), 0);
    assert_eq!(
        status,
        ReleaseStatus {
            current: "20.10",
            next: "21.04",
            build: BuildStatus::Blacklisted,
            is_lts: false
        }
    );
}

#[test]
fn next_from_20_10_asks_when_development_is_wanted() {
    let asked = RefCell::new(Vec::new());
    let status = next_(version(20, 10), true, |name| {
        asked.borrow_mut().push(name.to_owned());
        BuildStatus::Available(3)
    })
    .unwrap();
    assert_eq!(*asked.borrow(), vec!["21.04".to_owned()]);
    assert_eq!(status.current, "20.10");
    assert_eq!(status.next, "21.04");
    assert!(!status.is_lts);
    assert_eq!(status.build, BuildStatus::Available(3));
}

#[test]
fn next_from_21_04_is_always_blacklisted() {
    for development in [false, true] {
        let calls = Cell::new(0);
        let status = next_(version(21, 4), development, |_| {
            calls.set(calls.get() + 1);
            BuildStatus::Available(3)
        })
        .unwrap();
        assert_eq!(calls.get(), 0);
        assert_eq!(
            status,
            ReleaseStatus {
                current: "21.04",
                next: "21.10",
                build: BuildStatus::Blacklisted,
                is_lts: false
            }
        );
    }
}

#[test]
fn next_gives_no_status_outside_the_graph() {
    for (major, minor) in [(16u8, 4u8), (18, 10), (19, 4), (21, 10), (22, 4), (4, 18)] {
        for development in [false, true] {
            let calls = Cell::new(0);
            let status = next_(version(major, minor), development, |_| {
                calls.set(calls.get() + 1);
                BuildStatus::Available(3)
            });
            assert_eq!(status.unwrap_err(), Unsupported { major, minor });
            assert_eq!(calls.get(), 0);
        }
    }
}

#[test]
fn next_ignores_the_patch_level() {
    let status = next_(Version { major: 20, minor: 4, patch: 3 }, false, |_| BuildStatus::Blacklisted)
        .unwrap();
    assert_eq!(status.current, "20.04");
    assert_eq!(status.next, "20.10");
}

#[test]
fn scenario_20_04_queries_20_10() {
    let status = next(Ok(version(20, 4)), false, |name, arch| {
        assert_eq!(name, "20.10");
        assert_eq!(arch, "intel");
        Ok(77)
    })
    .unwrap();
    assert_eq!(
        status,
        ReleaseStatus {
            current: "20.04",
            next: "20.10",
            build: BuildStatus::Available(77),
            is_lts: true
        }
    );
}

#[test]
fn scenario_20_10_without_development_is_blacklisted() {
    let asked = Cell::new(false);
    let status = next(Ok(version(20, 10)), false, |_, _| {
        asked.set(true);
        Ok(77)
    })
    .unwrap();
    assert!(!asked.get());
    assert_eq!(
        status,
        ReleaseStatus {
            current: "20.10",
            next: "21.04",
            build: BuildStatus::Blacklisted,
            is_lts: false
        }
    );
}

#[test]
fn scenario_21_04_is_blacklisted_with_any_flag() {
    for development in [false, true] {
        let asked = Cell::new(false);
        let status = next(Ok(version(21, 4)), development, |_, _| {
            asked.set(true);
            Ok(77)
        })
        .unwrap();
        assert!(!asked.get());
        assert_eq!(
            status,
            ReleaseStatus {
                current: "21.04",
                next: "21.10",
                build: BuildStatus::Blacklisted,
                is_lts: false
            }
        );
    }
}

#[test]
fn next_reports_failed_detection_and_unsupported_releases() {
    let failed = next(Err(detection_failure()), true, |_, _| Ok(1));
    assert!(matches!(
        failed,
        Err(ReleaseError::Detect(ubuntu_version::VersionError::Parse(
            ubuntu_version::VersionParseError::NoMajor
        )))
    ));
    let unsupported = next(Ok(version(22, 4)), true, |_, _| Ok(1));
    assert!(matches!(
        unsupported,
        Err(ReleaseError::Unsupported(Unsupported { major: 22, minor: 4 }))
    ));
}

#[test]
fn current_looks_up_a_given_version_without_detecting() {
    let detected = Cell::new(false);
    let found = current(
        Some("19.04"),
        || {
            detected.set(true);
            Ok(version(20, 4))
        },
        |name, arch| {
            assert_eq!(name, "19.04");
            assert_eq!(arch, "intel");
            Ok(21)
        },
    )
    .unwrap();
    assert_eq!(found, ("19.04".to_owned(), 21));
    assert!(!detected.get());
}

#[test]
fn current_detects_when_no_version_is_given() {
    let found = current(
        None,
        || Ok(version(20, 10)),
        |name, arch| {
            assert_eq!(name, "20.10");
            assert_eq!(arch, BUILD_ARCH);
            Ok(9)
        },
    )
    .unwrap();
    assert_eq!(found, ("20.10".to_owned(), 9));
    let found = current(None, || Ok(version(19, 10)), |_, _| Ok(1)).unwrap();
    assert_eq!(found, ("19.10".to_owned(), 1));
}

#[test]
fn current_reports_each_failure_by_its_kind() {
    let asked = Cell::new(false);
    let failed = current(
        None,
        || Err(detection_failure()),
        |_, _| {
            asked.set(true);
            Ok(1)
        },
    );
    assert!(matches!(failed, Err(ReleaseError::Detect(_))));
    assert!(!asked.get());

    let unsupported = current(
        None,
        || Ok(version(17, 10)),
        |_, _| {
            asked.set(true);
            Ok(1)
        },
    );
    assert!(matches!(
        unsupported,
        Err(ReleaseError::Unsupported(Unsupported { major: 17, minor: 10 }))
    ));
    assert!(!asked.get());

    let no_build = current(Some("20.04"), || Ok(version(20, 4)), |_, _| {
        Err(ApiError::Other("no such build".to_owned()))
    });
    match no_build {
        Err(ReleaseError::Build { version, why: ApiError::Other(why) }) => {
            assert_eq!(version, "20.04");
            assert_eq!(why, "no such build");
        }
        other => panic!("unexpected: {:?}", other),
    }
}

#[test]
fn current_build_pairs_version_and_answer() {
    assert_eq!(current_build("21.04", Ok(65535)).unwrap(), ("21.04".to_owned(), 65535));
    let failed = current_build("21.04", Err(ApiError::Get(transport_failure())));
    assert!(matches!(
        failed,
        Err(ReleaseError::Build { ref version, why: ApiError::Get(_) }) if version == "21.04"
    ));
}

#[test]
fn status_code_is_exact() {
    assert_eq!(BuildStatus::Available(0).status_code(), 0);
    assert_eq!(BuildStatus::Available(1).status_code(), 1);
    assert_eq!(BuildStatus::Available(32767).status_code(), 32767);
    assert_eq!(BuildStatus::ConnectionIssue(transport_failure()).status_code(), -3);
    assert_eq!(BuildStatus::ServerIssue(isahc::http::StatusCode::NOT_FOUND).status_code(), -2);
    assert_eq!(BuildStatus::InternalIssue(ApiError::Other("x".to_owned())).status_code(), -1);
    assert_eq!(BuildStatus::Blacklisted.status_code(), -4);
}

#[test]
fn status_code_of_a_build_is_its_number() {
    assert_eq!(BuildStatus::Available(32768).status_code(), 32768);
    assert_eq!(BuildStatus::Available(40000).status_code(), 40000);
    assert_eq!(BuildStatus::Available(65532).status_code(), 65532);
    assert_eq!(BuildStatus::Available(65535).status_code(), 65535);
    for build in 0..=65535u16 {
        let status = BuildStatus::Available(build);
        assert_eq!(status.status_code(), i32::from(build));
        assert!(status.status_code() >= 0);
        assert!(status.is_ok());
    }
}

#[test]
fn status_code_is_negative_exactly_without_a_build() {
    let failures = [
        BuildStatus::Blacklisted,
        BuildStatus::ConnectionIssue(transport_failure()),
        BuildStatus::ServerIssue(isahc::http::StatusCode::NOT_FOUND),
        BuildStatus::InternalIssue(ApiError::Other("x".to_owned())),
    ];
    let mut codes = Vec::new();
    for status in failures.iter() {
        assert!(status.status_code() < 0);
        assert!(!status.is_ok());
        codes.push(status.status_code());
    }
    assert_eq!(codes, vec![-4, -3, -2, -1]);
}

#[test]
fn next_sorts_the_answer_of_the_catalog_by_cause() {
    let status = next(Ok(version(18, 4)), false, |name, arch| {
        assert_eq!((name, arch), ("20.04", "intel"));
        Err(ApiError::Get(transport_failure()))
    })
    .unwrap();
    assert_eq!(status.current, "18.04");
    assert_eq!(status.next, "20.04");
    assert!(status.is_lts);
    assert!(matches!(status.build, BuildStatus::ConnectionIssue(_)));

    let status = next(Ok(version(19, 10)), true, |_, _| {
        Err(ApiError::Status(isahc::http::StatusCode::NOT_FOUND))
    })
    .unwrap();
    assert!(!status.is_lts);
    match status.build {
        BuildStatus::ServerIssue(code) => assert_eq!(code.as_u16(), 404),
        other => panic!("unexpected: {:?}", other),
    }

    let status =
        next(Ok(version(20, 10)), true, |_, _| Err(ApiError::Other("odd".to_owned()))).unwrap();
    assert_eq!(status.next, "21.04");
    assert!(matches!(status.build, BuildStatus::InternalIssue(ApiError::Other(_))));

    let asked = RefCell::new(Vec::new());
    let status = next(Ok(version(20, 10)), true, |name, arch| {
        asked.borrow_mut().push((name.to_owned(), arch.to_owned()));
        Ok(40000)
    })
    .unwrap();
    assert_eq!(*asked.borrow(), vec![("21.04".to_owned(), "intel".to_owned())]);
    assert_eq!(status.build, BuildStatus::Available(40000));
    assert_eq!(status.build.status_code(), 40000);
}

#[test]
fn builds_are_looked_up_for_intel() {
    assert_eq!(BUILD_ARCH, "intel");
}

#[test]
fn is_ok_only_for_builds() {
    assert!(BuildStatus::Available(0).is_ok());
    assert!(BuildStatus::Available(65535).is_ok());
    assert!(!BuildStatus::Blacklisted.is_ok());
    assert!(!BuildStatus::ConnectionIssue(transport_failure()).is_ok());
    assert!(!BuildStatus::ServerIssue(isahc::http::StatusCode::BAD_GATEWAY).is_ok());
    assert!(!BuildStatus::InternalIssue(ApiError::Other(String::new())).is_ok());
}

#[test]
fn build_status_equality_looks_at_the_kind() {
    assert_eq!(
        BuildStatus::ConnectionIssue(transport_failure()),
        BuildStatus::ConnectionIssue(other_transport_failure())
    );
    assert_eq!(
        BuildStatus::ServerIssue(isahc::http::StatusCode::NOT_FOUND),
        BuildStatus::ServerIssue(isahc::http::StatusCode::INTERNAL_SERVER_ERROR)
    );
    assert_eq!(
        BuildStatus::InternalIssue(ApiError::Other("a".to_owned())),
        BuildStatus::InternalIssue(ApiError::Other("b".to_owned()))
    );
    assert_eq!(BuildStatus::Blacklisted, BuildStatus::Blacklisted);
    assert_eq!(BuildStatus::Available(5), BuildStatus::Available(5));
    assert_ne!(BuildStatus::Available(5), BuildStatus::Available(6));
    assert_ne!(BuildStatus::Available(5), BuildStatus::Blacklisted);
    assert_ne!(
        BuildStatus::ConnectionIssue(transport_failure()),
        BuildStatus::ServerIssue(isahc::http::StatusCode::NOT_FOUND)
    );
    assert_ne!(
        BuildStatus::InternalIssue(ApiError::Other("a".to_owned())),
        BuildStatus::ConnectionIssue(transport_failure())
    );
    assert_ne!(BuildStatus::Blacklisted, BuildStatus::InternalIssue(ApiError::Other("a".to_owned())));
}

#[test]
fn build_status_from_an_answer_goes_by_the_cause() {
    assert_eq!(BuildStatus::from(Ok(17)), BuildStatus::Available(17));
    assert!(matches!(BuildStatus::from(Ok(17)), BuildStatus::Available(17)));
    assert!(matches!(
        BuildStatus::from(Err(ApiError::Get(transport_failure()))),
        BuildStatus::ConnectionIssue(_)
    ));
    match BuildStatus::from(Err(ApiError::Status(isahc::http::StatusCode::FORBIDDEN))) {
        BuildStatus::ServerIssue(status) => assert_eq!(status.as_u16(), 403),
        other => panic!("unexpected: {:?}", other),
    }
    match BuildStatus::from(Err(ApiError::Other("not a number".to_owned()))) {
        BuildStatus::InternalIssue(ApiError::Other(why)) => assert_eq!(why, "not a number"),
        other => panic!("unexpected: {:?}", other),
    }
}

#[test]
fn release_status_equality_compares_every_part() {
    let status = |current: &'static str, next: &'static str, build: u16, is_lts: bool| ReleaseStatus {
        current,
        next,
        build: BuildStatus::Available(build),
        is_lts,
    };
    assert_eq!(status("20.04", "20.10", 1, true), status("20.04", "20.10", 1, true));
    assert_ne!(status("20.04", "20.10", 1, true), status("18.04", "20.10", 1, true));
    assert_ne!(status("20.04", "20.10", 1, true), status("20.04", "21.04", 1, true));
    assert_ne!(status("20.04", "20.10", 1, true), status("20.04", "20.10", 2, true));
    assert_ne!(status("20.04", "20.10", 1, true), status("20.04", "20.10", 1, false));
}
