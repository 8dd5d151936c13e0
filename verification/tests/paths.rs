use dymod::location::BuildProfile;
use dymod::location::LoadStrategy;
use dymod::location::Platform;
use dymod::location::artifact_path;
use dymod::location::dylib_filename;
use dymod::location::platform_recommended_strategy;
use dymod::location::platform_requires_copy_strategy;
use dymod::location::platform_requires_identity_strip;
use dymod::location::versioned_path;

#[test]
fn dylib_filenames_follow_platform_conventions() {
    assert_eq!(dylib_filename(&Platform::Linux, "subcrate"), "libsubcrate.so");
    assert_eq!(dylib_filename(&Platform::MacOs, "subcrate"), "libsubcrate.dylib");
    assert_eq!(dylib_filename(&Platform::Windows, "subcrate"), "subcrate.dll");
}

#[test]
fn artifact_path_joins_root_module_profile_and_filename() {
    assert_eq!(
        artifact_path("/home/me/proj", "subcrate", &Platform::Linux, &BuildProfile::Debug),
        "/home/me/proj/subcrate/target/debug/libsubcrate.so"
    );
    assert_eq!(
        artifact_path("/home/me/proj", "subcrate", &Platform::MacOs, &BuildProfile::Debug),
        "/home/me/proj/subcrate/target/debug/libsubcrate.dylib"
    );
    assert_eq!(
        artifact_path("C:/work", "game", &Platform::Windows, &BuildProfile::Release),
        "C:/work/game/target/release/game.dll"
    );
}

#[test]
fn versioned_path_appends_the_decimal_generation() {
    assert_eq!(versioned_path("libsubcrate.so", 0), "libsubcrate.so0");
    assert_eq!(versioned_path("libsubcrate.so", 7), "libsubcrate.so7");
    assert_eq!(versioned_path("libsubcrate.so", 10), "libsubcrate.so10");
    assert_eq!(versioned_path("libsubcrate.so", 41), "libsubcrate.so41");
    assert_eq!(versioned_path("x", 900719), "x900719");
    assert_eq!(
        versioned_path("x", u64::MAX),
        format!("x{}", u64::MAX)
    );
}

#[test]
fn copy_strategy_platform_policy() {
    assert!(!platform_requires_copy_strategy(&Platform::Linux));
    assert!(platform_requires_copy_strategy(&Platform::MacOs));
    assert!(platform_requires_copy_strategy(&Platform::Windows));

    assert!(!platform_requires_identity_strip(&Platform::Linux));
    assert!(platform_requires_identity_strip(&Platform::MacOs));
    assert!(!platform_requires_identity_strip(&Platform::Windows));

    assert_eq!(platform_recommended_strategy(&Platform::Linux), LoadStrategy::InPlace);
    assert_eq!(platform_recommended_strategy(&Platform::MacOs), LoadStrategy::CopyVersioned);
    assert_eq!(platform_recommended_strategy(&Platform::Windows), LoadStrategy::CopyVersioned);
}
