use coop::paths::{
    config_dir, missing_config_dir, missing_home_dir, missing_support_dir, nostr_file,
    support_dir, BaseDir, DirError, DirPath, SystemDirs, TargetOs,
};
use coop::text::{
    contains_char, count_char, is_whitespace, matches_at, parse_u64, remove_all, same_text,
    starts_with, trim,
};

fn dirs(os: TargetOs) -> SystemDirs {
    SystemDirs {
        os,
        has_home: true,
        has_config: true,
        has_data_local: true,
        has_flatpak_config: false,
        has_flatpak_data: false,
    }
}

fn segments(p: &DirPath) -> Vec<&str> {
    p.segments.iter().map(|s| s.as_str()).collect()
}

#[test]
fn trim_removes_surrounding_whitespace() {
    assert_eq!(trim("  hello world \n\t"), "hello world");
    assert_eq!(trim("   "), "");
    assert_eq!(trim(""), "");
    assert_eq!(trim("\u{3000}x\u{a0}"), "x");
    assert!(is_whitespace('\n'));
    assert!(!is_whitespace('a'));
}

#[test]
fn prefix_and_equality() {
    assert!(starts_with("nsec1abc", "nsec1"));
    assert!(!starts_with("nsec", "nsec1"));
    assert!(same_text("Onboarding", "Onboarding"));
    assert!(!same_text("Onboarding", "Onboard"));
    assert!(matches_at("bunker://abc", "abc", 9));
    assert!(!matches_at("bunker://abc", "abc", 10));
}

#[test]
fn counting_and_removing() {
    assert_eq!(count_char("a@b@c", '@'), 2);
    assert!(contains_char("alice@example.com", '@'));
    assert!(!contains_char("alice", '@'));
    assert_eq!(remove_all("bunker://pk?relay=r&secret=s3&x=s3", "s3"), "bunker://pk?relay=r&secret=&x=");
    assert_eq!(remove_all("aaaa", "aa"), "");
    assert_eq!(remove_all("abc", ""), "abc");
}

#[test]
fn parse_u64_follows_from_str() {
    assert_eq!(parse_u64("42"), Some(42));
    assert_eq!(parse_u64("+7"), Some(7));
    assert_eq!(parse_u64("0042"), Some(42));
    assert_eq!(parse_u64(""), None);
    assert_eq!(parse_u64("+"), None);
    assert_eq!(parse_u64("-1"), None);
    assert_eq!(parse_u64("12a"), None);
    assert_eq!(parse_u64("18446744073709551615"), Some(u64::MAX));
    assert_eq!(parse_u64("18446744073709551616"), None);
    for s in ["0", "123456789", "+99", "x", " 1"] {
        assert_eq!(parse_u64(s), s.parse::<u64>().ok());
    }
}

#[test]
fn config_dir_by_platform() {
    let p = config_dir(&dirs(TargetOs::Windows));
    assert_eq!(p.base, BaseDir::Config);
    assert_eq!(segments(&p), vec!["Coop"]);

    let mut linux = dirs(TargetOs::Linux);
    let p = config_dir(&linux);
    assert_eq!((p.base, segments(&p)), (BaseDir::Config, vec!["coop"]));
    linux.has_flatpak_config = true;
    let p = config_dir(&linux);
    assert_eq!((p.base, segments(&p)), (BaseDir::FlatpakConfig, vec!["coop"]));

    let p = config_dir(&dirs(TargetOs::MacOs));
    assert_eq!((p.base, segments(&p)), (BaseDir::Home, vec![".config", "coop"]));
}

#[test]
fn support_dir_by_platform() {
    let p = support_dir(&dirs(TargetOs::MacOs));
    assert_eq!((p.base, segments(&p)), (BaseDir::Home, vec!["Library/Application Support/Coop"]));
    let p = support_dir(&dirs(TargetOs::Windows));
    assert_eq!((p.base, segments(&p)), (BaseDir::DataLocal, vec!["coop"]));
    let mut bsd = dirs(TargetOs::FreeBsd);
    bsd.has_flatpak_data = true;
    let p = support_dir(&bsd);
    assert_eq!((p.base, segments(&p)), (BaseDir::FlatpakData, vec!["coop"]));
    let p = support_dir(&dirs(TargetOs::Other));
    assert_eq!((p.base, segments(&p)), (BaseDir::Home, vec![".config", "coop"]));
}

#[test]
fn nostr_file_is_in_support_dir() {
    for os in [TargetOs::Windows, TargetOs::Linux, TargetOs::FreeBsd, TargetOs::MacOs, TargetOs::Other] {
        let env = dirs(os);
        let dir = support_dir(&env);
        let file = nostr_file(&env);
        let mut expected = segments(&dir);
        expected.push("nostr");
        assert_eq!(file.base, dir.base);
        assert_eq!(segments(&file), expected);
    }
}

#[test]
fn missing_directories_are_reported() {
    let mut env = dirs(TargetOs::Windows);
    assert_eq!(missing_config_dir(&env), None);
    assert_eq!(missing_support_dir(&env), None);
    env.has_config = false;
    env.has_data_local = false;
    assert_eq!(missing_config_dir(&env), Some(DirError::RoamingAppData));
    assert_eq!(missing_support_dir(&env), Some(DirError::LocalAppData));
    assert_eq!(
        DirError::LocalAppData.message(),
        "failed to determine LocalAppData directory"
    );

    let mut env = dirs(TargetOs::Linux);
    env.has_config = false;
    env.has_data_local = false;
    assert_eq!(missing_config_dir(&env), Some(DirError::XdgConfigHome));
    assert_eq!(missing_support_dir(&env), Some(DirError::XdgDataHome));
    env.has_flatpak_config = true;
    env.has_flatpak_data = true;
    assert_eq!(missing_config_dir(&env), None);
    assert_eq!(missing_support_dir(&env), None);
    assert_eq!(
        DirError::XdgConfigHome.message(),
        "failed to determine XDG_CONFIG_HOME directory"
    );

    let mut env = dirs(TargetOs::MacOs);
    env.has_home = false;
    assert_eq!(missing_home_dir(&env), Some(DirError::HomeDir));
    assert_eq!(missing_support_dir(&env), Some(DirError::HomeDir));
    assert_eq!(missing_config_dir(&dirs(TargetOs::Other)), None);
    assert_eq!(DirError::HomeDir.message(), "failed to determine home directory");
}
