use alpaca::roots::join_path;
use alpaca::roots::parse_root;
use alpaca::roots::resolve_path;
use alpaca::roots::root_from_upper;
use alpaca::roots::base_dir;
use alpaca::roots::Root;
use alpaca::transition::decrypted_path;
use alpaca::transition::encrypted_path;

#[test]
fn encrypt_appends_to_extension() {
    assert_eq!(encrypted_path("report.csv"), "report.csv.alp");
    assert_eq!(encrypted_path("/data/report.csv"), "/data/report.csv.alp");
}

#[test]
fn encrypt_adds_extension_when_missing() {
    assert_eq!(encrypted_path("README"), "README.alp");
}

#[test]
fn decrypt_strips_alp_extension() {
    assert_eq!(decrypted_path("report.csv.alp"), "report.csv");
    assert_eq!(decrypted_path("README.alp"), "README");
    assert_eq!(decrypted_path("dir/x.alp"), "dir/x");
}

#[test]
fn decrypt_without_extension_keeps_path() {
    assert_eq!(decrypted_path("README"), "README");
    assert_eq!(decrypted_path("report.csv"), "report.csv");
    assert_eq!(decrypted_path(".alp"), ".alp");
    assert_eq!(decrypted_path("dir/.alp"), "dir/.alp");
}

#[test]
fn path_transition_round_trip() {
    for p in ["report.csv", "README", "a/b/c.tar.gz", "/abs/x"] {
        assert_eq!(decrypted_path(&encrypted_path(p)), p);
    }
}

#[test]
fn root_tokens_ignore_case() {
    assert_eq!(parse_root(Some("home")), Root::Home);
    assert_eq!(parse_root(Some("Config")), Root::Config);
    assert_eq!(parse_root(Some("roaming")), Root::Config);
    assert_eq!(parse_root(Some("cache")), Root::Cache);
    assert_eq!(parse_root(Some("Local")), Root::Cache);
    assert_eq!(parse_root(Some("temp")), Root::Temp);
    assert_eq!(parse_root(Some("tmp")), Root::Temp);
    assert_eq!(parse_root(Some("desktop")), Root::Unrecognized);
    assert_eq!(parse_root(None), Root::Absent);
}

#[test]
fn root_from_upper_is_exact() {
    assert_eq!(root_from_upper("TEMP"), Root::Temp);
    assert_eq!(root_from_upper("temp"), Root::Unrecognized);
}

#[test]
fn join_path_rules() {
    assert_eq!(join_path("/tmp", "x.txt"), "/tmp/x.txt");
    assert_eq!(join_path("/tmp/", "x.txt"), "/tmp/x.txt");
    assert_eq!(join_path("/tmp", "/etc/x"), "/etc/x");
    assert_eq!(join_path("", "x.txt"), "x.txt");
}

#[test]
fn temp_root_resolves_under_temp_dir() {
    let base = base_dir(Root::Temp, "/var/tmp");
    assert_eq!(base.as_deref(), Some("/var/tmp"));
    assert_eq!(resolve_path(Root::Temp, base, "x.txt").as_deref(), Some("/var/tmp/x.txt"));
}

#[test]
fn missing_base_directory_gives_no_path() {
    assert_eq!(resolve_path(Root::Home, None, "x.txt"), None);
    assert_eq!(resolve_path(Root::Absent, None, "x.txt").as_deref(), Some("x.txt"));
    assert_eq!(resolve_path(Root::Unrecognized, None, "/a/b").as_deref(), Some("/a/b"));
    assert_eq!(base_dir(Root::Absent, "/tmp"), None);
    assert_eq!(base_dir(Root::Unrecognized, "/tmp"), None);
}
