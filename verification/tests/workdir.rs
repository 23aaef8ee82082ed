//! Working-directory selection and teardown rules.
use lspsd::conf::effective_tmpdir;
use lspsd::conf::select_work_dir;
use lspsd::conf::teardown_plan;
use lspsd::conf::DataDir;
use lspsd::conf::WorkDirPlan;
use lspsd::Error;

#[test]
fn both_dirs_is_a_configuration_error() {
    let r = select_work_dir(Some("/tmp/eph".to_string()), Some("/var/data".to_string()));
    assert_eq!(r, Err(Error::BothDirsSpecified));
}

#[test]
fn ephemeral_root_alone_selects_a_subdirectory_under_it() {
    let r = select_work_dir(Some("/tmp/eph".to_string()), None);
    assert_eq!(r, Ok(WorkDirPlan::TempUnder("/tmp/eph".to_string())));
}

#[test]
fn persistent_path_alone_selects_that_directory() {
    let r = select_work_dir(None, Some("/var/data".to_string()));
    assert_eq!(r, Ok(WorkDirPlan::Persistent("/var/data".to_string())));
}

#[test]
fn neither_dir_selects_the_default_temp_root() {
    let r = select_work_dir(None, None);
    assert_eq!(r, Ok(WorkDirPlan::TempDefault));
}

#[test]
fn explicit_tmpdir_wins_over_environment_override() {
    assert_eq!(
        effective_tmpdir(Some("/a".to_string()), Some("/b".to_string())),
        Some("/a".to_string())
    );
    assert_eq!(effective_tmpdir(None, Some("/b".to_string())), Some("/b".to_string()));
    assert_eq!(effective_tmpdir(None, None), None);
}

#[test]
fn teardown_removes_only_ephemeral_directories() {
    let ephemeral = teardown_plan(&DataDir::Temporary("/tmp/eph/x1".to_string()));
    assert!(ephemeral.remove_dir);
    assert!(!ephemeral.orderly_stop);
    assert!(ephemeral.force_kill);

    let persistent = teardown_plan(&DataDir::Persistent("/var/data".to_string()));
    assert!(!persistent.remove_dir);
    assert!(persistent.orderly_stop);
    assert!(persistent.force_kill);
}

#[test]
fn data_dir_reports_its_path() {
    assert_eq!(DataDir::Persistent("/var/data".to_string()).path(), "/var/data".to_string());
    assert_eq!(DataDir::Temporary("/tmp/eph/x1".to_string()).path(), "/tmp/eph/x1".to_string());
}
