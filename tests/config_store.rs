use std::collections::HashMap;

use sbcli::config::{join_path, Config, LoadAction, PersistMode};
use sbcli::error::Error;

/// Runs a load against an in-memory disk the way the application does.
fn load(disk: &mut HashMap<String, String>, app: &str, dir: &str, default: &str) -> String {
    let path = Config::<String>::session_path(app, dir);
    match Config::<String>::load_action(disk.contains_key(&path)) {
        LoadAction::CreateDefault => {
            let c = Config::new(default.to_owned(), path.clone());
            c.check_persist(PersistMode::Exclusive, disk.contains_key(&path)).unwrap();
            disk.insert(path, c.config.clone());
            c.config
        }
        LoadAction::ReadExisting => disk[&path].clone(),
    }
}

#[test]
fn session_path_under_app_directory() {
    assert_eq!(Config::<u8>::session_path("app", "/tmp/dir"), "/tmp/dir/app/session.toml");
    assert_eq!(Config::<u8>::session_path("app", "/tmp/dir/"), "/tmp/dir/app/session.toml");
    assert_eq!(Config::<u8>::session_path("app", ""), "app/session.toml");
    assert_eq!(Config::<u8>::session_path("/abs", "/tmp"), "/abs/session.toml");
}

#[test]
fn join_path_cases() {
    assert_eq!(join_path("a", "b"), "a/b");
    assert_eq!(join_path("a/", "b"), "a/b");
    assert_eq!(join_path("", "b"), "b");
    assert_eq!(join_path("a", "/b"), "/b");
    assert_eq!(join_path("a", ""), "a/");
}

#[test]
fn load_action_by_presence() {
    assert_eq!(Config::<u8>::load_action(false), LoadAction::CreateDefault);
    assert_eq!(Config::<u8>::load_action(true), LoadAction::ReadExisting);
}

#[test]
fn first_run_creates_then_second_run_reads_same_state() {
    let mut disk = HashMap::new();
    let first = load(&mut disk, "app", "/cfg", "default-state");
    assert_eq!(disk.len(), 1);
    assert_eq!(disk["/cfg/app/session.toml"], "default-state");
    let second = load(&mut disk, "app", "/cfg", "another-default");
    assert_eq!(first, second);
    assert_eq!(disk.len(), 1);
    assert_eq!(disk["/cfg/app/session.toml"], "default-state");
}

#[test]
fn exclusive_persist_twice_refuses_second() {
    let path = Config::<u8>::session_path("app", "/cfg");
    let mut disk: HashMap<String, u8> = HashMap::new();
    let first = Config::new(1u8, path.clone());
    assert_eq!(first.check_persist(PersistMode::Exclusive, disk.contains_key(&path)), Ok(()));
    disk.insert(path.clone(), first.config);
    let second = Config::new(2u8, path.clone());
    assert_eq!(
        second.check_persist(PersistMode::Exclusive, disk.contains_key(&path)),
        Err(Error::ConfigAlreadyExists("/cfg/app/session.toml".to_owned()))
    );
    assert_eq!(disk[&path], 1);
}

#[test]
fn overwrite_persist_always_allowed() {
    let c = Config::new(3u8, "/x/session.toml".to_owned());
    assert_eq!(c.check_persist(PersistMode::Overwrite, true), Ok(()));
    assert_eq!(c.check_persist(PersistMode::Overwrite, false), Ok(()));
    assert_eq!(c.check_persist(PersistMode::Exclusive, false), Ok(()));
}

#[test]
fn parent_dir_of_session_file() {
    let c = Config::new(0u8, Config::<u8>::session_path("app", "/cfg"));
    assert_eq!(c.parent_dir(), Ok("/cfg/app".to_owned()));
    assert_eq!(Config::new(0u8, "/session.toml".to_owned()).parent_dir(), Ok("/".to_owned()));
    assert_eq!(Config::new(0u8, "session.toml".to_owned()).parent_dir(), Ok("".to_owned()));
    assert_eq!(Config::new(0u8, "a/b/c".to_owned()).parent_dir(), Ok("a/b".to_owned()));
}

#[test]
fn parent_dir_missing() {
    let no_parent = Err(Error::ConfigDoesNotExist("no parent".to_owned()));
    assert_eq!(Config::new(0u8, "".to_owned()).parent_dir(), no_parent);
    assert_eq!(Config::new(0u8, "/".to_owned()).parent_dir(), no_parent);
}

#[test]
fn error_messages() {
    assert_eq!(Error::ConfigMissingError.message(), "Config directory missing");
    assert_eq!(Error::ConfigAlreadyExists("/a".to_owned()).message(), "File already exist: /a");
    assert_eq!(Error::ConfigDoesNotExist("no parent".to_owned()).message(), "File does not exist: no parent");
    assert_eq!(Error::NotPaired.message(), "Not paired, please attempt pairing.");
    assert_eq!(Error::IoError("denied".to_owned()).message(), "IO error denied");
    assert_eq!(Error::TomlDeError("bad".to_owned()).message(), "Toml deserialize error: bad");
    assert_eq!(Error::TomlSerError("bad".to_owned()).message(), "Toml serialize error: bad");
    assert_eq!(Error::Scattterbrain("x".to_owned()).message(), "Scatterbrain error: x");
    assert_eq!(Error::ClapError("x".to_owned()).message(), "Invalid argument: x");
    assert!(Error::PairingRejected.message().starts_with("Pairing rejected"));
}
