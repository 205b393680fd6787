use pvpkits_manager::server::{
    build_outcome, deploy_outcome, ServerManager, Status, Step, DEPLOY_DELAY_SECS,
    RESTART_DELAY_SECS,
};

#[test]
fn new_manager_is_stopped() {
    let m: ServerManager<u32> = ServerManager::new();
    assert!(!m.is_running());
}

#[test]
fn start_in_missing_directory_reports_path_not_found() {
    let m: ServerManager<u32> = ServerManager::new();
    assert_eq!(m.start(false), Step::Report(Status::PathNotFound));
    assert!(!m.is_running());
}

#[test]
fn second_start_reports_already_running() {
    let mut m: ServerManager<u32> = ServerManager::new();
    assert_eq!(m.start(true), Step::Launch);
    assert_eq!(m.record_spawn(Ok(41)), Status::Started);
    assert_eq!(m.start(true), Step::Report(Status::AlreadyRunning));
    assert!(m.is_running());
    assert_eq!(m.stop(), Some(41));
    assert!(!m.is_running());
}

#[test]
fn start_while_running_ignores_missing_directory() {
    let mut m: ServerManager<u32> = ServerManager::new();
    assert_eq!(m.record_spawn(Ok(5)), Status::Started);
    assert_eq!(m.start(false), Step::Report(Status::AlreadyRunning));
    assert!(m.is_running());
}

#[test]
fn failed_spawn_holds_nothing() {
    let mut m: ServerManager<u32> = ServerManager::new();
    assert_eq!(m.start(true), Step::Launch);
    let st = m.record_spawn(Err("No such file or directory".to_string()));
    assert_eq!(st, Status::ProcessSpawnFailed("No such file or directory".to_string()));
    assert!(!m.is_running());
    assert_eq!(m.start(true), Step::Launch);
}

#[test]
fn stop_without_process_does_nothing() {
    let mut m: ServerManager<u32> = ServerManager::new();
    assert_eq!(m.stop(), None);
    assert!(!m.is_running());
    assert_eq!(m.stop(), None);
}

#[test]
fn stop_releases_the_handle_once() {
    let mut m: ServerManager<u32> = ServerManager::new();
    m.record_spawn(Ok(9));
    assert_eq!(m.stop(), Some(9));
    assert_eq!(m.stop(), None);
}

#[test]
fn restart_of_stopped_manager_ends_running() {
    let mut m: ServerManager<u32> = ServerManager::new();
    assert_eq!(m.stop(), None);
    assert!(!m.is_running());
    assert_eq!(RESTART_DELAY_SECS, 2);
    assert_eq!(m.start(true), Step::Launch);
    assert_eq!(m.record_spawn(Ok(12)), Status::Started);
    assert!(m.is_running());
}

#[test]
fn restart_of_running_manager_passes_through_stopped() {
    let mut m: ServerManager<u32> = ServerManager::new();
    m.record_spawn(Ok(1));
    assert_eq!(m.stop(), Some(1));
    assert!(!m.is_running());
    assert_eq!(m.start(true), Step::Launch);
    assert_eq!(m.record_spawn(Ok(2)), Status::Started);
    assert_eq!(m.stop(), Some(2));
}

#[test]
fn running_follows_last_call() {
    let mut m: ServerManager<u32> = ServerManager::new();
    m.record_spawn(Ok(1));
    m.stop();
    assert!(!m.is_running());
    assert_eq!(m.start(false), Step::Report(Status::PathNotFound));
    assert!(!m.is_running());
    assert_eq!(m.start(true), Step::Launch);
    m.record_spawn(Ok(2));
    assert!(m.is_running());
}

#[test]
fn build_in_missing_directory_launches_nothing() {
    let m: ServerManager<u32> = ServerManager::new();
    assert_eq!(m.build_plugin(false), Step::Report(Status::PathNotFound));
    assert_eq!(m.build_plugin(true), Step::Launch);
}

#[test]
fn build_outcomes() {
    assert_eq!(build_outcome(Ok((true, String::new()))), Status::BuildSucceeded);
    assert_eq!(
        build_outcome(Ok((false, "BUILD FAILURE".to_string()))),
        Status::BuildFailed("BUILD FAILURE".to_string())
    );
    assert_eq!(
        build_outcome(Err("program not found".to_string())),
        Status::LaunchToolMissing("program not found".to_string())
    );
}

#[test]
fn deploy_paths() {
    let m: ServerManager<u32> = ServerManager::new();
    let (source, destination) = m.deploy_plugin("/home/dev/plugin", "./test-server");
    assert_eq!(source, "/home/dev/plugin/target/PvPKits-1.0.0.jar");
    assert_eq!(destination, "./test-server/plugins/PvPKits-1.0.0.jar");
    assert_eq!(DEPLOY_DELAY_SECS, 1);
}

#[test]
fn deploy_outcomes() {
    let dest = "./test-server/plugins/PvPKits-1.0.0.jar".to_string();
    assert_eq!(deploy_outcome(Ok(2048), dest.clone()), Status::Deployed(dest.clone()));
    assert_eq!(
        deploy_outcome(Err("No such file or directory".to_string()), dest),
        Status::CopyFailed("No such file or directory".to_string())
    );
}
