use backend_supervisor::strategy::{LaunchConfig, LaunchStrategy, select_strategy};
use backend_supervisor::supervisor::Supervisor;

#[test]
fn bundled_executable_wins_even_in_development() {
    let c = LaunchConfig {
        bundled_path: Some("resources/mylife-backend.exe".to_string()),
        local_interpreter: Some("../../backend/venv/Scripts/python.exe".to_string()),
        backend_dir: "../../backend".to_string(),
        is_development: true,
    };
    match select_strategy(c) {
        LaunchStrategy::BundledExecutable { path } => {
            assert_eq!(path, "resources/mylife-backend.exe");
        }
        LaunchStrategy::InterpreterScript { .. } => panic!("bundled path must take priority"),
    }
}

#[test]
fn system_interpreter_fallback_with_exact_arguments() {
    let c = LaunchConfig {
        bundled_path: None,
        local_interpreter: None,
        backend_dir: "../../backend".to_string(),
        is_development: true,
    };
    match select_strategy(c) {
        LaunchStrategy::InterpreterScript { interpreter, args, working_dir } => {
            assert_eq!(interpreter, "python");
            assert_eq!(
                args,
                vec![
                    "-m".to_string(),
                    "uvicorn".to_string(),
                    "app.main:app".to_string(),
                    "--host".to_string(),
                    "127.0.0.1".to_string(),
                    "--port".to_string(),
                    "8000".to_string(),
                ]
            );
            assert_eq!(working_dir, "../../backend");
        }
        LaunchStrategy::BundledExecutable { .. } => panic!("no bundled path was given"),
    }
}

#[test]
fn project_local_interpreter_preferred_over_system() {
    let c = LaunchConfig {
        bundled_path: None,
        local_interpreter: Some("../../backend/venv/Scripts/python.exe".to_string()),
        backend_dir: "../../backend".to_string(),
        is_development: false,
    };
    match select_strategy(c) {
        LaunchStrategy::InterpreterScript { interpreter, working_dir, .. } => {
            assert_eq!(interpreter, "../../backend/venv/Scripts/python.exe");
            assert_eq!(working_dir, "../../backend");
        }
        LaunchStrategy::BundledExecutable { .. } => panic!("no bundled path was given"),
    }
}

#[test]
fn supervisor_keeps_selected_strategy() {
    let c = LaunchConfig {
        bundled_path: Some("backend.exe".to_string()),
        local_interpreter: None,
        backend_dir: ".".to_string(),
        is_development: false,
    };
    let sup = Supervisor::new(c);
    match sup.launch_strategy() {
        LaunchStrategy::BundledExecutable { path } => assert_eq!(path, "backend.exe"),
        LaunchStrategy::InterpreterScript { .. } => panic!("bundled path must take priority"),
    }
}
