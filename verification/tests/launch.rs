use backend_supervisor::launch::{
    kill_all_backends_silently, launch_args, launch_plan, KillPlan, Platform, StdioMode, BIND_HOST,
    BIND_PORT, CREATE_NO_WINDOW, DATA_SUBDIR, KILL_PROGRAM,
};
use backend_supervisor::resolver::Candidate;

#[test]
fn constants() {
    assert_eq!(BIND_HOST, "127.0.0.1");
    assert_eq!(BIND_PORT, "8787");
    assert_eq!(DATA_SUBDIR, "shanten");
    assert_eq!(CREATE_NO_WINDOW, 0x0800_0000);
    assert_eq!(KILL_PROGRAM, "taskkill");
}

#[test]
fn arguments_of_the_backend() {
    assert_eq!(
        launch_args("/home/u/.local/share/app/shanten"),
        vec![
            "--host",
            "127.0.0.1",
            "--port",
            "8787",
            "--data-root",
            "/home/u/.local/share/app/shanten"
        ]
    );
}

#[test]
fn arguments_with_empty_data_root() {
    assert_eq!(launch_args(""), vec!["--host", "127.0.0.1", "--port", "8787", "--data-root", ""]);
}

#[test]
fn plan_on_windows_hides_the_console() {
    let plan = launch_plan(Candidate::Packaged, "C:\\data\\shanten", Platform::Windows);
    assert_eq!(plan.program, Candidate::Packaged);
    assert_eq!(
        plan.args,
        vec!["--host", "127.0.0.1", "--port", "8787", "--data-root", "C:\\data\\shanten"]
    );
    assert_eq!(plan.stdin, StdioMode::Null);
    assert_eq!(plan.stdout, StdioMode::Piped);
    assert_eq!(plan.stderr, StdioMode::Piped);
    assert_eq!(plan.creation_flags, Some(0x0800_0000));
}

#[test]
fn plan_elsewhere_has_no_creation_flags() {
    let plan = launch_plan(Candidate::DevBin, "data/shanten", Platform::Other);
    assert_eq!(plan.program, Candidate::DevBin);
    assert_eq!(plan.stdin, StdioMode::Null);
    assert_eq!(plan.stdout, StdioMode::Piped);
    assert_eq!(plan.stderr, StdioMode::Piped);
    assert_eq!(plan.creation_flags, None);
}

#[test]
fn kill_all_on_windows() {
    assert_eq!(
        kill_all_backends_silently(Platform::Windows),
        Some(KillPlan {
            program: "taskkill".to_string(),
            args: vec![
                "/IM".to_string(),
                "shanten-backend.exe".to_string(),
                "/F".to_string(),
                "/T".to_string()
            ],
            creation_flags: 0x0800_0000,
        })
    );
}

#[test]
fn kill_all_elsewhere_is_nothing() {
    assert_eq!(kill_all_backends_silently(Platform::Other), None);
}
