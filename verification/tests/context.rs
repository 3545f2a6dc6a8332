use termind::blocks::context::{
    EntryFacts, EnvironmentContext, EnvironmentHints, ExecutionContext, FileInfo,
    FilePermissions, FileSystemContext, FileType, GitContext, ProjectContext, ProjectFiles,
    ProjectType, ShellInfo, SystemContext, LISTED_FILES,
};
use termind::error::TermindError;

fn no_files() -> ProjectFiles {
    ProjectFiles {
        cargo_toml: false,
        package_json: false,
        yarn_lock: false,
        package_lock_json: false,
        pnpm_lock_yaml: false,
        pyproject_toml: false,
        requirements_txt: false,
        setup_py: false,
        pipfile: false,
        go_mod: false,
        pom_xml: false,
        build_gradle: false,
        build_gradle_kts: false,
        dockerfile: false,
        docker_compose_yml: false,
        git: false,
    }
}

fn no_hints() -> EnvironmentHints {
    EnvironmentHints { virtual_env: None, conda_default_env: None, nvm_dir: None }
}

#[test]
fn context_test_shell_detection() {
    let shell = ShellInfo::detect(None, None, None);
    assert!(shell.is_ok());

    let shell = shell.unwrap();
    assert!(!shell.name.is_empty());
    assert!(!shell.path.is_empty());
}

#[test]
fn test_project_context() {
    let files = ProjectFiles { cargo_toml: true, git: true, ..no_files() };
    let proj = ProjectContext::detect("/work/termind".to_string(), &files, no_hints());

    assert_eq!(proj.project_type, ProjectType::Rust);
    assert!(proj.config_files.contains(&"Cargo.toml".to_string()));
}

#[test]
fn shell_defaults_and_version() {
    let shell = ShellInfo::detect(None, None, Some("5.9".to_string())).unwrap();
    assert_eq!(shell.path, "/bin/sh");
    assert_eq!(shell.name, "sh");
    assert_eq!(shell.version, None);
    let shell = ShellInfo::detect(
        Some("/usr/bin/zsh".to_string()),
        Some("zsh".to_string()),
        Some("zsh 5.9".to_string()),
    )
    .unwrap();
    assert_eq!(shell.path, "/usr/bin/zsh");
    assert_eq!(shell.name, "zsh");
    assert_eq!(shell.version, Some("zsh 5.9".to_string()));
    for (name, asked) in [("zsh", true), ("bash", true), ("fish", true), ("sh", false), ("", false)]
    {
        assert_eq!(ShellInfo::reports_version(&name.to_string()), asked);
    }
}

#[test]
fn project_kinds_in_order_of_precedence() {
    let all = ProjectFiles {
        cargo_toml: true,
        package_json: true,
        pyproject_toml: true,
        go_mod: true,
        pom_xml: true,
        dockerfile: true,
        ..no_files()
    };
    let steps = [
        (ProjectType::Rust, vec!["Cargo.toml"]),
        (ProjectType::Node, vec!["package.json"]),
        (ProjectType::Python, vec!["pyproject.toml"]),
        (ProjectType::Go, vec!["go.mod"]),
        (ProjectType::Java, vec!["pom.xml"]),
        (ProjectType::Docker, vec!["Dockerfile"]),
        (ProjectType::Unknown, vec![]),
    ];
    let mut files = all;
    for (kind, configs) in steps {
        let (found, listed) = ProjectContext::detect_project_type(&files);
        assert_eq!(found, kind);
        assert_eq!(listed, configs);
        match kind {
            ProjectType::Rust => files.cargo_toml = false,
            ProjectType::Node => files.package_json = false,
            ProjectType::Python => files.pyproject_toml = false,
            ProjectType::Go => files.go_mod = false,
            ProjectType::Java => files.pom_xml = false,
            ProjectType::Docker => files.dockerfile = false,
            ProjectType::Unknown => {}
        }
    }
}

#[test]
fn config_files_are_listed_in_order() {
    let node = ProjectFiles {
        package_json: true,
        yarn_lock: true,
        package_lock_json: true,
        ..no_files()
    };
    assert_eq!(
        ProjectContext::detect_project_type(&node).1,
        ["package.json", "yarn.lock", "package-lock.json"]
    );
    let python = ProjectFiles { setup_py: true, requirements_txt: true, pipfile: true, ..no_files() };
    assert_eq!(
        ProjectContext::detect_project_type(&python),
        (
            ProjectType::Python,
            vec!["requirements.txt".to_string(), "setup.py".to_string(), "Pipfile".to_string()]
        )
    );
    let java = ProjectFiles { build_gradle: true, build_gradle_kts: true, ..no_files() };
    assert_eq!(
        ProjectContext::detect_project_type(&java).1,
        ["build.gradle", "build.gradle.kts"]
    );
    let docker = ProjectFiles { dockerfile: true, docker_compose_yml: true, ..no_files() };
    assert_eq!(
        ProjectContext::detect_project_type(&docker).1,
        ["Dockerfile", "docker-compose.yml"]
    );
    let pipfile_only = ProjectFiles { pipfile: true, ..no_files() };
    assert_eq!(ProjectContext::detect_project_type(&pipfile_only).0, ProjectType::Unknown);
}

#[test]
fn package_managers() {
    let none = no_files();
    let manager = |files: &ProjectFiles, kind| ProjectContext::detect_package_manager(files, kind);
    assert_eq!(manager(&none, ProjectType::Rust), Some("cargo".to_string()));
    assert_eq!(manager(&none, ProjectType::Node), Some("npm".to_string()));
    let yarn = ProjectFiles { yarn_lock: true, pnpm_lock_yaml: true, ..no_files() };
    assert_eq!(manager(&yarn, ProjectType::Node), Some("yarn".to_string()));
    let pnpm = ProjectFiles { pnpm_lock_yaml: true, ..no_files() };
    assert_eq!(manager(&pnpm, ProjectType::Node), Some("pnpm".to_string()));
    assert_eq!(manager(&none, ProjectType::Python), Some("pip".to_string()));
    let poetry = ProjectFiles { pyproject_toml: true, ..no_files() };
    assert_eq!(manager(&poetry, ProjectType::Python), Some("poetry".to_string()));
    let pipenv = ProjectFiles { pipfile: true, pyproject_toml: true, ..no_files() };
    assert_eq!(manager(&pipenv, ProjectType::Python), Some("pipenv".to_string()));
    assert_eq!(manager(&none, ProjectType::Go), Some("go".to_string()));
    assert_eq!(manager(&none, ProjectType::Java), Some("gradle".to_string()));
    let maven = ProjectFiles { pom_xml: true, ..no_files() };
    assert_eq!(manager(&maven, ProjectType::Java), Some("maven".to_string()));
    assert_eq!(manager(&none, ProjectType::Docker), None);
    assert_eq!(manager(&none, ProjectType::Unknown), None);
}

#[test]
fn virtual_environments() {
    let hints = || EnvironmentHints {
        virtual_env: Some("/venv".to_string()),
        conda_default_env: Some("base".to_string()),
        nvm_dir: Some("/nvm".to_string()),
    };
    assert_eq!(
        ProjectContext::detect_virtual_env(hints(), ProjectType::Python),
        Some("/venv".to_string())
    );
    let conda = EnvironmentHints { virtual_env: None, ..hints() };
    assert_eq!(
        ProjectContext::detect_virtual_env(conda, ProjectType::Python),
        Some("base".to_string())
    );
    assert_eq!(
        ProjectContext::detect_virtual_env(hints(), ProjectType::Node),
        Some("/nvm".to_string())
    );
    assert_eq!(ProjectContext::detect_virtual_env(hints(), ProjectType::Rust), None);
    assert_eq!(ProjectContext::detect_virtual_env(no_hints(), ProjectType::Python), None);
}

#[test]
fn project_root_is_first_marked_directory_or_the_start() {
    assert_eq!(ProjectContext::find_project_root(&vec![false, false, true, true]), 2);
    assert_eq!(ProjectContext::find_project_root(&vec![true, true]), 0);
    assert_eq!(ProjectContext::find_project_root(&vec![false, false]), 0);
    assert_eq!(ProjectContext::find_project_root(&vec![]), 0);
    assert!(ProjectFiles { git: true, ..no_files() }.is_project_root());
    assert!(ProjectFiles { build_gradle: true, ..no_files() }.is_project_root());
    assert!(!ProjectFiles { setup_py: true, yarn_lock: true, ..no_files() }.is_project_root());
    assert!(!no_files().is_project_root());
}

#[test]
fn git_root_must_exist() {
    assert_eq!(GitContext::find_git_root(&vec![false, true]), Ok(1));
    assert_eq!(
        GitContext::find_git_root(&vec![false, false]),
        Err(TermindError::Configuration("Not in a git repository".to_string()))
    );
    assert_eq!(
        GitContext::find_git_root(&vec![]),
        Err(TermindError::Configuration("Not in a git repository".to_string()))
    );
}

#[test]
fn git_context_defaults() {
    let git = GitContext::capture("/repo".to_string(), None, None, None, vec![], vec![]);
    assert_eq!(git.current_branch, "unknown");
    assert_eq!(git.head_commit, "unknown");
    assert!(git.status.clean);
    assert_eq!(
        (git.status.ahead, git.status.behind, git.status.untracked),
        (0, 0, 0)
    );
    assert!(!git.uncommitted_changes);
    let git = GitContext::capture(
        "/repo".to_string(),
        Some("main".to_string()),
        Some("abc".to_string()),
        Some("origin".to_string()),
        vec![],
        vec!["a.rs".to_string()],
    );
    assert_eq!(git.current_branch, "main");
    assert_eq!(git.head_commit, "abc");
    assert_eq!(git.remote_origin, Some("origin".to_string()));
    assert!(git.uncommitted_changes);
    assert_eq!(GitContext::parse_git_status(), git.status);
}

#[test]
fn system_user_falls_back() {
    let system = |user: Option<&str>, username: Option<&str>| {
        SystemContext::capture(
            "linux".to_string(),
            "box".to_string(),
            user.map(str::to_string),
            username.map(str::to_string),
            7,
            4,
        )
    };
    assert_eq!(system(Some("ann"), Some("bob")).username, "ann");
    assert_eq!(system(None, Some("bob")).username, "bob");
    let unknown = system(None, None);
    assert_eq!(unknown.username, "unknown");
    assert_eq!(unknown.process_id, 7);
    assert_eq!(unknown.cpu_count, 4);
    assert_eq!(unknown.parent_process_id, None);
    assert_eq!(unknown.memory_total, None);
}

#[test]
fn directory_entries() {
    let facts = |is_dir, is_symlink, is_file| Some(EntryFacts { is_dir, is_symlink, is_file, len: 9 });
    let info = FileInfo::new("d".to_string(), facts(true, true, false), Some(5));
    assert_eq!(info.file_type, FileType::Directory);
    assert_eq!(info.size, None);
    assert_eq!(info.modified, Some(5));
    let info = FileInfo::new("l".to_string(), facts(false, true, false), None);
    assert_eq!(info.file_type, FileType::Symlink);
    let info = FileInfo::new("f".to_string(), facts(false, false, true), None);
    assert_eq!(info.file_type, FileType::File);
    assert_eq!(info.size, Some(9));
    let info = FileInfo::new("?".to_string(), None, None);
    assert_eq!(info.file_type, FileType::File);
    assert_eq!(info.size, None);
    assert_eq!(LISTED_FILES, 50);
}

fn context(git: Option<GitContext>, project: Option<ProjectContext>) -> ExecutionContext {
    ExecutionContext {
        environment: EnvironmentContext {
            working_directory: "/work/termind".to_string(),
            home_directory: None,
            shell: ShellInfo::detect(None, None, None).unwrap(),
            key_variables: vec![],
            path_entries: vec![],
        },
        project,
        git,
        system: SystemContext::capture("linux".into(), "box".into(), None, None, 1, 1),
        filesystem: FileSystemContext {
            current_files: vec![],
            disk_usage: None,
            permissions: FilePermissions { readable: true, writable: true, executable: true },
        },
        captured_at_ms: 0,
    }
}

#[test]
fn summary_lists_directory_branch_and_project() {
    let git = GitContext::capture(
        "/work/termind".into(),
        Some("main".into()),
        None,
        None,
        vec!["x".into()],
        vec![],
    );
    let files = ProjectFiles { cargo_toml: true, ..no_files() };
    let project = ProjectContext::detect("/work/termind".into(), &files, no_hints());
    let full = context(Some(git), Some(project));
    assert_eq!(
        full.summary(Some("termind".to_string())).join(" "),
        "📁 termind 🌿 main 🔄 🦀"
    );
    let bare = context(None, None);
    assert!(bare.summary(None).is_empty());
    assert_eq!(bare.summary(Some("x".to_string())), ["📁 x"]);
    let clean = GitContext::capture("/r".into(), None, None, None, vec![], vec![]);
    assert_eq!(context(Some(clean), None).summary(None), ["🌿 unknown"]);
}

#[test]
fn project_icons() {
    let icons = [
        (ProjectType::Rust, "🦀"),
        (ProjectType::Node, "📦"),
        (ProjectType::Python, "🐍"),
        (ProjectType::Go, "🐹"),
        (ProjectType::Java, "☕"),
        (ProjectType::Docker, "🐳"),
        (ProjectType::Unknown, "❓"),
    ];
    for (kind, icon) in icons {
        assert_eq!(kind.icon(), icon);
    }
}

#[test]
fn render_errors_keep_their_message() {
    use_render_error(termind::renderer::RenderError::Font("No suitable font found".to_string()));
}

fn use_render_error(error: termind::renderer::RenderError) {
    match error {
        termind::renderer::RenderError::Font(message) => {
            assert_eq!(message, "No suitable font found")
        }
        other => panic!("unexpected: {:?}", other),
    }
    assert_ne!(
        termind::renderer::RenderError::GpuInit("x".to_string()),
        termind::renderer::RenderError::Window("x".to_string())
    );
    assert_ne!(
        termind::renderer::RenderError::RenderFailed("a".to_string()),
        termind::renderer::RenderError::RenderFailed("b".to_string())
    );
}
