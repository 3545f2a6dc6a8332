//! The context of a command: the shell, the project and the repository
//! around it. The caller looks at the environment and the disk; what is
//! made of the findings is decided here.

use crate::blocks::append;
use crate::error::TermindError;
use vstd::prelude::*;

verus! {

/// The texts of a list of strings.
pub open spec fn texts(list: Seq<String>) -> Seq<Seq<char>> {
    Seq::new(list.len(), |i: int| list[i]@)
}

/// The one-element list of `name` when `found`, else the empty list.
pub open spec fn listed(found: bool, name: Seq<char>) -> Seq<Seq<char>> {
    if found {
        seq![name]
    } else {
        Seq::empty()
    }
}

/// The text of `value`, or `default` when there is none.
pub open spec fn text_or(value: Option<String>, default: Seq<char>) -> Seq<char> {
    match value {
        Some(text) => text@,
        None => default,
    }
}

/// The kind of project in a directory.
#[derive(Debug, Clone, Copy, PartialEq, Eq, Structural)]
pub enum ProjectType {
    Rust,
    Node,
    Python,
    Go,
    Java,
    Docker,
    Unknown,
}

/// Which of the files that tell of a project are in a directory.
#[derive(Debug, Clone, Copy, PartialEq, Eq, Structural)]
pub struct ProjectFiles {
    pub cargo_toml: bool,
    pub package_json: bool,
    pub yarn_lock: bool,
    pub package_lock_json: bool,
    pub pnpm_lock_yaml: bool,
    pub pyproject_toml: bool,
    pub requirements_txt: bool,
    pub setup_py: bool,
    pub pipfile: bool,
    pub go_mod: bool,
    pub pom_xml: bool,
    pub build_gradle: bool,
    pub build_gradle_kts: bool,
    pub dockerfile: bool,
    pub docker_compose_yml: bool,
    pub git: bool,
}

impl ProjectFiles {
    /// Whether the directory is the root of a project: it holds a build
    /// file of one of the known kinds or a repository.
    pub open spec fn marks_root(self) -> bool {
        self.cargo_toml || self.package_json || self.pyproject_toml || self.requirements_txt
            || self.go_mod || self.pom_xml || self.build_gradle || self.dockerfile || self.git
    }

    /// The kind of the project, the first that fits of: Rust by its
    /// manifest, Node by its package file, Python by a project file, a
    /// requirements file or a setup script, Go by its module file, Java by
    /// a Maven or Gradle build file, Docker by a Dockerfile.
    pub open spec fn project_type(self) -> ProjectType {
        if self.cargo_toml {
            ProjectType::Rust
        } else if self.package_json {
            ProjectType::Node
        } else if self.pyproject_toml || self.requirements_txt || self.setup_py {
            ProjectType::Python
        } else if self.go_mod {
            ProjectType::Go
        } else if self.pom_xml || self.build_gradle {
            ProjectType::Java
        } else if self.dockerfile {
            ProjectType::Docker
        } else {
            ProjectType::Unknown
        }
    }

    /// The configuration files of the project that are there, in a fixed
    /// order for each kind.
    pub open spec fn config_files(self) -> Seq<Seq<char>> {
        match self.project_type() {
            ProjectType::Rust => seq!["Cargo.toml"@],
            ProjectType::Node => seq!["package.json"@] + listed(self.yarn_lock, "yarn.lock"@)
                + listed(self.package_lock_json, "package-lock.json"@),
            ProjectType::Python => listed(self.pyproject_toml, "pyproject.toml"@) + listed(
                self.requirements_txt,
                "requirements.txt"@,
            ) + listed(self.setup_py, "setup.py"@) + listed(self.pipfile, "Pipfile"@),
            ProjectType::Go => seq!["go.mod"@],
            ProjectType::Java => listed(self.pom_xml, "pom.xml"@) + listed(
                self.build_gradle,
                "build.gradle"@,
            ) + listed(self.build_gradle_kts, "build.gradle.kts"@),
            ProjectType::Docker => seq!["Dockerfile"@] + listed(
                self.docker_compose_yml,
                "docker-compose.yml"@,
            ),
            ProjectType::Unknown => Seq::empty(),
        }
    }

    /// The package manager of the project: cargo for Rust; yarn, pnpm or
    /// npm for Node, by the lock file; pipenv, poetry or pip for Python, by
    /// the project file; go for Go; maven or gradle for Java, by the build
    /// file; none for the other kinds.
    pub open spec fn package_manager(self, project_type: ProjectType) -> Option<Seq<char>> {
        match project_type {
            ProjectType::Rust => Some("cargo"@),
            ProjectType::Node => if self.yarn_lock {
                Some("yarn"@)
            } else if self.pnpm_lock_yaml {
                Some("pnpm"@)
            } else {
                Some("npm"@)
            },
            ProjectType::Python => if self.pipfile {
                Some("pipenv"@)
            } else if self.pyproject_toml {
                Some("poetry"@)
            } else {
                Some("pip"@)
            },
            ProjectType::Go => Some("go"@),
            ProjectType::Java => if self.pom_xml {
                Some("maven"@)
            } else {
                Some("gradle"@)
            },
            _ => None,
        }
    }

    /// Whether the directory is the root of a project.
    pub fn is_project_root(&self) -> (marks: bool)
        ensures
            marks == self.marks_root(),
    {
        self.cargo_toml || self.package_json || self.pyproject_toml || self.requirements_txt
            || self.go_mod || self.pom_xml || self.build_gradle || self.dockerfile || self.git
    }
}

/// Adds `name` to `list` when `found`.
fn note(list: &mut Vec<String>, found: bool, name: &str)
    ensures
        texts(final(list)@) == texts(old(list)@) + listed(found, name@),
{
    if found {
        list.push(name.to_owned());
    }
    assert(texts(list@) =~= texts(old(list)@) + listed(found, name@));
}

/// The index of the first directory from `from` on that is marked, or the
/// length of the list when none is.
pub open spec fn first_marked(marked: Seq<bool>, from: int) -> int
    decreases marked.len() - from,
{
    if from < 0 || from >= marked.len() {
        marked.len() as int
    } else if marked[from] {
        from
    } else {
        first_marked(marked, from + 1)
    }
}

/// The index of the first marked directory, if one is marked.
fn find_marked(marked: &Vec<bool>) -> (found: Option<usize>)
    ensures
        match found {
            Some(index) => index == first_marked(marked@, 0) && index < marked@.len(),
            None => first_marked(marked@, 0) == marked@.len(),
        },
{
    let mut index: usize = 0;
    while index < marked.len()
        invariant
            index <= marked@.len(),
            first_marked(marked@, 0) == first_marked(marked@, index as int),
        decreases marked@.len() - index,
    {
        if marked[index] {
            return Some(index);
        }
        index += 1;
    }
    None
}

/// What is known of the project around a command.
#[derive(Debug, PartialEq, Eq)]
pub struct ProjectContext {
    pub project_type: ProjectType,
    pub project_root: String,
    pub config_files: Vec<String>,
    pub dependencies: Vec<String>,
    pub virtual_env: Option<String>,
    pub package_manager: Option<String>,
}

/// The variables that tell of a virtual environment.
#[derive(Debug, PartialEq, Eq)]
pub struct EnvironmentHints {
    /// The value of `VIRTUAL_ENV`.
    pub virtual_env: Option<String>,
    /// The value of `CONDA_DEFAULT_ENV`.
    pub conda_default_env: Option<String>,
    /// The value of `NVM_DIR`.
    pub nvm_dir: Option<String>,
}

impl EnvironmentHints {
    /// The virtual environment of a project of kind `project_type`: for
    /// Python the virtual environment, or the conda environment when there
    /// is none; for Node the directory of the version manager; none for
    /// the other kinds.
    pub open spec fn virtual_env_for(self, project_type: ProjectType) -> Option<String> {
        match project_type {
            ProjectType::Python => if self.virtual_env.is_some() {
                self.virtual_env
            } else {
                self.conda_default_env
            },
            ProjectType::Node => self.nvm_dir,
            _ => None,
        }
    }
}

impl ProjectContext {
    /// The index of the project's root among the directories from the
    /// starting one upwards: the first that holds a mark of a project, or
    /// the starting directory itself when none does. `marked[i]` says
    /// whether the directory `i` levels up holds one.
    pub fn find_project_root(marked: &Vec<bool>) -> (root: usize)
        ensures
            root == (if first_marked(marked@, 0) < marked@.len() {
                first_marked(marked@, 0)
            } else {
                0
            }),
    {
        match find_marked(marked) {
            Some(index) => index,
            None => 0,
        }
    }

    /// The kind of the project and its configuration files that are
    /// there.
    pub fn detect_project_type(files: &ProjectFiles) -> (found: (ProjectType, Vec<String>))
        ensures
            found.0 == files.project_type(),
            texts(found.1@) == files.config_files(),
    {
        let mut config_files: Vec<String> = Vec::new();
        assert(texts(config_files@) =~= Seq::<Seq<char>>::empty());
        if files.cargo_toml {
            note(&mut config_files, true, "Cargo.toml");
            assert(texts(config_files@) =~= files.config_files());
            return (ProjectType::Rust, config_files);
        }
        if files.package_json {
            note(&mut config_files, true, "package.json");
            note(&mut config_files, files.yarn_lock, "yarn.lock");
            note(&mut config_files, files.package_lock_json, "package-lock.json");
            assert(texts(config_files@) =~= files.config_files());
            return (ProjectType::Node, config_files);
        }
        if files.pyproject_toml || files.requirements_txt || files.setup_py {
            note(&mut config_files, files.pyproject_toml, "pyproject.toml");
            note(&mut config_files, files.requirements_txt, "requirements.txt");
            note(&mut config_files, files.setup_py, "setup.py");
            note(&mut config_files, files.pipfile, "Pipfile");
            assert(texts(config_files@) =~= files.config_files());
            return (ProjectType::Python, config_files);
        }
        if files.go_mod {
            note(&mut config_files, true, "go.mod");
            assert(texts(config_files@) =~= files.config_files());
            return (ProjectType::Go, config_files);
        }
        if files.pom_xml || files.build_gradle {
            note(&mut config_files, files.pom_xml, "pom.xml");
            note(&mut config_files, files.build_gradle, "build.gradle");
            note(&mut config_files, files.build_gradle_kts, "build.gradle.kts");
            assert(texts(config_files@) =~= files.config_files());
            return (ProjectType::Java, config_files);
        }
        if files.dockerfile {
            note(&mut config_files, true, "Dockerfile");
            note(&mut config_files, files.docker_compose_yml, "docker-compose.yml");
            assert(texts(config_files@) =~= files.config_files());
            return (ProjectType::Docker, config_files);
        }
        (ProjectType::Unknown, config_files)
    }

    /// The virtual environment of a project of kind `project_type`.
    pub fn detect_virtual_env(hints: EnvironmentHints, project_type: ProjectType) -> (env: Option<
        String,
    >)
        ensures
            env == hints.virtual_env_for(project_type),
    {
        match project_type {
            ProjectType::Python => {
                if hints.virtual_env.is_some() {
                    hints.virtual_env
                } else {
                    hints.conda_default_env
                }
            },
            ProjectType::Node => hints.nvm_dir,
            _ => None,
        }
    }

    /// The package manager of a project of kind `project_type`.
    pub fn detect_package_manager(files: &ProjectFiles, project_type: ProjectType) -> (manager:
        Option<String>)
        ensures
            match manager {
                Some(name) => files.package_manager(project_type) == Some(name@),
                None => files.package_manager(project_type).is_none(),
            },
    {
        match project_type {
            ProjectType::Rust => Some("cargo".to_owned()),
            ProjectType::Node => {
                if files.yarn_lock {
                    Some("yarn".to_owned())
                } else if files.pnpm_lock_yaml {
                    Some("pnpm".to_owned())
                } else {
                    Some("npm".to_owned())
                }
            },
            ProjectType::Python => {
                if files.pipfile {
                    Some("pipenv".to_owned())
                } else if files.pyproject_toml {
                    Some("poetry".to_owned())
                } else {
                    Some("pip".to_owned())
                }
            },
            ProjectType::Go => Some("go".to_owned()),
            ProjectType::Java => {
                if files.pom_xml {
                    Some("maven".to_owned())
                } else {
                    Some("gradle".to_owned())
                }
            },
            _ => None,
        }
    }

    /// The context of the project whose root is `project_root` and holds
    /// `files`. No dependencies are listed.
    pub fn detect(project_root: String, files: &ProjectFiles, hints: EnvironmentHints) -> (project:
        Self)
        ensures
            project.project_type == files.project_type(),
            project.project_root == project_root,
            texts(project.config_files@) == files.config_files(),
            project.dependencies@.len() == 0,
            project.virtual_env == hints.virtual_env_for(files.project_type()),
            match project.package_manager {
                Some(name) => files.package_manager(files.project_type()) == Some(name@),
                None => files.package_manager(files.project_type()).is_none(),
            },
    {
        let (project_type, config_files) = Self::detect_project_type(files);
        let virtual_env = Self::detect_virtual_env(hints, project_type);
        let package_manager = Self::detect_package_manager(files, project_type);
        ProjectContext {
            project_type,
            project_root,
            config_files,
            dependencies: Vec::new(),
            virtual_env,
            package_manager,
        }
    }
}

/// The shell that commands run under.
#[derive(Debug, PartialEq, Eq)]
pub struct ShellInfo {
    pub name: String,
    pub path: String,
    pub version: Option<String>,
}

impl ShellInfo {
    /// Whether a shell of this name is asked for its version: zsh, bash
    /// and fish are.
    pub open spec fn tells_version(name: Seq<char>) -> bool {
        name == "zsh"@ || name == "bash"@ || name == "fish"@
    }

    /// Whether a shell of this name is asked for its version.
    pub fn reports_version(name: &String) -> (asked: bool)
        ensures
            asked == Self::tells_version(name@),
    {
        *name == "zsh".to_owned() || *name == "bash".to_owned() || *name == "fish".to_owned()
    }

    /// The shell, from what the caller found: `shell_variable` is the
    /// value of `SHELL`, `file_name` the last component of the shell's
    /// path, `version` what the shell answered when asked for its version.
    /// Without the variable the path is `/bin/sh`; without a file name the
    /// name is `sh`; the version is kept only for a shell that is asked
    /// for one. This never fails.
    pub fn detect(shell_variable: Option<String>, file_name: Option<String>, version: Option<String>) -> (shell:
        Result<Self, TermindError>)
        ensures
            shell.is_ok(),
            shell.unwrap().path@ == text_or(shell_variable, "/bin/sh"@),
            shell.unwrap().name@ == text_or(file_name, "sh"@),
            shell.unwrap().version == (if Self::tells_version(text_or(file_name, "sh"@)) {
                version
            } else {
                None
            }),
    {
        let path = match shell_variable {
            Some(path) => path,
            None => "/bin/sh".to_owned(),
        };
        let name = match file_name {
            Some(name) => name,
            None => "sh".to_owned(),
        };
        let version = if Self::reports_version(&name) {
            version
        } else {
            None
        };
        Ok(ShellInfo { name, path, version })
    }
}

/// How a repository stands against its last commit and its remote.
#[derive(Debug, Clone, Copy, PartialEq, Eq, Structural)]
pub struct GitStatus {
    pub clean: bool,
    pub ahead: i32,
    pub behind: i32,
    pub untracked: i32,
    pub modified: i32,
    pub staged: i32,
}

/// What is known of the repository around a command.
#[derive(Debug, PartialEq, Eq)]
pub struct GitContext {
    pub repository_root: String,
    pub current_branch: String,
    pub head_commit: String,
    pub status: GitStatus,
    pub remote_origin: Option<String>,
    pub uncommitted_changes: bool,
    pub staged_files: Vec<String>,
    pub modified_files: Vec<String>,
}

impl GitContext {
    /// The status of a repository of which nothing was counted: clean,
    /// with every count at 0.
    pub open spec fn uncounted() -> GitStatus {
        GitStatus { clean: true, ahead: 0, behind: 0, untracked: 0, modified: 0, staged: 0 }
    }

    /// The index of the repository's root among the directories from the
    /// starting one upwards: the first that holds a repository.
    /// `marked[i]` says whether the directory `i` levels up holds one.
    /// Fails with a configuration error when none does.
    pub fn find_git_root(marked: &Vec<bool>) -> (root: Result<usize, TermindError>)
        ensures
            match root {
                Ok(index) => index == first_marked(marked@, 0) && index < marked@.len(),
                Err(TermindError::Configuration(reason)) => first_marked(marked@, 0)
                    == marked@.len() && reason@ == "Not in a git repository"@,
                Err(_) => false,
            },
    {
        match find_marked(marked) {
            Some(index) => Ok(index),
            None => Err(TermindError::Configuration("Not in a git repository".to_owned())),
        }
    }

    /// The status of a repository: nothing is counted.
    pub fn parse_git_status() -> (status: GitStatus)
        ensures
            status == Self::uncounted(),
    {
        GitStatus { clean: true, ahead: 0, behind: 0, untracked: 0, modified: 0, staged: 0 }
    }

    /// The context of the repository at `repository_root`, from what the
    /// caller found. A branch or commit that could not be told is
    /// `unknown`. Changes are uncommitted when a file is staged or
    /// modified.
    pub fn capture(
        repository_root: String,
        current_branch: Option<String>,
        head_commit: Option<String>,
        remote_origin: Option<String>,
        staged_files: Vec<String>,
        modified_files: Vec<String>,
    ) -> (git: Self)
        ensures
            git.repository_root == repository_root,
            git.current_branch@ == text_or(current_branch, "unknown"@),
            git.head_commit@ == text_or(head_commit, "unknown"@),
            git.status == Self::uncounted(),
            git.remote_origin == remote_origin,
            git.uncommitted_changes == (staged_files@.len() > 0 || modified_files@.len() > 0),
            git.staged_files == staged_files,
            git.modified_files == modified_files,
    {
        let current_branch = match current_branch {
            Some(branch) => branch,
            None => "unknown".to_owned(),
        };
        let head_commit = match head_commit {
            Some(commit) => commit,
            None => "unknown".to_owned(),
        };
        let uncommitted_changes = staged_files.len() > 0 || modified_files.len() > 0;
        GitContext {
            repository_root,
            current_branch,
            head_commit,
            status: Self::parse_git_status(),
            remote_origin,
            uncommitted_changes,
            staged_files,
            modified_files,
        }
    }
}

/// What is known of the machine.
#[derive(Debug, PartialEq, Eq)]
pub struct SystemContext {
    pub platform: String,
    pub hostname: String,
    pub username: String,
    pub process_id: u32,
    pub parent_process_id: Option<u32>,
    pub cpu_count: usize,
    pub memory_total: Option<u64>,
}

impl SystemContext {
    /// The context of the machine, from what the caller found. The user
    /// is the value of `USER`, or that of `USERNAME`, or `unknown`. The
    /// parent process and the memory are not told.
    pub fn capture(
        platform: String,
        hostname: String,
        user: Option<String>,
        username: Option<String>,
        process_id: u32,
        cpu_count: usize,
    ) -> (system: Self)
        ensures
            system.platform == platform,
            system.hostname == hostname,
            system.username@ == (match user {
                Some(name) => name@,
                None => text_or(username, "unknown"@),
            }),
            system.process_id == process_id,
            system.parent_process_id.is_none(),
            system.cpu_count == cpu_count,
            system.memory_total.is_none(),
    {
        let name = match user {
            Some(name) => name,
            None => match username {
                Some(name) => name,
                None => "unknown".to_owned(),
            },
        };
        SystemContext {
            platform,
            hostname,
            username: name,
            process_id,
            parent_process_id: None,
            cpu_count,
            memory_total: None,
        }
    }
}

/// The kind of an entry of a directory.
#[derive(Debug, Clone, Copy, PartialEq, Eq, Structural)]
pub enum FileType {
    File,
    Directory,
    Symlink,
    Other,
}

/// An entry of a directory.
#[derive(Debug, PartialEq, Eq)]
pub struct FileInfo {
    pub name: String,
    pub file_type: FileType,
    pub size: Option<u64>,
    /// When the entry was last modified, in seconds since the epoch.
    pub modified: Option<i64>,
}

/// What the file system tells of an entry.
#[derive(Debug, Clone, Copy, PartialEq, Eq, Structural)]
pub struct EntryFacts {
    pub is_dir: bool,
    pub is_symlink: bool,
    pub is_file: bool,
    pub len: u64,
}

/// How many entries of a directory are listed at most.
pub const LISTED_FILES: usize = 50;

impl FileInfo {
    /// The kind of an entry: a directory, else a symbolic link, else a
    /// file. An entry of which nothing is known is a file.
    pub open spec fn kind_of(facts: Option<EntryFacts>) -> FileType {
        match facts {
            Some(f) => if f.is_dir {
                FileType::Directory
            } else if f.is_symlink {
                FileType::Symlink
            } else {
                FileType::File
            },
            None => FileType::File,
        }
    }

    /// The size of an entry: its length if it is a regular file.
    pub open spec fn size_of(facts: Option<EntryFacts>) -> Option<u64> {
        match facts {
            Some(f) => if f.is_file {
                Some(f.len)
            } else {
                None
            },
            None => None,
        }
    }

    /// The entry called `name`, from what the file system tells of it.
    pub fn new(name: String, facts: Option<EntryFacts>, modified: Option<i64>) -> (info: Self)
        ensures
            info == (FileInfo {
                name,
                file_type: Self::kind_of(facts),
                size: Self::size_of(facts),
                modified,
            }),
    {
        let file_type = match facts {
            Some(f) => {
                if f.is_dir {
                    FileType::Directory
                } else if f.is_symlink {
                    FileType::Symlink
                } else {
                    FileType::File
                }
            },
            None => FileType::File,
        };
        let size = match facts {
            Some(f) => {
                if f.is_file {
                    Some(f.len)
                } else {
                    None
                }
            },
            None => None,
        };
        FileInfo { name, file_type, size, modified }
    }
}

/// How full a disk is.
#[derive(Debug, Clone, Copy, PartialEq, Eq, Structural)]
pub struct DiskUsage {
    pub total: u64,
    pub used: u64,
    pub available: u64,
}

/// What may be done with a directory.
#[derive(Debug, Clone, Copy, PartialEq, Eq, Structural)]
pub struct FilePermissions {
    pub readable: bool,
    pub writable: bool,
    pub executable: bool,
}

impl ProjectType {
    /// The sign that stands for the kind of project in a summary.
    pub open spec fn sign(self) -> Seq<char> {
        match self {
            ProjectType::Rust => "🦀"@,
            ProjectType::Node => "📦"@,
            ProjectType::Python => "🐍"@,
            ProjectType::Go => "🐹"@,
            ProjectType::Java => "☕"@,
            ProjectType::Docker => "🐳"@,
            ProjectType::Unknown => "❓"@,
        }
    }

    /// The sign that stands for the kind of project in a summary.
    pub fn icon(&self) -> (icon: &'static str)
        ensures
            icon@ == self.sign(),
    {
        match self {
            ProjectType::Rust => "🦀",
            ProjectType::Node => "📦",
            ProjectType::Python => "🐍",
            ProjectType::Go => "🐹",
            ProjectType::Java => "☕",
            ProjectType::Docker => "🐳",
            ProjectType::Unknown => "❓",
        }
    }
}

/// What is known of the environment of a command.
#[derive(Debug, PartialEq, Eq)]
pub struct EnvironmentContext {
    pub working_directory: String,
    pub home_directory: Option<String>,
    pub shell: ShellInfo,
    /// The variables of note that are set, each with its value.
    pub key_variables: Vec<(String, String)>,
    pub path_entries: Vec<String>,
}

/// What is known of the working directory.
#[derive(Debug, PartialEq, Eq)]
pub struct FileSystemContext {
    pub current_files: Vec<FileInfo>,
    pub disk_usage: Option<DiskUsage>,
    pub permissions: FilePermissions,
}

/// All that was captured of the context of a command.
#[derive(Debug, PartialEq, Eq)]
pub struct ExecutionContext {
    pub environment: EnvironmentContext,
    pub project: Option<ProjectContext>,
    pub git: Option<GitContext>,
    pub system: SystemContext,
    pub filesystem: FileSystemContext,
    /// When the context was captured, in milliseconds since the epoch.
    pub captured_at_ms: i64,
}

/// The parts of a summary: the name of the working directory after a
/// folder sign, if it has a name; the branch after a branch sign and a
/// sign for uncommitted changes, if there is a repository; the sign of
/// the kind of project, if there is a project.
pub open spec fn summary_parts(
    directory_name: Option<String>,
    git: Option<GitContext>,
    project: Option<ProjectContext>,
) -> Seq<Seq<char>> {
    (match directory_name {
        Some(name) => seq!["📁 "@ + name@],
        None => Seq::empty(),
    }) + (match git {
        Some(git) => seq!["🌿 "@ + git.current_branch@] + listed(git.uncommitted_changes, "🔄"@),
        None => Seq::empty(),
    }) + (match project {
        Some(project) => seq![project.project_type.sign()],
        None => Seq::empty(),
    })
}

impl ExecutionContext {
    /// The parts of a one-line summary of the context, in order; the
    /// caller joins them with spaces. `directory_name` is the last
    /// component of the working directory, if it has one.
    pub fn summary(&self, directory_name: Option<String>) -> (parts: Vec<String>)
        ensures
            texts(parts@) == summary_parts(directory_name, self.git, self.project),
    {
        let mut parts: Vec<String> = Vec::new();
        assert(texts(parts@) =~= Seq::<Seq<char>>::empty());
        let ghost mut shown: Seq<Seq<char>> = Seq::empty();
        match &directory_name {
            Some(name) => {
                let mut part = "📁 ".to_owned();
                append(&mut part, name.as_str());
                parts.push(part);
                proof {
                    shown = seq!["📁 "@ + name@];
                }
            },
            None => {},
        }
        assert(texts(parts@) =~= shown);
        match &self.git {
            Some(git) => {
                let mut part = "🌿 ".to_owned();
                append(&mut part, git.current_branch.as_str());
                parts.push(part);
                note(&mut parts, git.uncommitted_changes, "🔄");
                proof {
                    shown = shown + (seq!["🌿 "@ + git.current_branch@] + listed(
                        git.uncommitted_changes,
                        "🔄"@,
                    ));
                }
            },
            None => {
                proof {
                    shown = shown + Seq::<Seq<char>>::empty();
                }
            },
        }
        assert(texts(parts@) =~= shown);
        match &self.project {
            Some(project) => {
                note(&mut parts, true, project.project_type.icon());
            },
            None => {},
        }
        assert(texts(parts@) =~= summary_parts(directory_name, self.git, self.project));
        parts
    }
}

} // verus!
