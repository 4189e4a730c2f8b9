use repo_clone::backend::{DryRunRepoCommands, RepoAction, RepoCommands};
use repo_clone::cloner::{dry_run, RepoCloner, RunError};
use repo_clone::location::ParseError;
use std::path::PathBuf;

struct MockRepoCommands {
    pub cloned_repos: Vec<(String, PathBuf)>,
    pub navigated_paths: Vec<PathBuf>,
    pub success: bool,
    pub created_paths: Vec<PathBuf>,
    pub fail_create: bool,
    pub fail_clone: bool,
}

impl RepoCommands for MockRepoCommands {
    fn git_clone(&mut self, url: &str, clone_path: &str) -> Result<(), String> {
        self.cloned_repos.push((url.to_string(), PathBuf::from(clone_path)));
        if self.fail_clone {
            Err("exit status 128".to_string())
        } else {
            Ok(())
        }
    }

    fn cd_destination(&mut self, clone_path: &str) {
        self.navigated_paths.push(PathBuf::from(clone_path));
    }

    fn display_success(&mut self) {
        self.success = true;
    }

    fn create_dir_all(&mut self, path: &str) -> Result<(), String> {
        self.created_paths.push(PathBuf::from(path));
        if self.fail_create {
            Err("permission denied".to_string())
        } else {
            Ok(())
        }
    }
}

impl MockRepoCommands {
    pub fn new() -> Self {
        Self {
            cloned_repos: vec![],
            navigated_paths: vec![],
            success: false,
            created_paths: vec![],
            fail_create: false,
            fail_clone: false,
        }
    }
}

#[test]
fn test_clone_repo() {
    let mock_commands = MockRepoCommands::new();
    let mut cloner = RepoCloner::new(mock_commands);
    let _ = cloner.run("https://github.com/author/project.git", "/base/path");

    let cloned_repos = &cloner.commands.cloned_repos;
    assert_eq!(cloned_repos.len(), 1);
    assert_eq!(cloned_repos[0].0, "https://github.com/author/project.git");
    assert_eq!(
        cloned_repos[0].1,
        PathBuf::from("/base/path/github.com/author/project")
    );

    let navigated_paths = &cloner.commands.navigated_paths;
    assert_eq!(navigated_paths.len(), 1);
    assert_eq!(
        navigated_paths[0],
        PathBuf::from("/base/path/github.com/author/project")
    );

    let success = cloner.commands.success;
    assert!(success);
}

#[test]
fn test_clone_libjpeg_turbo() {
    let mock_commands = MockRepoCommands::new();
    let mut cloner = RepoCloner::new(mock_commands);
    let _ = cloner.run(
        "https://github.com/libjpeg-turbo/libjpeg-turbo.git",
        "/base/path",
    );

    let cloned_repos = &cloner.commands.cloned_repos;
    assert_eq!(cloned_repos.len(), 1);
    assert_eq!(
        cloned_repos[0].0,
        "https://github.com/libjpeg-turbo/libjpeg-turbo.git"
    );
    assert_eq!(
        cloned_repos[0].1,
        PathBuf::from("/base/path/github.com/libjpeg-turbo/libjpeg-turbo")
    );

    let navigated_paths = &cloner.commands.navigated_paths;
    assert_eq!(navigated_paths.len(), 1);
    assert_eq!(
        navigated_paths[0],
        PathBuf::from("/base/path/github.com/libjpeg-turbo/libjpeg-turbo")
    );

    let success = cloner.commands.success;
    assert!(success);
}

#[test]
fn test_clone_gitlab() {
    let mock_commands = MockRepoCommands::new();
    let mut cloner = RepoCloner::new(mock_commands);
    let _ = cloner.run(
        "https://gitlab.com/emeraldjayde/gitlab-vscode-extension.git",
        "/base/path",
    );

    let cloned_repos = &cloner.commands.cloned_repos;
    assert_eq!(cloned_repos.len(), 1);
    assert_eq!(
        cloned_repos[0].0,
        "https://gitlab.com/emeraldjayde/gitlab-vscode-extension.git"
    );
    assert_eq!(
        cloned_repos[0].1,
        PathBuf::from("/base/path/gitlab.com/emeraldjayde/gitlab-vscode-extension")
    );

    let navigated_paths = &cloner.commands.navigated_paths;
    assert_eq!(navigated_paths.len(), 1);
    assert_eq!(
        navigated_paths[0],
        PathBuf::from("/base/path/gitlab.com/emeraldjayde/gitlab-vscode-extension")
    );

    let success = cloner.commands.success;
    assert!(success);
}

#[test]
fn run_returns_the_clone_target_as_text() {
    let mut cloner = RepoCloner::new(MockRepoCommands::new());
    let r = cloner.run("https://github.com/author/project.git", "/base/path");
    assert_eq!(r, Ok("/base/path/github.com/author/project".to_string()));
}

#[test]
fn run_ensures_the_owner_directory_before_cloning() {
    let mut cloner = RepoCloner::new(MockRepoCommands::new());
    let r = cloner.run(
        "https://gitlab.com/emeraldjayde/gitlab-vscode-extension.git",
        "/base/path",
    );
    assert!(r.is_ok());
    assert_eq!(cloner.commands.created_paths.len(), 1);
    assert_eq!(
        cloner.commands.created_paths[0].to_str(),
        Some("/base/path/gitlab.com/emeraldjayde")
    );
    assert_eq!(
        cloner.commands.cloned_repos[0].1.to_str(),
        Some("/base/path/gitlab.com/emeraldjayde/gitlab-vscode-extension")
    );
}

#[test]
fn run_without_a_project_segment_calls_nothing() {
    let mut cloner = RepoCloner::new(MockRepoCommands::new());
    let r = cloner.run("https://github.com/author", "/base/path");
    assert_eq!(r, Err(RunError::Parse(ParseError::MissingPathSegment)));
    assert_eq!(cloner.commands.created_paths.len(), 0);
    assert_eq!(cloner.commands.cloned_repos.len(), 0);
    assert_eq!(cloner.commands.navigated_paths.len(), 0);
    assert!(!cloner.commands.success);
}

#[test]
fn run_on_a_text_that_is_no_url_calls_nothing() {
    let mut cloner = RepoCloner::new(MockRepoCommands::new());
    let r = cloner.run("not a url", "/base/path");
    assert_eq!(r, Err(RunError::Parse(ParseError::MalformedUrl)));
    assert_eq!(cloner.commands.created_paths.len(), 0);
    assert_eq!(cloner.commands.cloned_repos.len(), 0);
}

#[test]
fn run_stops_when_the_directory_cannot_be_made() {
    let mut mock = MockRepoCommands::new();
    mock.fail_create = true;
    let mut cloner = RepoCloner::new(mock);
    let r = cloner.run("https://github.com/author/project.git", "/base/path");
    assert_eq!(
        r,
        Err(RunError::DirectoryCreationFailure(
            "permission denied".to_string()
        ))
    );
    assert_eq!(cloner.commands.created_paths.len(), 1);
    assert_eq!(cloner.commands.cloned_repos.len(), 0);
    assert_eq!(cloner.commands.navigated_paths.len(), 0);
    assert!(!cloner.commands.success);
}

#[test]
fn run_stops_when_the_clone_fails() {
    let mut mock = MockRepoCommands::new();
    mock.fail_clone = true;
    let mut cloner = RepoCloner::new(mock);
    let r = cloner.run("https://github.com/author/project.git", "/base/path");
    assert_eq!(
        r,
        Err(RunError::CloneProcessFailure("exit status 128".to_string()))
    );
    assert_eq!(cloner.commands.created_paths.len(), 1);
    assert_eq!(cloner.commands.cloned_repos.len(), 1);
    assert_eq!(cloner.commands.navigated_paths.len(), 0);
    assert!(!cloner.commands.success);
}

#[test]
fn create_directory_structure_joins_base_domain_and_author() {
    let mut cloner = RepoCloner::new(MockRepoCommands::new());
    let r = cloner.create_directory_structure("/base/path", "github.com", "author");
    assert_eq!(r, Ok("/base/path/github.com/author".to_string()));
    assert_eq!(
        cloner.commands.created_paths,
        vec![PathBuf::from("/base/path/github.com/author")]
    );
}

#[test]
fn create_directory_structure_below_the_root() {
    let mut cloner = RepoCloner::new(MockRepoCommands::new());
    let r = cloner.create_directory_structure("/", "github.com", "author");
    assert_eq!(r, Ok("/github.com/author".to_string()));
}

#[test]
fn parse_git_url_gives_the_three_parts() {
    let cloner = RepoCloner::new(MockRepoCommands::new());
    let location = cloner
        .parse_git_url("https://github.com/author/project.git")
        .unwrap();
    assert_eq!(location.host, "github.com");
    assert_eq!(location.owner, "author");
    assert_eq!(location.project, "project");
}

#[test]
fn dry_run_records_the_four_commands() {
    let backend = dry_run("https://github.com/author/project.git", "/base/path").unwrap();
    assert_eq!(
        backend.actions,
        vec![
            RepoAction::CreateDir {
                path: "/base/path/github.com/author".to_string()
            },
            RepoAction::GitClone {
                url: "https://github.com/author/project.git".to_string(),
                path: "/base/path/github.com/author/project".to_string()
            },
            RepoAction::CdDestination {
                path: "/base/path/github.com/author/project".to_string()
            },
            RepoAction::DisplaySuccess,
        ]
    );
}

#[test]
fn dry_run_describes_each_command() {
    let backend = dry_run("https://github.com/author/project.git", "/base/path").unwrap();
    assert_eq!(
        backend.lines(),
        vec![
            "DRY RUN: mkdir -p /base/path/github.com/author".to_string(),
            "DRY RUN: git clone https://github.com/author/project.git /base/path/github.com/author/project"
                .to_string(),
            "DRY RUN: cd /base/path/github.com/author/project".to_string(),
            "DRY RUN: Repository cloned successfully.".to_string(),
        ]
    );
}

#[test]
fn dry_run_rejects_what_does_not_resolve() {
    assert_eq!(
        dry_run("https://github.com/author", "/base/path"),
        Err(ParseError::MissingPathSegment)
    );
    assert_eq!(dry_run("::", "/base/path"), Err(ParseError::MalformedUrl));
}

#[test]
fn dry_run_backend_always_succeeds() {
    let mut backend = DryRunRepoCommands::new();
    assert_eq!(backend.create_dir_all("/nowhere/at/all"), Ok(()));
    assert_eq!(backend.git_clone("https://h/o/p", "/nowhere/at/all/p"), Ok(()));
    backend.cd_destination("/nowhere/at/all/p");
    backend.display_success();
    assert_eq!(backend.actions.len(), 4);
    assert!(!std::path::Path::new("/nowhere/at/all").exists());
}

#[test]
fn live_and_simulated_lines_differ() {
    let done = RepoAction::DisplaySuccess;
    assert_eq!(
        done.live_line(),
        Some("Repository cloned successfully.".to_string())
    );
    assert_eq!(
        done.simulated_line(),
        "DRY RUN: Repository cloned successfully."
    );
    let cd = RepoAction::CdDestination {
        path: "/a/b".to_string(),
    };
    assert_eq!(cd.live_line(), Some("cd /a/b".to_string()));
    assert_eq!(cd.simulated_line(), "DRY RUN: cd /a/b");
    let mk = RepoAction::CreateDir {
        path: "/a".to_string(),
    };
    assert_eq!(mk.live_line(), None);
    assert_eq!(mk.simulated_line(), "DRY RUN: mkdir -p /a");
    let clone = RepoAction::GitClone {
        url: "https://h/o/p".to_string(),
        path: "/a/b".to_string(),
    };
    assert_eq!(clone.live_line(), None);
    assert_eq!(clone.simulated_line(), "DRY RUN: git clone https://h/o/p /a/b");
}
