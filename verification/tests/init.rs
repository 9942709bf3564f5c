use std::hash::{Hash, Hasher};
use slashmem::db::init::{
    base_dir, db_path, global_root, join_path, project_dir, project_hash, project_info,
    git_root_step, project_listing, repo_root_of_gitdir, ProjectEntry, resolve_gitdir, worktree_gitdir, GitRootStep,
};

#[test]
fn base_dir_defaults_to_home() {
    let dir = base_dir(None, Some("/home/u"), None, None).unwrap();
    assert!(std::path::Path::new(&dir).starts_with("/home/u/.slashmem"));
    assert_eq!(dir, "/home/u/.slashmem");
    let in_repo = base_dir(None, Some("/home/u"), None, Some("/src/repo")).unwrap();
    assert!(std::path::Path::new(&in_repo).starts_with("/home/u/.slashmem"));
}

#[test]
fn base_dir_respects_env_override() {
    let dir = base_dir(Some("/tmp/xyz"), Some("/home/u"), Some("proj"), Some("/src/repo"));
    assert_eq!(dir.as_deref(), Some("/tmp/xyz"));
}

#[test]
fn db_path_under_base_dir() {
    assert_eq!(db_path("/tmp/xyz"), "/tmp/xyz/mem.db");
    assert_eq!(
        std::path::PathBuf::from(db_path("/tmp/xyz")),
        std::path::Path::new("/tmp/xyz").join("mem.db")
    );
}

#[test]
fn project_hash_is_deterministic() {
    let h1 = project_hash("/tmp/my-project");
    let h2 = project_hash("/tmp/my-project");
    assert_eq!(h1, h2);
    assert_eq!(h1.len(), 16);
}

#[test]
fn project_hash_differs_for_different_paths() {
    let h1 = project_hash("/tmp/project-a");
    let h2 = project_hash("/tmp/project-b");
    assert_ne!(h1, h2);
}

#[test]
fn project_hash_matches_path_hashing() {
    let mut hasher = std::collections::hash_map::DefaultHasher::new();
    std::path::Path::new("/tmp/my-project").hash(&mut hasher);
    assert_eq!(project_hash("/tmp/my-project"), format!("{:016x}", hasher.finish()));
}

#[test]
fn base_dir_precedence() {
    assert_eq!(base_dir(None, Some("/h"), Some("proj"), Some("/r")).as_deref(), Some("/h/.slashmem/projects/proj"));
    let hash = project_hash("/r");
    assert_eq!(base_dir(None, Some("/h"), None, Some("/r")), Some(format!("/h/.slashmem/projects/{hash}")));
    assert_eq!(base_dir(None, None, Some("proj"), None), None);
}

#[test]
fn joins_follow_path_rules() {
    for (base, name) in [("/a", "b"), ("/a/", "b"), ("", "b"), ("/a", "/abs"), ("a", "")] {
        let expected = std::path::Path::new(base).join(name);
        assert_eq!(std::path::PathBuf::from(join_path(base, name)), expected);
        assert_eq!(join_path(base, name), expected.to_str().unwrap());
    }
    assert_eq!(global_root(None, Some("/home/u")).as_deref(), Some("/home/u/.slashmem"));
    assert_eq!(global_root(Some("/x"), None).as_deref(), Some("/x"));
    assert_eq!(global_root(None, None), None);
    assert_eq!(project_dir("/root", "p"), "/root/projects/p");
}

#[test]
fn worktree_file_resolution() {
    assert_eq!(
        worktree_gitdir("gitdir: /main/.git/worktrees/wt\n", "/wt/.git").as_deref(),
        Some("/main/.git/worktrees/wt")
    );
    assert_eq!(
        worktree_gitdir("gitdir: ../main/.git/worktrees/wt\n", "/work/wt/.git").as_deref(),
        Some("/work/wt/../main/.git/worktrees/wt")
    );
    assert_eq!(worktree_gitdir("not a pointer", "/wt/.git"), None);
    assert_eq!(repo_root_of_gitdir("/main/.git/worktrees/wt").as_deref(), Some("/main"));
    assert_eq!(repo_root_of_gitdir("/main/.git").as_deref(), Some("/main"));
    assert_eq!(repo_root_of_gitdir("/main/other/dir"), None);
}

#[test]
fn project_info_fields() {
    let info = project_info("/h/.slashmem/projects/abc", "abc".to_string(), "/src/repo".to_string());
    assert_eq!(info.name, "abc");
    assert_eq!(info.path, "/src/repo");
    assert_eq!(info.db_path, "/h/.slashmem/projects/abc/mem.db");
}

#[test]
fn resolve_gitdir_absolute_and_relative() {
    assert_eq!(resolve_gitdir("/main/.git/worktrees/wt", "/wt/.git").as_deref(), Some("/main/.git/worktrees/wt"));
    assert_eq!(
        resolve_gitdir("../main/.git/worktrees/wt", "/work/wt/.git").as_deref(),
        Some("/work/wt/../main/.git/worktrees/wt")
    );
    assert_eq!(resolve_gitdir("x", "/"), None);
}

#[test]
fn git_root_step_decisions() {
    assert_eq!(git_root_step("/repo", true, false, None), GitRootStep::Found("/repo".to_string()));
    assert_eq!(
        git_root_step("/wt", true, true, Some("/main".to_string())),
        GitRootStep::Found("/main".to_string())
    );
    assert_eq!(git_root_step("/wt", true, true, None), GitRootStep::Found("/wt".to_string()));
    assert_eq!(git_root_step("/a/b", false, false, None), GitRootStep::Up("/a".to_string()));
    assert_eq!(git_root_step("/", false, false, None), GitRootStep::NotFound);
}

#[test]
fn project_listing_keeps_directories_in_order() {
    let entries = vec![
        ProjectEntry { dir: "/r/projects/a".to_string(), is_dir: true, name: Some("a".to_string()), meta: Some("/src/a".to_string()) },
        ProjectEntry { dir: "/r/projects/notes.txt".to_string(), is_dir: false, name: Some("notes.txt".to_string()), meta: None },
        ProjectEntry { dir: "/r/projects/b".to_string(), is_dir: true, name: Some("b".to_string()), meta: None },
    ];
    let ps = project_listing(&entries);
    assert_eq!(ps.len(), 2);
    assert_eq!((ps[0].name.as_str(), ps[0].path.as_str(), ps[0].db_path.as_str()), ("a", "/src/a", "/r/projects/a/mem.db"));
    assert_eq!((ps[1].name.as_str(), ps[1].path.as_str(), ps[1].db_path.as_str()), ("b", "", "/r/projects/b/mem.db"));
    assert!(project_listing(&Vec::new()).is_empty());
}
