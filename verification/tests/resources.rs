use std::collections::HashSet;
use std::path::Path;

use limux::resources::{
    first_resources_dir, ghostty_resources_candidates, is_ghostty_resources_dir,
    resources_dir_probe, resources_search,
};

/// A file tree held in memory: the directories and the files that exist.
struct FakeTree {
    dirs: HashSet<String>,
    files: HashSet<String>,
}

impl FakeTree {
    fn new() -> Self {
        FakeTree { dirs: HashSet::new(), files: HashSet::new() }
    }

    fn create_dir_all(&mut self, path: &str) {
        for a in Path::new(path).ancestors() {
            self.dirs.insert(a.to_string_lossy().into_owned());
        }
    }

    fn write(&mut self, path: &str) {
        let parent = Path::new(path).parent().unwrap().to_string_lossy().into_owned();
        self.create_dir_all(&parent);
        self.files.insert(path.to_string());
    }

    fn is_resources_dir(&self, path: &str) -> bool {
        let probe = resources_dir_probe(path);
        let dir_checks: Vec<bool> = probe.dirs.iter().map(|d| self.dirs.contains(d)).collect();
        let terminfo_checks: Vec<bool> =
            probe.terminfo_files.iter().map(|f| self.files.contains(f)).collect();
        is_ghostty_resources_dir(&dir_checks, &terminfo_checks)
    }

    fn resolve(&self, exe: &str) -> Option<String> {
        let candidates = resources_search(exe)?;
        let verdicts: Vec<bool> = candidates.iter().map(|c| self.is_resources_dir(c)).collect();
        first_resources_dir(&candidates, &verdicts)
    }
}

fn join(base: &str, rest: &str) -> String {
    Path::new(base).join(rest).to_string_lossy().into_owned()
}

#[test]
fn resolves_app_specific_bundled_resources_next_to_executable() {
    let root = "/tmp/limux-resources-1";
    let mut tree = FakeTree::new();
    tree.create_dir_all(&join(root, "bin"));
    tree.create_dir_all(&join(root, "share/limux/ghostty/themes"));
    tree.create_dir_all(&join(root, "share/limux/ghostty/shell-integration"));
    tree.write(&join(root, "share/limux/terminfo/g/ghostty"));

    let exe = join(&join(root, "bin"), "limux");
    let resolved = tree.resolve(&exe).unwrap();
    assert_eq!(resolved, join(root, "share/limux/ghostty"));
}

#[test]
fn resolves_dev_checkout_resources_from_target_binary() {
    let root = "/tmp/limux-dev-resources-1";
    let mut tree = FakeTree::new();
    tree.create_dir_all(&join(root, "target/release"));
    tree.create_dir_all(&join(root, "ghostty/zig-out/share/ghostty/themes"));
    tree.create_dir_all(&join(root, "ghostty/zig-out/share/ghostty/shell-integration"));
    tree.write(&join(root, "ghostty/zig-out/share/terminfo/x/xterm-ghostty"));

    let exe = join(&join(root, "target/release"), "limux");
    let resolved = tree.resolve(&exe).unwrap();
    assert_eq!(resolved, join(root, "ghostty/zig-out/share/ghostty"));
}

#[test]
fn rejects_resource_dirs_without_sibling_terminfo() {
    let root = "/tmp/limux-missing-terminfo-1";
    let resources_dir = join(root, "ghostty/zig-out/share/ghostty");
    let mut tree = FakeTree::new();
    tree.create_dir_all(&join(&resources_dir, "themes"));
    tree.create_dir_all(&join(&resources_dir, "shell-integration"));

    assert!(!tree.is_resources_dir(&resources_dir));
}

#[test]
fn candidates_walk_every_ancestor_then_system_dirs() {
    let c = ghostty_resources_candidates("/opt/app/bin");
    let expected: Vec<&str> = vec![
        "/opt/app/bin/share/limux/ghostty",
        "/opt/app/bin/share/ghostty",
        "/opt/app/bin/ghostty/zig-out/share/ghostty",
        "/opt/app/share/limux/ghostty",
        "/opt/app/share/ghostty",
        "/opt/app/ghostty/zig-out/share/ghostty",
        "/opt/share/limux/ghostty",
        "/opt/share/ghostty",
        "/opt/ghostty/zig-out/share/ghostty",
        "/share/limux/ghostty",
        "/share/ghostty",
        "/ghostty/zig-out/share/ghostty",
        "/usr/local/share/ghostty",
        "/usr/share/ghostty",
    ];
    assert_eq!(c, expected);
}

#[test]
fn relative_dir_candidates_end_at_the_empty_parent() {
    let c = ghostty_resources_candidates("bin");
    let expected: Vec<&str> = vec![
        "bin/share/limux/ghostty",
        "bin/share/ghostty",
        "bin/ghostty/zig-out/share/ghostty",
        "share/limux/ghostty",
        "share/ghostty",
        "ghostty/zig-out/share/ghostty",
        "/usr/local/share/ghostty",
        "/usr/share/ghostty",
    ];
    assert_eq!(c, expected);
}

#[test]
fn search_needs_a_parent() {
    assert!(resources_search("/").is_none());
    assert!(resources_search("").is_none());
    let c = resources_search("/usr/bin/limux").unwrap();
    assert_eq!(c[0], "/usr/bin/share/limux/ghostty");
}

#[test]
fn probe_lists_subdirs_and_sibling_terminfo() {
    let p = resources_dir_probe("/a/share/ghostty");
    assert_eq!(p.dirs, vec!["/a/share/ghostty", "/a/share/ghostty/themes", "/a/share/ghostty/shell-integration"]);
    assert_eq!(
        p.terminfo_files,
        vec!["/a/share/terminfo/g/ghostty", "/a/share/terminfo/x/xterm-ghostty"]
    );
    let root = resources_dir_probe("/");
    assert!(root.terminfo_files.is_empty());
}

#[test]
fn verdict_needs_all_dirs_and_one_terminfo() {
    assert!(is_ghostty_resources_dir(&vec![true, true, true], &vec![false, true]));
    assert!(!is_ghostty_resources_dir(&vec![true, false, true], &vec![true, true]));
    assert!(!is_ghostty_resources_dir(&vec![true, true, true], &vec![false, false]));
    assert!(!is_ghostty_resources_dir(&vec![true, true, true], &vec![]));
}

#[test]
fn first_true_verdict_wins() {
    let c = vec!["x".to_string(), "y".to_string(), "z".to_string()];
    assert_eq!(first_resources_dir(&c, &vec![false, true, true]), Some("y".to_string()));
    assert_eq!(first_resources_dir(&c, &vec![false, false, false]), None);
}
