use std::path::{Path, PathBuf};

use mount_sidecar::coordination::{
    coordination_paths, MountGuard, LOCK_FILENAME, OVERLAY_DIRNAME, PID_FILENAME,
};
use mount_sidecar::path::{base_name, display_text, join_paths, parent_dir};

fn text(bytes: Vec<u8>) -> String {
    String::from_utf8(bytes).unwrap()
}

#[test]
fn test_coordination_paths() {
    let mount_point = "/tmp/envs/default";
    let (lock_path, pid_path) = coordination_paths(mount_point.as_bytes());
    assert_eq!(
        PathBuf::from(text(lock_path)),
        PathBuf::from("/tmp/envs/default.rattler-fs.lock")
    );
    assert_eq!(
        PathBuf::from(text(pid_path)),
        PathBuf::from("/tmp/envs/default.rattler-fs.pid")
    );
}

#[test]
fn test_overlay_dir() {
    let env_dir = "/tmp/test-env";
    assert_eq!(
        PathBuf::from(text(MountGuard::overlay_dir(env_dir.as_bytes()))),
        PathBuf::from("/tmp/test-env.rattler-fs-overlay")
    );
}

const SAMPLES: [&str; 44] = [
    "",
    "/",
    "//",
    "///",
    ".",
    "./",
    "./.",
    "././.",
    "..",
    "../",
    "../..",
    "./..",
    "/.",
    "/./",
    "/..",
    "a",
    "a/",
    "a//",
    "a/.",
    "a/./",
    "a/./.",
    "a/..",
    "a/../",
    "./a",
    ".//a",
    "././a",
    "/a",
    "//a",
    "/./a",
    "/a/",
    "/a/.",
    "a/b",
    "a//b",
    "a/./b",
    "a/.//./b/.//",
    "/a/b/c",
    "/tmp//envs/./default/",
    ".hidden",
    ".hidden/x",
    "a/.hidden",
    "...",
    "a/...",
    "C:/envs/default",
    "/umwelt/überall/größe",
];

#[test]
fn parents_are_those_of_the_standard_library() {
    for sample in SAMPLES {
        let expected = Path::new(sample).parent().map(|p| p.to_str().unwrap().to_string());
        assert_eq!(parent_dir(sample.as_bytes()).map(text), expected, "parent of {sample:?}");
    }
}

#[test]
fn file_names_are_those_of_the_standard_library() {
    for sample in SAMPLES {
        let expected = Path::new(sample).file_name().map(|p| p.to_str().unwrap().to_string());
        assert_eq!(base_name(sample.as_bytes()).map(text), expected, "file name of {sample:?}");
    }
}

#[test]
fn joined_paths_are_those_of_the_standard_library() {
    for dir in SAMPLES {
        for name in ["", "x", ".x", "x/y", "/x", "."] {
            let expected = Path::new(dir).join(name).to_str().unwrap().to_string();
            let joined = text(join_paths(dir.as_bytes(), name.as_bytes()));
            assert_eq!(joined, expected, "{dir:?} joined with {name:?}");
        }
    }
}

#[test]
fn short_paths_of_all_kinds_agree_with_the_standard_library() {
    let alphabet = ['/', '.', 'a'];
    let mut pending = vec![String::new()];
    while let Some(sample) = pending.pop() {
        let path = Path::new(&sample);
        let parent = path.parent().map(|p| p.to_str().unwrap().to_string());
        let name = path.file_name().map(|p| p.to_str().unwrap().to_string());
        assert_eq!(parent_dir(sample.as_bytes()).map(text), parent, "parent of {sample:?}");
        assert_eq!(base_name(sample.as_bytes()).map(text), name, "file name of {sample:?}");
        if sample.len() < 7 {
            for c in alphabet {
                pending.push(format!("{sample}{c}"));
            }
        }
    }
}

#[test]
fn files_stand_beside_the_mount_point() {
    for (mount_point, lock) in [
        ("default", "default.rattler-fs.lock"),
        ("./default", "./default.rattler-fs.lock"),
        ("/default", "/default.rattler-fs.lock"),
        ("/tmp//envs/./default/", "/tmp//envs/default.rattler-fs.lock"),
        ("/tmp/envs/.d", "/tmp/envs/.d.rattler-fs.lock"),
        ("/größe/ä", "/größe/ä.rattler-fs.lock"),
    ] {
        let (lock_path, pid_path) = coordination_paths(mount_point.as_bytes());
        assert_eq!(text(lock_path), lock);
        let pid = lock.replace(".lock", ".pid");
        assert_eq!(text(pid_path), pid);
    }
}

#[test]
fn a_name_that_is_not_utf8_is_replaced_in_the_file_names_alone() {
    let (lock_path, pid_path) = coordination_paths(b"/t\xffmp/en\xfev");
    assert_eq!(lock_path, b"/t\xffmp/en\xef\xbf\xbdv.rattler-fs.lock".to_vec());
    assert_eq!(pid_path, b"/t\xffmp/en\xef\xbf\xbdv.rattler-fs.pid".to_vec());
    let overlay = MountGuard::overlay_dir(b"/t\xffmp/en\xfev");
    assert_eq!(overlay, b"/t\xffmp/en\xef\xbf\xbdv.rattler-fs-overlay".to_vec());
}

#[test]
fn names_that_are_not_utf8_may_share_their_files() {
    assert_eq!(coordination_paths(b"/a/\xff"), coordination_paths(b"/a/\xfe"));
    assert_ne!(coordination_paths(b"/a/x"), coordination_paths(b"/a/y"));
}

#[test]
fn endings_differ() {
    assert_eq!(LOCK_FILENAME, ".rattler-fs.lock");
    assert_eq!(PID_FILENAME, ".rattler-fs.pid");
    assert_eq!(OVERLAY_DIRNAME, ".rattler-fs-overlay");
    let (lock_path, pid_path) = coordination_paths(b"/a/b");
    let overlay = MountGuard::overlay_dir(b"/a/b");
    assert_ne!(lock_path, pid_path);
    assert_ne!(lock_path, overlay);
    assert_ne!(pid_path, overlay);
}

#[test]
fn parent_and_name_put_together_have_the_same_components() {
    for sample in SAMPLES {
        let parts = (parent_dir(sample.as_bytes()), base_name(sample.as_bytes()));
        if let (Some(dir), Some(name)) = parts {
            let again = text(join_paths(&dir, &name));
            assert_eq!(Path::new(&again), Path::new(sample));
            assert_eq!(parent_dir(again.as_bytes()), Some(dir));
            assert_eq!(base_name(again.as_bytes()), Some(name));
        }
    }
}

#[test]
fn text_of_paths() {
    assert_eq!(display_text(b"/tmp/x"), "/tmp/x");
    assert_eq!(display_text(b""), "");
    assert_eq!(display_text(b"a\xffb"), "a\u{fffd}b");
    assert_eq!(display_text(b"\xe2\x82"), "\u{fffd}");
}
