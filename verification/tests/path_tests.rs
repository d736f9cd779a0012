use desktop_supervisor::commands::validate_subpath;
use desktop_supervisor::path::{
    extension, file_name, file_stem, join_on, join_paths, parent_dir, path_starts_with,
    relative_to, render_path, same_path, split_components, to_host, to_posix,
};
use desktop_supervisor::vm::HostOs;
use desktop_supervisor::text::{chars_of, string_of};

fn components(path: &str) -> Vec<String> {
    split_components(&chars_of(path), false).iter().map(string_of).collect()
}

#[test]
fn components_skip_empty_runs_and_dots() {
    assert_eq!(components("/ws//a/./b/"), vec!["ws", "a", "b"]);
    assert_eq!(components("./a"), vec!["a"]);
    assert_eq!(components(""), Vec::<String>::new());
    assert_eq!(components("/"), Vec::<String>::new());
    assert_eq!(components("a/../b"), vec!["a", "..", "b"]);
    assert_eq!(components("..."), vec!["..."]);
}

#[test]
fn wide_reading_splits_at_backslashes() {
    let wide: Vec<String> =
        split_components(&chars_of("a\\b/c"), true).iter().map(string_of).collect();
    assert_eq!(wide, vec!["a", "b", "c"]);
    assert_eq!(components("a\\b/c"), vec!["a\\b", "c"]);
}

#[test]
fn render_puts_one_separator_between_components() {
    let parts = split_components(&chars_of("x//y/z"), false);
    assert_eq!(string_of(&render_path(false, &parts, 3)), "x/y/z");
    assert_eq!(string_of(&render_path(true, &parts, 2)), "/x/y");
    assert_eq!(string_of(&render_path(true, &parts, 0)), "/");
    assert_eq!(string_of(&render_path(false, &parts, 0)), "");
}

#[test]
fn join_adds_a_separator_where_needed() {
    assert_eq!(join_paths("/ws", "a"), "/ws/a");
    assert_eq!(join_paths("/ws/", "a"), "/ws/a");
    assert_eq!(join_paths("", "a"), "a");
    assert_eq!(join_paths("/ws", ""), "/ws/");
    assert_eq!(join_paths("/ws", "a/b"), "/ws/a/b");
}

#[test]
fn join_with_a_rooted_path_replaces_the_base() {
    assert_eq!(join_paths("/ws", "/etc/passwd"), "/etc/passwd");
}

#[test]
fn file_name_is_the_last_component() {
    assert_eq!(file_name("/src/a", HostOs::Linux), Some("a".to_string()));
    assert_eq!(file_name("/src/a/", HostOs::Linux), Some("a".to_string()));
    assert_eq!(file_name("/src/a/.", HostOs::Linux), Some("a".to_string()));
    assert_eq!(file_name("/src/..", HostOs::Linux), None);
    assert_eq!(file_name("/", HostOs::Linux), None);
    assert_eq!(file_name("", HostOs::Linux), None);
}

#[test]
fn parent_drops_the_last_component() {
    assert_eq!(parent_dir("/ws/a/b.txt", HostOs::Linux), Some("/ws/a".to_string()));
    assert_eq!(parent_dir("/ws", HostOs::Linux), Some("/".to_string()));
    assert_eq!(parent_dir("a", HostOs::Linux), Some("".to_string()));
    assert_eq!(parent_dir("/", HostOs::Linux), None);
    assert_eq!(parent_dir("", HostOs::Linux), None);
}

#[test]
fn starts_with_goes_by_components() {
    assert!(path_starts_with("/ws/a", "/ws", HostOs::Linux));
    assert!(path_starts_with("/ws", "/ws", HostOs::Linux));
    assert!(path_starts_with("/ws//a/", "/ws/", HostOs::Linux));
    assert!(!path_starts_with("/wsx/a", "/ws", HostOs::Linux));
    assert!(!path_starts_with("/tmp/out", "/ws", HostOs::Linux));
    assert!(!path_starts_with("ws/a", "/ws", HostOs::Linux));
    assert!(!path_starts_with("/", "/ws", HostOs::Linux));
}

#[test]
fn same_path_ignores_how_it_is_written() {
    assert!(same_path("/src/a", "/src//a/", HostOs::Linux));
    assert!(!same_path("/src/a", "/src/a/b", HostOs::Linux));
    assert!(!same_path("/src/a", "src/a", HostOs::Linux));
}

#[test]
fn relative_to_gives_the_rest() {
    assert_eq!(relative_to("/src/a/y/z", "/src/a", HostOs::Linux), Some("y/z".to_string()));
    assert_eq!(relative_to("/src/a", "/src/a", HostOs::Linux), Some("".to_string()));
    assert_eq!(relative_to("/other/x", "/src/a", HostOs::Linux), None);
}

#[test]
fn extension_follows_the_last_dot() {
    assert_eq!(extension("/vm/sandbox.img.gz", HostOs::Linux), Some("gz".to_string()));
    assert_eq!(extension("/vm/sandbox.qcow2", HostOs::Linux), Some("qcow2".to_string()));
    assert_eq!(extension("/vm/vmlinuz", HostOs::Linux), None);
    assert_eq!(extension("/vm/.hidden", HostOs::Linux), None);
    assert_eq!(extension("/vm/name.", HostOs::Linux), Some("".to_string()));
    assert_eq!(extension("/vm/..", HostOs::Linux), None);
}

#[test]
fn file_stem_drops_the_extension() {
    assert_eq!(file_stem("/vm/sandbox-rootfs.tar.gz", HostOs::Linux), Some("sandbox-rootfs.tar".to_string()));
    assert_eq!(file_stem("/vm/vmlinuz", HostOs::Linux), Some("vmlinuz".to_string()));
    assert_eq!(file_stem("/vm/.hidden", HostOs::Linux), Some(".hidden".to_string()));
    assert_eq!(file_stem("/", HostOs::Linux), None);
}

#[test]
fn subpath_is_returned_in_normal_form() {
    assert_eq!(validate_subpath("projects/demo"), Ok("projects/demo".to_string()));
    assert_eq!(validate_subpath("a//b/./c/"), Ok("a/b/c".to_string()));
    assert_eq!(validate_subpath(""), Ok("".to_string()));
    assert_eq!(validate_subpath("./a"), Ok("a".to_string()));
    assert_eq!(validate_subpath("a..b/..c"), Ok("a..b/..c".to_string()));
}

#[test]
fn subpath_with_parent_component_is_refused() {
    assert_eq!(
        validate_subpath("../escape"),
        Err("Destination subpath must not contain '..': ../escape".to_string())
    );
    assert!(validate_subpath("a/../b").is_err());
    assert!(validate_subpath("a/..").is_err());
    assert!(validate_subpath("..").is_err());
    assert!(validate_subpath("a\\..\\b").is_err());
}

#[test]
fn absolute_subpath_is_refused() {
    assert_eq!(
        validate_subpath("/etc"),
        Err("Destination subpath must be relative, got absolute: /etc".to_string())
    );
    assert!(validate_subpath("\\\\server\\share").is_err());
    assert_eq!(
        validate_subpath("C:\\Users"),
        Err("Destination subpath must be relative, got absolute: C:\\Users".to_string())
    );
    assert!(validate_subpath("c:/x").is_err());
}

#[test]
fn subpath_with_drive_prefix_is_refused() {
    assert_eq!(
        validate_subpath("C:foo"),
        Err("Destination subpath must not contain drive prefixes: C:foo".to_string())
    );
    assert!(validate_subpath("z:").is_err());
    assert_eq!(validate_subpath("1:foo"), Ok("1:foo".to_string()));
}

#[test]
fn absolute_is_reported_before_parent_component() {
    assert_eq!(
        validate_subpath("/a/../b"),
        Err("Destination subpath must be relative, got absolute: /a/../b".to_string())
    );
    assert_eq!(
        validate_subpath("C:../b"),
        Err("Destination subpath must not contain drive prefixes: C:../b".to_string())
    );
}

#[test]
fn windows_paths_are_read_with_both_separators() {
    let os = HostOs::Windows;
    assert!(path_starts_with("\\\\?\\C:\\ws\\a", "\\\\?\\C:\\ws", os));
    assert!(path_starts_with("C:\\ws\\a\\b", "C:\\ws", os));
    assert!(path_starts_with("C:\\ws/a", "C:/ws", os));
    assert!(path_starts_with("C:\\ws", "C:\\ws\\", os));
    assert!(!path_starts_with("C:\\wsx\\a", "C:\\ws", os));
    assert!(!path_starts_with("D:\\ws\\a", "C:\\ws", os));
    assert!(!path_starts_with("\\\\?\\C:\\ws\\a", "C:\\ws", os));
    assert!(!path_starts_with("C:\\ws\\a", "\\\\?\\C:\\ws", os));
    assert!(!path_starts_with("C:\\other", "C:\\ws", os));
    assert!(!path_starts_with("\\\\?\\C:\\ws\\a", "\\\\?\\C:\\ws", HostOs::Linux));
}

#[test]
fn windows_names_and_parents() {
    let os = HostOs::Windows;
    assert_eq!(file_name("C:\\src\\a", os), Some("a".to_string()));
    assert_eq!(file_name("C:\\src\\a\\", os), Some("a".to_string()));
    assert_eq!(file_name("C:\\src\\..", os), None);
    assert_eq!(file_name("C:\\src\\a", HostOs::Linux), Some("C:\\src\\a".to_string()));
    assert_eq!(parent_dir("C:\\ws\\a\\b.txt", os), Some("C:\\ws\\a".to_string()));
    assert_eq!(
        parent_dir("\\\\?\\C:\\ws\\a", os),
        Some("\\\\?\\C:\\ws".to_string())
    );
    assert_eq!(relative_to("C:\\src\\a\\y\\z", "C:\\src\\a", os), Some("y\\z".to_string()));
    assert_eq!(relative_to("C:\\other\\z", "C:\\src\\a", os), None);
    assert!(same_path("C:\\src\\a", "C:/src/a/", os));
    assert_eq!(extension("C:\\vm\\rootfs.tar.gz", os), Some("gz".to_string()));
    assert_eq!(file_stem("C:\\vm\\rootfs.tar.gz", os), Some("rootfs.tar".to_string()));
    assert_eq!(join_on("\\\\?\\C:\\ws", "a/b", os), "\\\\?\\C:\\ws\\a\\b");
    assert_eq!(join_on("/ws", "a/b", HostOs::Linux), "/ws/a/b");
}

#[test]
fn forms_of_a_path() {
    assert_eq!(to_posix("C:\\ws\\a/b", HostOs::Windows), "C:/ws/a/b");
    assert_eq!(to_host("C:/ws/a\\b", HostOs::Windows), "C:\\ws\\a\\b");
    assert_eq!(to_posix("/ws/a\\b", HostOs::Linux), "/ws/a\\b");
    assert_eq!(to_host("/ws/a\\b", HostOs::MacOS), "/ws/a\\b");
}
