use mica_term::remote_paths::{
    build_local_download_path, last_segment_of, local_join, normalize_remote_dir, remote_child_path,
    remote_parent_path, remote_upload_part_path, same_remote_dir,
};
use mica_term::sftp_clipboard::{
    clipboard_cache_entry_is_stale, CLIPBOARD_CACHE_FILE_PREFIX, CLIPBOARD_CACHE_FILE_SUFFIX,
};
use mica_term::sftp_model::{SftpDirectoryEntry, SftpDirectoryEntryKind, SftpPathHistory};
use uuid::Uuid;

fn entry(name: &str, kind: SftpDirectoryEntryKind, modified_unix_seconds: Option<u64>) -> SftpDirectoryEntry {
    SftpDirectoryEntry {
        id: format!("/tmp/{name}"),
        name: name.to_string(),
        path: format!("/tmp/{name}"),
        kind,
        modified_unix_seconds,
        size_bytes: None,
        permissions_label: None,
        owner_label: None,
        group_label: None,
    }
}

#[test]
fn remote_child_paths_preserve_root_and_trim_duplicate_separators() {
    assert_eq!(remote_child_path("/", "/tmp"), "/tmp");
    assert_eq!(remote_child_path("/home/test/", "cache"), "/home/test/cache");
}

#[test]
fn stale_cleanup_accepts_only_owned_uuid_png_files() {
    let owned_name = format!("{CLIPBOARD_CACHE_FILE_PREFIX}{}{CLIPBOARD_CACHE_FILE_SUFFIX}", Uuid::nil());
    assert!(clipboard_cache_entry_is_stale(&entry(owned_name.as_str(), SftpDirectoryEntryKind::File, Some(10)), 20));
    assert!(!clipboard_cache_entry_is_stale(&entry(owned_name.as_str(), SftpDirectoryEntryKind::File, Some(20)), 20));
    assert!(!clipboard_cache_entry_is_stale(
        &entry("mica-clipboard-not-a-uuid.png", SftpDirectoryEntryKind::File, Some(10)),
        20
    ));
    assert!(!clipboard_cache_entry_is_stale(&entry(owned_name.as_str(), SftpDirectoryEntryKind::Symlink, Some(10)), 20));
    assert!(!clipboard_cache_entry_is_stale(&entry("unrelated.png", SftpDirectoryEntryKind::File, Some(10)), 20));
}

#[test]
fn remote_parent_paths_stop_at_root() {
    assert_eq!(remote_parent_path("/home/test/"), Some("/home".to_string()));
    assert_eq!(remote_parent_path("/home"), Some("/".to_string()));
    assert_eq!(remote_parent_path("/"), None);
    assert_eq!(remote_parent_path("  "), None);
    assert_eq!(remote_parent_path("relative"), None);
}

#[test]
fn remote_dirs_normalize_and_compare() {
    assert_eq!(normalize_remote_dir(" //srv//data// "), "/srv//data");
    assert_eq!(normalize_remote_dir(""), "/");
    assert!(same_remote_dir("/srv/data/", "srv/data"));
    assert!(!same_remote_dir("/srv/data", "/srv"));
}

#[test]
fn local_paths_join_like_path_join() {
    assert_eq!(local_join("/tmp", "a.txt"), "/tmp/a.txt");
    assert_eq!(local_join("/tmp/", "a.txt"), "/tmp/a.txt");
    assert_eq!(local_join("", "a.txt"), "a.txt");
    assert_eq!(last_segment_of("/srv/file.bin"), "file.bin");
    assert_eq!(build_local_download_path("/downloads", "/srv/dir/"), "/downloads/downloaded-file");
    assert_eq!(build_local_download_path("/downloads", "/srv/report.pdf"), "/downloads/report.pdf");
    assert_eq!(remote_upload_part_path("/srv/x.bin"), "/srv/x.bin.part");
}

#[test]
fn path_history_goes_back_and_forward() {
    let mut history = SftpPathHistory::with_initial("/a");
    history.push("/b");
    history.push("/c");
    assert!(history.can_back());
    assert!(!history.can_forward());
    assert_eq!(history.back(), Some("/b".to_string()));
    assert_eq!(history.back(), Some("/a".to_string()));
    assert_eq!(history.back(), None);
    assert_eq!(history.forward(), Some("/b".to_string()));
    history.push("/d");
    assert!(!history.can_forward());
    assert_eq!(history.current(), Some("/d"));
    assert_eq!(history.entries().len(), 3);
}
