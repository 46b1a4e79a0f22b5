use occlum_exec_server::address::{replace_all, sock_path_for};
use occlum_exec_server::lifecycle::{mark_serving, mark_stopped, must_keep_waiting, INITIAL_STOPPED};
use occlum_exec_server::runtime::{pal_config, status_result, ConfigError};

#[test]
fn sock_path_replaces_the_server_file_name() {
    assert_eq!(
        sock_path_for("/usr/local/bin/occlum_exec_server"),
        "/usr/local/bin/occlum_exec.sock"
    );
    assert_eq!(sock_path_for("./occlum_exec_server"), "./occlum_exec.sock");
}

#[test]
fn sock_path_without_marker_is_unchanged() {
    assert_eq!(sock_path_for("/bin/server"), "/bin/server");
    assert_eq!(sock_path_for(""), "");
}

#[test]
fn replace_all_handles_repeats_and_overlaps() {
    assert_eq!(replace_all("abcabc", "bc", "X"), "aXaX");
    assert_eq!(replace_all("aaa", "aa", "b"), "ba");
    assert_eq!(replace_all("héllo", "é", "e"), "hello");
    assert_eq!(replace_all("abc", "", "X"), "abc");
    assert_eq!(replace_all("ab", "abc", "X"), "ab");
}

#[test]
fn waiter_keeps_waiting_from_serving_until_stopped() {
    let mut stopped = INITIAL_STOPPED;
    assert!(stopped);
    mark_serving(&mut stopped);
    assert!(must_keep_waiting(stopped));
    assert!(must_keep_waiting(stopped));
    mark_stopped(&mut stopped);
    assert!(!must_keep_waiting(stopped));
}

#[test]
fn status_zero_is_success() {
    assert_eq!(status_result(0), Ok(()));
    assert_eq!(status_result(1), Err(1));
    assert_eq!(status_result(-5), Err(-5));
}

#[test]
fn default_config_is_instance_dir_and_off() {
    let c = pal_config(None, None).unwrap();
    assert_eq!(c.instance_dir, b"./.occlum\0".to_vec());
    assert_eq!(c.log_level, b"off\0".to_vec());
}

#[test]
fn config_overrides_are_nul_terminated() {
    let c = pal_config(Some(b"/srv/inst".to_vec()), Some(b"TRACE".to_vec())).unwrap();
    assert_eq!(c.instance_dir, b"/srv/inst\0".to_vec());
    assert_eq!(c.log_level, b"TRACE\0".to_vec());
}

#[test]
fn empty_instance_dir_is_refused() {
    assert_eq!(
        pal_config(Some(Vec::new()), None).unwrap_err(),
        ConfigError::EmptyInstanceDir
    );
}

#[test]
fn nul_inside_a_value_is_refused() {
    assert_eq!(
        pal_config(Some(b"a\0b".to_vec()), None).unwrap_err(),
        ConfigError::InteriorNul
    );
    assert_eq!(
        pal_config(None, Some(b"of\0f".to_vec())).unwrap_err(),
        ConfigError::InteriorNul
    );
}
