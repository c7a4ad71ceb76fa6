use sysinfo::PathBuf;
use sysinfo::PathHandler;
use sysinfo::PathPush;

#[test]
fn set_child_replaces_previous_segment() {
    let mut h = PathHandler::new(b"/a/b");
    assert_eq!(h.join(b"1"), &b"/a/b/1"[..]);
    assert_eq!(h.join(b"22"), &b"/a/b/22"[..]);
}

#[test]
fn handler_first_join_removes_the_placeholder() {
    let mut h = PathHandler::new(b"/proc");
    assert_eq!(h.join(b"42"), &b"/proc/42"[..]);
    assert_eq!(h.join(b"1234567"), &b"/proc/1234567"[..]);
}

#[test]
fn plain_buffer_appends_segments() {
    let mut b = PathBuf::new(b"/a/b");
    assert_eq!(b.join(b"c"), &b"/a/b/c"[..]);
    assert_eq!(b.join(b"d"), &b"/a/b/c/d"[..]);
}

#[test]
fn containers_agree_from_the_same_parent() {
    let mut h = PathHandler::new(b"/proc/17");
    let mut b = PathBuf::new(b"/proc/17");
    let from_handler = h.join(b"status").to_vec();
    let from_buffer = b.join(b"status").to_vec();
    assert_eq!(from_handler, from_buffer);
}

#[test]
fn non_utf8_parent_bytes_pass_through() {
    let parent: &[u8] = &[47, 0xff, 0x80];
    let mut h = PathHandler::new(parent);
    assert_eq!(h.join(b"x"), &[47, 0xff, 0x80, 47, b'x'][..]);
}
