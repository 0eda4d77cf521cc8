use pathbufd::pathbufd_fmt;
use pathbufd::CapacityError;
use pathbufd::PathBufD;

fn from_str(s: &str) -> PathBufD {
    PathBufD::deserialize(s.as_bytes())
}

fn render(p: &PathBufD) -> String {
    String::from_utf8(p.as_bytes()).unwrap_or_default()
}

#[test]
fn new_is_empty() {
    let p = PathBufD::new();
    assert_eq!(p.as_path(), b"" as &[u8]);
    assert_eq!(p.as_bytes(), Vec::<u8>::new());
}

#[test]
fn default_is_empty() {
    let p = PathBufD::default();
    assert_eq!(p.as_path(), b"" as &[u8]);
}

#[test]
fn with_capacity_is_empty_and_reserved() {
    let p = PathBufD::with_capacity(64);
    assert_eq!(p.as_path(), b"" as &[u8]);
    assert!(p.capacity() >= 64);
}

#[test]
fn push_relative_appends_with_separator() {
    let mut p = PathBufD::new();
    p.push("usr");
    assert_eq!(render(&p), "usr");
    p.push("local");
    assert_eq!(render(&p), "usr/local");
}

#[test]
fn push_onto_trailing_separator_adds_none() {
    let mut p = from_str("usr/");
    p.push("local");
    assert_eq!(render(&p), "usr/local");
}

#[test]
fn push_absolute_replaces_buffer() {
    let mut p = from_str("usr/local");
    p.push("/etc");
    assert_eq!(render(&p), "/etc");
}

#[test]
fn push_empty_segment_adds_separator() {
    let mut p = from_str("a");
    p.push("");
    assert_eq!(render(&p), "a/");
}

#[test]
fn join_equals_push_on_a_copy() {
    // the push/join equivalence, on concrete values
    let p = from_str("/usr/local");
    let joined = p.join("bin");
    assert_eq!(render(&p), "/usr/local");
    let mut pushed = p.clone();
    pushed.push("bin");
    assert_eq!(joined, pushed);
    assert_eq!(render(&joined), "/usr/local/bin");
}

#[test]
fn join_leaves_receiver_unchanged() {
    let p = from_str("a/b");
    let _ = p.join("c");
    assert_eq!(render(&p), "a/b");
}

#[test]
fn pop_on_empty_returns_false_and_changes_nothing() {
    let mut p = PathBufD::new();
    assert!(!p.pop());
    assert_eq!(p.as_path(), b"" as &[u8]);
}

#[test]
fn pop_on_root_returns_false_and_changes_nothing() {
    let mut p = from_str("/");
    assert!(!p.pop());
    assert_eq!(render(&p), "/");
}

#[test]
fn pop_keeps_the_root_of_an_absolute_path() {
    let mut p = from_str("/a");
    assert!(p.pop());
    assert_eq!(render(&p), "/");
}

#[test]
fn pop_truncates_to_parent() {
    let mut p = from_str("a/b/c");
    assert!(p.pop());
    assert_eq!(render(&p), "a/b");
    assert!(p.pop());
    assert_eq!(render(&p), "a");
    assert!(p.pop());
    assert_eq!(render(&p), "");
    assert!(!p.pop());
}

#[test]
fn pop_strictly_shortens_when_it_succeeds() {
    let mut p = from_str("/usr//local/");
    let before = p.as_bytes().len();
    assert!(p.pop());
    assert!(p.as_bytes().len() < before);
    assert_eq!(render(&p), "/usr");
}

#[test]
fn set_file_name_replaces_the_final_segment() {
    let mut p = from_str("/tmp/foo.txt");
    p.set_file_name("bar.rs");
    assert_eq!(render(&p), "/tmp/bar.rs");
}

#[test]
fn set_file_name_on_root_appends() {
    let mut p = from_str("/");
    p.set_file_name("bar");
    assert_eq!(render(&p), "/bar");
}

#[test]
fn set_file_name_on_empty_appends() {
    let mut p = PathBufD::new();
    p.set_file_name("bar");
    assert_eq!(render(&p), "bar");
}

#[test]
fn set_extension_replaces_extension() {
    let mut p = from_str("a/foo.tar");
    p.set_extension("gz");
    assert_eq!(render(&p), "a/foo.gz");
}

#[test]
fn set_extension_adds_extension() {
    let mut p = from_str("a/foo");
    p.set_extension("txt");
    assert_eq!(render(&p), "a/foo.txt");
}

#[test]
fn set_extension_empty_removes_extension() {
    let mut p = from_str("a/foo.txt");
    p.set_extension("");
    assert_eq!(render(&p), "a/foo");
}

#[test]
fn set_extension_keeps_a_leading_dot_as_stem() {
    let mut p = from_str("dir/.conf");
    p.set_extension("bak");
    assert_eq!(render(&p), "dir/.conf.bak");
}

#[test]
fn set_extension_without_file_name_changes_nothing() {
    let mut p = from_str("/");
    p.set_extension("txt");
    assert_eq!(render(&p), "/");
}

#[test]
fn extend_equals_repeated_push() {
    // extend as repeated push, on concrete values
    let p = from_str("base");
    let extended = p.clone().extend(&["a", "b", "c"]);
    let mut pushed = p;
    pushed.push("a");
    pushed.push("b");
    pushed.push("c");
    assert_eq!(extended, pushed);
    assert_eq!(render(&extended), "base/a/b/c");
}

#[test]
fn extend_with_no_segments_changes_nothing() {
    let p = from_str("base");
    let extended = p.extend(&[]);
    assert_eq!(render(&extended), "base");
}

#[test]
fn serialize_round_trip_reconstructs_the_buffer() {
    for s in ["", "/", "a", "/usr/local/bin", "a//b/", "weird name.txt"] {
        let p = from_str(s);
        let q = PathBufD::deserialize(&p.serialize());
        assert_eq!(q, p);
        assert_eq!(render(&q), s);
    }
}

#[test]
fn as_bytes_renders_empty_for_non_utf8_content() {
    let p = PathBufD::deserialize(&[0x2f, 0xff, 0xfe]);
    assert_eq!(p.as_bytes(), Vec::<u8>::new());
    // the content itself is intact
    assert_eq!(p.as_path(), &[0x2f, 0xff, 0xfe][..]);
}

#[test]
fn serialize_round_trip_preserves_non_utf8_content() {
    let p = PathBufD::deserialize(&[0x2f, 0xff, 0x61]);
    let q = PathBufD::deserialize(&p.serialize());
    assert_eq!(q, p);
}

#[test]
fn format_split_absolute_path() {
    let p = pathbufd_fmt("/usr/local/bin");
    assert_eq!(render(&p), "/usr/local/bin");
}

#[test]
fn format_split_relative_path_with_empty_segment() {
    // "a//b" splits into "a", an empty piece, "b"; the empty piece pushes
    // the root marker, which resets the buffer to an absolute "/", and
    // "b" is then joined onto it
    let p = pathbufd_fmt("a//b");
    assert_eq!(render(&p), "/b");
}

#[test]
fn format_split_relative_path() {
    let p = pathbufd_fmt("a/b/c");
    assert_eq!(render(&p), "a/b/c");
}

#[test]
fn format_split_empty_input_yields_root() {
    let p = pathbufd_fmt("");
    assert_eq!(render(&p), "/");
}

#[test]
fn format_split_trailing_separator_resets_to_root() {
    let p = pathbufd_fmt("a/");
    assert_eq!(render(&p), "/");
}

#[test]
fn shrink_to_fit_never_alters_content() {
    let mut p = PathBufD::with_capacity(256);
    p.push("/usr/local");
    p.shrink_to_fit();
    assert_eq!(render(&p), "/usr/local");
    assert!(p.capacity() >= p.as_bytes().len());
}

#[test]
fn shrink_to_never_alters_content() {
    let mut p = PathBufD::with_capacity(256);
    p.push("/usr/local");
    p.shrink_to(4);
    assert_eq!(render(&p), "/usr/local");
    assert!(p.capacity() >= p.as_bytes().len());
}

#[test]
fn reserve_grows_capacity_and_keeps_content() {
    let mut p = from_str("a/b");
    p.reserve(128);
    assert!(p.capacity() >= 128);
    assert_eq!(render(&p), "a/b");
}

#[test]
fn reserve_exact_keeps_content() {
    let mut p = from_str("a/b");
    p.reserve_exact(32);
    assert!(p.capacity() >= 32);
    assert_eq!(render(&p), "a/b");
}

#[test]
fn try_reserve_failure_is_recoverable() {
    let mut p = from_str("a/b");
    let r = p.try_reserve(usize::MAX);
    assert_eq!(r, Err(CapacityError));
    assert_eq!(render(&p), "a/b");
}

#[test]
fn try_reserve_exact_failure_is_recoverable() {
    let mut p = from_str("a/b");
    let r = p.try_reserve_exact(usize::MAX);
    assert_eq!(r, Err(CapacityError));
    assert_eq!(render(&p), "a/b");
}

#[test]
fn try_reserve_of_nothing_always_succeeds() {
    let mut p = from_str("a/b");
    assert_eq!(p.try_reserve(0), Ok(()));
    assert_eq!(p.try_reserve_exact(0), Ok(()));
    assert_eq!(render(&p), "a/b");
}

#[test]
fn try_reserve_success_keeps_content() {
    let mut p = from_str("a/b");
    assert_eq!(p.try_reserve(16), Ok(()));
    assert!(p.capacity() >= 16);
    assert_eq!(render(&p), "a/b");
}

#[test]
fn into_boxed_path_holds_the_bytes() {
    let p = from_str("/usr/bin");
    let boxed = p.into_boxed_path();
    assert_eq!(&boxed[..], b"/usr/bin" as &[u8]);
}

#[test]
fn into_os_string_yields_the_storage() {
    let p = from_str("/usr/bin");
    assert_eq!(p.into_os_string(), b"/usr/bin".to_vec());
}

#[test]
fn clear_empties_the_buffer() {
    let mut p = from_str("/usr/bin");
    p.clear();
    assert_eq!(render(&p), "");
}

#[test]
fn equality_is_structural() {
    assert_eq!(from_str("a/b"), from_str("a/b"));
    assert_ne!(from_str("a/b"), from_str("a/c"));
    assert_ne!(from_str("a"), from_str("a/"));
}
