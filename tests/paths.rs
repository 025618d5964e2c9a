use tfrecord::paths::{create_tf_style_path, tf_style_path};
use tfrecord::Error;

#[test]
fn backslash_separator_marks_a_directory() {
    let (dir, file) = tf_style_path("logs\\", None, 5, "h", '\\').unwrap();
    assert_eq!(dir, "logs\\");
    assert_eq!(file, ".out.tfevents.5.h");
}


#[test]
fn prefix_with_file_part_splits() {
    let (dir, file) = tf_style_path("logs/run1-", None, 1234567, "host", '/').unwrap();
    assert_eq!(dir, "logs");
    assert_eq!(file, "run1-.out.tfevents.1234567.host");
}

#[test]
fn prefix_ending_in_separator_is_a_directory() {
    let (dir, file) = tf_style_path("logs/", Some(".v2".to_string()), 0, "h", '/').unwrap();
    assert_eq!(dir, "logs/");
    assert_eq!(file, ".out.tfevents.0.h.v2");
}

#[test]
fn bare_prefix_has_empty_directory() {
    let (dir, file) = tf_style_path("run", None, 42, "h", '/').unwrap();
    assert_eq!(dir, "");
    assert_eq!(file, "run.out.tfevents.42.h");
}

#[test]
fn empty_prefix_is_refused() {
    assert!(matches!(
        tf_style_path("", None, 1, "h", '/'),
        Err(Error::InvalidArgumentsError { .. })
    ));
    assert!(matches!(
        create_tf_style_path("", None, 1),
        Err(Error::InvalidArgumentsError { .. })
    ));
}

#[test]
fn resolved_path_names_this_host() {
    let (dir, file) = create_tf_style_path("logs/run1-", None, 1700000000000000).unwrap();
    assert_eq!(dir, "logs");
    let rest = file.strip_prefix("run1-.out.tfevents.1700000000000000.").unwrap();
    assert!(!rest.is_empty());
}
