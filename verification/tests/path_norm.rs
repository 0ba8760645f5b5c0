use chaudloader::path_norm::normalize;

#[test]
fn dot_segment_collapsed() {
    assert_eq!(normalize("exe\\.\\a.dat"), "exe\\a.dat");
}

#[test]
fn forward_slash_normalized() {
    assert_eq!(normalize("a/b"), "a\\b");
    assert_eq!(normalize("data/foo.dat"), "data\\foo.dat");
}

#[test]
fn dotdot_pops_previous_segment() {
    assert_eq!(normalize("a\\b\\..\\c"), "a\\c");
    assert_eq!(normalize("a\\.."), ".");
}

#[test]
fn leading_dotdot_kept_on_relative_path() {
    assert_eq!(normalize("..\\exe\\data\\exe1.dat"), "..\\exe\\data\\exe1.dat");
    assert_eq!(normalize(".."), "..");
    assert_eq!(normalize("a\\..\\.."), "..");
}

#[test]
fn empty_and_dot_paths() {
    assert_eq!(normalize(""), ".");
    assert_eq!(normalize("."), ".");
    assert_eq!(normalize(".\\."), ".");
}

#[test]
fn repeated_and_trailing_separators_dropped() {
    assert_eq!(normalize("a\\\\b\\"), "a\\b");
    assert_eq!(normalize("a//b//"), "a\\b");
}

#[test]
fn rooted_paths() {
    assert_eq!(normalize("\\a\\..\\b"), "\\b");
    assert_eq!(normalize("\\..\\a"), "\\a");
    assert_eq!(normalize("\\"), "\\");
}

#[test]
fn plain_path_unchanged() {
    assert_eq!(normalize("data\\foo.dat"), "data\\foo.dat");
    assert_eq!(normalize("exe\\exe1.dat"), "exe\\exe1.dat");
}
