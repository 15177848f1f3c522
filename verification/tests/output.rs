use furiosa_version::output::{format_version, Selection};
use furiosa_version::version::VersionInfo;

fn sample() -> VersionInfo {
    VersionInfo {
        version: "1.2.3".to_string(),
        hash: "abcd123".to_string(),
        build_time: "2024-01-01T00:00:00Z".to_string(),
    }
}

fn flags(version: bool, hash: bool, build_time: bool) -> Selection {
    Selection { version, hash, build_time }
}

#[test]
fn no_flag_prints_all_three_fields() {
    let line = format_version(&flags(false, false, false), &sample());
    assert_eq!(line, "1.2.3 abcd123 2024-01-01T00:00:00Z");
}

#[test]
fn all_flags_print_all_three_fields() {
    let line = format_version(&flags(true, true, true), &sample());
    assert_eq!(line, "1.2.3 abcd123 2024-01-01T00:00:00Z");
}

#[test]
fn no_flag_is_the_same_as_all_flags() {
    let none = format_version(&flags(false, false, false), &sample());
    let all = format_version(&flags(true, true, true), &sample());
    assert_eq!(none, all);
}

#[test]
fn only_version_prints_the_version() {
    assert_eq!(format_version(&flags(true, false, false), &sample()), "1.2.3");
}

#[test]
fn only_hash_prints_the_hash() {
    assert_eq!(format_version(&flags(false, true, false), &sample()), "abcd123");
}

#[test]
fn only_build_time_prints_the_build_time() {
    assert_eq!(format_version(&flags(false, false, true), &sample()), "2024-01-01T00:00:00Z");
}

#[test]
fn version_and_build_time_are_separated_by_one_space() {
    let line = format_version(&flags(true, false, true), &sample());
    assert_eq!(line, "1.2.3 2024-01-01T00:00:00Z");
}

#[test]
fn version_and_hash_are_separated_by_one_space() {
    assert_eq!(format_version(&flags(true, true, false), &sample()), "1.2.3 abcd123");
}

#[test]
fn hash_and_build_time_are_separated_by_one_space() {
    let line = format_version(&flags(false, true, true), &sample());
    assert_eq!(line, "abcd123 2024-01-01T00:00:00Z");
}

#[test]
fn field_order_does_not_follow_the_order_of_the_flags() {
    // However the selection is written down, the version comes first.
    let written_backwards = Selection { build_time: true, hash: false, version: true };
    let line = format_version(&written_backwards, &sample());
    assert_eq!(line, "1.2.3 2024-01-01T00:00:00Z");
}

#[test]
fn line_has_no_leading_or_trailing_space_and_no_newline() {
    for version in [false, true] {
        for hash in [false, true] {
            for build_time in [false, true] {
                let line = format_version(&flags(version, hash, build_time), &sample());
                assert!(!line.starts_with(' '));
                assert!(!line.ends_with(' '));
                assert!(!line.contains('\n'));
                assert!(!line.contains("  "));
            }
        }
    }
}

#[test]
fn line_length_counts_fields_and_single_spaces() {
    let info = sample();
    let line = format_version(&flags(false, false, false), &info);
    assert_eq!(line.len(), info.version.len() + 1 + info.hash.len() + 1 + info.build_time.len());
    let line = format_version(&flags(false, true, true), &info);
    assert_eq!(line.len(), info.hash.len() + 1 + info.build_time.len());
    let line = format_version(&flags(false, true, false), &info);
    assert_eq!(line.len(), info.hash.len());
}

#[test]
fn empty_fields_keep_their_separators() {
    let info = VersionInfo {
        version: String::new(),
        hash: "h".to_string(),
        build_time: String::new(),
    };
    assert_eq!(format_version(&flags(false, false, false), &info), " h ");
    assert_eq!(format_version(&flags(true, false, true), &info), " ");
    assert_eq!(format_version(&flags(true, false, false), &info), "");
}

#[test]
fn fields_with_spaces_and_wide_characters_are_kept_as_they_are() {
    let info = VersionInfo {
        version: "0.9 beta".to_string(),
        hash: "\u{e9}\u{4e16}\u{1f600}".to_string(),
        build_time: "now".to_string(),
    };
    let line = format_version(&flags(false, false, false), &info);
    assert_eq!(line, "0.9 beta \u{e9}\u{4e16}\u{1f600} now");
}

#[test]
fn formatting_twice_gives_the_same_line() {
    let info = sample();
    let selection = flags(true, true, false);
    let first = format_version(&selection, &info);
    let second = format_version(&selection, &info);
    assert_eq!(first, second);
    assert_eq!(info, sample());
    assert_eq!(selection, flags(true, true, false));
}
