use yubigoblin::pam::{add_pam_line, file_contains_line, marker, PamFile};

const MARKER: &str = "auth required pam_u2f.so";

#[test]
fn marker_goes_before_common_auth() {
    let content = "#comment\n@include common-auth\naccount required pam_unix.so\n";
    let out = add_pam_line(content, MARKER);
    assert_eq!(
        out,
        Some(
            "#comment\nauth required pam_u2f.so\n@include common-auth\naccount required pam_unix.so\n"
                .to_string()
        )
    );
}

#[test]
fn marker_goes_on_top_without_directive() {
    let content = "auth sufficient pam_unix.so\nsession required pam_limits.so";
    let out = add_pam_line(content, MARKER);
    assert_eq!(
        out,
        Some(
            "auth required pam_u2f.so\nauth sufficient pam_unix.so\nsession required pam_limits.so\n"
                .to_string()
        )
    );
}

#[test]
fn marker_goes_before_first_of_two_directives() {
    let content = "a\n  @include common-auth # first\nb\n@include common-auth\n";
    let out = add_pam_line(content, MARKER).unwrap();
    assert_eq!(
        out,
        "a\nauth required pam_u2f.so\n  @include common-auth # first\nb\n@include common-auth\n"
    );
}

#[test]
fn present_marker_leaves_file_alone() {
    let content = "x\nauth required pam_u2f.so\n@include common-auth";
    assert_eq!(add_pam_line(content, MARKER), None);
}

#[test]
fn ensure_line_twice_is_idempotent() {
    let content = "#comment\n@include common-auth\naccount required pam_unix.so\n";
    let first = add_pam_line(content, MARKER).unwrap();
    assert_eq!(add_pam_line(&first, MARKER), None);
}

#[test]
fn empty_file_gets_only_the_marker() {
    assert_eq!(add_pam_line("", MARKER), Some("auth required pam_u2f.so\n".to_string()));
}

#[test]
fn crlf_endings_are_normalised() {
    let out = add_pam_line("a\r\n@include common-auth\r\n", MARKER).unwrap();
    assert_eq!(out, "a\nauth required pam_u2f.so\n@include common-auth\n");
}

#[test]
fn blank_lines_are_kept() {
    let out = add_pam_line("\n\n@include common-auth\n", MARKER).unwrap();
    assert_eq!(out, "\n\nauth required pam_u2f.so\n@include common-auth\n");
}

#[test]
fn contains_line_is_a_substring_search() {
    assert!(file_contains_line("foo auth required pam_u2f.so bar", MARKER));
    assert!(!file_contains_line("auth required pam_u2f", MARKER));
    assert!(file_contains_line("anything", ""));
    assert!(!file_contains_line("", MARKER));
}

#[test]
fn marker_and_paths() {
    assert_eq!(marker(), MARKER);
    assert_eq!(PamFile::Sudo.path(), "/etc/pam.d/sudo");
    assert_eq!(PamFile::GdmPassword.path(), "/etc/pam.d/gdm-password");
    assert_eq!(PamFile::Sudo.backup_path(), "/etc/pam.d/sudo.bak");
    assert_eq!(PamFile::GdmPassword.backup_path(), "/etc/pam.d/gdm-password.bak");
}
