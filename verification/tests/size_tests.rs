use pty_supervisor::size::detect_terminal_size;
use pty_supervisor::size::parse_env_size;
use pty_supervisor::size::parse_u16;
use pty_supervisor::size::resolve;
use pty_supervisor::size::TerminalSize;

#[test]
fn parse_u16_accepts_plain_and_signed_numerals() {
    assert_eq!(parse_u16("0"), Some(0));
    assert_eq!(parse_u16("42"), Some(42));
    assert_eq!(parse_u16("+42"), Some(42));
    assert_eq!(parse_u16("007"), Some(7));
    assert_eq!(parse_u16("65535"), Some(65535));
}

#[test]
fn parse_u16_rejects_bad_numerals() {
    assert_eq!(parse_u16(""), None);
    assert_eq!(parse_u16("+"), None);
    assert_eq!(parse_u16("-1"), None);
    assert_eq!(parse_u16("12a"), None);
    assert_eq!(parse_u16(" 42"), None);
    assert_eq!(parse_u16("42 "), None);
    assert_eq!(parse_u16("65536"), None);
    assert_eq!(parse_u16("999999999999"), None);
}

#[test]
fn parse_env_size_reads_lines_and_columns() {
    assert_eq!(parse_env_size(Some("42"), Some("120")), Some((42, 120)));
}

#[test]
fn parse_env_size_rejects_partial_or_invalid_pairs() {
    assert_eq!(parse_env_size(None, Some("120")), None);
    assert_eq!(parse_env_size(Some("42"), None), None);
    assert_eq!(parse_env_size(None, None), None);
    assert_eq!(parse_env_size(Some("forty"), Some("120")), None);
    assert_eq!(parse_env_size(Some("0"), Some("120")), None);
    assert_eq!(parse_env_size(Some("42"), Some("0")), None);
}

#[test]
fn detect_terminal_size_uses_ioctl_when_available() {
    let size = detect_terminal_size(Some((40, 100)), None, Some("10"), Some("20"));
    assert_eq!(size, Some((40, 100)));
}

#[test]
fn detect_terminal_size_prefers_stdout_then_stdin_then_env() {
    assert_eq!(
        detect_terminal_size(Some((30, 90)), Some((40, 100)), Some("10"), Some("20")),
        Some((30, 90))
    );
    assert_eq!(
        detect_terminal_size(None, Some((40, 100)), Some("10"), Some("20")),
        Some((40, 100))
    );
    assert_eq!(
        detect_terminal_size(None, None, Some("10"), Some("20")),
        Some((10, 20))
    );
    assert_eq!(detect_terminal_size(None, None, None, None), None);
}

#[test]
fn detect_terminal_size_ignores_zero_probes() {
    assert_eq!(
        detect_terminal_size(Some((0, 100)), Some((40, 100)), None, None),
        Some((40, 100))
    );
    assert_eq!(
        detect_terminal_size(Some((40, 0)), None, Some("10"), Some("20")),
        Some((10, 20))
    );
}

#[test]
fn resolve_returns_explicit_size_whatever_else_holds() {
    let r = resolve(Some((5, 7)), Some((40, 100)), Some((41, 101)), Some("42"), Some("120"));
    assert_eq!(r, Ok(TerminalSize { rows: 5, cols: 7 }));
}

#[test]
fn resolve_clamps_explicit_zeroes_to_one() {
    let r = resolve(Some((0, 0)), None, None, None, None);
    assert_eq!(r, Ok(TerminalSize { rows: 1, cols: 1 }));
    let r = resolve(Some((0, 80)), None, None, None, None);
    assert_eq!(r, Ok(TerminalSize { rows: 1, cols: 80 }));
}

#[test]
fn resolve_falls_back_to_env_without_terminal() {
    let r = resolve(None, None, None, Some("42"), Some("120"));
    assert_eq!(r, Ok(TerminalSize { rows: 42, cols: 120 }));
}

#[test]
fn resolve_fails_with_nothing_available() {
    let r = resolve(None, None, None, None, None);
    assert!(r.is_err());
}
