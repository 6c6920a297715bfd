use window_lifecycle::scale::{effective_scale, parse_scale_milli, resolve_scale_override};

#[test]
fn parses_integer_and_fraction() {
    assert_eq!(parse_scale_milli("1"), Some(1000));
    assert_eq!(parse_scale_milli("2"), Some(2000));
    assert_eq!(parse_scale_milli("1.5"), Some(1500));
    assert_eq!(parse_scale_milli("3.0"), Some(3000));
    assert_eq!(parse_scale_milli("0.25"), Some(250));
    assert_eq!(parse_scale_milli("1.125"), Some(1125));
    // Digits past the third fractional place are truncated away.
    assert_eq!(parse_scale_milli("1.9999"), Some(1999));
}

#[test]
fn rejects_malformed_text() {
    assert_eq!(parse_scale_milli(""), None);
    assert_eq!(parse_scale_milli("abc"), None);
    assert_eq!(parse_scale_milli("1."), None);
    assert_eq!(parse_scale_milli(".5"), None);
    assert_eq!(parse_scale_milli("1.2.3"), None);
    assert_eq!(parse_scale_milli("1,5"), None);
    assert_eq!(parse_scale_milli("-1"), None);
    assert_eq!(parse_scale_milli("2x"), None);
    assert_eq!(parse_scale_milli(" 2"), None);
}

#[test]
fn rejects_zero_and_overflow() {
    assert_eq!(parse_scale_milli("0"), None);
    assert_eq!(parse_scale_milli("0.000"), None);
    // Too small for milli resolution counts as zero.
    assert_eq!(parse_scale_milli("0.0004"), None);
    // The largest value that fits.
    assert_eq!(parse_scale_milli("4294967.295"), Some(4294967295));
    assert_eq!(parse_scale_milli("4294967.296"), None);
    assert_eq!(parse_scale_milli("4294967295"), None);
    assert_eq!(parse_scale_milli("99999999999999999999999"), None);
}

#[test]
fn programmatic_factor_wins() {
    // Runtime preset to 2.0: the environment override is ignored.
    let o = resolve_scale_override(2000, Some("3.0"));
    assert_eq!(o, Some(2000));
    assert_eq!(effective_scale(o, 1000), 2000);
}

#[test]
fn env_override_wins_at_default_runtime_factor() {
    // Runtime at the default (<= 1.0): the environment override is used.
    let o = resolve_scale_override(1000, Some("1.5"));
    assert_eq!(o, Some(1500));
    assert_eq!(effective_scale(o, 1000), 1500);
}

#[test]
fn platform_factor_used_when_neither_set() {
    let o = resolve_scale_override(1000, None);
    assert_eq!(o, None);
    assert_eq!(effective_scale(o, 1750), 1750);

    // An unparsable override also falls back to the platform value.
    let o = resolve_scale_override(500, Some("bogus"));
    assert_eq!(o, None);
    assert_eq!(effective_scale(o, 2250), 2250);
}
