use zerofs::compression::{CompressionConfig, CompressionError};
use zerofs::decimal::{decimal_text, parse_i32, signed_decimal_text};

/// A text in double quotes, as it stands in a document.
fn quoted(text: &str) -> String {
    format!("{:?}", text)
}

/// Reads a compression from a text in double quotes.
fn parse(document: &str) -> Result<CompressionConfig, CompressionError> {
    let text = document.strip_prefix('"').unwrap().strip_suffix('"').unwrap();
    CompressionConfig::deserialize(text)
}

#[test]
fn compression_config_serializes_to_canonical_strings() {
    assert_eq!(quoted(&CompressionConfig::Lz4.serialize()), "\"lz4\"");
    assert_eq!(quoted(&CompressionConfig::Zstd(7).serialize()), "\"zstd-7\"");
}

#[test]
fn compression_config_parses_valid_strings() {
    let parse = |s: &str| parse(s).unwrap();
    assert_eq!(parse("\"lz4\""), CompressionConfig::Lz4);
    assert_eq!(parse("\"zstd-1\""), CompressionConfig::Zstd(1));
    assert_eq!(parse("\"zstd-22\""), CompressionConfig::Zstd(22));
}

#[test]
fn compression_config_round_trips() {
    for cfg in [
        CompressionConfig::Lz4,
        CompressionConfig::Zstd(1),
        CompressionConfig::Zstd(3),
        CompressionConfig::Zstd(22),
    ] {
        let s = quoted(&cfg.serialize());
        assert_eq!(parse(&s).unwrap(), cfg);
    }
}

#[test]
fn compression_config_rejects_bad_strings() {
    for bad in [
        "\"zstd-0\"",   // below the 1..=22 range
        "\"zstd-23\"",  // above the range
        "\"zstd-abc\"", // non-numeric level
        "\"zstd-\"",    // missing level
        "\"gzip\"",     // unknown algorithm
        "\"\"",         // empty
    ] {
        assert!(parse(bad).is_err(), "expected {bad} to be rejected");
    }
}

#[test]
fn compression_config_default_is_zstd_3() {
    assert_eq!(CompressionConfig::default(), CompressionConfig::Zstd(3));
}

#[test]
fn a_refused_compression_says_why() {
    assert_eq!(
        CompressionConfig::deserialize("zstd-23"),
        Err(CompressionError::LevelOutOfRange(23))
    );
    assert_eq!(
        CompressionConfig::deserialize("zstd--5"),
        Err(CompressionError::LevelOutOfRange(-5))
    );
    assert_eq!(
        CompressionConfig::deserialize("zstd-99999999999"),
        Err(CompressionError::InvalidLevel)
    );
    assert_eq!(
        CompressionConfig::deserialize("ZSTD-3"),
        Err(CompressionError::UnknownAlgorithm)
    );
    assert_eq!(
        CompressionError::UnknownAlgorithm.expected(),
        "'zstd-{level}' where level is 1-22, or 'lz4'"
    );
    assert_eq!(
        CompressionError::InvalidLevel.expected(),
        "'zstd-{level}' where level is a number 1-22"
    );
    assert_eq!(
        CompressionError::LevelOutOfRange(0).expected(),
        "zstd level must be between 1 and 22"
    );
}

#[test]
fn a_level_may_carry_a_plus_sign_and_leading_zeros() {
    assert_eq!(CompressionConfig::deserialize("zstd-+3"), Ok(CompressionConfig::Zstd(3)));
    assert_eq!(CompressionConfig::deserialize("zstd-007"), Ok(CompressionConfig::Zstd(7)));
}

#[test]
fn a_level_out_of_range_is_written_and_refused_on_reading() {
    let text = CompressionConfig::Zstd(-1).serialize();
    assert_eq!(text, "zstd--1");
    assert_eq!(
        CompressionConfig::deserialize(&text),
        Err(CompressionError::LevelOutOfRange(-1))
    );
}

#[test]
fn numbers_are_read_as_the_standard_library_reads_them() {
    for text in [
        "0", "-0", "+0", "7", "-7", "+7", "007", "2147483647", "2147483648", "-2147483648",
        "-2147483649", "", "-", "+", "--1", "1 ", " 1", "1_0", "\u{661}", "99999999999999999999",
    ] {
        assert_eq!(parse_i32(text), text.parse::<i32>().ok(), "reading {text:?}");
    }
}

#[test]
fn numbers_are_written_as_the_standard_library_writes_them() {
    for n in [0, 9, 10, 99, 100, 4096, u64::MAX] {
        assert_eq!(decimal_text(n), n.to_string());
    }
    for n in [0, -1, 22, -10, i32::MAX, i32::MIN] {
        assert_eq!(signed_decimal_text(n), n.to_string());
        assert_eq!(parse_i32(&signed_decimal_text(n)), Some(n));
    }
}
