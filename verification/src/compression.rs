//! Compression of extent data, and how it is written in a configuration.

use vstd::prelude::*;
use vstd::string::*;

use crate::decimal::{parse_i32, signed_decimal_text};
#[allow(unused_imports)]
use crate::decimal::{
    all_digits, digits_value, i32_value, only_negative_numbers_have_a_sign, signed_decimal,
    signed_decimal_reads_back, signed_digits_read_as_their_number,
};
use crate::text::{chars_of, matches_at, same_text, text_from};

verus! {

/// Compression algorithm configuration for extent data.
#[derive(Debug, Clone, Copy, PartialEq, Eq, Structural)]
pub enum CompressionConfig {
    /// LZ4 compression: fast with moderate compression ratio.
    Lz4,
    /// Zstd compression at a level from 1 (fastest) to 22 (maximum compression).
    Zstd(i32),
}

/// Why a text names no compression.
#[derive(Debug, Clone, Copy, PartialEq, Eq, Structural)]
pub enum CompressionError {
    /// Neither `lz4` nor a `zstd-` text.
    UnknownAlgorithm,
    /// What follows `zstd-` is no 32-bit number.
    InvalidLevel,
    /// The zstd level is a number outside the range.
    LevelOutOfRange(i32),
}

/// The zstd levels there are.
pub open spec fn zstd_level(level: int) -> bool {
    1 <= level <= 22
}

/// How a compression is written.
pub open spec fn compression_text(c: CompressionConfig) -> Seq<char> {
    match c {
        CompressionConfig::Lz4 => "lz4"@,
        CompressionConfig::Zstd(level) => "zstd-"@ + signed_decimal(level as int),
    }
}

/// The compression that a text names, or why it names none.
pub open spec fn compression_of(s: Seq<char>) -> Result<CompressionConfig, CompressionError> {
    if s == "lz4"@ {
        Ok(CompressionConfig::Lz4)
    } else if "zstd-"@.is_prefix_of(s) {
        match i32_value(s.skip("zstd-"@.len() as int)) {
            None => Err(CompressionError::InvalidLevel),
            Some(level) => if zstd_level(level as int) {
                Ok(CompressionConfig::Zstd(level))
            } else {
                Err(CompressionError::LevelOutOfRange(level))
            },
        }
    } else {
        Err(CompressionError::UnknownAlgorithm)
    }
}

impl CompressionConfig {
    /// A compression whose level, if it has one, is in range.
    pub open spec fn valid(self) -> bool {
        match self {
            CompressionConfig::Lz4 => true,
            CompressionConfig::Zstd(level) => zstd_level(level as int),
        }
    }

    /// The text that stands for this compression: `lz4` or `zstd-{level}`.
    pub fn serialize(&self) -> (s: String)
        ensures
            s@ == compression_text(*self),
    {
        match self {
            CompressionConfig::Lz4 => "lz4".to_owned(),
            CompressionConfig::Zstd(level) => {
                let mut s = "zstd-".to_owned();
                s.append(signed_decimal_text(*level).as_str());
                s
            },
        }
    }

    /// Reads `lz4`, or `zstd-{level}` with a level from 1 to 22.
    pub fn deserialize(value: &str) -> (r: Result<CompressionConfig, CompressionError>)
        ensures
            r == compression_of(value@),
    {
        if same_text(value, "lz4") {
            return Ok(CompressionConfig::Lz4);
        }
        let chars = chars_of(value);
        let prefix = chars_of("zstd-");
        assert(chars@.skip(0) =~= value@);
        if matches_at(&chars, 0, &prefix) {
            let level_text = text_from(&chars, prefix.len());
            return match parse_i32(level_text.as_str()) {
                None => Err(CompressionError::InvalidLevel),
                Some(level) => if 1 <= level && level <= 22 {
                    Ok(CompressionConfig::Zstd(level))
                } else {
                    Err(CompressionError::LevelOutOfRange(level))
                },
            };
        }
        Err(CompressionError::UnknownAlgorithm)
    }
}

impl Default for CompressionConfig {
    /// Zstd at level 3.
    fn default() -> (c: CompressionConfig)
        ensures
            c == CompressionConfig::Zstd(3),
    {
        CompressionConfig::Zstd(3)
    }
}

impl CompressionError {
    /// What would have been accepted, in words.
    pub open spec fn expectation(self) -> Seq<char> {
        match self {
            CompressionError::UnknownAlgorithm => "'zstd-{level}' where level is 1-22, or 'lz4'"@,
            CompressionError::InvalidLevel => "'zstd-{level}' where level is a number 1-22"@,
            CompressionError::LevelOutOfRange(_) => "zstd level must be between 1 and 22"@,
        }
    }

    /// What would have been accepted, in words.
    pub fn expected(&self) -> (s: &'static str)
        ensures
            s@ == self.expectation(),
    {
        match self {
            CompressionError::UnknownAlgorithm => "'zstd-{level}' where level is 1-22, or 'lz4'",
            CompressionError::InvalidLevel => "'zstd-{level}' where level is a number 1-22",
            CompressionError::LevelOutOfRange(_) => "zstd level must be between 1 and 22",
        }
    }
}

/// Reading back what was written gives the same compression, for every valid
/// one; one whose level is out of range is written but refused on reading.
pub proof fn compression_reads_back(c: CompressionConfig)
    ensures
        c.valid() ==> compression_of(compression_text(c)) == Ok::<_, CompressionError>(c),
        !c.valid() ==> compression_of(compression_text(c)) == Err::<CompressionConfig, _>(
            CompressionError::LevelOutOfRange(c->Zstd_0),
        ),
{
    reveal_strlit("lz4");
    reveal_strlit("zstd-");
    if let CompressionConfig::Zstd(level) = c {
        let s = compression_text(c);
        assert(s[0] == 'z');
        assert(s.skip("zstd-"@.len() as int) =~= signed_decimal(level as int));
        assert("zstd-"@ =~= s.subrange(0, "zstd-"@.len() as int));
        signed_decimal_reads_back(level);
    }
}

/// Whatever is read is valid.
pub proof fn read_compression_is_valid(s: Seq<char>)
    ensures
        compression_of(s) matches Ok(c) ==> c.valid(),
{
}

/// Two compressions are never written alike.
pub proof fn compression_texts_differ(a: CompressionConfig, b: CompressionConfig)
    requires
        compression_text(a) == compression_text(b),
    ensures
        a == b,
{
    compression_reads_back(a);
    compression_reads_back(b);
}

/// What each text names: `lz4` alone names LZ4, and Zstd is named by `zstd-`
/// and a number from 1 to 22, which is the level.
pub proof fn compressions_are_named_by_their_texts(s: Seq<char>)
    ensures
        compression_of(s) == Ok::<_, CompressionError>(CompressionConfig::Lz4) <==> s == "lz4"@,
        compression_of(s) matches Ok(CompressionConfig::Zstd(level)) ==> {
            &&& 1 <= level <= 22
            &&& "zstd-"@.is_prefix_of(s)
            &&& i32_value(s.skip(5)) == Some(level)
        },
{
    reveal_strlit("zstd-");
}

/// Every level from 1 to 22 is accepted however many zeros stand in front of
/// it, and any other number that fits 32 bits is refused as that number; a
/// larger one is no level at all.
pub proof fn every_level_in_range_is_accepted(digits: Seq<char>)
    requires
        all_digits(digits),
    ensures
        1 <= digits_value(digits) <= 22 ==> compression_of("zstd-"@ + digits) == Ok::<
            _,
            CompressionError,
        >(CompressionConfig::Zstd(digits_value(digits) as i32)),
        digits_value(digits) == 0 || 22 < digits_value(digits) <= i32::MAX ==> compression_of(
            "zstd-"@ + digits,
        ) == Err::<CompressionConfig, _>(
            CompressionError::LevelOutOfRange(digits_value(digits) as i32),
        ),
        digits_value(digits) > i32::MAX ==> compression_of("zstd-"@ + digits) == Err::<
            CompressionConfig,
            _,
        >(CompressionError::InvalidLevel),
{
    reveal_strlit("lz4");
    reveal_strlit("zstd-");
    let s = "zstd-"@ + digits;
    assert(s[0] == 'z');
    assert(s.skip(5) =~= digits);
    assert("zstd-"@ =~= s.subrange(0, 5));
    signed_digits_read_as_their_number(digits);
}

/// Why a text names no compression: it is neither `lz4` nor begins with
/// `zstd-`, or what stands behind `zstd-` is no number.
pub proof fn refusals_of_compressions_say_why(s: Seq<char>, behind: Seq<char>)
    ensures
        compression_of(s) == Err::<CompressionConfig, _>(CompressionError::UnknownAlgorithm) <==> s
            != "lz4"@ && !"zstd-"@.is_prefix_of(s),
        i32_value(behind) is None <==> compression_of("zstd-"@ + behind) == Err::<
            CompressionConfig,
            _,
        >(CompressionError::InvalidLevel),
{
    reveal_strlit("lz4");
    reveal_strlit("zstd-");
    let named = "zstd-"@ + behind;
    assert(named[0] == 'z');
    assert(named.skip(5) =~= behind);
    assert("zstd-"@ =~= named.subrange(0, 5));
}

/// LZ4 is written `lz4`, and Zstd `zstd-` and its level in digits, without a
/// sign and without leading zeros.
pub proof fn levels_are_written_in_digits(level: i32)
    requires
        level > 0,
    ensures
        compression_text(CompressionConfig::Lz4) == "lz4"@,
        ({
            let text = compression_text(CompressionConfig::Zstd(level));
            &&& "zstd-"@.is_prefix_of(text)
            &&& all_digits(text.skip(5))
            &&& digits_value(text.skip(5)) == level
            &&& text[5] != '0'
        }),
{
    reveal_strlit("zstd-");
    only_negative_numbers_have_a_sign(level as int);
    let text = compression_text(CompressionConfig::Zstd(level));
    let digits = signed_decimal(level as int);
    assert(text.skip(5) =~= digits);
    assert(text[5] == digits[0]);
    assert("zstd-"@ =~= text.subrange(0, 5));
}

} // verus!
