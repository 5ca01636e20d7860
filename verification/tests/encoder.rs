use qrcode::types::QrError;
use qrcode::{QrCode, Version};
use qrcoderust::encoder::{
    first_attempt, name_error, name_outcome, needs_retry, next_attempt, usize_to_version, Attempt,
};
use qrcoderust::symbol::{EcLevel, EncodeError, Symbol};

fn encode(data: &str, attempt: Attempt, ec_level: EcLevel) -> Result<Symbol, QrError> {
    let level = match ec_level {
        EcLevel::L => qrcode::EcLevel::L,
        EcLevel::M => qrcode::EcLevel::M,
        EcLevel::Q => qrcode::EcLevel::Q,
        EcLevel::H => qrcode::EcLevel::H,
    };
    let code = match attempt {
        Attempt::AtVersion(version) => QrCode::with_version(data, Version::Normal(version), level)?,
        Attempt::Smallest => QrCode::with_error_correction_level(data, level)?,
    };
    let version = match code.version() {
        Version::Normal(v) => v,
        Version::Micro(v) => v,
    };
    let dark = code.to_colors().iter().map(|color| color.select(true, false)).collect();
    Ok(Symbol::new(version, ec_level, code.width(), dark).unwrap())
}

// Makes the calls of the encoder that the library asks for.
fn create_code(data: &str, min_version: Option<usize>, ec_level: EcLevel) -> Result<Symbol, EncodeError> {
    let mut attempt = first_attempt(min_version);
    loop {
        let result = name_outcome(encode(data, attempt, ec_level));
        match next_attempt(attempt, &result) {
            Some(next) => attempt = next,
            None => return result,
        }
    }
}

fn long_text() -> String {
    "hello world! ".repeat(20)
}

#[test]
fn version_is_clamped_into_range() {
    assert_eq!(usize_to_version(0), 1);
    assert_eq!(usize_to_version(1), 1);
    assert_eq!(usize_to_version(17), 17);
    assert_eq!(usize_to_version(40), 40);
    assert_eq!(usize_to_version(41), 40);
    assert_eq!(usize_to_version(40_000), 40);
    assert_eq!(usize_to_version(65_537), 40);
    assert_eq!(usize_to_version(usize::MAX), 40);
}

#[test]
fn every_encoder_error_has_its_name() {
    assert_eq!(name_error(QrError::DataTooLong), EncodeError::DataTooLong);
    assert_eq!(name_error(QrError::InvalidVersion), EncodeError::InvalidVersion);
    assert_eq!(name_error(QrError::UnsupportedCharacterSet), EncodeError::UnsupportedCharacterSet);
    assert_eq!(name_error(QrError::InvalidEciDesignator), EncodeError::InvalidEciDesignator);
    assert_eq!(name_error(QrError::InvalidCharacter), EncodeError::InvalidCharacter);
}

#[test]
fn named_outcome_keeps_the_symbol() {
    let symbol = Symbol::new(3, EcLevel::Q, 2, vec![true, false, false, true]).unwrap();
    let named = name_outcome(Ok(symbol)).unwrap();
    assert_eq!(named.version, 3);
    assert_eq!(named.level, EcLevel::Q);
    assert_eq!(named.width, 2);
    assert_eq!(named.dark, vec![true, false, false, true]);
    assert_eq!(name_outcome(Err(QrError::InvalidCharacter)).unwrap_err(), EncodeError::InvalidCharacter);
}

#[test]
fn retry_follows_too_long_and_invalid_version_only() {
    assert!(needs_retry(&Err(EncodeError::DataTooLong)));
    assert!(needs_retry(&Err(EncodeError::InvalidVersion)));
    assert!(!needs_retry(&Err(EncodeError::UnsupportedCharacterSet)));
    assert!(!needs_retry(&Err(EncodeError::InvalidEciDesignator)));
    assert!(!needs_retry(&Err(EncodeError::InvalidCharacter)));
    let symbol = Symbol::new(1, EcLevel::L, 1, vec![true]).unwrap();
    assert!(!needs_retry(&Ok(symbol)));
}

#[test]
fn encoder_picks_the_smallest_version() {
    let code = create_code("hello world!", None, EcLevel::L).unwrap();
    assert_eq!(code.version, 1);
    assert_eq!(code.width, 21);
    assert_eq!(code.level, EcLevel::L);
    assert_eq!(code.dark.len(), 21 * 21);
}

#[test]
fn encoded_symbol_has_its_finder_patterns() {
    let code = create_code("hello world!", None, EcLevel::M).unwrap();
    let w = code.width;
    // corners of the three finder patterns are dark, the ring inside is light
    for (x, y) in [(0, 0), (6, 6), (w - 1, 0), (w - 7, 6), (0, w - 1), (6, w - 7)] {
        assert!(code.dark[y * w + x], "({}, {})", x, y);
    }
    for (x, y) in [(1, 1), (5, 5), (w - 2, 1), (1, w - 2)] {
        assert!(!code.dark[y * w + x], "({}, {})", x, y);
    }
    // the separator beside a finder pattern is light
    assert!(!code.dark[7 * w + 7]);
}

#[test]
fn minimum_version_is_kept_where_the_payload_fits() {
    let code = create_code("hello world!", Some(5), EcLevel::L).unwrap();
    assert_eq!(code.version, 5);
    assert_eq!(code.width, 37);
    assert_eq!(code.dark.len(), 37 * 37);
    let code = create_code("hello world!", Some(40), EcLevel::H).unwrap();
    assert_eq!(code.version, 40);
    assert_eq!(code.width, 177);
    assert_eq!(code.level, EcLevel::H);
}

#[test]
fn minimum_version_out_of_range_is_clamped() {
    assert_eq!(create_code("hello world!", Some(0), EcLevel::L).unwrap().version, 1);
    assert_eq!(create_code("hello world!", Some(99), EcLevel::L).unwrap().version, 40);
    assert_eq!(create_code("hello world!", Some(40_000), EcLevel::L).unwrap().version, 40);
}

#[test]
fn minimum_version_too_small_falls_back() {
    let text = long_text();
    for level in [EcLevel::L, EcLevel::M, EcLevel::Q, EcLevel::H] {
        let free = create_code(&text, None, level).unwrap();
        let bound = create_code(&text, Some(1), level).unwrap();
        assert!(free.version > 1);
        assert_eq!(bound.version, free.version);
        assert_eq!(bound.width, free.width);
        assert_eq!(bound.dark, free.dark);
    }
}

#[test]
fn higher_level_needs_a_larger_symbol() {
    let text = long_text();
    let l = create_code(&text, None, EcLevel::L).unwrap();
    let h = create_code(&text, None, EcLevel::H).unwrap();
    assert_eq!(l.level, EcLevel::L);
    assert_eq!(h.level, EcLevel::H);
    assert!(l.version < h.version);
}

#[test]
fn payload_that_fits_no_version_is_too_long() {
    let text = "x".repeat(8000);
    assert_eq!(create_code(&text, None, EcLevel::L).unwrap_err(), EncodeError::DataTooLong);
    assert_eq!(create_code(&text, Some(1), EcLevel::L).unwrap_err(), EncodeError::DataTooLong);
    assert_eq!(create_code(&text, Some(40), EcLevel::H).unwrap_err(), EncodeError::DataTooLong);
}

#[test]
fn encoding_is_repeatable() {
    let a = create_code("hello world!", Some(3), EcLevel::Q).unwrap();
    let b = create_code("hello world!", Some(3), EcLevel::Q).unwrap();
    assert_eq!(a.version, b.version);
    assert_eq!(a.dark, b.dark);
}

#[test]
fn symbol_needs_a_square_grid() {
    assert!(Symbol::new(1, EcLevel::L, 2, vec![true; 4]).is_some());
    assert!(Symbol::new(1, EcLevel::L, 0, vec![]).is_some());
    assert!(Symbol::new(1, EcLevel::L, 2, vec![true; 3]).is_none());
    assert!(Symbol::new(1, EcLevel::L, 2, vec![true; 5]).is_none());
    assert!(Symbol::new(1, EcLevel::L, usize::MAX, vec![true; 1]).is_none());
}

#[test]
fn first_call_is_at_the_clamped_minimum_version() {
    assert_eq!(first_attempt(None), Attempt::Smallest);
    assert_eq!(first_attempt(Some(0)), Attempt::AtVersion(1));
    assert_eq!(first_attempt(Some(1)), Attempt::AtVersion(1));
    assert_eq!(first_attempt(Some(23)), Attempt::AtVersion(23));
    assert_eq!(first_attempt(Some(40)), Attempt::AtVersion(40));
    assert_eq!(first_attempt(Some(41)), Attempt::AtVersion(40));
    assert_eq!(first_attempt(Some(usize::MAX)), Attempt::AtVersion(40));
}

#[test]
fn second_call_follows_a_fixed_version_that_failed_for_size() {
    let fixed = Attempt::AtVersion(5);
    assert_eq!(next_attempt(fixed, &Err(EncodeError::DataTooLong)), Some(Attempt::Smallest));
    assert_eq!(next_attempt(fixed, &Err(EncodeError::InvalidVersion)), Some(Attempt::Smallest));
    assert_eq!(next_attempt(fixed, &Err(EncodeError::UnsupportedCharacterSet)), None);
    assert_eq!(next_attempt(fixed, &Err(EncodeError::InvalidEciDesignator)), None);
    assert_eq!(next_attempt(fixed, &Err(EncodeError::InvalidCharacter)), None);
    let symbol = Symbol::new(5, EcLevel::L, 1, vec![true]).unwrap();
    assert_eq!(next_attempt(fixed, &Ok(symbol)), None);
}

#[test]
fn no_call_follows_the_smallest_version() {
    for e in [
        EncodeError::DataTooLong,
        EncodeError::InvalidVersion,
        EncodeError::UnsupportedCharacterSet,
        EncodeError::InvalidEciDesignator,
        EncodeError::InvalidCharacter,
    ] {
        assert_eq!(next_attempt(Attempt::Smallest, &Err(e)), None);
    }
    let symbol = Symbol::new(1, EcLevel::L, 1, vec![true]).unwrap();
    assert_eq!(next_attempt(Attempt::Smallest, &Ok(symbol)), None);
}

#[test]
fn too_long_a_payload_is_encoded_in_two_calls() {
    let text = long_text();
    let first = first_attempt(Some(1));
    let result = name_outcome(encode(&text, first, EcLevel::L));
    assert_eq!(result.as_ref().unwrap_err(), &EncodeError::DataTooLong);
    let second = next_attempt(first, &result).unwrap();
    assert_eq!(second, Attempt::Smallest);
    let result = name_outcome(encode(&text, second, EcLevel::L));
    assert!(result.as_ref().unwrap().version > 1);
    assert_eq!(next_attempt(second, &result), None);
}
