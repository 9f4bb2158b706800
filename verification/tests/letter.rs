use braided::{
    ArtinGenerator, BandGenerator, BraidIndex, Letter, LetterValidationError, Sign, Strand,
};

#[test]
fn letter_valid_inputs_yield_successful_construction() {
    let valid_letters = [
        Letter::try_new(1, None, Sign::Positive),
        Letter::try_new(2, Some(4), Sign::Negative),
        Letter::try_new(u16::from(Strand::try_new(5).unwrap()) as i64, None, Sign::Negative),
        Letter::try_new(
            6,
            Some(u16::from(Strand::try_new(7).unwrap()) as i64),
            Sign::Positive,
        ),
        Letter::try_new(
            u16::from(Strand::try_new(8).unwrap()) as i64,
            Some(u16::from(Strand::try_new(30).unwrap()) as i64),
            Sign::Negative,
        ),
        Letter::try_new(u16::MAX as i64 - 1, None, Sign::Positive),
        Letter::try_new(1, Some(2i64.pow(15) + 1), Sign::Negative),
    ];

    for letter in valid_letters.iter() {
        assert!(letter.is_ok());
    }
}

#[test]
fn conversion_from_generators_works_as_expected() {
    let letter_from_artin = Letter::from(ArtinGenerator::try_new(1, Sign::Positive).unwrap());
    let letter_from_band = Letter::from(BandGenerator::new(3, 5, Sign::Negative).unwrap());

    assert_eq!(
        letter_from_artin,
        Letter::new(1, None, Sign::Positive).unwrap()
    );
    assert_eq!(
        letter_from_band,
        Letter::new(3, Some(5), Sign::Negative).unwrap()
    );
}

#[test]
fn letter_properties_compute_as_expected() {
    let input_data: [(i64, Option<i64>, Sign); 3] = [
        (1, None, Sign::Positive),
        (3, Some(5), Sign::Negative),
        (6, Some(7), Sign::Positive),
    ];

    for (foot, head, sign) in input_data {
        let letter = Letter::new(foot, head, sign).unwrap();
        let top = head.unwrap_or(foot + 1);

        assert_eq!(letter.sign(), sign);
        assert_eq!(letter.foot(), Strand::try_new(foot).unwrap());
        assert_eq!(letter.head(), Strand::try_new(top).unwrap());
        assert_eq!(letter.inverse(), Letter::new(foot, head, -sign).unwrap());
        assert_eq!(letter.is_artin(), top - foot == 1);
        assert_eq!(letter.height() as i64, top - foot);
        assert_eq!(letter.artin_length() as i64, 2 * (top - foot) - 1);
        assert_eq!(
            letter.minimal_required_braid_index(),
            BraidIndex::try_new(top).unwrap()
        );
    }
}

#[test]
fn equality_comparison_behaves_as_expected() {
    let artin_letter = Letter::new(1, None, Sign::Positive).unwrap();
    let other_artin_letter = Letter::new(2, None, Sign::Positive).unwrap();
    let band_letter = Letter::new(1, Some(2), Sign::Positive).unwrap();
    let other_band_letter = Letter::new(1, Some(2), Sign::Negative).unwrap();

    assert!(artin_letter == artin_letter);
    assert!(band_letter == band_letter);
    assert!(artin_letter == band_letter);
    assert!(band_letter == artin_letter);

    assert!(artin_letter != other_artin_letter);
    assert!(band_letter != other_artin_letter);
    assert!(artin_letter != other_band_letter);
    assert!(band_letter != other_band_letter);
}

#[test]
fn invalid_letter_inputs_yield_failed_construction() {
    assert_eq!(
        Letter::new(0, None, Sign::Positive),
        Err(LetterValidationError::from(
            ArtinGenerator::try_new(0, Sign::Positive).unwrap_err()
        ))
    );
    assert_eq!(
        Letter::new(4, Some(1), Sign::Negative),
        Err(LetterValidationError::from(
            BandGenerator::new(4, 1, Sign::Negative).unwrap_err()
        ))
    );
}

#[test]
fn letter_decompose_gives_artin_letters() {
    let band_letter = Letter::new(1, Some(3), Sign::Positive).unwrap();
    assert_eq!(
        band_letter.decompose(),
        vec![
            Letter::new(1, None, Sign::Negative).unwrap(),
            Letter::new(2, None, Sign::Positive).unwrap(),
            Letter::new(1, None, Sign::Positive).unwrap(),
        ]
    );
    let artin_letter = Letter::new(4, None, Sign::Negative).unwrap();
    assert_eq!(artin_letter.decompose(), vec![artin_letter]);
}
