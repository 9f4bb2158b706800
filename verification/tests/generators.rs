use braided::{
    artin_to_band, band_to_artin, ArtinGenerator, ArtinValidationError, BandGenerator,
    BandValidationError, FromArtinError, Letter, Sign, StaircaseQuadrant, Strand, MAX_BAND_HEIGHT,
};

fn artin(foot: i64, sign: Sign) -> ArtinGenerator {
    ArtinGenerator::try_new(foot, sign).unwrap()
}

fn band(foot: i64, head: i64, sign: Sign) -> BandGenerator {
    BandGenerator::new(foot, head, sign).unwrap()
}

fn band_word() -> Vec<BandGenerator> {
    vec![
        band(1, 4, Sign::Positive),
        band(2, 4, Sign::Negative),
        band(2, 5, Sign::Negative),
        band(1, 2, Sign::Negative),
        band(1, 3, Sign::Positive),
        band(3, 5, Sign::Positive),
    ]
}

fn artin_word_with_band_crossings_at_top_of_band() -> Vec<ArtinGenerator> {
    vec![
        artin(1, Sign::Negative),
        artin(2, Sign::Negative),
        artin(3, Sign::Positive),
        artin(2, Sign::Positive),
        artin(1, Sign::Positive),
        artin(2, Sign::Negative),
        artin(3, Sign::Negative),
        artin(2, Sign::Positive),
        artin(2, Sign::Negative),
        artin(3, Sign::Negative),
        artin(4, Sign::Negative),
        artin(3, Sign::Positive),
        artin(2, Sign::Positive),
        artin(1, Sign::Negative),
        artin(1, Sign::Negative),
        artin(2, Sign::Positive),
        artin(1, Sign::Positive),
        artin(3, Sign::Negative),
        artin(4, Sign::Positive),
        artin(3, Sign::Positive),
    ]
}

fn artin_word_with_band_crossings_at_arbitrary_positions() -> Vec<ArtinGenerator> {
    vec![
        artin(3, Sign::Positive),
        artin(2, Sign::Positive),
        artin(1, Sign::Positive),
        artin(2, Sign::Negative),
        artin(3, Sign::Negative),
        artin(3, Sign::Positive),
        artin(2, Sign::Negative),
        artin(3, Sign::Negative),
        artin(4, Sign::Positive),
        artin(2, Sign::Negative),
        artin(3, Sign::Negative),
        artin(4, Sign::Negative),
        artin(2, Sign::Positive),
        artin(1, Sign::Negative),
        artin(2, Sign::Positive),
        artin(1, Sign::Positive),
        artin(2, Sign::Negative),
        artin(4, Sign::Positive),
        artin(3, Sign::Positive),
        artin(4, Sign::Negative),
    ]
}

#[test]
fn artin_valid_inputs_yield_successful_construction() {
    let valid_artin_generators = [
        ArtinGenerator::try_new(1, Sign::Negative),
        ArtinGenerator::try_new(2, Sign::Positive),
        ArtinGenerator::try_new(3, Sign::Negative),
        ArtinGenerator::try_from_band(BandGenerator::new(4, 5, Sign::Positive).unwrap()),
        ArtinGenerator::try_from_letter(Letter::try_new(6, None, Sign::Negative).unwrap()),
        ArtinGenerator::try_from_letter(Letter::try_new(7, Some(8), Sign::Positive).unwrap()),
        ArtinGenerator::try_new(u16::from(Strand::try_new(8).unwrap()) as i64, Sign::Negative),
        ArtinGenerator::try_new(u16::MAX as i64 - 1, Sign::Positive),
    ];
    for generator in valid_artin_generators.iter() {
        assert!(generator.is_ok());
    }
}

#[test]
fn artin_properties_and_failures() {
    let generator = artin(10, Sign::Positive);
    assert_eq!(generator.foot(), Strand::try_new(10).unwrap());
    assert_eq!(generator.head(), Strand::try_new(11).unwrap());
    assert_eq!(generator.sign(), Sign::Positive);
    assert_eq!(generator.inverse(), artin(10, Sign::Negative));
    assert_eq!(u16::from(generator.minimal_required_braid_index()), 11);
    assert_eq!(
        *ArtinGenerator::try_new(u16::MAX as i64, Sign::Positive),
        Err(ArtinValidationError::InvalidHead)
    );
    let tall = band(1, 3, Sign::Positive);
    assert_eq!(
        *ArtinGenerator::try_from_band(tall),
        Err(ArtinValidationError::FromBand(tall))
    );
}

#[test]
fn valid_inputs_to_new_yield_successful_construction() {
    let valid_bands = [
        BandGenerator::new(3, 4, Sign::Positive),
        BandGenerator::new(1, MAX_BAND_HEIGHT as i64 + 1, Sign::Negative),
        BandGenerator::new(2, 5, Sign::Positive),
        BandGenerator::new(
            u16::from(Strand::try_new(9).unwrap()) as i64,
            40,
            Sign::Negative,
        ),
        BandGenerator::new(-(-3), u16::from(Strand::try_new(10).unwrap()) as i64, Sign::Positive),
    ];

    for band in valid_bands.iter() {
        assert!(band.is_ok());
    }
}

#[test]
fn valid_inputs_to_from_yield_expected_construction() {
    let expected_band = BandGenerator::new(1, 2, Sign::Positive).unwrap();
    let test_bands = [
        BandGenerator::from(ArtinGenerator::try_new(1, Sign::Positive).unwrap()),
        BandGenerator::from(Letter::new(1, None, Sign::Positive).unwrap()),
        BandGenerator::from(Letter::new(1, Some(2), Sign::Positive).unwrap()),
    ];

    for band in test_bands {
        assert_eq!(band, expected_band);
    }
}

#[test]
fn invalid_inputs_to_new_yield_failure() {
    assert!(matches!(
        BandGenerator::new(4, 4, Sign::Positive),
        Err(BandValidationError::FootOnHead(_))
    ));
    assert!(matches!(
        BandGenerator::new(4, 1, Sign::Positive),
        Err(BandValidationError::FootOverHead { .. })
    ));
    assert!(matches!(
        BandGenerator::new(1, MAX_BAND_HEIGHT as i64 + 2, Sign::Positive),
        Err(BandValidationError::TooTall(_))
    ));
}

#[test]
fn coalesce_recovers_a_decomposed_band() {
    for band in band_word() {
        assert_eq!(*BandGenerator::coalesce(&band.decompose()), Ok(band));
    }
    assert_eq!(
        *BandGenerator::coalesce(&[]),
        Err(BandValidationError::FromArtin(FromArtinError::NoGenerators))
    );
    assert_eq!(
        *BandGenerator::coalesce(&[artin(1, Sign::Positive), artin(2, Sign::Positive)]),
        Err(BandValidationError::FromArtin(FromArtinError::EvenGenerators))
    );
}

#[test]
fn band_properties_compute_as_expected() {
    let b = band(3, 7, Sign::Negative);
    assert_eq!(b.height(), 4);
    assert_eq!(b.artin_length(), 7);
    assert!(!b.is_artin());
    assert_eq!(u16::from(b.minimal_required_braid_index()), 7);
    assert_eq!(b.inverse(), band(3, 7, Sign::Positive));
    assert_eq!(
        b.decompose(),
        vec![
            artin(3, Sign::Negative),
            artin(4, Sign::Negative),
            artin(5, Sign::Negative),
            artin(6, Sign::Negative),
            artin(5, Sign::Positive),
            artin(4, Sign::Positive),
            artin(3, Sign::Positive),
        ]
    );
}

#[test]
fn successful_conversion_from_artin_to_band() {
    assert_eq!(
        artin_to_band(&artin_word_with_band_crossings_at_top_of_band()),
        band_word()
    );
    assert_eq!(
        artin_to_band(&artin_word_with_band_crossings_at_arbitrary_positions()),
        band_word()
    );
}

#[test]
fn successful_conversion_from_band_to_artin() {
    let band_word = band_word();
    assert_eq!(
        band_to_artin(&band_word),
        artin_word_with_band_crossings_at_top_of_band()
    );
}

#[test]
fn band_to_artin_is_left_inverse_of_artin_to_band() {
    let band_word = band_word();
    let converted_band_word = band_to_artin(&band_word);
    assert_eq!(artin_to_band(&band_to_artin(&band_word)), band_word);
    assert_eq!(
        band_to_artin(&artin_to_band(&converted_band_word)),
        converted_band_word
    );
}

#[test]
fn valid_inputs_to_coalesce_yield_successful_construction() {
    assert_eq!(
        *BandGenerator::coalesce(&[artin(1, Sign::Negative)]),
        BandGenerator::new(1, 2, Sign::Negative)
    );

    let test_band = BandGenerator::new(1, 4, Sign::Positive);
    let valid_bands = [
        BandGenerator::coalesce(&[
            artin(1, Sign::Negative),
            artin(2, Sign::Negative),
            artin(3, Sign::Positive),
            artin(2, Sign::Positive),
            artin(1, Sign::Positive),
        ]),
        BandGenerator::coalesce(&[
            artin(3, Sign::Positive),
            artin(2, Sign::Positive),
            artin(1, Sign::Positive),
            artin(2, Sign::Negative),
            artin(3, Sign::Negative),
        ]),
        BandGenerator::coalesce(&[
            artin(3, Sign::Positive),
            artin(1, Sign::Negative),
            artin(2, Sign::Positive),
            artin(1, Sign::Positive),
            artin(3, Sign::Negative),
        ]),
        BandGenerator::coalesce(&[
            artin(1, Sign::Negative),
            artin(3, Sign::Positive),
            artin(2, Sign::Positive),
            artin(1, Sign::Positive),
            artin(3, Sign::Negative),
        ]),
    ];

    for band in valid_bands {
        assert_eq!(*band, test_band);
    }
}

#[test]
fn invalid_inputs_to_coalesce_yield_failure() {
    let invalid_artin_lists: Vec<(Vec<ArtinGenerator>, FromArtinError)> = vec![
        (vec![], FromArtinError::NoGenerators),
        (
            vec![artin(1, Sign::Positive), artin(2, Sign::Negative)],
            FromArtinError::EvenGenerators,
        ),
        (
            vec![artin(1, Sign::Positive); u16::MAX as usize + 2],
            FromArtinError::TooManyGenerators(u16::MAX as usize + 2),
        ),
        (
            vec![
                artin(2, Sign::Negative),
                artin(1, Sign::Negative),
                artin(3, Sign::Positive),
                artin(2, Sign::Positive),
                artin(1, Sign::Positive),
            ],
            FromArtinError::IncontiguousSteps {
                quadrant: StaircaseQuadrant::LowerLeft,
                next_step: artin(1, Sign::Negative),
                previous_step: artin(3, Sign::Positive),
            },
        ),
        (
            vec![
                artin(2, Sign::Positive),
                artin(3, Sign::Positive),
                artin(1, Sign::Positive),
                artin(2, Sign::Negative),
                artin(3, Sign::Negative),
            ],
            FromArtinError::IncontiguousSteps {
                quadrant: StaircaseQuadrant::UpperLeft,
                next_step: artin(3, Sign::Positive),
                previous_step: artin(1, Sign::Positive),
            },
        ),
        (
            vec![
                artin(1, Sign::Negative),
                artin(2, Sign::Negative),
                artin(3, Sign::Positive),
                artin(1, Sign::Positive),
                artin(2, Sign::Positive),
            ],
            FromArtinError::IncontiguousSteps {
                quadrant: StaircaseQuadrant::LowerRight,
                next_step: artin(1, Sign::Positive),
                previous_step: artin(3, Sign::Positive),
            },
        ),
        (
            vec![
                artin(3, Sign::Positive),
                artin(2, Sign::Positive),
                artin(1, Sign::Positive),
                artin(3, Sign::Negative),
                artin(2, Sign::Negative),
            ],
            FromArtinError::IncontiguousSteps {
                quadrant: StaircaseQuadrant::UpperRight,
                next_step: artin(3, Sign::Negative),
                previous_step: artin(1, Sign::Positive),
            },
        ),
        (
            vec![
                artin(4, Sign::Positive),
                artin(2, Sign::Negative),
                artin(3, Sign::Positive),
                artin(2, Sign::Positive),
                artin(1, Sign::Positive),
            ],
            FromArtinError::ImbalancedStaircases(1),
        ),
    ];

    for (invalid_artin_list, error) in invalid_artin_lists {
        assert_eq!(
            *BandGenerator::coalesce(&invalid_artin_list),
            Err(BandValidationError::FromArtin(error))
        );
    }
}
