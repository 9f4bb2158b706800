use braided::{
    Braid, BraidIndex, BraidValidationError, IndexValidationError, Letter, Sign, Word,
    WordValidationError,
};

fn sample_data() -> Vec<(i64, Option<i64>, Sign)> {
    vec![
        (1, None, Sign::Positive),
        (2, Some(5), Sign::Negative),
        (3, None, Sign::Negative),
        (4, Some(5), Sign::Positive),
    ]
}

fn sample_letters() -> Vec<Letter> {
    vec![
        Letter::try_new(1, Some(3), Sign::Positive).unwrap(),
        Letter::try_new(2, None, Sign::Negative).unwrap(),
        Letter::try_new(1, Some(2), Sign::Positive).unwrap(),
    ]
}

#[test]
fn construction_from_a_valid_word_works_as_expected() {
    let valid_word = Word::try_new(sample_data()).clone_unwrap();
    let braid_index = valid_word.minimal_required_braid_index();

    let braid_from_borrow = Braid::from(&valid_word);
    assert_eq!(braid_from_borrow.word(), valid_word);

    let braid_from_move = Braid::from(valid_word);
    assert_eq!(braid_from_move.braid_index(), braid_index);
}

#[test]
fn valid_construction_with_new_is_successful() {
    let word = Word::try_new(sample_data()).clone_unwrap();
    assert!(Braid::try_new(None, word.clone()).is_ok());
    assert!(Braid::try_new(Some(10), word).is_ok());
}

#[test]
fn valid_construction_with_from_data_is_successful() {
    assert!(Braid::from_data(None, sample_data()).is_ok());
    assert!(Braid::from_data(Some(10), sample_data()).is_ok());
}

#[test]
fn valid_construction_with_try_from_letters_is_successful() {
    let letters = vec![
        Letter::try_new(1, None, Sign::Positive).unwrap(),
        Letter::try_new(2, Some(5), Sign::Negative).unwrap(),
        Letter::try_new(3, None, Sign::Negative).unwrap(),
        Letter::try_new(4, Some(5), Sign::Positive).unwrap(),
    ];

    let valid_braid = Braid::try_from_letters(&letters);

    assert!(valid_braid.is_ok());
}

#[test]
fn vaild_construction_of_trivial_braid_is_successful_and_works_as_expected() {
    let braid_index = 9;

    let trivial_braid = Braid::trivial(braid_index);

    assert!(trivial_braid.is_ok());
    assert_eq!(
        *trivial_braid,
        *Braid::try_new(Some(braid_index), Word::trivial())
    );
}

#[test]
fn default_braid_is_trivial_unknot() {
    let default_braid = Braid::default();

    assert_eq!(default_braid, Braid::trivial(1).clone_unwrap());
}

#[test]
fn into_iterator_returns_a_vector_of_underlying_letter_data() {
    let braid = Braid::from_data(None, sample_data()).clone_unwrap();
    let expected: Vec<(u16, Option<u16>, Sign)> = vec![
        (1, None, Sign::Positive),
        (2, Some(5), Sign::Negative),
        (3, None, Sign::Negative),
        (4, Some(5), Sign::Positive),
    ];
    assert_eq!(braid.data(), expected);
    for (actual, expected) in braid.into_iter().zip(expected) {
        assert_eq!(actual, expected);
    }
}

#[test]
fn braid_decompose_computes_as_expected() {
    let braid = Braid::from_data(
        None,
        vec![
            (1, Some(3), Sign::Positive),
            (2, None, Sign::Negative),
            (1, Some(2), Sign::Positive),
        ],
    )
    .clone_unwrap();
    let expected_decomposition = Braid::from_data(
        None,
        vec![
            (1, None, Sign::Negative),
            (2, None, Sign::Positive),
            (1, None, Sign::Positive),
            (2, None, Sign::Negative),
            (1, None, Sign::Positive),
        ],
    )
    .clone_unwrap();

    assert_eq!(braid.decompose(), expected_decomposition);
}

#[test]
fn braid_coalesce_computes_as_expected() {
    let braid = Braid::from_data(
        None,
        vec![
            (2, None, Sign::Positive),
            (1, None, Sign::Positive),
            (2, None, Sign::Negative),
            (2, None, Sign::Negative),
            (1, None, Sign::Positive),
        ],
    )
    .clone_unwrap();
    let expected_coalescence = Braid::from_data(
        None,
        vec![
            (1, Some(3), Sign::Positive),
            (2, None, Sign::Negative),
            (1, Some(2), Sign::Positive),
        ],
    )
    .clone_unwrap();

    assert_eq!(braid.coalesce(), expected_coalescence);
}

#[test]
fn deref_to_slice_of_letters_works_as_expected() {
    let letters = sample_letters();
    let braid = Braid::try_from_letters(&letters).clone_unwrap();

    assert_eq!(*braid, letters[..]);
}

#[test]
fn can_pass_braid_as_ref_where_ref_to_letter_slice_is_expected() {
    fn as_ref_tester<B: AsRef<[Letter]>>(b: B, v: &[Letter]) -> bool {
        b.as_ref() == v
    }
    let letters = sample_letters();
    let braid = Braid::try_from_letters(&letters).clone_unwrap();

    assert!(as_ref_tester(&braid, &letters));
}

#[test]
fn braid_properties_compute_as_expected() {
    let letters = sample_letters();
    let word = Word::try_from_letters(&letters).clone_unwrap();
    let braid = Braid::try_new(Some(7), word.clone()).clone_unwrap();

    assert_eq!(braid.braid_index(), BraidIndex::try_new(7).unwrap());
    assert_eq!(braid.word(), word);
    assert_eq!(braid.letters(), letters);
    assert_eq!(
        braid.minimal_required_braid_index(),
        BraidIndex::try_new(3).unwrap()
    );
    assert_eq!(braid.writhe(), 1);
    assert_eq!(braid.inverse().writhe(), -1);
    assert_eq!(braid.letter_length(), 3);
    assert_eq!(braid.artin_length(), 5);
    assert_eq!(braid.inverse().word(), word.inverse());
    assert!(!braid.is_trivial());
    assert!(Braid::trivial(7).clone_unwrap().is_trivial());
}

#[test]
fn invalid_construction_with_new_fails_as_expected() {
    let word = Word::try_new(sample_data()).clone_unwrap();
    assert_eq!(
        *Braid::try_new(Some(4), word.clone()),
        Err(BraidValidationError::IndexTooSmall {
            index: BraidIndex::try_new(4).unwrap(),
            minimal_required_index: BraidIndex::try_new(5).unwrap(),
        })
    );
    assert_eq!(
        *Braid::try_new(Some(0), word.clone()),
        Err(BraidValidationError::IndexValidation(
            IndexValidationError::Zero
        ))
    );
    assert!(matches!(
        *Braid::try_new(Some(-3), word),
        Err(BraidValidationError::IndexValidation(
            IndexValidationError::FromInt(_)
        ))
    ));
}

#[test]
fn invalid_construction_with_from_data_fails_as_expected() {
    assert_eq!(
        *Braid::from_data(Some(3), vec![(1, Some(1), Sign::Positive)]),
        Err(BraidValidationError::WordValidation(
            WordValidationError::from(Letter::new(1, Some(1), Sign::Positive).unwrap_err())
        ))
    );
    assert_eq!(
        *Braid::trivial(0),
        Err(BraidValidationError::IndexValidation(
            IndexValidationError::Zero
        ))
    );
}

#[test]
fn invalid_construction_with_try_from_letters_fails_as_expected() {
    let tall = Letter::try_new(1, Some(2i64.pow(15) + 1), Sign::Positive).unwrap();
    assert_eq!(
        *Braid::try_from_letters(&[tall, tall]),
        Err(BraidValidationError::WordValidation(
            WordValidationError::TooLong(2 * u16::MAX as usize)
        ))
    );
}

#[test]
fn braid_multiplication_keeps_the_index() {
    let braid = Braid::try_new(Some(9), Word::try_from_letters(&sample_letters()).clone_unwrap())
        .clone_unwrap();
    let other = Braid::from_data(Some(9), vec![(8, None, Sign::Positive)]).clone_unwrap();
    let product = (&braid * &other).clone_unwrap();
    assert_eq!(product.braid_index(), BraidIndex::try_new(9).unwrap());
    assert_eq!(product.letter_length(), 4);
}

#[test]
fn braid_multiplication_requires_equal_indices() {
    let nine = Braid::trivial(9).clone_unwrap();
    let two = Braid::from_data(None, vec![(1, None, Sign::Positive)]).clone_unwrap();
    assert_eq!(
        *(nine * two),
        Err(BraidValidationError::UnequalIndices {
            left: BraidIndex::try_new(9).unwrap(),
            right: BraidIndex::try_new(2).unwrap(),
        })
    );
}

#[test]
fn braid_times_letter_checks_the_index() {
    let braid = Braid::trivial(3).clone_unwrap();
    let letter = Letter::try_new(4, None, Sign::Positive).unwrap();
    assert_eq!(
        *(braid.clone() * letter),
        Err(BraidValidationError::IndexTooSmall {
            index: BraidIndex::try_new(3).unwrap(),
            minimal_required_index: BraidIndex::try_new(5).unwrap(),
        })
    );
    let small = Letter::try_new(2, None, Sign::Negative).unwrap();
    let product = (small * braid).clone_unwrap();
    assert_eq!(product.braid_index(), BraidIndex::try_new(3).unwrap());
    assert_eq!(product.letters(), vec![small]);
}

#[test]
fn braid_inverse_and_trivial_laws_on_examples() {
    let braid = Braid::try_new(Some(5), Word::try_from_letters(&sample_letters()).clone_unwrap())
        .clone_unwrap();
    let trivial = Braid::trivial(5).clone_unwrap();
    assert_eq!(*(&braid * braid.inverse()), Ok(trivial.clone()));
    assert_eq!(*(braid.inverse() * &braid), Ok(trivial.clone()));
    assert_eq!(*(&trivial * &braid), Ok(braid.clone()));
    assert_eq!(*(&braid * &trivial), Ok(braid.clone()));
}

#[test]
fn braid_results_multiply_and_propagate_errors() {
    let braid_result = Braid::from_data(Some(4), vec![(1, None, Sign::Positive)]);
    let word_result = Word::try_new(vec![(2, None, Sign::Negative)]);
    let product = braid_result.clone() * word_result.clone();
    assert_eq!(
        product.clone_unwrap().letters(),
        vec![
            Letter::try_new(1, None, Sign::Positive).unwrap(),
            Letter::try_new(2, None, Sign::Negative).unwrap(),
        ]
    );
    let failed = Braid::trivial(0);
    assert_eq!(
        *(failed.clone() * braid_result.clone()),
        Err(BraidValidationError::IndexValidation(IndexValidationError::Zero))
    );
    assert_eq!(
        *(&braid_result * Letter::try_new(0, None, Sign::Positive)),
        Err(BraidValidationError::WordValidation(WordValidationError::from(
            Letter::try_new(0, None, Sign::Positive).unwrap_err()
        )))
    );
}
