use braided::{Letter, Sign, Word, WordResult, WordValidationError};

fn letters() -> Vec<Letter> {
    vec![
        Letter::try_new(1, Some(3), Sign::Positive).unwrap(),
        Letter::try_new(2, None, Sign::Negative).unwrap(),
        Letter::try_new(1, Some(2), Sign::Positive).unwrap(),
    ]
}

#[test]
fn construction_with_try_from_letters_succeeds() {
    let word = Word::try_from_letters(&letters());
    assert!(word.is_ok());
    assert_eq!(word.clone_unwrap().letters(), letters());
}

#[test]
fn valid_construction_with_new_succeeds_and_is_as_expected() {
    let letter_data = vec![(1, None, Sign::Positive), (2, Some(5), Sign::Negative)];
    let valid_word = Word::new(letter_data.clone());
    assert!(valid_word.is_ok());

    let letters: Vec<Letter> = letter_data
        .iter()
        .map(|(foot, head, sign)| Letter::new(*foot, *head, *sign).unwrap())
        .collect();
    assert_eq!(valid_word, Word::try_from_letters(&letters).into_result());
}

#[test]
fn trivial_works_as_expected() {
    let trivial = Word::trivial();

    assert_eq!(trivial, Word::new(Vec::new()).unwrap());
}

#[test]
fn default_word_is_trivial() {
    assert_eq!(Word::default(), Word::trivial());
}

#[test]
fn word_decompose_computes_as_expected() {
    let word = Word::new(vec![
        (1, Some(3), Sign::Positive),
        (2, None, Sign::Negative),
        (1, Some(2), Sign::Positive),
    ])
    .unwrap();
    let expected_decomposition = Word::new(vec![
        (1, None, Sign::Negative),
        (2, None, Sign::Positive),
        (1, None, Sign::Positive),
        (2, None, Sign::Negative),
        (1, None, Sign::Positive),
    ])
    .unwrap();

    assert_eq!(word.decompose(), expected_decomposition);
}

#[test]
fn word_coalesce_computes_as_expected() {
    let word = Word::new(vec![
        (2, None, Sign::Positive),
        (1, None, Sign::Positive),
        (2, None, Sign::Negative),
        (2, None, Sign::Negative),
        (1, None, Sign::Positive),
    ])
    .unwrap();
    let expected_coalescence = Word::new(vec![
        (1, Some(3), Sign::Positive),
        (2, None, Sign::Negative),
        (1, Some(2), Sign::Positive),
    ])
    .unwrap();

    assert_eq!(word.coalesce(), expected_coalescence);
}

#[test]
fn word_properties_compute_as_expected() {
    let letters = letters();
    let word = Word::try_from_letters(&letters).clone_unwrap();

    assert_eq!(word.letters(), letters);
    assert_eq!(
        word.inverse(),
        Word::try_from_letters(
            &letters
                .iter()
                .rev()
                .map(|l| l.inverse())
                .collect::<Vec<Letter>>()
        )
        .clone_unwrap()
    );
    assert!(!word.is_trivial());
    assert!(Word::trivial().is_trivial());
    assert_eq!(word.length() as usize, letters.len());
    assert_eq!(
        word.artin_length(),
        letters.iter().map(|l| l.artin_length()).sum::<u16>()
    );
    assert_eq!(
        word.minimal_required_braid_index(),
        letters
            .iter()
            .map(|l| l.minimal_required_braid_index())
            .max()
            .unwrap()
    );
    assert_eq!(u16::from(Word::trivial().minimal_required_braid_index()), 1);
}

#[test]
fn word_data_lists_the_letters() {
    let word = Word::try_from_letters(&letters()).clone_unwrap();
    assert_eq!(
        word.data(),
        vec![
            (1, Some(3), Sign::Positive),
            (2, None, Sign::Negative),
            (1, Some(2), Sign::Positive),
        ]
    );
}

#[test]
fn into_iterator_works_as_expected() {
    let letter_data = [
        (1, Some(3), Sign::Positive),
        (2, None, Sign::Negative),
        (1, Some(2), Sign::Positive),
    ];
    let word = Word::new(letter_data.to_vec()).unwrap();

    let mut count = 0;
    for (actual, (foot, head, sign)) in word.into_iter().zip(letter_data) {
        assert_eq!(actual, (foot as u16, head.map(|h| h as u16), sign));
        count += 1;
    }
    assert_eq!(count, 3);
}

#[test]
fn deref_yields_slice_of_letters() {
    let letters = letters();
    let word = Word::try_from_letters(&letters).clone_unwrap();

    assert_eq!(*word, letters[..]);
}

#[test]
fn word_can_be_passed_as_ref_to_slice_of_letters() {
    fn as_ref_tester<W: AsRef<[Letter]>>(w: W, v: &[Letter]) -> bool {
        w.as_ref() == v
    }
    let letters = letters();
    let word = Word::try_from_letters(&letters).clone_unwrap();
    assert!(as_ref_tester(&word, &letters));
}

#[test]
fn too_long_words_are_rejected() {
    let tall = Letter::try_new(1, Some(2i64.pow(15) + 1), Sign::Positive).unwrap();
    let short = Letter::try_new(1, None, Sign::Positive).unwrap();
    assert_eq!(tall.artin_length(), u16::MAX);
    assert!(Word::try_from_letters(&[tall]).is_ok());
    assert_eq!(
        *Word::try_from_letters(&[tall, short]),
        Err(WordValidationError::TooLong(u16::MAX as usize + 1))
    );
    assert_eq!(
        *Word::try_from_letters(&[tall, tall]),
        Err(WordValidationError::TooLong(2 * u16::MAX as usize))
    );
}

#[test]
fn word_try_new_reports_the_first_invalid_letter() {
    let result: WordResult = Word::try_new(vec![
        (1, None, Sign::Positive),
        (4, Some(2), Sign::Positive),
        (0, None, Sign::Positive),
    ]);
    assert_eq!(
        *result,
        Err(WordValidationError::from(
            Letter::new(4, Some(2), Sign::Positive).unwrap_err()
        ))
    );
}
