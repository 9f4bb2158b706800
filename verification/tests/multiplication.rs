use braided::{Letter, LetterResult, Sign, Word, WordResult, WordValidationError};

/// Builds the word of the given powers of letters, each a foot, an optional head and an
/// exponent, multiplying the powers together from the right.
fn word(spec: &[(i64, Option<i64>, i64)]) -> WordResult {
    match spec.split_first() {
        None => WordResult::from(Word::trivial()),
        Some(((foot, head, exponent), rest)) => {
            let sign = if *exponent < 0 {
                Sign::Negative
            } else {
                Sign::Positive
            };
            let power = match *Letter::try_new(*foot, *head, sign) {
                Ok(letter) => Word::try_from_letters(&vec![letter; exponent.unsigned_abs() as usize]),
                Err(e) => WordResult::from(WordValidationError::from(e)),
            };
            power * word(rest)
        }
    }
}

fn letter(foot: i64, head: Option<i64>, sign: Sign) -> LetterResult {
    Letter::try_new(foot, head, sign)
}

#[test]
fn valid_letter_multiplication_succeeds_and_computes_as_expected() {
    let l1 = Letter::try_new(1, None, Sign::Positive).unwrap();
    let l2 = Letter::try_new(2, Some(4), Sign::Negative).unwrap();

    for pair in [vec![l1, l1], vec![l1, l2], vec![l2, l1], vec![l2, l2]] {
        assert_eq!(
            *(pair[0] * pair[1]),
            *Word::try_from_letters(&pair)
        );
    }
}

#[test]
fn inverse_is_multiplicative_inverse() {
    let l1 = Letter::try_new(1, None, Sign::Positive).unwrap();
    let l2 = Letter::try_new(2, Some(4), Sign::Negative).unwrap();
    let l3 = Letter::try_new(1, Some(2), Sign::Negative).unwrap();

    for pair in [
        [l1, l1.inverse()],
        [l1.inverse(), l1],
        [l2, l2.inverse()],
        [l2.inverse(), l2],
        [l1, l3],
        [l3, l1],
    ] {
        assert_eq!(*(pair[0] * pair[1]), Ok(Word::trivial()));
    }
}

#[test]
fn invalid_letter_multiplication_fails() {
    let l1 = Letter::try_new(1, None, Sign::Positive).unwrap();
    let l2 = Letter::try_new(1, Some(2i64.pow(15) + 1), Sign::Negative).unwrap();
    let error = WordValidationError::TooLong(u16::MAX as usize + 1);

    assert_eq!(*(l1 * l2), Err(error));
    assert_eq!(*(l2 * l1), Err(error));
}

#[test]
fn can_multiply_letter_and_letter_result() {
    let l = letter(1, None, Sign::Positive).unwrap();
    let letter_result = letter(2, None, Sign::Negative);

    assert_eq!(*(l * letter_result), *word(&[(1, None, 1), (2, None, -1)]));
    assert_eq!(*(letter_result * l), *word(&[(2, None, -1), (1, None, 1)]));
}

#[test]
fn can_multiply_letter_result_and_letter_result() {
    let letter_result1 = letter(1, None, Sign::Positive);
    let letter_result2 = letter(2, None, Sign::Negative);

    assert_eq!(
        *(letter_result1 * letter_result2),
        *word(&[(1, None, 1), (2, None, -1)])
    );
}

#[test]
fn multiplication_with_error_operand_propagates_error() {
    let l = letter(1, None, Sign::Positive).unwrap();
    let valid_letter_result = letter(2, None, Sign::Negative);
    let invalid_letter_result = letter(0, None, Sign::Positive);
    let error = WordValidationError::from(invalid_letter_result.unwrap_err());

    assert_eq!(*(l * invalid_letter_result), Err(error));
    assert_eq!(*(invalid_letter_result * l), Err(error));
    assert_eq!(*(valid_letter_result * invalid_letter_result), Err(error));
    assert_eq!(*(invalid_letter_result * valid_letter_result), Err(error));
    assert_eq!(
        *(invalid_letter_result * letter(2, Some(1), Sign::Negative)),
        Err(error)
    );
}

#[test]
fn valid_multiplication_with_word_succeeds_and_computes_as_expected() {
    let letters1 = vec![
        Letter::try_new(1, Some(3), Sign::Positive).unwrap(),
        Letter::try_new(2, None, Sign::Negative).unwrap(),
        Letter::try_new(1, Some(2), Sign::Positive).unwrap(),
    ];
    let letters2 = vec![
        Letter::try_new(3, None, Sign::Negative).unwrap(),
        Letter::try_new(2, Some(7), Sign::Negative).unwrap(),
    ];
    let word1 = Word::try_from_letters(&letters1).clone_unwrap();
    let word2 = Word::try_from_letters(&letters2).clone_unwrap();

    assert_eq!(
        *(word1.clone() * word2.clone()),
        *Word::try_from_letters(&[letters1.clone(), letters2.clone()].concat())
    );
    assert_eq!(
        *(word2 * word1),
        *Word::try_from_letters(&[letters2, letters1].concat())
    );
}

#[test]
fn trivial_word_is_multiplicative_identity() {
    let l = Letter::try_new(1, None, Sign::Positive).unwrap();
    let single = Word::try_from_letters(&[l]).clone_unwrap();

    assert_eq!(*(l * Word::trivial()), Ok(single.clone()));
    assert_eq!(*(Word::trivial() * l), Ok(single));

    let w = word(&[(1, Some(3), 1), (2, None, -1), (1, Some(2), 1)]).clone_unwrap();
    assert_eq!(*(w.clone() * Word::trivial()), Ok(w.clone()));
    assert_eq!(*(Word::trivial() * w.clone()), Ok(w));
}

#[test]
fn multiplication_with_inverse_yields_trivial() {
    let w = word(&[(1, Some(3), 1), (2, None, -1), (1, Some(2), 1)]).clone_unwrap();

    assert_eq!(*(w.clone() * w.inverse()), Ok(Word::trivial()));
    assert_eq!(*(w.inverse() * w.clone()), Ok(Word::trivial()));
}

#[test]
fn cancellation_only_happens_at_the_junction() {
    let a = word(&[(1, None, 1), (2, None, 1)]).clone_unwrap();
    let b = word(&[(2, None, -1), (3, None, 1), (1, None, -1)]).clone_unwrap();
    assert_eq!(
        *(a * b),
        *word(&[(1, None, 1), (3, None, 1), (1, None, -1)])
    );
}

#[test]
fn invalid_mult_with_letter_fails() {
    let short_word = Word::try_new(vec![
        (1, Some(3), Sign::Positive),
        (2, None, Sign::Negative),
        (1, Some(2), Sign::Positive),
    ])
    .clone_unwrap();
    let long_word = Word::try_from_letters(&vec![
        Letter::try_new(1, None, Sign::Positive).unwrap();
        u16::MAX as usize
    ])
    .clone_unwrap();
    let short_letter = Letter::try_new(2, None, Sign::Negative).unwrap();
    let tall_letter = Letter::try_new(1, Some(2i64.pow(15) + 1), Sign::Positive).unwrap();

    let invalid_products = [
        (short_word.clone() * tall_letter, u16::MAX as usize + 5),
        (tall_letter * short_word, u16::MAX as usize + 5),
        (long_word.clone() * short_letter, u16::MAX as usize + 1),
        (short_letter * long_word.clone(), u16::MAX as usize + 1),
        (long_word.clone() * tall_letter, 2 * (u16::MAX as usize)),
        (tall_letter * long_word, 2 * (u16::MAX as usize)),
    ];

    for (invalid_product, length) in invalid_products {
        assert_eq!(*invalid_product, Err(WordValidationError::TooLong(length)));
    }
}

#[test]
fn invalid_mult_with_word_fails() {
    let short_word = Word::try_new(vec![
        (1, Some(3), Sign::Positive),
        (2, None, Sign::Negative),
        (1, Some(2), Sign::Positive),
    ])
    .clone_unwrap();
    let long_word = Word::try_from_letters(&vec![
        Letter::try_new(1, None, Sign::Positive).unwrap();
        u16::MAX as usize
    ])
    .clone_unwrap();

    let invalid_products = [
        (short_word.clone() * long_word.clone(), u16::MAX as usize + 5),
        (long_word.clone() * short_word.clone(), u16::MAX as usize + 5),
        (long_word.clone() * long_word.clone(), 2 * (u16::MAX as usize)),
    ];
    for (invalid_product, length) in invalid_products {
        assert_eq!(*invalid_product, Err(WordValidationError::TooLong(length)));
    }
}

#[test]
fn can_multiply_borrowed_word_and_borrowed_word() {
    let word1 = word(&[(2, None, -1), (1, Some(3), 2)]).clone_unwrap();
    let word2 = word(&[(1, None, 7), (2, None, -3)]).clone_unwrap();

    assert_eq!(
        *(&word1 * &word2),
        *word(&[(2, None, -1), (1, Some(3), 2), (1, None, 7), (2, None, -3)])
    );
}

#[test]
fn can_multiply_word_and_letter_result() {
    let letter_result = letter(1, None, Sign::Positive);
    let w = word(&[(2, None, -1), (1, Some(3), 2)]).clone_unwrap();
    let right = word(&[(2, None, -1), (1, Some(3), 2), (1, None, 1)]);
    let left = word(&[(1, None, 1), (2, None, -1), (1, Some(3), 2)]);

    assert_eq!(*(w.clone() * letter_result), *right);
    assert_eq!(*(&w * letter_result), *right);
    assert_eq!(*(letter_result * w.clone()), *left);
    assert_eq!(*(letter_result * &w), *left);
}

#[test]
fn can_multiply_word_result_and_word_result() {
    let word_result1 = word(&[(1, None, 1)]);
    let word_result2 = word(&[(2, None, -1), (1, Some(3), 2)]);

    assert_eq!(
        *(word_result1 * word_result2),
        *word(&[(1, None, 1), (2, None, -1), (1, Some(3), 2)])
    );
}

#[test]
fn can_multiply_letter_with_borrowed_word() {
    let l = letter(1, None, Sign::Positive).unwrap();
    let w = word(&[(2, None, -1), (1, Some(3), 2)]).clone_unwrap();

    assert_eq!(*(l * &w), *word(&[(1, None, 1), (2, None, -1), (1, Some(3), 2)]));
    assert_eq!(*(&w * l), *word(&[(2, None, -1), (1, Some(3), 2), (1, None, 1)]));
}

#[test]
fn can_multiply_borrowed_word_and_word() {
    let word1 = word(&[(2, None, -1), (1, Some(3), 2)]).clone_unwrap();
    let word2 = word(&[(1, None, 7), (2, None, -3)]).clone_unwrap();
    let word3 = word(&[(1, Some(3), 4)]).clone_unwrap();

    assert_eq!(
        *(&word1 * word2),
        *word(&[(2, None, -1), (1, Some(3), 2), (1, None, 7), (2, None, -3)])
    );
    assert_eq!(
        *(word3 * &word1),
        *word(&[(1, Some(3), 4), (2, None, -1), (1, Some(3), 2)])
    );
}

#[test]
fn can_multiply_letter_and_word_result() {
    let l = letter(1, None, Sign::Positive).unwrap();
    let word_result = word(&[(2, None, -1), (1, Some(3), 2)]);

    assert_eq!(
        *(word_result.clone() * l),
        *word(&[(2, None, -1), (1, Some(3), 2), (1, None, 1)])
    );
    assert_eq!(
        *(l * word_result.clone()),
        *word(&[(1, None, 1), (2, None, -1), (1, Some(3), 2)])
    );
    assert_eq!(
        *(&word_result * l),
        *word(&[(2, None, -1), (1, Some(3), 2), (1, None, 1)])
    );
}

#[test]
fn can_multiply_word_and_word_result() {
    let w = word(&[(1, None, 1)]).clone_unwrap();
    let word_result = word(&[(2, None, -1), (1, Some(3), 2)]);

    assert_eq!(
        *(word_result.clone() * w.clone()),
        *word(&[(2, None, -1), (1, Some(3), 2), (1, None, 1)])
    );
    assert_eq!(
        *(word_result.clone() * &w),
        *word(&[(2, None, -1), (1, Some(3), 2), (1, None, 1)])
    );
    assert_eq!(
        *(w.clone() * word_result.clone()),
        *word(&[(1, None, 1), (2, None, -1), (1, Some(3), 2)])
    );
    assert_eq!(
        *(&w * word_result),
        *word(&[(1, None, 1), (2, None, -1), (1, Some(3), 2)])
    );
}

#[test]
fn can_multiply_letter_result_and_word_result() {
    let letter_result = letter(1, None, Sign::Positive);
    let word_result = word(&[(2, None, -1), (1, Some(3), 2)]);

    assert_eq!(
        *(word_result.clone() * letter_result),
        *word(&[(2, None, -1), (1, Some(3), 2), (1, None, 1)])
    );
    assert_eq!(
        *(letter_result * word_result),
        *word(&[(1, None, 1), (2, None, -1), (1, Some(3), 2)])
    );
}

#[test]
fn word_result_errors_propagate() {
    let failed = word(&[(0, None, 1)]);
    let w = word(&[(1, None, 1)]).clone_unwrap();
    let error = failed.clone_unwrap_err();
    assert_eq!(*(failed.clone() * w.clone()), Err(error));
    assert_eq!(*(w * &failed), Err(error));
    let too_long = Word::try_from_letters(&vec![
        Letter::try_new(1, Some(2i64.pow(15) + 1), Sign::Positive).unwrap();
        2
    ]);
    assert_eq!(
        *(failed * too_long),
        Err(error)
    );
}
