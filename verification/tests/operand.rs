use braided::{
    Braid, BraidIndex, BraidResult, BraidValidationError, Data, Letter, MulOperand, MulResult,
    Sign, Strand, Word, WordResult, WordValidationError,
};

fn letter(foot: i64, sign: Sign) -> Letter {
    Letter::try_new(foot, None, sign).unwrap()
}

#[test]
fn operands_of_letters_and_words_multiply_to_words() {
    let l = letter(1, Sign::Positive);
    let w = Word::try_from_letters(&[letter(2, Sign::Negative)]).clone_unwrap();
    let product = MulOperand::Letter(l) * MulOperand::Word(w.clone());
    assert_eq!(product, MulResult::WordResult(l * w.clone()));
    assert_eq!(
        MulOperand::Letter(l) * MulOperand::Letter(l.inverse()),
        MulResult::WordResult(WordResult::from(Word::trivial()))
    );
    let nested = MulOperand::MulResult(product) * MulOperand::WordResult(WordResult::from(w));
    assert!(matches!(nested, MulResult::WordResult(_)));
}

#[test]
fn operands_with_a_braid_multiply_to_braids() {
    let braid = Braid::trivial(4).clone_unwrap();
    let l = letter(2, Sign::Positive);
    let product = MulOperand::Braid(braid.clone()) * MulOperand::Letter(l);
    assert_eq!(product.braid_index(), BraidIndex::try_new(4).unwrap());
    assert_eq!(product, MulResult::BraidResult(braid.clone() * l));

    let failed = MulOperand::LetterResult(Letter::try_new(0, None, Sign::Positive));
    let error = Letter::try_new(0, None, Sign::Positive).unwrap_err();
    assert_eq!(
        failed * MulOperand::BraidResult(BraidResult::from(braid)),
        MulResult::BraidResult(BraidResult::from(BraidValidationError::from(
            WordValidationError::from(error)
        )))
    );
}

#[test]
fn data_addition_widens_when_needed() {
    assert_eq!(Data::U8(200) + 50, Data::U8(250));
    assert_eq!(Data::U8(200) + 100, Data::U16(300));
    assert_eq!(Data::U8(200) + 65500, Data::U32(65700));
    assert_eq!(Data::U16(65535) + 1, Data::U32(65536));
    assert_eq!(Data::U32(u32::MAX) + 1, Data::U64(u32::MAX as u64 + 1));
    assert_eq!(Data::U64(u64::MAX) + 2, Data::U128(u64::MAX as u128 + 2));
    assert_eq!(Data::I8(100) + 27, Data::I8(127));
    assert_eq!(Data::I8(100) + 28, Data::I16(128));
    assert_eq!(Data::I8(-5) + 3, Data::I32(-2));
    assert_eq!(Data::I16(-5) + 3, Data::I32(-2));
    assert_eq!(Data::I16(32000) + 1000, Data::I32(33000));
    assert_eq!(Data::I32(i32::MAX) + 1, Data::I64(i32::MAX as i64 + 1));
    assert_eq!(Data::I64(i64::MAX) + 1, Data::I128(i64::MAX as i128 + 1));
    assert_eq!(Data::I128(i128::MAX) + 1, Data::U128(i128::MAX as u128 + 1));
    assert_eq!(Data::USize(3) + 4, Data::USize(7));
    assert_eq!(Data::ISize(-3) + 4, Data::ISize(1));
    assert_eq!(
        Data::Strand(Strand::try_new(3).unwrap()) + 4,
        Data::Strand(Strand::try_new(7).unwrap())
    );
    assert_eq!(
        Data::BraidIndex(BraidIndex::try_new(65535).unwrap()) + 1,
        Data::U32(65536)
    );
    assert_eq!((Data::I32(40) + 2).to_u16(), 42);
}

#[test]
fn word_power_repeats_a_letter() {
    let l = Letter::try_new(2, None, Sign::Negative);
    assert_eq!(
        *Word::power(l, 3),
        *Word::try_from_letters(&[l.unwrap(); 3])
    );
    assert_eq!(*Word::power(l, 0), Ok(Word::trivial()));
    assert_eq!(
        *Word::power(l, 70000),
        Err(WordValidationError::TooLong(70000))
    );
    let tall = Letter::try_new(1, Some(2i64.pow(15) + 1), Sign::Positive);
    assert_eq!(
        *Word::power(tall, u64::MAX),
        Err(WordValidationError::TooLong(usize::MAX))
    );
    let bad = Letter::try_new(0, None, Sign::Positive);
    assert_eq!(
        *Word::power(bad, 2),
        Err(WordValidationError::from(bad.unwrap_err()))
    );
}

#[test]
fn word_and_braid_results_compare() {
    let w = WordResult::from(Word::trivial());
    assert_eq!(w, WordResult::from(Word::trivial()));
    assert_eq!(Braid::trivial(3), Braid::trivial(3));
    assert_ne!(Braid::trivial(3), Braid::trivial(4));
}
