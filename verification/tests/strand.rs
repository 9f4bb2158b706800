use braided::{BraidIndex, IndexResult, Sign, Strand, StrandValidationError};

#[test]
fn strand_valid_input_yields_successful_construction() {
    let valid_strands = [
        Strand::try_new(1),
        Strand::try_new(u16::from(Strand::try_new(1).unwrap()) as i64),
        Strand::try_new(u16::from(BraidIndex::try_new(1).unwrap()) as i64),
    ];

    for strand in valid_strands.iter() {
        assert!(strand.is_ok());
    }
}

#[test]
fn strand_derefs_to_u16() {
    let test_strands = [
        &Strand::try_new(1),
        &Strand::try_new(u16::from(Strand::try_new(1).unwrap()) as i64),
        &Strand::try_new(u16::from(BraidIndex::try_new(1).unwrap()) as i64),
    ];

    for strand in test_strands {
        assert_eq!(**strand.as_ref().unwrap(), 1);
    }
}

#[test]
fn can_coerce_strand_into_u16() {
    let coerced_strands: [u16; 3] = [
        Strand::try_new(1).unwrap().into(),
        Strand::try_new(u16::from(Strand::try_new(1).unwrap()) as i64)
            .unwrap()
            .into(),
        Strand::try_new(u16::from(BraidIndex::try_new(1).unwrap()) as i64)
            .unwrap()
            .into(),
    ];

    for value in coerced_strands {
        assert_eq!(value, 1);
    }
}

#[test]
fn strand_can_be_used_as_reference_to_u16() {
    fn as_ref_tester<T: AsRef<u16>>(s: T) -> u16 {
        *s.as_ref()
    }

    let test_strands = [
        Strand::try_new(1).unwrap(),
        Strand::try_new(u16::from(Strand::try_new(1).unwrap()) as i64).unwrap(),
        Strand::try_new(u16::from(BraidIndex::try_new(1).unwrap()) as i64).unwrap(),
    ];

    for strand in test_strands {
        assert_eq!(as_ref_tester(strand), 1);
    }
}

#[test]
fn valid_addition_succeeds() {
    let addition_examples = [
        &(Strand::try_new(2).unwrap() + Strand::try_new(3).unwrap()),
        &(Strand::try_new(2).unwrap() + 3),
        &(2 + Strand::try_new(3).unwrap()),
        &(Strand::try_new(5).unwrap() + 0),
        &(0 + Strand::try_new(5).unwrap()),
    ];

    for sum in addition_examples {
        assert_eq!(**sum.as_ref().unwrap(), 5);
    }
}

#[test]
fn valid_subtraction_succeeds() {
    let subtraction_examples = [
        &(Strand::try_new(3).unwrap() - Strand::try_new(2).unwrap()),
        &(Strand::try_new(3).unwrap() - 2),
        &(3 - Strand::try_new(2).unwrap()),
    ];

    for difference in subtraction_examples {
        assert_eq!(**difference.as_ref().unwrap(), 1);
    }
}

#[test]
fn strand_construction_rejects_zero_and_out_of_range_values() {
    assert_eq!(*Strand::try_new(0), Err(StrandValidationError::Zero));
    assert!(matches!(
        *Strand::try_new(-1),
        Err(StrandValidationError::FromInt(_))
    ));
    assert!(matches!(
        *Strand::try_new(u16::MAX as i64 + 1),
        Err(StrandValidationError::FromInt(_))
    ));
    assert_eq!(*Strand::try_new(u16::MAX as i64).unwrap(), u16::MAX);
}

#[test]
fn strand_arithmetic_reports_overflow_and_underflow() {
    let max = Strand::try_new(u16::MAX as i64).unwrap();
    let one = Strand::try_new(1).unwrap();
    assert_eq!(
        *(max + one),
        Err(StrandValidationError::Addition {
            left: u16::MAX,
            right: 1
        })
    );
    assert_eq!(
        *(one - one),
        Err(StrandValidationError::Subtraction { left: 1, right: 1 })
    );
    assert_eq!(
        *(one - 2),
        Err(StrandValidationError::Subtraction { left: 1, right: 2 })
    );
}

#[test]
fn index_valid_input_yields_successful_construction() {
    let valid_indices = [
        IndexResult::from(BraidIndex::from(Strand::try_new(1).unwrap())),
        BraidIndex::try_new(1),
        BraidIndex::try_new(u16::from(Strand::try_new(1).unwrap()) as i64),
        BraidIndex::try_new(u16::from(BraidIndex::try_new(1).unwrap()) as i64),
    ];

    for index in valid_indices.iter() {
        assert!(index.is_ok());
    }
}

#[test]
fn index_derefs_to_u16() {
    let test_indices = [
        &IndexResult::from(BraidIndex::from(Strand::try_new(1).unwrap())),
        &BraidIndex::try_new(1),
        &BraidIndex::try_new(u16::from(Strand::try_new(1).unwrap()) as i64),
        &BraidIndex::try_new(u16::from(BraidIndex::try_new(1).unwrap()) as i64),
    ];

    for index in test_indices {
        assert_eq!(**index.as_ref().unwrap(), 1);
    }
}

#[test]
fn can_coerce_index_into_u16() {
    let coerced_indices: [u16; 4] = [
        BraidIndex::from(Strand::try_new(1).unwrap()).into(),
        BraidIndex::try_new(1).unwrap().into(),
        BraidIndex::try_new(u16::from(Strand::try_new(1).unwrap()) as i64)
            .unwrap()
            .into(),
        BraidIndex::try_new(u16::from(BraidIndex::try_new(1).unwrap()) as i64)
            .unwrap()
            .into(),
    ];

    for value in coerced_indices {
        assert_eq!(value, 1);
    }
}

#[test]
fn index_can_be_used_as_reference_to_u16() {
    fn as_ref_tester<T: AsRef<u16>>(n: T) -> u16 {
        *n.as_ref()
    }

    let test_indices = [
        BraidIndex::from(Strand::try_new(1).unwrap()),
        BraidIndex::try_new(1).unwrap(),
        BraidIndex::try_new(u16::from(Strand::try_new(1).unwrap()) as i64).unwrap(),
        BraidIndex::try_new(u16::from(BraidIndex::try_new(1).unwrap()) as i64).unwrap(),
    ];

    for index in test_indices {
        assert_eq!(as_ref_tester(index), 1);
    }
}

#[test]
fn index_construction_rejects_zero_and_out_of_range_values() {
    assert_eq!(
        *BraidIndex::try_new(0),
        Err(braided::IndexValidationError::Zero)
    );
    assert!(matches!(
        *BraidIndex::try_new(70000),
        Err(braided::IndexValidationError::FromInt(_))
    ));
}

#[test]
fn sign_can_be_negated() {
    assert_eq!(-Sign::Positive, Sign::Negative);
    assert_eq!(-Sign::Negative, Sign::Positive);
}
