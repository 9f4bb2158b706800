use braided::{BandGenerator, Braid, Letter, Sign, Strand, Word};

fn letter(foot: i64, head: Option<i64>, sign: Sign) -> Letter {
    Letter::try_new(foot, head, sign).unwrap()
}

fn word(letters: &[Letter]) -> Word {
    Word::try_from_letters(letters).clone_unwrap()
}

#[test]
fn product_of_reduced_words_is_associative() {
    let a = word(&[letter(1, None, Sign::Positive), letter(2, Some(4), Sign::Negative)]);
    let b = word(&[letter(2, Some(4), Sign::Positive), letter(1, None, Sign::Negative)]);
    let c = word(&[letter(1, None, Sign::Positive), letter(3, None, Sign::Positive)]);

    let left = ((&a * &b).clone_unwrap() * &c).clone_unwrap();
    let right = (&a * (&b * &c).clone_unwrap()).clone_unwrap();
    assert_eq!(left, right);
    assert_eq!(left, word(&[letter(1, None, Sign::Positive), letter(3, None, Sign::Positive)]));
}

#[test]
fn product_of_unreduced_words_may_depend_on_bracketing() {
    let x = letter(1, None, Sign::Positive);
    let a = word(&[x]);
    let b = word(&[x.inverse()]);
    let c = word(&[x, x.inverse()]);

    let left = ((&a * &b).clone_unwrap() * &c).clone_unwrap();
    let right = (&a * (&b * &c).clone_unwrap()).clone_unwrap();
    assert_eq!(left, word(&[x, x.inverse()]));
    assert_eq!(right, Word::trivial());
}

#[test]
fn decomposing_twice_is_decomposing_once() {
    let w = word(&[letter(1, Some(4), Sign::Positive), letter(2, None, Sign::Negative)]);
    let once = w.decompose();
    assert_eq!(once.decompose(), once);
    assert_eq!(once.artin_length(), w.artin_length());
    assert_eq!(once.length(), w.artin_length());
    assert_eq!(
        once.minimal_required_braid_index(),
        w.minimal_required_braid_index()
    );
}

#[test]
fn coalescing_a_decomposed_band_gives_it_back() {
    let band = BandGenerator::new(2, 6, Sign::Negative).unwrap();
    assert_eq!(*BandGenerator::coalesce(&band.decompose()), Ok(band));
    let single = word(&[Letter::from(band)]);
    assert_eq!(single.coalesce(), single);
}

#[test]
fn inverting_twice_gives_the_word_back() {
    let w = word(&[letter(1, Some(4), Sign::Positive), letter(2, None, Sign::Negative)]);
    assert_eq!(w.inverse().inverse(), w);
    assert_eq!(w.inverse().artin_length(), w.artin_length());
}

#[test]
fn writhe_of_inverse_is_negated() {
    let braid = Braid::try_from_letters(&[
        letter(1, None, Sign::Positive),
        letter(2, Some(5), Sign::Positive),
        letter(3, None, Sign::Negative),
    ])
    .clone_unwrap();
    assert_eq!(braid.writhe(), 1);
    assert_eq!(braid.inverse().writhe(), -1);
}

#[test]
fn strand_addition_and_subtraction_undo_each_other() {
    let a = Strand::try_new(7).unwrap();
    let b = Strand::try_new(5).unwrap();
    let sum = (a + b).unwrap();
    assert_eq!((sum - b).unwrap(), a);
    let difference = (a - b).unwrap();
    assert_eq!((difference + b).unwrap(), a);
}

#[test]
fn coalescing_keeps_the_braid_on_its_strands() {
    let braid = Braid::from_data(
        Some(6),
        vec![
            (2, None, Sign::Positive),
            (1, None, Sign::Positive),
            (2, None, Sign::Negative),
            (2, None, Sign::Negative),
            (1, None, Sign::Positive),
        ],
    )
    .clone_unwrap();
    let coalesced = braid.coalesce();
    assert_eq!(coalesced.braid_index(), braid.braid_index());
    assert!(coalesced.artin_length() <= braid.artin_length());
    assert!(
        u16::from(coalesced.minimal_required_braid_index())
            <= u16::from(braid.minimal_required_braid_index())
    );
}
