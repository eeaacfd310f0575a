use touch_sim::utils::{get_random_shift, rand_integer_num, rand_string_bytes, rand_u16_num};

#[test]
fn random_identifiers_are_letters_of_the_requested_length() {
    for n in [0usize, 1, 7, 52] {
        let s = rand_string_bytes(n);
        assert_eq!(s.len(), n);
        assert!(s.chars().all(|c| c.is_ascii_alphabetic()));
    }
}

#[test]
fn random_numbers_stay_below_their_bound() {
    for _ in 0..100 {
        assert!(rand_integer_num(1) < 1);
        assert!(rand_integer_num(10) < 10);
        assert!(rand_u16_num(3) < 3);
        let s = get_random_shift();
        assert!((-20..=20).contains(&s));
    }
}
