use boottime::random::Rng;
use boottime::sentences::welcome_message;

// The generator's step and output, written out independently of the
// library, to pin the contract down on concrete values.
fn reference_output(state: u64) -> u32 {
    let xorshifted = (((state >> 18) ^ state) >> 27) as u32;
    let rot = (state >> 59) as u32;
    (xorshifted >> rot) | (xorshifted << ((!rot).wrapping_add(1) & 31))
}

fn reference_step(state: u64, inc: u64) -> u64 {
    state.wrapping_mul(6364136223846793005).wrapping_add(inc)
}

#[test]
fn new_sets_state_and_odd_increment() {
    let r = Rng::new(42);
    assert_eq!(r.state, 42);
    assert_eq!(r.inc, (42u64 >> 31) | 1);
    assert_eq!(r.inc % 2, 1);
    let r2 = Rng::new(u64::MAX);
    assert_eq!(r2.inc % 2, 1);
}

#[test]
fn next_u32_matches_reference() {
    let mut r = Rng::new(0x853c49e6748fea9b);
    let mut state = 0x853c49e6748fea9bu64;
    let inc = (state >> 31) | 1;
    for _ in 0..100 {
        let expect = reference_output(state);
        assert_eq!(r.next_u32(), expect);
        state = reference_step(state, inc);
        assert_eq!(r.state, state);
    }
}

#[test]
fn gen_range_zero_upper_is_zero_and_keeps_state() {
    let mut r = Rng::new(7);
    let before = r.state;
    assert_eq!(r.gen_range(0), 0);
    assert_eq!(r.state, before);
}

#[test]
fn gen_range_is_bounded_and_deterministic() {
    let mut a = Rng::new(99);
    let mut b = Rng::new(99);
    for _ in 0..100 {
        let x = a.gen_range(7);
        assert!(x < 7);
        assert_eq!(x, b.next_u32() % 7);
    }
}

#[test]
fn welcome_message_is_a_known_sentence() {
    let sentences = [
        "Don't work too hard. The sun will expand and engulf this CPU anyway.",
        "Everything you do today will eventually be overwritten.",
        "Nothing matters. Build good software anyway.",
        "That is all.",
        "The loop continues.",
        "The universe has not noticed.",
        "Try not to take it too seriously.",
    ];
    for seed in 0..50u64 {
        let mut r = Rng::new(seed);
        let mut picker = Rng::new(seed);
        let msg = welcome_message(&mut r);
        let idx = picker.gen_range(7) as usize;
        assert_eq!(msg, sentences[idx]);
    }
}
