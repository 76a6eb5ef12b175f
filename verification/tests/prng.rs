use stock_predictor::binary64::Fraction;
use stock_predictor::configuration::Platform;
use stock_predictor::prng::jkiss::Jkiss;
use stock_predictor::prng::ms_cor_lib_random::{MsCorLibRandom, PrngError};
use stock_predictor::prng::{get_prng, Prng};

const TWO_TO_62: f64 = 4611686018427387904.0;

fn value(fraction: Fraction) -> f64 {
    fraction.numerator as f64 / TWO_TO_62
}

fn words(prng: &mut Prng, count: usize) -> Vec<u32> {
    (0..count).map(|_| prng.next_u32()).collect()
}

fn draws(prng: &mut Prng) -> Vec<i32> {
    vec![
        prng.gen_range(0, 10),
        prng.gen_range(1, 11),
        prng.gen_range(-5, 5),
        prng.gen_range(0, 1),
        prng.gen_range(2, 790),
        prng.gen_range(0, 1613),
        prng.gen_range(i32::MIN, i32::MAX),
        prng.gen_range(0, i32::MAX),
        prng.gen_range(i32::MIN, i32::MIN + 1),
        prng.gen_range(100, 101),
        prng.gen_range(-1000000, 1000000),
        prng.gen_range(3, 6),
    ]
}

#[test]
fn pc_first_samples_after_the_table_is_mixed() {
    let mut prng = get_prng(Platform::PC, 0).unwrap();
    assert_eq!(
        words(&mut prng, 10),
        vec![
            1559595546, 1755192844, 1649316166, 1198642031, 442452829, 1200195957, 1945678308,
            949569752, 2099272109, 587775847
        ]
    );
    let mut prng = get_prng(Platform::PC, 0).unwrap();
    let mut last: u32 = 0;
    for _ in 0..60 {
        last = prng.next_u32();
    }
    assert_eq!(last, 1459749886);
}

#[test]
fn pc_samples_of_other_seeds() {
    let expected: [(i32, [u32; 5]); 8] = [
        (1, [534011718, 237820880, 1002897798, 1657007234, 1412011072]),
        (-1, [534011718, 237820880, 1002897798, 1657007234, 1412011072]),
        (42, [1434747710, 302596119, 269548474, 1122627734, 361709742]),
        (12350, [1457869752, 1153741166, 579187265, 1242005589, 117938207]),
        (i32::MAX, [1559595546, 1755192844, 1649316172, 1198642031, 442452829]),
        (i32::MIN, [1559595546, 1755192844, 1649316172, 1198642031, 442452829]),
        (161803398, [1639093931, 386245568, 1693263304, 12808401, 104424774]),
        (-161803399, [613510103, 1016357251, 1046844936, 471173604, 1073983017]),
    ];
    for (seed, samples) in expected {
        let mut prng = get_prng(Platform::PC, seed).unwrap();
        assert_eq!(words(&mut prng, 5), samples.to_vec());
        let mut generator = MsCorLibRandom::from_seed(seed);
        assert_eq!(generator.sample() as u32, samples[0]);
        assert_eq!(generator.next_u32(), samples[1]);
    }
}

#[test]
fn pc_samples_stay_below_the_modulus() {
    for seed in [0, 1, -1, 7919, i32::MAX, i32::MIN, 161803398, 161803399, -161803398] {
        let mut generator = MsCorLibRandom::from_seed(seed);
        for _ in 0..1000 {
            let sample: i32 = generator.sample();
            assert!((0..2147483647).contains(&sample));
        }
    }
}

#[test]
fn pc_tables_are_regular_for_the_seeds_tried() {
    for seed in (-20000..20000).chain([
        i32::MIN,
        i32::MIN + 1,
        i32::MAX - 1,
        i32::MAX,
        161803397,
        161803398,
        161803399,
        1235545220,
    ]) {
        let mut generator = MsCorLibRandom::from_seed(seed);
        for _ in 0..110 {
            let sample: i32 = generator.sample();
            assert!((0..2147483647).contains(&sample));
        }
    }
    assert_eq!(
        PrngError::SeedNotRepresentable.to_string(),
        "Error creating random number generator."
    );
}

#[test]
fn pc_ranges() {
    let expected: [(i32, [i32; 12]); 6] = [
        (0, [7, 9, 2, 0, 164, 901, 1743872968, 949569752, -2147483648, 100, -416188, 4]),
        (42, [6, 2, -4, 0, 134, 423, 963826586, 1101493307, -2147483648, 100, -530824, 3]),
        (-42, [6, 2, -4, 0, 134, 423, 963826586, 1101493307, -2147483648, 100, -530824, 3]),
        (i32::MAX, [7, 9, 2, 0, 164, 901, 1743872968, 949569752, -2147483648, 100, -416188, 4]),
        (i32::MIN, [7, 9, 2, 0, 164, 901, 1743872968, 949569752, -2147483648, 100, -416188, 4]),
        (123456789, [5, 2, 1, 0, 724, 1106, -1802855662, 1943666776, -2147483648, 100, 259671, 5]),
    ];
    for (seed, values) in expected {
        let mut prng = get_prng(Platform::PC, seed).unwrap();
        assert_eq!(draws(&mut prng), values.to_vec());
    }
}

#[test]
fn pc_ranges_scale_the_sample() {
    for seed in [3, 1000, -77] {
        let mut ranged = MsCorLibRandom::from_seed(seed);
        let mut sampled = MsCorLibRandom::from_seed(seed);
        for width in 1..200 {
            let sample: i32 = sampled.sample();
            let machine: f64 = sample as f64 * (1.0 / 2147483647.0);
            assert_eq!(ranged.gen_range(-50, -50 + width), (machine * width as f64) as i32 - 50);
        }
    }
}

#[test]
fn pc_floats() {
    let expected: [(i32, [f64; 5]); 3] = [
        (
            0,
            [
                0.7262432699679598,
                0.8173253595909687,
                0.7680226893946634,
                0.5581611914365372,
                0.2060331540210327,
            ],
        ),
        (
            42,
            [
                0.6681064659115423,
                0.14090729837348093,
                0.12551828945312568,
                0.5227642760252413,
                0.16843422416990353,
            ],
        ),
        (
            -7,
            [
                0.38322046929189024,
                0.8712556827213874,
                0.6609386227377405,
                0.052261705534654534,
                0.36643333237917786,
            ],
        ),
    ];
    for (seed, values) in expected {
        let mut prng = get_prng(Platform::PC, seed).unwrap();
        for expected in values {
            assert_eq!(value(prng.gen_float()), expected);
        }
    }
    let mut prng = get_prng(Platform::PC, 0).unwrap();
    assert_eq!(prng.gen_float().numerator, 3349205934088227328);
}

#[test]
fn pc_every_draw_takes_one_sample() {
    let mut mixed = get_prng(Platform::PC, 99).unwrap();
    let mut plain = get_prng(Platform::PC, 99).unwrap();
    mixed.gen_range(0, 5);
    mixed.gen_float();
    mixed.gen_range(-3, 900);
    mixed.next_u32();
    words(&mut plain, 4);
    assert_eq!(words(&mut mixed, 3), words(&mut plain, 3));
}

#[test]
fn switch_first_words() {
    let expected: [(i32, [u32; 5]); 6] = [
        (0, [1557129256, 3607227500, 2958840619, 3983503383, 1414710373]),
        (1, [1871657125, 2664843637, 2883031184, 606534248, 1268358642]),
        (-1, [1242601387, 254644067, 3034650054, 3065505222, 1561062104]),
        (12350, [3325875822, 232924314, 3015188897, 2547130293, 2152064139]),
        (i32::MAX, [3390085035, 2402127715, 887166406, 918021574, 3708545752]),
        (i32::MIN, [3704612904, 1459743852, 811356971, 1836019735, 3562194021]),
    ];
    for (seed, values) in expected {
        let mut prng = get_prng(Platform::Switch, seed).unwrap();
        assert_eq!(words(&mut prng, 5), values.to_vec());
        let mut generator = Jkiss::from_seed(seed);
        assert_eq!(generator.next_u32(), values[0]);
    }
}

#[test]
fn switch_seeds_diverge_on_the_first_draw() {
    let mut zero = Jkiss::from_seed(0);
    let mut one = Jkiss::from_seed(1);
    assert_ne!(zero.next_u32(), one.next_u32());
    assert_ne!(zero, one);
    let mut firsts: Vec<u32> = (-500..500).map(|seed| Jkiss::from_seed(seed).next_u32()).collect();
    firsts.sort();
    firsts.dedup();
    assert_eq!(firsts.len(), 1000);
}

#[test]
fn switch_state() {
    assert_eq!(Jkiss::from_seed(0), Jkiss { x: 0, y: 987654321, z: 43219876, c: 6543217 });
    assert_eq!(Jkiss::from_seed(-1).x, u32::MAX);
    assert_eq!(Jkiss::from_seed(i32::MIN).x, 1 << 31);
    let mut generator = Jkiss::from_seed(0);
    generator.next_u32();
    assert_eq!(generator.x, 1234567);
    assert_ne!(generator.y, 987654321);
    assert_ne!((generator.x, generator.y, generator.z, generator.c), (0, 0, 0, 0));
}

#[test]
fn switch_ranges() {
    let expected: [(i32, [i32; 12]); 6] = [
        (0, [6, 1, 4, 0, 579, 1007, 954358471, 1166579185, -2147483648, 100, 765672, 4]),
        (42, [6, 9, 0, 0, 777, 1547, 2030104313, 940872283, -2147483648, 100, 386234, 3]),
        (-42, [6, 7, -2, 0, 469, 531, -121387371, 1392286087, -2147483648, 100, -854890, 5]),
        (i32::MAX, [5, 6, 1, 0, 266, 1341, -2036827182, 251603025, -2147483648, 100, 513251, 5]),
        (i32::MIN, [4, 3, -4, 0, 623, 1039, -1193125177, 1166579186, -2147483648, 100, 249320, 5]),
        (123456789, [3, 4, -5, 0, 364, 1224, 1955780064, 718504230, -2147483648, 100, -578351, 3]),
    ];
    for (seed, values) in expected {
        let mut prng = get_prng(Platform::Switch, seed).unwrap();
        assert_eq!(draws(&mut prng), values.to_vec());
    }
}

#[test]
fn switch_ranges_reduce_the_word() {
    let mut ranged = Jkiss::from_seed(5);
    let mut plain = Jkiss::from_seed(5);
    for width in 1..200 {
        assert_eq!(ranged.gen_range(7, 7 + width), 7 + (plain.next_u32() % width as u32) as i32);
    }
}

#[test]
fn switch_floats() {
    let expected: [(i32, [f64; 5]); 2] = [
        (
            0,
            [
                0.36254740692675114,
                0.839873100630939,
                0.688908765790984,
                0.9274816566612571,
                0.329387926729396,
            ],
        ),
        (
            -7,
            [
                0.8499253236223012,
                0.3757839903701097,
                0.8124640826135874,
                0.43131493777036667,
                0.5679141008295119,
            ],
        ),
    ];
    for (seed, values) in expected {
        let mut prng = get_prng(Platform::Switch, seed).unwrap();
        for expected in values {
            let fraction: Fraction = prng.gen_float();
            assert_eq!(value(fraction), expected);
            assert!(value(fraction) < 1.0);
        }
    }
    let mut floats = Jkiss::from_seed(77);
    let mut plain = Jkiss::from_seed(77);
    for _ in 0..100 {
        assert_eq!(value(floats.gen_float()), plain.next_u32() as f64 / 4294967296.0);
    }
}

#[test]
fn platforms_have_their_generators() {
    assert!(matches!(get_prng(Platform::PC, 5), Ok(Prng::MsCorLibRandom(_))));
    assert!(matches!(get_prng(Platform::Switch, 5), Ok(Prng::Jkiss(_))));
    assert!(matches!(Prng::from_seed(Platform::PC, 5), Prng::MsCorLibRandom(_)));
    assert!(matches!(Prng::from_seed(Platform::Switch, 5), Prng::Jkiss(_)));
}

#[test]
fn generators_are_deterministic() {
    for platform in [Platform::PC, Platform::Switch] {
        for seed in [0, 1, -1, 99999] {
            let mut first = get_prng(platform, seed).unwrap();
            let mut second = get_prng(platform, seed).unwrap();
            assert_eq!(draws(&mut first), draws(&mut second));
            assert_eq!(first.gen_float(), second.gen_float());
            assert_eq!(words(&mut first, 20), words(&mut second, 20));
        }
    }
}

#[test]
fn switch_generators_never_collapse() {
    for seed in [0, 1, -1, i32::MAX, i32::MIN] {
        let mut generator = Jkiss::from_seed(seed);
        let mut last: u32 = generator.next_u32();
        let mut repeats: u32 = 0;
        for _ in 0..100000 {
            let word: u32 = generator.next_u32();
            assert_ne!(generator.y, 0);
            if word == last {
                repeats += 1;
            }
            last = word;
        }
        assert!(repeats < 3);
    }
}

#[test]
fn generators_are_made_of_every_seed_tried() {
    for seed in (-3000..3000).chain([
        i32::MIN,
        i32::MAX,
        161803398,
        -161803398,
        161803399,
        -161803399,
        1235545220,
        -1235545220,
    ]) {
        assert!(matches!(get_prng(Platform::Switch, seed), Ok(Prng::Jkiss(_))));
        assert!(matches!(get_prng(Platform::PC, seed), Ok(Prng::MsCorLibRandom(_))));
    }
}
