use peak_can::timing::{build_timing_string, calculate_btr0btr1, CanBitTiming, CanFdBitTiming, TimingError};

#[test]
fn btr0btr1_encoding() {
    // boundary values and common configurations
    let test_cases = vec![
        ((1, 1, 1, 1), 0x0000),   // smallest values
        ((64, 4, 16, 8), 0xFF7F), // largest values
        ((8, 1, 13, 2), 0x071C),  // 500k
        ((32, 1, 13, 2), 0x1F1C), // 125k
        ((4, 1, 13, 2), 0x031C),  // 1M
    ];

    for ((prescaler, sjw, tseg1, tseg2), expected) in test_cases {
        let timing = CanBitTiming::new(prescaler, sjw, tseg1, tseg2).unwrap();
        let btr0btr1 = calculate_btr0btr1(&timing);
        assert_eq!(
            btr0btr1, expected,
            "Failed for prescaler={}, sjw={}, tseg1={}, tseg2={}",
            prescaler, sjw, tseg1, tseg2
        );
    }

    // the bit fields do not overflow into each other
    let timing = CanBitTiming::new(64, 4, 16, 8).unwrap();
    let btr0btr1 = calculate_btr0btr1(&timing);
    assert_eq!(btr0btr1 & 0x000F, 15); // tseg1
    assert_eq!((btr0btr1 >> 4) & 0x07, 7); // tseg2
    assert_eq!((btr0btr1 >> 8) & 0x3F, 63); // prescaler
    assert_eq!((btr0btr1 >> 14) & 0x03, 3); // sjw
}

#[test]
fn fd_timing_string_format() {
    let test_cases = vec![
        (
            (1, 1, 1, 1, 1, 1, 1, 1),
            "f_clock=80000000,nom_brp=1,nom_tseg1=1,nom_tseg2=1,nom_sjw=1,data_brp=1,data_tseg1=1,data_tseg2=1,data_sjw=1"
        ),
        (
            (1024, 128, 256, 128, 1024, 16, 32, 16),
            "f_clock=80000000,nom_brp=1024,nom_tseg1=256,nom_tseg2=128,nom_sjw=128,data_brp=1024,data_tseg1=32,data_tseg2=16,data_sjw=16"
        ),
        (
            (10, 4, 13, 2, 5, 2, 6, 1), // 500k nominal / 1M data
            "f_clock=80000000,nom_brp=10,nom_tseg1=13,nom_tseg2=2,nom_sjw=4,data_brp=5,data_tseg1=6,data_tseg2=1,data_sjw=2"
        ),
        (
            (5, 2, 13, 2, 2, 2, 13, 2), // 1M nominal / 2M data
            "f_clock=80000000,nom_brp=5,nom_tseg1=13,nom_tseg2=2,nom_sjw=2,data_brp=2,data_tseg1=13,data_tseg2=2,data_sjw=2"
        ),
    ];

    for ((nom_brp, nom_sjw, nom_tseg1, nom_tseg2, data_brp, data_sjw, data_tseg1, data_tseg2), expected) in test_cases {
        let timing = CanFdBitTiming::new(nom_brp, nom_sjw, nom_tseg1, nom_tseg2, data_brp, data_sjw, data_tseg1, data_tseg2).unwrap();
        let actual = build_timing_string(&timing);
        assert_eq!(actual, expected);
    }
}

#[test]
fn fd_timing_string_structure() {
    let timing = CanFdBitTiming::new(10, 4, 13, 2, 5, 2, 6, 1).unwrap();
    let timing_str = build_timing_string(&timing);

    // nine parameters, no spaces, comma delimiters
    assert_eq!(timing_str.matches(',').count(), 8);
    assert!(!timing_str.contains(' '));
    assert!(timing_str.starts_with("f_clock=80000000,"));
    assert!(timing_str.ends_with("data_sjw=2"));
    assert!(!timing_str.contains(|c: char| c.is_control()));

    // parameter order
    let parts: Vec<&str> = timing_str.split(',').collect();
    assert_eq!(parts.len(), 9);
    assert!(parts[0].starts_with("f_clock="));
    assert!(parts[1].starts_with("nom_brp="));
    assert!(parts[4].starts_with("nom_sjw="));
    assert!(parts[5].starts_with("data_brp="));
    assert!(parts[8].starts_with("data_sjw="));
}

#[test]
fn classic_encoding_examples() {
    let t = CanBitTiming::new(8, 1, 13, 2).unwrap();
    assert_eq!(calculate_btr0btr1(&t), 0x071C);
    let t = CanBitTiming::new(64, 4, 16, 8).unwrap();
    assert_eq!(calculate_btr0btr1(&t), 0xFF7F);
    let t = CanBitTiming::new(2, 3, 5, 7).unwrap();
    assert_eq!(calculate_btr0btr1(&t), (1 << 8) | (2 << 14) | 4 | (6 << 4));
}

#[test]
fn classic_timing_bounds() {
    assert_eq!(CanBitTiming::new(0, 1, 1, 1).unwrap_err(), TimingError::TimingOutOfBounds);
    assert_eq!(CanBitTiming::new(65, 1, 1, 1).unwrap_err(), TimingError::TimingOutOfBounds);
    assert!(CanBitTiming::new(1, 1, 1, 1).is_ok());
    assert!(CanBitTiming::new(64, 1, 1, 1).is_ok());
    assert!(CanBitTiming::new(1, 0, 1, 1).is_err());
    assert!(CanBitTiming::new(1, 5, 1, 1).is_err());
    assert!(CanBitTiming::new(1, 1, 0, 1).is_err());
    assert!(CanBitTiming::new(1, 1, 17, 1).is_err());
    assert!(CanBitTiming::new(1, 1, 1, 0).is_err());
    assert!(CanBitTiming::new(1, 1, 1, 9).is_err());
    let t = CanBitTiming::new(7, 2, 11, 3).unwrap();
    assert_eq!((t.prescaler(), t.sjw(), t.tseg1(), t.tseg2()), (7, 2, 11, 3));
}

#[test]
fn fd_timing_bounds() {
    assert!(CanFdBitTiming::new(1024, 128, 256, 128, 1024, 16, 32, 16).is_ok());
    assert!(CanFdBitTiming::new(1025, 1, 1, 1, 1, 1, 1, 1).is_err());
    assert!(CanFdBitTiming::new(1, 129, 1, 1, 1, 1, 1, 1).is_err());
    assert!(CanFdBitTiming::new(1, 1, 257, 1, 1, 1, 1, 1).is_err());
    assert!(CanFdBitTiming::new(1, 1, 1, 129, 1, 1, 1, 1).is_err());
    assert!(CanFdBitTiming::new(1, 1, 1, 1, 0, 1, 1, 1).is_err());
    assert!(CanFdBitTiming::new(1, 1, 1, 1, 1, 17, 1, 1).is_err());
    assert!(CanFdBitTiming::new(1, 1, 1, 1, 1, 1, 33, 1).is_err());
    assert_eq!(
        CanFdBitTiming::new(1, 1, 1, 1, 1, 1, 1, 17).unwrap_err(),
        TimingError::TimingOutOfBounds
    );
}

#[test]
fn fd_timing_params_are_kept() {
    let t = CanFdBitTiming::new(10, 4, 13, 2, 5, 2, 6, 1).unwrap();
    let p = t.params();
    assert_eq!(
        (p.nom_prescaler, p.nom_sjw, p.nom_tseg1, p.nom_tseg2),
        (10, 4, 13, 2)
    );
    assert_eq!(
        (p.data_prescaler, p.data_sjw, p.data_tseg1, p.data_tseg2),
        (5, 2, 6, 1)
    );
}
