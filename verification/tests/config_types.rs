use goobler::config::NoiseType;

#[test]
fn test_noise_type_display_names() {
    assert_eq!(NoiseType::White.display_name(), "White");
    assert_eq!(NoiseType::Pink.display_name(), "Pink");
    assert_eq!(NoiseType::Brown.display_name(), "Brown");
    assert_eq!(NoiseType::Green.display_name(), "Green");
    assert_eq!(NoiseType::Blue.display_name(), "Blue");
    assert_eq!(NoiseType::Violet.display_name(), "Violet");
}

#[test]
fn test_noise_type_all_variants() {
    assert_eq!(NoiseType::ALL.len(), 6);
    assert!(NoiseType::ALL.contains(&NoiseType::White));
    assert!(NoiseType::ALL.contains(&NoiseType::Pink));
    assert!(NoiseType::ALL.contains(&NoiseType::Brown));
    assert!(NoiseType::ALL.contains(&NoiseType::Green));
    assert!(NoiseType::ALL.contains(&NoiseType::Blue));
    assert!(NoiseType::ALL.contains(&NoiseType::Violet));
}

#[test]
fn test_noise_type_equality() {
    assert_eq!(NoiseType::White, NoiseType::White);
    assert_ne!(NoiseType::White, NoiseType::Pink);
}

#[test]
fn noise_types_listed_in_menu_order() {
    assert_eq!(
        NoiseType::ALL,
        [
            NoiseType::White,
            NoiseType::Pink,
            NoiseType::Brown,
            NoiseType::Green,
            NoiseType::Blue,
            NoiseType::Violet
        ]
    );
}

#[test]
fn display_names_are_distinct() {
    for a in NoiseType::ALL.iter() {
        for b in NoiseType::ALL.iter() {
            if a != b {
                assert_ne!(a.display_name(), b.display_name());
            }
        }
    }
}
