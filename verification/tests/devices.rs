use goobler::audio::devices::{
    arrange_output_devices, compare_names, find_device, pick_sample_rate, ListOrder,
    OutputDevice, SupportedRateRange,
};

fn s(x: &str) -> String {
    x.to_string()
}

#[test]
fn names_compare_lexicographically() {
    assert_eq!(compare_names("abc", "abd"), ListOrder::Before);
    assert_eq!(compare_names("abd", "abc"), ListOrder::After);
    assert_eq!(compare_names("ab", "abc"), ListOrder::Before);
    assert_eq!(compare_names("abc", "ab"), ListOrder::After);
    assert_eq!(compare_names("same", "same"), ListOrder::Same);
    assert_eq!(compare_names("", ""), ListOrder::Same);
    assert_eq!(compare_names("Zebra", "apple"), ListOrder::Before);
    assert_eq!(compare_names("é", "z"), ListOrder::After);
}

#[test]
fn name_order_agrees_with_string_order() {
    let words = ["", "a", "ab", "b", "Ba", "é", "ü", "z", "HDMI", "hdmi 2"];
    for a in words.iter() {
        for b in words.iter() {
            let expected = match a.cmp(b) {
                std::cmp::Ordering::Less => ListOrder::Before,
                std::cmp::Ordering::Equal => ListOrder::Same,
                std::cmp::Ordering::Greater => ListOrder::After,
            };
            assert_eq!(compare_names(a, b), expected);
        }
    }
}

#[test]
fn devices_default_first_then_by_name_without_duplicates() {
    let names = vec![
        Some(s("pulse")),
        Some(s("default")),
        None,
        Some(s("hdmi")),
        Some(s("pulse")),
        Some(s("analog")),
    ];
    let devices = arrange_output_devices(names, Some(s("pulse")));
    assert_eq!(
        devices,
        vec![
            OutputDevice { name: s("pulse"), is_default: true },
            OutputDevice { name: s("analog"), is_default: false },
            OutputDevice { name: s("default"), is_default: false },
            OutputDevice { name: s("hdmi"), is_default: false },
        ]
    );
}

#[test]
fn devices_without_default() {
    let devices = arrange_output_devices(vec![Some(s("b")), Some(s("a"))], None);
    assert_eq!(
        devices,
        vec![
            OutputDevice { name: s("a"), is_default: false },
            OutputDevice { name: s("b"), is_default: false },
        ]
    );
    let devices = arrange_output_devices(vec![Some(s("b"))], Some(s("missing")));
    assert_eq!(devices, vec![OutputDevice { name: s("b"), is_default: false }]);
    assert!(arrange_output_devices(vec![None, None], None).is_empty());
}

#[test]
fn find_device_takes_first_match() {
    let names = vec![None, Some(s("speakers")), Some(s("usb")), Some(s("usb"))];
    assert_eq!(find_device(&names, "usb"), Some(2));
    assert_eq!(find_device(&names, "speakers"), Some(1));
    assert_eq!(find_device(&names, "missing"), None);
    assert_eq!(find_device(&Vec::new(), "usb"), None);
}

#[test]
fn sample_rate_keeps_supported_rate() {
    let ranges = vec![
        SupportedRateRange { min_rate: 8000, max_rate: 22050 },
        SupportedRateRange { min_rate: 44100, max_rate: 48000 },
    ];
    assert_eq!(pick_sample_rate(Some(&ranges), Some(8000), 48000), 48000);
    assert_eq!(pick_sample_rate(Some(&ranges), None, 44100), 44100);
}

#[test]
fn sample_rate_falls_back_to_device_default() {
    let ranges = vec![
        SupportedRateRange { min_rate: 96000, max_rate: 96000 },
        SupportedRateRange { min_rate: 44000, max_rate: 44000 },
    ];
    assert_eq!(pick_sample_rate(Some(&ranges), Some(44000), 44100), 44000);
    assert_eq!(pick_sample_rate(Some(&ranges), Some(96000), 44100), 96000);
}

#[test]
fn sample_rate_without_default_takes_closest() {
    let ranges = vec![
        SupportedRateRange { min_rate: 96000, max_rate: 96000 },
        SupportedRateRange { min_rate: 44000, max_rate: 44000 },
        SupportedRateRange { min_rate: 44200, max_rate: 44200 },
    ];
    assert_eq!(pick_sample_rate(Some(&ranges), None, 44100), 44000);
    let ranges = vec![SupportedRateRange { min_rate: 22050, max_rate: 32000 }];
    assert_eq!(pick_sample_rate(Some(&ranges), None, 48000), 22050);
}

#[test]
fn sample_rate_when_device_lists_nothing() {
    assert_eq!(pick_sample_rate(None, Some(48000), 44100), 44100);
    assert_eq!(pick_sample_rate(Some(&Vec::new()), None, 48000), 48000);
    assert_eq!(pick_sample_rate(Some(&Vec::new()), Some(44100), 48000), 44100);
}
