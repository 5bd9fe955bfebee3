use gltf_linux_preview::text::{decimal_string, format_bytes};

/// The sizes as a float computation renders them.
fn float_rendering(bytes: usize) -> String {
    let units = ["B", "KiB", "MiB", "GiB"];
    let mut value = bytes as f64;
    let mut unit = 0;
    while value >= 1024.0 && unit < units.len() - 1 {
        value /= 1024.0;
        unit += 1;
    }
    if unit == 0 {
        format!("{bytes} {}", units[unit])
    } else {
        format!("{value:.1} {}", units[unit])
    }
}

#[test]
fn byte_sizes_below_one_kib_are_exact() {
    assert_eq!(format_bytes(1), "1 B");
    assert_eq!(format_bytes(1023), "1023 B");
}

#[test]
fn byte_sizes_pick_the_largest_unit_reached() {
    assert_eq!(format_bytes(1_048_575), "1024.0 KiB");
    assert_eq!(format_bytes(1_048_576), "1.0 MiB");
    assert_eq!(format_bytes(1_073_741_824), "1.0 GiB");
    assert_eq!(format_bytes(5 * 1_099_511_627_776), "5120.0 GiB");
}

#[test]
fn byte_sizes_round_ties_to_even() {
    // 1280 B is exactly 1.25 KiB, 1792 B exactly 1.75 KiB.
    assert_eq!(format_bytes(1280), "1.2 KiB");
    assert_eq!(format_bytes(1792), "1.8 KiB");
}

#[test]
fn byte_sizes_agree_with_float_rendering() {
    let mut samples: Vec<usize> = vec![0, 1, 9, 10, 99, 100, 1023, 1024, 1025, 1075, 1076, 1126, 1127];
    for k in 0..64u32 {
        let p = 1usize << k;
        samples.push(p);
        samples.push(p - 1);
        samples.push(p.wrapping_add(1));
        samples.push(p / 10 * 13);
    }
    for t in 0..4096usize {
        samples.push(1024 + t * 51);
        samples.push(1_048_576 + t * 52_429);
        samples.push(1_073_741_824usize.wrapping_mul(t + 1).wrapping_add(t * 107_374_182));
    }
    samples.push(usize::MAX);
    samples.push(usize::MAX - 1);
    samples.push((1usize << 53) + 1);
    samples.push((1usize << 53) + 3);
    samples.push((1usize << 54) + 2);
    samples.push((1usize << 54) + 6);
    for bytes in samples {
        assert_eq!(format_bytes(bytes), float_rendering(bytes), "{bytes}");
    }
}

#[test]
fn decimal_strings() {
    assert_eq!(decimal_string(0), "0");
    assert_eq!(decimal_string(7), "7");
    assert_eq!(decimal_string(10), "10");
    assert_eq!(decimal_string(u128::MAX), u128::MAX.to_string());
}
