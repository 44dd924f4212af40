use sweep_rs::sweep_core::size::allocated_size;
use sweep_rs::sweep_core::size::format_bytes;
use sweep_rs::sweep_core::size::total_allocated;

#[test]
fn test_allocated_size() {
    assert_eq!(allocated_size(0), 0);
    assert_eq!(allocated_size(1), 4096);
    assert_eq!(allocated_size(4096), 4096);
    assert_eq!(allocated_size(4097), 8192);
    assert_eq!(allocated_size(8192), 8192);
}

#[test]
fn test_format_bytes() {
    assert_eq!(format_bytes(500), "500 B");
    assert_eq!(format_bytes(1024), "1.0 KB");
    assert_eq!(format_bytes(1536), "1.5 KB");
    assert_eq!(format_bytes(1024 * 1024 * 10), "10.0 MB");
    assert_eq!(format_bytes(1024 * 1024 * 1024 * 2), "2.00 GB");
}

#[test]
fn allocated_size_is_whole_clusters() {
    for len in [1u64, 100, 4095, 4096, 4097, 12_345, 1 << 40, u64::MAX - 4095] {
        let a = allocated_size(len);
        assert_eq!(a % 4096, 0);
        assert!(a >= len);
        assert!(a - len < 4096);
    }
    assert_eq!(allocated_size(u64::MAX - 4095), u64::MAX - 4095);
}

#[test]
fn test_compute_dir_size_with_blocks() {
    // The files of a directory, five and ten bytes long, occupy a cluster each.
    assert_eq!(total_allocated(&vec![5, 10]), Some(4096 * 2));
    assert_eq!(total_allocated(&vec![]), Some(0));
    assert_eq!(total_allocated(&vec![0, 4096, 4097]), Some(4096 + 8192));
}

#[test]
fn total_allocated_reports_overflow() {
    assert_eq!(total_allocated(&vec![u64::MAX]), None);
    assert_eq!(total_allocated(&vec![u64::MAX - 4095, 1]), None);
}

#[test]
fn format_bytes_edges() {
    assert_eq!(format_bytes(0), "0 B");
    assert_eq!(format_bytes(1023), "1023 B");
    assert_eq!(format_bytes(1048575), "1024.0 KB");
    assert_eq!(format_bytes(1280), "1.2 KB");
    assert_eq!(format_bytes(1792), "1.8 KB");
    assert_eq!(format_bytes(1u64 << 40), "1.00 TB");
    assert_eq!(format_bytes(u64::MAX), "16777216.00 TB");
}

fn float_rendering(bytes: u64) -> String {
    const KB: f64 = 1024.0;
    const MB: f64 = KB * 1024.0;
    const GB: f64 = MB * 1024.0;
    const TB: f64 = GB * 1024.0;
    let b = bytes as f64;
    if b < KB {
        format!("{} B", bytes)
    } else if b < MB {
        format!("{:.1} KB", b / KB)
    } else if b < GB {
        format!("{:.1} MB", b / MB)
    } else if b < TB {
        format!("{:.2} GB", b / GB)
    } else {
        format!("{:.2} TB", b / TB)
    }
}

#[test]
fn format_bytes_agrees_with_float_rendering() {
    let mut samples: Vec<u64> = Vec::new();
    for k in 0..5000u64 {
        samples.push(k * 7 + 1000);
        samples.push(k * 104_857 + 1_048_000);
        samples.push(k * 10_737_418 + 1_073_741_000);
        samples.push((k + 1) * 1_099_511_627);
    }
    for shift in 0..64u32 {
        let base = 1u64 << shift;
        for delta in [0u64, 1, 2, 3, 51, 512, 1023] {
            samples.push(base.wrapping_add(delta));
            samples.push(base.wrapping_sub(delta));
        }
    }
    samples.push(u64::MAX);
    samples.push(u64::MAX - 1);
    samples.push((1u64 << 53) + 1);
    samples.push((1u64 << 54) + 2);
    samples.push((1u64 << 54) + 6);
    for ties in 1..2000u64 {
        samples.push(ties * 1024 + 512);
        samples.push(ties * 1024 * 1024 + 52_428 * 2 + 1);
    }
    for b in samples {
        assert_eq!(format_bytes(b), float_rendering(b), "bytes = {}", b);
    }
}
