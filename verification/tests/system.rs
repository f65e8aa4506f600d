use lib::system::{parse_meminfo, parse_meminfo_line};

#[test]
fn parses_linux_meminfo_value() {
    assert_eq!(
        parse_meminfo_line("MemTotal:       16384000 kB", "MemTotal:"),
        Some(16_777_216_000)
    );
}

#[test]
fn rejects_wrong_meminfo_key() {
    assert_eq!(parse_meminfo_line("MemFree: 100 kB", "MemTotal:"), None);
}

#[test]
fn meminfo_words_follow_integer_parsing() {
    assert_eq!(parse_meminfo_line("MemTotal:+5 kB", "MemTotal:"), Some(5120));
    assert_eq!(parse_meminfo_line("MemTotal:\t\t7", "MemTotal:"), Some(7168));
    assert_eq!(parse_meminfo_line("MemTotal:", "MemTotal:"), None);
    assert_eq!(parse_meminfo_line("MemTotal:    ", "MemTotal:"), None);
    assert_eq!(parse_meminfo_line("MemTotal: -5 kB", "MemTotal:"), None);
    assert_eq!(parse_meminfo_line("MemTotal: + kB", "MemTotal:"), None);
    assert_eq!(parse_meminfo_line("MemTotal: 12kB", "MemTotal:"), None);
    assert_eq!(parse_meminfo_line(" MemTotal: 12 kB", "MemTotal:"), None);
    // Largest count whose byte value fits, then the first that overflows.
    assert_eq!(
        parse_meminfo_line("MemTotal: 18014398509481983 kB", "MemTotal:"),
        Some(18_014_398_509_481_983 * 1024)
    );
    assert_eq!(parse_meminfo_line("MemTotal: 18014398509481984 kB", "MemTotal:"), None);
    assert_eq!(parse_meminfo_line("MemTotal: 99999999999999999999 kB", "MemTotal:"), None);
}

#[test]
fn meminfo_takes_total_and_available() {
    let contents = "MemTotal:       16384000 kB\nMemFree:         1000 kB\nMemAvailable:    8192000 kB\nBuffers: 1 kB\n";
    assert_eq!(parse_meminfo(contents), (Some(16_777_216_000), Some(8_388_608_000)));
    assert_eq!(parse_meminfo(""), (None, None));
    assert_eq!(parse_meminfo("MemFree: 1 kB"), (None, None));
    // The last line that states a value wins.
    assert_eq!(
        parse_meminfo("MemTotal: 1 kB\r\nMemTotal: 2 kB\r\nMemTotal: bad\n"),
        (Some(2048), None)
    );
}
