use telegram_bot_seller::resources::{
    battery_charge, ram_usage_mb, read_meminfo, read_meminfo_line, second_word_of, simulated_battery,
    DEFAULT_MEM_AVAILABLE_KB, DEFAULT_MEM_TOTAL_KB,
};

#[test]
fn test_read_meminfo() {
    let text = "MemTotal:        7824536 kB\nMemFree:          251304 kB\r\nMemAvailable:    3120788 kB\nBuffers: 1 kB\n";
    assert_eq!(read_meminfo(text), (7824536, 3120788));
    assert_eq!(read_meminfo(""), (DEFAULT_MEM_TOTAL_KB, DEFAULT_MEM_AVAILABLE_KB));
    assert_eq!(read_meminfo("MemTotal: lots kB\nMemAvailable:\n"), (8388608, 4194304));
    // The last line with a number wins; a carriage return ends a line only before a line feed.
    assert_eq!(read_meminfo("MemTotal: 1 kB\nMemTotal: 2 kB\r\nMemAvailable: 7"), (2, 7));
    assert_eq!(read_meminfo(" MemTotal: 5 kB"), (8388608, 4194304));
}

#[test]
fn test_meminfo_line_and_words() {
    assert_eq!(read_meminfo_line("MemAvailable:   12 kB", 1, 2), (1, 12));
    assert_eq!(read_meminfo_line("MemTotal:12 kB", 1, 2), (1, 2));
    assert_eq!(second_word_of("  a \t b c"), Some("b".to_string()));
    assert_eq!(second_word_of("only"), None);
    assert_eq!(second_word_of("   "), None);
}

#[test]
fn test_ram_usage_and_battery() {
    assert_eq!(ram_usage_mb(8388608, 4194304), (4096, 8192));
    assert_eq!(ram_usage_mb(1000, 5000), (0, 0));
    assert_eq!(ram_usage_mb(3072, 1023), (2, 3));
    assert_eq!(battery_charge(" 76\n"), 76);
    assert_eq!(battery_charge("100"), 100);
    assert_eq!(battery_charge("256"), 88);
    assert_eq!(battery_charge("full"), 88);
    assert_eq!(simulated_battery(0), 98);
    assert_eq!(simulated_battery(59 * 60), 79);
    assert_eq!(simulated_battery(3600 + 6 * 60 + 59), 96);
}
