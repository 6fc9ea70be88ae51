use bom_buddy::station::{split_lines, StationsTable};

fn row(c: [&str; 12]) -> String {
    format!(
        "{:<8}{:<6}{:<41}{:<8}{:<8}{:<9}{:<10}{:<15}{:<4}{:<11}{:<9}{:<6}",
        c[0], c[1], c[2], c[3], c[4], c[5], c[6], c[7], c[8], c[9], c[10], c[11]
    )
}

#[test]
fn stations_table_reads_fixed_width_rows() {
    let first = row(["70351", "70", "CANBERRA AIRPORT", "2008", "..", "-35.3088", "149.2004", "GPS", "ACT", "578.4", "580.5", "94926"]);
    let second = row(["1000", "01", "KARUNJIE", "1940", "1983", "-16.2919", "127.1956", ".....", "WA", "..", "..", ".."]);
    let text = format!("header 1\nheader 2\r\nheader 3\n\nheader 5\n{first}\r\n{second}\n\nfooter\n");
    let mut table = StationsTable::new(&text);
    let a = table.next_row().unwrap();
    assert_eq!(a.len(), 12);
    assert_eq!(a[0], "70351");
    assert_eq!(a[2], "CANBERRA AIRPORT");
    assert_eq!(a[4], "..");
    assert_eq!(a[8], "ACT");
    assert_eq!(a[11], "94926");
    let b = table.next_row().unwrap();
    assert_eq!(b[2], "KARUNJIE");
    assert_eq!(b[7], ".....");
    assert!(table.next_row().is_none());
}

#[test]
fn lines_are_split_like_str_lines() {
    let text = "a\r\nb\n\nc\n";
    let lines = split_lines(text);
    let expected: Vec<String> = text.lines().map(|l| l.to_string()).collect();
    assert_eq!(lines, expected);
    assert_eq!(split_lines("x"), vec!["x".to_string()]);
    assert!(split_lines("").is_empty());
}
