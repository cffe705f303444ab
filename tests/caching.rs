use wnrake::cache::Cache;

#[test]
fn entry_names_carry_day_and_sanitized_url() {
    let c = Cache::with_prefix("/tmp/cache", "2024-05-01");
    assert_eq!(c.entry_name("https://site/1"), "2024-05-01_https_site_1");
    assert_eq!(c.entry_name("https://www.site.com/book/ch-2?x=1"), "2024-05-01_https_www.site.com_book_ch-2?x=1");
    assert_eq!(c.dir(), "/tmp/cache");
    assert_eq!(c.prefix(), "2024-05-01");
}

#[test]
fn same_url_maps_to_same_entry() {
    let c = Cache::with_prefix("d", "2024-05-01");
    let first = c.entry_name("https://site/a");
    let second = c.entry_name("https://site/a");
    assert_eq!(first, second);
    assert!(c.keeps(&first));
}

#[test]
fn purge_removes_exactly_other_days() {
    let c = Cache::with_prefix("d", "2024-05-02");
    let names = vec![
        "2024-05-01_https_site_1".to_string(),
        "2024-05-02_https_site_1".to_string(),
        "other".to_string(),
        "2024-05-02_https_site_2".to_string(),
    ];
    let stale = c.stale_entries(&names);
    assert_eq!(stale, vec!["2024-05-01_https_site_1".to_string(), "other".to_string()]);
    assert!(c.stale_entries(&Vec::new()).is_empty());
}

#[test]
fn cache_for_today_has_a_date_prefix() {
    let c = Cache::for_today("d");
    assert_eq!(c.dir(), "d");
    let p: Vec<char> = c.prefix().chars().collect();
    let n = p.len();
    assert!(n >= 10);
    assert_eq!(p[n - 3], '-');
    assert_eq!(p[n - 6], '-');
    assert!(p[n - 5..n - 3].iter().chain(p[n - 2..].iter()).all(|d| d.is_ascii_digit()));
}
