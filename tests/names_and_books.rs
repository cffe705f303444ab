use wnrake::book::{BookInfo, ChapterList, UrlCache};
use wnrake::naming::{index_to_filename, url_to_filename};

#[test]
fn chapter_file_names() {
    assert_eq!(url_to_filename(3, "https://site/book/chapter 1"), "0003-chapter1");
    assert_eq!(url_to_filename(12345, "https://site/x"), "12345-x");
    assert_eq!(url_to_filename(0, "no-slash"), "0000-no-slash");
    assert_eq!(url_to_filename(7, "https://site/dir/"), "0007-");
}

#[test]
fn page_file_names() {
    assert_eq!(index_to_filename(0), "0001.html");
    assert_eq!(index_to_filename(41), "0042.html");
    assert_eq!(index_to_filename(9999), "10000.html");
}

#[test]
fn backlog_lines_are_trimmed_and_blanks_dropped() {
    let lines = vec!["  https://site/1 ".to_string(), "".to_string(), "\t".to_string(), "https://site/2".to_string()];
    let backlog = UrlCache::from_lines(&lines);
    assert_eq!(backlog.urls(), &vec!["https://site/1".to_string(), "https://site/2".to_string()]);
    assert!(UrlCache::new().0.is_empty());
}

#[test]
fn empty_book_structures() {
    let b = BookInfo::new();
    assert!(b.title.is_empty() && b.author.is_empty() && b.url.is_empty());
    assert!(ChapterList::new().0.is_empty());
}
