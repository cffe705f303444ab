//! Book metadata and the backlog of chapter addresses.
use vstd::prelude::*;
use crate::text::{texts, trim_of, trimmed};

verus! {

/// The title, author and landing page of a book.
#[derive(Clone, Debug)]
pub struct BookInfo {
    pub title: String,
    pub author: String,
    pub url: String,
}

impl BookInfo {
    /// Empty book metadata.
    pub fn new() -> (r: Self)
        ensures
            r.title@.len() == 0,
            r.author@.len() == 0,
            r.url@.len() == 0,
    {
        BookInfo { title: String::new(), author: String::new(), url: String::new() }
    }
}

/// The non-blank lines of `lines`, trimmed, in order.
pub open spec fn backlog_of(lines: Seq<Seq<char>>) -> Seq<Seq<char>>
    decreases lines.len(),
{
    if lines.len() == 0 {
        Seq::empty()
    } else {
        let rest = backlog_of(lines.drop_last());
        let t = trim_of(lines.last());
        if t.len() == 0 {
            rest
        } else {
            rest.push(t)
        }
    }
}

/// The ordered list of chapter addresses: the work backlog.
#[derive(Clone, Debug)]
pub struct UrlCache(pub Vec<String>);

impl UrlCache {
    /// An empty backlog.
    pub fn new() -> (r: Self)
        ensures
            r.0@.len() == 0,
    {
        UrlCache(Vec::new())
    }

    /// The backlog held by the lines of a backlog file: each line trimmed, blank lines dropped.
    pub fn from_lines(lines: &Vec<String>) -> (r: Self)
        ensures
            texts(r.0@) == backlog_of(texts(lines@)),
    {
        let mut urls: Vec<String> = Vec::new();
        let mut i: usize = 0;
        while i < lines.len()
            invariant
                i <= lines@.len(),
                texts(urls@) == backlog_of(texts(lines@.subrange(0, i as int))),
            decreases lines@.len() - i,
        {
            let ghost before = texts(lines@.subrange(0, i as int));
            let ghost after = texts(lines@.subrange(0, i + 1));
            assert(after.drop_last() =~= before);
            assert(after.last() == lines@[i as int]@);
            let t = trimmed(lines[i].as_str());
            if t.unicode_len() > 0 {
                urls.push(t.to_owned());
                assert(texts(urls@) =~= backlog_of(before).push(t@));
            }
            i = i + 1;
        }
        assert(lines@.subrange(0, lines@.len() as int) =~= lines@);
        UrlCache(urls)
    }

    /// The addresses, in order.
    pub fn urls(&self) -> (r: &Vec<String>)
        ensures
            *r == self.0,
    {
        &self.0
    }
}

/// A chapter's title and its content.
#[derive(Clone, Debug)]
pub struct Chapter {
    pub title: String,
    pub html: String,
}

/// Where a packaged chapter lives, and its title.
#[derive(Clone, Debug)]
pub struct ChapterInfo {
    pub path: String,
    pub title: String,
}

/// The ordered chapters of a book.
#[derive(Clone, Debug)]
pub struct ChapterList(pub Vec<ChapterInfo>);

impl ChapterList {
    /// An empty chapter list.
    pub fn new() -> (r: Self)
        ensures
            r.0@.len() == 0,
    {
        ChapterList(Vec::new())
    }
}

} // verus!
