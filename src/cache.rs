//! The day-scoped response cache: where an entry lives and which entries are stale.
//!
//! Entries are files named by the day and the sanitized request address. Reading and
//! writing the files is left to the caller; this module decides the names.
use vstd::prelude::*;
use crate::text::{begins_with, replace_all, replaced, starts_with, texts};

verus! {

/// A decimal digit.
pub open spec fn is_digit(c: char) -> bool {
    '0' <= c && c <= '9'
}

/// The text of a day as `YYYY-MM-DD`: a year of at least four digits, with a sign only
/// outside years 0 to 9999, then a dash, two digits of month, a dash, two digits of day.
pub open spec fn day_text(s: Seq<char>) -> bool {
    let n = s.len();
    &&& n >= 10
    &&& s[n - 6] == '-'
    &&& s[n - 3] == '-'
    &&& is_digit(s[n - 5]) && is_digit(s[n - 4]) && is_digit(s[n - 2]) && is_digit(s[n - 1])
    &&& forall|i: int| 0 <= i < n - 6 ==> is_digit(#[trigger] s[i]) || (i == 0 && (s[i] == '+' || s[i] == '-'))
}

/// Relies on chrono's `Local::now().date_naive()` for today's date, written by the `Display`
/// of `NaiveDate`: the year in four digits (signed, and wider, outside 0 to 9999), then
/// the month and the day in two digits each, joined by dashes.
#[verifier::external_body]
fn today() -> (r: String)
    ensures
        day_text(r@),
{
    chrono::Local::now().date_naive().to_string()
}

/// A request address made fit for a file name: `:` removed, `//` folded to `/`, and `/`
/// turned into `_`.
pub open spec fn sanitized(url: Seq<char>) -> Seq<char> {
    replaced(replaced(replaced(url, ":"@, ""@), "//"@, "/"@), "/"@, "_"@)
}

/// The name of the entry for `url` under the day prefix `prefix`.
pub open spec fn entry_name_of(prefix: Seq<char>, url: Seq<char>) -> Seq<char> {
    prefix + "_"@ + sanitized(url)
}

/// The names among `names` that a cache for the day `prefix` deletes.
pub open spec fn stale_of(prefix: Seq<char>, names: Seq<Seq<char>>) -> Seq<Seq<char>> {
    names.filter(|n: Seq<char>| !begins_with(n, prefix))
}

/// The names among `names` that a cache for the day `prefix` keeps.
pub open spec fn kept_of(prefix: Seq<char>, names: Seq<Seq<char>>) -> Seq<Seq<char>> {
    names.filter(|n: Seq<char>| begins_with(n, prefix))
}

/// A cache directory and the day prefix of its live entries.
#[derive(Clone, Debug)]
pub struct Cache {
    pub dir: String,
    pub prefix: String,
}

impl Cache {
    /// A cache in `dir` for today, by the local clock.
    pub fn for_today(dir: &str) -> (r: Self)
        ensures
            r.dir@ == dir@,
            day_text(r.prefix@),
    {
        Cache { dir: dir.to_owned(), prefix: today() }
    }

    /// A cache in `dir` whose live entries carry `prefix`.
    pub fn with_prefix(dir: &str, prefix: &str) -> (r: Self)
        ensures
            r.dir@ == dir@,
            r.prefix@ == prefix@,
    {
        Cache { dir: dir.to_owned(), prefix: prefix.to_owned() }
    }

    /// The cache directory.
    pub fn dir(&self) -> (r: &str)
        ensures
            r@ == self.dir@,
    {
        self.dir.as_str()
    }

    /// The day prefix.
    pub fn prefix(&self) -> (r: &str)
        ensures
            r@ == self.prefix@,
    {
        self.prefix.as_str()
    }

    /// The file name of the entry for `url`.
    pub fn entry_name(&self, url: &str) -> (r: String)
        ensures
            r@ == entry_name_of(self.prefix@, url@),
    {
        let a = replace_all(url, ":", "");
        let b = replace_all(a.as_str(), "//", "/");
        let c = replace_all(b.as_str(), "/", "_");
        let mut r = self.prefix.clone();
        r.append("_");
        r.append(c.as_str());
        r
    }

    /// Whether the file `name` is a live entry of this day.
    pub fn keeps(&self, name: &str) -> (r: bool)
        ensures
            r == begins_with(name@, self.prefix@),
    {
        starts_with(name, self.prefix.as_str())
    }

    /// The names among `names`, in order, that belong to another day and are to be deleted.
    pub fn stale_entries(&self, names: &Vec<String>) -> (r: Vec<String>)
        ensures
            texts(r@) == stale_of(self.prefix@, texts(names@)),
    {
        let mut r: Vec<String> = Vec::new();
        let mut i: usize = 0;
        while i < names.len()
            invariant
                i <= names@.len(),
                texts(r@) == stale_of(self.prefix@, texts(names@.subrange(0, i as int))),
            decreases names@.len() - i,
        {
            let ghost before = texts(names@.subrange(0, i as int));
            let ghost after = texts(names@.subrange(0, i + 1));
            assert(after.drop_last() =~= before);
            assert(after.last() == names@[i as int]@);
            proof {
                reveal(Seq::filter);
            }
            if !self.keeps(names[i].as_str()) {
                r.push(names[i].clone());
                assert(texts(r@) =~= stale_of(self.prefix@, before).push(names@[i as int]@));
            }
            i = i + 1;
        }
        assert(names@.subrange(0, names@.len() as int) =~= names@);
        r
    }
}

/// An entry is found under the name it was written under: the name depends on the day and
/// the address alone, and carries the day prefix, so a purge for the same day keeps it.
pub proof fn lemma_entry_survives_same_day(prefix: Seq<char>, url: Seq<char>)
    ensures
        begins_with(entry_name_of(prefix, url), prefix),
{
    let n = entry_name_of(prefix, url);
    assert(n.subrange(0, prefix.len() as int) =~= prefix);
}

/// After a purge, no entry of another day remains and every entry of the day remains.
pub proof fn lemma_purge_is_exact(prefix: Seq<char>, names: Seq<Seq<char>>)
    ensures
        forall|n: Seq<char>| #[trigger] stale_of(prefix, names).contains(n) <==> (names.contains(n) && !begins_with(n, prefix)),
        forall|n: Seq<char>| #[trigger] kept_of(prefix, names).contains(n) <==> (names.contains(n) && begins_with(n, prefix)),
{
    broadcast use vstd::seq_lib::group_filter_ensures;
    assert forall|n: Seq<char>| #[trigger] stale_of(prefix, names).contains(n) <==> (names.contains(n) && !begins_with(n, prefix)) by {
        if stale_of(prefix, names).contains(n) {
            let i = choose|i: int| 0 <= i < stale_of(prefix, names).len() && stale_of(prefix, names)[i] == n;
            names.lemma_filter_pred(|n: Seq<char>| !begins_with(n, prefix), i);
            names.lemma_filter_contains_rev(|n: Seq<char>| !begins_with(n, prefix), n);
        }
        if names.contains(n) && !begins_with(n, prefix) {
            let i = choose|i: int| 0 <= i < names.len() && names[i] == n;
            names.lemma_filter_contains(|n: Seq<char>| !begins_with(n, prefix), i);
        }
    }
    assert forall|n: Seq<char>| #[trigger] kept_of(prefix, names).contains(n) <==> (names.contains(n) && begins_with(n, prefix)) by {
        if kept_of(prefix, names).contains(n) {
            let i = choose|i: int| 0 <= i < kept_of(prefix, names).len() && kept_of(prefix, names)[i] == n;
            names.lemma_filter_pred(|n: Seq<char>| begins_with(n, prefix), i);
            names.lemma_filter_contains_rev(|n: Seq<char>| begins_with(n, prefix), n);
        }
        if names.contains(n) && begins_with(n, prefix) {
            let i = choose|i: int| 0 <= i < names.len() && names[i] == n;
            names.lemma_filter_contains(|n: Seq<char>| begins_with(n, prefix), i);
        }
    }
}

} // verus!
