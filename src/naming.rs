//! Names of the staged output files, by backlog position.
use vstd::prelude::*;
use crate::text::{push_zero_padded, replaced, zero_padded};

verus! {

/// The part of `s` after its last `/`, or all of `s` where it holds none.
pub open spec fn last_segment(s: Seq<char>) -> Seq<char>
    decreases s.len(),
{
    if s.len() == 0 {
        s
    } else if s.last() == '/' {
        Seq::empty()
    } else {
        last_segment(s.drop_last()).push(s.last())
    }
}

/// The staged name of the chapter at position `index` fetched from `url`: the position
/// in four or more digits, a dash, and the last path segment of the address without spaces.
pub open spec fn chapter_file_name(index: nat, url: Seq<char>) -> Seq<char> {
    zero_padded(index, 4) + "-"@ + replaced(last_segment(url), " "@, ""@)
}

/// The name of the chapter page at position `index`, counted from one.
pub open spec fn page_file_name(index: nat) -> Seq<char> {
    zero_padded(index + 1, 4) + ".html"@
}

fn last_segment_of(url: &str) -> (r: &str)
    ensures
        r@ == last_segment(url@),
{
    let len = url.unicode_len();
    let mut k: usize = len;
    assert(url@.subrange(k as int, len as int) =~= Seq::<char>::empty());
    assert(url@.subrange(0, len as int) =~= url@);
    while k > 0
        invariant
            len == url@.len(),
            k <= len,
            last_segment(url@) == last_segment(url@.subrange(0, k as int)) + url@.subrange(k as int, len as int),
        decreases k,
    {
        let ghost pre = url@.subrange(0, k as int);
        assert(pre.drop_last() =~= url@.subrange(0, k - 1));
        if url.get_char(k - 1) == '/' {
            assert(last_segment(pre) =~= Seq::<char>::empty());
            assert(last_segment(url@) =~= url@.subrange(k as int, len as int));
            return url.substring_char(k, len);
        }
        assert(url@.subrange(k - 1, len as int) =~= seq![url@[k - 1]] + url@.subrange(k as int, len as int));
        k = k - 1;
    }
    assert(url@.subrange(0, 0) =~= Seq::<char>::empty());
    assert(url@.subrange(0, len as int) =~= url@);
    url
}

/// The staged name of the chapter at position `index` fetched from `url`.
pub fn url_to_filename(index: usize, url: &str) -> (r: String)
    ensures
        r@ == chapter_file_name(index as nat, url@),
{
    let segment = crate::text::replace_all(last_segment_of(url), " ", "");
    let mut r = String::new();
    push_zero_padded(&mut r, index as u64, 4);
    r.append("-");
    r.append(segment.as_str());
    r
}

/// The name of the chapter page at position `index`, counted from one.
pub fn index_to_filename(index: usize) -> (r: String)
    requires
        index < usize::MAX,
    ensures
        r@ == page_file_name(index as nat),
{
    let mut r = String::new();
    push_zero_padded(&mut r, (index + 1) as u64, 4);
    r.append(".html");
    r
}

} // verus!
