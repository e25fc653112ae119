//! Character-level helpers: character classes, substring search, fragment
//! splitting, and the few conversions that go through std.
use vstd::prelude::*;

verus! {

/// Unicode `White_Space` code points (the set `char::is_whitespace` accepts).
pub open spec fn is_white_space(c: char) -> bool {
    let u = c as u32;
    (0x09 <= u && u <= 0x0D) || u == 0x20 || u == 0x85 || u == 0xA0 || u == 0x1680 || (0x2000
        <= u && u <= 0x200A) || u == 0x2028 || u == 0x2029 || u == 0x202F || u == 0x205F || u
        == 0x3000
}

/// ASCII punctuation: `!"#$%&'()*+,-./:;<=>?@[\]^_`{|}~`.
pub open spec fn is_ascii_punct(c: char) -> bool {
    let u = c as u32;
    (0x21 <= u && u <= 0x2F) || (0x3A <= u && u <= 0x40) || (0x5B <= u && u <= 0x60) || (0x7B
        <= u && u <= 0x7E)
}

pub fn white_space(c: char) -> (r: bool)
    ensures
        r == is_white_space(c),
{
    let u = c as u32;
    (0x09 <= u && u <= 0x0D) || u == 0x20 || u == 0x85 || u == 0xA0 || u == 0x1680 || (0x2000
        <= u && u <= 0x200A) || u == 0x2028 || u == 0x2029 || u == 0x202F || u == 0x205F || u
        == 0x3000
}

pub fn ascii_punct(c: char) -> (r: bool)
    ensures
        r == is_ascii_punct(c),
{
    let u = c as u32;
    (0x21 <= u && u <= 0x2F) || (0x3A <= u && u <= 0x40) || (0x5B <= u && u <= 0x60) || (0x7B
        <= u && u <= 0x7E)
}

/// `k` occurs in `h` starting at position `i`.
pub open spec fn occurs_at(h: Seq<char>, k: Seq<char>, i: int) -> bool {
    0 <= i && i + k.len() <= h.len() && h.subrange(i, i + k.len()) == k
}

/// `k` is a contiguous part of `h`.
pub open spec fn has_sub(h: Seq<char>, k: Seq<char>) -> bool {
    exists|i: int| occurs_at(h, k, i)
}

fn matches_at(h: &Vec<char>, k: &Vec<char>, i: usize) -> (r: bool)
    requires
        i + k.len() <= h.len(),
    ensures
        r == occurs_at(h@, k@, i as int),
{
    let mut j: usize = 0;
    while j < k.len()
        invariant
            j <= k.len(),
            i + k.len() <= h.len(),
            forall|m: int| 0 <= m < j ==> h@[i + m] == k@[m],
        decreases k.len() - j,
    {
        if h[i + j] != k[j] {
            assert(h@.subrange(i as int, i + k.len())[j as int] != k@[j as int]);
            return false;
        }
        j += 1;
    }
    assert(h@.subrange(i as int, i + k.len()) =~= k@);
    true
}

/// Substring search over characters.
pub fn contains_chars(h: &Vec<char>, k: &Vec<char>) -> (r: bool)
    ensures
        r == has_sub(h@, k@),
{
    if k.len() > h.len() {
        return false;
    }
    let mut i: usize = 0;
    let last: usize = h.len() - k.len();
    loop
        invariant
            k.len() <= h.len(),
            last == h.len() - k.len(),
            i <= last,
            forall|m: int| 0 <= m < i ==> !occurs_at(h@, k@, m),
        decreases last - i,
    {
        if matches_at(h, k, i) {
            return true;
        }
        if i == last {
            return false;
        }
        i += 1;
    }
}

/// Closes the fragment being accumulated, if it is not empty.
pub open spec fn flush(done: Seq<Seq<char>>, cur: Seq<char>) -> Seq<Seq<char>> {
    if cur.len() == 0 {
        done
    } else {
        done.push(cur)
    }
}

/// State after reading `s` from left to right: the finished fragments and
/// the fragment still being accumulated.
pub open spec fn scan(s: Seq<char>) -> (Seq<Seq<char>>, Seq<char>)
    decreases s.len(),
{
    if s.len() == 0 {
        (seq![], seq![])
    } else {
        let prev = scan(s.drop_last());
        let c = s.last();
        if is_white_space(c) {
            (flush(prev.0, prev.1), seq![])
        } else if is_ascii_punct(c) {
            (flush(prev.0, prev.1).push(seq![c]), seq![])
        } else {
            (prev.0, prev.1.push(c))
        }
    }
}

/// The text split on white space, each piece split further so that every
/// ASCII punctuation character stands as a fragment of its own.
pub open spec fn fragments(s: Seq<char>) -> Seq<Seq<char>> {
    flush(scan(s).0, scan(s).1)
}

pub open spec fn views_of_chars(v: Seq<Vec<char>>) -> Seq<Seq<char>> {
    v.map_values(|f: Vec<char>| f@)
}

pub fn split_fragments(text: &Vec<char>) -> (r: Vec<Vec<char>>)
    ensures
        views_of_chars(r@) == fragments(text@),
{
    let mut done: Vec<Vec<char>> = Vec::new();
    let mut cur: Vec<char> = Vec::new();
    let mut i: usize = 0;
    while i < text.len()
        invariant
            i <= text.len(),
            views_of_chars(done@) == scan(text@.take(i as int)).0,
            cur@ == scan(text@.take(i as int)).1,
        decreases text.len() - i,
    {
        let c = text[i];
        assert(text@.take(i + 1).drop_last() =~= text@.take(i as int));
        if white_space(c) || ascii_punct(c) {
            if cur.len() > 0 {
                let ghost before = done@;
                done.push(cur);
                assert(views_of_chars(done@) =~= views_of_chars(before).push(cur@));
            }
            cur = Vec::new();
            if !white_space(c) {
                let ghost before = done@;
                let mut single: Vec<char> = Vec::new();
                single.push(c);
                done.push(single);
                assert(single@ =~= seq![c]);
                assert(views_of_chars(done@) =~= views_of_chars(before).push(seq![c]));
            }
        } else {
            cur.push(c);
        }
        i += 1;
    }
    assert(text@.take(text.len() as int) =~= text@);
    if cur.len() > 0 {
        let ghost before = done@;
        done.push(cur);
        assert(views_of_chars(done@) =~= views_of_chars(before).push(cur@));
    }
    done
}

/// What `str::to_lowercase` returns for the given characters.
pub uninterp spec fn lower_of(s: Seq<char>) -> Seq<char>;

/// Relies on `str::to_lowercase`: the result depends on the characters alone,
/// and an empty string stays empty.
#[verifier::external_body]
pub(crate) fn lowercase(s: &str) -> (r: String)
    ensures
        r@ == lower_of(s@),
        s@.len() == 0 ==> r@.len() == 0,
{
    s.to_lowercase()
}

/// Relies on `str::chars`: the characters of the string, in order.
#[verifier::external_body]
pub(crate) fn chars_of(s: &str) -> (r: Vec<char>)
    ensures
        r@ == s@,
{
    s.chars().collect()
}

/// Relies on `String: FromIterator<char>`: the string made of the characters, in order.
#[verifier::external_body]
pub(crate) fn string_of(cs: &Vec<char>) -> (r: String)
    ensures
        r@ == cs@,
{
    cs.iter().collect()
}

} // verus!
