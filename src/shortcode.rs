//! Finding a clip identifier in free-form text.
use vstd::prelude::*;

verus! {

/// The text that introduces a clip link, `https://streamable.com/`.
pub open spec fn marker() -> Seq<char> {
    seq!['h', 't', 't', 'p', 's', ':', '/', '/', 's', 't', 'r', 'e', 'a', 'm', 'a', 'b', 'l', 'e', '.', 'c', 'o', 'm', '/']
}

/// A character that may stand in an identifier: a lowercase ASCII letter or a digit.
pub open spec fn is_code_char(c: char) -> bool {
    ('a' <= c && c <= 'z') || ('0' <= c && c <= '9')
}

/// The marker occurs in `t` at position `i`.
pub open spec fn marker_at(t: Seq<char>, i: int) -> bool {
    0 <= i && i + marker().len() <= t.len() && t.subrange(i, i + marker().len()) == marker()
}

/// A link starts at `i`: the marker, then at least one identifier character.
pub open spec fn link_at(t: Seq<char>, i: int) -> bool {
    marker_at(t, i) && i + marker().len() < t.len() && is_code_char(t[i + marker().len()])
}

/// The longest run of identifier characters in `t` that starts at `j`.
pub open spec fn code_run(t: Seq<char>, j: int) -> Seq<char>
    decreases t.len() - j,
{
    if 0 <= j < t.len() && is_code_char(t[j]) {
        seq![t[j]] + code_run(t, j + 1)
    } else {
        Seq::empty()
    }
}

/// The identifier of the first link in `t` at or after position `i`.
pub open spec fn shortcode_from(t: Seq<char>, i: int) -> Option<Seq<char>>
    decreases t.len() - i,
{
    if i < 0 || i >= t.len() {
        None
    } else if link_at(t, i) {
        Some(code_run(t, i + marker().len()))
    } else {
        shortcode_from(t, i + 1)
    }
}

/// The identifier of the leftmost link in `t`, if there is one.
pub open spec fn shortcode_of(t: Seq<char>) -> Option<Seq<char>> {
    shortcode_from(t, 0)
}

/// Whether `c` may stand in an identifier.
pub fn is_shortcode_char(c: char) -> (r: bool)
    ensures
        r == is_code_char(c),
{
    ('a' <= c && c <= 'z') || ('0' <= c && c <= '9')
}

/// The code run that starts at `a` is the slice `[a, j)` when every character
/// there is an identifier character and the one at `j`, if any, is not.
proof fn lemma_code_run_is_slice(t: Seq<char>, a: int, j: int)
    requires
        0 <= a <= j <= t.len(),
        forall|k: int| a <= k < j ==> is_code_char(#[trigger] t[k]),
        j == t.len() || !is_code_char(t[j]),
    ensures
        code_run(t, a) == t.subrange(a, j),
    decreases j - a,
{
    if a < j {
        lemma_code_run_is_slice(t, a + 1, j);
        assert(seq![t[a]] + t.subrange(a + 1, j) =~= t.subrange(a, j));
    } else {
        assert(t.subrange(a, j) =~= Seq::<char>::empty());
    }
}

/// Past the last place where a link could still fit, there is none.
proof fn lemma_no_room_for_link(t: Seq<char>, i: int)
    requires
        0 <= i,
        i + marker().len() >= t.len(),
    ensures
        shortcode_from(t, i) is None,
    decreases t.len() - i,
{
    if i < t.len() {
        lemma_no_room_for_link(t, i + 1);
    }
}

/// Positions without a link do not change which identifier comes first.
proof fn lemma_skip_non_links(t: Seq<char>, a: int, i: int)
    requires
        0 <= a <= i,
        forall|k: int| a <= k < i ==> !link_at(t, k),
    ensures
        shortcode_from(t, a) == shortcode_from(t, i),
    decreases i - a,
{
    if a < i {
        lemma_skip_non_links(t, a + 1, i);
    }
}

/// When the first link of `t` starts at `i`, the identifier is the whole run of
/// lowercase letters and digits after its marker, up to the first character
/// outside that class or the end of the text.
pub proof fn lemma_first_link_gives_its_run(t: Seq<char>, i: int, j: int)
    requires
        link_at(t, i),
        forall|k: int| 0 <= k < i ==> !link_at(t, k),
        i + marker().len() < j <= t.len(),
        forall|k: int| i + marker().len() <= k < j ==> is_code_char(#[trigger] t[k]),
        j == t.len() || !is_code_char(t[j]),
    ensures
        shortcode_of(t) == Some(t.subrange(i + marker().len(), j)),
{
    lemma_skip_non_links(t, 0, i);
    lemma_code_run_is_slice(t, i + marker().len(), j);
}

/// Of two links in one text, only the identifier of the earlier one is
/// returned, when no link stands before it.
pub proof fn lemma_first_of_two_links(t: Seq<char>, i: int, j: int)
    requires
        link_at(t, i),
        link_at(t, j),
        i < j,
        forall|k: int| 0 <= k < i ==> !link_at(t, k),
    ensures
        shortcode_of(t) == Some(code_run(t, i + marker().len())),
{
    lemma_skip_non_links(t, 0, i);
}

/// A text in which no marker is followed by a lowercase letter or a digit
/// holds no identifier, whether the marker ends the text or another character
/// follows it.
pub proof fn lemma_no_code_after_marker(t: Seq<char>)
    requires
        forall|k: int|
            #[trigger] marker_at(t, k) ==> k + marker().len() == t.len() || !is_code_char(
                t[k + marker().len()],
            ),
    ensures
        shortcode_of(t) is None,
{
    assert forall|k: int| 0 <= k < t.len() implies !link_at(t, k) by {
        if link_at(t, k) {
            assert(marker_at(t, k));
        }
    }
    lemma_skip_non_links(t, 0, t.len() as int);
}

/// A text in which every marker is followed by an uppercase letter holds no
/// identifier: matching is case-sensitive.
pub proof fn lemma_uppercase_after_marker(t: Seq<char>)
    requires
        forall|k: int|
            #[trigger] marker_at(t, k) ==> k + marker().len() < t.len() && 'A' <= t[k
                + marker().len()] <= 'Z',
    ensures
        shortcode_of(t) is None,
{
    lemma_no_code_after_marker(t);
}

/// The characters of `text`, in order.
fn chars_of(text: &str) -> (r: Vec<char>)
    ensures
        r@ == text@,
{
    broadcast use vstd::string::group_string_axioms;
    let mut r: Vec<char> = Vec::new();
    for c in it: text.chars()
        invariant
            it.seq() == text@,
            r@ == it.seq().take(it.index() as int),
    {
        r.push(c);
    }
    r
}

/// Whether `pat` occurs in `t` at position `i`.
fn occurs_at(t: &Vec<char>, i: usize, pat: &Vec<char>) -> (r: bool)
    requires
        i + pat.len() <= t.len(),
    ensures
        r == (t@.subrange(i as int, i + pat.len()) == pat@),
{
    let mut k: usize = 0;
    while k < pat.len()
        invariant
            k <= pat.len(),
            i + pat.len() <= t.len(),
            t@.subrange(i as int, i + k) == pat@.subrange(0, k as int),
        decreases pat.len() - k,
    {
        if t[i + k] != pat[k] {
            assert(t@.subrange(i as int, i + pat.len())[k as int] != pat@[k as int]);
            return false;
        }
        assert(t@.subrange(i as int, i + k + 1) =~= t@.subrange(i as int, i + k).push(t@[i + k]));
        assert(pat@.subrange(0, k + 1) =~= pat@.subrange(0, k as int).push(pat@[k as int]));
        k = k + 1;
    }
    assert(pat@.subrange(0, k as int) =~= pat@);
    true
}

/// The identifier of the first clip link in `text`: the run of lowercase
/// letters and digits right after the first `https://streamable.com/` that is
/// followed by at least one of them. Uppercase letters end the run.
pub fn extract_streamable_shortcode(text: &str) -> (r: Option<String>)
    ensures
        match r {
            Some(s) => shortcode_of(text@) == Some(s@),
            None => shortcode_of(text@) is None,
        },
{
    let marker_text: &str = "https://streamable.com/";
    proof {
        reveal_strlit("https://streamable.com/");
    }
    let m = chars_of(marker_text);
    assert(m@ =~= marker());
    let t = chars_of(text);
    let n = t.len();
    let ml = m.len();
    let mut i: usize = 0;
    while i < n && ml < n - i
        invariant
            t@ == text@,
            m@ == marker(),
            n == t.len(),
            ml == m.len(),
            0 <= i <= n,
            shortcode_of(text@) == shortcode_from(text@, i as int),
        decreases n - i,
    {
        if occurs_at(&t, i, &m) && is_shortcode_char(t[i + ml]) {
            let start = i + ml;
            let mut j: usize = start + 1;
            while j < n && is_shortcode_char(t[j])
                invariant
                    t@ == text@,
                    n == t.len(),
                    start < j <= n,
                    forall|k: int| start <= k < j ==> is_code_char(#[trigger] t@[k]),
                decreases n - j,
            {
                j = j + 1;
            }
            proof {
                lemma_code_run_is_slice(text@, start as int, j as int);
            }
            let code = text.substring_char(start, j);
            return Some(code.to_owned());
        }
        i = i + 1;
    }
    proof {
        lemma_no_room_for_link(text@, i as int);
    }
    None
}

} // verus!
