use vstd::prelude::*;

verus! {

/// A character with the Unicode `White_Space` property.
pub open spec fn is_space(c: char) -> bool {
    let u = c as u32;
    ||| 0x09 <= u <= 0x0d
    ||| u == 0x20
    ||| u == 0x85
    ||| u == 0xa0
    ||| u == 0x1680
    ||| 0x2000 <= u <= 0x200a
    ||| u == 0x2028
    ||| u == 0x2029
    ||| u == 0x202f
    ||| u == 0x205f
    ||| u == 0x3000
}

/// Text that holds nothing but whitespace (the empty text included).
pub open spec fn blank(s: Seq<char>) -> bool {
    forall|k: int| 0 <= k < s.len() ==> is_space(#[trigger] s[k])
}

/// What `str::to_lowercase` makes of a text.
pub uninterp spec fn lower_of(s: Seq<char>) -> Seq<char>;

/// `t` is `s` with its leading and trailing whitespace removed: a contiguous
/// part of `s` whose outside is all whitespace and whose ends are not.
pub open spec fn trimmed(s: Seq<char>, t: Seq<char>) -> bool {
    &&& exists|i: int, j: int|
        {
            &&& 0 <= i <= j <= s.len()
            &&& t == s.subrange(i, j)
            &&& forall|k: int| 0 <= k < i ==> is_space(#[trigger] s[k])
            &&& forall|k: int| j <= k < s.len() ==> is_space(#[trigger] s[k])
        }
    &&& t.len() > 0 ==> !is_space(t[0]) && !is_space(t[t.len() - 1])
}

/// Relies on `str::trim`: the result is the text with its leading and trailing
/// `White_Space` characters removed.
#[verifier::external_body]
pub(crate) fn trim(s: &str) -> (r: &str)
    ensures
        trimmed(s@, r@),
{
    s.trim()
}

/// Relies on `str::to_lowercase`: the result depends on the characters alone,
/// and the empty text stays empty.
#[verifier::external_body]
pub(crate) fn lowercase(s: &str) -> (r: String)
    ensures
        r@ == lower_of(s@),
        s@.len() == 0 ==> r@.len() == 0,
{
    s.to_lowercase()
}

/// Whether `s` is empty once surrounding whitespace is trimmed.
pub fn is_blank(s: &str) -> (r: bool)
    ensures
        r == blank(s@),
{
    let t = trim(s);
    let r = t.is_empty();
    proof {
        let (i, j) = choose|i: int, j: int|
            {
                &&& 0 <= i <= j <= s@.len()
                &&& t@ == s@.subrange(i, j)
                &&& forall|k: int| 0 <= k < i ==> is_space(#[trigger] s@[k])
                &&& forall|k: int| j <= k < s@.len() ==> is_space(#[trigger] s@[k])
            };
        if r {
            assert forall|k: int| 0 <= k < s@.len() implies is_space(#[trigger] s@[k]) by {
                if k >= i {
                    assert(k >= j);
                }
            }
        } else {
            assert(t@[0] == s@[i]);
        }
    }
    r
}

} // verus!
