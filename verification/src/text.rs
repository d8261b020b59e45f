use vstd::prelude::*;
use vstd::string::StringSliceAdditionalSpecFns;

verus! {

/// Whether two string slices hold the same characters.
///
/// The slices are compared byte by byte; since UTF-8 encodes every text in
/// exactly one way, equal bytes mean equal characters.
pub fn same_text(a: &str, b: &str) -> (r: bool)
    ensures
        r == (a@ == b@),
{
    let x = a.as_bytes();
    let y = b.as_bytes();
    proof {
        vstd::utf8::encode_utf8_decode_utf8(a@);
        vstd::utf8::encode_utf8_decode_utf8(b@);
    }
    if x.len() != y.len() {
        return false;
    }
    let mut i: usize = 0;
    while i < x.len()
        invariant
            i <= x.len(),
            x.len() == y.len(),
            x@ == a.spec_bytes(),
            y@ == b.spec_bytes(),
            forall|j: int| 0 <= j < i ==> x@[j] == y@[j],
        decreases x.len() - i,
    {
        if x[i] != y[i] {
            return false;
        }
        i = i + 1;
    }
    assert(x@ =~= y@);
    true
}

/// The text that `str::trim` leaves of a text: the text without its leading
/// and trailing white space, as Unicode defines white space.
pub uninterp spec fn trimmed(text: Seq<char>) -> Seq<char>;

/// The pieces that `str::split` cuts a text into at each occurrence of a
/// separator text, in their order.
pub uninterp spec fn split_by(text: Seq<char>, separator: Seq<char>) -> Seq<Seq<char>>;

/// The number that `str::parse::<i32>` reads a text as, if it reads it as
/// one.
pub uninterp spec fn parsed_i32(text: Seq<char>) -> Option<i32>;

/// Whether `needle` occurs in `hay` as a run of consecutive characters.
pub open spec fn occurs_in(needle: Seq<char>, hay: Seq<char>) -> bool {
    exists|i: int|
        0 <= i && i + needle.len() <= hay.len() && #[trigger] hay.subrange(i, i + needle.len())
            == needle
}

/// Calls `str::trim`. The result is the trimmed text, which depends on the
/// text alone.
#[verifier::external_body]
pub(crate) fn trim(text: &str) -> (r: &str)
    ensures
        r@ == trimmed(text@),
{
    text.trim()
}

/// Calls `str::split` with a text as the separator and collects the pieces
/// as owned strings. The pieces depend on the two texts alone.
#[verifier::external_body]
pub(crate) fn split(text: &str, separator: &str) -> (pieces: Vec<String>)
    ensures
        pieces.deep_view() == split_by(text@, separator@),
{
    text.split(separator).map(String::from).collect()
}

/// Calls `str::parse::<i32>` and drops the reason of a failure. The result
/// depends on the text alone.
#[verifier::external_body]
pub(crate) fn parse_i32(text: &str) -> (r: Option<i32>)
    ensures
        r == parsed_i32(text@),
{
    text.parse::<i32>().ok()
}

/// Calls `str::contains` with a text as the pattern, which is documented to
/// tell whether the pattern matches a sub-slice of the text.
#[verifier::external_body]
pub(crate) fn contains(hay: &str, needle: &str) -> (r: bool)
    ensures
        r == occurs_in(needle@, hay@),
{
    hay.contains(needle)
}

} // verus!
