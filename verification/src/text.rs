use vstd::prelude::*;
use vstd::utf8::encode_utf8;

verus! {

/// Number of bytes that `text` takes in UTF-8.
pub open spec fn utf8_len(text: Seq<char>) -> nat {
    encode_utf8(text).len()
}

#[verifier::external_type_specification]
#[verifier::external_body]
pub struct ExHeaplessString<const N: usize>(heapless::String<N>);

/// The characters held by a `heapless::String<32>`.
pub uninterp spec fn text32(s: heapless::String<32>) -> Seq<char>;

/// The characters held by a `heapless::String<28>`.
pub uninterp spec fn text28(s: heapless::String<28>) -> Seq<char>;

/// `heapless::String::<32>::new`: an empty string.
#[verifier::external_body]
pub(crate) fn string32_new() -> (s: heapless::String<32>)
    ensures
        text32(s) == Seq::<char>::empty(),
{
    heapless::String::new()
}

/// `heapless::String::<32>::push_str`: appends all of `s` when its bytes fit
/// in what is left of the 32; otherwise fails and leaves the string as it was.
#[verifier::external_body]
pub(crate) fn string32_push_str(buf: &mut heapless::String<32>, s: &str) -> (res: Result<(), ()>)
    ensures
        utf8_len(text32(*old(buf))) + utf8_len(s@) <= 32 ==> {
            &&& res is Ok
            &&& text32(*final(buf)) == text32(*old(buf)) + s@
        },
        utf8_len(text32(*old(buf))) + utf8_len(s@) > 32 ==> {
            &&& res is Err
            &&& text32(*final(buf)) == text32(*old(buf))
        },
{
    buf.push_str(s)
}

/// `PartialEq` between two `heapless::String<32>`: the strings hold the
/// same characters.
#[verifier::external_body]
pub(crate) fn string32_eq(a: &heapless::String<32>, b: &heapless::String<32>) -> (res: bool)
    ensures
        res == (text32(*a) == text32(*b)),
{
    a == b
}

/// `heapless::String::<28>::new`: an empty string.
#[verifier::external_body]
pub(crate) fn string28_new() -> (s: heapless::String<28>)
    ensures
        text28(s) == Seq::<char>::empty(),
{
    heapless::String::new()
}

/// `heapless::String::<28>::push_str`: appends all of `s` when its bytes fit
/// in what is left of the 28; otherwise fails and leaves the string as it was.
#[verifier::external_body]
pub(crate) fn string28_push_str(buf: &mut heapless::String<28>, s: &str) -> (res: Result<(), ()>)
    ensures
        utf8_len(text28(*old(buf))) + utf8_len(s@) <= 28 ==> {
            &&& res is Ok
            &&& text28(*final(buf)) == text28(*old(buf)) + s@
        },
        utf8_len(text28(*old(buf))) + utf8_len(s@) > 28 ==> {
            &&& res is Err
            &&& text28(*final(buf)) == text28(*old(buf))
        },
{
    buf.push_str(s)
}

} // verus!
