use vstd::prelude::*;
use vstd::string::StringSliceAdditionalSpecFns;

verus! {

/// Bytes that the form serializer leaves as they are.
pub open spec fn form_unchanged(b: u8) -> bool {
    b == 0x2a || b == 0x2d || b == 0x2e || b == 0x5f || (0x30 <= b && b <= 0x39) || (0x41 <= b
        && b <= 0x5a) || (0x61 <= b && b <= 0x7a)
}

pub open spec fn hex_upper(n: u8) -> char {
    seq!['0', '1', '2', '3', '4', '5', '6', '7', '8', '9', 'A', 'B', 'C', 'D', 'E', 'F'][n as int]
}

/// How one byte is written in an `application/x-www-form-urlencoded` value.
pub open spec fn form_byte(b: u8) -> Seq<char> {
    if form_unchanged(b) {
        seq![b as char]
    } else if b == 0x20 {
        seq!['+']
    } else {
        seq!['%', hex_upper(b / 16), hex_upper(b % 16)]
    }
}

/// A byte string written as an `application/x-www-form-urlencoded` value.
pub open spec fn form_serialized(s: Seq<u8>) -> Seq<char>
    decreases s.len(),
{
    if s.len() == 0 {
        Seq::empty()
    } else {
        form_serialized(s.drop_last()) + form_byte(s.last())
    }
}

/// The name/value pairs that form decoding reads from a query string,
/// percent escapes and `+` decoded.
pub uninterp spec fn form_pairs_of(q: Seq<char>) -> Seq<(Seq<char>, Seq<char>)>;

/// Whether a string parses as an absolute URL.
pub uninterp spec fn url_accepts(s: Seq<char>) -> bool;

pub open spec fn pairs_view(v: Seq<(String, String)>) -> Seq<(Seq<char>, Seq<char>)> {
    v.map_values(|p: (String, String)| (p.0@, p.1@))
}

/// Relies on form_urlencoded::byte_serialize, which writes each byte of its
/// input as `form_byte` does.
#[verifier::external_body]
pub(crate) fn form_component(s: &str) -> (r: String)
    ensures
        r@ == form_serialized(s.spec_bytes()),
{
    oauth2::url::form_urlencoded::byte_serialize(s.as_bytes()).collect::<String>()
}

/// Relies on form_urlencoded::parse for the decoded pairs of a query string,
/// in the order in which they stand.
#[verifier::external_body]
pub(crate) fn form_pairs(q: &str) -> (r: Vec<(String, String)>)
    ensures
        pairs_view(r@) == form_pairs_of(q@),
{
    oauth2::url::form_urlencoded::parse(q.as_bytes()).into_owned().collect()
}

/// Relies on url::Url::parse, which oauth2 uses for its endpoint types, for
/// whether a string is a valid URL.
#[verifier::external_body]
pub(crate) fn parses_as_url(s: &str) -> (r: bool)
    ensures
        r == url_accepts(s@),
{
    oauth2::url::Url::parse(s).is_ok()
}

/// Relies on oauth2::CsrfToken::new_random for a fresh anti-forgery token.
/// Nothing is promised of its value.
#[verifier::external_body]
pub(crate) fn random_csrf_state() -> (r: String) {
    oauth2::CsrfToken::new_random().secret().clone()
}

} // verus!

verus! {

/// Characters that delimit a query string or its pairs.
pub open spec fn is_query_delimiter(c: char) -> bool {
    c == '&' || c == '=' || c == '#'
}

pub open spec fn undelimited(s: Seq<char>) -> bool {
    forall|i: int| 0 <= i < s.len() ==> !is_query_delimiter(#[trigger] s[i])
}

/// A form-encoded value never holds `&`, `=` or `#`: it cannot end its pair
/// or open another.
pub proof fn lemma_form_serialized_undelimited(s: Seq<u8>)
    ensures
        undelimited(form_serialized(s)),
    decreases s.len(),
{
    if s.len() > 0 {
        lemma_form_serialized_undelimited(s.drop_last());
        let b = s.last();
        let prev = form_serialized(s.drop_last());
        let tail = form_byte(b);
        assert forall|j: int| 0 <= j < tail.len() implies !is_query_delimiter(#[trigger] tail[j]) by {
            if form_unchanged(b) {
                assert(b != 0x26 && b != 0x3d && b != 0x23);
                assert((b as char) != '&' && (b as char) != '=' && (b as char) != '#') by {
                    assert((b as char) as u32 == b as u32);
                }
            } else if b != 0x20 {
                assert(b / 16 < 16 && b % 16 < 16);
            }
        }
        assert forall|i: int| 0 <= i < form_serialized(s).len() implies !is_query_delimiter(
            #[trigger] form_serialized(s)[i],
        ) by {
            if i < prev.len() {
                assert(form_serialized(s)[i] == prev[i]);
            } else {
                assert(form_serialized(s)[i] == tail[i - prev.len()]);
            }
        }
    }
}

} // verus!
