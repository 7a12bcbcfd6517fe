//! The prefilled issue link: its body template, how the body is encoded for a
//! URL query, and the short link that stands in for it when one can be had.

use vstd::prelude::*;
use vstd::string::*;
use crate::text::{
    chars_of, contains, lemma_replace_keeps_other_head, occurs_at, replace, replace_all,
};

verus! {

/// Where a new issue is filed; the encoded body follows.
pub const ISSUE_URL_PREFIX: &'static str = "https://github.com/starship/starship/issues/new?body=";

/// The body that a new issue starts out with.
pub const ISSUE_TEMPLATE: &'static str = "#### Current Behavior\n<!-- A clear and concise description of the behavior. -->\n\n#### Expected Behavior\n<!-- A clear and concise description of what you expected to happen. -->\n\n#### Additional context/Screenshots\n<!-- Add any other context about the problem here. If applicable, add screenshots to help explain. -->\n\n#### Possible Solution\n<!--- Only if you have suggestions on a fix for the bug -->\n\n#### Environment\n<!-- Your environment information has been copied to the clipboard automatically. Paste it here. -->\n";

/// The link shortener's address; a slug appended to it is a short link.
pub const GIT_IO_BASE_URL: &'static str = "https://git.io/";

/// The path under the shortener's address that accepts a link to shorten.
pub const SHORTENER_PATH: &'static str = "create";

/// The form field in which the shortener expects the link.
pub const SHORTENER_FIELD: &'static str = "url";

/// Bytes that percent-encoding leaves as they are: ASCII letters and digits,
/// and `-`, `.`, `_`, `~`.
pub open spec fn is_unreserved(b: u8) -> bool {
    ||| 0x30 <= b <= 0x39
    ||| 0x41 <= b <= 0x5A
    ||| 0x61 <= b <= 0x7A
    ||| b == 0x2D
    ||| b == 0x2E
    ||| b == 0x5F
    ||| b == 0x7E
}

/// The upper-case hexadecimal digit for a value below sixteen.
pub open spec fn hex_digit(d: int) -> char
    recommends
        0 <= d < 16,
{
    if d < 10 {
        ((0x30 + d) as u8) as char
    } else {
        ((0x37 + d) as u8) as char
    }
}

/// One byte, percent-encoded: itself where it is unreserved, else `%` and its
/// two hexadecimal digits.
pub open spec fn percent_encode_byte(b: u8) -> Seq<char> {
    if is_unreserved(b) {
        seq![b as char]
    } else {
        seq!['%', hex_digit(b as int / 16), hex_digit(b as int % 16)]
    }
}

/// A byte string, percent-encoded byte by byte.
pub open spec fn percent_encode(bytes: Seq<u8>) -> Seq<char>
    decreases bytes.len(),
{
    if bytes.len() == 0 {
        Seq::empty()
    } else {
        percent_encode_byte(bytes.first()) + percent_encode(bytes.drop_first())
    }
}

/// One byte as it stands in a query: a space becomes `+`, any other byte is
/// percent-encoded.
pub open spec fn query_encode_byte(b: u8) -> Seq<char> {
    if b == 0x20 {
        seq!['+']
    } else {
        percent_encode_byte(b)
    }
}

/// A byte string as it stands in a query, byte by byte.
pub open spec fn query_encode(bytes: Seq<u8>) -> Seq<char>
    decreases bytes.len(),
{
    if bytes.len() == 0 {
        Seq::empty()
    } else {
        query_encode_byte(bytes.first()) + query_encode(bytes.drop_first())
    }
}

/// The percent-encoded form of a space.
pub open spec fn encoded_space() -> Seq<char> {
    seq!['%', '2', '0']
}

/// The issue link: the prefix, then the template encoded for a query.
pub open spec fn issue_link() -> Seq<char> {
    ISSUE_URL_PREFIX@ + query_encode(ISSUE_TEMPLATE.spec_bytes())
}

/// The address to which a link is posted for shortening.
pub open spec fn shortener_address() -> Seq<char> {
    GIT_IO_BASE_URL@ + SHORTENER_PATH@
}

/// The link to show: the short one where the shortener answered with a slug,
/// else the long one.
pub open spec fn link_to_show(slug: Option<Seq<char>>, link: Seq<char>) -> Seq<char> {
    match slug {
        Some(s) => GIT_IO_BASE_URL@ + s,
        None => link,
    }
}

/// Calls `urlencoding::encode`, which walks the UTF-8 bytes of its argument
/// and percent-encodes every byte except ASCII letters, digits, `-`, `.`, `_`
/// and `~`, with upper-case hexadecimal digits.
#[verifier::external_body]
pub(crate) fn percent_encode_text(text: &str) -> (encoded: String)
    ensures
        encoded@ == percent_encode(text.spec_bytes()),
{
    urlencoding::encode(text)
}

/// Hexadecimal digits are neither `%` nor confused with one another.
proof fn lemma_hex_digit(d: int)
    requires
        0 <= d < 16,
    ensures
        hex_digit(d) != '%',
        hex_digit(d) != '+',
        hex_digit(d) != ' ',
        hex_digit(d) == '2' <==> d == 2,
        hex_digit(d) == '0' <==> d == 0,
{
}

/// Replacing every `%20` in a percent-encoded text by `+` gives the query
/// encoding of the same bytes.
pub proof fn lemma_plus_for_encoded_spaces(bytes: Seq<u8>)
    ensures
        replace_all(percent_encode(bytes), encoded_space(), seq!['+']) == query_encode(bytes),
    decreases bytes.len(),
{
    let from = encoded_space();
    let to = seq!['+'];
    if bytes.len() > 0 {
        let b = bytes.first();
        let rest = percent_encode(bytes.drop_first());
        let whole = percent_encode(bytes);
        lemma_plus_for_encoded_spaces(bytes.drop_first());
        if is_unreserved(b) {
            assert(whole.drop_first() =~= rest);
            lemma_replace_keeps_other_head(whole, from, to);
        } else {
            let high = hex_digit(b as int / 16);
            let low = hex_digit(b as int % 16);
            lemma_hex_digit(b as int / 16);
            lemma_hex_digit(b as int % 16);
            assert(whole.subrange(0, 3) =~= seq!['%', high, low]);
            if b == 0x20 {
                assert(whole.subrange(0, 3) =~= from);
                assert(whole.subrange(3, whole.len() as int) =~= rest);
            } else {
                assert(whole.subrange(0, 3)[1] == high);
                assert(whole.subrange(0, 3)[2] == low);
                assert(whole.subrange(0, 3) != from);
                let after_percent = whole.drop_first();
                let after_high = after_percent.drop_first();
                assert(after_percent =~= seq![high, low] + rest);
                assert(after_high =~= seq![low] + rest);
                assert(after_high.drop_first() =~= rest);
                lemma_replace_keeps_other_head(after_percent, from, to);
                lemma_replace_keeps_other_head(after_high, from, to);
                assert(replace_all(whole, from, to) =~= seq!['%', high, low] + replace_all(
                    rest,
                    from,
                    to,
                ));
            }
        }
    }
}

/// A query-encoded text holds no space.
pub proof fn lemma_query_has_no_space(bytes: Seq<u8>)
    ensures
        !query_encode(bytes).contains(' '),
    decreases bytes.len(),
{
    let whole = query_encode(bytes);
    if bytes.len() > 0 {
        let b = bytes.first();
        let head = query_encode_byte(b);
        let rest = query_encode(bytes.drop_first());
        lemma_query_has_no_space(bytes.drop_first());
        lemma_hex_digit(b as int / 16);
        lemma_hex_digit(b as int % 16);
        assert forall|i: int| 0 <= i < whole.len() implies whole[i] != ' ' by {
            if i < head.len() {
                assert(whole[i] == head[i]);
            } else {
                assert(whole[i] == rest[i - head.len()]);
            }
        }
    }
}

/// No percent-encoded space starts at any one place of a query-encoded text.
proof fn lemma_no_encoded_space_at(bytes: Seq<u8>, at: int)
    ensures
        !occurs_at(query_encode(bytes), encoded_space(), at),
    decreases bytes.len(),
{
    let whole = query_encode(bytes);
    if bytes.len() > 0 && 0 <= at && at + 3 <= whole.len() {
        let b = bytes.first();
        let head = query_encode_byte(b);
        let rest = query_encode(bytes.drop_first());
        lemma_hex_digit(b as int / 16);
        lemma_hex_digit(b as int % 16);
        let found = whole.subrange(at, at + 3);
        if at >= head.len() {
            lemma_no_encoded_space_at(bytes.drop_first(), at - head.len());
            assert(found =~= rest.subrange(at - head.len(), at - head.len() + 3));
        } else if at == 0 {
            assert(found[0] == head[0]);
            if head.len() == 3 {
                assert(found[1] == head[1]);
                assert(found[2] == head[2]);
            }
        } else {
            assert(found[0] == head[at]);
        }
    }
}

/// A query-encoded text holds no percent-encoded space: every space of the
/// body has become a `+`.
pub proof fn lemma_query_has_no_encoded_space(bytes: Seq<u8>)
    ensures
        !contains(query_encode(bytes), encoded_space()),
{
    assert forall|at: int| !occurs_at(query_encode(bytes), encoded_space(), at) by {
        lemma_no_encoded_space_at(bytes, at);
    }
}

/// Encodes an issue body for the query of a link: percent-encoding, with `+`
/// in place of each encoded space. What comes out holds no space, encoded or
/// not.
pub fn encode_issue_body(body: &str) -> (encoded: String)
    ensures
        encoded@ == query_encode(body.spec_bytes()),
        !encoded@.contains(' '),
        !contains(encoded@, encoded_space()),
{
    let percent_encoded = percent_encode_text(body);
    proof {
        reveal_strlit("%20");
        reveal_strlit("+");
        assert("%20"@ =~= encoded_space());
        assert("+"@ =~= seq!['+']);
        lemma_plus_for_encoded_spaces(body.spec_bytes());
        lemma_query_has_no_space(body.spec_bytes());
        lemma_query_has_no_encoded_space(body.spec_bytes());
    }
    replace(percent_encoded.as_str(), "%20", "+")
}

/// Builds the link that opens a new issue with the template as its body.
pub fn get_github_issue_link() -> (link: String)
    ensures
        link@ == issue_link(),
{
    let body = encode_issue_body(ISSUE_TEMPLATE);
    let mut link = String::from_str(ISSUE_URL_PREFIX);
    link.append(body.as_str());
    link
}

/// Builds the address to which a link is posted for shortening.
pub fn shortener_endpoint() -> (address: String)
    ensures
        address@ == shortener_address(),
{
    let mut address = String::from_str(GIT_IO_BASE_URL);
    address.append(SHORTENER_PATH);
    address
}

/// Picks the link to show: the short link made of the shortener's slug where
/// there is one, else the long link.
pub fn short_link(slug: Option<&str>, link: &str) -> (shown: String)
    ensures
        shown@ == link_to_show(chars_of(slug), link@),
{
    match slug {
        Some(s) => {
            let mut shown = String::from_str(GIT_IO_BASE_URL);
            shown.append(s);
            shown
        },
        None => String::from_str(link),
    }
}

} // verus!
