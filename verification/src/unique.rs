//! Random unique identifiers in their textual form.

use vstd::prelude::*;
use vstd::string::*;

verus! {

/// A lower-case hexadecimal digit.
pub open spec fn is_hex_digit(c: char) -> bool {
    ('0' <= c && c <= '9') || ('a' <= c && c <= 'f')
}

/// Whether `i` is the place of a hyphen in a hyphenated UUID.
pub open spec fn is_hyphen_index(i: int) -> bool {
    i == 8 || i == 13 || i == 18 || i == 23
}

/// The hyphenated form of a UUID: 36 characters, hyphens after 8, 12, 16 and
/// 20 hexadecimal digits, lower-case hexadecimal digits elsewhere.
pub open spec fn is_hyphenated_uuid(s: Seq<char>) -> bool {
    &&& s.len() == 36
    &&& forall|i: int|
        0 <= i < 36 ==> if is_hyphen_index(i) {
            #[trigger] s[i] == '-'
        } else {
            is_hex_digit(s[i])
        }
}

/// A text in the hyphenated form is made of ASCII characters only.
pub proof fn lemma_hyphenated_uuid_is_ascii(s: Seq<char>)
    requires
        is_hyphenated_uuid(s),
    ensures
        vstd::utf8::is_ascii_chars(s),
{
    assert forall|i: int| 0 <= i < s.len() implies '\0' <= #[trigger] s[i] <= '\u{7f}' by {
        if is_hyphen_index(i) {
            assert(s[i] == '-');
        } else {
            assert(is_hex_digit(s[i]));
        }
    }
}

/// Whether `text` has the hyphenated form of a UUID.
pub fn is_uuid_text(text: &str) -> (b: bool)
    ensures
        b == is_hyphenated_uuid(text@),
{
    if !text.is_ascii() {
        proof {
            if is_hyphenated_uuid(text@) {
                lemma_hyphenated_uuid_is_ascii(text@);
            }
        }
        return false;
    }
    if text.unicode_len() != 36 {
        return false;
    }
    let mut i: usize = 0;
    while i < 36
        invariant
            i <= 36,
            text.is_ascii(),
            text@.len() == 36,
            forall|j: int|
                0 <= j < i ==> if is_hyphen_index(j) {
                    #[trigger] text@[j] == '-'
                } else {
                    is_hex_digit(text@[j])
                },
        decreases 36 - i,
    {
        let b = text.get_ascii(i);
        assert('\0' <= text@[i as int] <= '\u{7f}');
        let fits = if i == 8 || i == 13 || i == 18 || i == 23 {
            b == 45
        } else {
            (48 <= b && b <= 57) || (97 <= b && b <= 102)
        };
        if !fits {
            assert(!is_hyphenated_uuid(text@)) by {
                if is_hyphenated_uuid(text@) {
                    if is_hyphen_index(i as int) {
                        assert(text@[i as int] == '-');
                    } else {
                        assert(is_hex_digit(text@[i as int]));
                    }
                }
            }
            return false;
        }
        i = i + 1;
    }
    true
}

/// Draws a random version 4 UUID with `uuid::Uuid::new_v4` and formats it as
/// the crate's `Display` does. Whatever is drawn, the text has the hyphenated
/// lower-case form.
#[verifier::external_body]
fn uuid_text_outside() -> (s: String)
    ensures
        is_hyphenated_uuid(s@),
{
    uuid::Uuid::new_v4().to_string()
}

/// Makes a version 7 UUID from the current time and random bits with
/// `uuid::Uuid::now_v7` and formats it as the crate's `Display` does.
/// Whatever the clock and the draw give, the text has the hyphenated
/// lower-case form.
#[verifier::external_body]
fn uuid_v7_text_outside() -> (s: String)
    ensures
        is_hyphenated_uuid(s@),
{
    uuid::Uuid::now_v7().to_string()
}

/// A fresh time-ordered UUID in hyphenated form.
pub fn fresh_time_ordered_uuid() -> (s: String)
    ensures
        is_hyphenated_uuid(s@),
{
    uuid_v7_text_outside()
}

/// A fresh random UUID in hyphenated form.
pub fn fresh_uuid() -> (s: String)
    ensures
        is_hyphenated_uuid(s@),
{
    uuid_text_outside()
}

} // verus!
