//! The path under which the credential of a registration is asked for.

use vstd::prelude::*;

verus! {

/// The bytes that stand for themselves in a path segment.
pub open spec fn is_unreserved(byte: u8) -> bool {
    ||| 'A' as u8 <= byte <= 'Z' as u8
    ||| 'a' as u8 <= byte <= 'z' as u8
    ||| '0' as u8 <= byte <= '9' as u8
    ||| byte == '-' as u8
    ||| byte == '_' as u8
    ||| byte == '.' as u8
    ||| byte == '~' as u8
}

/// The hexadecimal digit of a number below sixteen, in upper case.
pub open spec fn hex_digit(number: int) -> char {
    if number < 10 {
        (number + 48) as char
    } else {
        (number + 55) as char
    }
}

/// What a byte is written as in a path segment.
pub open spec fn encoded_byte(byte: u8) -> Seq<char> {
    if is_unreserved(byte) {
        seq![byte as char]
    } else {
        seq!['%', hex_digit(byte as int / 16), hex_digit(byte as int % 16)]
    }
}

/// What bytes are written as in a path segment.
pub open spec fn encoded_bytes(bytes: Seq<u8>) -> Seq<char>
    decreases bytes.len(),
{
    if bytes.len() == 0 {
        Seq::empty()
    } else {
        encoded_bytes(bytes.drop_last()) + encoded_byte(bytes.last())
    }
}

/// What a text is written as in a path segment.
pub open spec fn encoded_segment(text: Seq<char>) -> Seq<char> {
    encoded_bytes(vstd::utf8::encode_utf8(text))
}

/// The path under which the credential of a resource is asked for.
pub open spec fn query_path(resource_did: Seq<char>) -> Seq<char> {
    "/resources/"@ + encoded_segment(resource_did) + "/registration-credential"@
}

fn digit(number: u8) -> (found: char)
    requires
        number < 16,
    ensures
        found == hex_digit(number as int),
{
    if number < 10 {
        (number + 48) as char
    } else {
        (number + 55) as char
    }
}

/// A text as a path segment.
pub fn percent_encode_path_segment(value: &str) -> (output: String)
    ensures
        output@ == encoded_segment(value@),
{
    let bytes = value.as_bytes();
    let mut output = String::new();
    let mut i: usize = 0;
    while i < bytes.len()
        invariant
            i <= bytes@.len(),
            bytes@ == vstd::utf8::encode_utf8(value@),
            output@ == encoded_bytes(bytes@.take(i as int)),
        decreases bytes@.len() - i,
    {
        let byte: u8 = bytes[i];
        proof {
            assert(bytes@.take(i + 1).drop_last() == bytes@.take(i as int));
            assert(bytes@.take(i + 1).last() == byte);
        }
        let ghost before = output@;
        if (65 <= byte && byte <= 90) || (97 <= byte && byte <= 122) || (48 <= byte && byte <= 57)
            || byte == 45 || byte == 95 || byte == 46 || byte == 126 {
            output.push(byte as char);
            assert(output@ == before + encoded_byte(byte));
        } else {
            output.push('%');
            output.push(digit(byte / 16));
            output.push(digit(byte % 16));
            assert(output@ == before + encoded_byte(byte));
        }
        i = i + 1;
    }
    assert(bytes@.take(bytes@.len() as int) == bytes@);
    output
}

/// The path under which the credential of a resource is asked for.
pub fn registration_credential_query_path(resource_did: &str) -> (path: String)
    ensures
        path@ == query_path(resource_did@),
{
    let mut path = "/resources/".to_owned();
    path.append(percent_encode_path_segment(resource_did).as_str());
    path.append("/registration-credential");
    path
}

/// Encoding can be done from the front.
proof fn encoding_starts_with_the_first_byte(bytes: Seq<u8>)
    requires
        bytes.len() > 0,
    ensures
        encoded_bytes(bytes) == encoded_byte(bytes.first()) + encoded_bytes(bytes.drop_first()),
    decreases bytes.len(),
{
    let fewer = bytes.drop_last();
    if fewer.len() == 0 {
        assert(encoded_bytes(fewer) == Seq::<char>::empty());
        assert(bytes.drop_first() == Seq::<u8>::empty());
        assert(encoded_bytes(bytes.drop_first()) == Seq::<char>::empty());
        assert(encoded_bytes(bytes) == encoded_byte(bytes.first()) + Seq::<char>::empty());
    } else {
        encoding_starts_with_the_first_byte(fewer);
        assert(bytes.drop_first().drop_last() == fewer.drop_first());
        assert(encoded_bytes(bytes) == encoded_byte(bytes.first()) + (encoded_bytes(
            fewer.drop_first(),
        ) + encoded_byte(bytes.last())));
    }
}

/// The digits of a byte say which byte it is.
proof fn digits_name_the_byte(left: u8, right: u8)
    requires
        hex_digit(left as int / 16) == hex_digit(right as int / 16),
        hex_digit(left as int % 16) == hex_digit(right as int % 16),
    ensures
        left == right,
{
    assert(0 <= left as int / 16 < 16 && 0 <= right as int / 16 < 16);
    assert(hex_digit(left as int / 16) as int == (if left as int / 16 < 10 {
        left as int / 16 + 48
    } else {
        left as int / 16 + 55
    }));
    assert(hex_digit(right as int / 16) as int == (if right as int / 16 < 10 {
        right as int / 16 + 48
    } else {
        right as int / 16 + 55
    }));
    assert(hex_digit(left as int % 16) as int == (if left as int % 16 < 10 {
        left as int % 16 + 48
    } else {
        left as int % 16 + 55
    }));
    assert(hex_digit(right as int % 16) as int == (if right as int % 16 < 10 {
        right as int % 16 + 48
    } else {
        right as int % 16 + 55
    }));
}

/// Different bytes are written differently.
proof fn encoding_is_injective(left: Seq<u8>, right: Seq<u8>)
    requires
        encoded_bytes(left) == encoded_bytes(right),
    ensures
        left == right,
    decreases left.len(),
{
    if left.len() == 0 {
        if right.len() > 0 {
            encoding_starts_with_the_first_byte(right);
        }
    } else if right.len() == 0 {
        encoding_starts_with_the_first_byte(left);
    } else {
        encoding_starts_with_the_first_byte(left);
        encoding_starts_with_the_first_byte(right);
        let a = left.first();
        let b = right.first();
        let whole = encoded_bytes(left);
        let rest_a = encoded_bytes(left.drop_first());
        let rest_b = encoded_bytes(right.drop_first());
        assert(whole[0] == encoded_byte(a)[0]);
        assert(whole[0] == encoded_byte(b)[0]);
        assert(is_unreserved(a) ==> (a as char) as int == a && a != 37);
        assert(is_unreserved(b) ==> (b as char) as int == b && b != 37);
        if is_unreserved(a) {
            assert(is_unreserved(b));
            assert(a == b);
        } else {
            assert(!is_unreserved(b));
            assert(whole[1] == encoded_byte(a)[1] && whole[1] == encoded_byte(b)[1]);
            assert(whole[2] == encoded_byte(a)[2] && whole[2] == encoded_byte(b)[2]);
            digits_name_the_byte(a, b);
        }
        let width = encoded_byte(a).len() as int;
        assert(whole.skip(width) == rest_a);
        assert(whole.skip(width) == rest_b);
        encoding_is_injective(left.drop_first(), right.drop_first());
        assert(left == seq![a] + left.drop_first());
        assert(right == seq![b] + right.drop_first());
    }
}

/// Different texts are different path segments.
pub proof fn law_segments_name_their_text(left: Seq<char>, right: Seq<char>)
    requires
        encoded_segment(left) == encoded_segment(right),
    ensures
        left == right,
{
    encoding_is_injective(vstd::utf8::encode_utf8(left), vstd::utf8::encode_utf8(right));
    vstd::utf8::encode_utf8_decode_utf8(left);
    vstd::utf8::encode_utf8_decode_utf8(right);
}

/// A query path belongs to one resource: a query that was signed for the path of one
/// resource is none for another.
pub proof fn law_query_paths_name_their_resource(left: Seq<char>, right: Seq<char>)
    requires
        query_path(left) == query_path(right),
    ensures
        left == right,
{
    let head = "/resources/"@;
    let tail = "/registration-credential"@;
    let a = encoded_segment(left);
    let b = encoded_segment(right);
    assert(query_path(left).len() == head.len() + a.len() + tail.len());
    assert(query_path(right).len() == head.len() + b.len() + tail.len());
    assert(a == query_path(left).subrange(head.len() as int, (head.len() + a.len()) as int));
    assert(b == query_path(right).subrange(head.len() as int, (head.len() + b.len()) as int));
    law_segments_name_their_text(left, right);
}

/// A character that may stand in a path segment as it is.
pub open spec fn is_plain(c: char) -> bool {
    ||| 'A' <= c <= 'Z'
    ||| 'a' <= c <= 'z'
    ||| '0' <= c <= '9'
    ||| c == '-'
    ||| c == '_'
    ||| c == '.'
    ||| c == '~'
}

/// The number that a hexadecimal digit in upper case stands for.
pub open spec fn digit_value(c: char) -> int {
    if '0' <= c <= '9' {
        c as int - '0' as int
    } else {
        c as int - 'A' as int + 10
    }
}

/// A hexadecimal digit stands for its number.
pub proof fn law_digits_stand_for_their_number(number: int)
    requires
        0 <= number < 16,
    ensures
        digit_value(hex_digit(number)) == number,
        '0' <= hex_digit(number) <= '9' || 'A' <= hex_digit(number) <= 'F',
{
}

/// A byte is written as itself if it is a plain character, and else as a percent sign and two
/// digits from which it is read back.
pub proof fn law_bytes_are_read_back(byte: u8)
    ensures
        is_plain(byte as char) ==> encoded_byte(byte) == seq![byte as char],
        !is_plain(byte as char) ==> {
            &&& encoded_byte(byte).len() == 3
            &&& encoded_byte(byte)[0] == '%'
            &&& digit_value(encoded_byte(byte)[1]) * 16 + digit_value(encoded_byte(byte)[2]) == byte
        },
{
    law_digits_stand_for_their_number(byte as int / 16);
    law_digits_stand_for_their_number(byte as int % 16);
    assert((byte as char) as int == byte as int);
}

/// Texts are written byte by byte, in order.
pub proof fn law_bytes_are_written_one_by_one(left: Seq<u8>, right: Seq<u8>, byte: u8)
    ensures
        encoded_bytes(Seq::empty()) == Seq::<char>::empty(),
        encoded_bytes(seq![byte]) == encoded_byte(byte),
        encoded_bytes(left + right) == encoded_bytes(left) + encoded_bytes(right),
    decreases right.len(),
{
    assert(seq![byte].drop_last() == Seq::<u8>::empty());
    assert(seq![byte].last() == byte);
    assert(encoded_bytes(Seq::<u8>::empty()) == Seq::<char>::empty());
    assert(encoded_bytes(seq![byte]) == Seq::<char>::empty() + encoded_byte(byte));
    assert(Seq::<char>::empty() + encoded_byte(byte) == encoded_byte(byte));
    if right.len() == 0 {
        assert(left + right == left);
        assert(encoded_bytes(left) + encoded_bytes(right) == encoded_bytes(left));
    } else {
        law_bytes_are_written_one_by_one(left, right.drop_last(), byte);
        assert((left + right).drop_last() == left + right.drop_last());
        assert(encoded_bytes(left) + (encoded_bytes(right.drop_last()) + encoded_byte(
            right.last(),
        )) == encoded_bytes(left) + encoded_bytes(right.drop_last()) + encoded_byte(right.last()));
    }
}

/// A path segment holds plain characters, and percent signs and digits besides: no slash is left
/// that could end it.
pub proof fn law_segments_hold_no_slash(bytes: Seq<u8>)
    ensures
        forall|i: int|
            0 <= i < encoded_bytes(bytes).len() ==> is_plain(#[trigger] encoded_bytes(bytes)[i])
                || encoded_bytes(bytes)[i] == '%',
        !encoded_bytes(bytes).contains('/'),
    decreases bytes.len(),
{
    if bytes.len() > 0 {
        law_segments_hold_no_slash(bytes.drop_last());
        law_bytes_are_read_back(bytes.last());
        law_digits_stand_for_their_number(bytes.last() as int / 16);
        law_digits_stand_for_their_number(bytes.last() as int % 16);
    }
}

/// The path is that of the resource's segment, between the two words.
pub proof fn law_query_paths_hold_the_segment(resource_did: Seq<char>)
    ensures
        query_path(resource_did) == "/resources/"@ + encoded_bytes(
            vstd::utf8::encode_utf8(resource_did),
        ) + "/registration-credential"@,
{
}

} // verus!
