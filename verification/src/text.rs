//! Text as sequences of code points: the comparisons, trims and searches that the
//! registrar's rules are stated with.

use vstd::prelude::*;

verus! {

/// The characters of the Unicode `White_Space` property, which trimming removes.
pub open spec fn is_space(c: char) -> bool {
    let code = c as u32;
    ||| 0x09 <= code <= 0x0D
    ||| code == 0x20
    ||| code == 0x85
    ||| code == 0xA0
    ||| code == 0x1680
    ||| 0x2000 <= code <= 0x200A
    ||| code == 0x2028
    ||| code == 0x2029
    ||| code == 0x202F
    ||| code == 0x205F
    ||| code == 0x3000
}

/// Nothing is left of the text once the white space at its ends is trimmed.
pub open spec fn blank(text: Seq<char>) -> bool {
    forall|i: int| 0 <= i < text.len() ==> is_space(#[trigger] text[i])
}

/// No white space stands at either end of the text.
pub open spec fn trimmed(text: Seq<char>) -> bool {
    text.len() > 0 ==> !is_space(text.first()) && !is_space(text.last())
}

/// The order of texts by code point, which is also their order by UTF-8 bytes.
pub open spec fn text_before(left: Seq<char>, right: Seq<char>) -> bool
    decreases left.len(),
{
    if right.len() == 0 {
        false
    } else if left.len() == 0 {
        true
    } else if left[0] != right[0] {
        (left[0] as int) < (right[0] as int)
    } else {
        text_before(left.drop_first(), right.drop_first())
    }
}

/// `prefix` is how `text` begins.
pub open spec fn begins_with(text: Seq<char>, prefix: Seq<char>) -> bool {
    prefix.len() <= text.len() && text.take(prefix.len() as int) == prefix
}

/// `suffix` is how `text` ends.
pub open spec fn ends_in(text: Seq<char>, suffix: Seq<char>) -> bool {
    suffix.len() <= text.len() && text.skip(text.len() - suffix.len()) == suffix
}

/// `part` stands somewhere in `text`.
pub open spec fn occurs_in(part: Seq<char>, text: Seq<char>) -> bool {
    exists|i: int|
        0 <= i <= text.len() - part.len() && #[trigger] text.subrange(i, i + part.len()) == part
}

/// `text` without the copies of `suffix` that it ends in.
pub open spec fn without_suffixes(text: Seq<char>, suffix: Seq<char>) -> Seq<char>
    decreases text.len(),
{
    if suffix.len() > 0 && ends_in(text, suffix) {
        without_suffixes(text.take(text.len() - suffix.len()), suffix)
    } else {
        text
    }
}

/// The texts that a list of owned strings holds.
pub open spec fn texts(items: Seq<String>) -> Seq<Seq<char>> {
    items.map_values(|item: String| item@)
}

/// The text that an optional string holds.
pub open spec fn opt_text(item: Option<String>) -> Option<Seq<char>> {
    match item {
        Some(text) => Some(text@),
        None => None,
    }
}

/// A code point fits in 32 bits.
proof fn code_point_fits(c: char)
    ensures
        (c as u32) as int == c as int,
{
}

/// The order of texts is transitive.
pub proof fn text_before_transitive(a: Seq<char>, b: Seq<char>, c: Seq<char>)
    requires
        text_before(a, b),
        text_before(b, c),
    ensures
        text_before(a, c),
    decreases a.len(),
{
    if a.len() > 0 && a[0] == b[0] && b[0] == c[0] {
        text_before_transitive(a.drop_first(), b.drop_first(), c.drop_first());
    }
}

/// No text comes before itself.
pub proof fn text_before_irreflexive(a: Seq<char>)
    ensures
        !text_before(a, a),
    decreases a.len(),
{
    if a.len() > 0 {
        text_before_irreflexive(a.drop_first());
    }
}

/// Of two different texts one comes before the other.
pub proof fn text_before_total(a: Seq<char>, b: Seq<char>)
    requires
        a != b,
    ensures
        text_before(a, b) || text_before(b, a),
    decreases a.len(),
{
    if a.len() > 0 && b.len() > 0 {
        if a[0] != b[0] {
            assert((a[0] as int) != (b[0] as int));
        } else {
            if a.drop_first() == b.drop_first() {
                assert(a == seq![a[0]] + a.drop_first());
                assert(b == seq![b[0]] + b.drop_first());
            }
            text_before_total(a.drop_first(), b.drop_first());
        }
    } else {
        assert(a.len() != b.len() || a =~= b);
    }
}

/// `std`'s `String::push` appends one character.
pub assume_specification[ String::push ](s: &mut String, c: char)
    ensures
        final(s)@ == old(s)@.push(c),
;

/// The code points of a text, in order.
pub fn characters(text: &str) -> (chars: Vec<char>)
    ensures
        chars@ == text@,
{
    let mut chars: Vec<char> = Vec::new();
    for c in iter: text.chars()
        invariant
            chars@ == iter.seq().take(iter.index() as int),
            iter.seq() == text@,
    {
        assert(iter.seq().take(iter.index() + 1) == iter.seq().take(iter.index() as int).push(
            iter.seq()[iter.index() as int],
        ));
        chars.push(c);
    }
    assert(text@.take(text@.len() as int) == text@);
    chars
}

/// The text made of a run of code points.
fn text_of(chars: &Vec<char>, from: usize, to: usize) -> (text: String)
    requires
        from <= to <= chars@.len(),
    ensures
        text@ == chars@.subrange(from as int, to as int),
{
    let mut text = String::new();
    let mut i: usize = from;
    while i < to
        invariant
            from <= i <= to <= chars@.len(),
            text@ == chars@.subrange(from as int, i as int),
        decreases to - i,
    {
        assert(chars@.subrange(from as int, i + 1) == chars@.subrange(from as int, i as int).push(
            chars@[i as int],
        ));
        text.push(chars[i]);
        i = i + 1;
    }
    text
}

/// Whether two texts are the same.
pub fn same_text(left: &str, right: &str) -> (same: bool)
    ensures
        same == (left@ == right@),
{
    left.to_owned() == right.to_owned()
}

/// Two texts in one.
pub fn joined(left: &str, right: &str) -> (text: String)
    ensures
        text@ == left@ + right@,
{
    let mut text = left.to_owned();
    text.append(right);
    text
}

fn space(c: char) -> (found: bool)
    ensures
        found == is_space(c),
{
    let code: u32 = c as u32;
    (0x09 <= code && code <= 0x0D) || code == 0x20 || code == 0x85 || code == 0xA0 || code == 0x1680
        || (0x2000 <= code && code <= 0x200A) || code == 0x2028 || code == 0x2029 || code == 0x202F
        || code == 0x205F || code == 0x3000
}

/// Whether trimming leaves nothing of the text.
pub fn is_blank(text: &str) -> (found: bool)
    ensures
        found == blank(text@),
{
    let chars = characters(text);
    let mut i: usize = 0;
    while i < chars.len()
        invariant
            i <= chars@.len(),
            chars@ == text@,
            forall|j: int| 0 <= j < i ==> is_space(#[trigger] text@[j]),
        decreases chars@.len() - i,
    {
        if !space(chars[i]) {
            assert(!is_space(text@[i as int]));
            return false;
        }
        i = i + 1;
    }
    true
}

/// Whether trimming leaves the text as it is.
pub fn is_trimmed(text: &str) -> (found: bool)
    ensures
        found == trimmed(text@),
{
    let chars = characters(text);
    if chars.len() == 0 {
        return true;
    }
    !space(chars[0]) && !space(chars[chars.len() - 1])
}

/// Whether the first text comes before the second.
pub fn comes_before(left: &str, right: &str) -> (found: bool)
    ensures
        found == text_before(left@, right@),
{
    let a = characters(left);
    let b = characters(right);
    let mut i: usize = 0;
    assert(left@.skip(0) == left@);
    assert(right@.skip(0) == right@);
    while i < a.len() && i < b.len() && a[i] == b[i]
        invariant
            i <= a@.len(),
            i <= b@.len(),
            a@ == left@,
            b@ == right@,
            text_before(left@, right@) == text_before(left@.skip(i as int), right@.skip(i as int)),
        decreases a@.len() - i,
    {
        assert(left@.skip(i as int).drop_first() == left@.skip(i + 1));
        assert(right@.skip(i as int).drop_first() == right@.skip(i + 1));
        i = i + 1;
    }
    if i >= b.len() {
        false
    } else if i >= a.len() {
        true
    } else {
        let x: char = a[i];
        let y: char = b[i];
        proof {
            code_point_fits(x);
            code_point_fits(y);
        }
        (x as u32) < (y as u32)
    }
}

/// What follows the prefix, if the text begins with it.
pub fn after_prefix(text: &str, prefix: &str) -> (rest: Option<String>)
    ensures
        rest is Some <==> begins_with(text@, prefix@),
        rest is Some ==> rest->0@ == text@.skip(prefix@.len() as int),
{
    let chars = characters(text);
    let wanted = characters(prefix);
    if wanted.len() > chars.len() {
        return None;
    }
    let mut i: usize = 0;
    while i < wanted.len()
        invariant
            i <= wanted@.len() <= chars@.len(),
            chars@ == text@,
            wanted@ == prefix@,
            forall|j: int| 0 <= j < i ==> chars@[j] == wanted@[j],
        decreases wanted@.len() - i,
    {
        if chars[i] != wanted[i] {
            assert(text@.take(prefix@.len() as int)[i as int] != prefix@[i as int]);
            return None;
        }
        i = i + 1;
    }
    assert(text@.take(prefix@.len() as int) == prefix@);
    let rest = text_of(&chars, wanted.len(), chars.len());
    assert(rest@ == text@.skip(prefix@.len() as int));
    Some(rest)
}

/// Whether `part` stands in `chars` at position `at`.
fn stands_at(chars: &Vec<char>, part: &Vec<char>, at: usize) -> (found: bool)
    requires
        at + part@.len() <= chars@.len(),
    ensures
        found == (chars@.subrange(at as int, at + part@.len()) == part@),
{
    let total: usize = chars.len();
    let mut i: usize = 0;
    while i < part.len()
        invariant
            i <= part@.len(),
            at + part@.len() <= chars@.len(),
            total == chars@.len(),
            forall|j: int| 0 <= j < i ==> chars@[at + j] == part@[j],
        decreases part@.len() - i,
    {
        if chars[at + i] != part[i] {
            assert(chars@.subrange(at as int, at + part@.len())[i as int] != part@[i as int]);
            return false;
        }
        i = i + 1;
    }
    assert(chars@.subrange(at as int, at + part@.len()) == part@);
    true
}

/// Whether `part` stands somewhere in `text`.
pub fn occurs(part: &str, text: &str) -> (found: bool)
    ensures
        found == occurs_in(part@, text@),
{
    let chars = characters(text);
    let wanted = characters(part);
    if wanted.len() > chars.len() {
        return false;
    }
    let last: usize = chars.len() - wanted.len();
    let mut i: usize = 0;
    while i <= last
        invariant
            i <= last + 1,
            last + wanted@.len() == chars@.len(),
            chars@ == text@,
            wanted@ == part@,
            forall|j: int|
                0 <= j < i ==> #[trigger] text@.subrange(j, j + part@.len()) != part@,
        decreases last + 1 - i,
    {
        if stands_at(&chars, &wanted, i) {
            assert(text@.subrange(i as int, i + part@.len()) == part@);
            return true;
        }
        if i == last {
            return false;
        }
        i = i + 1;
    }
    false
}

/// The text without the copies of the suffix that it ends in.
pub fn trim_suffixes(text: &str, suffix: &str) -> (rest: String)
    ensures
        rest@ == without_suffixes(text@, suffix@),
{
    let chars = characters(text);
    let wanted = characters(suffix);
    let mut end: usize = chars.len();
    assert(text@.take(text@.len() as int) == text@);
    while 0 < wanted.len() && wanted.len() <= end
        invariant
            end <= chars@.len(),
            chars@ == text@,
            wanted@ == suffix@,
            without_suffixes(text@, suffix@) == without_suffixes(text@.take(end as int), suffix@),
        decreases end,
    {
        let start: usize = end - wanted.len();
        let ghost whole = text@.take(end as int);
        assert(whole.skip(whole.len() - suffix@.len()) == text@.subrange(
            start as int,
            start + suffix@.len(),
        ));
        if !stands_at(&chars, &wanted, start) {
            let rest = text_of(&chars, 0, end);
            assert(rest@ == whole);
            return rest;
        }
        assert(whole.take(whole.len() - suffix@.len()) == text@.take(start as int));
        end = start;
    }
    let rest = text_of(&chars, 0, end);
    assert(rest@ == text@.take(end as int));
    rest
}

/// Which characters trimming removes, by their code points.
pub proof fn law_spaces_are_these(c: char)
    ensures
        is_space(c) <==> set![
            0x09int, 0x0A, 0x0B, 0x0C, 0x0D, 0x20, 0x85, 0xA0, 0x1680, 0x2000, 0x2001, 0x2002,
            0x2003, 0x2004, 0x2005, 0x2006, 0x2007, 0x2008, 0x2009, 0x200A, 0x2028, 0x2029, 0x202F,
            0x205F, 0x3000,
        ].contains(c as int),
{
    code_point_fits(c);
}

/// A text begins with another exactly where something can be put behind the other to get it.
pub proof fn law_prefixes_can_be_completed(whole: Seq<char>, prefix: Seq<char>)
    ensures
        begins_with(whole, prefix) <==> exists|rest: Seq<char>| whole == #[trigger] (prefix + rest),
{
    if begins_with(whole, prefix) {
        assert(whole == prefix + whole.skip(prefix.len() as int));
    }
    if exists|rest: Seq<char>| whole == #[trigger] (prefix + rest) {
        let rest = choose|rest: Seq<char>| whole == #[trigger] (prefix + rest);
        assert((prefix + rest).take(prefix.len() as int) == prefix);
    }
}

/// A text ends in another exactly where something can be put before the other to get it.
pub proof fn law_suffixes_can_be_completed(whole: Seq<char>, suffix: Seq<char>)
    ensures
        ends_in(whole, suffix) <==> exists|front: Seq<char>| whole == #[trigger] (front + suffix),
{
    if ends_in(whole, suffix) {
        assert(whole == whole.take(whole.len() - suffix.len()) + suffix);
    }
    if exists|front: Seq<char>| whole == #[trigger] (front + suffix) {
        let front = choose|front: Seq<char>| whole == #[trigger] (front + suffix);
        assert((front + suffix).skip(whole.len() - suffix.len()) == suffix);
    }
}

/// A part stands in a text exactly where the text can be put together around it.
pub proof fn law_parts_have_surroundings(part: Seq<char>, whole: Seq<char>)
    ensures
        occurs_in(part, whole) <==> exists|front: Seq<char>, rest: Seq<char>|
            whole == #[trigger] (front + part + rest),
{
    if occurs_in(part, whole) {
        let i = choose|i: int|
            0 <= i <= whole.len() - part.len() && #[trigger] whole.subrange(i, i + part.len())
                == part;
        assert(whole == whole.take(i) + part + whole.skip(i + part.len()));
    }
    if exists|front: Seq<char>, rest: Seq<char>| whole == #[trigger] (front + part + rest) {
        let (front, rest) = choose|front: Seq<char>, rest: Seq<char>|
            whole == #[trigger] (front + part + rest);
        let i = front.len() as int;
        assert((front + part + rest).subrange(i, i + part.len()) == part);
    }
}

/// So many copies of a text, one behind the other.
pub open spec fn copies(part: Seq<char>, times: nat) -> Seq<char>
    decreases times,
{
    if times == 0 {
        Seq::empty()
    } else {
        copies(part, (times - 1) as nat) + part
    }
}

/// What is left without the suffixes does not end in one, and putting some back gives the text.
pub proof fn law_nothing_but_suffixes_is_trimmed(whole: Seq<char>, suffix: Seq<char>)
    requires
        suffix.len() > 0,
    ensures
        !ends_in(without_suffixes(whole, suffix), suffix),
        exists|times: nat|
            whole == without_suffixes(whole, suffix) + #[trigger] copies(suffix, times),
    decreases whole.len(),
{
    if ends_in(whole, suffix) {
        let front = whole.take(whole.len() - suffix.len());
        law_nothing_but_suffixes_is_trimmed(front, suffix);
        let left = without_suffixes(whole, suffix);
        let times = choose|times: nat|
            front == without_suffixes(front, suffix) + #[trigger] copies(suffix, times);
        assert(whole == front + suffix);
        assert(copies(suffix, times + 1) == copies(suffix, times) + suffix);
        assert(whole == left + copies(suffix, times + 1));
    } else {
        assert(copies(suffix, 0) == Seq::<char>::empty());
        assert(whole == without_suffixes(whole, suffix) + copies(suffix, 0));
    }
}

/// Texts are ordered by the first character in which they differ. One that ends there comes
/// first.
pub proof fn law_the_first_difference_decides(left: Seq<char>, right: Seq<char>, same: int)
    requires
        0 <= same <= left.len(),
        same <= right.len(),
        left.take(same) == right.take(same),
        same < left.len() && same < right.len() ==> left[same] != right[same],
    ensures
        text_before(left, right) <==> same < right.len() && (same == left.len() || (left[same]
            as int) < (right[same] as int)),
    decreases left.len(),
{
    if same > 0 {
        assert(left[0] == left.take(same)[0]);
        assert(right[0] == right.take(same)[0]);
        let a = left.drop_first();
        let b = right.drop_first();
        assert(a.take(same - 1) == left.take(same).drop_first());
        assert(b.take(same - 1) == right.take(same).drop_first());
        law_the_first_difference_decides(a, b, same - 1);
    }
}

/// A text is blank if it holds nothing but spaces: together two texts are blank if each is.
pub proof fn law_blank_texts_hold_spaces_alone(left: Seq<char>, right: Seq<char>)
    ensures
        blank(left + right) <==> blank(left) && blank(right),
        forall|c: char| blank(#[trigger] seq![c]) <==> is_space(c),
        blank(Seq::empty()),
{
    if blank(left + right) {
        assert forall|i: int| 0 <= i < left.len() implies is_space(#[trigger] left[i]) by {
            assert((left + right)[i] == left[i]);
        }
        assert forall|i: int| 0 <= i < right.len() implies is_space(#[trigger] right[i]) by {
            assert((left + right)[left.len() + i] == right[i]);
        }
    }
    assert forall|c: char| blank(#[trigger] seq![c]) <==> is_space(c) by {
        assert(seq![c][0] == c);
    }
}

/// A text is trimmed if no space stands at either end of it.
pub proof fn law_trimmed_texts_have_no_space_at_their_ends(c: char, rest: Seq<char>)
    ensures
        is_space(c) ==> !trimmed(seq![c] + rest) && !trimmed(rest.push(c)),
        !is_space(c) && rest.len() > 0 && !is_space(rest.last()) ==> trimmed(seq![c] + rest),
        !is_space(c) ==> trimmed(seq![c]),
        trimmed(Seq::empty()),
{
    assert((seq![c] + rest).first() == c);
    assert(rest.push(c).last() == c);
    if rest.len() > 0 {
        assert((seq![c] + rest).last() == rest.last());
    }
}


/// Lists of strings are seen text by text, in order.
pub proof fn law_lists_are_seen_text_by_text(items: Seq<String>, item: Option<String>)
    ensures
        texts(items).len() == items.len(),
        forall|i: int| 0 <= i < items.len() ==> #[trigger] texts(items)[i] == items[i]@,
        opt_text(item) is Some <==> item is Some,
        item is Some ==> opt_text(item)->0 == item->0@,
{
}

} // verus!
