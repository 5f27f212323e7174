//! Character classes, text assembly and path joining.
use vstd::prelude::*;
use vstd::string::*;
use vstd::utf8::*;

verus! {

/// The characters of Unicode's general category `Cc`.
pub open spec fn control(c: char) -> bool {
    (c as u32) <= 0x1f || 0x7f <= (c as u32) <= 0x9f
}

/// The characters with Unicode's `White_Space` property.
pub open spec fn white_space(c: char) -> bool {
    ||| 0x09 <= (c as u32) <= 0x0d
    ||| (c as u32) == 0x20
    ||| (c as u32) == 0x85
    ||| (c as u32) == 0xa0
    ||| (c as u32) == 0x1680
    ||| 0x2000 <= (c as u32) <= 0x200a
    ||| 0x2028 <= (c as u32) <= 0x2029
    ||| (c as u32) == 0x202f
    ||| (c as u32) == 0x205f
    ||| (c as u32) == 0x3000
}

/// A text with nothing but white space in it.
pub open spec fn blank(text: Seq<char>) -> bool {
    forall|i: int| 0 <= i < text.len() ==> white_space(#[trigger] text[i])
}

/// A control character other than a tab becomes a space.
pub open spec fn flattened_char(c: char) -> char {
    if control(c) && c != '\t' {
        ' '
    } else {
        c
    }
}

/// A text in which every control character but the tab is a space.
pub open spec fn flattened(text: Seq<char>) -> Seq<char> {
    text.map_values(|c: char| flattened_char(c))
}

/// What `String::from_utf8_lossy` makes of some bytes.
pub uninterp spec fn lossy_decoding(bytes: Seq<u8>) -> Seq<char>;

/// A Unix path with a relative component put below it.
pub open spec fn joined(base: Seq<u8>, component: Seq<u8>) -> Seq<u8> {
    if base.len() == 0 || base.last() == 0x2f {
        base + component
    } else {
        base.push(0x2f) + component
    }
}

/// `String::push` puts one character behind the text.
pub assume_specification[ String::push ](text: &mut String, c: char)
    ensures
        final(text)@ == old(text)@.push(c),
;

/// Calls `String::from_utf8_lossy`.  Bytes that are valid UTF-8 are decoded
/// as they are; how the replacement characters fall into other bytes is only
/// named, as a function of the bytes.
#[verifier::external_body]
pub(crate) fn lossy_text(bytes: &[u8]) -> (text: String)
    ensures
        text@ == lossy_decoding(bytes@),
        valid_utf8(bytes@) ==> text@ == decode_utf8(bytes@),
{
    String::from_utf8_lossy(bytes).into_owned()
}

pub fn is_control(c: char) -> (found: bool)
    ensures
        found == control(c),
{
    let code: u32 = c as u32;
    code <= 0x1f || (0x7f <= code && code <= 0x9f)
}

pub fn is_white_space(c: char) -> (found: bool)
    ensures
        found == white_space(c),
{
    let code: u32 = c as u32;
    (0x09 <= code && code <= 0x0d) || code == 0x20 || code == 0x85 || code == 0xa0 || code == 0x1680
        || (0x2000 <= code && code <= 0x200a) || (0x2028 <= code && code <= 0x2029) || code
        == 0x202f || code == 0x205f || code == 0x3000
}

/// Whether a text is empty once white space is trimmed from it.
pub fn is_blank(text: &str) -> (found: bool)
    ensures
        found == blank(text@),
{
    for c in it: text.chars()
        invariant
            it.seq() == text@,
            forall|i: int| 0 <= i < it.index() ==> white_space(#[trigger] text@[i]),
    {
        if !is_white_space(c) {
            assert(!white_space(text@[it.index() as int]));
            return false;
        }
    }
    true
}

/// The text as one line: control characters but the tab are spaces.
pub fn flatten(text: &str) -> (line: String)
    ensures
        line@ == flattened(text@),
{
    let mut line = String::new();
    for c in it: text.chars()
        invariant
            it.seq() == text@,
            line@ == flattened(text@.take(it.index() as int)),
    {
        assert(flattened(text@.take(it.index() + 1)) =~= flattened(
            text@.take(it.index() as int),
        ).push(flattened_char(c)));
        if is_control(c) && c != '\t' {
            line.push(' ');
        } else {
            line.push(c);
        }
    }
    assert(text@.take(text@.len() as int) =~= text@);
    line
}

pub fn same_text(left: &str, right: &str) -> (same: bool)
    ensures
        same == (left@ == right@),
{
    left.to_owned() == right.to_owned()
}

/// The length of a text in UTF-8 bytes.
pub fn byte_length(text: &str) -> (length: usize)
    ensures
        length == encode_utf8(text@).len(),
{
    text.as_bytes().len()
}

/// The three parts one after the other.
pub fn concatenate(first: &str, second: &str, third: &str) -> (text: String)
    ensures
        text@ == first@ + second@ + third@,
{
    let mut text = String::new();
    text.append(first);
    text.append(second);
    text.append(third);
    assert(text@ =~= first@ + second@ + third@);
    text
}

/// A relative component below a path, both as the bytes of a Unix path.
pub fn join(base: &[u8], component: &str) -> (path: Vec<u8>)
    ensures
        path@ == joined(base@, encode_utf8(component@)),
{
    let mut path: Vec<u8> = Vec::new();
    path.extend_from_slice(base);
    assert(path@ =~= base@);
    let bare = base.len() == 0 || base[base.len() - 1] == 0x2f;
    if !bare {
        path.push(0x2f);
    }
    let ghost prefix = path@;
    path.extend_from_slice(component.as_bytes());
    assert(path@ =~= prefix + encode_utf8(component@));
    path
}

/// Flattening leaves no control character but the tab.
pub proof fn flattened_text_is_one_line(text: Seq<char>)
    ensures
        flattened(text).len() == text.len(),
        forall|i: int|
            0 <= i < text.len() ==> (control(#[trigger] flattened(text)[i]) ==> flattened(text)[i]
                == '\t'),
        forall|i: int|
            0 <= i < text.len() && (!control(text[i]) || text[i] == '\t') ==> #[trigger] flattened(
                text,
            )[i] == text[i],
{
}

/// Flattening looks at each character by itself: one with a code up to 0x1f or
/// from 0x7f to 0x9f becomes a space unless it is a tab, and any other stays.
pub proof fn flattening_replaces_controls_alone(text: Seq<char>, i: int)
    requires
        0 <= i < text.len(),
    ensures
        flattened(text).len() == text.len(),
        text[i] != '\t' && ((text[i] as u32) <= 0x1f || 0x7f <= (text[i] as u32) <= 0x9f)
            ==> flattened(text)[i] == ' ',
        text[i] == '\t' ==> flattened(text)[i] == '\t',
        (0x20 <= (text[i] as u32) <= 0x7e || 0xa0 <= (text[i] as u32)) ==> flattened(text)[i]
            == text[i],
{
}

/// A text is blank exactly if all its parts are: nothing is, and a character is
/// if it is white space.
pub proof fn blank_texts_have_blank_parts(left: Seq<char>, right: Seq<char>, c: char)
    ensures
        blank(Seq::<char>::empty()),
        blank(seq![c]) == white_space(c),
        blank(left + right) == (blank(left) && blank(right)),
{
    if white_space(c) {
        assert(blank(seq![c]));
    } else {
        assert(!white_space(seq![c][0]));
    }
    if blank(left) && blank(right) {
        assert(blank(left + right));
    }
    if blank(left + right) {
        assert forall|i: int| 0 <= i < left.len() implies white_space(#[trigger] left[i]) by {
            assert((left + right)[i] == left[i]);
        }
        assert forall|i: int| 0 <= i < right.len() implies white_space(#[trigger] right[i]) by {
            assert((left + right)[left.len() + i] == right[i]);
        }
    }
}

/// A joined path is the path, a slash unless the path is empty or ends with one,
/// and the component.
pub proof fn paths_join_with_one_slash(base: Seq<u8>, component: Seq<u8>)
    ensures
        ({
            let path = joined(base, component);
            let slashes: int = if base.len() == 0 || base[base.len() - 1] == 0x2f {
                0
            } else {
                1
            };
            &&& path.len() == base.len() + slashes + component.len()
            &&& path.take(base.len() as int) == base
            &&& path.skip(base.len() + slashes) == component
            &&& slashes == 1 ==> path[base.len() as int] == 0x2f
        }),
{
    let path = joined(base, component);
    let slashes: int = if base.len() == 0 || base.last() == 0x2f {
        0
    } else {
        1
    };
    assert(path.take(base.len() as int) =~= base);
    assert(path.skip(base.len() + slashes) =~= component);
}

} // verus!
