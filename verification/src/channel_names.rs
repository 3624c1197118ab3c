//! Conversion of free-form text into a safe channel name: bounded length,
//! ASCII-only lowercasing, and word-separator normalization.
//!
//! The pipeline works on the bytes of the input's encoding (the length
//! bound is a byte bound, a documented limitation for multi-byte text):
//! truncate to at most [`NAME_LENGTH_LIMIT`] bytes, fold ASCII uppercase to
//! lowercase, replace every maximal run of bytes outside `[a-z0-9]` with a
//! single space, trim leading and trailing spaces, and turn each remaining
//! space into a hyphen. There is no error path: the result may be empty if
//! the input held nothing alphanumeric.

use vstd::prelude::*;
use vstd::string::StrSliceExecFns;

verus! {

/// The maximum length of a channel name, in bytes of the original text.
pub const NAME_LENGTH_LIMIT: usize = 32;

/// The space byte used as the intermediate word separator.
pub const SPACE_BYTE: u8 = 32;

/// The hyphen byte that separates words in the final name.
pub const HYPHEN_BYTE: u8 = 45;

/// Whether a byte may appear in a word of a channel name: an ASCII
/// lowercase letter or a digit.
pub open spec fn is_name_byte(x: u8) -> bool {
    (97 <= x <= 122) || (48 <= x <= 57)
}

/// ASCII-only case folding of one byte: uppercase letters become
/// lowercase, everything else is untouched.
pub open spec fn ascii_lower(x: u8) -> u8 {
    if 65 <= x <= 90 {
        (x + 32) as u8
    } else {
        x
    }
}

/// The input clipped to its first [`NAME_LENGTH_LIMIT`] bytes.
pub open spec fn truncated(b: Seq<u8>) -> Seq<u8> {
    if b.len() <= NAME_LENGTH_LIMIT {
        b
    } else {
        b.take(NAME_LENGTH_LIMIT as int)
    }
}

/// Every byte folded to lowercase, ASCII-only.
pub open spec fn lowered(b: Seq<u8>) -> Seq<u8> {
    b.map_values(|x: u8| ascii_lower(x))
}

/// Every maximal run of bytes outside `[a-z0-9]` replaced by one space.
pub open spec fn squashed(b: Seq<u8>) -> Seq<u8>
    decreases b.len(),
{
    if b.len() == 0 {
        Seq::<u8>::empty()
    } else {
        let front = squashed(b.drop_last());
        let x = b.last();
        if is_name_byte(x) {
            front.push(x)
        } else if front.len() > 0 && front.last() == SPACE_BYTE {
            front
        } else {
            front.push(SPACE_BYTE)
        }
    }
}

/// The sequence without its leading spaces.
pub open spec fn trim_leading(b: Seq<u8>) -> Seq<u8>
    decreases b.len(),
{
    if b.len() > 0 && b[0] == SPACE_BYTE {
        trim_leading(b.drop_first())
    } else {
        b
    }
}

/// The sequence without its trailing spaces.
pub open spec fn trim_trailing(b: Seq<u8>) -> Seq<u8>
    decreases b.len(),
{
    if b.len() > 0 && b.last() == SPACE_BYTE {
        trim_trailing(b.drop_last())
    } else {
        b
    }
}

/// Every space turned into a hyphen.
pub open spec fn hyphenated(b: Seq<u8>) -> Seq<u8> {
    b.map_values(|x: u8| if x == SPACE_BYTE { HYPHEN_BYTE } else { x })
}

/// The whole sanitizing pipeline on the bytes of the input.
pub open spec fn spec_channelify_bytes(b: Seq<u8>) -> Seq<u8> {
    hyphenated(trim_trailing(trim_leading(squashed(lowered(truncated(b))))))
}

/// The sanitized channel name of a text, as the characters of the
/// ASCII-only result of the byte pipeline on the text's encoding.
pub open spec fn spec_channelify(s: Seq<char>) -> Seq<char> {
    spec_channelify_bytes(vstd::utf8::encode_utf8(s)).map_values(|x: u8| x as char)
}

/// Whether a character may appear in a finished channel name.
pub open spec fn is_name_char(c: char) -> bool {
    ('a' <= c && c <= 'z') || ('0' <= c && c <= '9') || c == '-'
}

/// A byte that can reach the trimming stages: a word byte or a space.
pub open spec fn is_word_or_space_byte(x: u8) -> bool {
    is_name_byte(x) || x == SPACE_BYTE
}

proof fn lemma_squashed_bytes(b: Seq<u8>)
    ensures
        squashed(b).len() <= b.len(),
        forall|i: int|
            0 <= i < squashed(b).len() ==> is_word_or_space_byte(#[trigger] squashed(b)[i]),
    decreases b.len(),
{
    if b.len() > 0 {
        lemma_squashed_bytes(b.drop_last());
    }
}

proof fn lemma_trim_leading_bytes(b: Seq<u8>)
    requires
        forall|i: int| 0 <= i < b.len() ==> is_word_or_space_byte(#[trigger] b[i]),
    ensures
        trim_leading(b).len() <= b.len(),
        forall|i: int|
            0 <= i < trim_leading(b).len() ==> is_word_or_space_byte(
                #[trigger] trim_leading(b)[i],
            ),
    decreases b.len(),
{
    if b.len() > 0 && b[0] == SPACE_BYTE {
        lemma_trim_leading_bytes(b.drop_first());
    }
}

proof fn lemma_trim_trailing_bytes(b: Seq<u8>)
    requires
        forall|i: int| 0 <= i < b.len() ==> is_word_or_space_byte(#[trigger] b[i]),
    ensures
        trim_trailing(b).len() <= b.len(),
        forall|i: int|
            0 <= i < trim_trailing(b).len() ==> is_word_or_space_byte(
                #[trigger] trim_trailing(b)[i],
            ),
    decreases b.len(),
{
    if b.len() > 0 && b.last() == SPACE_BYTE {
        lemma_trim_trailing_bytes(b.drop_last());
    }
}

/// The byte pipeline always yields a name of at most
/// [`NAME_LENGTH_LIMIT`] bytes, no longer than its input, made only of
/// lowercase letters, digits and hyphens.
pub proof fn lemma_channelify_bytes_valid(b: Seq<u8>)
    ensures
        spec_channelify_bytes(b).len() <= NAME_LENGTH_LIMIT,
        spec_channelify_bytes(b).len() <= b.len(),
        forall|i: int|
            0 <= i < spec_channelify_bytes(b).len() ==> is_name_byte(
                #[trigger] spec_channelify_bytes(b)[i],
            ) || spec_channelify_bytes(b)[i] == HYPHEN_BYTE,
{
    let t = truncated(b);
    let l = lowered(t);
    let q = squashed(l);
    let m = trim_trailing(trim_leading(q));
    lemma_squashed_bytes(l);
    lemma_trim_leading_bytes(q);
    lemma_trim_trailing_bytes(trim_leading(q));
    assert(forall|i: int|
        0 <= i < m.len() ==> is_name_byte(#[trigger] hyphenated(m)[i]) || hyphenated(m)[i]
            == HYPHEN_BYTE);
}

/// For every input, the sanitized name has at most
/// [`NAME_LENGTH_LIMIT`] characters and matches `[a-z0-9-]*`.
pub proof fn lemma_channelify_valid(s: Seq<char>)
    ensures
        spec_channelify(s).len() <= NAME_LENGTH_LIMIT,
        forall|i: int|
            0 <= i < spec_channelify(s).len() ==> is_name_char(#[trigger] spec_channelify(s)[i]),
{
    let b = vstd::utf8::encode_utf8(s);
    lemma_channelify_bytes_valid(b);
}

/// Relies on `String::from_utf8`: bytes below 128 are valid UTF-8 and
/// decode to exactly the matching ASCII characters.
#[verifier::external_body]
fn ascii_bytes_to_string(bytes: Vec<u8>) -> (r: String)
    requires
        forall|i: int| 0 <= i < bytes@.len() ==> bytes@[i] < 128,
    ensures
        r@ == bytes@.map_values(|x: u8| x as char),
{
    String::from_utf8(bytes).unwrap_or_default()
}

/// Convert a text to an acceptable channel name by limiting it to
/// [`NAME_LENGTH_LIMIT`] bytes and by using kebab-lower-case.
pub fn channelify(s: &str) -> (r: String)
    ensures
        r@ == spec_channelify(s@),
        r@.len() <= NAME_LENGTH_LIMIT,
        forall|i: int| 0 <= i < r@.len() ==> is_name_char(#[trigger] r@[i]),
{
    let bytes: Vec<u8> = s.as_bytes_vec();

    // Clip to the first NAME_LENGTH_LIMIT bytes.
    let n: usize = if bytes.len() <= NAME_LENGTH_LIMIT {
        bytes.len()
    } else {
        NAME_LENGTH_LIMIT
    };
    let mut clipped: Vec<u8> = Vec::new();
    let mut i: usize = 0;
    while i < n
        invariant
            i <= n <= bytes@.len(),
            n == if bytes@.len() <= NAME_LENGTH_LIMIT {
                bytes@.len() as int
            } else {
                NAME_LENGTH_LIMIT as int
            },
            clipped@ == bytes@.take(i as int),
        decreases n - i,
    {
        clipped.push(bytes[i]);
        i += 1;
        proof {
            assert(bytes@.take(i as int) =~= bytes@.take(i - 1).push(bytes@[i - 1]));
        }
    }
    proof {
        assert(clipped@ =~= truncated(bytes@));
    }

    // Fold ASCII uppercase to lowercase.
    let mut low: Vec<u8> = Vec::new();
    let mut i: usize = 0;
    while i < clipped.len()
        invariant
            i <= clipped@.len(),
            low@ == lowered(clipped@.take(i as int)),
        decreases clipped@.len() - i,
    {
        let x = clipped[i];
        if 65 <= x && x <= 90 {
            low.push(x + 32);
        } else {
            low.push(x);
        }
        i += 1;
        proof {
            assert(clipped@.take(i as int) =~= clipped@.take(i - 1).push(clipped@[i - 1]));
            assert(lowered(clipped@.take(i as int)) =~= lowered(clipped@.take(i - 1)).push(
                ascii_lower(clipped@[i - 1]),
            ));
        }
    }
    proof {
        assert(clipped@.take(clipped@.len() as int) =~= clipped@);
    }

    // Replace each run of bytes outside [a-z0-9] with a single space.
    let mut squash: Vec<u8> = Vec::new();
    let mut i: usize = 0;
    while i < low.len()
        invariant
            i <= low@.len(),
            squash@ == squashed(low@.take(i as int)),
        decreases low@.len() - i,
    {
        let x = low[i];
        if (97 <= x && x <= 122) || (48 <= x && x <= 57) {
            squash.push(x);
        } else if !(squash.len() > 0 && squash[squash.len() - 1] == SPACE_BYTE) {
            squash.push(SPACE_BYTE);
        }
        i += 1;
        proof {
            let p = low@.take(i as int);
            assert(p.drop_last() =~= low@.take(i - 1));
            assert(p.last() == low@[i - 1]);
        }
    }
    proof {
        assert(low@.take(low@.len() as int) =~= low@);
    }

    // Trim leading and trailing spaces.
    let ghost sq = squash@;
    proof {
        assert(sq.subrange(0, sq.len() as int) =~= sq);
    }
    let mut start: usize = 0;
    while start < squash.len() && squash[start] == SPACE_BYTE
        invariant
            start <= squash@.len(),
            squash@ == sq,
            trim_leading(sq) == trim_leading(sq.subrange(start as int, sq.len() as int)),
        decreases squash@.len() - start,
    {
        proof {
            let cur = sq.subrange(start as int, sq.len() as int);
            assert(cur.drop_first() =~= sq.subrange(start as int + 1, sq.len() as int));
        }
        start += 1;
    }
    proof {
        assert(trim_leading(sq) =~= sq.subrange(start as int, sq.len() as int));
    }

    let mut end: usize = squash.len();
    while end > start && squash[end - 1] == SPACE_BYTE
        invariant
            start <= end <= squash@.len(),
            squash@ == sq,
            trim_leading(sq) == sq.subrange(start as int, sq.len() as int),
            trim_trailing(trim_leading(sq)) == trim_trailing(
                sq.subrange(start as int, end as int),
            ),
        decreases end,
    {
        proof {
            let cur = sq.subrange(start as int, end as int);
            assert(cur.drop_last() =~= sq.subrange(start as int, end - 1));
        }
        end -= 1;
    }
    proof {
        assert(trim_trailing(trim_leading(sq)) =~= sq.subrange(start as int, end as int));
    }

    // Turn each remaining space into a hyphen.
    let mut out: Vec<u8> = Vec::new();
    let mut i: usize = start;
    while i < end
        invariant
            start <= i <= end <= squash@.len(),
            squash@ == sq,
            out@ == hyphenated(sq.subrange(start as int, i as int)),
        decreases end - i,
    {
        let x = squash[i];
        if x == SPACE_BYTE {
            out.push(HYPHEN_BYTE);
        } else {
            out.push(x);
        }
        i += 1;
        proof {
            let p = sq.subrange(start as int, i as int);
            assert(p =~= sq.subrange(start as int, i - 1).push(sq[i - 1]));
            assert(hyphenated(p) =~= hyphenated(sq.subrange(start as int, i - 1)).push(
                if sq[i - 1] == SPACE_BYTE {
                    HYPHEN_BYTE
                } else {
                    sq[i - 1]
                },
            ));
        }
    }

    proof {
        assert(out@ == spec_channelify_bytes(bytes@));
        lemma_channelify_bytes_valid(bytes@);
        lemma_channelify_valid(s@);
        assert(forall|i: int| 0 <= i < out@.len() ==> out@[i] < 128);
    }
    ascii_bytes_to_string(out)
}

/// A text that can be turned into an acceptable channel name.
pub trait Channelizable {
    /// The characters the sanitizer will read.
    spec fn source_chars(&self) -> Seq<char>;

    /// Convert to an acceptable channel name by limiting it to
    /// [`NAME_LENGTH_LIMIT`] bytes and by using kebab-lower-case.
    fn channelify(&self) -> (r: String)
        ensures
            r@ == spec_channelify(self.source_chars()),
    ;
}

impl Channelizable for String {
    open spec fn source_chars(&self) -> Seq<char> {
        self@
    }

    fn channelify(&self) -> (r: String) {
        channelify(self.as_str())
    }
}

/// A name already in its finished form: within the length bound, made
/// only of word bytes and hyphens, opening and closing with a word byte,
/// and with no two hyphens adjacent.
pub open spec fn is_canonical_name(b: Seq<u8>) -> bool {
    &&& b.len() <= NAME_LENGTH_LIMIT
    &&& forall|i: int| 0 <= i < b.len() ==> is_name_byte(#[trigger] b[i]) || b[i] == HYPHEN_BYTE
    &&& b.len() > 0 ==> is_name_byte(b[0]) && is_name_byte(b.last())
    &&& forall|i: int|
        0 <= i < b.len() - 1 ==> !(b[i] == HYPHEN_BYTE && #[trigger] b[i + 1] == HYPHEN_BYTE)
}

/// Every hyphen replaced by a space.
spec fn hyphens_to_spaces(b: Seq<u8>) -> Seq<u8> {
    b.map_values(|x: u8| if x == HYPHEN_BYTE { SPACE_BYTE } else { x })
}

proof fn lemma_squashed_of_canonical(b: Seq<u8>)
    requires
        forall|i: int| 0 <= i < b.len() ==> is_name_byte(#[trigger] b[i]) || b[i] == HYPHEN_BYTE,
        b.len() > 0 ==> is_name_byte(b[0]),
        forall|i: int|
            0 <= i < b.len() - 1 ==> !(b[i] == HYPHEN_BYTE && #[trigger] b[i + 1] == HYPHEN_BYTE),
    ensures
        squashed(b) == hyphens_to_spaces(b),
    decreases b.len(),
{
    if b.len() == 0 {
        assert(squashed(b) =~= hyphens_to_spaces(b));
    } else {
        let front = b.drop_last();
        lemma_squashed_of_canonical(front);
        let x = b.last();
        if is_name_byte(x) {
            assert(hyphens_to_spaces(b) =~= hyphens_to_spaces(front).push(x));
        } else {
            // The last byte is a hyphen; it cannot be the first byte, and
            // the byte before it is a word byte, so the squash appends one
            // space after a non-space.
            assert(x == HYPHEN_BYTE);
            assert(b.len() >= 2) by {
                if b.len() == 1 {
                    assert(b[0] == b.last());
                }
            }
            let j: int = b.len() - 2;
            assert(b[j + 1] == HYPHEN_BYTE);
            assert(!(b[j] == HYPHEN_BYTE && b[j + 1] == HYPHEN_BYTE));
            assert(is_name_byte(b[j]) || b[j] == HYPHEN_BYTE);
            assert(is_name_byte(b[j]));
            assert(hyphens_to_spaces(front).len() > 0);
            assert(hyphens_to_spaces(front).last() == b[j]);
            assert(hyphens_to_spaces(b) =~= hyphens_to_spaces(front).push(SPACE_BYTE));
        }
    }
}

/// The sanitizer is the identity on a name already in its finished form:
/// sanitizing such a name once more changes nothing. A name that merely
/// stays within the character class is not enough — two adjacent hyphens,
/// or one at either end, would still be rewritten.
pub proof fn lemma_channelify_canonical_fixed(b: Seq<u8>)
    requires
        is_canonical_name(b),
    ensures
        spec_channelify_bytes(b) == b,
{
    assert(truncated(b) == b);
    assert(lowered(b) =~= b);
    lemma_squashed_of_canonical(b);
    let m = hyphens_to_spaces(b);
    if b.len() > 0 {
        assert(m[0] == b[0] && !(m[0] == SPACE_BYTE));
        assert(m.last() == b.last() && !(m.last() == SPACE_BYTE));
    }
    assert(trim_leading(m) == m);
    assert(trim_trailing(m) == m);
    assert(hyphenated(m) =~= b);
}

proof fn lemma_squashed_no_adjacent_spaces(b: Seq<u8>)
    ensures
        forall|i: int|
            0 <= i < squashed(b).len() - 1 ==> !(squashed(b)[i] == SPACE_BYTE
                && #[trigger] squashed(b)[i + 1] == SPACE_BYTE),
    decreases b.len(),
{
    if b.len() > 0 {
        lemma_squashed_no_adjacent_spaces(b.drop_last());
        let front = squashed(b.drop_last());
        let whole = squashed(b);
        assert forall|i: int|
            0 <= i < whole.len() - 1 implies !(whole[i] == SPACE_BYTE && #[trigger] whole[i + 1]
            == SPACE_BYTE) by {
            if i + 1 < front.len() {
                assert(whole[i] == front[i] && whole[i + 1] == front[i + 1]);
            }
        }
    }
}

proof fn lemma_trim_leading_shape(b: Seq<u8>)
    ensures
        trim_leading(b).len() <= b.len(),
        trim_leading(b) =~= b.subrange(b.len() - trim_leading(b).len(), b.len() as int),
        trim_leading(b).len() > 0 ==> trim_leading(b)[0] != SPACE_BYTE,
    decreases b.len(),
{
    if b.len() > 0 && b[0] == SPACE_BYTE {
        lemma_trim_leading_shape(b.drop_first());
        let r = trim_leading(b);
        assert(b.drop_first().subrange(
            b.drop_first().len() - r.len(),
            b.drop_first().len() as int,
        ) =~= b.subrange(b.len() - r.len(), b.len() as int));
    }
}

proof fn lemma_trim_trailing_shape(b: Seq<u8>)
    ensures
        trim_trailing(b).len() <= b.len(),
        trim_trailing(b) =~= b.take(trim_trailing(b).len() as int),
        trim_trailing(b).len() > 0 ==> trim_trailing(b).last() != SPACE_BYTE,
    decreases b.len(),
{
    if b.len() > 0 && b.last() == SPACE_BYTE {
        lemma_trim_trailing_shape(b.drop_last());
        let r = trim_trailing(b);
        assert(b.drop_last().take(r.len() as int) =~= b.take(r.len() as int));
    }
}

/// What the sanitizer returns is itself a name in finished form.
pub proof fn lemma_channelify_bytes_canonical(b: Seq<u8>)
    ensures
        is_canonical_name(spec_channelify_bytes(b)),
{
    let t = truncated(b);
    let l = lowered(t);
    let q = squashed(l);
    let tl = trim_leading(q);
    let m = trim_trailing(tl);
    let o = hyphenated(m);

    lemma_squashed_bytes(l);
    lemma_squashed_no_adjacent_spaces(l);
    lemma_trim_leading_bytes(q);
    lemma_trim_leading_shape(q);
    lemma_trim_trailing_bytes(tl);
    lemma_trim_trailing_shape(tl);

    // Every byte reaching the final stage is a word byte or a space, and
    // the trimmed sequence opens and closes with a word byte.
    assert(forall|i: int| 0 <= i < m.len() ==> is_word_or_space_byte(#[trigger] m[i]));
    if m.len() > 0 {
        assert(m[0] == tl[0]);
        assert(is_name_byte(m[0]));
        assert(is_name_byte(m.last()));
    }

    // Adjacent spaces never survive squashing, and trimming keeps a
    // contiguous piece, so the final stage still has no adjacent spaces.
    let k = q.len() - tl.len();
    assert forall|i: int|
        0 <= i < m.len() - 1 implies !(m[i] == SPACE_BYTE && #[trigger] m[i + 1] == SPACE_BYTE) by {
        assert(m[i] == tl[i] && m[i + 1] == tl[i + 1]);
        assert(tl[i] == q[k + i] && tl[i + 1] == q[k + i + 1]);
        assert(!(q[k + i] == SPACE_BYTE && q[k + i + 1] == SPACE_BYTE));
    }

    // A hyphen in the output stands exactly where a space stood.
    assert forall|i: int| 0 <= i < o.len() implies ((#[trigger] o[i] == HYPHEN_BYTE) <==> m[i]
        == SPACE_BYTE) by {
        assert(is_word_or_space_byte(m[i]));
    }

    assert(o.len() <= NAME_LENGTH_LIMIT);
    if o.len() > 0 {
        assert(is_name_byte(o[0]));
        assert(is_name_byte(o.last()));
    }
    assert forall|i: int|
        0 <= i < o.len() - 1 implies !(o[i] == HYPHEN_BYTE && #[trigger] o[i + 1] == HYPHEN_BYTE) by {
        assert(!(m[i] == SPACE_BYTE && m[i + 1] == SPACE_BYTE));
    }
}

/// Sanitizing twice is the same as sanitizing once.
pub proof fn lemma_channelify_bytes_idempotent(b: Seq<u8>)
    ensures
        spec_channelify_bytes(spec_channelify_bytes(b)) == spec_channelify_bytes(b),
{
    lemma_channelify_bytes_canonical(b);
    lemma_channelify_canonical_fixed(spec_channelify_bytes(b));
}

/// Sanitizing a name that was itself produced by the sanitizer changes
/// nothing: the sanitizer is idempotent.
pub proof fn lemma_channelify_idempotent(s: Seq<char>)
    ensures
        spec_channelify(spec_channelify(s)) == spec_channelify(s),
{
    let b = vstd::utf8::encode_utf8(s);
    let o = spec_channelify_bytes(b);
    let out = o.map_values(|x: u8| x as char);
    lemma_channelify_bytes_valid(b);

    assert(vstd::utf8::is_ascii_chars(out)) by {
        assert forall|i| 0 <= i < out.len() implies '\0' <= #[trigger] out[i] <= '\u{7f}' by {
            assert(is_name_byte(o[i]) || o[i] == HYPHEN_BYTE);
            assert(out[i] == o[i] as char);
        }
    }
    vstd::utf8::is_ascii_chars_encode_utf8(out);
    assert(vstd::utf8::encode_utf8(out) =~= o) by {
        assert forall|i: int| 0 <= i < o.len() implies vstd::utf8::encode_utf8(out)[i] == o[i] by {
            assert(vstd::utf8::encode_utf8(out)[i] == out[i] as u8);
            assert(out[i] == o[i] as char);
            assert(is_name_byte(o[i]) || o[i] == HYPHEN_BYTE);
        }
    }
    lemma_channelify_bytes_idempotent(b);
    assert(spec_channelify(spec_channelify(s)) =~= spec_channelify(s));
}

} // verus!
