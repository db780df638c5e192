//! Device IDs: UUIDs, held as 128-bit numbers, and the texts that stand for them.

use vstd::prelude::*;

verus! {

/// The lower-case hexadecimal digit of a number below 16.
pub open spec fn hex_digit(n: u128) -> char {
    if n < 10 {
        (48 + n) as char
    } else {
        (87 + n) as char
    }
}

/// The `k`-th of the 32 four-bit groups of `id`, the most significant one first.
pub open spec fn nibble(id: u128, k: int) -> u128 {
    (id >> (4 * (31 - k)) as u128) & 0xf
}

/// `id` as 32 lower-case hexadecimal digits.
pub open spec fn simple(id: u128) -> Seq<char> {
    Seq::new(32, |k: int| hex_digit(nibble(id, k)))
}

/// `id` as hexadecimal digits in groups of 8, 4, 4, 4 and 12, joined by hyphens.
pub open spec fn hyphenated(id: u128) -> Seq<char> {
    let d = simple(id);
    d.subrange(0, 8) + seq!['-'] + d.subrange(8, 12) + seq!['-'] + d.subrange(12, 16) + seq!['-']
        + d.subrange(16, 20) + seq!['-'] + d.subrange(20, 32)
}

/// An ASCII capital becomes the small letter; any other character stays.
pub open spec fn ascii_lower(c: char) -> char {
    if 65 <= c as u32 <= 90 {
        (c as u32 + 32) as char
    } else {
        c
    }
}

/// Whether `text` is one of the ways to write `id`: simple, hyphenated, in braces or as a URN,
/// in capital or small letters.
pub open spec fn denotes(text: Seq<char>, id: u128) -> bool {
    let t = text.map_values(|c: char| ascii_lower(c));
    ||| t == simple(id)
    ||| t == hyphenated(id)
    ||| t == seq!['{'] + hyphenated(id) + seq!['}']
    ||| t == "urn:uuid:"@ + hyphenated(id)
}

/// Whether `text` is a way to write any UUID at all.
pub open spec fn is_uuid_text(text: Seq<char>) -> bool {
    exists|id: u128| denotes(text, id)
}

/// Whether the version field of `id` says 4 (random) and its variant field says RFC 4122.
pub open spec fn is_random_uuid(id: u128) -> bool {
    (id >> 76u128) & 0xf == 4 && (id >> 62u128) & 0x3 == 2
}

/// What the error of `uuid::Uuid::parse_str` says of a text that is no UUID.
pub uninterp spec fn uuid_error_text(text: Seq<char>) -> Seq<char>;

/// Calls `uuid::Uuid::parse_str`.  Trusted: a text that denotes a UUID gives that UUID, as a
/// big-endian number; any other text gives an error, whose message depends on the text alone.
#[verifier::external_body]
pub(crate) fn parse_uuid(text: &str) -> (r: Result<u128, String>)
    ensures
        match r {
            Ok(id) => denotes(text@, id),
            Err(message) => !is_uuid_text(text@) && message@ == uuid_error_text(text@),
        },
{
    match uuid::Uuid::parse_str(text) {
        Ok(id) => Ok(id.as_u128()),
        Err(e) => Err(e.to_string()),
    }
}

/// Calls `to_string` of `uuid::Uuid`.  Trusted: the text is the hyphenated form, in small
/// letters.
#[verifier::external_body]
pub(crate) fn uuid_to_string(id: u128) -> (r: String)
    ensures
        r@ == hyphenated(id),
{
    uuid::Uuid::from_u128(id).to_string()
}

/// A source of new device IDs, with a record of all that it has given.
pub struct UuidSource {
    drawn: Ghost<Seq<u128>>,
}

impl UuidSource {
    /// The IDs that have been drawn, in their order: the results of all calls of `draw` so far.
    pub closed spec fn drawn(self) -> Seq<u128> {
        self.drawn@
    }

    /// A source from which nothing has been drawn.
    pub fn new() -> (r: UuidSource)
        ensures
            r.drawn() == Seq::<u128>::empty(),
    {
        UuidSource { drawn: Ghost(Seq::empty()) }
    }

    /// Calls `uuid::Uuid::new_v4`, once.  Trusted: the UUID is marked as a random one of RFC 4122,
    /// and it is what this draw adds to the record, which stands for the results of these calls.
    /// Nothing is said of its other bits: they are random, and two draws may, if rarely, give the
    /// same.  The call panics if the operating system has no random bytes to give.
    #[verifier::external_body]
    pub(crate) fn draw(&mut self) -> (id: u128)
        ensures
            is_random_uuid(id),
            final(self).drawn() == old(self).drawn().push(id),
    {
        uuid::Uuid::new_v4().as_u128()
    }
}

proof fn lemma_nibble_bound(id: u128, k: int)
    ensures
        nibble(id, k) < 16,
{
    let s = (4 * (31 - k)) as u128;
    assert((id >> s) & 0xf < 16) by (bit_vector);
}

proof fn lemma_nibbles_determine(a: u128, b: u128)
    requires
        forall|k: int| 0 <= k < 32 ==> nibble(a, k) == nibble(b, k),
    ensures
        a == b,
{
    assert(nibble(a, 0) == nibble(b, 0) && nibble(a, 1) == nibble(b, 1) && nibble(a, 2) == nibble(b, 2)
        && nibble(a, 3) == nibble(b, 3) && nibble(a, 4) == nibble(b, 4) && nibble(a, 5) == nibble(b, 5)
        && nibble(a, 6) == nibble(b, 6) && nibble(a, 7) == nibble(b, 7) && nibble(a, 8) == nibble(b, 8)
        && nibble(a, 9) == nibble(b, 9) && nibble(a, 10) == nibble(b, 10) && nibble(a, 11) == nibble(b, 11)
        && nibble(a, 12) == nibble(b, 12) && nibble(a, 13) == nibble(b, 13) && nibble(a, 14) == nibble(b, 14)
        && nibble(a, 15) == nibble(b, 15));
    assert(nibble(a, 16) == nibble(b, 16) && nibble(a, 17) == nibble(b, 17) && nibble(a, 18) == nibble(b, 18)
        && nibble(a, 19) == nibble(b, 19) && nibble(a, 20) == nibble(b, 20) && nibble(a, 21) == nibble(b, 21)
        && nibble(a, 22) == nibble(b, 22) && nibble(a, 23) == nibble(b, 23) && nibble(a, 24) == nibble(b, 24)
        && nibble(a, 25) == nibble(b, 25) && nibble(a, 26) == nibble(b, 26) && nibble(a, 27) == nibble(b, 27)
        && nibble(a, 28) == nibble(b, 28) && nibble(a, 29) == nibble(b, 29) && nibble(a, 30) == nibble(b, 30)
        && nibble(a, 31) == nibble(b, 31));
    assert(a == b) by (bit_vector)
        requires
            (a >> 124u128) & 0xf == (b >> 124u128) & 0xf,
            (a >> 120u128) & 0xf == (b >> 120u128) & 0xf,
            (a >> 116u128) & 0xf == (b >> 116u128) & 0xf,
            (a >> 112u128) & 0xf == (b >> 112u128) & 0xf,
            (a >> 108u128) & 0xf == (b >> 108u128) & 0xf,
            (a >> 104u128) & 0xf == (b >> 104u128) & 0xf,
            (a >> 100u128) & 0xf == (b >> 100u128) & 0xf,
            (a >> 96u128) & 0xf == (b >> 96u128) & 0xf,
            (a >> 92u128) & 0xf == (b >> 92u128) & 0xf,
            (a >> 88u128) & 0xf == (b >> 88u128) & 0xf,
            (a >> 84u128) & 0xf == (b >> 84u128) & 0xf,
            (a >> 80u128) & 0xf == (b >> 80u128) & 0xf,
            (a >> 76u128) & 0xf == (b >> 76u128) & 0xf,
            (a >> 72u128) & 0xf == (b >> 72u128) & 0xf,
            (a >> 68u128) & 0xf == (b >> 68u128) & 0xf,
            (a >> 64u128) & 0xf == (b >> 64u128) & 0xf,
            (a >> 60u128) & 0xf == (b >> 60u128) & 0xf,
            (a >> 56u128) & 0xf == (b >> 56u128) & 0xf,
            (a >> 52u128) & 0xf == (b >> 52u128) & 0xf,
            (a >> 48u128) & 0xf == (b >> 48u128) & 0xf,
            (a >> 44u128) & 0xf == (b >> 44u128) & 0xf,
            (a >> 40u128) & 0xf == (b >> 40u128) & 0xf,
            (a >> 36u128) & 0xf == (b >> 36u128) & 0xf,
            (a >> 32u128) & 0xf == (b >> 32u128) & 0xf,
            (a >> 28u128) & 0xf == (b >> 28u128) & 0xf,
            (a >> 24u128) & 0xf == (b >> 24u128) & 0xf,
            (a >> 20u128) & 0xf == (b >> 20u128) & 0xf,
            (a >> 16u128) & 0xf == (b >> 16u128) & 0xf,
            (a >> 12u128) & 0xf == (b >> 12u128) & 0xf,
            (a >> 8u128) & 0xf == (b >> 8u128) & 0xf,
            (a >> 4u128) & 0xf == (b >> 4u128) & 0xf,
            (a >> 0u128) & 0xf == (b >> 0u128) & 0xf,
    ;
}

/// Different UUIDs have different texts, with and without hyphens.
pub proof fn uuid_texts_are_distinct(a: u128, b: u128)
    requires
        simple(a) == simple(b) || hyphenated(a) == hyphenated(b),
    ensures
        a == b,
{
    let (x, y) = (hyphenated(a), hyphenated(b));
    assert forall|k: int| 0 <= k < 32 implies nibble(a, k) == nibble(b, k) by {
        lemma_nibble_bound(a, k);
        lemma_nibble_bound(b, k);
        let p = if k < 8 {
            k
        } else if k < 12 {
            k + 1
        } else if k < 16 {
            k + 2
        } else if k < 20 {
            k + 3
        } else {
            k + 4
        };
        assert(x[p] == simple(a)[k]);
        assert(y[p] == simple(b)[k]);
        assert(simple(a)[k] == simple(b)[k]);
    }
    lemma_nibbles_determine(a, b);
}

/// A text denotes at most one UUID.
pub proof fn uuid_of_text_is_unique(text: Seq<char>, a: u128, b: u128)
    requires
        denotes(text, a),
        denotes(text, b),
    ensures
        a == b,
{
    reveal_strlit("urn:uuid:");
    let (x, y) = (hyphenated(a), hyphenated(b));
    let t = text.map_values(|c: char| ascii_lower(c));
    if t.len() == 38 {
        assert(t.subrange(1, 37) =~= x);
        assert(t.subrange(1, 37) =~= y);
    } else if t.len() == 45 {
        assert(t.subrange(9, 45) =~= x);
        assert(t.subrange(9, 45) =~= y);
    }
    uuid_texts_are_distinct(a, b);
}

/// A UUID's hyphenated text denotes it.
pub proof fn hyphenated_text_denotes(id: u128)
    ensures
        denotes(hyphenated(id), id),
{
    let text = hyphenated(id);
    let t = text.map_values(|c: char| ascii_lower(c));
    assert forall|i: int| 0 <= i < text.len() implies t[i] == text[i] by {
        if i != 8 && i != 13 && i != 18 && i != 23 {
            let k = if i < 8 {
                i
            } else if i < 13 {
                i - 1
            } else if i < 18 {
                i - 2
            } else if i < 23 {
                i - 3
            } else {
                i - 4
            };
            lemma_nibble_bound(id, k);
            assert(text[i] == simple(id)[k]);
        }
    }
    assert(t =~= text);
}

/// The number that a hexadecimal digit in small letters stands for.
pub open spec fn digit_value(c: char) -> int {
    if c as int >= 97 {
        c as int - 87
    } else {
        c as int - 48
    }
}

/// The number that hexadecimal digits stand for, read from the left.
pub open spec fn digits_value(digits: Seq<char>) -> int
    decreases digits.len(),
{
    if digits.len() == 0 {
        0
    } else {
        16 * digits_value(digits.drop_last()) + digit_value(digits.last())
    }
}

proof fn lemma_digits_so_far(id: u128, k: int)
    requires
        1 <= k <= 32,
    ensures
        digits_value(simple(id).take(k)) == id >> ((4 * (32 - k)) as u128),
    decreases k,
{
    let digits = simple(id).take(k);
    lemma_nibble_bound(id, k - 1);
    assert(digits.drop_last() =~= simple(id).take(k - 1));
    assert(digits.last() == hex_digit(nibble(id, k - 1)));
    assert(digit_value(digits.last()) == nibble(id, k - 1));
    if k == 1 {
        assert(digits_value(digits.drop_last()) == 0);
        assert((id >> 124u128) & 0xf == id >> 124u128) by (bit_vector);
    } else {
        lemma_digits_so_far(id, k - 1);
        let s = (4 * (32 - k)) as u128;
        assert(s <= 120);
        assert((4 * (32 - (k - 1))) as u128 == s + 4);
        assert(id >> s == 16 * (id >> ((s + 4) as u128)) + ((id >> s) & 0xf)) by (bit_vector)
            requires
                s <= 120,
        ;
    }
}

/// The digits of a UUID's text are the number that it is: read as a hexadecimal number, they give
/// it back.
pub proof fn text_reads_as_the_number(id: u128)
    ensures
        simple(id).len() == 32,
        digits_value(simple(id)) == id,
{
    lemma_digits_so_far(id, 32);
    assert(simple(id).take(32) =~= simple(id));
    assert(id >> 0u128 == id) by (bit_vector);
}

/// The hyphenated text has 36 characters: hyphens in four fixed places, and otherwise the 32 digits,
/// each of them a decimal digit or a small letter up to `f`.
pub proof fn hyphenated_text_has_this_shape(id: u128)
    ensures
        hyphenated(id).len() == 36,
        hyphenated(id)[8] == '-' && hyphenated(id)[13] == '-' && hyphenated(id)[18] == '-'
            && hyphenated(id)[23] == '-',
        hyphenated(id).subrange(0, 8) + hyphenated(id).subrange(9, 13) + hyphenated(id).subrange(
            14,
            18,
        ) + hyphenated(id).subrange(19, 23) + hyphenated(id).subrange(24, 36) == simple(id),
        forall|k: int|
            #![trigger simple(id)[k]]
            0 <= k < 32 ==> '0' <= simple(id)[k] <= '9' || 'a' <= simple(id)[k] <= 'f',
{
    let t = hyphenated(id);
    assert(t.subrange(0, 8) + t.subrange(9, 13) + t.subrange(14, 18) + t.subrange(19, 23)
        + t.subrange(24, 36) =~= simple(id));
    assert forall|k: int| #![trigger simple(id)[k]] 0 <= k < 32 implies '0' <= simple(id)[k] <= '9'
        || 'a' <= simple(id)[k] <= 'f' by {
        lemma_nibble_bound(id, k);
    }
}

/// Each way to write a UUID denotes it, and capitals make no difference: two texts that differ in
/// nothing but ASCII letters being capital or small denote the same.
pub proof fn every_form_denotes(id: u128, text: Seq<char>, other: Seq<char>)
    requires
        text.len() == other.len(),
        forall|i: int|
            #![trigger text[i]]
            0 <= i < text.len() ==> text[i] == other[i] || ('A' <= text[i] <= 'Z' && other[i] as int
                == text[i] as int + 32),
    ensures
        denotes(simple(id), id),
        denotes(hyphenated(id), id),
        denotes(seq!['{'] + hyphenated(id) + seq!['}'], id),
        denotes("urn:uuid:"@ + hyphenated(id), id),
        denotes(text, id) <==> denotes(other, id),
{
    reveal_strlit("urn:uuid:");
    let lower = |c: char| ascii_lower(c);
    let (s, h) = (simple(id), hyphenated(id));
    hyphenated_text_has_this_shape(id);
    assert forall|i: int| 0 <= i < 32 implies ascii_lower(#[trigger] s[i]) == s[i] by {
        lemma_nibble_bound(id, i);
    }
    assert(s.map_values(lower) =~= s);
    assert forall|i: int| 0 <= i < 36 implies ascii_lower(#[trigger] h[i]) == h[i] by {
        if i != 8 && i != 13 && i != 18 && i != 23 {
            let k = if i < 8 {
                i
            } else if i < 13 {
                i - 1
            } else if i < 18 {
                i - 2
            } else if i < 23 {
                i - 3
            } else {
                i - 4
            };
            assert(h[i] == s[k]);
        }
    }
    assert(h.map_values(lower) =~= h);
    let braced = seq!['{'] + h + seq!['}'];
    assert(braced.map_values(lower) =~= braced);
    let urn = "urn:uuid:"@ + h;
    assert(urn.map_values(lower) =~= urn);
    assert forall|i: int| 0 <= i < text.len() implies #[trigger] text.map_values(lower)[i]
        == other.map_values(lower)[i] by {
        assert(text[i] == text[i]);
    }
    assert(text.map_values(lower) =~= other.map_values(lower));
}

/// Only a text of one of the four forms denotes a UUID, and the digits in it are those of the UUID.
pub proof fn denoting_text_holds_the_digits(text: Seq<char>, id: u128)
    requires
        denotes(text, id),
    ensures
        text.len() == 32 || text.len() == 36 || text.len() == 38 || text.len() == 45,
        ({
            let start = if text.len() == 38 {
                1int
            } else if text.len() == 45 {
                9int
            } else {
                0int
            };
            let digits = if text.len() == 32 {
                text
            } else {
                text.subrange(start, start + 8) + text.subrange(start + 9, start + 13)
                    + text.subrange(start + 14, start + 18) + text.subrange(start + 19, start + 23)
                    + text.subrange(start + 24, start + 36)
            };
            digits.map_values(|c: char| ascii_lower(c)) == simple(id)
        }),
{
    reveal_strlit("urn:uuid:");
    let lower = |c: char| ascii_lower(c);
    let t = text.map_values(lower);
    let h = hyphenated(id);
    hyphenated_text_has_this_shape(id);
    assert(t.len() == text.len());
    if text.len() != 32 {
        let start = if text.len() == 38 {
            1int
        } else if text.len() == 45 {
            9int
        } else {
            0int
        };
        assert(t.subrange(start, start + 36) =~= h);
        let digits = text.subrange(start, start + 8) + text.subrange(start + 9, start + 13)
            + text.subrange(start + 14, start + 18) + text.subrange(start + 19, start + 23)
            + text.subrange(start + 24, start + 36);
        let same = h.subrange(0, 8) + h.subrange(9, 13) + h.subrange(14, 18) + h.subrange(19, 23)
            + h.subrange(24, 36);
        assert(digits.map_values(lower) =~= same) by {
            assert forall|i: int| 0 <= i < 32 implies #[trigger] digits.map_values(lower)[i]
                == same[i] by {
                let p = if i < 8 {
                    i
                } else if i < 12 {
                    i + 1
                } else if i < 16 {
                    i + 2
                } else if i < 20 {
                    i + 3
                } else {
                    i + 4
                };
                assert(digits[i] == text[start + p]);
                assert(t[start + p] == t.subrange(start, start + 36)[p]);
                assert(same[i] == h[p]);
            }
        }
    } else {
        assert(t == simple(id));
    }
}

} // verus!
