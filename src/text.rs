//! Canonical textual encoding of identifiers and the validator of that form.
use vstd::prelude::*;

use crate::layout::{Layout, Node, UUID};

verus! {

/// The letter case of the hex digits a rendering uses.
#[derive(Debug, Clone, Copy, PartialEq, Eq, Structural)]
pub enum Case {
    Lower,
    Upper,
}

/// The hex digit of a value below 16.
pub open spec fn hex_digit(n: int, upper: bool) -> char {
    if n < 10 {
        (48 + n) as char
    } else if upper {
        (55 + n) as char
    } else {
        (87 + n) as char
    }
}

/// An ASCII hex digit of either case.
pub open spec fn is_hex_char(c: char) -> bool {
    ('0' <= c && c <= '9') || ('a' <= c && c <= 'f') || ('A' <= c && c <= 'F')
}

/// The positions of the four hyphens of the 8-4-4-4-12 grouping.
pub open spec fn is_hyphen_pos(i: int) -> bool {
    i == 8 || i == 13 || i == 18 || i == 23
}

/// The index, among the 32 hex digits, of the digit at text position `i`.
pub open spec fn digit_index(i: int) -> int {
    if i < 8 {
        i
    } else if i < 13 {
        i - 1
    } else if i < 18 {
        i - 2
    } else if i < 23 {
        i - 3
    } else {
        i - 4
    }
}

/// The `k`-th nibble of a byte sequence, high nibble of each byte first.
pub open spec fn nibble_at(b: Seq<u8>, k: int) -> int {
    if k % 2 == 0 {
        b[k / 2] as int / 16
    } else {
        b[k / 2] as int % 16
    }
}

/// The character at position `i` of the hyphenated form of 16 bytes.
pub open spec fn uuid_char(b: Seq<u8>, i: int, upper: bool) -> char {
    if is_hyphen_pos(i) {
        '-'
    } else {
        hex_digit(nibble_at(b, digit_index(i)), upper)
    }
}

/// `xxxxxxxx-xxxx-xxxx-xxxx-xxxxxxxxxxxx`: the 16 bytes as 32 hex digits in
/// groups of 8, 4, 4, 4 and 12, without any prefix.
pub open spec fn uuid_text(b: Seq<u8>, upper: bool) -> Seq<char> {
    Seq::new(36, |i: int| uuid_char(b, i, upper))
}

/// The character at position `i` of the form `xx-xx-xx-xx-xx-xx` of 6 bytes.
pub open spec fn node_char(b: Seq<u8>, i: int, upper: bool) -> char {
    if i % 3 == 2 {
        '-'
    } else {
        hex_digit(nibble_at(b, 2 * (i / 3) + i % 3), upper)
    }
}

/// The six bytes as two hex digits each, separated by hyphens.
pub open spec fn node_text(b: Seq<u8>, upper: bool) -> Seq<char> {
    Seq::new(17, |i: int| node_char(b, i, upper))
}

/// The 8-4-4-4-12 hex grouping, in either case, with the version digit (the
/// first of the third group) from `0` to `5`. The nil identifier, version
/// digit `0`, is accepted on purpose.
pub open spec fn is_canonical(t: Seq<char>) -> bool {
    &&& t.len() == 36
    &&& forall|i: int|
        0 <= i < 36 ==> if is_hyphen_pos(i) {
            #[trigger] t[i] == '-'
        } else {
            is_hex_char(t[i])
        }
    &&& '0' <= t[14] && t[14] <= '5'
}

/// `urn:uuid:` in lower case.
pub open spec fn urn_lower() -> Seq<char> {
    seq!['u', 'r', 'n', ':', 'u', 'u', 'i', 'd', ':']
}

/// `URN:UUID:` in upper case.
pub open spec fn urn_upper() -> Seq<char> {
    seq!['U', 'R', 'N', ':', 'U', 'U', 'I', 'D', ':']
}

/// Starts with `urn:uuid:` in any mix of cases.
pub open spec fn has_urn_prefix(t: Seq<char>) -> bool {
    &&& t.len() >= 9
    &&& forall|i: int| 0 <= i < 9 ==> #[trigger] t[i] == urn_lower()[i] || t[i] == urn_upper()[i]
}

/// The accepted text: the canonical form, alone or after a `urn:uuid:` prefix.
pub open spec fn is_valid_text(t: Seq<char>) -> bool {
    is_canonical(t) || (has_urn_prefix(t) && is_canonical(t.subrange(9, t.len() as int)))
}

/// Relies on `String::push`: it appends one character at the end.
#[verifier::external_body]
fn push_char(s: &mut String, c: char)
    ensures
        final(s)@ == old(s)@.push(c),
{
    s.push(c);
}

fn hex_digit_char(n: u8, upper: bool) -> (r: char)
    requires
        n < 16,
    ensures
        r == hex_digit(n as int, upper),
{
    if n < 10 {
        (48 + n) as char
    } else if upper {
        (55 + n) as char
    } else {
        (87 + n) as char
    }
}

fn is_hex_byte(c: u8) -> (r: bool)
    ensures
        r == ((48 <= c && c <= 57) || (97 <= c && c <= 102) || (65 <= c && c <= 70)),
{
    (48 <= c && c <= 57) || (97 <= c && c <= 102) || (65 <= c && c <= 70)
}

impl UUID {
    /// The hyphenated 8-4-4-4-12 hex form of the 16 bytes, in the given case.
    pub fn format_hex(&self, case: Case) -> (r: String)
        ensures
            r@ == uuid_text(self.0@, case == Case::Upper),
    {
        let upper = case == Case::Upper;
        let mut s = String::new();
        let mut i: usize = 0;
        while i < 36
            invariant
                i <= 36,
                s@ =~= uuid_text(self.0@, upper).take(i as int),
            decreases 36 - i,
        {
            if i == 8 || i == 13 || i == 18 || i == 23 {
                push_char(&mut s, '-');
            } else {
                let k: usize = if i < 8 {
                    i
                } else if i < 13 {
                    i - 1
                } else if i < 18 {
                    i - 2
                } else if i < 23 {
                    i - 3
                } else {
                    i - 4
                };
                let byte = self.0[k / 2];
                let n = if k % 2 == 0 {
                    byte / 16
                } else {
                    byte % 16
                };
                push_char(&mut s, hex_digit_char(n, upper));
            }
            i = i + 1;
        }
        s
    }

    /// The lower-case hyphenated form, as `format_hex(Case::Lower)`.
    pub fn to_string(&self) -> (r: String)
        ensures
            r@ == uuid_text(self.0@, false),
    {
        self.format_hex(Case::Lower)
    }

    /// Checks `s` against the canonical grammar: an optional `urn:uuid:`
    /// prefix in any case, then 8-4-4-4-12 hex digits of either case with the
    /// version digit from `0` to `5`, and nothing after. Never panics.
    pub fn is_valid(s: &str) -> (r: bool)
        ensures
            r == is_valid_text(s@),
    {
        if !s.is_ascii() {
            proof {
                lemma_valid_is_ascii(s@);
            }
            return false;
        }
        let b = s.as_bytes();
        proof {
            vstd::string::is_ascii_spec_bytes(s);
            vstd::utf8::is_ascii_chars_nat_bound(s@);
        }
        let n = b.len();
        assert(ascii_bytes_of(s@, b@)) by {
            assert forall|i: int| 0 <= i < s@.len() implies (#[trigger] s@[i] as nat) < 128
                && s@[i] as nat == b@[i] as nat by {
                assert(s@[i] as u8 == b@[i]);
            }
        }
        if n == 36 {
            let r = canonical_from(b, 0, Ghost(s@));
            proof {
                assert(s@.subrange(0, 36) =~= s@);
                assert(!has_urn_prefix(s@) || !is_canonical(s@.subrange(9, 36)));
            }
            r
        } else if n == 45 {
            let p = urn_prefix_at(b, Ghost(s@));
            if p {
                canonical_from(b, 9, Ghost(s@))
            } else {
                false
            }
        } else {
            false
        }
    }
}

impl Node {
    /// The six bytes as hex digits in the given case, separated by hyphens:
    /// `xx-xx-xx-xx-xx-xx`.
    pub fn format_hex(&self, case: Case) -> (r: String)
        ensures
            r@ == node_text(self.0@, case == Case::Upper),
    {
        let upper = case == Case::Upper;
        let mut s = String::new();
        let mut i: usize = 0;
        while i < 17
            invariant
                i <= 17,
                s@ =~= node_text(self.0@, upper).take(i as int),
            decreases 17 - i,
        {
            if i % 3 == 2 {
                push_char(&mut s, '-');
            } else {
                let byte = self.0[i / 3];
                let n = if i % 3 == 0 {
                    byte / 16
                } else {
                    byte % 16
                };
                push_char(&mut s, hex_digit_char(n, upper));
            }
            i = i + 1;
        }
        s
    }

    /// The lower-case hyphenated form, as `format_hex(Case::Lower)`.
    pub fn to_string(&self) -> (r: String)
        ensures
            r@ == node_text(self.0@, false),
    {
        self.format_hex(Case::Lower)
    }
}

impl Layout {
    /// The canonical text of the identifier: its 16 big-endian bytes as
    /// `xxxxxxxx-xxxx-xxxx-xxxx-xxxxxxxxxxxx` in the given case, never with
    /// the `urn:uuid:` prefix.
    pub fn render(&self, case: Case) -> (r: String)
        ensures
            r@ == uuid_text(self.spec_be_bytes(), case == Case::Upper),
    {
        self.be_bytes().format_hex(case)
    }
}

proof fn lemma_hex_digit_valid(n: int, upper: bool)
    requires
        0 <= n < 16,
    ensures
        is_hex_char(hex_digit(n, upper)),
        n <= 5 ==> '0' <= hex_digit(n, upper) && hex_digit(n, upper) <= '5',
{
    lemma_hex_char(hex_digit(n, upper));
}

/// The rendering of any identifier whose version nibble names a version, as
/// every generator sets it, passes the validator, in lower and in upper case.
pub proof fn lemma_render_is_valid(l: Layout, upper: bool)
    requires
        l.spec_version() is Some,
    ensures
        is_valid_text(uuid_text(l.spec_be_bytes(), upper)),
{
    let b = l.spec_be_bytes();
    let t = uuid_text(b, upper);
    assert forall|i: int| 0 <= i < 36 implies if is_hyphen_pos(i) {
        #[trigger] t[i] == '-'
    } else {
        is_hex_char(t[i])
    } by {
        if !is_hyphen_pos(i) {
            let k = digit_index(i);
            assert(0 <= k / 2 < 16);
            lemma_hex_digit_valid(nibble_at(b, k), upper);
        }
    }
    assert(nibble_at(b, 12) == l.version_nibble());
    lemma_hex_digit_valid(nibble_at(b, 12), upper);
}

proof fn lemma_valid_is_ascii(t: Seq<char>)
    ensures
        is_valid_text(t) ==> vstd::utf8::is_ascii_chars(t),
{
    if is_canonical(t) {
        assert forall|i: int| 0 <= i < t.len() implies '\0' <= #[trigger] t[i] <= '\u{7f}' by {
            lemma_hex_char(t[i]);
        }
    }
    if has_urn_prefix(t) && is_canonical(t.subrange(9, t.len() as int)) {
        let u = t.subrange(9, t.len() as int);
        assert forall|i: int| 0 <= i < t.len() implies '\0' <= #[trigger] t[i] <= '\u{7f}' by {
            if i < 9 {
            } else {
                assert(t[i] == u[i - 9]);
            }
        }
    }
}

proof fn lemma_char_eq(a: char, b: char)
    requires
        a as nat == b as nat,
    ensures
        a == b,
{
}

proof fn lemma_hex_char(c: char)
    ensures
        is_hex_char(c) == ((48 <= c as nat <= 57) || (97 <= c as nat <= 102) || (65 <= c as nat
            <= 70)),
        ('0' <= c && c <= '5') == (48 <= c as nat <= 53),
{
}

/// The characters of an ASCII text and its bytes agree, one for one.
pub open spec fn ascii_bytes_of(t: Seq<char>, b: Seq<u8>) -> bool {
    &&& t.len() == b.len()
    &&& forall|i: int| 0 <= i < t.len() ==> (#[trigger] t[i] as nat) < 128 && t[i] as nat == b[i] as nat
}

/// Whether the 36 bytes from `start` on are the canonical form.
fn canonical_from(b: &[u8], start: usize, Ghost(t): Ghost<Seq<char>>) -> (r: bool)
    requires
        start + 36 == b@.len(),
        b@.len() <= usize::MAX,
        ascii_bytes_of(t, b@),
    ensures
        r == is_canonical(t.subrange(start as int, t.len() as int)),
{
    let ghost u = t.subrange(start as int, t.len() as int);
    let mut i: usize = 0;
    while i < 36
        invariant
            i <= 36,
            start + 36 == b@.len(),
            b@.len() <= usize::MAX,
            ascii_bytes_of(t, b@),
            u == t.subrange(start as int, t.len() as int),
            forall|j: int|
                0 <= j < i ==> if is_hyphen_pos(j) {
                    #[trigger] u[j] == '-'
                } else {
                    is_hex_char(u[j])
                },
            i > 14 ==> '0' <= u[14] && u[14] <= '5',
        decreases 36 - i,
    {
        let c = b[start + i];
        assert(u[i as int] == t[start + i]);
        assert(u[i as int] as nat == c as nat);
        proof {
            lemma_hex_char(u[i as int]);
        }
        if i == 8 || i == 13 || i == 18 || i == 23 {
            if c != 45 {
                assert(u[i as int] != '-');
                return false;
            }
            proof {
                lemma_char_eq(u[i as int], '-');
            }
        } else if !is_hex_byte(c) {
            assert(!is_hex_char(u[i as int]));
            return false;
        }
        if i == 14 && !(48 <= c && c <= 53) {
            return false;
        }
        i = i + 1;
    }
    true
}

/// Whether the first nine characters are `urn:uuid:` in any mix of cases.
fn urn_prefix_at(b: &[u8], Ghost(t): Ghost<Seq<char>>) -> (r: bool)
    requires
        b@.len() >= 9,
        ascii_bytes_of(t, b@),
    ensures
        r == has_urn_prefix(t),
{
    let lower: [u8; 9] = [117, 114, 110, 58, 117, 117, 105, 100, 58];
    let upper: [u8; 9] = [85, 82, 78, 58, 85, 85, 73, 68, 58];
    proof {
        assert(lower@ =~= seq![117u8, 114, 110, 58, 117, 117, 105, 100, 58]);
        assert(upper@ =~= seq![85u8, 82, 78, 58, 85, 85, 73, 68, 58]);
    }
    let mut i: usize = 0;
    while i < 9
        invariant
            i <= 9,
            b@.len() >= 9,
            ascii_bytes_of(t, b@),
            lower@ == seq![117u8, 114, 110, 58, 117, 117, 105, 100, 58],
            upper@ == seq![85u8, 82, 78, 58, 85, 85, 73, 68, 58],
            forall|j: int| 0 <= j < i ==> #[trigger] t[j] == urn_lower()[j] || t[j] == urn_upper()[j],
        decreases 9 - i,
    {
        assert(t[i as int] as nat == b[i as int] as nat);
        if b[i] != lower[i] && b[i] != upper[i] {
            return false;
        }
        proof {
            if b[i as int] == lower[i as int] {
                lemma_char_eq(t[i as int], urn_lower()[i as int]);
            } else {
                lemma_char_eq(t[i as int], urn_upper()[i as int]);
            }
        }
        i = i + 1;
    }
    true
}

} // verus!
