use vstd::prelude::*;

use crate::error::{DataverseError, NO_IDENTIFIER_MESSAGE};

verus! {

/// A 128-bit record identifier, held as its numeric value (most significant
/// hex digit of the canonical form first).
#[derive(Debug, Clone, Copy, PartialEq, Eq, Hash)]
pub struct EntityId {
    pub value: u128,
}

impl EntityId {
    pub fn from_u128(value: u128) -> (r: EntityId)
        ensures
            r.value == value,
    {
        EntityId { value }
    }

    pub fn as_u128(&self) -> (r: u128)
        ensures
            r == self.value,
    {
        self.value
    }
}

pub open spec fn is_hex_digit(c: char) -> bool {
    ('0' <= c && c <= '9') || ('a' <= c && c <= 'f') || ('A' <= c && c <= 'F')
}

pub open spec fn hex_digit_value(c: char) -> nat {
    if '0' <= c && c <= '9' {
        (c as nat - '0' as nat) as nat
    } else if 'a' <= c && c <= 'f' {
        (c as nat - 'a' as nat + 10) as nat
    } else {
        (c as nat - 'A' as nat + 10) as nat
    }
}

/// The value that a sequence of hex digits spells, most significant first.
pub open spec fn hex_value(d: Seq<char>) -> nat
    decreases d.len(),
{
    if d.len() == 0 {
        0
    } else {
        hex_value(d.drop_last()) * 16 + hex_digit_value(d.last())
    }
}

/// Positions of the four hyphens in the 8-4-4-4-12 form.
pub open spec fn is_hyphen_pos(i: int) -> bool {
    i == 8 || i == 13 || i == 18 || i == 23
}

pub open spec fn canonical_char_ok(s: Seq<char>, i: int) -> bool {
    if is_hyphen_pos(i) {
        s[i] == '-'
    } else {
        is_hex_digit(s[i])
    }
}

/// `s` is exactly a hyphenated identifier: 36 characters, hyphens at 8, 13,
/// 18 and 23, hex digits of either case elsewhere.
pub open spec fn is_canonical_uuid(s: Seq<char>) -> bool {
    s.len() == 36 && forall|i: int| 0 <= i < 36 ==> #[trigger] canonical_char_ok(s, i)
}

/// The 32 hex digits of a hyphenated identifier, hyphens removed.
pub open spec fn uuid_digits(s: Seq<char>) -> Seq<char> {
    s.subrange(0, 8) + s.subrange(9, 13) + s.subrange(14, 18) + s.subrange(19, 23) + s.subrange(
        24,
        36,
    )
}

pub open spec fn uuid_value(s: Seq<char>) -> nat {
    hex_value(uuid_digits(s))
}

pub open spec fn nibble_char(n: nat) -> char {
    seq!['0', '1', '2', '3', '4', '5', '6', '7', '8', '9', 'a', 'b', 'c', 'd', 'e', 'f'][n as int]
}

/// The lowest `n` hex digits of `v`, lower case, most significant first.
pub open spec fn lower_hex(v: nat, n: nat) -> Seq<char>
    decreases n,
{
    if n == 0 {
        Seq::empty()
    } else {
        lower_hex(v / 16, (n - 1) as nat).push(nibble_char(v % 16))
    }
}

/// The canonical lower-case hyphenated text of an identifier value.
pub open spec fn hyphenated_form(v: u128) -> Seq<char> {
    let d = lower_hex(v as nat, 32);
    d.subrange(0, 8) + seq!['-'] + d.subrange(8, 12) + seq!['-'] + d.subrange(12, 16) + seq!['-']
        + d.subrange(16, 20) + seq!['-'] + d.subrange(20, 32)
}

/// A hyphenated identifier starts at position `i` of `s`.
pub open spec fn uuid_at(s: Seq<char>, i: int) -> bool {
    0 <= i && i + 36 <= s.len() && is_canonical_uuid(s.subrange(i, i + 36))
}

pub open spec fn has_uuid(s: Seq<char>) -> bool {
    exists|i: int| #[trigger] uuid_at(s, i)
}

/// `i` is the leftmost position at which a hyphenated identifier starts.
pub open spec fn first_uuid_at(s: Seq<char>, i: int) -> bool {
    uuid_at(s, i) && forall|j: int| 0 <= j < i ==> !#[trigger] uuid_at(s, j)
}

pub open spec fn first_uuid_index(s: Seq<char>) -> int {
    choose|i: int| first_uuid_at(s, i)
}

/// The value of the leftmost hyphenated identifier embedded in `s`.
pub open spec fn embedded_uuid_value(s: Seq<char>) -> nat {
    let i = first_uuid_index(s);
    uuid_value(s.subrange(i, i + 36))
}

/// Relies on uuid's `Hyphenated` display (`Uuid::from_u128(..).as_hyphenated()`):
/// the 32 lower-case hex digits of the value, most significant first, grouped
/// 8-4-4-4-12 by hyphens.
#[verifier::external_body]
fn hyphenated(id: EntityId) -> (r: String)
    ensures
        r@ == hyphenated_form(id.value),
{
    uuid::Uuid::from_u128(id.value).as_hyphenated().to_string()
}

/// Relies on `uuid::Uuid::parse_str` (with `Uuid::as_u128`): a 36-character
/// hyphenated form of hex digits, of either case, parses to the value that the
/// digits spell, most significant first.
#[verifier::external_body]
fn parse_hyphenated(s: &str) -> (r: Option<u128>)
    ensures
        is_canonical_uuid(s@) ==> r.is_some(),
        is_canonical_uuid(s@) ==> r.unwrap() as nat == uuid_value(s@),
{
    match uuid::Uuid::parse_str(s) {
        Ok(u) => Some(u.as_u128()),
        Err(_) => None,
    }
}

impl EntityId {
    /// The canonical hyphenated text of this identifier.
    pub fn to_hyphenated(&self) -> (r: String)
        ensures
            r@ == hyphenated_form(self.value),
    {
        hyphenated(*self)
    }
}

fn is_hex_char(c: char) -> (r: bool)
    ensures
        r == is_hex_digit(c),
{
    ('0' <= c && c <= '9') || ('a' <= c && c <= 'f') || ('A' <= c && c <= 'F')
}

fn window_is_uuid(cs: &Vec<char>, start: usize) -> (r: bool)
    requires
        start + 36 <= cs@.len(),
    ensures
        r == is_canonical_uuid(cs@.subrange(start as int, start + 36)),
{
    let ghost w = cs@.subrange(start as int, start + 36);
    let len = cs.len();
    let mut k: usize = 0;
    while k < 36
        invariant
            start + 36 <= cs@.len(),
            len == cs@.len(),
            w == cs@.subrange(start as int, start + 36),
            k <= 36,
            forall|m: int| 0 <= m < k ==> #[trigger] canonical_char_ok(w, m),
        decreases 36 - k,
    {
        let c = cs[start + k];
        let ok = if k == 8 || k == 13 || k == 18 || k == 23 {
            c == '-'
        } else {
            is_hex_char(c)
        };
        if !ok {
            assert(!canonical_char_ok(w, k as int));
            return false;
        }
        k += 1;
    }
    true
}

/// Position of the leftmost hyphenated identifier embedded in `text`.
pub fn find_uuid(text: &str) -> (r: Option<usize>)
    ensures
        match r {
            Some(i) => first_uuid_at(text@, i as int),
            None => !has_uuid(text@),
        },
{
    let n = text.unicode_len();
    let mut cs: Vec<char> = Vec::new();
    let mut k: usize = 0;
    while k < n
        invariant
            n == text@.len(),
            k <= n,
            cs@ == text@.subrange(0, k as int),
        decreases n - k,
    {
        cs.push(text.get_char(k));
        k += 1;
    }
    assert(cs@ =~= text@);
    if n < 36 {
        assert forall|j: int| !#[trigger] uuid_at(text@, j) by {}
        return None;
    }
    let mut i: usize = 0;
    while i <= n - 36
        invariant
            cs@ == text@,
            n == text@.len(),
            n >= 36,
            i <= n - 35,
            forall|j: int| 0 <= j < i ==> !#[trigger] uuid_at(text@, j),
        decreases n - i,
    {
        if window_is_uuid(&cs, i) {
            return Some(i);
        }
        i += 1;
    }
    assert forall|j: int| !#[trigger] uuid_at(text@, j) by {
        if 0 <= j < i {
        }
    }
    None
}

/// A hyphenated identifier written after a prefix that holds no hyphen, and
/// followed by any text, is the one that extraction finds.
pub proof fn lemma_identifier_after_plain_prefix(p: Seq<char>, u: Seq<char>, q: Seq<char>)
    requires
        is_canonical_uuid(u),
        forall|i: int| 0 <= i < p.len() ==> p[i] != '-',
    ensures
        has_uuid(p + u + q),
        embedded_uuid_value(p + u + q) == uuid_value(u),
{
    let s = p + u + q;
    let n = p.len() as int;
    assert(s.subrange(n, n + 36) =~= u);
    assert(uuid_at(s, n));
    assert forall|j: int| 0 <= j < n implies !#[trigger] uuid_at(s, j) by {
        if uuid_at(s, j) {
            let w = s.subrange(j, j + 36);
            let k = n - j;
            assert(canonical_char_ok(w, 8));
            if k > 8 {
                assert(w[8] == p[j + 8]);
            } else {
                assert(canonical_char_ok(u, 8));
                assert(canonical_char_ok(w, 8 + k));
                assert(w[8 + k] == u[8]);
                if k == 5 {
                    assert(canonical_char_ok(u, 23));
                    assert(canonical_char_ok(w, 28));
                    assert(w[28] == u[23]);
                }
            }
        }
    }
    assert(first_uuid_at(s, n));
    let c = first_uuid_index(s);
    assert(c == n) by {
        if c < n {
            assert(!uuid_at(s, c));
        }
        if n < c {
            assert(!uuid_at(s, n));
        }
    }
}

fn no_identifier() -> (e: DataverseError)
    ensures
        e matches DataverseError::ProtocolViolation { message } && message@ == NO_IDENTIFIER_MESSAGE@,
{
    DataverseError::ProtocolViolation { message: String::from_str(NO_IDENTIFIER_MESSAGE) }
}

/// Reads the identifier of a freshly created record out of the confirmation
/// header: the leftmost hyphenated identifier embedded in its text.
pub fn extract_identifier(header: Option<&str>) -> (r: Result<EntityId, DataverseError>)
    ensures
        match header {
            Some(h) if has_uuid(h@) => r matches Ok(id) && id.value as nat == embedded_uuid_value(h@),
            _ => r matches Err(DataverseError::ProtocolViolation { message })
                && message@ == NO_IDENTIFIER_MESSAGE@,
        },
{
    match header {
        None => Err(no_identifier()),
        Some(h) => match find_uuid(h) {
            None => Err(no_identifier()),
            Some(i) => {
                proof {
                    let c = first_uuid_index(h@);
                    assert(first_uuid_at(h@, c));
                    assert(c == i as int) by {
                        if c < i {
                            assert(!uuid_at(h@, c));
                        }
                        if (i as int) < c {
                            assert(!uuid_at(h@, i as int));
                        }
                    }
                }
                // the character count bounds the window's end
                let text_len = h.unicode_len();
                proof {
                    assert(i + 36 <= text_len);
                }
                let w = h.substring_char(i, i + 36);
                match parse_hyphenated(w) {
                    Some(v) => Ok(EntityId { value: v }),
                    None => Err(no_identifier()),
                }
            },
        },
    }
}

} // verus!
