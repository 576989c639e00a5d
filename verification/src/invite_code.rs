//! Invite-code generation and normalization.
//!
//! Invite codes are short user-facing identifiers. The registry stores the
//! normalized form so pasted codes with hyphens, spaces or lowercase letters
//! are accepted.

use vstd::prelude::*;
use vstd::string::StrSliceExecFns;
use crate::errors::RoomError;
use crate::ids::random_v4_uuid_bits;
use crate::text::{be_bytes_u128, string_from_chars, u128_to_be_bytes};

verus! {

/// Number of characters in a normalized invite code.
pub const INVITE_CODE_LEN: usize = 6;

/// The 32 characters an invite code is made of (no 0, 1, I or O).
pub open spec fn invite_alphabet() -> Seq<char> {
    seq!['2', '3', '4', '5', '6', '7', '8', '9', 'A', 'B', 'C', 'D', 'E', 'F', 'G', 'H',
         'J', 'K', 'L', 'M', 'N', 'P', 'Q', 'R', 'S', 'T', 'U', 'V', 'W', 'X', 'Y', 'Z']
}

/// A character that may appear in a normalized invite code.
pub open spec fn is_invite_char(c: char) -> bool {
    invite_alphabet().contains(c)
}

/// ASCII whitespace as `char::is_ascii_whitespace` defines it.
pub open spec fn is_ascii_whitespace(c: char) -> bool {
    c == ' ' || c == '\t' || c == '\n' || c == '\x0C' || c == '\r'
}

/// Characters dropped while normalizing: ASCII whitespace and hyphens.
pub open spec fn is_code_separator(c: char) -> bool {
    is_ascii_whitespace(c) || c == '-'
}

/// ASCII uppercase as `char::to_ascii_uppercase` defines it.
pub open spec fn ascii_upper(c: char) -> char {
    if 'a' <= c && c <= 'z' { ((c as u32) - 32) as char } else { c }
}

/// The input with separators removed and ASCII letters uppercased.
pub open spec fn normalize_code(s: Seq<char>) -> Seq<char>
    decreases s.len(),
{
    if s.len() == 0 {
        Seq::empty()
    } else if is_code_separator(s.last()) {
        normalize_code(s.drop_last())
    } else {
        normalize_code(s.drop_last()).push(ascii_upper(s.last()))
    }
}

/// A normalized invite code: six alphabet characters.
pub open spec fn is_valid_code(s: Seq<char>) -> bool {
    s.len() == INVITE_CODE_LEN && forall|i: int| 0 <= i < s.len() ==> is_invite_char(#[trigger] s[i])
}

/// The user-facing form: four characters, a hyphen, then the rest.
pub open spec fn display_code(s: Seq<char>) -> Seq<char> {
    s.subrange(0, 4).push('-') + s.subrange(4, s.len() as int)
}

/// Normalized invite code for a room.
#[derive(Debug, PartialEq, Eq, Hash)]
pub struct InviteCode {
    code: String,
}

impl View for InviteCode {
    type V = Seq<char>;

    closed spec fn view(&self) -> Seq<char> {
        self.code@
    }
}

impl Clone for InviteCode {
    fn clone(&self) -> (c: Self)
        ensures
            c@ == self@,
    {
        proof {
            use_type_invariant(self);
        }
        InviteCode { code: self.code.clone() }
    }
}

impl InviteCode {
    #[verifier::type_invariant]
    closed spec fn wf(self) -> bool {
        is_valid_code(self.code@)
    }

    /// Parses a user-entered invite code into its canonical uppercase form.
    pub fn parse(value: &str) -> (r: Result<Self, RoomError>)
        ensures
            is_valid_code(normalize_code(value@)) ==> (r matches Ok(code) && code@ == normalize_code(value@)),
            !is_valid_code(normalize_code(value@)) ==> r == Err::<Self, RoomError>(RoomError::InvalidInviteCode),
    {
        let n = value.unicode_len();
        let mut normalized: Vec<char> = Vec::new();
        let mut i: usize = 0;
        while i < n
            invariant
                n == value@.len(),
                i <= n,
                normalized@ == normalize_code(value@.subrange(0, i as int)),
            decreases n - i,
        {
            let c = value.get_char(i);
            proof {
                let next = value@.subrange(0, i + 1);
                assert(next.drop_last() == value@.subrange(0, i as int));
                assert(next.last() == c);
            }
            let separator = c == ' ' || c == '\t' || c == '\n' || c == '\x0C' || c == '\r' || c == '-';
            if !separator {
                let upper = if 'a' <= c && c <= 'z' { ((c as u8) - 32) as char } else { c };
                proof {
                    if 'a' <= c && c <= 'z' {
                        assert(((c as u8) - 32) as char == (((c as u32) - 32) as char));
                    }
                }
                normalized.push(upper);
            }
            i = i + 1;
        }
        assert(value@.subrange(0, n as int) == value@);
        if normalized.len() != INVITE_CODE_LEN {
            return Err(RoomError::InvalidInviteCode);
        }
        let mut j: usize = 0;
        while j < normalized.len()
            invariant
                normalized@ == normalize_code(value@),
                j <= normalized@.len(),
                forall|k: int| 0 <= k < j ==> is_invite_char(#[trigger] normalized@[k]),
            decreases normalized@.len() - j,
        {
            if !invite_char(normalized[j]) {
                return Err(RoomError::InvalidInviteCode);
            }
            j = j + 1;
        }
        let code = string_from_chars(normalized);
        Ok(InviteCode { code })
    }

    /// Returns the registry key form with no separators.
    pub fn normalized(&self) -> (s: &str)
        ensures
            s@ == self@,
    {
        self.code.as_str()
    }

    /// Returns the user-facing form with a hyphen.
    pub fn display(&self) -> (s: String)
        ensures
            s@ == display_code(self@),
    {
        proof {
            use_type_invariant(self);
        }
        let code = self.code.as_str();
        let mut out: Vec<char> = Vec::new();
        let mut i: usize = 0;
        while i < INVITE_CODE_LEN
            invariant
                code@ == self@,
                self@.len() == INVITE_CODE_LEN,
                i <= INVITE_CODE_LEN,
                out@ == (if i <= 4 {
                    self@.subrange(0, i as int)
                } else {
                    self@.subrange(0, 4).push('-') + self@.subrange(4, i as int)
                }),
            decreases INVITE_CODE_LEN - i,
        {
            if i == 4 {
                out.push('-');
            }
            out.push(code.get_char(i));
            i = i + 1;
        }
        string_from_chars(out)
    }

    /// Builds a code from six alphabet indexes (each taken modulo 32).
    pub(crate) fn from_alphabet_indexes(indexes: &[u8]) -> (code: Self)
        requires
            indexes@.len() == INVITE_CODE_LEN,
        ensures
            forall|i: int| 0 <= i < INVITE_CODE_LEN ==> code@[i] == invite_alphabet()[indexes@[i] as int % 32],
    {
        let mut out: Vec<char> = Vec::new();
        let mut i: usize = 0;
        while i < INVITE_CODE_LEN
            invariant
                indexes@.len() == INVITE_CODE_LEN,
                i <= INVITE_CODE_LEN,
                out@.len() == i,
                forall|k: int| 0 <= k < i ==> out@[k] == invite_alphabet()[indexes@[k] as int % 32],
                forall|k: int| 0 <= k < i ==> is_invite_char(#[trigger] out@[k]),
            decreases INVITE_CODE_LEN - i,
        {
            let c = alphabet_char(indexes[i] % 32);
            out.push(c);
            i = i + 1;
        }
        let code = string_from_chars(out);
        InviteCode { code }
    }
}

fn alphabet_char(index: u8) -> (c: char)
    requires
        index < 32,
    ensures
        c == invite_alphabet()[index as int],
        is_invite_char(c),
{
    let alphabet: [char; 32] = ['2', '3', '4', '5', '6', '7', '8', '9', 'A', 'B', 'C', 'D', 'E', 'F', 'G', 'H',
         'J', 'K', 'L', 'M', 'N', 'P', 'Q', 'R', 'S', 'T', 'U', 'V', 'W', 'X', 'Y', 'Z'];
    let c = alphabet[index as usize];
    assert(alphabet@ == invite_alphabet());
    assert(invite_alphabet()[index as int] == c);
    c
}

fn invite_char(c: char) -> (b: bool)
    ensures
        b == is_invite_char(c),
{
    let mut k: u8 = 0;
    while k < 32
        invariant
            k <= 32,
            forall|j: int| 0 <= j < k ==> invite_alphabet()[j] != c,
        decreases 32 - k,
    {
        if alphabet_char(k) == c {
            return true;
        }
        k = k + 1;
    }
    assert(!invite_alphabet().contains(c));
    false
}

/// Generates invite codes for new rooms.
pub trait InviteCodeGenerator {
    /// Returns a normalized invite code.
    fn generate(&self) -> InviteCode;
}

/// Invite-code generator backed by random UUID bytes.
pub struct UuidInviteCodeGenerator;

/// The code that the 128 bits `bits` select: each character is the
/// alphabet entry that the matching big-endian byte selects, modulo the
/// alphabet's size.
pub open spec fn code_from_bits(bits: u128) -> Seq<char> {
    Seq::new(INVITE_CODE_LEN as nat, |i: int| invite_alphabet()[be_bytes_u128(bits)[i] as int % 32])
}

impl InviteCode {
    /// The code that random bits select, one alphabet entry per leading
    /// byte.
    pub fn from_random_bits(bits: u128) -> (code: Self)
        ensures
            code@ == code_from_bits(bits),
            is_valid_code(code@),
    {
        let bytes = u128_to_be_bytes(bits);
        let first = bytes.as_slice();
        let mut indexes: Vec<u8> = Vec::new();
        let mut i: usize = 0;
        while i < INVITE_CODE_LEN
            invariant
                first@ == be_bytes_u128(bits),
                i <= INVITE_CODE_LEN,
                indexes@.len() == i,
                forall|j: int| 0 <= j < i ==> indexes@[j] == first@[j],
            decreases INVITE_CODE_LEN - i,
        {
            indexes.push(first[i]);
            i = i + 1;
        }
        let code = InviteCode::from_alphabet_indexes(indexes.as_slice());
        proof {
            use_type_invariant(&code);
            assert(code@ =~= code_from_bits(bits));
        }
        code
    }
}

impl InviteCodeGenerator for UuidInviteCodeGenerator {
    /// A random valid code, selected by the bits of a random UUID.
    fn generate(&self) -> (code: InviteCode)
        ensures
            is_valid_code(code@),
    {
        InviteCode::from_random_bits(random_v4_uuid_bits())
    }
}


proof fn lemma_invite_char_is_fixed(c: char)
    requires
        is_invite_char(c),
    ensures
        !is_code_separator(c),
        ascii_upper(c) == c,
{
    let i = choose|i: int| 0 <= i < invite_alphabet().len() && invite_alphabet()[i] == c;
    assert(0 <= i < 32);
}

proof fn lemma_normalize_concat(x: Seq<char>, y: Seq<char>)
    ensures
        normalize_code(x + y) == normalize_code(x) + normalize_code(y),
    decreases y.len(),
{
    if y.len() == 0 {
        assert(x + y == x);
    } else {
        lemma_normalize_concat(x, y.drop_last());
        assert((x + y).drop_last() == x + y.drop_last());
        assert((x + y).last() == y.last());
    }
}

proof fn lemma_normalize_fixed(t: Seq<char>)
    requires
        forall|i: int| 0 <= i < t.len() ==> is_invite_char(#[trigger] t[i]),
    ensures
        normalize_code(t) == t,
    decreases t.len(),
{
    if t.len() > 0 {
        lemma_normalize_fixed(t.drop_last());
        lemma_invite_char_is_fixed(t.last());
        assert(t.drop_last().push(t.last()) == t);
    }
}

/// A normalized code parses to itself.
pub proof fn law_normalized_code_parses_to_itself(code: Seq<char>)
    requires
        is_valid_code(code),
    ensures
        normalize_code(code) == code,
        is_valid_code(normalize_code(code)),
{
    lemma_normalize_fixed(code);
}

/// The hyphenated display form of a code parses back to the same code.
pub proof fn law_display_form_parses_back(code: Seq<char>)
    requires
        is_valid_code(code),
    ensures
        normalize_code(display_code(code)) == code,
        is_valid_code(normalize_code(display_code(code))),
{
    let a = code.subrange(0, 4);
    let b = code.subrange(4, code.len() as int);
    lemma_normalize_concat(a, seq!['-']);
    lemma_normalize_concat(a + seq!['-'], b);
    assert(a.push('-') == a + seq!['-']);
    lemma_normalize_fixed(a);
    lemma_normalize_fixed(b);
    let hyphen = seq!['-'];
    assert(hyphen.len() == 1 && hyphen.last() == '-');
    assert(is_code_separator(hyphen.last()));
    assert(hyphen.drop_last() == Seq::<char>::empty());
    assert(normalize_code(hyphen.drop_last()) == Seq::<char>::empty());
    assert(normalize_code(hyphen) == Seq::<char>::empty());
    assert(a + b == code);
}

} // verus!
