//! Identifiers: 128-bit values with one canonical text form, and the
//! syntactic check that every identifier in a request passes first.

use crate::error::RegistryError;
use vstd::prelude::*;
use vstd::string::*;

verus! {

/// A 128-bit universally-unique value.
#[derive(Clone, Copy, Debug, PartialEq, Eq, Hash, Structural)]
pub struct Identifier {
    /// The sixteen bytes of the identifier, most significant first.
    pub value: u128,
}

/// The lowercase hexadecimal digit for a number below sixteen.
pub open spec fn hex_char(d: int) -> char {
    if d == 0 {
        '0'
    } else if d == 1 {
        '1'
    } else if d == 2 {
        '2'
    } else if d == 3 {
        '3'
    } else if d == 4 {
        '4'
    } else if d == 5 {
        '5'
    } else if d == 6 {
        '6'
    } else if d == 7 {
        '7'
    } else if d == 8 {
        '8'
    } else if d == 9 {
        '9'
    } else if d == 10 {
        'a'
    } else if d == 11 {
        'b'
    } else if d == 12 {
        'c'
    } else if d == 13 {
        'd'
    } else if d == 14 {
        'e'
    } else {
        'f'
    }
}

/// Whether a hyphen stands in front of the digit at position `i` (counted
/// from the left, starting at zero): the groups hold 8, 4, 4, 4 and 12 digits.
pub open spec fn hyphen_before(i: nat) -> bool {
    i == 8 || i == 12 || i == 16 || i == 20
}

/// The canonical text of the `n` leftmost digits of an identifier, hyphens
/// included, where `v` is the number that those `n` digits spell.
pub open spec fn canonical_digits(v: nat, n: nat) -> Seq<char>
    decreases n,
{
    if n == 0 {
        Seq::empty()
    } else {
        let head = canonical_digits(v / 16, (n - 1) as nat);
        let head = if hyphen_before((n - 1) as nat) {
            head.push('-')
        } else {
            head
        };
        head.push(hex_char((v % 16) as int))
    }
}

/// The canonical text of an identifier: 32 lowercase hexadecimal digits,
/// most significant first, in hyphenated groups of 8, 4, 4, 4 and 12.
pub open spec fn canonical_text(v: u128) -> Seq<char> {
    canonical_digits(v as nat, 32)
}

/// Whether a value has the shape of a version-4 identifier: the version
/// digit (the thirteenth) is 4, and the two highest bits of the seventeenth
/// digit are `10`.
pub open spec fn is_version4(v: u128) -> bool {
    &&& (v / 0x1000_0000_0000_0000_0000) % 16 == 4
    &&& (v / 0x4000_0000_0000_0000) % 4 == 2
}

/// Calls `uuid::Uuid::try_parse` and hands out the parsed value as a number
/// (`Uuid::as_u128`, the sixteen bytes with the most significant first), or
/// `None` where the parser rejects the text. The parser reads a text of 36
/// characters by checking the four hyphens and decoding the 32 hexadecimal
/// digits between them, two to a byte, in order; the documentation of
/// `as_u128` shows it for `a1a2a3a4-b1b2-c1c2-d1d2-d3d4d5d6d7d8`. So much is
/// claimed, and no more: from the canonical text of a value, the parser
/// reads that value. What it makes of any other text is not stated.
#[verifier::external_body]
fn uuid_try_parse(text: &str) -> (r: Option<u128>)
    ensures
        forall|v: u128| text@ == #[trigger] canonical_text(v) ==> r == Some(v),
{
    match uuid::Uuid::try_parse(text) {
        Ok(parsed) => Some(parsed.as_u128()),
        Err(_) => None,
    }
}

/// Calls `uuid::Uuid::new_v4`, which draws 128 random bits from the
/// operating system and then overwrites the version digit with 4 and the two
/// variant bits with `10`. Only that shape is claimed of the result. The
/// call panics where the operating system hands out no random bytes.
#[verifier::external_body]
fn uuid_new_v4() -> (r: u128)
    ensures
        is_version4(r),
{
    uuid::Uuid::new_v4().as_u128()
}

/// What a text stands for, given what a parser read from it: the parsed
/// value, if it has the version-4 shape and the text is its canonical form.
pub open spec fn parsed_identifier(text: Seq<char>, parsed: Option<u128>) -> Result<
    Identifier,
    RegistryError,
> {
    match parsed {
        Some(v) => if is_version4(v) && canonical_text(v) == text {
            Ok(Identifier { value: v })
        } else {
            Err(RegistryError::InvalidFormat)
        },
        None => Err(RegistryError::InvalidFormat),
    }
}

/// Whether a text is the canonical text of a value of the version-4 shape.
pub open spec fn spells(text: Seq<char>, v: u128) -> bool {
    is_version4(v) && canonical_text(v) == text
}

/// The identifier that a text stands for: the value of the version-4 shape
/// whose canonical text it is, or `InvalidFormat` where there is none.
pub open spec fn identifier_of(text: Seq<char>) -> Result<Identifier, RegistryError> {
    if exists|v: u128| spells(text, v) {
        Ok(Identifier { value: choose|v: u128| spells(text, v) })
    } else {
        Err(RegistryError::InvalidFormat)
    }
}

/// Whether a number is spelled by `n` hexadecimal digits.
pub open spec fn spelled_by(v: nat, n: nat) -> bool
    decreases n,
{
    if n == 0 {
        v == 0
    } else {
        spelled_by(v / 16, (n - 1) as nat)
    }
}

/// Two numbers that `n` digits spell, and that have the same text, are the same.
pub proof fn lemma_digits_unique(v: nat, w: nat, n: nat)
    requires
        spelled_by(v, n),
        spelled_by(w, n),
        canonical_digits(v, n) == canonical_digits(w, n),
    ensures
        v == w,
    decreases n,
{
    if n > 0 {
        let m = (n - 1) as nat;
        let head_v = canonical_digits(v / 16, m);
        let head_w = canonical_digits(w / 16, m);
        let sep_v = if hyphen_before(m) {
            head_v.push('-')
        } else {
            head_v
        };
        let sep_w = if hyphen_before(m) {
            head_w.push('-')
        } else {
            head_w
        };
        let a = canonical_digits(v, n);
        let b = canonical_digits(w, n);
        assert(a == sep_v.push(hex_char((v % 16) as int)));
        assert(b == sep_w.push(hex_char((w % 16) as int)));
        assert(a.last() == hex_char((v % 16) as int));
        assert(b.last() == hex_char((w % 16) as int));
        assert(a.drop_last() =~= sep_v);
        assert(b.drop_last() =~= sep_w);
        assert(sep_v == sep_w);
        if hyphen_before(m) {
            assert(sep_v.drop_last() =~= head_v);
            assert(sep_w.drop_last() =~= head_w);
        }
        assert(head_v == head_w);
        lemma_digits_unique(v / 16, w / 16, m);
        assert(v % 16 == w % 16);
    }
}

/// Every 128-bit value is spelled by 32 hexadecimal digits.
pub proof fn lemma_value_spelled(v: u128)
    ensures
        spelled_by(v as nat, 32),
{
    reveal_with_fuel(spelled_by, 33);
}

/// A canonical text has 36 characters.
pub proof fn lemma_canonical_text_len(v: u128)
    ensures
        canonical_text(v).len() == 36,
{
    reveal_with_fuel(canonical_digits, 33);
}

/// A text that has not 36 characters, the empty text among them, stands for
/// no identifier.
pub proof fn lemma_other_length_invalid(text: Seq<char>)
    requires
        text.len() != 36,
    ensures
        identifier_of(text) == Err::<Identifier, RegistryError>(RegistryError::InvalidFormat),
{
    assert forall|v: u128| !spells(text, v) by {
        lemma_canonical_text_len(v);
    }
}

/// Two values with the same canonical text are the same.
pub proof fn lemma_canonical_text_unique(v: u128, w: u128)
    requires
        canonical_text(v) == canonical_text(w),
    ensures
        v == w,
{
    lemma_value_spelled(v);
    lemma_value_spelled(w);
    lemma_digits_unique(v as nat, w as nat, 32);
}

/// A text stands for an identifier if and only if the identifier has the
/// version-4 shape and the text is its canonical text. In particular, the
/// canonical text of such an identifier stands for it.
pub proof fn lemma_identifier_of_canonical(text: Seq<char>, id: Identifier)
    ensures
        identifier_of(text) == Ok::<Identifier, RegistryError>(id) <==> spells(text, id.value),
{
    if spells(text, id.value) {
        let v = choose|v: u128| spells(text, v);
        lemma_canonical_text_unique(v, id.value);
    }
}

fn hex_str(d: u8) -> (r: &'static str)
    requires
        d < 16,
    ensures
        r@ == seq![hex_char(d as int)],
{
    proof {
        reveal_strlit("0");
        reveal_strlit("1");
        reveal_strlit("2");
        reveal_strlit("3");
        reveal_strlit("4");
        reveal_strlit("5");
        reveal_strlit("6");
        reveal_strlit("7");
        reveal_strlit("8");
        reveal_strlit("9");
        reveal_strlit("a");
        reveal_strlit("b");
        reveal_strlit("c");
        reveal_strlit("d");
        reveal_strlit("e");
        reveal_strlit("f");
    }
    let r = if d == 0 {
        "0"
    } else if d == 1 {
        "1"
    } else if d == 2 {
        "2"
    } else if d == 3 {
        "3"
    } else if d == 4 {
        "4"
    } else if d == 5 {
        "5"
    } else if d == 6 {
        "6"
    } else if d == 7 {
        "7"
    } else if d == 8 {
        "8"
    } else if d == 9 {
        "9"
    } else if d == 10 {
        "a"
    } else if d == 11 {
        "b"
    } else if d == 12 {
        "c"
    } else if d == 13 {
        "d"
    } else if d == 14 {
        "e"
    } else {
        "f"
    };
    assert(r@ =~= seq![hex_char(d as int)]);
    r
}

fn write_digits(v: u128, n: u8, out: &mut String)
    requires
        n <= 32,
    ensures
        final(out)@ == old(out)@ + canonical_digits(v as nat, n as nat),
    decreases n,
{
    if n > 0 {
        let i: u8 = n - 1;
        write_digits(v / 16, i, out);
        if i == 8 || i == 12 || i == 16 || i == 20 {
            proof {
                reveal_strlit("-");
            }
            out.append("-");
            assert("-"@ =~= seq!['-']);
        }
        let d: u8 = (v % 16) as u8;
        out.append(hex_str(d));
        assert(out@ =~= old(out)@ + canonical_digits(v as nat, n as nat));
    } else {
        assert(out@ =~= old(out)@ + canonical_digits(v as nat, n as nat));
    }
}

impl Identifier {
    /// Whether the identifier has the version-4 shape.
    pub fn is_version4(&self) -> (r: bool)
        ensures
            r == is_version4(self.value),
    {
        (self.value / 0x1000_0000_0000_0000_0000) % 16 == 4 && (self.value
            / 0x4000_0000_0000_0000) % 4 == 2
    }

    /// Renders the identifier in its canonical text form.
    pub fn to_canonical_string(&self) -> (s: String)
        ensures
            s@ == canonical_text(self.value),
    {
        let mut out = String::new();
        write_digits(self.value, 32, &mut out);
        assert(out@ =~= canonical_text(self.value));
        out
    }
}

/// Decides what a text stands for, given the value that a parser read from
/// it, if it read one.
pub fn identifier_from_parsed(text: &str, parsed: Option<u128>) -> (r: Result<
    Identifier,
    RegistryError,
>)
    ensures
        r == parsed_identifier(text@, parsed),
{
    match parsed {
        Some(v) => {
            let id = Identifier { value: v };
            if !id.is_version4() {
                return Err(RegistryError::InvalidFormat);
            }
            let rendered = id.to_canonical_string();
            let given = text.to_owned();
            if rendered == given {
                Ok(id)
            } else {
                Err(RegistryError::InvalidFormat)
            }
        },
        None => Err(RegistryError::InvalidFormat),
    }
}

/// Reads an identifier from its canonical text. Every other text, the other
/// spellings of the same value included, is an `InvalidFormat`.
pub fn parse_identifier(text: &str) -> (r: Result<Identifier, RegistryError>)
    ensures
        r == identifier_of(text@),
{
    let parsed = uuid_try_parse(text);
    proof {
        if exists|v: u128| spells(text@, v) {
            let v = choose|v: u128| spells(text@, v);
            assert(text@ == canonical_text(v));
            assert(parsed == Some(v));
        } else {
            match parsed {
                Some(w) => {
                    assert(!spells(text@, w));
                },
                None => {},
            }
        }
    }
    identifier_from_parsed(text, parsed)
}

/// Whether a text is the canonical form of a version-4 identifier.
pub fn is_uuid(text: &str) -> (r: bool)
    ensures
        r == identifier_of(text@).is_ok(),
{
    parse_identifier(text).is_ok()
}

/// Draws a new random identifier.
pub fn fresh_identifier() -> (id: Identifier)
    ensures
        is_version4(id.value),
{
    Identifier { value: uuid_new_v4() }
}

/// The identifiers that a list of texts spells, if each of them spells one.
pub open spec fn identifiers_of(texts: Seq<String>) -> Option<Seq<Identifier>> {
    if forall|i: int| 0 <= i < texts.len() ==> identifier_of(#[trigger] texts[i]@) is Ok {
        Some(Seq::new(texts.len(), |i: int| identifier_of(texts[i]@)->Ok_0))
    } else {
        None
    }
}

/// Reads a list of identifiers.
pub fn parse_identifiers(texts: &Vec<String>) -> (r: Option<Vec<Identifier>>)
    ensures
        match identifiers_of(texts@) {
            Some(ids) => r matches Some(v) && v@ == ids,
            None => r is None,
        },
{
    let mut out: Vec<Identifier> = Vec::new();
    let mut i: usize = 0;
    while i < texts.len()
        invariant
            i <= texts.len(),
            out@.len() == i,
            forall|j: int| 0 <= j < i ==> identifier_of(#[trigger] texts@[j]@) == Ok::<
                Identifier,
                RegistryError,
            >(out@[j]),
        decreases texts.len() - i,
    {
        match parse_identifier(texts[i].as_str()) {
            Ok(id) => {
                out.push(id);
            },
            Err(_) => {
                return None;
            },
        }
        i = i + 1;
    }
    assert(out@ =~= Seq::new(texts@.len(), |i: int| identifier_of(texts@[i]@)->Ok_0));
    Some(out)
}

} // verus!
