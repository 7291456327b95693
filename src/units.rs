//! Rendering of wei amounts and addresses, and address parsing.

use vstd::prelude::*;
use vstd::string::*;
use crate::text::decimal;
use crate::types::Address;

verus! {

/// `k` zero characters.
pub open spec fn zeros(k: int) -> Seq<char> {
    Seq::new(if k > 0 { k as nat } else { 0 }, |i: int| '0')
}

/// A wei amount in ether: the whole part, a point, and the fraction as
/// eighteen digits, padded on the left with zeros.
pub open spec fn ether_text(wei: nat) -> Seq<char> {
    let frac = decimal(wei % 1_000_000_000_000_000_000);
    decimal(wei / 1_000_000_000_000_000_000) + "."@ + zeros(18 - frac.len()) + frac
}

/// Relies on ethers' `utils::format_ether`, which renders the whole part of
/// `wei / 10^18`, a point, and `wei % 10^18` padded with zeros to eighteen
/// digits.
#[verifier::external_body]
pub fn format_ether(wei: u128) -> (r: String)
    ensures
        r@ == ether_text(wei as nat),
{
    ethers::utils::format_ether(ethers::types::U256::from(wei))
}

/// The value of a hexadecimal digit of either case.
pub open spec fn hex_digit_value(c: char) -> Option<int> {
    let n = c as u32;
    if 48 <= n <= 57 {
        Some(n - 48)
    } else if 97 <= n <= 102 {
        Some(n - 87)
    } else if 65 <= n <= 70 {
        Some(n - 55)
    } else {
        None
    }
}

/// White space that address parsing passes over: space, tab, CR and LF.
pub open spec fn hex_blank(c: char) -> bool {
    c == ' ' || c == '\t' || c == '\r' || c == '\n'
}

/// The digits of an address text: without a leading `0x`, and without the
/// white space that is passed over.
pub open spec fn address_digits(s: Seq<char>) -> Seq<char> {
    let body = if s.len() >= 2 && s[0] == '0' && s[1] == 'x' {
        s.skip(2)
    } else {
        s
    };
    body.filter(|c: char| !hex_blank(c))
}

/// The twenty bytes an address text stands for: after an optional `0x`,
/// exactly forty hexadecimal digits of either case (spaces, tabs, CR and LF
/// anywhere among them are passed over), two to a byte, high digit first.
pub open spec fn address_from_text(s: Seq<char>) -> Option<Seq<u8>> {
    let d = address_digits(s);
    if d.len() == 40 && forall|i: int| 0 <= i < 40 ==> (#[trigger] hex_digit_value(d[i])) is Some {
        Some(
            Seq::new(
                20,
                |k: int| (hex_digit_value(d[2 * k]).unwrap() * 16 + hex_digit_value(d[2 * k + 1]).unwrap()) as u8,
            ),
        )
    } else {
        None
    }
}

/// Relies on ethers' `Address::from_str` (fixed-hash's `from_str` over
/// rustc-hex's digit iterator): it strips a leading `0x`, passes over
/// spaces, tabs, CR and LF, and takes exactly forty hexadecimal digits of
/// either case, two to a byte.
#[verifier::external_body]
pub(crate) fn parse_address(s: &str) -> (r: Option<Address>)
    ensures
        match r {
            Some(a) => address_from_text(s@) == Some(a@),
            None => address_from_text(s@) is None,
        },
{
    match s.parse::<ethers::types::Address>() {
        Ok(a) => Some(a.0),
        Err(_) => None,
    }
}

/// The lowercase hexadecimal digit of a value below 16.
pub open spec fn hex_char(d: nat) -> char {
    if d < 10 {
        crate::text::digit_char(d)
    } else if d == 10 {
        'a'
    } else if d == 11 {
        'b'
    } else if d == 12 {
        'c'
    } else if d == 13 {
        'd'
    } else if d == 14 {
        'e'
    } else {
        'f'
    }
}

/// Two lowercase hexadecimal digits for each byte.
pub open spec fn hex_of(bytes: Seq<u8>) -> Seq<char>
    decreases bytes.len(),
{
    if bytes.len() == 0 {
        seq![]
    } else {
        hex_of(bytes.drop_last()) + seq![
            hex_char((bytes.last() / 16) as nat),
            hex_char((bytes.last() % 16) as nat),
        ]
    }
}

fn hex_str(d: u8) -> (r: &'static str)
    requires
        d < 16,
    ensures
        r@ == seq![hex_char(d as nat)],
{
    proof {
        reveal_strlit("0");
        reveal_strlit("1");
        reveal_strlit("2");
        reveal_strlit("3");
        reveal_strlit("4");
        reveal_strlit("5");
        reveal_strlit("6");
        reveal_strlit("7");
        reveal_strlit("8");
        reveal_strlit("9");
        reveal_strlit("a");
        reveal_strlit("b");
        reveal_strlit("c");
        reveal_strlit("d");
        reveal_strlit("e");
        reveal_strlit("f");
    }
    let r = if d == 0 {
        "0"
    } else if d == 1 {
        "1"
    } else if d == 2 {
        "2"
    } else if d == 3 {
        "3"
    } else if d == 4 {
        "4"
    } else if d == 5 {
        "5"
    } else if d == 6 {
        "6"
    } else if d == 7 {
        "7"
    } else if d == 8 {
        "8"
    } else if d == 9 {
        "9"
    } else if d == 10 {
        "a"
    } else if d == 11 {
        "b"
    } else if d == 12 {
        "c"
    } else if d == 13 {
        "d"
    } else if d == 14 {
        "e"
    } else {
        "f"
    };
    assert(r@ =~= seq![hex_char(d as nat)]);
    r
}

/// Two lowercase hexadecimal digits for each byte.
pub fn hex_text(bytes: &Vec<u8>) -> (r: String)
    ensures
        r@ == hex_of(bytes@),
{
    let mut r = String::new();
    let mut i: usize = 0;
    while i < bytes.len()
        invariant
            i <= bytes.len(),
            r@ == hex_of(bytes@.subrange(0, i as int)),
        decreases bytes.len() - i,
    {
        let b = bytes[i];
        r.append(hex_str(b / 16));
        r.append(hex_str(b % 16));
        proof {
            let next = bytes@.subrange(0, i + 1);
            assert(next.drop_last() =~= bytes@.subrange(0, i as int));
            assert(next.last() == b);
        }
        i = i + 1;
        assert(r@ =~= hex_of(bytes@.subrange(0, i as int)));
    }
    assert(bytes@.subrange(0, bytes.len() as int) =~= bytes@);
    r
}

/// An address as `0x` and forty lowercase hexadecimal digits.
pub fn address_text(address: &Address) -> (r: String)
    ensures
        r@ == "0x"@ + hex_of(address@),
{
    let mut r = String::from_str("0x");
    let mut i: usize = 0;
    while i < 20
        invariant
            i <= 20,
            address@.len() == 20,
            r@ == "0x"@ + hex_of(address@.subrange(0, i as int)),
        decreases 20 - i,
    {
        let b = address[i];
        r.append(hex_str(b / 16));
        r.append(hex_str(b % 16));
        proof {
            let next = address@.subrange(0, i + 1);
            assert(next.drop_last() =~= address@.subrange(0, i as int));
            assert(next.last() == b);
        }
        i = i + 1;
        assert(r@ =~= "0x"@ + hex_of(address@.subrange(0, i as int)));
    }
    assert(address@.subrange(0, 20) =~= address@);
    r
}

/// Unicode white space (the `White_Space` property): tab to carriage return,
/// space, next line, no-break space, ogham space mark, the spaces from en
/// quad to hair space, line and paragraph separators, narrow no-break space,
/// medium mathematical space and ideographic space.
pub open spec fn is_white_space(c: char) -> bool {
    let n = c as u32;
    ||| 0x09 <= n <= 0x0D
    ||| n == 0x20
    ||| n == 0x85
    ||| n == 0xA0
    ||| n == 0x1680
    ||| 0x2000 <= n <= 0x200A
    ||| n == 0x2028
    ||| n == 0x2029
    ||| n == 0x202F
    ||| n == 0x205F
    ||| n == 0x3000
}

/// The text without its leading white space.
pub open spec fn trim_start_of(s: Seq<char>) -> Seq<char>
    decreases s.len(),
{
    if s.len() > 0 && is_white_space(s[0]) {
        trim_start_of(s.drop_first())
    } else {
        s
    }
}

/// The text without its trailing white space.
pub open spec fn trim_end_of(s: Seq<char>) -> Seq<char>
    decreases s.len(),
{
    if s.len() > 0 && is_white_space(s.last()) {
        trim_end_of(s.drop_last())
    } else {
        s
    }
}

/// The text without leading and trailing white space.
pub open spec fn trim_of(s: Seq<char>) -> Seq<char> {
    trim_end_of(trim_start_of(s))
}

/// Relies on `str::trim`, which removes leading and trailing characters
/// with the `White_Space` property.
#[verifier::external_body]
pub(crate) fn trimmed(s: &str) -> (r: String)
    ensures
        r@ == trim_of(s@),
{
    s.trim().to_string()
}

/// What ethers' `utils::parse_ether` makes of a decimal ether amount: the
/// amount in wei, or nothing where it reports an error.
pub uninterp spec fn ether_amount_of(s: Seq<char>) -> Option<int>;

/// Texts that ethers' `utils::parse_ether` reads without panicking: ASCII
/// only (it cuts surplus decimals by byte count), and at most 59 characters
/// before the first point (so the amount in wei, and the product it forms
/// with a power of ten, stays below 2^255).
pub open spec fn parse_ether_admits(s: Seq<char>) -> bool {
    &&& forall|i: int| 0 <= i < s.len() ==> (s[i] as u32) < 128
    &&& (s.len() <= 59 || exists|i: int| 0 <= i <= 59 && s[i] == '.')
}

/// Whether ethers' `utils::parse_ether` may be handed `s`.
fn admits_ether_text(s: &str) -> (r: bool)
    ensures
        r == parse_ether_admits(s@),
{
    let n = s.unicode_len();
    let mut ascii = true;
    let mut early_point = false;
    let mut i: usize = 0;
    while i < n
        invariant
            n == s@.len(),
            i <= n,
            ascii == forall|j: int| 0 <= j < i ==> (s@[j] as u32) < 128,
            early_point == exists|j: int| 0 <= j < i && j <= 59 && s@[j] == '.',
        decreases n - i,
    {
        let c = s.get_char(i);
        if (c as u32) >= 128 {
            ascii = false;
        }
        if i <= 59 && c == '.' {
            early_point = true;
        }
        i = i + 1;
    }
    ascii && (n <= 59 || early_point)
}

/// Relies on ethers' `utils::parse_ether`; an amount over 128 bits is
/// reported as no amount. It panics on a cut inside a character and on an
/// amount beyond 256 bits, which `parse_ether_admits` leaves out.
#[verifier::external_body]
fn parse_ether_text(s: &str) -> (r: Option<u128>)
    requires
        parse_ether_admits(s@),
    ensures
        r matches Some(v) ==> ether_amount_of(s@) == Some(v as int),
        r is None ==> (ether_amount_of(s@) is None || ether_amount_of(s@).unwrap() > u128::MAX),
{
    ethers::utils::parse_ether(s).ok().and_then(|v| u128::try_from(v).ok())
}

/// The amount that an admitted text stands for, if it fits in 128 bits.
pub open spec fn eth_amount_spec(s: Seq<char>) -> Option<int> {
    if parse_ether_admits(s) && ether_amount_of(s) is Some && 0 <= ether_amount_of(s).unwrap()
        <= u128::MAX {
        ether_amount_of(s)
    } else {
        None
    }
}

/// Why an ether amount was not accepted.
pub enum EthAmountError {
    /// Nothing but white space.
    Empty,
    /// Not a decimal ether amount, or more than 128 bits of wei.
    Invalid { input: String },
}

impl EthAmountError {
    /// The error as a sentence.
    pub fn to_string(&self) -> (r: String)
        ensures
            self is Empty ==> r@ == "ETH amount cannot be empty"@,
            self matches EthAmountError::Invalid { input } ==> r@ == "Invalid ETH amount '"@
                + input@ + "'"@,
    {
        match self {
            EthAmountError::Empty => String::from_str("ETH amount cannot be empty"),
            EthAmountError::Invalid { input } => {
                let mut r = String::from_str("Invalid ETH amount '");
                r.append(input.as_str());
                r.append("'");
                r
            },
        }
    }
}

/// Reads an ether amount that has been trimmed already. A text that is not
/// ASCII, or that has more than 59 characters before its point, is refused
/// as invalid.
pub fn parse_trimmed_eth(trimmed_input: &str) -> (r: Result<u128, EthAmountError>)
    ensures
        trimmed_input@.len() == 0 <==> r matches Err(EthAmountError::Empty),
        trimmed_input@.len() > 0 ==> match eth_amount_spec(trimmed_input@) {
            Some(v) => r == Ok::<u128, EthAmountError>(v as u128),
            None => r matches Err(EthAmountError::Invalid { input }) && input@ == trimmed_input@,
        },
{
    if trimmed_input.unicode_len() == 0 {
        return Err(EthAmountError::Empty);
    }
    if !admits_ether_text(trimmed_input) {
        return Err(EthAmountError::Invalid { input: trimmed_input.to_owned() });
    }
    match parse_ether_text(trimmed_input) {
        Some(v) => Ok(v),
        None => Err(EthAmountError::Invalid { input: trimmed_input.to_owned() }),
    }
}

/// Reads a decimal ether amount, ignoring surrounding white space, as wei.
pub fn parse_eth_str_to_wei(input: &str) -> (r: Result<u128, EthAmountError>)
    ensures
        trim_of(input@).len() == 0 <==> r matches Err(EthAmountError::Empty),
        trim_of(input@).len() > 0 ==> match eth_amount_spec(trim_of(input@)) {
            Some(v) => r == Ok::<u128, EthAmountError>(v as u128),
            None => r matches Err(EthAmountError::Invalid { input: t }) && t@ == trim_of(input@),
        },
{
    let t = trimmed(input);
    parse_trimmed_eth(t.as_str())
}

} // verus!
