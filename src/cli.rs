//! The values that the command line hands to the library: a virtual address,
//! the selected architecture and the colour choice.

use vstd::prelude::*;
use vstd::string::StrSliceExecFns;

verus! {

/// A virtual address. It is given on the command line in hexadecimal, as
/// `0x123` or `0x1234_5678`; the `0x` prefix is required and the value must
/// fit in a `u64`. It can be truncated to `u32`, which discards the upper 32
/// bits.
#[derive(Copy, Clone, Debug, PartialOrd, PartialEq, Ord, Eq, Hash, Structural)]
pub struct VirtualAddress(pub u64);

impl VirtualAddress {
    /// The numeric value of the address.
    pub open spec fn value(self) -> u64 {
        self.0
    }
}

impl From<u64> for VirtualAddress {
    fn from(value: u64) -> (v_addr: VirtualAddress)
        ensures
            v_addr.value() == value,
    {
        VirtualAddress(value)
    }
}

impl vstd::std_specs::convert::FromSpecImpl<u64> for VirtualAddress {
    open spec fn obeys_from_spec() -> bool {
        true
    }

    open spec fn from_spec(v: u64) -> VirtualAddress {
        VirtualAddress(v)
    }
}

impl From<VirtualAddress> for u64 {
    fn from(value: VirtualAddress) -> (addr: u64)
        ensures
            addr == value.value(),
    {
        value.0
    }
}

impl vstd::std_specs::convert::FromSpecImpl<VirtualAddress> for u64 {
    open spec fn obeys_from_spec() -> bool {
        true
    }

    open spec fn from_spec(v: VirtualAddress) -> u64 {
        v.value()
    }
}

impl From<VirtualAddress> for u32 {
    fn from(value: VirtualAddress) -> (addr: u32)
        ensures
            addr == value.value() % 0x1_0000_0000,
    {
        let addr = value.0;
        let low = addr & 0xffff_ffff;
        assert(low == addr % 0x1_0000_0000 && low < 0x1_0000_0000) by (bit_vector)
            requires
                low == addr & 0xffff_ffff,
        ;
        low as u32
    }
}

impl vstd::std_specs::convert::FromSpecImpl<VirtualAddress> for u32 {
    open spec fn obeys_from_spec() -> bool {
        true
    }

    open spec fn from_spec(v: VirtualAddress) -> u32 {
        (v.value() % 0x1_0000_0000) as u32
    }
}

/// Describes errors that happen when a user gives a [`VirtualAddress`] on the
/// command line.
#[derive(Copy, Clone, Debug, PartialOrd, PartialEq, Ord, Eq, Hash, Structural)]
pub enum VirtualAddressError {
    /// The virtual address must begin with the prefix 0x.
    MissingPrefix,
    /// The virtual address could not be parsed as number as `u64`.
    ParseIntError,
}

/// The text without its leading and trailing whitespace, as `str::trim`
/// defines whitespace.
pub uninterp spec fn trim_of(s: Seq<char>) -> Seq<char>;

/// The text in lower case, as `str::to_lowercase` maps characters.
pub uninterp spec fn lower_of(s: Seq<char>) -> Seq<char>;

/// Relies on `str::trim`: removes leading and trailing Unicode whitespace; the
/// result depends on the characters of `s` alone.
#[verifier::external_body]
fn trim_whitespace<'a>(s: &'a str) -> (trimmed: &'a str)
    ensures
        trimmed@ == trim_of(s@),
{
    s.trim()
}

/// Relies on `str::to_lowercase`: maps every character to lower case; the
/// result depends on the characters of `s` alone.
#[verifier::external_body]
fn to_lower_case(s: &str) -> (lower: String)
    ensures
        lower@ == lower_of(s@),
{
    s.to_lowercase()
}

/// The text with every underscore removed.
pub open spec fn without_underscores(s: Seq<char>) -> Seq<char>
    decreases s.len(),
{
    if s.len() == 0 {
        s
    } else if s.last() == '_' {
        without_underscores(s.drop_last())
    } else {
        without_underscores(s.drop_last()).push(s.last())
    }
}

/// The value of a hexadecimal digit of either case.
pub open spec fn hex_digit_value(c: char) -> Option<nat> {
    let code = c as u32;
    if 0x30 <= code <= 0x39 {
        Some((code - 0x30) as nat)
    } else if 0x61 <= code <= 0x66 {
        Some((code - 0x61 + 10) as nat)
    } else if 0x41 <= code <= 0x46 {
        Some((code - 0x41 + 10) as nat)
    } else {
        None
    }
}

/// Every character is a hexadecimal digit.
pub open spec fn all_hex_digits(s: Seq<char>) -> bool {
    forall|i: int| 0 <= i < s.len() ==> #[trigger] hex_digit_value(s[i]) is Some
}

/// The number that a sequence of hexadecimal digits denotes, most significant
/// digit first.
pub open spec fn hex_value(s: Seq<char>) -> nat
    decreases s.len(),
{
    if s.len() == 0 {
        0
    } else {
        hex_value(s.drop_last()) * 16 + match hex_digit_value(s.last()) {
            Some(d) => d,
            None => 0,
        }
    }
}

/// The digits of a number in text: the text without one leading `+`.
pub open spec fn number_digits(s: Seq<char>) -> Seq<char> {
    if s.len() > 0 && s[0] == '+' {
        s.drop_first()
    } else {
        s
    }
}

/// The text is a hexadecimal number that fits in a `u64`: an optional `+`
/// followed by at least one hexadecimal digit.
pub open spec fn is_hex_u64(s: Seq<char>) -> bool {
    let digits = number_digits(s);
    &&& digits.len() > 0
    &&& all_hex_digits(digits)
    &&& hex_value(digits) <= u64::MAX
}

/// What the text of an address, already trimmed and in lower case, denotes:
/// underscores are ignored, the prefix `0x` is required, and a hexadecimal
/// number that fits in a `u64` must follow it.
pub open spec fn parse_address(s: Seq<char>) -> Result<VirtualAddress, VirtualAddressError> {
    let text = without_underscores(s);
    if !(text.len() >= 2 && text[0] == '0' && text[1] == 'x') {
        Err(VirtualAddressError::MissingPrefix)
    } else if is_hex_u64(text.subrange(2, text.len() as int)) {
        Ok(VirtualAddress(hex_value(number_digits(text.subrange(2, text.len() as int))) as u64))
    } else {
        Err(VirtualAddressError::ParseIntError)
    }
}

/// The value of a prefix of a sequence of hexadecimal digits is at most the
/// value of the whole sequence.
proof fn lemma_hex_value_prefix(s: Seq<char>, k: int)
    requires
        0 <= k <= s.len(),
    ensures
        hex_value(s.subrange(0, k)) <= hex_value(s),
    decreases s.len(),
{
    if k == s.len() {
        assert(s.subrange(0, k) =~= s);
    } else {
        lemma_hex_value_prefix(s.drop_last(), k);
        assert(s.drop_last().subrange(0, k) =~= s.subrange(0, k));
    }
}

/// Returns the value of a hexadecimal digit of either case.
fn hex_digit(c: char) -> (digit: Option<u64>)
    ensures
        match digit {
            Some(d) => hex_digit_value(c) == Some(d as nat) && d < 16,
            None => hex_digit_value(c) is None,
        },
{
    let code = c as u32;
    if 0x30 <= code && code <= 0x39 {
        Some((code - 0x30) as u64)
    } else if 0x61 <= code && code <= 0x66 {
        Some((code - 0x61 + 10) as u64)
    } else if 0x41 <= code && code <= 0x46 {
        Some((code - 0x41 + 10) as u64)
    } else {
        None
    }
}

/// Returns the characters of `s` without its underscores.
fn remove_underscores(s: &str) -> (chars: Vec<char>)
    ensures
        chars@ == without_underscores(s@),
{
    let len = s.unicode_len();
    let mut chars: Vec<char> = Vec::new();
    let mut i: usize = 0;
    while i < len
        invariant
            len == s@.len(),
            i <= len,
            chars@ == without_underscores(s@.subrange(0, i as int)),
        decreases len - i,
    {
        let c = s.get_char(i);
        assert(s@.subrange(0, i + 1).drop_last() =~= s@.subrange(0, i as int));
        if c != '_' {
            chars.push(c);
        }
        i = i + 1;
    }
    assert(s@.subrange(0, len as int) =~= s@);
    chars
}

/// Reads the hexadecimal number that `chars` holds from index `start` on: an
/// optional `+` and at least one digit, with a value that fits in a `u64`.
fn parse_hex_u64(chars: &Vec<char>, start: usize) -> (value: Option<u64>)
    requires
        start <= chars@.len(),
    ensures
        ({
            let text = chars@.subrange(start as int, chars@.len() as int);
            value == if is_hex_u64(text) {
                Some(hex_value(number_digits(text)) as u64)
            } else {
                None
            }
        }),
{
    let ghost text = chars@.subrange(start as int, chars@.len() as int);
    let len = chars.len();
    let mut first = start;
    if first < len && chars[first] == '+' {
        first = first + 1;
    }
    let ghost digits = chars@.subrange(first as int, len as int);
    assert(number_digits(text) =~= digits);
    if first == len {
        return None;
    }
    let mut acc: u64 = 0;
    let mut i = first;
    assert(digits.subrange(0, 0) =~= Seq::<char>::empty());
    while i < len
        invariant
            len == chars@.len(),
            start <= first < len,
            first <= i <= len,
            digits == chars@.subrange(first as int, len as int),
            text == chars@.subrange(start as int, len as int),
            number_digits(text) == digits,
            all_hex_digits(digits.subrange(0, i - first)),
            acc == hex_value(digits.subrange(0, i - first)),
        decreases len - i,
    {
        let ghost prefix = digits.subrange(0, i + 1 - first);
        assert(prefix.drop_last() =~= digits.subrange(0, i - first));
        assert(prefix.last() == chars@[i as int]);
        match hex_digit(chars[i]) {
            None => {
                assert(hex_digit_value(digits[i - first]) is None);
                assert(!all_hex_digits(digits));
                return None;
            },
            Some(d) => {
                if acc > (u64::MAX - d) / 16 {
                    assert(acc * 16 + d > u64::MAX) by (nonlinear_arith)
                        requires
                            acc > (u64::MAX - d) / 16,
                            d < 16,
                    ;
                    proof {
                        if all_hex_digits(digits) {
                            lemma_hex_value_prefix(digits, i + 1 - first);
                        }
                    }
                    return None;
                }
                assert(acc * 16 + d <= u64::MAX) by (nonlinear_arith)
                    requires
                        acc <= (u64::MAX - d) / 16,
                        d < 16,
                ;
                acc = acc * 16 + d;
            },
        }
        i = i + 1;
    }
    assert(digits.subrange(0, len - first) =~= digits);
    Some(acc)
}

impl VirtualAddress {
    /// Reads a virtual address from text that is already trimmed and in lower
    /// case: underscores are ignored, then the prefix `0x` and a hexadecimal
    /// number that fits in a `u64` must follow.
    pub fn parse_normalized(s: &str) -> (parsed: Result<VirtualAddress, VirtualAddressError>)
        ensures
            parsed == parse_address(s@),
    {
        let chars = remove_underscores(s);
        if !(chars.len() >= 2 && chars[0] == '0' && chars[1] == 'x') {
            return Err(VirtualAddressError::MissingPrefix);
        }
        match parse_hex_u64(&chars, 2) {
            Some(value) => Ok(VirtualAddress(value)),
            None => Err(VirtualAddressError::ParseIntError),
        }
    }

    /// Reads a virtual address as it is given on the command line: the text
    /// is trimmed and put in lower case, then read as
    /// [`VirtualAddress::parse_normalized`] reads it.
    pub fn parse(s: &str) -> (parsed: Result<VirtualAddress, VirtualAddressError>)
        ensures
            parsed == parse_address(lower_of(trim_of(s@))),
    {
        let trimmed = trim_whitespace(s);
        let lower = to_lower_case(trimmed);
        VirtualAddress::parse_normalized(lower.as_str())
    }
}

impl core::str::FromStr for VirtualAddress {
    type Err = VirtualAddressError;

    /// Reads a virtual address as [`VirtualAddress::parse`] does.
    fn from_str(s: &str) -> (parsed: Result<VirtualAddress, VirtualAddressError>)
        ensures
            parsed == parse_address(lower_of(trim_of(s@))),
    {
        VirtualAddress::parse(s)
    }
}

/// The arguments of the command line.
#[derive(Copy, Clone, Debug, PartialEq, Eq)]
pub struct CliArgs {
    /// The virtual address to decompose.
    pub virtual_address: VirtualAddress,
    /// Architecture/paging implementation.
    pub architecture: Architecture,
    /// Whether colours and other ANSI escape sequences are used.
    pub color: Option<ColorOption>,
}

/// Whether colours and other ANSI escape sequences should be used.
#[derive(Copy, Clone, Debug, Default, PartialOrd, PartialEq, Ord, Eq, Hash)]
pub enum ColorOption {
    /// Never use ANSI escape sequences.
    Never,
    /// Use ANSI escape sequences if stdout points to a TTY, i.e., is not
    /// redirected.
    #[default]
    Auto,
    /// Always use ANSI escape sequences.
    Always,
}

/// Supported architectures with their options.
#[derive(Copy, Clone, Debug, PartialOrd, PartialEq, Ord, Eq, Hash, Structural)]
pub enum Architecture {
    /// x86 with a 2-level page table, or a 3-level one with the Physical
    /// Address Extension.
    X86 {
        /// Physical Address Extension.
        pae: bool,
    },
    /// x86_64 with a 4-level page table, or optionally a 5-level one.
    X86_64 {
        /// The optional additional fifth level.
        five_level: bool,
    },
}

} // verus!
