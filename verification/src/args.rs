//! Caller-side argument handling: the command line, and the hexadecimal
//! address string fed into the request record.

use vstd::prelude::*;

use vstd::slice::slice_index_get;
use vstd::slice::slice_subrange;
use vstd::string::StrSliceExecFns;
use vstd::string::StringExecFns;
use vstd::string::StringSliceAdditionalSpecFns;

verus! {

/// Whether a byte is an ASCII hexadecimal digit, either case.
pub open spec fn is_hex_digit(b: u8) -> bool {
    (0x30 <= b && b <= 0x39) || (0x41 <= b && b <= 0x46) || (0x61 <= b && b <= 0x66)
}

/// The value of an ASCII hexadecimal digit.
pub open spec fn hex_digit_value(b: u8) -> int
    recommends
        is_hex_digit(b),
{
    if 0x30 <= b && b <= 0x39 {
        b - 0x30
    } else if 0x41 <= b && b <= 0x46 {
        b - 0x41 + 10
    } else if 0x61 <= b && b <= 0x66 {
        b - 0x61 + 10
    } else {
        0
    }
}

/// The bytes an even run of hexadecimal digits stands for, one byte for each
/// digit pair.
pub open spec fn hex_bytes(digits: Seq<u8>) -> Seq<u8>
    recommends
        digits.len() % 2 == 0,
        forall|i: int| 0 <= i < digits.len() ==> is_hex_digit(digits[i]),
{
    Seq::new(
        (digits.len() / 2) as nat,
        |i: int| (hex_digit_value(digits[2 * i]) * 16 + hex_digit_value(digits[2 * i + 1])) as u8,
    )
}

/// Position of the first byte that is not a hexadecimal digit.
pub open spec fn first_non_hex(s: Seq<u8>) -> int
    recommends
        exists|i: int| 0 <= i < s.len() && !is_hex_digit(s[i]),
    decreases s.len(),
{
    if s.len() == 0 {
        0
    } else if !is_hex_digit(s[0]) {
        0
    } else {
        1 + first_non_hex(s.drop_first())
    }
}

/// Why a hexadecimal string failed to decode.
#[derive(Clone, Copy, PartialEq, Eq, Structural, Debug)]
pub enum HexError {
    /// A byte that is no hexadecimal digit, with its position.
    InvalidHexCharacter {
        /// The offending character.
        c: char,
        /// Its position in the input.
        index: usize,
    },
    /// An odd number of digits: two digits make one byte.
    OddLength,
    /// A digit count that does not fit the decoded container.
    InvalidStringLength,
}

/// What decoding a run of hexadecimal digits yields: an odd length is
/// rejected as such before anything else; otherwise the first byte that is
/// no digit is reported with its position; otherwise one byte per digit
/// pair.
pub open spec fn spec_hex_decode(data: Seq<u8>) -> Result<Seq<u8>, HexError> {
    if data.len() % 2 != 0 {
        Err(HexError::OddLength)
    } else if forall|i: int| 0 <= i < data.len() ==> is_hex_digit(data[i]) {
        Ok(hex_bytes(data))
    } else {
        Err(
            HexError::InvalidHexCharacter {
                c: data[first_non_hex(data)] as char,
                index: first_non_hex(data) as usize,
            },
        )
    }
}

/// Relies on hex::decode: an even run of hexadecimal digits decodes to one
/// byte per digit pair; an odd length is rejected as such before anything
/// else; otherwise the first byte that is no digit is reported with its
/// position.
#[verifier::external_body]
fn hex_decode(data: &[u8]) -> (r: Result<Vec<u8>, HexError>)
    ensures
        r is Ok <==> spec_hex_decode(data@) is Ok,
        r is Ok ==> r->Ok_0@ == spec_hex_decode(data@)->Ok_0,
        r is Err ==> r->Err_0 == spec_hex_decode(data@)->Err_0,
{
    match hex::decode(data) {
        Ok(bytes) => Ok(bytes),
        Err(hex::FromHexError::InvalidHexCharacter { c, index }) => Err(
            HexError::InvalidHexCharacter { c, index },
        ),
        Err(hex::FromHexError::OddLength) => Err(HexError::OddLength),
        Err(hex::FromHexError::InvalidStringLength) => Err(HexError::InvalidStringLength),
    }
}

/// The big-endian value of a run of bytes.
pub open spec fn be_value(bytes: Seq<u8>) -> int
    decreases bytes.len(),
{
    if bytes.len() == 0 {
        0
    } else {
        256 * be_value(bytes.drop_last()) + bytes.last()
    }
}

/// The largest value `n` bytes can hold.
pub open spec fn byte_cap(n: nat) -> int
    decreases n,
{
    if n == 0 {
        0
    } else {
        256 * byte_cap((n - 1) as nat) + 255
    }
}

proof fn lemma_byte_cap_nonneg(n: nat)
    ensures
        byte_cap(n) >= 0,
    decreases n,
{
    if n > 0 {
        lemma_byte_cap_nonneg((n - 1) as nat);
    }
}

proof fn lemma_byte_cap_monotone(n: nat, m: nat)
    requires
        n <= m,
    ensures
        byte_cap(n) <= byte_cap(m),
    decreases m,
{
    if n < m {
        lemma_byte_cap_monotone(n, (m - 1) as nat);
        lemma_byte_cap_nonneg((m - 1) as nat);
    }
}

proof fn lemma_be_value_bound(bytes: Seq<u8>)
    ensures
        0 <= be_value(bytes) <= byte_cap(bytes.len()),
    decreases bytes.len(),
{
    if bytes.len() > 0 {
        lemma_be_value_bound(bytes.drop_last());
    }
}

/// Interprets a run of at most eight bytes as a big-endian machine word.
pub fn vec_to_usize(vec: Vec<u8>) -> (r: Result<usize, String>)
    ensures
        vec@.len() <= 8 && be_value(vec@) <= usize::MAX ==> {
            &&& r is Ok
            &&& r->Ok_0 == be_value(vec@)
        },
        !(vec@.len() <= 8 && be_value(vec@) <= usize::MAX) ==> r is Err,
{
    if vec.len() > 8 {
        return Err(String::from_str("Value is too large to fit in usize"));
    }
    let mut value: u64 = 0;
    let mut i: usize = 0;
    while i < vec.len()
        invariant
            i <= vec@.len() <= 8,
            value == be_value(vec@.subrange(0, i as int)),
            value <= byte_cap(i as nat),
        decreases vec@.len() - i,
    {
        proof {
            lemma_byte_cap_nonneg(i as nat);
            lemma_byte_cap_monotone((i + 1) as nat, 8);
            assert(byte_cap(8) == 0xFFFF_FFFF_FFFF_FFFF) by {
                reveal_with_fuel(byte_cap, 9);
            }
        }
        let byte = vec[i];
        value = 256 * value + (byte as u64);
        proof {
            assert(vec@.subrange(0, (i + 1) as int).drop_last() =~= vec@.subrange(0, i as int));
        }
        i = i + 1;
    }
    proof {
        assert(vec@.subrange(0, vec@.len() as int) =~= vec@);
    }
    if value <= usize::MAX as u64 {
        Ok(value as usize)
    } else {
        Err(String::from_str("Value is too large to fit in usize"))
    }
}

/// A run of bytes with every leading `0x` marker removed.
pub open spec fn strip_hex_prefixes(s: Seq<u8>) -> Seq<u8>
    decreases s.len(),
{
    if s.len() >= 2 && s[0] == 0x30 && s[1] == 0x78 {
        strip_hex_prefixes(s.skip(2))
    } else {
        s
    }
}

/// The address a command-line string stands for: its hexadecimal digits,
/// after any `0x` markers, read as a big-endian machine word — when the
/// digits come in pairs, are all hexadecimal, and the value fits.
pub open spec fn parsed_address(text: Seq<u8>) -> Option<int> {
    let digits = strip_hex_prefixes(text);
    if digits.len() % 2 == 0 && (forall|i: int| 0 <= i < digits.len() ==> is_hex_digit(digits[i]))
        && digits.len() <= 16 && be_value(hex_bytes(digits)) <= usize::MAX {
        Some(be_value(hex_bytes(digits)))
    } else {
        None
    }
}

/// Parses the address argument: strips any leading `0x`, decodes the
/// hexadecimal digits, and reads them as a big-endian machine word.
pub fn str_to_address(s: &str) -> (r: Result<usize, String>)
    ensures
        parsed_address(s.spec_bytes()) is Some ==> {
            &&& r is Ok
            &&& r->Ok_0 == parsed_address(s.spec_bytes())->0
        },
        parsed_address(s.spec_bytes()) is None ==> r is Err,
{
    let bytes = s.as_bytes();
    let len = bytes.len();
    let mut start: usize = 0;
    proof {
        assert(bytes@.skip(0) =~= bytes@);
    }
    while len - start >= 2 && *slice_index_get(bytes, start) == 0x30 && *slice_index_get(
        bytes,
        start + 1,
    ) == 0x78
        invariant
            start <= len,
            len == bytes@.len(),
            strip_hex_prefixes(bytes@) == strip_hex_prefixes(bytes@.skip(start as int)),
        decreases len - start,
    {
        proof {
            assert(bytes@.skip(start as int).skip(2) =~= bytes@.skip((start + 2) as int));
        }
        start = start + 2;
    }
    let digits = slice_subrange(bytes, start, len);
    proof {
        assert(digits@ =~= bytes@.skip(start as int));
        assert(strip_hex_prefixes(digits@) == digits@);
    }
    match hex_decode(digits) {
        Ok(decoded) => {
            proof {
                lemma_be_value_bound(decoded@);
            }
            match vec_to_usize(decoded) {
                Ok(address) => Ok(address),
                Err(message) => {
                    let mut text = String::from_str("Address out of bounds: ");
                    text.append(message.as_str());
                    Err(text)
                },
            }
        },
        Err(error) => {
            let mut text = String::from_str("Invalid hexadecimal string: ");
            match error {
                HexError::InvalidHexCharacter { c: _, index } => {
                    text.append("invalid character at position ");
                    let position = crate::text::u64_to_decimal(index as u64);
                    text.append(position.as_str());
                },
                HexError::OddLength => text.append("odd number of digits"),
                HexError::InvalidStringLength => text.append("invalid string length"),
            }
            Err(text)
        },
    }
}

/// Finds the file name inside a path: what follows the last separator.
fn file_name_of(path: &str) -> (name: &str) {
    let n = path.unicode_len();
    let mut cut: usize = 0;
    let mut i: usize = 0;
    while i < n
        invariant
            i <= n,
            n == path@.len(),
            cut <= i,
        decreases n - i,
    {
        let c = path.get_char(i);
        if c == '/' || c == '\\' {
            cut = i + 1;
        }
        i = i + 1;
    }
    if cut >= n {
        "unknown"
    } else {
        path.substring_char(cut, n)
    }
}

/// Picks the process name and the address string off the command line; with
/// too few arguments the usage line comes back instead.
pub fn parse_args(args: &[String]) -> (r: Result<(&str, &str), String>)
    ensures
        args@.len() >= 3 ==> {
            &&& r is Ok
            &&& r->Ok_0.0@ == args@[1]@
            &&& r->Ok_0.1@ == args@[2]@
        },
        args@.len() < 3 ==> r is Err,
{
    if args.len() < 3 {
        let name: &str = if args.len() >= 1 {
            file_name_of(slice_index_get(args, 0).as_str())
        } else {
            "unknown"
        };
        let mut message = String::from_str("Usage: ");
        message.append(name);
        message.append(" <process_name> <address>\n");
        message.append("Example: ");
        message.append(name);
        message.append(" test-binary.exe 0x12345678");
        return Err(message);
    }
    let process_name = slice_index_get(args, 1).as_str();
    let address_text = slice_index_get(args, 2).as_str();
    Ok((process_name, address_text))
}

} // verus!
