use vstd::prelude::*;
use crate::text::{decimal, hex_value, hex_pair, hex_digit_value, push_char, push_decimal_usize, push_hex_pair, lemma_hex_char_value};

verus! {

/// Why a textual hardware address was rejected.
#[derive(PartialEq, Eq, Copy, Clone, Debug, Ord, PartialOrd, Hash, Structural)]
pub enum ParseError {
    /// The text has a byte length that no accepted format has; carries that length.
    InvalidLength(usize),
    /// A character that is neither a hexadecimal digit, a delimiter (`-`, `:`,
    /// `.`) nor an `x`; carries the character and its position (in
    /// characters). An `x` anywhere but in a leading `0x` makes the text
    /// malformed, which is reported as a length error.
    InvalidCharacter(char, usize),
}

/// The description of an error met reading an address of `n` bytes: a
/// wrong length names the two accepted lengths, that of the delimited form
/// and that of the `0x` form.
pub open spec fn address_error_text(n: nat, e: ParseError) -> Seq<char> {
    match e {
        ParseError::InvalidLength(found) => "Invalid length; expecting "@ + decimal((3 * n - 1) as nat) + " or "@
            + decimal(2 * n + 2) + " chars, found "@ + decimal(found as nat),
        ParseError::InvalidCharacter(found, pos) => "Invalid character; found `"@ + seq![found] + "` at offset "@ + decimal(
            pos as nat,
        ),
    }
}

/// The description of an error met reading a short (2-byte) address.
pub open spec fn parse_error_text(e: ParseError) -> Seq<char> {
    address_error_text(2, e)
}

impl ParseError {
    /// The description of the error met reading an address of `n` bytes.
    pub fn describe(&self, n: usize) -> (s: String)
        requires
            1 <= n <= 8,
        ensures
            s@ == address_error_text(n as nat, *self),
    {
        proof {
            reveal_strlit("Invalid length; expecting ");
            reveal_strlit(" or ");
            reveal_strlit(" chars, found ");
        }
        match self {
            ParseError::InvalidLength(found) => {
                let mut s = String::from_str("Invalid length; expecting ");
                push_decimal_usize(&mut s, 3 * n - 1);
                s.append(" or ");
                push_decimal_usize(&mut s, 2 * n + 2);
                s.append(" chars, found ");
                push_decimal_usize(&mut s, *found);
                s
            },
            ParseError::InvalidCharacter(found, pos) => {
                let mut s = String::from_str("Invalid character; found `");
                push_char(&mut s, *found);
                s.append("` at offset ");
                push_decimal_usize(&mut s, *pos);
                s
            },
        }
    }

    /// The description of the error, for a short address.
    pub fn to_string(&self) -> (s: String)
        ensures
            s@ == parse_error_text(*self),
    {
        self.describe(2)
    }
}

/// The state of the address scanner after some prefix of the text: how many
/// bytes are complete, whether the high nibble of the next byte was read,
/// and the byte buffer.
pub type ScanState = (nat, bool, Seq<u8>);

/// One step of the address scanner on the character `c` at position `idx`,
/// for an address of `n` bytes written in a text of `byte_len` bytes.
pub open spec fn scan_step(n: nat, st: ScanState, c: char, idx: nat, byte_len: nat) -> Result<ScanState, ParseError> {
    if st.0 >= n {
        Err(ParseError::InvalidLength(byte_len as usize))
    } else if hex_value(c) is Some {
        let d = hex_value(c)->Some_0;
        if !st.1 {
            Ok((st.0, true, st.2.update(st.0 as int, (d * 16) as u8)))
        } else {
            Ok(((st.0 + 1) as nat, false, st.2.update(st.0 as int, (st.2[st.0 as int] + d) as u8)))
        }
    } else if c == '-' || c == ':' || c == '.' {
        Ok(st)
    } else if (c == 'x' || c == 'X') && idx == 1 {
        Ok((0, false, st.2))
    } else if c == 'x' || c == 'X' {
        Err(ParseError::InvalidLength(byte_len as usize))
    } else {
        Err(ParseError::InvalidCharacter(c, idx as usize))
    }
}

/// The scanner's state after reading all of `s`, or the first error met.
pub open spec fn scan(n: nat, s: Seq<char>, byte_len: nat) -> Result<ScanState, ParseError>
    decreases s.len(),
{
    if s.len() == 0 {
        Ok((0, false, Seq::new(n, |i: int| 0u8)))
    } else {
        match scan(n, s.drop_last(), byte_len) {
            Err(e) => Err(e),
            Ok(st) => scan_step(n, st, s.last(), (s.len() - 1) as nat, byte_len),
        }
    }
}

/// A character that no address text may hold: not a hexadecimal digit, a
/// delimiter (`-`, `:`, `.`) nor an `x`.
pub open spec fn foreign_char(c: char) -> bool {
    &&& hex_value(c) is None
    &&& c != '-' && c != ':' && c != '.'
    &&& c != 'x' && c != 'X'
}

/// A character error names a character of the text, at its position, and
/// that character is foreign to addresses.
pub proof fn lemma_scan_names_foreign(n: nat, s: Seq<char>, byte_len: nat)
    requires
        s.len() <= usize::MAX,
    ensures
        scan(n, s, byte_len) matches Err(ParseError::InvalidCharacter(c, i)) ==> (i as int) < s.len()
            && s[i as int] == c && foreign_char(c),
    decreases s.len(),
{
    if s.len() > 0 {
        lemma_scan_names_foreign(n, s.drop_last(), byte_len);
        match scan(n, s.drop_last(), byte_len) {
            Err(ParseError::InvalidCharacter(c, i)) => {
                assert(s.drop_last()[i as int] == s[i as int]);
            },
            _ => {
                assert(s.last() == s[s.len() - 1]);
                assert(((s.len() - 1) as nat) as usize as int == s.len() - 1);
            },
        }
    }
}

/// A character error of an address names a character of the text, at its
/// position, that is foreign to addresses; it comes only for a text of an
/// accepted length. (The text's characters are counted in a `usize`.)
pub proof fn lemma_invalid_character_is_foreign(n: nat, s: Seq<char>, byte_len: nat)
    requires
        s.len() <= usize::MAX,
    ensures
        parse_address(n, s, byte_len) matches Err(ParseError::InvalidCharacter(c, i)) ==> accepted_length(
            n,
            byte_len,
        ) && (i as int) < s.len() && s[i as int] == c && foreign_char(c),
{
    lemma_scan_names_foreign(n, s, byte_len);
}

/// The byte lengths accepted for an address of `n` bytes: the delimited form
/// (`12:34`) and the `0x` form (`0x1234`).
pub open spec fn accepted_length(n: nat, byte_len: nat) -> bool {
    byte_len == 3 * n - 1 || byte_len == 2 * n + 2
}

/// The result of reading an `n`-byte hardware address from the characters
/// `s`, whose UTF-8 encoding is `byte_len` bytes long.
pub open spec fn parse_address(n: nat, s: Seq<char>, byte_len: nat) -> Result<Seq<u8>, ParseError> {
    if !accepted_length(n, byte_len) {
        Err(ParseError::InvalidLength(byte_len as usize))
    } else {
        match scan(n, s, byte_len) {
            Err(e) => Err(e),
            Ok(st) => if st.0 == n {
                Ok(st.2)
            } else {
                Err(ParseError::InvalidLength(byte_len as usize))
            },
        }
    }
}

/// The canonical text of an address: two lower-case hexadecimal digits per
/// byte, bytes separated by `:`.
pub open spec fn address_text(b: Seq<u8>) -> Seq<char>
    decreases b.len(),
{
    if b.len() == 0 {
        Seq::empty()
    } else if b.len() == 1 {
        hex_pair(b[0])
    } else {
        address_text(b.drop_last()) + seq![':'] + hex_pair(b.last())
    }
}

/// The view of a parse result with the bytes as a sequence.
pub open spec fn bytes_result(r: Result<Vec<u8>, ParseError>) -> Result<Seq<u8>, ParseError> {
    match r {
        Ok(v) => Ok(v@),
        Err(e) => Err(e),
    }
}

proof fn lemma_scan_error_persists(n: nat, s: Seq<char>, k: nat, byte_len: nat)
    requires
        k <= s.len(),
        scan(n, s.take(k as int), byte_len) is Err,
    ensures
        scan(n, s, byte_len) == scan(n, s.take(k as int), byte_len),
    decreases s.len() - k,
{
    if k < s.len() {
        let t = s.take(k as int + 1);
        assert(t.drop_last() =~= s.take(k as int));
        lemma_scan_error_persists(n, s, k + 1, byte_len);
    } else {
        assert(s.take(k as int) =~= s);
    }
}

/// Reads an `n`-byte hardware address (`n` between 1 and 8).
///
/// Accepted forms are `n` pairs of hexadecimal digits separated by one
/// delimiter each (`-`, `:` or `.`), and `0x` followed by `2n` hexadecimal
/// digits; the check is on the byte length first, then character by
/// character.
pub fn parse_hex_address(s: &str, n: usize) -> (res: Result<Vec<u8>, ParseError>)
    requires
        1 <= n <= 8,
    ensures
        bytes_result(res) == parse_address(n as nat, s@, s.len() as nat),
        res matches Ok(v) ==> v.len() == n,
{
    let byte_len = s.len();
    if !(byte_len == 3 * n - 1 || byte_len == 2 * n + 2) {
        return Err(ParseError::InvalidLength(byte_len));
    }
    let ghost bl = byte_len as nat;
    let count = s.unicode_len();
    let mut bytes: Vec<u8> = vec![0u8; n];
    let mut offset: usize = 0;
    let mut high: bool = false;
    let mut i: usize = 0;
    assert(s@.take(0) =~= Seq::<char>::empty());
    assert(bytes@ =~= Seq::new(n as nat, |i: int| 0u8));
    while i < count
        invariant
            count == s@.len(),
            1 <= n <= 8,
            bl == s.len() as nat,
            byte_len == bl,
            accepted_length(n as nat, bl),
            i <= count,
            bytes.len() == n,
            offset <= n,
            high ==> offset < n && bytes@[offset as int] <= 240,
            scan(n as nat, s@.take(i as int), bl) == Ok::<ScanState, ParseError>((offset as nat, high, bytes@)),
        decreases count - i,
    {
        let c = s.get_char(i);
        let ghost prev = s@.take(i as int);
        assert(s@.take(i as int + 1).drop_last() =~= prev);
        assert(s@.take(i as int + 1).last() == c);
        if offset >= n {
            proof {
                lemma_scan_error_persists(n as nat, s@, (i + 1) as nat, bl);
            }
            return Err(ParseError::InvalidLength(byte_len));
        }
        match hex_digit_value(c) {
            Some(d) => {
                if !high {
                    high = true;
                    bytes.set(offset, d * 16);
                } else {
                    high = false;
                    let cur = bytes[offset];
                    bytes.set(offset, cur + d);
                    offset = offset + 1;
                }
            },
            None => {
                if c == '-' || c == ':' || c == '.' {
                } else if (c == 'x' || c == 'X') && i == 1 {
                    offset = 0;
                    high = false;
                } else if c == 'x' || c == 'X' {
                    proof {
                        lemma_scan_error_persists(n as nat, s@, (i + 1) as nat, bl);
                    }
                    return Err(ParseError::InvalidLength(byte_len));
                } else {
                    proof {
                        assert(scan(n as nat, s@.take(i as int + 1), bl) == Err::<ScanState, ParseError>(ParseError::InvalidCharacter(c, i)));
                        lemma_scan_error_persists(n as nat, s@, (i + 1) as nat, bl);
                        assert(scan(n as nat, s@, bl) == Err::<ScanState, ParseError>(ParseError::InvalidCharacter(c, i)));
                    }
                    return Err(ParseError::InvalidCharacter(c, i));
                }
            },
        }
        i = i + 1;
    }
    assert(s@.take(count as int) =~= s@);
    if offset == n {
        Ok(bytes)
    } else {
        Err(ParseError::InvalidLength(byte_len))
    }
}

} // verus!

verus! {

/// An address whose bytes are `b` followed by `n - |b|` zeros.
pub open spec fn padded(b: Seq<u8>, n: nat) -> Seq<u8> {
    b + Seq::new((n - b.len()) as nat, |i: int| 0u8)
}

proof fn lemma_scan_address_text(n: nat, b: Seq<u8>, k: nat, byte_len: nat)
    requires
        1 <= k <= b.len(),
        b.len() == n,
    ensures
        scan(n, address_text(b.take(k as int)), byte_len) == Ok::<ScanState, ParseError>((k, false, padded(b.take(k as int), n))),
    decreases k,
{
    let d1 = (b[k - 1] / 16) as nat;
    let d2 = (b[k - 1] % 16) as nat;
    lemma_hex_char_value(d1);
    lemma_hex_char_value(d2);
    let pair = hex_pair(b[k - 1]);
    if k == 1 {
        let t = address_text(b.take(1));
        assert(t == pair);
        assert(t.drop_last() =~= seq![pair[0]]);
        assert(t.drop_last().drop_last() =~= Seq::<char>::empty());
        let z = Seq::new(n, |i: int| 0u8);
        assert(scan(n, t.drop_last(), byte_len) == Ok::<ScanState, ParseError>((0, true, z.update(0, (d1 * 16) as u8))));
        assert(z.update(0, (d1 * 16) as u8).update(0, ((d1 * 16) + d2) as u8) =~= padded(b.take(1), n));
    } else {
        let prev = b.take(k as int - 1);
        assert(b.take(k as int).drop_last() =~= prev);
        assert(b.take(k as int).last() == b[k - 1]);
        lemma_scan_address_text(n, b, (k - 1) as nat, byte_len);
        let tp = address_text(prev);
        let t = address_text(b.take(k as int));
        assert(t == tp + seq![':'] + pair);
        assert(t.drop_last() =~= tp + seq![':', pair[0]]);
        assert(t.drop_last().drop_last() =~= tp + seq![':']);
        assert(t.drop_last().drop_last().drop_last() =~= tp);
        let buf = padded(prev, n);
        assert(scan(n, t.drop_last().drop_last(), byte_len) == Ok::<ScanState, ParseError>(((k - 1) as nat, false, buf)));
        assert(scan(n, t.drop_last(), byte_len) == Ok::<ScanState, ParseError>(((k - 1) as nat, true, buf.update(k - 1, (d1 * 16) as u8))));
        assert(buf.update(k - 1, (d1 * 16) as u8).update(k - 1, ((d1 * 16) + d2) as u8) =~= padded(b.take(k as int), n));
    }
}

proof fn lemma_address_text_len(b: Seq<u8>)
    requires
        b.len() >= 1,
    ensures
        address_text(b).len() == 3 * b.len() - 1,
        vstd::utf8::is_ascii_chars(address_text(b)),
    decreases b.len(),
{
    let d1 = (b.last() / 16) as nat;
    let d2 = (b.last() % 16) as nat;
    lemma_hex_char_value(d1);
    lemma_hex_char_value(d2);
    if b.len() > 1 {
        lemma_address_text_len(b.drop_last());
        let t = address_text(b);
        let tp = address_text(b.drop_last());
        assert forall|i: int| 0 <= i < t.len() implies '\0' <= #[trigger] t[i] <= '\u{7f}' by {
            if i < tp.len() {
                assert(t[i] == tp[i]);
            }
        }
    }
}

/// Reading back the canonical text of an address of `n` bytes gives the
/// same bytes.
pub proof fn lemma_parse_address_text(b: Seq<u8>)
    requires
        1 <= b.len() <= 8,
    ensures
        vstd::utf8::encode_utf8(address_text(b)).len() == 3 * b.len() - 1,
        parse_address(b.len(), address_text(b), (3 * b.len() - 1) as nat) == Ok::<Seq<u8>, ParseError>(b),
{
    lemma_address_text_len(b);
    vstd::utf8::is_ascii_chars_encode_utf8(address_text(b));
    lemma_scan_address_text(b.len(), b, b.len(), (3 * b.len() - 1) as nat);
    assert(b.take(b.len() as int) =~= b);
    assert(padded(b, b.len()) =~= b);
}

/// Writes the canonical text of an address.
pub fn write_address_text(bytes: &[u8]) -> (s: String)
    ensures
        s@ == address_text(bytes@),
{
    let mut out = String::new();
    let n = bytes.len();
    if n == 0 {
        return out;
    }
    push_hex_pair(&mut out, bytes[0]);
    let mut i: usize = 1;
    assert(bytes@.take(1).drop_last() =~= Seq::<u8>::empty());
    while i < n
        invariant
            n == bytes@.len(),
            1 <= i <= n,
            out@ == address_text(bytes@.take(i as int)),
        decreases n - i,
    {
        let sep = ":";
        proof {
            reveal_strlit(":");
        }
        out.append(sep);
        push_hex_pair(&mut out, bytes[i]);
        assert(bytes@.take(i as int + 1).drop_last() =~= bytes@.take(i as int));
        i = i + 1;
    }
    assert(bytes@.take(n as int) =~= bytes@);
    out
}

} // verus!

verus! {

/// The 2-byte short address that a location tag reports itself by.
#[derive(Copy, Clone, PartialEq, Eq, Hash, PartialOrd, Ord, Debug)]
pub struct ShortAddress {
    pub addr: [u8; 2],
}

/// The value stored for a short address in a signed 16-bit database
/// column: the first byte is the low byte.
pub open spec fn pg_value(addr: Seq<u8>) -> u16 {
    (addr[0] + 256 * addr[1]) as u16
}

impl ShortAddress {
    pub fn new(bytes: [u8; 2]) -> (r: Self)
        ensures
            r.addr == bytes,
    {
        ShortAddress { addr: bytes }
    }

    /// The all-zero address.
    pub fn nil() -> (r: Self)
        ensures
            r.addr@ == seq![0u8, 0u8],
    {
        let r = ShortAddress { addr: [0u8; 2] };
        assert(r.addr@ =~= seq![0u8, 0u8]);
        r
    }

    /// The canonical text, `hh:hh` in lower-case hexadecimal.
    pub fn to_string(&self) -> (s: String)
        ensures
            s@ == address_text(self.addr@),
    {
        write_address_text(&self.addr)
    }

    /// Takes exactly two bytes.
    pub fn from_bytes(bytes: &[u8]) -> (r: Result<Self, ()>)
        ensures
            r is Ok <==> bytes@.len() == 2,
            r matches Ok(a) ==> a.addr@ == bytes@,
    {
        if bytes.len() != 2 {
            return Err(());
        }
        let r = ShortAddress { addr: [bytes[0], bytes[1]] };
        assert(r.addr@ =~= bytes@);
        Ok(r)
    }

    pub fn as_bytes(&self) -> (r: &[u8])
        ensures
            r@ == self.addr@,
    {
        self.addr.as_slice()
    }

    /// The address as a signed 16-bit database value; the first byte is the
    /// low byte.
    pub fn as_pg(&self) -> (r: i16)
        ensures
            r as u16 == pg_value(self.addr@),
    {
        let lo = self.addr[0];
        let hi = self.addr[1];
        let v: u16 = (hi as u16) * 256 + (lo as u16);
        let r = v as i16;
        assert(r as u16 == v) by (bit_vector)
            requires
                r == v as i16,
        ;
        r
    }

    /// The address stored as a signed 16-bit database value.
    pub fn from_pg(v: i16) -> (r: ShortAddress)
        ensures
            pg_value(r.addr@) == v as u16,
    {
        let u = v as u16;
        let lo = (u % 256) as u8;
        let hi = (u / 256) as u8;
        let r = ShortAddress { addr: [lo, hi] };
        assert(r.addr@[0] == lo && r.addr@[1] == hi);
        r
    }

    pub fn to_array(&self) -> (r: [u8; 2])
        ensures
            r == self.addr,
    {
        self.addr
    }

    /// Reads a short address: two hexadecimal byte pairs with one delimiter
    /// (`-`, `:` or `.`) in between, as in `12:ab`, or `0x` and four digits,
    /// as in `0x12ab`.
    pub fn parse_str(s: &str) -> (res: Result<ShortAddress, ParseError>)
        ensures
            match parse_address(2, s@, s.len() as nat) {
                Ok(b) => res matches Ok(a) && a.addr@ == b,
                Err(e) => res == Err::<ShortAddress, ParseError>(e),
            },
            res matches Err(ParseError::InvalidCharacter(c, i)) ==> (s.len() == 5 || s.len() == 6) && (i as int)
                < s@.len() && s@[i as int] == c && foreign_char(c),
    {
        let chars = s.unicode_len();
        proof {
            assert(s@.len() == chars as nat);
            lemma_invalid_character_is_foreign(2, s@, s.len() as nat);
        }
        match parse_hex_address(s, 2) {
            Ok(v) => {
                let r = ShortAddress { addr: [v[0], v[1]] };
                assert(r.addr@ =~= v@);
                Ok(r)
            },
            Err(e) => Err(e),
        }
    }
}

impl std::str::FromStr for ShortAddress {
    type Err = ParseError;

    fn from_str(s: &str) -> (res: Result<ShortAddress, ParseError>)
        ensures
            match parse_address(2, s@, s.len() as nat) {
                Ok(b) => res matches Ok(a) && a.addr@ == b,
                Err(e) => res == Err::<ShortAddress, ParseError>(e),
            },
    {
        ShortAddress::parse_str(s)
    }
}

impl Default for ShortAddress {
    fn default() -> (r: ShortAddress)
        ensures
            r.addr@ == seq![0u8, 0u8],
    {
        ShortAddress::nil()
    }
}

/// Reading back the text of a short address gives the same address.
pub proof fn lemma_short_address_text_roundtrip(a: ShortAddress)
    ensures
        vstd::utf8::encode_utf8(address_text(a.addr@)).len() == 5,
        parse_address(2, address_text(a.addr@), 5) == Ok::<Seq<u8>, ParseError>(a.addr@),
{
    lemma_parse_address_text(a.addr@);
}

/// Storing a short address in the database and reading it back gives the
/// same address, and the other way round.
pub proof fn lemma_pg_roundtrip(a: Seq<u8>, v: u16)
    requires
        a.len() == 2,
    ensures
        pg_value(seq![(pg_value(a) % 256) as u8, (pg_value(a) / 256) as u8]) == pg_value(a),
        (pg_value(a) % 256) as u8 == a[0] && (pg_value(a) / 256) as u8 == a[1],
        pg_value(seq![(v % 256) as u8, (v / 256) as u8]) == v,
{
}

/// The 8-byte hardware address of a beacon.
#[derive(Copy, Clone, PartialEq, Eq, Hash, PartialOrd, Ord, Debug)]
pub struct MacAddress8 {
    pub eui: [u8; 8],
}

/// The bytes of an address read as a big-endian number; the beacon manager
/// keys its tables by this number.
pub open spec fn big_endian(b: Seq<u8>) -> nat
    decreases b.len(),
{
    if b.len() == 0 {
        0
    } else {
        (big_endian(b.drop_last()) * 256 + b.last()) as nat
    }
}

/// A beacon address read as a big-endian number.
pub open spec fn mac_key(m: MacAddress8) -> u64 {
    big_endian(m.eui@) as u64
}

proof fn lemma_big_endian_bound(b: Seq<u8>)
    ensures
        big_endian(b) < pow256(b.len()),
    decreases b.len(),
{
    if b.len() > 0 {
        lemma_big_endian_bound(b.drop_last());
        let p = pow256((b.len() - 1) as nat);
        let x = big_endian(b.drop_last());
        assert(x * 256 + b.last() < p * 256) by (nonlinear_arith)
            requires
                x < p,
                b.last() < 256,
        ;
    }
}

/// 256 to the power `k`.
pub open spec fn pow256(k: nat) -> nat
    decreases k,
{
    if k == 0 {
        1
    } else {
        256 * pow256((k - 1) as nat)
    }
}

impl MacAddress8 {
    pub fn new(eui: [u8; 8]) -> (r: Self)
        ensures
            r.eui == eui,
    {
        MacAddress8 { eui }
    }

    /// The all-zero address.
    pub fn nil() -> (r: Self)
        ensures
            forall|i: int| 0 <= i < 8 ==> r.eui@[i] == 0,
    {
        MacAddress8 { eui: [0u8; 8] }
    }

    /// The canonical text, eight lower-case hexadecimal byte pairs separated
    /// by `:`.
    pub fn to_hex_string(&self) -> (s: String)
        ensures
            s@ == address_text(self.eui@),
    {
        write_address_text(&self.eui)
    }

    pub fn as_bytes(&self) -> (r: &[u8])
        ensures
            r@ == self.eui@,
    {
        self.eui.as_slice()
    }

    /// The address read as a big-endian number.
    pub fn key(&self) -> (k: u64)
        ensures
            k == mac_key(*self),
            k == big_endian(self.eui@),
    {
        let mut k: u64 = 0;
        let mut i: usize = 0;
        while i < 8
            invariant
                i <= 8,
                k == big_endian(self.eui@.take(i as int)),
            decreases 8 - i,
        {
            proof {
                lemma_big_endian_bound(self.eui@.take(i as int + 1));
                assert(self.eui@.take(i as int + 1).drop_last() =~= self.eui@.take(i as int));
                assert(pow256((i + 1) as nat) <= pow256(8)) by {
                    lemma_pow256_mono((i + 1) as nat, 8);
                }
                assert(pow256(8) == 0x1_0000_0000_0000_0000) by {
                    reveal_with_fuel(pow256, 9);
                }
                assert(big_endian(self.eui@.take(i as int + 1)) == k * 256 + self.eui@[i as int]);
            }
            k = k * 256 + self.eui[i] as u64;
            i = i + 1;
        }
        assert(self.eui@.take(8) =~= self.eui@);
        k
    }

    /// Reads an address: eight hexadecimal byte pairs separated by one
    /// delimiter each (`-`, `:` or `.`), or `0x` and sixteen digits.
    pub fn parse_str(s: &str) -> (res: Result<MacAddress8, ParseError>)
        ensures
            match parse_address(8, s@, s.len() as nat) {
                Ok(b) => res matches Ok(a) && a.eui@ == b,
                Err(e) => res == Err::<MacAddress8, ParseError>(e),
            },
    {
        match parse_hex_address(s, 8) {
            Ok(v) => {
                let r = MacAddress8 { eui: [v[0], v[1], v[2], v[3], v[4], v[5], v[6], v[7]] };
                assert(r.eui@ =~= v@);
                Ok(r)
            },
            Err(e) => Err(e),
        }
    }
}

proof fn lemma_pow256_mono(a: nat, b: nat)
    requires
        a <= b,
    ensures
        pow256(a) <= pow256(b),
    decreases b,
{
    if a < b {
        lemma_pow256_mono(a, (b - 1) as nat);
    }
}

/// Reading back the text of a beacon address gives the same address.
pub proof fn lemma_mac_text_roundtrip(m: MacAddress8)
    ensures
        vstd::utf8::encode_utf8(address_text(m.eui@)).len() == 23,
        parse_address(8, address_text(m.eui@), 23) == Ok::<Seq<u8>, ParseError>(m.eui@),
{
    lemma_parse_address_text(m.eui@);
}

} // verus!
