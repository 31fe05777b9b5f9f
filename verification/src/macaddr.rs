//! Link-layer MAC address primitives: a six-byte address value, conversions
//! from slices and bytes, the broadcast address, and colon-separated
//! hexadecimal parsing and formatting.

use vstd::prelude::*;
use vstd::string::StringExecFns;
use vstd::string::StringSliceAdditionalSpecFns;

verus! {

/// Whether `c` is the ASCII code of a hexadecimal digit.
pub open spec fn is_hex_digit(c: u8) -> bool {
    (48 <= c <= 57)  // '0' ..= '9'
    || (97 <= c <= 102)  // 'a' ..= 'f'
    || (65 <= c <= 70)  // 'A' ..= 'F'
}

/// The numeric value of the hexadecimal digit with ASCII code `c`.
pub open spec fn hex_digit_value(c: u8) -> u8
    recommends
        is_hex_digit(c),
{
    if c <= 57 {
        (c - 48) as u8
    } else if c >= 97 {
        (c - 87) as u8
    } else {
        (c - 55) as u8
    }
}

/// The digit run of one address group: the group's bytes with an optional
/// single leading plus sign removed.
pub open spec fn group_digits(t: Seq<u8>) -> Seq<u8> {
    if t.len() > 0 && t[0] == 43 {  // '+'
        t.drop_first()
    } else {
        t
    }
}

/// The numeric value of a run of hexadecimal digits, most significant first,
/// unbounded.
pub open spec fn hex_run_value(d: Seq<u8>) -> nat
    decreases d.len(),
{
    if d.len() == 0 {
        0
    } else {
        16 * hex_run_value(d.drop_last()) + (hex_digit_value(d.last()) as nat)
    }
}

/// Whether the bytes `t` form one address group: an optional leading plus
/// sign, then one or more hexadecimal digits of either case whose value fits
/// in a byte.
pub open spec fn is_valid_group(t: Seq<u8>) -> bool {
    &&& group_digits(t).len() >= 1
    &&& forall|i: int|
        0 <= i < group_digits(t).len() ==> is_hex_digit(#[trigger] group_digits(t)[i])
    &&& hex_run_value(group_digits(t)) < 256
}

/// The byte denoted by a valid address group.
pub open spec fn group_value(t: Seq<u8>) -> u8
    recommends
        is_valid_group(t),
{
    hex_run_value(group_digits(t)) as u8
}

/// `s` split at every colon, scanned front to back: `done` holds the runs
/// already completed and `current` the run being read. Empty runs count, so
/// the result holds one more run than `s` has colons.
pub open spec fn split_colons_from(s: Seq<u8>, done: Seq<Seq<u8>>, current: Seq<u8>) -> Seq<
    Seq<u8>,
>
    decreases s.len(),
{
    if s.len() == 0 {
        done.push(current)
    } else if s[0] == 58 {  // ':'
        split_colons_from(s.drop_first(), done.push(current), Seq::empty())
    } else {
        split_colons_from(s.drop_first(), done, current.push(s[0]))
    }
}

/// The colon-free runs of `s`, in order: what `s` splits into at its colons.
pub open spec fn split_colons(s: Seq<u8>) -> Seq<Seq<u8>> {
    split_colons_from(s, Seq::empty(), Seq::empty())
}

/// Whether the bytes `s` form a MAC address: six colon-separated groups, each
/// an optional plus sign followed by one or more hexadecimal digits of either
/// case whose value fits in a byte.
pub open spec fn is_valid_mac_str(s: Seq<u8>) -> bool {
    &&& split_colons(s).len() == 6
    &&& forall|g: int| 0 <= g < 6 ==> is_valid_group(#[trigger] split_colons(s)[g])
}

/// The six address bytes denoted by a valid MAC address string.
pub open spec fn mac_of_str(s: Seq<u8>) -> Seq<u8>
    recommends
        is_valid_mac_str(s),
{
    split_colons(s).map_values(|t: Seq<u8>| group_value(t))
}

/// The character denoting the hexadecimal digit of value `v`.
pub open spec fn hex_char(v: u8) -> char
    recommends
        v < 16,
{
    if v == 0 {
        '0'
    } else if v == 1 {
        '1'
    } else if v == 2 {
        '2'
    } else if v == 3 {
        '3'
    } else if v == 4 {
        '4'
    } else if v == 5 {
        '5'
    } else if v == 6 {
        '6'
    } else if v == 7 {
        '7'
    } else if v == 8 {
        '8'
    } else if v == 9 {
        '9'
    } else if v == 10 {
        'a'
    } else if v == 11 {
        'b'
    } else if v == 12 {
        'c'
    } else if v == 13 {
        'd'
    } else if v == 14 {
        'e'
    } else {
        'f'
    }
}

/// The colon-separated lower-case hexadecimal rendering of six address bytes.
pub open spec fn mac_str_seq(b: Seq<u8>) -> Seq<char>
    recommends
        b.len() == 6,
{
    seq![
        hex_char((b[0] / 16) as u8),
        hex_char((b[0] % 16) as u8),
        ':',
        hex_char((b[1] / 16) as u8),
        hex_char((b[1] % 16) as u8),
        ':',
        hex_char((b[2] / 16) as u8),
        hex_char((b[2] % 16) as u8),
        ':',
        hex_char((b[3] / 16) as u8),
        hex_char((b[3] % 16) as u8),
        ':',
        hex_char((b[4] / 16) as u8),
        hex_char((b[4] % 16) as u8),
        ':',
        hex_char((b[5] / 16) as u8),
        hex_char((b[5] % 16) as u8),
    ]
}

/// Decodes one ASCII hexadecimal digit; fails iff `c` is not such a digit.
fn hex_val(c: u8) -> (r: Option<u8>)
    ensures
        r is Some <==> is_hex_digit(c),
        is_hex_digit(c) ==> r == Some(hex_digit_value(c)),
{
    if 48 <= c && c <= 57 {
        Some(c - 48)
    } else if 97 <= c && c <= 102 {
        Some(c - 87)
    } else if 65 <= c && c <= 70 {
        Some(c - 55)
    } else {
        None
    }
}

/// The one-character string denoting the hexadecimal digit of value `v`.
fn hex_str(v: u8) -> (r: &'static str)
    requires
        v < 16,
    ensures
        r@ == seq![hex_char(v)],
{
    match v {
        0 => {
            proof {
                reveal_strlit("0");
                assert("0"@ =~= seq![hex_char(v)]);
            }
            "0"
        },
        1 => {
            proof {
                reveal_strlit("1");
                assert("1"@ =~= seq![hex_char(v)]);
            }
            "1"
        },
        2 => {
            proof {
                reveal_strlit("2");
                assert("2"@ =~= seq![hex_char(v)]);
            }
            "2"
        },
        3 => {
            proof {
                reveal_strlit("3");
                assert("3"@ =~= seq![hex_char(v)]);
            }
            "3"
        },
        4 => {
            proof {
                reveal_strlit("4");
                assert("4"@ =~= seq![hex_char(v)]);
            }
            "4"
        },
        5 => {
            proof {
                reveal_strlit("5");
                assert("5"@ =~= seq![hex_char(v)]);
            }
            "5"
        },
        6 => {
            proof {
                reveal_strlit("6");
                assert("6"@ =~= seq![hex_char(v)]);
            }
            "6"
        },
        7 => {
            proof {
                reveal_strlit("7");
                assert("7"@ =~= seq![hex_char(v)]);
            }
            "7"
        },
        8 => {
            proof {
                reveal_strlit("8");
                assert("8"@ =~= seq![hex_char(v)]);
            }
            "8"
        },
        9 => {
            proof {
                reveal_strlit("9");
                assert("9"@ =~= seq![hex_char(v)]);
            }
            "9"
        },
        10 => {
            proof {
                reveal_strlit("a");
                assert("a"@ =~= seq![hex_char(v)]);
            }
            "a"
        },
        11 => {
            proof {
                reveal_strlit("b");
                assert("b"@ =~= seq![hex_char(v)]);
            }
            "b"
        },
        12 => {
            proof {
                reveal_strlit("c");
                assert("c"@ =~= seq![hex_char(v)]);
            }
            "c"
        },
        13 => {
            proof {
                reveal_strlit("d");
                assert("d"@ =~= seq![hex_char(v)]);
            }
            "d"
        },
        14 => {
            proof {
                reveal_strlit("e");
                assert("e"@ =~= seq![hex_char(v)]);
            }
            "e"
        },
        _ => {
            proof {
                reveal_strlit("f");
                assert("f"@ =~= seq![hex_char(v)]);
            }
            "f"
        },
    }
}

/// Error returned when constructing a `MacAddr` from a slice that is not six
/// bytes long.
#[derive(Debug, Eq, PartialEq)]
pub struct MacAddrLengthError;

impl MacAddrLengthError {
    /// A short statement of what went wrong.
    pub fn description(&self) -> (r: &'static str)
        ensures
            r@ == "Given data not six bytes long"@,
    {
        proof {
            reveal_strlit("Given data not six bytes long");
        }
        "Given data not six bytes long"
    }
}

/// Error returned when parsing a MAC address from a malformed string; carries
/// the rejected input.
#[derive(Debug, Eq, PartialEq)]
pub struct MacAddrParseError(pub String);

impl MacAddrParseError {
    /// A short statement of what went wrong.
    pub fn description(&self) -> (r: &'static str)
        ensures
            r@ == "Invalid MAC address string"@,
    {
        proof {
            reveal_strlit("Invalid MAC address string");
        }
        "Invalid MAC address string"
    }

    /// The full error message: a fixed prefix followed by the rejected input.
    pub fn message(&self) -> (r: String)
        ensures
            r@ == "Invalid MAC string: "@ + self.0@,
    {
        proof {
            reveal_strlit("Invalid MAC string: ");
        }
        let mut s = "Invalid MAC string: ".to_owned();
        s.append(self.0.as_str());
        s
    }
}

/// A MAC address. Six bytes representing a link layer network address.
#[derive(Debug, Copy, Clone, Eq, Hash)]
pub struct MacAddr(pub [u8; 6]);

impl View for MacAddr {
    type V = Seq<u8>;

    open spec fn view(&self) -> Seq<u8> {
        self.0@
    }
}

impl Default for MacAddr {
    /// The all-zero address.
    fn default() -> (r: MacAddr)
        ensures
            r@ == seq![0u8, 0u8, 0u8, 0u8, 0u8, 0u8],
    {
        let mac = MacAddr([0, 0, 0, 0, 0, 0]);
        proof {
            assert(mac@ =~= seq![0u8, 0u8, 0u8, 0u8, 0u8, 0u8]);
        }
        mac
    }
}

impl PartialEq for MacAddr {
    fn eq(&self, other: &MacAddr) -> (r: bool) {
        let r = self.0[0] == other.0[0] && self.0[1] == other.0[1] && self.0[2] == other.0[2]
            && self.0[3] == other.0[3] && self.0[4] == other.0[4] && self.0[5] == other.0[5];
        proof {
            if r {
                assert(self.0@ =~= other.0@);
            }
        }
        r
    }
}

impl vstd::std_specs::cmp::PartialEqSpecImpl for MacAddr {
    open spec fn obeys_eq_spec() -> bool {
        true
    }

    open spec fn eq_spec(&self, other: &MacAddr) -> bool {
        self.0@ == other.0@
    }
}

impl From<[u8; 6]> for MacAddr {
    fn from(data: [u8; 6]) -> (r: Self) {
        MacAddr(data)
    }
}

impl vstd::std_specs::convert::FromSpecImpl<[u8; 6]> for MacAddr {
    open spec fn obeys_from_spec() -> bool {
        true
    }

    open spec fn from_spec(data: [u8; 6]) -> MacAddr {
        MacAddr(data)
    }
}

/// The view of the broadcast MAC address: all bits set.
pub open spec fn broadcast_mac_seq() -> Seq<u8> {
    seq![0xffu8, 0xffu8, 0xffu8, 0xffu8, 0xffu8, 0xffu8]
}

impl MacAddr {
    /// Constructs a `MacAddr` from a slice of bytes.
    /// Fails iff the given slice is not 6 bytes long.
    pub fn try_from_slice(slice: &[u8]) -> (r: Result<MacAddr, MacAddrLengthError>)
        ensures
            slice@.len() == 6 ==> (r matches Ok(m) && m@ == slice@),
            slice@.len() != 6 ==> r == Err::<MacAddr, MacAddrLengthError>(MacAddrLengthError),
    {
        if slice.len() == 6 {
            Ok(Self::from_slice(slice))
        } else {
            Err(MacAddrLengthError)
        }
    }

    /// Constructs a `MacAddr` from a slice of bytes, which must be 6 bytes
    /// long.
    pub fn from_slice(slice: &[u8]) -> (r: MacAddr)
        requires
            slice@.len() == 6,
        ensures
            r@ == slice@,
    {
        let mac = MacAddr([slice[0], slice[1], slice[2], slice[3], slice[4], slice[5]]);
        proof {
            assert(mac@ =~= slice@);
        }
        mac
    }

    /// Constructs a `MacAddr` from six individual bytes.
    pub fn from_bytes(b0: u8, b1: u8, b2: u8, b3: u8, b4: u8, b5: u8) -> (r: MacAddr)
        ensures
            r@ == seq![b0, b1, b2, b3, b4, b5],
    {
        let mac = MacAddr([b0, b1, b2, b3, b4, b5]);
        proof {
            assert(mac@ =~= seq![b0, b1, b2, b3, b4, b5]);
        }
        mac
    }

    /// Creates a `MacAddr` with the broadcast address consisting of all one
    /// bits.
    pub fn broadcast() -> (r: MacAddr)
        ensures
            r@ == broadcast_mac_seq(),
    {
        let mac = MacAddr([0xff, 0xff, 0xff, 0xff, 0xff, 0xff]);
        proof {
            assert(mac@ =~= broadcast_mac_seq());
        }
        mac
    }

    /// The address bytes as a slice.
    pub fn as_ref(&self) -> (r: &[u8])
        ensures
            r@ == self@,
    {
        self.0.as_slice()
    }

    /// Parses a MAC address written as six groups separated by colons, each
    /// group an optional plus sign followed by one or more hexadecimal digits
    /// of either case whose value fits in a byte, such as `01:23:45:67:89:ab`
    /// or `1:2:3:4:5:6`. Fails iff the string has any other shape, returning
    /// the rejected input.
    pub fn from_str(s: &str) -> (r: Result<MacAddr, MacAddrParseError>)
        ensures
            is_valid_mac_str(s.spec_bytes()) ==> (r matches Ok(m) && m@ == mac_of_str(
                s.spec_bytes(),
            )),
            !is_valid_mac_str(s.spec_bytes()) ==> (r matches Err(e) && e.0@ == s@),
    {
        let bytes = s.as_bytes();
        let n = bytes.len();
        let mut octets: [u8; 6] = [0, 0, 0, 0, 0, 0];
        let mut g: usize = 0;  // completed groups
        let mut all_valid: bool = true;  // every completed group was valid
        // state of the group being read
        let mut tok_len: usize = 0;  // bytes of the group so far
        let mut tok_ok: bool = true;  // its digit run is all hexadecimal
        let mut tok_digits: bool = false;  // its digit run is nonempty
        let mut tok_big: bool = false;  // its digit run has outgrown a byte
        let mut tok_val: u16 = 0;  // its digit run's value, while it fits
        let ghost mut done: Seq<Seq<u8>> = Seq::empty();
        let ghost mut cur: Seq<u8> = Seq::empty();
        let mut i: usize = 0;
        proof {
            assert(bytes@.skip(0) =~= bytes@);
        }
        while i < n
            invariant
                bytes@ == s.spec_bytes(),
                n == bytes@.len(),
                0 <= i <= n,
                split_colons_from(bytes@.skip(i as int), done, cur) == split_colons(bytes@),
                done.len() == g,
                g <= i,
                tok_len == cur.len(),
                tok_len <= i,
                tok_ok == (forall|k: int|
                    0 <= k < group_digits(cur).len() ==> is_hex_digit(
                        #[trigger] group_digits(cur)[k],
                    )),
                tok_digits == (group_digits(cur).len() >= 1),
                tok_ok ==> tok_big == (hex_run_value(group_digits(cur)) >= 256),
                (tok_ok && !tok_big) ==> tok_val == hex_run_value(group_digits(cur)),
                all_valid == (forall|k: int| 0 <= k < g ==> is_valid_group(#[trigger] done[k])),
                forall|k: int|
                    0 <= k < g && k < 6 && is_valid_group(#[trigger] done[k]) ==> octets@[k]
                        == group_value(done[k]),
            decreases n - i,
        {
            let c = bytes[i];
            proof {
                assert(bytes@.skip(i as int).drop_first() =~= bytes@.skip(i as int + 1));
                assert(bytes@.skip(i as int)[0] == c);
            }
            if c == 58 {  // ':' completes the group being read
                let valid = tok_ok && tok_digits && !tok_big;
                if valid && g < 6 {
                    octets[g] = tok_val as u8;
                }
                proof {
                    assert(is_valid_group(cur) == valid);
                    if valid && g < 6 {
                        assert(octets@[g as int] == group_value(cur));
                    }
                    let done2 = done.push(cur);
                    assert forall|k: int| 0 <= k < done2.len() implies #[trigger] done2[k] == (
                        if k < done.len() {
                            done[k]
                        } else {
                            cur
                        }
                    ) by {}
                    assert((all_valid && valid) == (forall|k: int|
                        0 <= k < done2.len() ==> is_valid_group(#[trigger] done2[k]))) by {
                        if all_valid && valid {
                            assert forall|k: int|
                                0 <= k < done2.len() implies is_valid_group(
                                #[trigger] done2[k],
                            ) by {
                                if k < done.len() {
                                    assert(done2[k] == done[k]);
                                } else {
                                    assert(done2[k] == cur);
                                }
                            }
                        } else if !all_valid {
                            let k0 = choose|k: int|
                                0 <= k < done.len() && !is_valid_group(#[trigger] done[k]);
                            assert(done2[k0] == done[k0]);
                            assert(!is_valid_group(done2[k0]));
                        } else {
                            assert(done2[done.len() as int] == cur);
                            assert(!is_valid_group(cur));
                        }
                    }
                    done = done2;
                    cur = Seq::empty();
                    assert(group_digits(cur) =~= Seq::<u8>::empty());
                }
                all_valid = all_valid && valid;
                g += 1;
                tok_len = 0;
                tok_ok = true;
                tok_digits = false;
                tok_big = false;
                tok_val = 0;
            } else {
                if !(c == 43 && tok_len == 0) {  // not a leading '+': part of the digit run
                    match hex_val(c) {
                        Some(d) => {
                            if tok_ok && !tok_big {
                                let new_val = tok_val * 16 + d as u16;
                                if new_val >= 256 {
                                    tok_big = true;
                                }
                                tok_val = new_val;
                            }
                        },
                        None => {
                            tok_ok = false;
                        },
                    }
                    tok_digits = true;
                }
                tok_len += 1;
                proof {
                    let cur2 = cur.push(c);
                    if cur.len() == 0 && c == 43 {
                        assert(group_digits(cur2) =~= Seq::<u8>::empty());
                    } else {
                        assert(group_digits(cur2) =~= group_digits(cur).push(c));
                        assert(group_digits(cur2).drop_last() =~= group_digits(cur));
                        assert(group_digits(cur2).last() == c);
                        assert(hex_run_value(group_digits(cur2)) == 16 * hex_run_value(
                            group_digits(cur),
                        ) + (hex_digit_value(c) as nat));
                        assert forall|k: int|
                            0 <= k < group_digits(cur2).len() implies #[trigger] group_digits(
                            cur2,
                        )[k] == (
                        if k < group_digits(cur).len() {
                            group_digits(cur)[k]
                        } else {
                            c
                        }
                        ) by {}
                    }
                    cur = cur2;
                }
            }
            i += 1;
        }
        proof {
            assert(bytes@.skip(n as int) =~= Seq::<u8>::empty());
            assert(split_colons(bytes@) == done.push(cur));
        }
        let cur_valid = tok_ok && tok_digits && !tok_big;
        if g == 5 && all_valid && cur_valid {
            octets[5] = tok_val as u8;
            let mac = MacAddr(octets);
            proof {
                let groups = split_colons(s.spec_bytes());
                assert forall|k: int| 0 <= k < 6 implies mac@[k] == group_value(
                    #[trigger] groups[k],
                ) by {
                    if k < 5 {
                        assert(groups[k] == done[k]);
                    } else {
                        assert(groups[5] == cur);
                    }
                }
                assert(mac@ =~= mac_of_str(s.spec_bytes()));
            }
            Ok(mac)
        } else {
            proof {
                let groups = split_colons(s.spec_bytes());
                if g == 5 && all_valid {
                    assert(groups[5] == cur);
                    assert(!is_valid_group(cur));
                } else if g == 5 {
                    let k0 = choose|k: int| 0 <= k < g && !is_valid_group(#[trigger] done[k]);
                    assert(groups[k0] == done[k0]);
                    assert(!is_valid_mac_str(s.spec_bytes()));
                } else {
                    assert(groups.len() != 6);
                }
            }
            Err(MacAddrParseError(s.to_owned()))
        }
    }

    /// Renders the address as six groups of two lower-case hexadecimal digits
    /// separated by colons, such as `ff:06:07:08:09:0a`.
    #[verifier::rlimit(50)]
    pub fn to_string(&self) -> (r: String)
        ensures
            r@ == mac_str_seq(self@),
    {
        let mut s = String::new();
        let mut i: usize = 0;
        while i < 6
            invariant
                0 <= i <= 6,
                s@ =~= mac_str_seq(self@).take(if i == 0 {
                    0int
                } else {
                    3 * i - 1
                }),
            decreases 6 - i,
        {
            if i > 0 {
                s.append(":");
            }
            let b = self.0[i];
            proof {
                assert(b / 16 < 16 && b % 16 < 16) by (bit_vector);
            }
            s.append(hex_str(b / 16));
            s.append(hex_str(b % 16));
            proof {
                reveal_strlit(":");
                assert(":"@ =~= seq![':']);
                assert(s@ =~= mac_str_seq(self@).take(3 * i + 2));
            }
            i += 1;
        }
        proof {
            assert(s@ =~= mac_str_seq(self@));
        }
        s
    }
}

} // verus!
