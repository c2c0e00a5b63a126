//! The startup device selector: a comma-separated list where each element
//! is a literal IPv4 address when it parses as one, and a free-text device
//! name otherwise.

use vstd::prelude::*;
use vstd::string::StrSliceExecFns;
use vstd::string::StringExecFns;

verus! {

/// A literal IPv4 address, octet by octet.
#[derive(Debug, Clone, Copy, PartialEq, Eq, Structural)]
pub struct Ipv4Address {
    pub a: u8,
    pub b: u8,
    pub c: u8,
    pub d: u8,
}

/// The value of one decimal digit, or -1 for any other character.
pub open spec fn digit_val(c: char) -> int {
    if c == '0' {
        0
    } else if c == '1' {
        1
    } else if c == '2' {
        2
    } else if c == '3' {
        3
    } else if c == '4' {
        4
    } else if c == '5' {
        5
    } else if c == '6' {
        6
    } else if c == '7' {
        7
    } else if c == '8' {
        8
    } else if c == '9' {
        9
    } else {
        -1
    }
}

/// Every character is a decimal digit.
pub open spec fn is_digit_seq(s: Seq<char>) -> bool {
    forall|i: int| 0 <= i < s.len() ==> digit_val(#[trigger] s[i]) >= 0
}

/// The number the digits spell, most significant first.
pub open spec fn digits_value(s: Seq<char>) -> int
    decreases s.len(),
{
    if s.len() == 0 {
        0
    } else {
        digits_value(s.drop_last()) * 10 + digit_val(s.last())
    }
}

/// One address octet as text: one to three digits, no leading zero, value
/// at most 255.
pub open spec fn is_octet_text(s: Seq<char>) -> bool {
    &&& 1 <= s.len() <= 3
    &&& is_digit_seq(s)
    &&& (s.len() > 1 ==> s[0] != '0')
    &&& digits_value(s) <= 255
}

/// `s` split at every occurrence of `sep`; never empty, and an empty text
/// gives one empty segment.
pub open spec fn split_char(s: Seq<char>, sep: char) -> Seq<Seq<char>>
    decreases s.len(),
{
    if s.len() == 0 {
        seq![Seq::<char>::empty()]
    } else {
        let prev = split_char(s.drop_last(), sep);
        if s.last() == sep {
            prev + seq![Seq::<char>::empty()]
        } else {
            prev.update(prev.len() - 1, prev.last() + seq![s.last()])
        }
    }
}

/// A split has at least one segment.
pub proof fn lemma_split_char_len(s: Seq<char>, sep: char)
    ensures
        split_char(s, sep).len() >= 1,
    decreases s.len(),
{
    if s.len() > 0 {
        lemma_split_char_len(s.drop_last(), sep);
    }
}

/// The address `s` spells, when it is four dot-separated octets.
pub open spec fn ipv4_of_text(s: Seq<char>) -> Option<Ipv4Address> {
    let parts = split_char(s, '.');
    if parts.len() == 4 && is_octet_text(parts[0]) && is_octet_text(parts[1]) && is_octet_text(
        parts[2],
    ) && is_octet_text(parts[3]) {
        Some(
            Ipv4Address {
                a: digits_value(parts[0]) as u8,
                b: digits_value(parts[1]) as u8,
                c: digits_value(parts[2]) as u8,
                d: digits_value(parts[3]) as u8,
            },
        )
    } else {
        None
    }
}

/// The addresses among the selector's elements, in order.
pub open spec fn ips_of_parts(parts: Seq<Seq<char>>) -> Seq<Ipv4Address>
    decreases parts.len(),
{
    if parts.len() == 0 {
        Seq::empty()
    } else {
        let rest = ips_of_parts(parts.drop_first());
        match ipv4_of_text(parts[0]) {
            Some(ip) => seq![ip] + rest,
            None => rest,
        }
    }
}

/// The free-text names among the selector's elements, in order.
pub open spec fn names_of_parts(parts: Seq<Seq<char>>) -> Seq<Seq<char>>
    decreases parts.len(),
{
    if parts.len() == 0 {
        Seq::empty()
    } else {
        let rest = names_of_parts(parts.drop_first());
        match ipv4_of_text(parts[0]) {
            Some(ip) => rest,
            None => seq![parts[0]] + rest,
        }
    }
}

/// Split `s` at every occurrence of `sep`.
fn split_str(s: &str, sep: char) -> (r: Vec<String>)
    ensures
        r@.len() == split_char(s@, sep).len(),
        forall|i: int| 0 <= i < r@.len() ==> (#[trigger] r@[i])@ == split_char(s@, sep)[i],
{
    let n = s.unicode_len();
    let mut done: Vec<String> = Vec::new();
    let mut cur = String::new();
    let mut i: usize = 0;
    proof {
        assert(s@.subrange(0, 0) =~= Seq::<char>::empty());
    }
    while i < n
        invariant
            i <= n,
            n == s@.len(),
            ({
                let parts = split_char(s@.subrange(0, i as int), sep);
                &&& done@.len() + 1 == parts.len()
                &&& forall|j: int| 0 <= j < done@.len() ==> (#[trigger] done@[j])@ == parts[j]
                &&& cur@ == parts.last()
            }),
        decreases n - i,
    {
        let ghost prefix = s@.subrange(0, i as int);
        let ghost parts = split_char(prefix, sep);
        let c = s.get_char(i);
        proof {
            assert(s@.subrange(0, i + 1).drop_last() =~= prefix);
            lemma_split_char_len(prefix, sep);
        }
        if c == sep {
            done.push(cur);
            cur = String::new();
            proof {
                let parts2 = split_char(s@.subrange(0, i + 1), sep);
                assert(parts2 =~= parts + seq![Seq::<char>::empty()]);
            }
        } else {
            let piece = s.substring_char(i, i + 1);
            cur.append(piece);
            proof {
                let parts2 = split_char(s@.subrange(0, i + 1), sep);
                assert(piece@ =~= seq![s@[i as int]]);
                assert(parts2 =~= parts.update(parts.len() - 1, parts.last() + seq![s@[i as int]]));
            }
        }
        i = i + 1;
    }
    proof {
        assert(s@.subrange(0, n as int) =~= s@);
    }
    done.push(cur);
    done
}

/// Read one octet; reject anything but one to three digits without a
/// leading zero spelling a value up to 255.
fn parse_octet(s: &str) -> (r: Option<u8>)
    ensures
        match r {
            Some(v) => is_octet_text(s@) && v as int == digits_value(s@),
            None => !is_octet_text(s@),
        },
{
    let n = s.unicode_len();
    if n < 1 || n > 3 {
        return None;
    }
    if n > 1 && s.get_char(0) == '0' {
        return None;
    }
    let mut val: u32 = 0;
    let mut i: usize = 0;
    proof {
        assert(s@.subrange(0, 0) =~= Seq::<char>::empty());
    }
    while i < n
        invariant
            i <= n,
            1 <= n <= 3,
            n == s@.len(),
            is_digit_seq(s@.subrange(0, i as int)),
            val as int == digits_value(s@.subrange(0, i as int)),
            i == 0 ==> val == 0,
            i == 1 ==> val < 10,
            i == 2 ==> val < 100,
            i == 3 ==> val < 1000,
        decreases n - i,
    {
        let c = s.get_char(i);
        let d: u32 = match c {
            '0' => 0,
            '1' => 1,
            '2' => 2,
            '3' => 3,
            '4' => 4,
            '5' => 5,
            '6' => 6,
            '7' => 7,
            '8' => 8,
            '9' => 9,
            _ => {
                proof {
                    assert(digit_val(s@[i as int]) < 0);
                }
                return None;
            },
        };
        proof {
            assert(s@.subrange(0, i + 1).drop_last() =~= s@.subrange(0, i as int));
            assert(s@.subrange(0, i + 1).last() == s@[i as int]);
            assert(digit_val(s@[i as int]) == d as int);
            assert forall|j: int| 0 <= j < i + 1 implies digit_val(
                #[trigger] s@.subrange(0, i + 1)[j],
            ) >= 0 by {
                if j < i {
                    assert(digit_val(s@.subrange(0, i as int)[j]) >= 0);
                }
            }
        }
        val = val * 10 + d;
        i = i + 1;
    }
    proof {
        assert(s@.subrange(0, n as int) =~= s@);
    }
    if val > 255 {
        return None;
    }
    Some(val as u8)
}

/// Read a literal IPv4 address: exactly four dot-separated octets.
pub fn parse_ipv4(s: &str) -> (r: Option<Ipv4Address>)
    ensures
        match r {
            Some(ip) => ipv4_of_text(s@) == Some(ip),
            None => ipv4_of_text(s@) is None,
        },
{
    let parts = split_str(s, '.');
    if parts.len() != 4 {
        return None;
    }
    let a = match parse_octet(parts[0].as_str()) {
        Some(v) => v,
        None => {
            return None;
        },
    };
    let b = match parse_octet(parts[1].as_str()) {
        Some(v) => v,
        None => {
            return None;
        },
    };
    let c = match parse_octet(parts[2].as_str()) {
        Some(v) => v,
        None => {
            return None;
        },
    };
    let d = match parse_octet(parts[3].as_str()) {
        Some(v) => v,
        None => {
            return None;
        },
    };
    Some(Ipv4Address { a, b, c, d })
}

/// Split a selector at commas and read each element as an address first,
/// falling back to a device name.
pub fn parse_device_selector(s: &str) -> (r: (Vec<Ipv4Address>, Vec<String>))
    ensures
        r.0@ == ips_of_parts(split_char(s@, ',')),
        r.1@.len() == names_of_parts(split_char(s@, ',')).len(),
        forall|i: int|
            0 <= i < r.1@.len() ==> (#[trigger] r.1@[i])@ == names_of_parts(split_char(s@, ','))[i],
{
    let parts = split_str(s, ',');
    let ghost pseq = split_char(s@, ',');
    let n = parts.len();
    let mut ips: Vec<Ipv4Address> = Vec::new();
    let mut names: Vec<String> = Vec::new();
    let ghost mut names_done: Seq<Seq<char>> = Seq::empty();
    let mut i: usize = 0;
    proof {
        assert(ips@ + ips_of_parts(pseq.subrange(0, pseq.len() as int)) =~= ips_of_parts(
            pseq.subrange(0, pseq.len() as int),
        ));
        assert(pseq.subrange(0, pseq.len() as int) =~= pseq);
    }
    while i < n
        invariant
            i <= n,
            n == parts@.len(),
            n == pseq.len(),
            forall|j: int| 0 <= j < n ==> (#[trigger] parts@[j])@ == pseq[j],
            ips_of_parts(pseq) == ips@ + ips_of_parts(pseq.subrange(i as int, pseq.len() as int)),
            names_of_parts(pseq) == names_done + names_of_parts(
                pseq.subrange(i as int, pseq.len() as int),
            ),
            names_done.len() == names@.len(),
            forall|j: int| 0 <= j < names@.len() ==> (#[trigger] names@[j])@ == names_done[j],
        decreases n - i,
    {
        let ghost suffix = pseq.subrange(i as int, pseq.len() as int);
        proof {
            assert(suffix.drop_first() =~= pseq.subrange(i + 1, pseq.len() as int));
            assert(suffix[0] == pseq[i as int]);
        }
        let ghost old_ips = ips@;
        let ghost old_names_done = names_done;
        match parse_ipv4(parts[i].as_str()) {
            Some(ip) => {
                ips.push(ip);
                proof {
                    assert(old_ips + (seq![ip] + ips_of_parts(suffix.drop_first())) =~= ips@
                        + ips_of_parts(suffix.drop_first()));
                }
            },
            None => {
                names.push(parts[i].clone());
                proof {
                    names_done = names_done + seq![pseq[i as int]];
                    assert(old_names_done + (seq![pseq[i as int]] + names_of_parts(
                        suffix.drop_first(),
                    )) =~= names_done + names_of_parts(suffix.drop_first()));
                }
            },
        }
        i = i + 1;
    }
    proof {
        assert(pseq.subrange(n as int, pseq.len() as int) =~= Seq::<Seq<char>>::empty());
        assert(ips@ + Seq::<Ipv4Address>::empty() =~= ips@);
        assert(names_done + Seq::<Seq<char>>::empty() =~= names_done);
    }
    (ips, names)
}

/// Broadcast discovery is used exactly when the operator provided neither
/// an address nor a name.
pub fn discovery_needed(ips: &Vec<Ipv4Address>, names: &Vec<String>) -> (r: bool)
    ensures
        r == (ips@.len() == 0 && names@.len() == 0),
{
    ips.len() == 0 && names.len() == 0
}

} // verus!
