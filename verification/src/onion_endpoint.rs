//! Validation of the managed onion endpoints that Tor composition is
//! configured with: a v3 onion hostname and a non-zero port, as
//! `host.onion:port`.
use vstd::prelude::*;
use crate::text::chars_of;

verus! {

/// Error raised while composing the native runtime.
#[derive(Clone, Debug, PartialEq, Eq)]
pub struct NativeCompositionError {
    pub message: String,
}

impl NativeCompositionError {
    pub fn new(message: &str) -> (r: Self)
        ensures
            r.message@ == message@,
    {
        NativeCompositionError { message: message.to_owned() }
    }
}

/// Why an endpoint was refused, in the order the checks are made.
#[derive(Clone, Copy, Debug, PartialEq, Eq, Structural)]
pub enum OnionEndpointError {
    /// No `:` separates host and port.
    MissingSeparator,
    /// The host does not end in `.onion`.
    NotOnion,
    /// The label before `.onion` is not 56 base32 characters.
    InvalidHostname,
    /// The port is not a decimal `u16`.
    InvalidPort,
    /// The port is zero.
    ZeroPort,
}

/// Index of the last `:` in `s`, or -1.
pub open spec fn last_colon(s: Seq<char>) -> int
    decreases s.len(),
{
    if s.len() == 0 {
        -1
    } else if s.last() == ':' {
        s.len() - 1
    } else {
        last_colon(s.drop_last())
    }
}

pub open spec fn onion_suffix() -> Seq<char> {
    seq!['.', 'o', 'n', 'i', 'o', 'n']
}

/// A lowercase base32 character: `a`..=`z` or `2`..=`7`.
pub open spec fn is_base32_lower(c: char) -> bool {
    ('a' <= c && c <= 'z') || ('2' <= c && c <= '7')
}

pub open spec fn is_decimal_digit(c: char) -> bool {
    '0' <= c && c <= '9'
}

/// The value of a string of decimal digits.
pub open spec fn decimal_value(s: Seq<char>) -> nat
    decreases s.len(),
{
    if s.len() == 0 {
        0
    } else {
        decimal_value(s.drop_last()) * 10 + ((s.last() as u32) - 48) as nat
    }
}

/// Whether every character of `d` is a decimal digit.
pub open spec fn all_decimal_digits(d: Seq<char>) -> bool {
    forall|i: int| 0 <= i < d.len() ==> is_decimal_digit(#[trigger] d[i])
}

/// `s` without one leading `+`.
pub open spec fn strip_plus(s: Seq<char>) -> Seq<char> {
    if s.len() > 0 && s[0] == '+' {
        s.drop_first()
    } else {
        s
    }
}

/// One or more decimal digits whose value fits in 16 bits.
pub open spec fn spec_parse_digits_u16(d: Seq<char>) -> Option<u16> {
    if d.len() > 0 && all_decimal_digits(d) && decimal_value(d) <= 65535 {
        Some(decimal_value(d) as u16)
    } else {
        None
    }
}

/// What `u16::from_str` returns: an optional `+`, then one or more decimal
/// digits whose value fits in 16 bits.
pub open spec fn spec_parse_u16(s: Seq<char>) -> Option<u16> {
    spec_parse_digits_u16(strip_plus(s))
}

/// The host and port of `host.onion:port`, or the first check that fails.
pub open spec fn spec_onion_endpoint(value: Seq<char>) -> Result<(Seq<char>, u16), OnionEndpointError> {
    let k = last_colon(value);
    if k < 0 {
        Err(OnionEndpointError::MissingSeparator)
    } else {
        let host = value.subrange(0, k);
        let port = value.subrange(k + 1, value.len() as int);
        if !(host.len() >= 6 && host.subrange(host.len() - 6, host.len() as int)
            == onion_suffix()) {
            Err(OnionEndpointError::NotOnion)
        } else {
            let label = host.subrange(0, host.len() - 6);
            if !(label.len() == 56 && forall|i: int|
                0 <= i < label.len() ==> is_base32_lower(#[trigger] label[i])) {
                Err(OnionEndpointError::InvalidHostname)
            } else {
                match spec_parse_u16(port) {
                    None => Err(OnionEndpointError::InvalidPort),
                    Some(p) => if p == 0 {
                        Err(OnionEndpointError::ZeroPort)
                    } else {
                        Ok((host, p))
                    },
                }
            }
        }
    }
}

proof fn lemma_last_colon_bounds(s: Seq<char>)
    ensures
        -1 <= last_colon(s) < s.len(),
        last_colon(s) >= 0 ==> s[last_colon(s)] == ':',
        forall|i: int| last_colon(s) < i < s.len() ==> s[i] != ':',
    decreases s.len(),
{
    if s.len() > 0 && s.last() != ':' {
        lemma_last_colon_bounds(s.drop_last());
        assert forall|i: int| last_colon(s) < i < s.len() implies s[i] != ':' by {
            if i < s.len() - 1 {
                assert(s.drop_last()[i] == s[i]);
            }
        }
    }
}

proof fn lemma_last_colon_prefix(s: Seq<char>, j: int)
    requires
        0 <= j <= s.len(),
        forall|i: int| j <= i < s.len() ==> s[i] != ':',
    ensures
        last_colon(s) == last_colon(s.subrange(0, j)),
    decreases s.len() - j,
{
    if j < s.len() {
        assert(s.drop_last() =~= s.subrange(0, s.len() - 1));
        lemma_last_colon_prefix(s.drop_last(), j);
        assert(s.drop_last().subrange(0, j) =~= s.subrange(0, j));
    } else {
        assert(s.subrange(0, j) =~= s);
    }
}

/// Finds the last `:` in `v`.
fn find_last_colon(v: &Vec<char>) -> (r: Option<usize>)
    ensures
        match r {
            None => last_colon(v@) == -1,
            Some(k) => last_colon(v@) == k as int,
        },
{
    let mut j: usize = v.len();
    while j > 0 && v[j - 1] != ':'
        invariant
            j <= v@.len(),
            forall|i: int| j <= i < v@.len() ==> v@[i] != ':',
        decreases j,
    {
        j = j - 1;
    }
    proof {
        lemma_last_colon_prefix(v@, j as int);
        let p = v@.subrange(0, j as int);
        if j > 0 {
            assert(p.last() == ':');
        }
    }
    if j == 0 {
        None
    } else {
        Some(j - 1)
    }
}

proof fn lemma_decimal_value_grows(d: Seq<char>, i: int)
    requires
        0 <= i < d.len(),
        is_decimal_digit(d[i]),
    ensures
        decimal_value(d.subrange(0, i + 1)) == decimal_value(d.subrange(0, i)) * 10 + ((d[i] as u32)
            - 48) as nat,
        decimal_value(d.subrange(0, i + 1)) >= decimal_value(d.subrange(0, i)),
{
    assert(d.subrange(0, i + 1).drop_last() =~= d.subrange(0, i));
}

pub(crate) proof fn lemma_decimal_value_monotone(d: Seq<char>, i: int, j: int)
    requires
        0 <= i <= j <= d.len(),
        all_decimal_digits(d),
    ensures
        decimal_value(d.subrange(0, i)) <= decimal_value(d.subrange(0, j)),
    decreases j - i,
{
    if i < j {
        lemma_decimal_value_monotone(d, i, j - 1);
        lemma_decimal_value_grows(d, j - 1);
    }
}

/// `u16::from_str` on the characters `v[start..]`.
fn parse_u16_chars(v: &Vec<char>, start: usize) -> (r: Option<u16>)
    requires
        start <= v@.len(),
    ensures
        r == spec_parse_u16(v@.subrange(start as int, v@.len() as int)),
{
    let ghost s = v@.subrange(start as int, v@.len() as int);
    let n = v.len();
    let mut i = start;
    if i < n && v[i] == '+' {
        i = i + 1;
    }
    let ghost d = v@.subrange(i as int, n as int);
    assert(d =~= strip_plus(s));
    if i == n {
        return None;
    }
    let first = i;
    let mut value: u32 = 0;
    assert(v@.subrange(first as int, first as int) =~= Seq::<char>::empty());
    while i < n
        invariant
            first < n,
            first <= i <= n,
            n == v@.len(),
            d == v@.subrange(first as int, n as int),
            spec_parse_u16(v@.subrange(start as int, v@.len() as int)) == spec_parse_digits_u16(d),
            forall|k: int| first <= k < i ==> is_decimal_digit(#[trigger] v@[k]),
            value as nat == decimal_value(v@.subrange(first as int, i as int)),
            value <= 65535,
        decreases n - i,
    {
        let c = v[i];
        if !('0' <= c && c <= '9') {
            proof {
                assert(d[i - first] == c);
            }
            return None;
        }
        let digit = (c as u32) - 48;
        proof {
            let t = v@.subrange(first as int, i as int + 1);
            assert(t.drop_last() =~= v@.subrange(first as int, i as int));
            assert(t.last() == c);
        }
        let next = value * 10 + digit;
        if next > 65535 {
            proof {
                if all_decimal_digits(d) {
                    lemma_decimal_value_monotone(d, i - first + 1, d.len() as int);
                    assert(d.subrange(0, i - first + 1) =~= v@.subrange(
                        first as int,
                        i as int + 1,
                    ));
                    assert(d.subrange(0, d.len() as int) =~= d);
                }
            }
            return None;
        }
        value = next;
        i = i + 1;
    }
    proof {
        assert(v@.subrange(first as int, n as int) =~= d);
        assert forall|k: int| 0 <= k < d.len() implies is_decimal_digit(#[trigger] d[k]) by {
            assert(d[k] == v@[first + k]);
        }
    }
    Some(value as u16)
}

/// Checks `value` against `host.onion:port`.
pub fn check_onion_endpoint(value: &str) -> (r: Result<(String, u16), OnionEndpointError>)
    ensures
        match (r, spec_onion_endpoint(value@)) {
            (Ok((host, port)), Ok((h, p))) => host@ == h && port == p,
            (Err(e), Err(f)) => e == f,
            _ => false,
        },
{
    let v = chars_of(value);
    proof {
        lemma_last_colon_bounds(v@);
    }
    let k = match find_last_colon(&v) {
        None => return Err(OnionEndpointError::MissingSeparator),
        Some(k) => k,
    };
    let ghost host = v@.subrange(0, k as int);
    if k < 6 || v[k - 6] != '.' || v[k - 5] != 'o' || v[k - 4] != 'n' || v[k - 3] != 'i' || v[k
        - 2] != 'o' || v[k - 1] != 'n' {
        proof {
            if k >= 6 && host.subrange(host.len() - 6, host.len() as int) == onion_suffix() {
                assert(host.subrange(host.len() - 6, host.len() as int)[0] == v@[k - 6]);
                assert(host.subrange(host.len() - 6, host.len() as int)[1] == v@[k - 5]);
                assert(host.subrange(host.len() - 6, host.len() as int)[2] == v@[k - 4]);
                assert(host.subrange(host.len() - 6, host.len() as int)[3] == v@[k - 3]);
                assert(host.subrange(host.len() - 6, host.len() as int)[4] == v@[k - 2]);
                assert(host.subrange(host.len() - 6, host.len() as int)[5] == v@[k - 1]);
            }
        }
        return Err(OnionEndpointError::NotOnion);
    }
    proof {
        assert(host.subrange(host.len() - 6, host.len() as int) =~= onion_suffix());
    }
    let ghost label = host.subrange(0, host.len() - 6);
    if k - 6 != 56 {
        return Err(OnionEndpointError::InvalidHostname);
    }
    let mut i: usize = 0;
    while i < 56
        invariant
            k == 62,
            v@.len() > k,
            v@ == value@,
            last_colon(v@) == k as int,
            host == v@.subrange(0, k as int),
            host.subrange(host.len() - 6, host.len() as int) == onion_suffix(),
            label == host.subrange(0, host.len() - 6),
            label.len() == 56,
            i <= 56,
            forall|j: int| 0 <= j < i ==> is_base32_lower(#[trigger] label[j]),
        decreases 56 - i,
    {
        let c = v[i];
        if !(('a' <= c && c <= 'z') || ('2' <= c && c <= '7')) {
            proof {
                assert(label[i as int] == c);
            }
            return Err(OnionEndpointError::InvalidHostname);
        }
        proof {
            assert(label[i as int] == c);
        }
        i = i + 1;
    }
    let port = match parse_u16_chars(&v, k + 1) {
        None => return Err(OnionEndpointError::InvalidPort),
        Some(p) => p,
    };
    if port == 0 {
        return Err(OnionEndpointError::ZeroPort);
    }
    let host_str = value.substring_char(0, k).to_owned();
    Ok((host_str, port))
}

/// The message composition reports for each refusal of a relay endpoint.
pub open spec fn relay_endpoint_message(e: OnionEndpointError) -> Seq<char> {
    match e {
        OnionEndpointError::MissingSeparator => "relay endpoint must be host.onion:port"@,
        OnionEndpointError::NotOnion => "relay endpoint must use a v3 onion hostname"@,
        OnionEndpointError::InvalidHostname =>
            "relay endpoint contains an invalid v3 onion hostname"@,
        OnionEndpointError::InvalidPort => "relay endpoint contains an invalid port"@,
        OnionEndpointError::ZeroPort => "relay endpoint port must be non-zero"@,
    }
}

/// The message composition reports for each refusal of a Tor rendezvous
/// endpoint.
pub open spec fn rendezvous_endpoint_message(e: OnionEndpointError) -> Seq<char> {
    match e {
        OnionEndpointError::MissingSeparator => "Tor rendezvous endpoint must be host.onion:port"@,
        OnionEndpointError::NotOnion => "Tor rendezvous endpoint must use a v3 onion hostname"@,
        OnionEndpointError::InvalidHostname =>
            "Tor rendezvous endpoint contains an invalid v3 onion hostname"@,
        OnionEndpointError::InvalidPort => "Tor rendezvous endpoint contains an invalid port"@,
        OnionEndpointError::ZeroPort => "Tor rendezvous endpoint port must be non-zero"@,
    }
}

/// Parses the managed relay endpoint `host.onion:port`.
pub fn parse_relay_endpoint(value: &str) -> (r: Result<(String, u16), NativeCompositionError>)
    ensures
        match (r, spec_onion_endpoint(value@)) {
            (Ok((host, port)), Ok((h, p))) => host@ == h && port == p,
            (Err(error), Err(e)) => error.message@ == relay_endpoint_message(e),
            _ => false,
        },
{
    match check_onion_endpoint(value) {
        Ok(pair) => Ok(pair),
        Err(e) => Err(NativeCompositionError::new(
            match e {
                OnionEndpointError::MissingSeparator => "relay endpoint must be host.onion:port",
                OnionEndpointError::NotOnion => "relay endpoint must use a v3 onion hostname",
                OnionEndpointError::InvalidHostname =>
                    "relay endpoint contains an invalid v3 onion hostname",
                OnionEndpointError::InvalidPort => "relay endpoint contains an invalid port",
                OnionEndpointError::ZeroPort => "relay endpoint port must be non-zero",
            },
        )),
    }
}

/// Parses the Tor provider's managed onion rendezvous endpoint.
pub fn parse_rendezvous_endpoint(value: &str) -> (r: Result<(String, u16), NativeCompositionError>)
    ensures
        match (r, spec_onion_endpoint(value@)) {
            (Ok((host, port)), Ok((h, p))) => host@ == h && port == p,
            (Err(error), Err(e)) => error.message@ == rendezvous_endpoint_message(e),
            _ => false,
        },
{
    match check_onion_endpoint(value) {
        Ok(pair) => Ok(pair),
        Err(e) => Err(NativeCompositionError::new(
            match e {
                OnionEndpointError::MissingSeparator =>
                    "Tor rendezvous endpoint must be host.onion:port",
                OnionEndpointError::NotOnion =>
                    "Tor rendezvous endpoint must use a v3 onion hostname",
                OnionEndpointError::InvalidHostname =>
                    "Tor rendezvous endpoint contains an invalid v3 onion hostname",
                OnionEndpointError::InvalidPort =>
                    "Tor rendezvous endpoint contains an invalid port",
                OnionEndpointError::ZeroPort => "Tor rendezvous endpoint port must be non-zero",
            },
        )),
    }
}

} // verus!
