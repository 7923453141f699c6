//! Build- and environment-supplied Iroh settings: boolean switches, the
//! provider runtime's worker count, and the relay and discovery service
//! URLs. The values arrive as text; reading them from the build or the
//! process environment is the caller's part.
use vstd::prelude::*;
use crate::iroh_profile::IrohEndpointProfile;
use crate::onion_endpoint::{all_decimal_digits, decimal_value, strip_plus};
use crate::text::{
    ascii_lowercase_chars, chars_eq_str, chars_of, push_char, spec_ascii_lowercase, spec_trim,
    trim_chars,
};

verus! {

/// Whether a switch value turns the switch on: `1`, `true`, `yes` or `on`,
/// ignoring surrounding whitespace and ASCII case.
pub open spec fn spec_flag_enabled(value: Seq<char>) -> bool {
    let n = spec_ascii_lowercase(spec_trim(value));
    n == "1"@ || n == "true"@ || n == "yes"@ || n == "on"@
}

pub fn flag_enabled(value: &str) -> (r: bool)
    ensures
        r == spec_flag_enabled(value@),
{
    let chars = chars_of(value);
    let trimmed = trim_chars(&chars);
    let n = ascii_lowercase_chars(&trimmed);
    chars_eq_str(&n, "1") || chars_eq_str(&n, "true") || chars_eq_str(&n, "yes") || chars_eq_str(
        &n,
        "on",
    )
}

/// A switch: the build-time value decides when there is one, else the
/// environment's value, else off.
pub open spec fn spec_configured_flag(compiled: Option<Seq<char>>, environment: Option<Seq<char>>) -> bool {
    match compiled {
        Some(v) => spec_flag_enabled(v),
        None => match environment {
            Some(v) => spec_flag_enabled(v),
            None => false,
        },
    }
}

pub fn configured_flag(compiled: Option<&str>, environment: Option<&str>) -> (r: bool)
    ensures
        r == spec_configured_flag(
            match compiled {
                Some(v) => Some(v@),
                None => None,
            },
            match environment {
                Some(v) => Some(v@),
                None => None,
            },
        ),
{
    match compiled {
        Some(v) => flag_enabled(v),
        None => match environment {
            Some(v) => flag_enabled(v),
            None => false,
        },
    }
}

/// Worker threads when nothing valid is configured.
pub open spec fn default_threads(android: bool) -> usize {
    if android {
        2
    } else {
        4
    }
}

/// The worker count: a configured count from 1 to 8 (`usize::from_str` on
/// the trimmed value: an optional `+` and decimal digits), else the
/// platform default.
pub open spec fn spec_runtime_threads(configured: Option<Seq<char>>, android: bool) -> usize {
    match configured {
        Some(v) => {
            let d = strip_plus(spec_trim(v));
            if d.len() > 0 && all_decimal_digits(d) && 1 <= decimal_value(d) <= 8 {
                decimal_value(d) as usize
            } else {
                default_threads(android)
            }
        },
        None => default_threads(android),
    }
}

pub fn configured_runtime_threads(configured: Option<&str>, android: bool) -> (r: usize)
    ensures
        r == spec_runtime_threads(
            match configured {
                Some(v) => Some(v@),
                None => None,
            },
            android,
        ),
{
    let default: usize = if android { 2 } else { 4 };
    let value = match configured {
        Some(v) => v,
        None => {
            return default;
        },
    };
    let chars = chars_of(value);
    let trimmed = trim_chars(&chars);
    let ghost t = trimmed@;
    let start: usize = if trimmed.len() > 0 && trimmed[0] == '+' { 1 } else { 0 };
    let ghost d = strip_plus(t);
    assert(d =~= t.subrange(start as int, t.len() as int));
    if start >= trimmed.len() {
        return default;
    }
    let mut n: usize = 0;
    let mut i: usize = start;
    while i < trimmed.len()
        invariant
            trimmed@ == t,
            t == spec_trim(value@),
            configured == Some(value),
            default == default_threads(android),
            start <= i <= t.len(),
            d == t.subrange(start as int, t.len() as int),
            d == strip_plus(t),
            n <= 8,
            forall|k: int| start <= k < i ==> crate::onion_endpoint::is_decimal_digit(#[trigger] t[k]),
            n == decimal_value(t.subrange(start as int, i as int)),
        decreases t.len() - i,
    {
        let c = trimmed[i];
        if !('0' <= c && c <= '9') {
            assert(d[i - start] == t[i as int]);
            assert(!crate::onion_endpoint::is_decimal_digit(d[i - start]));
            return default;
        }
        let digit = ((c as u32) - 48) as usize;
        assert(t.subrange(start as int, i + 1).drop_last() =~= t.subrange(start as int, i as int));
        if n * 10 + digit > 8 {
            proof {
                assert(t.subrange(start as int, i + 1) =~= d.subrange(0, i + 1 - start));
                assert(decimal_value(d.subrange(0, i + 1 - start)) == n * 10 + digit);
                if all_decimal_digits(d) {
                    crate::onion_endpoint::lemma_decimal_value_monotone(d, i + 1 - start, d.len() as int);
                    assert(d.subrange(0, d.len() as int) =~= d);
                }
            }
            return default;
        }
        n = n * 10 + digit;
        i = i + 1;
    }
    assert(t.subrange(start as int, i as int) =~= d);
    if n >= 1 {
        n
    } else {
        default
    }
}

/// What `url::Url::parse` gives for `text`: the serialized URL, or the
/// parse error's text.
pub uninterp spec fn url_parse(text: Seq<char>) -> Result<Seq<char>, Seq<char>>;

pub open spec fn text_result(r: Result<String, String>) -> Result<Seq<char>, Seq<char>> {
    match r {
        Ok(s) => Ok(s@),
        Err(e) => Err(e@),
    }
}

/// `url::Url::parse`, returning the serialized URL (`Url::as_str`) or the
/// error's `Display` text. Its outcome is named by `url_parse`; the URL
/// grammar is not restated here.
#[verifier::external_body]
fn parse_url(text: &str) -> (r: Result<String, String>)
    ensures
        text_result(r) == url_parse(text@),
{
    match url::Url::parse(text) {
        Ok(url) => Ok(url.as_str().to_owned()),
        Err(error) => Err(error.to_string()),
    }
}

/// Why the Iroh endpoint could not be set up.
#[derive(Clone, Debug, PartialEq, Eq)]
pub enum IrohIdentityError {
    /// The protected secret store failed; its diagnostic text.
    Store(String),
    InvalidStoredKey,
    Bind(String),
}

impl IrohIdentityError {
    /// The redaction-safe text of the error: a store failure hides the
    /// store's own diagnostic.
    pub fn message(&self) -> (r: String)
        ensures
            r@ == match self {
                IrohIdentityError::Store(_) => "protected Iroh endpoint identity store failed"@,
                IrohIdentityError::InvalidStoredKey => "protected Iroh endpoint identity is invalid"@,
                IrohIdentityError::Bind(e) => "Iroh endpoint bind failed: "@ + e@,
            },
    {
        match self {
            IrohIdentityError::Store(_) => "protected Iroh endpoint identity store failed".to_owned(),
            IrohIdentityError::InvalidStoredKey => "protected Iroh endpoint identity is invalid".to_owned(),
            IrohIdentityError::Bind(e) => {
                let mut text = "Iroh endpoint bind failed: ".to_owned();
                text.append(e.as_str());
                text
            },
        }
    }
}

/// The relay and discovery services an always-reachable endpoint uses.
#[derive(Clone, Debug, PartialEq, Eq)]
pub struct IrohServiceConfig {
    pub relay_urls: Vec<String>,
    pub pkarr_url: Option<String>,
}

/// The pieces of `s` between commas, as `str::split(',')` yields them.
pub open spec fn split_commas(s: Seq<char>) -> Seq<Seq<char>>
    decreases s.len(),
{
    if s.len() == 0 {
        seq![Seq::empty()]
    } else {
        let p = split_commas(s.drop_last());
        if s.last() == ',' {
            p.push(Seq::empty())
        } else {
            p.update(p.len() - 1, p.last().push(s.last()))
        }
    }
}

proof fn lemma_split_commas_len(s: Seq<char>)
    ensures
        split_commas(s).len() >= 1,
    decreases s.len(),
{
    if s.len() > 0 {
        lemma_split_commas_len(s.drop_last());
    }
}

/// The trimmed pieces that are not empty, in order.
pub open spec fn relay_entries(pieces: Seq<Seq<char>>) -> Seq<Seq<char>>
    decreases pieces.len(),
{
    if pieces.len() == 0 {
        Seq::empty()
    } else if spec_trim(pieces.last()).len() > 0 {
        relay_entries(pieces.drop_last()).push(spec_trim(pieces.last()))
    } else {
        relay_entries(pieces.drop_last())
    }
}

/// The relay URL entries of a comma-separated list.
pub open spec fn relay_list(value: Option<Seq<char>>) -> Seq<Seq<char>> {
    match value {
        Some(v) => relay_entries(split_commas(v)),
        None => Seq::empty(),
    }
}

/// Index of the first entry that is not a URL, or -1.
pub open spec fn first_bad_url(entries: Seq<Seq<char>>) -> int
    decreases entries.len(),
{
    if entries.len() == 0 {
        -1
    } else if first_bad_url(entries.drop_last()) >= 0 {
        first_bad_url(entries.drop_last())
    } else if url_parse(entries.last()) is Err {
        entries.len() - 1
    } else {
        -1
    }
}

proof fn lemma_first_bad_url(entries: Seq<Seq<char>>)
    ensures
        -1 <= first_bad_url(entries) < entries.len(),
        first_bad_url(entries) >= 0 ==> url_parse(entries[first_bad_url(entries)]) is Err,
        forall|i: int|
            0 <= i < entries.len() && (first_bad_url(entries) < 0 || i < first_bad_url(entries))
                ==> #[trigger] url_parse(entries[i]) is Ok,
    decreases entries.len(),
{
    if entries.len() > 0 {
        lemma_first_bad_url(entries.drop_last());
        assert forall|i: int| 0 <= i < entries.len() - 1 implies entries.drop_last()[i] == entries[i] by {}
    }
}

pub open spec fn relay_error(entry: Seq<char>) -> Seq<char> {
    "invalid TORCA_IROH_RELAY_URLS entry '"@ + entry + "': "@ + url_parse(entry)->Err_0
}

pub open spec fn pkarr_error(value: Seq<char>) -> Seq<char> {
    "invalid TORCA_IROH_PKARR_URL '"@ + value + "': "@ + url_parse(value)->Err_0
}

/// The service settings of `profile` from the relay list and the discovery
/// URL: none for profiles without incoming reachability; otherwise every
/// listed relay and the discovery URL must parse as URLs, relays first.
pub open spec fn config_is(
    r: Result<IrohServiceConfig, IrohIdentityError>,
    profile: IrohEndpointProfile,
    relay_value: Option<Seq<char>>,
    pkarr_value: Option<Seq<char>>,
) -> bool {
    let entries = relay_list(relay_value);
    let bad = first_bad_url(entries);
    if profile != IrohEndpointProfile::AlwaysReachable {
        r matches Ok(c) && c.relay_urls@.len() == 0 && c.pkarr_url is None
    } else if bad >= 0 {
        r matches Err(IrohIdentityError::Bind(m)) && m@ == relay_error(entries[bad])
    } else if pkarr_value matches Some(p) && url_parse(p) is Err {
        r matches Err(IrohIdentityError::Bind(m)) && m@ == pkarr_error(pkarr_value.unwrap())
    } else {
        &&& r matches Ok(c)
        &&& c.relay_urls@.len() == entries.len()
        &&& forall|i: int| 0 <= i < entries.len() ==> (#[trigger] c.relay_urls@[i])@ == url_parse(entries[i])->Ok_0
        &&& match pkarr_value {
            None => c.pkarr_url is None,
            Some(p) => c.pkarr_url matches Some(u) && u@ == url_parse(p)->Ok_0,
        }
    }
}

/// The pieces of a comma-separated list.
fn split_on_commas(value: &str) -> (r: Vec<Vec<char>>)
    ensures
        r@.len() == split_commas(value@).len(),
        forall|i: int| 0 <= i < r@.len() ==> (#[trigger] r@[i])@ == split_commas(value@)[i],
{
    let chars = chars_of(value);
    let mut pieces: Vec<Vec<char>> = Vec::new();
    pieces.push(Vec::new());
    let mut i: usize = 0;
    assert(chars@.subrange(0, 0) =~= Seq::<char>::empty());
    while i < chars.len()
        invariant
            chars@ == value@,
            i <= chars@.len(),
            pieces@.len() == split_commas(chars@.subrange(0, i as int)).len(),
            pieces@.len() >= 1,
            forall|k: int| 0 <= k < pieces@.len() ==> (#[trigger] pieces@[k])@ == split_commas(
                chars@.subrange(0, i as int),
            )[k],
        decreases chars@.len() - i,
    {
        let ghost before = chars@.subrange(0, i as int);
        assert(chars@.subrange(0, i + 1).drop_last() =~= before);
        let c = chars[i];
        if c == ',' {
            pieces.push(Vec::new());
        } else {
            let last = pieces.len() - 1;
            let mut piece = pieces.remove(last);
            piece.push(c);
            pieces.push(piece);
        }
        i = i + 1;
        proof {
            let now = split_commas(chars@.subrange(0, i as int));
            assert forall|k: int| 0 <= k < pieces@.len() implies (#[trigger] pieces@[k])@ == now[k] by {}
        }
    }
    assert(chars@.subrange(0, chars@.len() as int) =~= value@);
    pieces
}

fn string_of(chars: &Vec<char>) -> (r: String)
    ensures
        r@ == chars@,
{
    let mut out = String::new();
    let mut i: usize = 0;
    while i < chars.len()
        invariant
            i <= chars@.len(),
            out@ == chars@.subrange(0, i as int),
        decreases chars@.len() - i,
    {
        push_char(&mut out, chars[i]);
        i = i + 1;
        assert(out@ =~= chars@.subrange(0, i as int));
    }
    assert(chars@.subrange(0, chars@.len() as int) =~= chars@);
    out
}

/// The relay entries of a comma-separated list: trimmed, empty ones left
/// out.
fn relay_entry_list(value: Option<&str>) -> (r: Vec<String>)
    ensures
        r@.len() == relay_list(
            match value {
                Some(v) => Some(v@),
                None => None,
            },
        ).len(),
        forall|i: int|
            0 <= i < r@.len() ==> (#[trigger] r@[i])@ == relay_list(
                match value {
                    Some(v) => Some(v@),
                    None => None,
                },
            )[i],
{
    let mut out: Vec<String> = Vec::new();
    let v = match value {
        Some(v) => v,
        None => {
            return out;
        },
    };
    let pieces = split_on_commas(v);
    let ghost ps = split_commas(v@);
    let mut i: usize = 0;
    while i < pieces.len()
        invariant
            i <= pieces@.len(),
            pieces@.len() == ps.len(),
            ps == split_commas(v@),
            forall|k: int| 0 <= k < pieces@.len() ==> (#[trigger] pieces@[k])@ == ps[k],
            out@.len() == relay_entries(ps.subrange(0, i as int)).len(),
            forall|k: int| 0 <= k < out@.len() ==> (#[trigger] out@[k])@ == relay_entries(
                ps.subrange(0, i as int),
            )[k],
        decreases pieces@.len() - i,
    {
        assert(ps.subrange(0, i + 1).drop_last() =~= ps.subrange(0, i as int));
        assert(ps.subrange(0, i + 1).last() == ps[i as int]);
        let trimmed = trim_chars(&pieces[i]);
        if trimmed.len() > 0 {
            out.push(string_of(&trimmed));
        }
        i = i + 1;
        proof {
            let now = relay_entries(ps.subrange(0, i as int));
            assert forall|k: int| 0 <= k < out@.len() implies (#[trigger] out@[k])@ == now[k] by {}
        }
    }
    assert(ps.subrange(0, ps.len() as int) =~= ps);
    out
}

impl IrohServiceConfig {
    /// No services configured.
    pub fn empty() -> (r: Self)
        ensures
            r.relay_urls@.len() == 0,
            r.pkarr_url is None,
    {
        IrohServiceConfig { relay_urls: Vec::new(), pkarr_url: None }
    }

    /// The settings for `profile` from the relay list and discovery URL.
    pub fn from_values(
        profile: IrohEndpointProfile,
        relay_value: Option<&str>,
        pkarr_value: Option<&str>,
    ) -> (r: Result<Self, IrohIdentityError>)
        ensures
            config_is(
                r,
                profile,
                match relay_value {
                    Some(v) => Some(v@),
                    None => None,
                },
                match pkarr_value {
                    Some(v) => Some(v@),
                    None => None,
                },
            ),
    {
        if !profile.supports_incoming_reachability() {
            return Ok(IrohServiceConfig::empty());
        }
        let ghost relay = match relay_value {
            Some(v) => Some(v@),
            None => None,
        };
        let entries = relay_entry_list(relay_value);
        let ghost es = relay_list(relay);
        proof {
            lemma_first_bad_url(es);
        }
        let mut relay_urls: Vec<String> = Vec::new();
        let mut i: usize = 0;
        while i < entries.len()
            invariant
                i <= entries@.len(),
                profile == IrohEndpointProfile::AlwaysReachable,
                es == relay_list(relay),
                relay == match relay_value {
                    Some(v) => Some(v@),
                    None => None,
                },
                entries@.len() == es.len(),
                forall|k: int| 0 <= k < entries@.len() ==> (#[trigger] entries@[k])@ == es[k],
                forall|k: int| 0 <= k < i ==> #[trigger] url_parse(es[k]) is Ok,
                relay_urls@.len() == i,
                forall|k: int| 0 <= k < i ==> (#[trigger] relay_urls@[k])@ == url_parse(es[k])->Ok_0,
                -1 <= first_bad_url(es) < es.len(),
                first_bad_url(es) >= 0 ==> url_parse(es[first_bad_url(es)]) is Err,
                forall|k: int|
                    0 <= k < es.len() && (first_bad_url(es) < 0 || k < first_bad_url(es))
                        ==> #[trigger] url_parse(es[k]) is Ok,
            decreases entries@.len() - i,
        {
            match parse_url(entries[i].as_str()) {
                Ok(url) => {
                    relay_urls.push(url);
                },
                Err(error) => {
                    let mut message = "invalid TORCA_IROH_RELAY_URLS entry '".to_owned();
                    message.append(entries[i].as_str());
                    message.append("': ");
                    message.append(error.as_str());
                    proof {
                        assert(first_bad_url(es) == i as int);
                    }
                    return Err(IrohIdentityError::Bind(message));
                },
            }
            i = i + 1;
        }
        assert(first_bad_url(es) < 0);
        let pkarr_url = match pkarr_value {
            Some(p) => match parse_url(p) {
                Ok(url) => Some(url),
                Err(error) => {
                    let mut message = "invalid TORCA_IROH_PKARR_URL '".to_owned();
                    message.append(p);
                    message.append("': ");
                    message.append(error.as_str());
                    return Err(IrohIdentityError::Bind(message));
                },
            },
            None => None,
        };
        Ok(IrohServiceConfig { relay_urls, pkarr_url })
    }

    /// Whether a relay or a discovery service was configured.
    pub fn is_custom(&self) -> (r: bool)
        ensures
            r == (self.relay_urls@.len() > 0 || self.pkarr_url is Some),
    {
        self.relay_urls.len() > 0 || self.pkarr_url.is_some()
    }
}

/// The relays a pairing invitation advertises.
#[derive(Clone, Debug, PartialEq, Eq)]
pub enum PairingRelays {
    /// No relay: direct profiles, disabled relays or discovery, or a custom
    /// discovery-only deployment.
    Disabled,
    /// The configured relay URLs.
    Configured(Vec<String>),
    /// The Iroh default relay map.
    IrohDefault,
}

/// The relays pairing advertises, given the endpoint profile, the relay and
/// discovery switches, and the service settings (an unreadable setting
/// counts as none).
pub fn pairing_relay_urls(
    profile: IrohEndpointProfile,
    relay_disabled: bool,
    discovery_disabled: bool,
    config: Result<IrohServiceConfig, IrohIdentityError>,
) -> (r: PairingRelays)
    ensures
        profile != IrohEndpointProfile::AlwaysReachable || relay_disabled || discovery_disabled
            ==> r == PairingRelays::Disabled,
        !(profile != IrohEndpointProfile::AlwaysReachable || relay_disabled || discovery_disabled)
            ==> match config {
            Ok(c) => if c.relay_urls@.len() > 0 {
                r == PairingRelays::Configured(c.relay_urls)
            } else if c.pkarr_url is Some {
                r == PairingRelays::Disabled
            } else {
                r == PairingRelays::IrohDefault
            },
            Err(_) => r == PairingRelays::IrohDefault,
        },
{
    if !profile.supports_incoming_reachability() || relay_disabled || discovery_disabled {
        return PairingRelays::Disabled;
    }
    let config = match config {
        Ok(c) => c,
        Err(_) => IrohServiceConfig::empty(),
    };
    if config.relay_urls.len() > 0 {
        return PairingRelays::Configured(config.relay_urls);
    }
    if config.is_custom() {
        return PairingRelays::Disabled;
    }
    PairingRelays::IrohDefault
}

} // verus!
