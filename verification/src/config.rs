//! Connection settings: the API base URL, the authentication header chosen by
//! the token type, the response size limit, and on/off flags.

use crate::text::{
    ascii_lower_seq, chars_of, has_suffix, push_char, push_decimal, push_str, to_ascii_lower,
};
use vstd::prelude::*;
use vstd::string::StringSliceAdditionalSpecFns;

verus! {

/// The size limit used when none is configured: one mebibyte.
pub const DEFAULT_MAX_RESPONSE_BYTES: usize = 1048576;

/// `s` without any trailing `/`.
pub open spec fn trim_trailing_slashes(s: Seq<char>) -> Seq<char>
    decreases s.len(),
{
    if s.len() > 0 && s.last() == '/' {
        trim_trailing_slashes(s.drop_last())
    } else {
        s
    }
}

/// The path of GitLab's REST API below the instance root.
pub open spec fn api_suffix() -> Seq<char> {
    seq!['/', 'a', 'p', 'i', '/', 'v', '4']
}

/// The API base URL for an instance URL: trailing slashes go, and
/// `/api/v4` is appended unless the URL already ends with it.
pub open spec fn api_url_of(value: Seq<char>) -> Seq<char> {
    let t = trim_trailing_slashes(value);
    if has_suffix(t, api_suffix()) {
        t
    } else {
        t + api_suffix()
    }
}

proof fn lemma_trim_trailing_prefix(s: Seq<char>, k: int)
    requires
        0 <= k <= s.len(),
        forall|j: int| k <= j < s.len() ==> #[trigger] s[j] == '/',
        k == 0 || s[k - 1] != '/',
    ensures
        trim_trailing_slashes(s) == s.subrange(0, k),
    decreases s.len(),
{
    if s.len() > k {
        assert(s.last() == '/');
        let d = s.drop_last();
        assert forall|j: int| k <= j < d.len() implies #[trigger] d[j] == '/' by {
            assert(d[j] == s[j]);
        }
        lemma_trim_trailing_prefix(d, k);
        assert(d.subrange(0, k) =~= s.subrange(0, k));
    } else {
        assert(s.subrange(0, k) =~= s);
        if k > 0 {
            assert(s.last() == s[k - 1]);
        }
    }
}

/// Builds the API base URL from the configured instance URL.
pub fn api_url(value: &str) -> (s: String)
    ensures
        s@ == api_url_of(value@),
{
    let v = chars_of(value);
    let mut k: usize = v.len();
    while k > 0 && v[k - 1] == '/'
        invariant
            k <= v@.len(),
            forall|j: int| k <= j < v@.len() ==> #[trigger] v@[j] == '/',
        decreases k,
    {
        k = k - 1;
    }
    proof {
        lemma_trim_trailing_prefix(v@, k as int);
    }
    let ghost t = v@.subrange(0, k as int);
    let suffix: Vec<char> = vec!['/', 'a', 'p', 'i', '/', 'v', '4'];
    assert(suffix@ =~= api_suffix());
    let mut s = String::new();
    let mut i: usize = 0;
    while i < k
        invariant
            k <= v@.len(),
            i <= k,
            s@ == v@.subrange(0, i as int),
        decreases k - i,
    {
        push_char(&mut s, v[i]);
        i = i + 1;
        assert(s@ =~= v@.subrange(0, i as int));
    }
    let found = if suffix.len() <= k {
        let mut m: usize = 0;
        let mut same = true;
        while m < suffix.len()
            invariant
                suffix@ == api_suffix(),
                suffix@.len() <= k <= v@.len(),
                m <= suffix@.len(),
                same == (forall|j: int| 0 <= j < m ==> v@[k - suffix@.len() + j] == suffix@[j]),
            decreases suffix@.len() - m,
        {
            if v[k - suffix.len() + m] != suffix[m] {
                same = false;
            }
            m = m + 1;
        }
        proof {
            let tail = t.subrange(t.len() - suffix@.len(), t.len() as int);
            if same {
                assert(tail =~= suffix@);
            } else {
                let j = choose|j: int| 0 <= j < m && v@[k - suffix@.len() + j] != suffix@[j];
                assert(tail[j] == v@[k - suffix@.len() + j]);
            }
        }
        same
    } else {
        false
    };
    assert(found == has_suffix(t, api_suffix()));
    if !found {
        let mut m: usize = 0;
        let ghost start = s@;
        while m < suffix.len()
            invariant
                suffix@ == api_suffix(),
                m <= suffix@.len(),
                s@ == start + suffix@.subrange(0, m as int),
            decreases suffix@.len() - m,
        {
            push_char(&mut s, suffix[m]);
            m = m + 1;
            assert(s@ =~= start + suffix@.subrange(0, m as int));
        }
        assert(suffix@.subrange(0, 7) =~= suffix@);
    }
    s
}

/// An API base URL always ends with `/api/v4`, and building it again from
/// its own result changes nothing.
pub proof fn law_api_url_idempotent(value: Seq<char>)
    ensures
        has_suffix(api_url_of(value), api_suffix()),
        api_url_of(api_url_of(value)) == api_url_of(value),
{
    let r = api_url_of(value);
    let t = trim_trailing_slashes(value);
    if !has_suffix(t, api_suffix()) {
        assert((t + api_suffix()).subrange(t.len() as int, t.len() + 7int) =~= api_suffix());
    }
    assert(r.subrange(r.len() - 7, r.len() as int) =~= api_suffix());
    assert(r.last() == '4');
    assert(trim_trailing_slashes(r) == r);
}

/// Whether a flag's text switches it on: `1`, `true` or `yes`, in any ASCII
/// letter case.
pub open spec fn flag_on(value: Seq<char>) -> bool {
    let v = ascii_lower_seq(value);
    v == seq!['1'] || v == seq!['t', 'r', 'u', 'e'] || v == seq!['y', 'e', 's']
}

/// `s` with ASCII letters folded to lower case.
pub(crate) fn lower_chars(s: &str) -> (v: Vec<char>)
    ensures
        v@ == ascii_lower_seq(s@),
{
    let c = chars_of(s);
    let mut v: Vec<char> = Vec::new();
    let mut i: usize = 0;
    while i < c.len()
        invariant
            c@ == s@,
            i <= c@.len(),
            v@ == ascii_lower_seq(s@.subrange(0, i as int)),
        decreases c@.len() - i,
    {
        v.push(to_ascii_lower(c[i]));
        i = i + 1;
        assert(v@ =~= ascii_lower_seq(s@.subrange(0, i as int)));
    }
    assert(s@.subrange(0, c@.len() as int) =~= s@);
    v
}

/// Whether the characters `v` spell exactly `t`.
pub(crate) fn chars_equal(v: &[char], t: &str) -> (b: bool)
    ensures
        b == (v@ == t@),
{
    let w = chars_of(t);
    if v.len() != w.len() {
        return false;
    }
    let mut i: usize = 0;
    while i < v.len()
        invariant
            w@ == t@,
            v@.len() == w@.len(),
            i <= v@.len(),
            forall|j: int| 0 <= j < i ==> v@[j] == w@[j],
        decreases v@.len() - i,
    {
        if v[i] != w[i] {
            return false;
        }
        i = i + 1;
    }
    assert(v@ =~= w@);
    true
}

/// Decides whether a flag's text switches it on.
pub fn flag_enabled(value: &str) -> (b: bool)
    ensures
        b == flag_on(value@),
{
    let v = lower_chars(value);
    proof {
        reveal_strlit("1");
        reveal_strlit("true");
        reveal_strlit("yes");
        assert("1"@ =~= seq!['1']);
        assert("true"@ =~= seq!['t', 'r', 'u', 'e']);
        assert("yes"@ =~= seq!['y', 'e', 's']);
    }
    chars_equal(v.as_slice(), "1") || chars_equal(v.as_slice(), "true") || chars_equal(
        v.as_slice(),
        "yes",
    )
}

/// Whether every character of `s` is an ASCII digit.
pub open spec fn all_digits(s: Seq<char>) -> bool {
    forall|i: int| 0 <= i < s.len() ==> '0' <= #[trigger] s[i] && s[i] <= '9'
}

/// The number that the decimal digits `s` spell.
pub open spec fn digits_value(s: Seq<char>) -> nat
    decreases s.len(),
{
    if s.len() == 0 {
        0
    } else {
        digits_value(s.drop_last()) * 10 + (s.last() as nat - 48) as nat
    }
}

/// The digits of an unsigned number's text: a leading `+` is dropped.
pub open spec fn unsigned_digits(s: Seq<char>) -> Seq<char> {
    if s.len() > 0 && s[0] == '+' {
        s.drop_first()
    } else {
        s
    }
}

/// What `str::parse::<usize>` gives: the value when the text is an optional
/// `+` and then one or more ASCII digits whose value fits in `usize`.
pub open spec fn usize_text_value(s: Seq<char>) -> Option<nat> {
    let d = unsigned_digits(s);
    if d.len() > 0 && all_digits(d) && digits_value(d) <= usize::MAX {
        Some(digits_value(d))
    } else {
        None
    }
}

proof fn lemma_digits_value_grows(s: Seq<char>, i: int)
    requires
        0 <= i <= s.len(),
        all_digits(s),
    ensures
        digits_value(s.subrange(0, i)) <= digits_value(s),
    decreases s.len() - i,
{
    if i < s.len() {
        lemma_digits_value_grows(s, i + 1);
        let p = s.subrange(0, i + 1);
        assert(p.drop_last() =~= s.subrange(0, i));
        assert('0' <= s[i]);
    } else {
        assert(s.subrange(0, i) =~= s);
    }
}

/// Parses an unsigned decimal number as `str::parse::<usize>` does.
pub fn parse_usize(text: &str) -> (r: Option<usize>)
    ensures
        match r {
            Some(n) => usize_text_value(text@) == Some(n as nat),
            None => usize_text_value(text@).is_none(),
        },
{
    let c = chars_of(text);
    let start: usize = if c.len() > 0 && c[0] == '+' {
        1
    } else {
        0
    };
    let ghost d = unsigned_digits(text@);
    assert(d =~= c@.subrange(start as int, c@.len() as int));
    if start >= c.len() {
        return None;
    }
    let mut acc: usize = 0;
    let mut i: usize = start;
    while i < c.len()
        invariant
            c@ == text@,
            d == unsigned_digits(text@),
            d == c@.subrange(start as int, c@.len() as int),
            start <= i <= c@.len(),
            all_digits(c@.subrange(start as int, i as int)),
            acc as nat == digits_value(c@.subrange(start as int, i as int)),
        decreases c@.len() - i,
    {
        let ch = c[i];
        if !('0' <= ch && ch <= '9') {
            assert(d[i - start] == ch);
            return None;
        }
        let digit: usize = (ch as u32 - 48) as usize;
        let prefix = Ghost(c@.subrange(start as int, i + 1));
        assert(prefix@.drop_last() =~= c@.subrange(start as int, i as int));
        assert(all_digits(prefix@));
        match acc.checked_mul(10) {
            Some(m) => match m.checked_add(digit) {
                Some(a) => {
                    acc = a;
                },
                None => {
                    proof {
                        assert(prefix@ =~= d.subrange(0, i + 1 - start));
                        lemma_overflow_rules_out(d, i + 1 - start);
                    }
                    return None;
                },
            },
            None => {
                proof {
                    assert(prefix@ =~= d.subrange(0, i + 1 - start));
                    lemma_overflow_rules_out(d, i + 1 - start);
                }
                return None;
            },
        }
        i = i + 1;
    }
    assert(c@.subrange(start as int, c@.len() as int) =~= d);
    Some(acc)
}

/// A digit prefix whose value exceeds `usize::MAX` rules the whole text out.
proof fn lemma_overflow_rules_out(d: Seq<char>, k: int)
    requires
        0 <= k <= d.len(),
        digits_value(d.subrange(0, k)) > usize::MAX,
    ensures
        !(all_digits(d) && digits_value(d) <= usize::MAX),
{
    if all_digits(d) {
        lemma_digits_value_grows(d, k);
    }
}

/// Why the connection settings could not be built.
#[derive(Debug, Clone)]
pub enum ConfigError {
    /// A required setting is absent; it carries the variable's name.
    MissingVariable(String),
    /// The response size limit is not an unsigned integer.
    InvalidMaxResponseBytes,
    /// The response size limit is zero.
    ZeroMaxResponseBytes,
    /// The token holds bytes that no HTTP header value may hold.
    InvalidTokenCharacters,
    /// A bearer token holds bytes other than visible ASCII.
    TokenNotVisibleAscii,
    /// The token type is none of the known ones; it carries the type in
    /// lower case.
    UnsupportedTokenType(String),
}

/// A configuration error with its text as characters.
pub enum ConfigErrorView {
    MissingVariable(Seq<char>),
    InvalidMaxResponseBytes,
    ZeroMaxResponseBytes,
    InvalidTokenCharacters,
    TokenNotVisibleAscii,
    UnsupportedTokenType(Seq<char>),
}

impl View for ConfigError {
    type V = ConfigErrorView;

    open spec fn view(&self) -> ConfigErrorView {
        match self {
            ConfigError::MissingVariable(name) => ConfigErrorView::MissingVariable(name@),
            ConfigError::InvalidMaxResponseBytes => ConfigErrorView::InvalidMaxResponseBytes,
            ConfigError::ZeroMaxResponseBytes => ConfigErrorView::ZeroMaxResponseBytes,
            ConfigError::InvalidTokenCharacters => ConfigErrorView::InvalidTokenCharacters,
            ConfigError::TokenNotVisibleAscii => ConfigErrorView::TokenNotVisibleAscii,
            ConfigError::UnsupportedTokenType(t) => ConfigErrorView::UnsupportedTokenType(t@),
        }
    }
}

/// The text shown for a configuration error.
pub open spec fn config_error_text(e: ConfigErrorView) -> Seq<char> {
    match e {
        ConfigErrorView::MissingVariable(name) => "missing required environment variable "@ + name,
        ConfigErrorView::InvalidMaxResponseBytes => "GITLAB_MAX_RESPONSE_BYTES must be a positive integer"@,
        ConfigErrorView::ZeroMaxResponseBytes => "GITLAB_MAX_RESPONSE_BYTES must be greater than zero"@,
        ConfigErrorView::InvalidTokenCharacters => "GITLAB_TOKEN contains invalid header characters"@,
        ConfigErrorView::TokenNotVisibleAscii => "GITLAB_TOKEN must be visible ASCII"@,
        ConfigErrorView::UnsupportedTokenType(t) => "unsupported GITLAB_TOKEN_TYPE: "@ + t
            + "; use private, oauth, or job"@,
    }
}

impl ConfigError {
    /// The text shown for this error.
    pub fn message(&self) -> (s: String)
        ensures
            s@ == config_error_text(self@),
    {
        let mut s = String::new();
        match self {
            ConfigError::MissingVariable(name) => {
                push_str(&mut s, "missing required environment variable ");
                push_str(&mut s, name.as_str());
            },
            ConfigError::InvalidMaxResponseBytes => {
                push_str(&mut s, "GITLAB_MAX_RESPONSE_BYTES must be a positive integer");
            },
            ConfigError::ZeroMaxResponseBytes => {
                push_str(&mut s, "GITLAB_MAX_RESPONSE_BYTES must be greater than zero");
            },
            ConfigError::InvalidTokenCharacters => {
                push_str(&mut s, "GITLAB_TOKEN contains invalid header characters");
            },
            ConfigError::TokenNotVisibleAscii => {
                push_str(&mut s, "GITLAB_TOKEN must be visible ASCII");
            },
            ConfigError::UnsupportedTokenType(t) => {
                push_str(&mut s, "unsupported GITLAB_TOKEN_TYPE: ");
                push_str(&mut s, t.as_str());
                push_str(&mut s, "; use private, oauth, or job");
            },
        }
        s
    }
}

/// The response size limit that the setting's text gives: the default when
/// absent, an error when it is not an unsigned integer or is zero.
pub open spec fn max_response_bytes_of(raw: Option<Seq<char>>) -> Result<nat, ConfigErrorView> {
    match raw {
        None => Ok(DEFAULT_MAX_RESPONSE_BYTES as nat),
        Some(t) => match usize_text_value(t) {
            None => Err(ConfigErrorView::InvalidMaxResponseBytes),
            Some(n) => if n == 0 {
                Err(ConfigErrorView::ZeroMaxResponseBytes)
            } else {
                Ok(n)
            },
        },
    }
}

/// Reads the response size limit from its setting's text, if any.
pub fn parse_max_response_bytes(raw: Option<&str>) -> (r: Result<usize, ConfigError>)
    ensures
        match r {
            Ok(n) => max_response_bytes_of(
                match raw {
                    Some(t) => Some(t@),
                    None => None,
                },
            ) == Ok::<nat, ConfigErrorView>(n as nat),
            Err(e) => max_response_bytes_of(
                match raw {
                    Some(t) => Some(t@),
                    None => None,
                },
            ) == Err::<nat, ConfigErrorView>(e@),
        },
{
    match raw {
        None => Ok(DEFAULT_MAX_RESPONSE_BYTES),
        Some(t) => match parse_usize(t) {
            None => Err(ConfigError::InvalidMaxResponseBytes),
            Some(n) => if n == 0 {
                Err(ConfigError::ZeroMaxResponseBytes)
            } else {
                Ok(n)
            },
        },
    }
}

/// Whether `bytes` may form an HTTP header value: every byte is a tab or at
/// least a space, and none is DEL.
pub open spec fn header_value_bytes(bytes: Seq<u8>) -> bool {
    forall|i: int| 0 <= i < bytes.len() ==> (#[trigger] bytes[i] >= 32 && bytes[i] != 127) || bytes[i] == 9
}

/// Whether every byte of `bytes` is visible ASCII or a tab.
pub open spec fn visible_ascii_bytes(bytes: Seq<u8>) -> bool {
    forall|i: int| 0 <= i < bytes.len() ==> (32 <= #[trigger] bytes[i] && bytes[i] < 127) || bytes[i] == 9
}

/// Whether `value` is accepted as an HTTP header value.
///
/// Trusted: calls `reqwest::header::HeaderValue::from_str` (the `http`
/// crate's `HeaderValue`) and reports whether it succeeded. That function
/// succeeds exactly when every byte is a tab, or at least 32 and not 127.
#[verifier::external_body]
fn header_value_accepts(value: &str) -> (b: bool)
    ensures
        b == header_value_bytes(value.spec_bytes()),
{
    reqwest::header::HeaderValue::from_str(value).is_ok()
}

/// Whether every byte of `value` is visible ASCII or a tab, the condition
/// under which a header value can be read back as text.
pub fn is_visible_ascii(value: &str) -> (b: bool)
    ensures
        b == visible_ascii_bytes(value.spec_bytes()),
{
    let bytes = value.as_bytes();
    let mut i: usize = 0;
    while i < bytes.len()
        invariant
            bytes@ == value.spec_bytes(),
            i <= bytes@.len(),
            forall|j: int| 0 <= j < i ==> (32 <= #[trigger] bytes@[j] && bytes@[j] < 127) || bytes@[j] == 9,
        decreases bytes@.len() - i,
    {
        let b: u8 = bytes[i];
        if !((32 <= b && b < 127) || b == 9) {
            return false;
        }
        i = i + 1;
    }
    true
}

/// The header that carries the token.
#[derive(Debug, Clone, Copy, PartialEq, Eq, Structural)]
pub enum AuthScheme {
    /// `PRIVATE-TOKEN: <token>`, for personal and project access tokens.
    PrivateToken,
    /// `Authorization: Bearer <token>`, for OAuth tokens.
    Bearer,
    /// `JOB-TOKEN: <token>`, for CI job tokens.
    JobToken,
}

/// The scheme named by a token type already folded to lower case.
pub open spec fn scheme_of(lowered: Seq<char>) -> Option<AuthScheme> {
    if lowered == "private"@ || lowered == "pat"@ {
        Some(AuthScheme::PrivateToken)
    } else if lowered == "oauth"@ || lowered == "bearer"@ {
        Some(AuthScheme::Bearer)
    } else if lowered == "job"@ {
        Some(AuthScheme::JobToken)
    } else {
        None
    }
}

/// The token type in effect: the configured one, or `private`.
pub open spec fn token_type_in_effect(token_type: Option<Seq<char>>) -> Seq<char> {
    match token_type {
        Some(t) => t,
        None => "private"@,
    }
}

/// The header value used by a scheme for `token`.
pub open spec fn header_value_of(scheme: AuthScheme, token: Seq<char>) -> Seq<char> {
    match scheme {
        AuthScheme::Bearer => "Bearer "@ + token,
        _ => token,
    }
}

/// Everything needed to reach the GitLab API.
#[derive(Debug, Clone)]
pub struct ClientSettings {
    /// The API base URL, ending with `/api/v4`.
    pub base_api_url: String,
    /// How the token is sent.
    pub scheme: AuthScheme,
    /// The value of that header.
    pub auth_header_value: String,
    /// Whether invalid TLS certificates are accepted.
    pub insecure: bool,
    /// The largest response body accepted, in bytes.
    pub max_response_bytes: usize,
}

/// What the settings are for the given raw values, or which error comes
/// first, in the order the settings are checked: size limit, then token
/// characters, then token type, then (for bearer tokens) visible ASCII.
pub open spec fn settings_outcome(
    token: Seq<char>,
    token_bytes: Seq<u8>,
    token_type: Option<Seq<char>>,
    max_raw: Option<Seq<char>>,
) -> Result<(AuthScheme, nat), ConfigErrorView> {
    match max_response_bytes_of(max_raw) {
        Err(e) => Err(e),
        Ok(max) => if !header_value_bytes(token_bytes) {
            Err(ConfigErrorView::InvalidTokenCharacters)
        } else {
            let lowered = ascii_lower_seq(token_type_in_effect(token_type));
            match scheme_of(lowered) {
                None => Err(ConfigErrorView::UnsupportedTokenType(lowered)),
                Some(scheme) => if scheme == AuthScheme::Bearer && !visible_ascii_bytes(token_bytes) {
                    Err(ConfigErrorView::TokenNotVisibleAscii)
                } else {
                    Ok((scheme, max))
                },
            }
        },
    }
}

/// Builds the connection settings from the raw configured values.
pub fn client_settings(
    gitlab_url: &str,
    token: &str,
    token_type: Option<&str>,
    insecure: bool,
    max_response_bytes: Option<&str>,
) -> (r: Result<ClientSettings, ConfigError>)
    ensures
        ({
            let tt = match token_type {
                Some(t) => Some(t@),
                None => None,
            };
            let mr = match max_response_bytes {
                Some(t) => Some(t@),
                None => None,
            };
            let outcome = settings_outcome(token@, token.spec_bytes(), tt, mr);
            match r {
                Ok(s) => outcome matches Ok((scheme, max)) && s.scheme == scheme
                    && s.max_response_bytes == max && s.base_api_url@ == api_url_of(gitlab_url@)
                    && s.auth_header_value@
                    == header_value_of(scheme, token@) && s.insecure == insecure,
                Err(e) => outcome == Err::<(AuthScheme, nat), ConfigErrorView>(e@),
            }
        }),
{
    let max = match parse_max_response_bytes(max_response_bytes) {
        Ok(n) => n,
        Err(e) => {
            return Err(e);
        },
    };
    if !header_value_accepts(token) {
        return Err(ConfigError::InvalidTokenCharacters);
    }
    let lowered = match token_type {
        Some(t) => lower_chars(t),
        None => {
            proof {
                reveal_strlit("private");
            }
            lower_chars("private")
        },
    };
    proof {
        reveal_strlit("private");
        reveal_strlit("pat");
        reveal_strlit("oauth");
        reveal_strlit("bearer");
        reveal_strlit("job");
    }
    let scheme = if chars_equal(lowered.as_slice(), "private") || chars_equal(
        lowered.as_slice(),
        "pat",
    ) {
        AuthScheme::PrivateToken
    } else if chars_equal(lowered.as_slice(), "oauth") || chars_equal(lowered.as_slice(), "bearer") {
        AuthScheme::Bearer
    } else if chars_equal(lowered.as_slice(), "job") {
        AuthScheme::JobToken
    } else {
        let mut t = String::new();
        crate::text::push_chars(&mut t, lowered.as_slice());
        return Err(ConfigError::UnsupportedTokenType(t));
    };
    let mut value = String::new();
    match scheme {
        AuthScheme::PrivateToken => {
            push_str(&mut value, token);
        },
        AuthScheme::Bearer => {
            if !is_visible_ascii(token) {
                return Err(ConfigError::TokenNotVisibleAscii);
            }
            push_str(&mut value, "Bearer ");
            push_str(&mut value, token);
        },
        AuthScheme::JobToken => {
            push_str(&mut value, token);
        },
    }
    Ok(
        ClientSettings {
            base_api_url: api_url(gitlab_url),
            scheme,
            auth_header_value: value,
            insecure,
            max_response_bytes: max,
        },
    )
}

/// The error for a required setting that is absent.
pub fn missing_variable(name: &str) -> (e: ConfigError)
    ensures
        e@ == ConfigErrorView::MissingVariable(name@),
{
    let mut n = String::new();
    push_str(&mut n, name);
    ConfigError::MissingVariable(n)
}

impl ClientSettings {
    /// The full URL of an API path.
    pub fn url_for(&self, path: &str) -> (s: String)
        ensures
            s@ == self.base_api_url@ + path@,
    {
        let mut s = String::new();
        push_str(&mut s, self.base_api_url.as_str());
        push_str(&mut s, path);
        s
    }

    /// The largest response body accepted, in bytes.
    pub fn max_response_bytes(&self) -> (n: usize)
        ensures
            n == self.max_response_bytes,
    {
        self.max_response_bytes
    }
}

/// Settings built from raw values always carry a positive size limit and an
/// API base URL that ends with `/api/v4`.
pub proof fn law_settings_well_formed(
    gitlab_url: Seq<char>,
    token: Seq<char>,
    token_bytes: Seq<u8>,
    token_type: Option<Seq<char>>,
    max_raw: Option<Seq<char>>,
)
    ensures
        settings_outcome(token, token_bytes, token_type, max_raw) matches Ok((_, max)) ==> max > 0,
        has_suffix(api_url_of(gitlab_url), api_suffix()),
{
    law_api_url_idempotent(gitlab_url);
}

} // verus!
