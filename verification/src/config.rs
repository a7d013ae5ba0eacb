//! Persisted configuration: the theme, an optional access token, the
//! animation speed (in thousandths of normal speed), the particle-effects
//! toggle, and the target frame rate.
//!
//! The document format is a small canonical JSON object. The encoder's
//! output is pinned exactly; the parser accepts a document only if
//! re-encoding what it read reproduces the input byte for byte, so a
//! successful parse is always the inverse of an encode. Reading and
//! writing the file itself happens outside.

use vstd::prelude::*;
use vstd::string::{StringExecFns, StrSliceExecFns};
use crate::strutil::{char_to_string, chars_to_string, dec_str, str_eq, u64_to_string};

verus! {

/// The persisted settings.
#[derive(Debug)]
pub struct Config {
    pub theme: String,
    pub github_token: Option<String>,
    pub animation_speed: u32,
    pub enable_particle_effects: bool,
    pub frame_rate: u64,
}

impl Clone for Config {
    fn clone(&self) -> (r: Config)
        ensures
            r == *self,
    {
        Config {
            theme: self.theme.clone(),
            github_token: match &self.github_token {
                Some(t) => Some(t.clone()),
                None => None,
            },
            animation_speed: self.animation_speed,
            enable_particle_effects: self.enable_particle_effects,
            frame_rate: self.frame_rate,
        }
    }
}

impl Default for Config {
    /// The defaults written when no configuration exists yet: the default
    /// palette, no token, normal speed, particles on, sixty frames per
    /// second.
    fn default() -> (r: Config)
        ensures
            r.theme@ == "neon_night"@,
            r.github_token is None,
            r.animation_speed == 1000,
            r.enable_particle_effects,
            r.frame_rate == 60,
    {
        Config {
            theme: "neon_night".to_owned(),
            github_token: None,
            animation_speed: 1000,
            enable_particle_effects: true,
            frame_rate: 60,
        }
    }
}

/// A string that can sit inside the document without escaping.
pub open spec fn plain_string(s: Seq<char>) -> bool {
    forall|i: int| 0 <= i < s.len() ==> s[i] != '"'
}

/// Whether `s` is the canonical document of `c` (whose strings then need
/// no escaping).
pub open spec fn canonical_doc(s: Seq<char>, c: Config) -> bool {
    &&& s == encode_config_spec(c)
    &&& plain_string(c.theme@)
    &&& (c.github_token matches Some(t) ==> plain_string(t@))
}

/// Where each field of `c`'s canonical document sits.
spec fn theme_end_pos(c: Config) -> int {
    10 + c.theme@.len() as int
}

spec fn tok_start_pos(c: Config) -> int {
    theme_end_pos(c) + 1 + ",\"github_token\":"@.len() as int
}

spec fn tok_end_pos(c: Config) -> int {
    tok_start_pos(c) + (match c.github_token {
        Some(t) => t@.len() + 2int,
        None => "null"@.len() as int,
    })
}

spec fn speed_start_pos(c: Config) -> int {
    tok_end_pos(c) + ",\"animation_speed\":"@.len() as int
}

spec fn speed_end_pos(c: Config) -> int {
    speed_start_pos(c) + dec_str(c.animation_speed as nat).len() as int
}

spec fn bool_start_pos(c: Config) -> int {
    speed_end_pos(c) + ",\"enable_particle_effects\":"@.len() as int
}

spec fn bool_end_pos(c: Config) -> int {
    bool_start_pos(c) + (if c.enable_particle_effects {
        "true"@.len() as int
    } else {
        "false"@.len() as int
    })
}

spec fn rate_start_pos(c: Config) -> int {
    bool_end_pos(c) + ",\"frame_rate\":"@.len() as int
}

spec fn rate_end_pos(c: Config) -> int {
    rate_start_pos(c) + dec_str(c.frame_rate as nat).len() as int
}

/// Peel one piece off the front of a suffix of `s`.
proof fn lemma_peel(s: Seq<char>, off: int, a: Seq<char>, b: Seq<char>)
    requires
        0 <= off <= s.len(),
        s.skip(off) == a + b,
    ensures
        off + a.len() + b.len() == s.len(),
        s.subrange(off, off + a.len()) == a,
        s.skip(off + a.len()) == b,
{
    assert((a + b).len() == a.len() + b.len());
    assert(s.skip(off).len() == s.len() - off);
    assert forall|k: int| 0 <= k < a.len() implies s.subrange(off, off + a.len())[k] == a[k] by {
        assert(s.subrange(off, off + a.len())[k] == s[off + k]);
        assert(s.skip(off)[k] == s[off + k]);
        assert((a + b)[k] == a[k]);
    }
    assert(s.subrange(off, off + a.len()) =~= a);
    assert forall|k: int| 0 <= k < b.len() implies s.skip(off + a.len())[k] == b[k] by {
        assert(s.skip(off + a.len())[k] == s[off + a.len() + k]);
        assert(s.skip(off)[a.len() + k] == s[off + a.len() + k]);
        assert((a + b)[a.len() + k] == b[k]);
    }
    assert(s.skip(off + a.len()) =~= b);
}

/// The exact layout of a canonical document: every label, value and
/// delimiter at its position.
#[verifier::rlimit(100)]
proof fn lemma_canonical_layout(s: Seq<char>, c: Config)
    requires
        canonical_doc(s, c),
    ensures
        s.len() == rate_end_pos(c) + 1,
        s.subrange(0, 10) == "{\"theme\":\""@,
        s.subrange(10, theme_end_pos(c)) == c.theme@,
        s[theme_end_pos(c)] == '"',
        s.subrange(theme_end_pos(c) + 1, tok_start_pos(c)) == ",\"github_token\":"@,
        c.github_token is None ==> s.subrange(tok_start_pos(c), tok_end_pos(c)) == "null"@,
        c.github_token matches Some(t) ==> (s[tok_start_pos(c)] == '"' && s.subrange(
            tok_start_pos(c) + 1,
            tok_end_pos(c) - 1,
        ) == t@ && s[tok_end_pos(c) - 1] == '"'),
        s.subrange(tok_end_pos(c), speed_start_pos(c)) == ",\"animation_speed\":"@,
        s.subrange(speed_start_pos(c), speed_end_pos(c)) == dec_str(c.animation_speed as nat),
        s.subrange(speed_end_pos(c), bool_start_pos(c)) == ",\"enable_particle_effects\":"@,
        s.subrange(bool_start_pos(c), bool_end_pos(c)) == (if c.enable_particle_effects {
            "true"@
        } else {
            "false"@
        }),
        s.subrange(bool_end_pos(c), rate_start_pos(c)) == ",\"frame_rate\":"@,
        s.subrange(rate_start_pos(c), rate_end_pos(c)) == dec_str(c.frame_rate as nat),
        s[rate_end_pos(c)] == '}',
{
    reveal_strlit("{\"theme\":\"");
    reveal_strlit("\",\"github_token\":");
    reveal_strlit(",\"github_token\":");
    reveal_strlit("\"");
    reveal_strlit("null");
    reveal_strlit(",\"animation_speed\":");
    reveal_strlit(",\"enable_particle_effects\":");
    reveal_strlit("true");
    reveal_strlit("false");
    reveal_strlit(",\"frame_rate\":");
    reveal_strlit("}");
    let p1 = "{\"theme\":\""@;
    let p2 = "\",\"github_token\":"@;
    let q = "\""@;
    let p2tail = ",\"github_token\":"@;
    let tok = token_part_spec(c.github_token);
    let tail = config_tail_spec(
        c.animation_speed as nat,
        c.enable_particle_effects,
        c.frame_rate as nat,
    );
    assert(s.skip(0) =~= s);
    lemma_peel(s, 0, p1, c.theme@ + (p2 + (tok + tail)));
    lemma_peel(s, 10, c.theme@, p2 + (tok + tail));
    let te = theme_end_pos(c);
    assert(p2 =~= q + p2tail);
    vstd::seq_lib::lemma_concat_associative(q, p2tail, tok + tail);
    assert(s.skip(te) == q + (p2tail + (tok + tail)));
    lemma_peel(s, te, q, p2tail + (tok + tail));
    assert(s[te] == s.subrange(te, te + 1)[0]);
    lemma_peel(s, te + 1, p2tail, tok + tail);
    let ts = tok_start_pos(c);
    match c.github_token {
        Some(t) => {
            vstd::seq_lib::lemma_concat_associative(t@, q, tail);
            vstd::seq_lib::lemma_concat_associative(q, t@ + (q + tail), Seq::<char>::empty());
            assert(tok + tail =~= q + (t@ + (q + tail)));
            assert(s.skip(ts) == q + (t@ + (q + tail)));
            lemma_peel(s, ts, q, t@ + (q + tail));
            assert(s[ts] == s.subrange(ts, ts + 1)[0]);
            lemma_peel(s, ts + 1, t@, q + tail);
            lemma_peel(s, ts + 1 + t@.len(), q, tail);
            assert(s[tok_end_pos(c) - 1] == s.subrange(
                tok_end_pos(c) - 1,
                tok_end_pos(c),
            )[0]);
        },
        None => {
            lemma_peel(s, ts, "null"@, tail);
        },
    }
    let tke = tok_end_pos(c);
    assert(s.skip(tke) == tail);
    let p3 = ",\"animation_speed\":"@;
    let p4 = ",\"enable_particle_effects\":"@;
    let p5 = ",\"frame_rate\":"@;
    let p6 = "}"@;
    let ds = dec_str(c.animation_speed as nat);
    let bp = if c.enable_particle_effects {
        "true"@
    } else {
        "false"@
    };
    let dr = dec_str(c.frame_rate as nat);
    lemma_peel(s, tke, p3, ds + (p4 + (bp + (p5 + (dr + p6)))));
    lemma_peel(s, speed_start_pos(c), ds, p4 + (bp + (p5 + (dr + p6))));
    lemma_peel(s, speed_end_pos(c), p4, bp + (p5 + (dr + p6)));
    lemma_peel(s, bool_start_pos(c), bp, p5 + (dr + p6));
    lemma_peel(s, bool_end_pos(c), p5, dr + p6);
    lemma_peel(s, rate_start_pos(c), dr, p6);
    lemma_peel(s, rate_end_pos(c), p6, Seq::<char>::empty());
    assert(s[rate_end_pos(c)] == s.subrange(rate_end_pos(c), rate_end_pos(c) + 1)[0]);
}

/// The token field of the document: a quoted value, or the word null.
pub open spec fn token_part_spec(token: Option<String>) -> Seq<char> {
    match token {
        Some(t) => "\""@ + (t@ + "\""@),
        None => "null"@,
    }
}

/// The canonical document for a configuration.
pub open spec fn encode_config_spec(c: Config) -> Seq<char> {
    "{\"theme\":\""@ + (c.theme@ + ("\",\"github_token\":"@ + (token_part_spec(c.github_token)
        + config_tail_spec(
        c.animation_speed as nat,
        c.enable_particle_effects,
        c.frame_rate as nat,
    ))))
}

/// Write a configuration as its canonical document.
#[verifier::rlimit(100)]
pub fn encode_config(c: &Config) -> (r: String)
    ensures
        r@ == encode_config_spec(*c),
{
    let mut s = String::new();
    s.append("{\"theme\":\"");
    s.append(c.theme.as_str());
    s.append("\",\"github_token\":");
    match &c.github_token {
        Some(t) => {
            s.append("\"");
            s.append(t.as_str());
            s.append("\"");
        },
        None => {
            s.append("null");
        },
    }
    s.append(",\"animation_speed\":");
    let speed = u64_to_string(c.animation_speed as u64);
    s.append(speed.as_str());
    s.append(",\"enable_particle_effects\":");
    if c.enable_particle_effects {
        s.append("true");
    } else {
        s.append("false");
    }
    s.append(",\"frame_rate\":");
    let rate = u64_to_string(c.frame_rate);
    s.append(rate.as_str());
    s.append("}");
    proof {
        assert(s@ =~= encode_config_spec(*c));
    }
    s
}

/// Skip past an expected literal. The match succeeds exactly when the
/// literal sits at the position.
fn expect_lit(s: &str, i: usize, lit: &str) -> (r: Option<usize>)
    requires
        i <= s@.len(),
    ensures
        r matches Some(j) ==> i + lit@.len() == j <= s@.len() && s@.subrange(
            i as int,
            i + lit@.len(),
        ) == lit@,
        i + lit@.len() <= s@.len() && s@.subrange(i as int, i + lit@.len()) == lit@ ==> r
            is Some,
{
    let n = s.unicode_len();
    let m = lit.unicode_len();
    if n - i < m {
        return None;
    }
    let mut k: usize = 0;
    while k < m
        invariant
            k <= m,
            m == lit@.len(),
            n == s@.len(),
            i + m <= n,
            forall|j: int| 0 <= j < k ==> s@[i + j] == lit@[j],
        decreases m - k,
    {
        if s.get_char(i + k) != lit.get_char(k) {
            proof {
                if s@.subrange(i as int, i + lit@.len()) == lit@ {
                    assert(s@.subrange(i as int, i + lit@.len())[k as int] == s@[i + k]);
                }
            }
            return None;
        }
        k = k + 1;
    }
    proof {
        assert(s@.subrange(i as int, i + lit@.len()) =~= lit@);
    }
    Some(i + m)
}

/// Collect the characters strictly before the next quote, and skip past
/// that quote. The scan succeeds exactly when a quote remains, and what
/// comes back never holds one.
fn scan_string(s: &str, i: usize) -> (r: Option<(Vec<char>, usize)>)
    requires
        i <= s@.len(),
    ensures
        r matches Some(p) ==> {
            &&& i < p.1 <= s@.len()
            &&& plain_string(p.0@)
            &&& p.0@ == s@.subrange(i as int, p.1 - 1)
            &&& s@[p.1 - 1] == '"'
        },
        (exists|k: int| i <= k < s@.len() && s@[k] == '"') ==> r is Some,
{
    let n = s.unicode_len();
    let mut out: Vec<char> = Vec::new();
    let mut j: usize = i;
    while j < n
        invariant
            i <= j <= n,
            n == s@.len(),
            plain_string(out@),
            out@ == s@.subrange(i as int, j as int),
        decreases n - j,
    {
        let c = s.get_char(j);
        if c == '"' {
            return Some((out, j + 1));
        }
        out.push(c);
        proof {
            assert(out@ =~= s@.subrange(i as int, j + 1));
        }
        j = j + 1;
    }
    proof {
        if exists|k: int| i <= k < s@.len() && s@[k] == '"' {
            let k = choose|k: int| i <= k < s@.len() && s@[k] == '"';
            assert(out@[k - i] == s@[k]);
            assert(false);
        }
    }
    None
}

/// The decimal rendering of `v` sits at position `i` of `s`, closed by
/// the end of the text or a non-digit.
spec fn number_run_at(s: Seq<char>, i: int, v: u64) -> bool {
    &&& i + dec_str(v as nat).len() <= s.len()
    &&& s.subrange(i, i + dec_str(v as nat).len() as int) == dec_str(v as nat)
    &&& (i + dec_str(v as nat).len() == s.len() || !crate::strutil::is_dec_digit(
        s[i + dec_str(v as nat).len() as int],
    ))
}

/// The numeric value of one digit character, or ten for anything else.
fn digit_of(c: char) -> (d: u64)
    ensures
        crate::strutil::is_dec_digit(c) ==> d == crate::strutil::dec_digit_val(c),
        !crate::strutil::is_dec_digit(c) ==> d == 10,
{
    match c {
        '0' => 0,
        '1' => 1,
        '2' => 2,
        '3' => 3,
        '4' => 4,
        '5' => 5,
        '6' => 6,
        '7' => 7,
        '8' => 8,
        '9' => 9,
        _ => 10,
    }
}

/// `value * 10 + digit` stays a valid number exactly when `value` is at
/// most the division bound.
proof fn lemma_digit_step_bound(value: u64, digit: u64)
    requires
        digit < 10,
    ensures
        value <= (u64::MAX - digit) / 10 <==> value * 10 + digit <= u64::MAX,
{
    vstd::arithmetic::div_mod::lemma_fundamental_div_mod((u64::MAX - digit) as int, 10);
}

/// Read a run of decimal digits as a number. A run that names a number
/// too large for the type fails the parse; a canonical rendering of any
/// value is read back exactly.
fn scan_number(s: &str, i: usize) -> (r: Option<(u64, usize)>)
    requires
        i <= s@.len(),
    ensures
        r matches Some(p) ==> i <= p.1 <= s@.len(),
        forall|v: u64| #[trigger] number_run_at(s@, i as int, v) ==> r == Some(
            (v, (i + dec_str(v as nat).len()) as usize),
        ),
{
    let n = s.unicode_len();
    let mut value: u64 = 0;
    let mut j: usize = i;
    while j < n && digit_of(s.get_char(j)) != 10
        invariant
            i <= j <= n,
            n == s@.len(),
            forall|k: int| i <= k < j ==> crate::strutil::is_dec_digit(#[trigger] s@[k]),
            value == crate::strutil::fold_digits(s@.subrange(i as int, j as int)),
        decreases n - j,
    {
        let digit = digit_of(s.get_char(j));
        let limit = (u64::MAX - digit) / 10;
        proof {
            lemma_digit_step_bound(value, digit);
        }
        if value > limit {
            proof {
                lemma_no_run_fits(s@, i as int, j as int, value, digit);
            }
            return None;
        }
        value = value * 10 + digit;
        proof {
            assert(s@.subrange(i as int, j + 1).drop_last() =~= s@.subrange(i as int, j as int));
            assert(s@.subrange(i as int, j + 1).last() == s@[j as int]);
        }
        j = j + 1;
    }
    if j == i {
        proof {
            assert forall|v: u64| !number_run_at(s@, i as int, v) by {
                if number_run_at(s@, i as int, v) {
                    crate::strutil::lemma_dec_str_digits(v as nat);
                    assert(s@.subrange(i as int, i + dec_str(v as nat).len() as int)[0] == s@[
                        i as int
                    ]);
                }
            }
        }
        return None;
    }
    proof {
        assert forall|v: u64| #[trigger] number_run_at(s@, i as int, v) implies Some((value, j))
            == Some((v, (i + dec_str(v as nat).len()) as usize)) by {
            lemma_run_pins_end(s@, i as int, j as int, v);
            assert(value == crate::strutil::fold_digits(dec_str(v as nat)));
            crate::strutil::lemma_fold_dec_str(v as nat);
        }
    }
    Some((value, j))
}

/// A digit run the scan walked off mid-way names a number past the type's
/// bound, so no canonical rendering sits there.
proof fn lemma_no_run_fits(s: Seq<char>, i: int, j: int, value: u64, digit: u64)
    requires
        0 <= i <= j < s.len(),
        forall|k: int| i <= k < j ==> crate::strutil::is_dec_digit(#[trigger] s[k]),
        crate::strutil::is_dec_digit(s[j]),
        crate::strutil::dec_digit_val(s[j]) == digit,
        value == crate::strutil::fold_digits(s.subrange(i, j)),
        value * 10 + digit > u64::MAX,
    ensures
        forall|v: u64| !(#[trigger] number_run_at(s, i, v)),
{
    assert forall|v: u64| !(#[trigger] number_run_at(s, i, v)) by {
        if number_run_at(s, i, v) {
            lemma_run_pins_end_partial(s, i, j, v);
            // the scanned digits are a prefix of the rendering of v
            let d = dec_str(v as nat);
            let scanned = s.subrange(i, j + 1);
            assert forall|k: int| 0 <= k < j + 1 - i implies scanned[k] == d[k] by {
                assert(scanned[k] == s[i + k]);
                assert(s.subrange(i, i + d.len() as int)[k] == s[i + k]);
            }
            assert(scanned =~= d.take(j + 1 - i));
            crate::strutil::lemma_fold_prefix_le(d, j + 1 - i);
            crate::strutil::lemma_fold_dec_str(v as nat);
            assert(scanned.drop_last() =~= s.subrange(i, j));
            assert(scanned.last() == s[j]);
            assert(crate::strutil::fold_digits(scanned) == value * 10 + digit);
        }
    }
}

/// Walking a digit run that starts with a whole canonical rendering ends
/// exactly at that rendering's end.
proof fn lemma_run_pins_end_partial(s: Seq<char>, i: int, j: int, v: u64)
    requires
        0 <= i <= j < s.len(),
        forall|k: int| i <= k < j ==> crate::strutil::is_dec_digit(#[trigger] s[k]),
        crate::strutil::is_dec_digit(s[j]),
        number_run_at(s, i, v),
    ensures
        j + 1 <= i + dec_str(v as nat).len(),
{
    let d = dec_str(v as nat);
    crate::strutil::lemma_dec_str_digits(v as nat);
    if j + 1 > i + d.len() {
        // the run's closing position would itself be a scanned digit
        assert(i + d.len() < s.len());
        assert(!crate::strutil::is_dec_digit(s[i + d.len() as int]));
        if i + d.len() as int == j {
            assert(false);
        } else {
            assert(i <= i + d.len() < j);
            assert(false);
        }
    }
}

/// A scan that stopped at the text's end or a non-digit, having started
/// with a whole canonical rendering, stopped exactly at its end.
proof fn lemma_run_pins_end(s: Seq<char>, i: int, j: int, v: u64)
    requires
        0 <= i <= j <= s.len(),
        forall|k: int| i <= k < j ==> crate::strutil::is_dec_digit(#[trigger] s[k]),
        j == s.len() || !crate::strutil::is_dec_digit(s[j]),
        number_run_at(s, i, v),
    ensures
        j == i + dec_str(v as nat).len(),
        s.subrange(i, j) == dec_str(v as nat),
{
    let d = dec_str(v as nat);
    crate::strutil::lemma_dec_str_digits(v as nat);
    if j < i + d.len() {
        // position j lies inside the rendering, so it is a digit
        assert(s.subrange(i, i + d.len() as int)[j - i] == s[j]);
        assert(crate::strutil::is_dec_digit(d[j - i]));
        assert(false);
    }
    if j > i + d.len() {
        // the rendering's closing position was scanned as a digit
        assert(i <= i + d.len() < j);
        assert(!crate::strutil::is_dec_digit(s[i + d.len() as int]));
        assert(false);
    }
    assert forall|k: int| 0 <= k < d.len() implies s.subrange(i, j)[k] == d[k] by {
        assert(s.subrange(i, i + d.len() as int)[k] == s[i + k]);
        assert(s.subrange(i, j)[k] == s[i + k]);
    }
    assert(s.subrange(i, j) =~= d);
}

/// Read a configuration back from its document. A parse succeeds exactly
/// on canonical documents: re-encoding what was read must reproduce the
/// input byte for byte, so whatever comes back is the one configuration
/// the document encodes — and by [`lemma_document_determines_config`],
/// the only one. In particular, reading back what [`encode_config`]
/// wrote always succeeds.
pub fn parse_config(s: &str) -> (r: Option<Config>)
    ensures
        r matches Some(c) ==> {
            &&& s@ == encode_config_spec(c)
            &&& plain_string(c.theme@)
            &&& (c.github_token matches Some(t) ==> plain_string(t@))
        },
        (exists|c: Config| canonical_doc(s@, c)) ==> r is Some,
{
    let candidate = scan_config(s);
    match candidate {
        Some(c) => {
            let reencoded = encode_config(&c);
            if str_eq(reencoded.as_str(), s) {
                Some(c)
            } else {
                None
            }
        },
        None => None,
    }
}

/// A quote-free region closed by a quote pins where a quote scan stops:
/// at that quote, having read exactly the region.
proof fn lemma_pin_quote(
    s: Seq<char>,
    start: int,
    qpos: int,
    j: int,
    region: Seq<char>,
    scanned: Seq<char>,
)
    requires
        0 <= start <= qpos < s.len(),
        s.subrange(start, qpos) == region,
        plain_string(region),
        s[qpos] == '"',
        start < j <= s.len(),
        scanned == s.subrange(start, j - 1),
        plain_string(scanned),
        s[j - 1] == '"',
    ensures
        j - 1 == qpos,
        scanned == region,
{
    if j - 1 < qpos {
        assert(s.subrange(start, qpos)[j - 1 - start] == s[j - 1]);
        assert(false);
    }
    if j - 1 > qpos {
        assert(s.subrange(start, j - 1)[qpos - start] == s[qpos]);
        assert(false);
    }
}

/// The scan behind [`parse_config`]: its strings' plainness is relied on
/// directly; on a canonical document it reads back a configuration whose
/// document is the input, so the re-encoding check must pass.
#[verifier::rlimit(100)]
fn scan_config(s: &str) -> (r: Option<Config>)
    ensures
        r matches Some(c) ==> plain_string(c.theme@) && (c.github_token matches Some(t)
            ==> plain_string(t@)),
        (exists|c: Config| canonical_doc(s@, c)) ==> (r matches Some(c2)
            && encode_config_spec(c2) == s@),
{
    let ghost has_canon = exists|c: Config| canonical_doc(s@, c);
    let ghost cc: Config = if has_canon {
        choose|c: Config| canonical_doc(s@, c)
    } else {
        arbitrary()
    };
    proof {
        if has_canon {
            lemma_canonical_layout(s@, cc);
            reveal_strlit("{\"theme\":\"");
            reveal_strlit(",\"github_token\":");
            reveal_strlit("null");
            reveal_strlit(",\"animation_speed\":");
            reveal_strlit(",\"enable_particle_effects\":");
            reveal_strlit("true");
            reveal_strlit("false");
            reveal_strlit(",\"frame_rate\":");
            reveal_strlit("}");
        }
    }
    let i = match expect_lit(s, 0, "{\"theme\":\"") {
        Some(i) => i,
        None => {
            proof {
                if has_canon {
                    assert(false);
                }
            }
            return None;
        },
    };
    let (theme_chars, i) = match scan_string(s, i) {
        Some(p) => p,
        None => {
            proof {
                if has_canon {
                    assert(s@[theme_end_pos(cc)] == '"');
                    assert(false);
                }
            }
            return None;
        },
    };
    proof {
        if has_canon {
            lemma_pin_quote(
                s@,
                10,
                theme_end_pos(cc),
                i as int,
                cc.theme@,
                theme_chars@,
            );
        }
    }
    let i = match expect_lit(s, i, ",\"github_token\":") {
        Some(i) => i,
        None => {
            proof {
                if has_canon {
                    assert(false);
                }
            }
            return None;
        },
    };
    let n = s.unicode_len();
    let (github_token, i) = if i < n && s.get_char(i) == '"' {
        proof {
            if has_canon {
                if cc.github_token is None {
                    assert(s@[tok_start_pos(cc)] == ",\"github_token\":"@[0]) by {
                        assert(s@.subrange(tok_start_pos(cc), tok_end_pos(cc))[0] == s@[
                            tok_start_pos(cc)
                        ]);
                        assert("null"@[0] == 'n');
                    }
                    assert(false);
                }
            }
        }
        match scan_string(s, i + 1) {
            Some((tok_chars, j)) => {
                proof {
                    if has_canon {
                        lemma_pin_quote(
                            s@,
                            tok_start_pos(cc) + 1,
                            tok_end_pos(cc) - 1,
                            j as int,
                            cc.github_token->Some_0@,
                            tok_chars@,
                        );
                    }
                }
                (Some(chars_to_string(&tok_chars)), j)
            },
            None => {
                proof {
                    if has_canon {
                        assert(s@[tok_end_pos(cc) - 1] == '"');
                        assert(false);
                    }
                }
                return None;
            },
        }
    } else {
        proof {
            if has_canon {
                if cc.github_token is Some {
                    assert(s@[tok_start_pos(cc)] == '"');
                    assert(false);
                }
            }
        }
        match expect_lit(s, i, "null") {
            Some(j) => (None, j),
            None => {
                proof {
                    if has_canon {
                        assert(false);
                    }
                }
                return None;
            },
        }
    };
    proof {
        if has_canon {
            assert(i == tok_end_pos(cc));
            assert(github_token is Some <==> cc.github_token is Some);
            if github_token is Some {
                assert(github_token->Some_0@ == cc.github_token->Some_0@);
            }
        }
    }
    let i = match expect_lit(s, i, ",\"animation_speed\":") {
        Some(i) => i,
        None => {
            proof {
                if has_canon {
                    assert(false);
                }
            }
            return None;
        },
    };
    let (speed, i) = match scan_number(s, i) {
        Some(p) => p,
        None => {
            proof {
                if has_canon {
                    lemma_speed_run(s@, cc);
                }
            }
            return None;
        },
    };
    proof {
        if has_canon {
            lemma_speed_run(s@, cc);
        }
    }
    if speed > 0xffffffff {
        proof {
            if has_canon {
                assert(false);
            }
        }
        return None;
    }
    let i = match expect_lit(s, i, ",\"enable_particle_effects\":") {
        Some(i) => i,
        None => {
            proof {
                if has_canon {
                    assert(false);
                }
            }
            return None;
        },
    };
    let (enable_particle_effects, i) = match expect_lit(s, i, "true") {
        Some(j) => {
            proof {
                if has_canon && !cc.enable_particle_effects {
                    assert(s@.subrange(bool_start_pos(cc), bool_end_pos(cc))[0] == s@[
                        bool_start_pos(cc)
                    ]);
                    assert(s@.subrange(
                        bool_start_pos(cc) as int,
                        bool_start_pos(cc) + "true"@.len(),
                    )[0] == s@[bool_start_pos(cc)]);
                    assert(false);
                }
            }
            (true, j)
        },
        None => {
            match expect_lit(s, i, "false") {
                Some(j) => {
                    proof {
                        if has_canon && cc.enable_particle_effects {
                            assert(false);
                        }
                    }
                    (false, j)
                },
                None => {
                    proof {
                        if has_canon {
                            assert(false);
                        }
                    }
                    return None;
                },
            }
        },
    };
    proof {
        if has_canon {
            assert(enable_particle_effects == cc.enable_particle_effects);
            assert(i == bool_end_pos(cc));
        }
    }
    let i = match expect_lit(s, i, ",\"frame_rate\":") {
        Some(i) => i,
        None => {
            proof {
                if has_canon {
                    assert(false);
                }
            }
            return None;
        },
    };
    let (frame_rate, i) = match scan_number(s, i) {
        Some(p) => p,
        None => {
            proof {
                if has_canon {
                    lemma_rate_run(s@, cc);
                }
            }
            return None;
        },
    };
    proof {
        if has_canon {
            lemma_rate_run(s@, cc);
        }
    }
    let i = match expect_lit(s, i, "}") {
        Some(i) => i,
        None => {
            proof {
                if has_canon {
                    assert(s@.subrange(rate_end_pos(cc), rate_end_pos(cc) + 1) =~= "}"@);
                    assert(false);
                }
            }
            return None;
        },
    };
    if i != s.unicode_len() {
        proof {
            if has_canon {
                assert(false);
            }
        }
        return None;
    }
    let config = Config {
        theme: chars_to_string(&theme_chars),
        github_token,
        animation_speed: speed as u32,
        enable_particle_effects,
        frame_rate,
    };
    proof {
        if has_canon {
            assert(config.theme@ == cc.theme@);
            assert(token_part_spec(config.github_token) == token_part_spec(cc.github_token));
            assert(config.animation_speed == cc.animation_speed);
            assert(config.frame_rate == cc.frame_rate);
            assert(encode_config_spec(config) == encode_config_spec(cc));
        }
    }
    Some(config)
}

/// The animation-speed digits of a canonical document form a number run.
proof fn lemma_speed_run(s: Seq<char>, c: Config)
    requires
        canonical_doc(s, c),
    ensures
        number_run_at(s, speed_start_pos(c), c.animation_speed as u64),
{
    lemma_canonical_layout(s, c);
    reveal_strlit(",\"enable_particle_effects\":");
    assert(s.subrange(speed_end_pos(c), bool_start_pos(c))[0] == s[speed_end_pos(c)]);
    assert(s[speed_end_pos(c)] == ',');
    assert(dec_str((c.animation_speed as u64) as nat) == dec_str(c.animation_speed as nat));
}

/// The frame-rate digits of a canonical document form a number run.
proof fn lemma_rate_run(s: Seq<char>, c: Config)
    requires
        canonical_doc(s, c),
    ensures
        number_run_at(s, rate_start_pos(c), c.frame_rate),
{
    lemma_canonical_layout(s, c);
    reveal_strlit("}");
    assert(s[rate_end_pos(c)] == '}');
}

/// The target frame period in milliseconds.
pub fn frame_duration_ms(frame_rate: u64) -> (r: u64)
    requires
        frame_rate > 0,
    ensures
        r == 1000 as int / frame_rate as int,
{
    1000 / frame_rate
}

/// The input poll timeout: a quarter of the frame period, so the loop
/// stays responsive between frames without spinning.
pub fn poll_timeout_ms(frame_ms: u64) -> (r: u64)
    ensures
        r == frame_ms as int / 4,
{
    frame_ms / 4
}


/// Dropping an equal prefix of two equal concatenations leaves equal
/// remainders.
proof fn lemma_strip_prefix(a: Seq<char>, x: Seq<char>, y: Seq<char>)
    requires
        a + x == a + y,
    ensures
        x == y,
{
    assert((a + x).len() == a.len() + x.len());
    assert((a + y).len() == a.len() + y.len());
    assert(x.len() == y.len());
    assert forall|i: int| 0 <= i < x.len() implies x[i] == y[i] by {
        assert((a + x)[a.len() + i] == x[i]);
        assert((a + y)[a.len() + i] == y[i]);
    }
    assert(x =~= y);
}

/// A quote-free segment closed by a quote is determined by the whole:
/// both sides cut at the first quote.
proof fn lemma_quote_delimited(a: Seq<char>, b: Seq<char>, ra: Seq<char>, rb: Seq<char>)
    requires
        a + ra == b + rb,
        forall|i: int| 0 <= i < a.len() ==> a[i] != '"',
        forall|i: int| 0 <= i < b.len() ==> b[i] != '"',
        ra.len() > 0,
        rb.len() > 0,
        ra[0] == '"',
        rb[0] == '"',
    ensures
        a == b,
        ra == rb,
{
    let s = a + ra;
    assert(s.len() == a.len() + ra.len());
    assert((b + rb).len() == b.len() + rb.len());
    if a.len() < b.len() {
        assert(s[a.len() as int] == ra[0]);
        assert((b + rb)[a.len() as int] == b[a.len() as int]);
        assert(false);
    }
    if b.len() < a.len() {
        assert(s[b.len() as int] == a[b.len() as int]);
        assert((b + rb)[b.len() as int] == rb[0]);
        assert(false);
    }
    assert forall|i: int| 0 <= i < a.len() implies a[i] == b[i] by {
        assert(s[i] == a[i]);
        assert((b + rb)[i] == b[i]);
    }
    assert(a =~= b);
    lemma_strip_prefix(a, ra, rb);
}

/// A digit run closed by a non-digit is determined by the whole: both
/// sides cut at the first non-digit, and equal digit runs name equal
/// numbers.
proof fn lemma_number_delimited(m: nat, n: nat, ra: Seq<char>, rb: Seq<char>)
    requires
        dec_str(m) + ra == dec_str(n) + rb,
        ra.len() > 0,
        rb.len() > 0,
        !crate::strutil::is_dec_digit(ra[0]),
        !crate::strutil::is_dec_digit(rb[0]),
    ensures
        m == n,
        ra == rb,
{
    let a = dec_str(m);
    let b = dec_str(n);
    crate::strutil::lemma_dec_str_digits(m);
    crate::strutil::lemma_dec_str_digits(n);
    let s = a + ra;
    assert(s.len() == a.len() + ra.len());
    assert((b + rb).len() == b.len() + rb.len());
    if a.len() < b.len() {
        assert(s[a.len() as int] == ra[0]);
        assert((b + rb)[a.len() as int] == b[a.len() as int]);
        assert(false);
    }
    if b.len() < a.len() {
        assert(s[b.len() as int] == a[b.len() as int]);
        assert((b + rb)[b.len() as int] == rb[0]);
        assert(false);
    }
    assert forall|i: int| 0 <= i < a.len() implies a[i] == b[i] by {
        assert(s[i] == a[i]);
        assert((b + rb)[i] == b[i]);
    }
    assert(a =~= b);
    crate::strutil::lemma_dec_str_injective(m, n);
    lemma_strip_prefix(a, ra, rb);
}

/// The document's tail from the animation-speed label on.
pub open spec fn config_tail_spec(speed: nat, particles: bool, rate: nat) -> Seq<char> {
    ",\"animation_speed\":"@ + (dec_str(speed) + (",\"enable_particle_effects\":"@ + ((if particles {
        "true"@
    } else {
        "false"@
    }) + (",\"frame_rate\":"@ + (dec_str(rate) + "}"@)))))
}

/// The numeric and boolean fields are pinned by the document's tail.
#[verifier::rlimit(100)]
proof fn lemma_tail_determines(
    speed1: nat,
    speed2: nat,
    particles1: bool,
    particles2: bool,
    rate1: nat,
    rate2: nat,
)
    requires
        config_tail_spec(speed1, particles1, rate1) == config_tail_spec(
            speed2,
            particles2,
            rate2,
        ),
    ensures
        speed1 == speed2,
        particles1 == particles2,
        rate1 == rate2,
{
    reveal_strlit(",\"animation_speed\":");
    reveal_strlit(",\"enable_particle_effects\":");
    reveal_strlit("true");
    reveal_strlit("false");
    reveal_strlit(",\"frame_rate\":");
    reveal_strlit("}");
    let p3 = ",\"animation_speed\":"@;
    let p4 = ",\"enable_particle_effects\":"@;
    let p5 = ",\"frame_rate\":"@;
    let p6 = "}"@;
    let bool1 = if particles1 {
        "true"@
    } else {
        "false"@
    };
    let bool2 = if particles2 {
        "true"@
    } else {
        "false"@
    };
    let after_speed1 = p4 + (bool1 + (p5 + (dec_str(rate1) + p6)));
    let after_speed2 = p4 + (bool2 + (p5 + (dec_str(rate2) + p6)));
    lemma_strip_prefix(p3, dec_str(speed1) + after_speed1, dec_str(speed2) + after_speed2);
    assert(after_speed1[0] == ',');
    assert(after_speed2[0] == ',');
    lemma_number_delimited(speed1, speed2, after_speed1, after_speed2);
    let after_bool1 = p5 + (dec_str(rate1) + p6);
    let after_bool2 = p5 + (dec_str(rate2) + p6);
    lemma_strip_prefix(p4, bool1 + after_bool1, bool2 + after_bool2);
    assert((bool1 + after_bool1)[0] == bool1[0]);
    assert((bool2 + after_bool2)[0] == bool2[0]);
    if particles1 != particles2 {
        assert(bool1[0] != bool2[0]);
        assert(false);
    }
    assert(bool1 =~= bool2);
    lemma_strip_prefix(bool1, after_bool1, after_bool2);
    lemma_strip_prefix(p5, dec_str(rate1) + p6, dec_str(rate2) + p6);
    assert(p6[0] == '}');
    lemma_number_delimited(rate1, rate2, p6, p6);
}

/// One document encodes one configuration: two configurations whose
/// strings need no escaping and whose documents read the same are the
/// same, field for field. Together with `parse_config`'s contract, what
/// a successful parse returns carries exactly the fields that were
/// written.
#[verifier::rlimit(100)]
pub proof fn lemma_document_determines_config(c1: Config, c2: Config)
    requires
        encode_config_spec(c1) == encode_config_spec(c2),
        plain_string(c1.theme@),
        plain_string(c2.theme@),
        c1.github_token matches Some(t) ==> plain_string(t@),
        c2.github_token matches Some(t) ==> plain_string(t@),
    ensures
        c1.theme@ == c2.theme@,
        c1.github_token is Some <==> c2.github_token is Some,
        c1.github_token matches Some(t1) ==> (c2.github_token matches Some(t2) ==> t1@ == t2@),
        c1.animation_speed == c2.animation_speed,
        c1.enable_particle_effects == c2.enable_particle_effects,
        c1.frame_rate == c2.frame_rate,
{
    reveal_strlit("{\"theme\":\"");
    reveal_strlit("\",\"github_token\":");
    reveal_strlit("\"");
    reveal_strlit("null");
    reveal_strlit(",\"animation_speed\":");
    let p1 = "{\"theme\":\""@;
    let p2 = "\",\"github_token\":"@;
    let q = "\""@;
    let tok1 = token_part_spec(c1.github_token);
    let tok2 = token_part_spec(c2.github_token);
    let tail1 = config_tail_spec(
        c1.animation_speed as nat,
        c1.enable_particle_effects,
        c1.frame_rate as nat,
    );
    let tail2 = config_tail_spec(
        c2.animation_speed as nat,
        c2.enable_particle_effects,
        c2.frame_rate as nat,
    );
    let mid1 = p2 + (tok1 + tail1);
    let mid2 = p2 + (tok2 + tail2);
    lemma_strip_prefix(p1, c1.theme@ + mid1, c2.theme@ + mid2);
    assert(mid1[0] == '"');
    assert(mid2[0] == '"');
    lemma_quote_delimited(c1.theme@, c2.theme@, mid1, mid2);
    lemma_strip_prefix(p2, tok1 + tail1, tok2 + tail2);
    assert((tok1 + tail1)[0] == tok1[0]);
    assert((tok2 + tail2)[0] == tok2[0]);
    match (c1.github_token, c2.github_token) {
        (Some(t1), Some(t2)) => {
            vstd::seq_lib::lemma_concat_associative(t1@, q, tail1);
            vstd::seq_lib::lemma_concat_associative(t2@, q, tail2);
            assert(tok1 + tail1 =~= q + (t1@ + (q + tail1)));
            assert(tok2 + tail2 =~= q + (t2@ + (q + tail2)));
            lemma_strip_prefix(q, t1@ + (q + tail1), t2@ + (q + tail2));
            assert((q + tail1)[0] == '"');
            assert((q + tail2)[0] == '"');
            lemma_quote_delimited(t1@, t2@, q + tail1, q + tail2);
            lemma_strip_prefix(q, tail1, tail2);
        },
        (None, None) => {
            lemma_strip_prefix("null"@, tail1, tail2);
        },
        (Some(_), None) => {
            assert(tok1[0] == '"');
            assert(tok2[0] == 'n');
            assert(false);
        },
        (None, Some(_)) => {
            assert(tok1[0] == 'n');
            assert(tok2[0] == '"');
            assert(false);
        },
    }
    lemma_tail_determines(
        c1.animation_speed as nat,
        c2.animation_speed as nat,
        c1.enable_particle_effects,
        c2.enable_particle_effects,
        c1.frame_rate as nat,
        c2.frame_rate as nat,
    );
}

} // verus!
