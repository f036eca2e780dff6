//! Local password analysis: pattern detection, character classes, and the
//! warnings and suggestions shown to the user.
//!
//! Entropy estimates in bits are fractional; this module reports every
//! pattern's entropy penalty exactly, in half-bits, and the size of the
//! character space a password draws from.

use vstd::prelude::*;
use vstd::string::*;
use crate::scanner::{threat_rank, ThreatLevel};
use crate::text::{push_char, push_decimal, decimal, chars_of};

verus! {

/// Password strength rating, from very weak to very strong.
#[derive(Clone, Copy, Debug, PartialEq, Eq, Structural, PartialOrd, Ord, Hash)]
pub enum PasswordStrength {
    /// Trivially guessable.
    VeryWeak,
    /// Vulnerable to basic attacks.
    Weak,
    /// May resist casual attacks.
    Fair,
    /// Resists most attacks.
    Strong,
    /// Resists sophisticated attacks.
    VeryStrong,
}

/// Display text of a strength rating.
pub open spec fn strength_text(s: PasswordStrength) -> Seq<char> {
    match s {
        PasswordStrength::VeryWeak => "very_weak"@,
        PasswordStrength::Weak => "weak"@,
        PasswordStrength::Fair => "fair"@,
        PasswordStrength::Strong => "strong"@,
        PasswordStrength::VeryStrong => "very_strong"@,
    }
}

impl PasswordStrength {
    /// The snake-case display text.
    pub fn to_string(&self) -> (s: String)
        ensures
            s@ == strength_text(*self),
    {
        match self {
            PasswordStrength::VeryWeak => String::from_str("very_weak"),
            PasswordStrength::Weak => String::from_str("weak"),
            PasswordStrength::Fair => String::from_str("fair"),
            PasswordStrength::Strong => String::from_str("strong"),
            PasswordStrength::VeryStrong => String::from_str("very_strong"),
        }
    }
}

/// Kinds of patterns found in passwords.
#[derive(Clone, Copy, Debug, PartialEq, Eq, Structural)]
pub enum PatternType {
    /// Keyboard walk (e.g. "qwerty").
    KeyboardWalk,
    /// Repeated characters (e.g. "aaa").
    RepeatedChars,
    /// Sequential characters (e.g. "abc", "321").
    SequentialChars,
    /// Common dictionary word.
    DictionaryWord,
    /// One of the most common passwords.
    CommonPassword,
    /// Date pattern.
    DatePattern,
    /// Leet-speak substitution.
    LeetSpeak,
}

/// A pattern found in a password.
#[derive(Clone, Debug)]
pub struct DetectedPattern {
    /// Kind of pattern.
    pub pattern_type: PatternType,
    /// Human-readable description.
    pub description: String,
    /// How much the pattern lowers the effective entropy, in half-bits.
    pub entropy_reduction_half_bits: u128,
}

/// The strength rating mapped to a threat level.
pub open spec fn threat_of(s: PasswordStrength) -> ThreatLevel {
    match s {
        PasswordStrength::VeryWeak => ThreatLevel::Critical,
        PasswordStrength::Weak => ThreatLevel::High,
        PasswordStrength::Fair => ThreatLevel::Medium,
        PasswordStrength::Strong => ThreatLevel::Low,
        PasswordStrength::VeryStrong => ThreatLevel::NoThreat,
    }
}

/// Rank of a strength rating, from 0 (very weak) to 4 (very strong).
pub open spec fn strength_rank(s: PasswordStrength) -> int {
    match s {
        PasswordStrength::VeryWeak => 0,
        PasswordStrength::Weak => 1,
        PasswordStrength::Fair => 2,
        PasswordStrength::Strong => 3,
        PasswordStrength::VeryStrong => 4,
    }
}

/// The weaker the password, the higher the threat: ratings and threat
/// levels run in opposite directions, one step for one step.
pub proof fn law_weaker_is_more_threatening(a: PasswordStrength, b: PasswordStrength)
    ensures
        strength_rank(a) < strength_rank(b) <==> threat_rank(threat_of(b)) < threat_rank(threat_of(a)),
        threat_rank(threat_of(a)) == 4 - strength_rank(a),
{
}

/// Converts a strength rating to a threat level: the weaker the password,
/// the higher the threat.
pub fn strength_to_threat(strength: &PasswordStrength) -> (t: ThreatLevel)
    ensures
        t == threat_of(*strength),
{
    match strength {
        PasswordStrength::VeryWeak => ThreatLevel::Critical,
        PasswordStrength::Weak => ThreatLevel::High,
        PasswordStrength::Fair => ThreatLevel::Medium,
        PasswordStrength::Strong => ThreatLevel::Low,
        PasswordStrength::VeryStrong => ThreatLevel::NoThreat,
    }
}

// ── character classes ──────────────────────────────────────────────

/// ASCII lower-case letter.
pub open spec fn is_lower(c: char) -> bool {
    'a' <= c && c <= 'z'
}

/// ASCII upper-case letter.
pub open spec fn is_upper(c: char) -> bool {
    'A' <= c && c <= 'Z'
}

/// ASCII digit.
pub open spec fn is_digit(c: char) -> bool {
    '0' <= c && c <= '9'
}

/// Anything that is not an ASCII letter or digit counts as a symbol.
pub open spec fn is_symbol(c: char) -> bool {
    !is_lower(c) && !is_upper(c) && !is_digit(c)
}

/// Whether some character of `s` satisfies class `k`
/// (0: lower, 1: upper, 2: digit, 3: symbol).
pub open spec fn has_class(s: Seq<char>, k: int) -> bool {
    exists|i: int| 0 <= i < s.len() && in_class(#[trigger] s[i], k)
}

/// Membership of a character in class `k`.
pub open spec fn in_class(c: char, k: int) -> bool {
    if k == 0 {
        is_lower(c)
    } else if k == 1 {
        is_upper(c)
    } else if k == 2 {
        is_digit(c)
    } else {
        is_symbol(c)
    }
}

fn in_class_exec(c: char, k: u8) -> (r: bool)
    requires
        k < 4,
    ensures
        r == in_class(c, k as int),
{
    let lower = 'a' <= c && c <= 'z';
    let upper = 'A' <= c && c <= 'Z';
    let digit = '0' <= c && c <= '9';
    if k == 0 {
        lower
    } else if k == 1 {
        upper
    } else if k == 2 {
        digit
    } else {
        !lower && !upper && !digit
    }
}

/// Whether the password uses a character of class `k`.
fn uses_class(chars: &Vec<char>, k: u8) -> (r: bool)
    requires
        k < 4,
    ensures
        r == has_class(chars@, k as int),
{
    let mut i: usize = 0;
    while i < chars.len()
        invariant
            k < 4,
            i <= chars@.len(),
            forall|j: int| 0 <= j < i ==> !in_class(#[trigger] chars@[j], k as int),
        decreases chars@.len() - i,
    {
        if in_class_exec(chars[i], k) {
            return true;
        }
        i = i + 1;
    }
    false
}

/// Size of the character space a password draws from: 26 for lower-case,
/// 26 for upper-case, 10 for digits and 33 for symbols, each counted when
/// the password uses that class.
pub open spec fn char_space(s: Seq<char>) -> nat {
    (if has_class(s, 0) { 26nat } else { 0nat }) + (if has_class(s, 1) { 26nat } else { 0nat }) + (if has_class(
        s,
        2,
    ) {
        10nat
    } else {
        0nat
    }) + (if has_class(s, 3) { 33nat } else { 0nat })
}

/// The character space of a password (entropy is its base-2 logarithm
/// times the password length).
pub fn character_space(password: &str) -> (n: u32)
    ensures
        n == char_space(password@),
{
    let chars = chars_of(password);
    let mut n: u32 = 0;
    if uses_class(&chars, 0) {
        n = n + 26;
    }
    if uses_class(&chars, 1) {
        n = n + 26;
    }
    if uses_class(&chars, 2) {
        n = n + 10;
    }
    if uses_class(&chars, 3) {
        n = n + 33;
    }
    n
}

// ── runs of repeated or sequential characters ───────────────────────

/// Two neighbouring characters continue a run: equal (for repeats) or one
/// code point apart in either direction (for sequences).
pub open spec fn linked(prev: char, cur: char, sequential: bool) -> bool {
    if sequential {
        cur as int - prev as int == 1 || prev as int - cur as int == 1
    } else {
        prev == cur
    }
}

/// Length of the run that ends at position `i`.
pub open spec fn run_end(s: Seq<char>, i: int, sequential: bool) -> nat
    decreases i,
{
    if i <= 0 {
        1
    } else if linked(s[i - 1], s[i], sequential) {
        run_end(s, i - 1, sequential) + 1
    } else {
        1
    }
}

/// Longest run among the first `k` characters (1 when there are none).
pub open spec fn longest_run(s: Seq<char>, k: int, sequential: bool) -> nat
    decreases k,
{
    if k <= 1 {
        1
    } else {
        let prev = longest_run(s, k - 1, sequential);
        let cur = run_end(s, k - 1, sequential);
        if cur > prev {
            cur
        } else {
            prev
        }
    }
}

proof fn lemma_run_end_bound(s: Seq<char>, i: int, sequential: bool)
    requires
        0 <= i,
    ensures
        run_end(s, i, sequential) <= i + 1,
    decreases i,
{
    if i > 0 {
        lemma_run_end_bound(s, i - 1, sequential);
    }
}

proof fn lemma_longest_run_bound(s: Seq<char>, k: int, sequential: bool)
    requires
        0 <= k,
    ensures
        longest_run(s, k, sequential) <= k + 1,
    decreases k,
{
    if k > 1 {
        lemma_longest_run_bound(s, k - 1, sequential);
        lemma_run_end_bound(s, k - 1, sequential);
    }
}

fn linked_exec(prev: char, cur: char, sequential: bool) -> (r: bool)
    ensures
        r == linked(prev, cur, sequential),
{
    if sequential {
        let p = prev as u32 as i64;
        let c = cur as u32 as i64;
        c - p == 1 || p - c == 1
    } else {
        prev == cur
    }
}

/// The longest run in the whole sequence.
fn longest_run_exec(chars: &Vec<char>, sequential: bool) -> (m: usize)
    ensures
        m == longest_run(chars@, chars@.len() as int, sequential),
        m <= chars@.len() + 1,
{
    let mut max_run: usize = 1;
    let mut current: usize = 1;
    let mut i: usize = 1;
    proof {
        lemma_longest_run_bound(chars@, chars@.len() as int, sequential);
    }
    if chars.len() == 0 {
        return 1;
    }
    while i < chars.len()
        invariant
            1 <= i <= chars@.len(),
            current == run_end(chars@, i - 1, sequential),
            max_run == longest_run(chars@, i as int, sequential),
            current <= i,
            max_run <= i,
        decreases chars@.len() - i,
    {
        proof {
            lemma_run_end_bound(chars@, i as int - 1, sequential);
        }
        if linked_exec(chars[i - 1], chars[i], sequential) {
            current = current + 1;
        } else {
            current = 1;
        }
        if current > max_run {
            max_run = current;
        }
        i = i + 1;
    }
    max_run
}

/// The repeated-character finding, when some character repeats three or
/// more times in a row: penalty two bits per repeated character.
pub open spec fn repeated_finding(s: Seq<char>) -> Option<(nat, Seq<char>)> {
    let m = longest_run(s, s.len() as int, false);
    if m >= 3 {
        Some((4 * m, "Repeated character sequence (x"@ + decimal(m) + ")"@))
    } else {
        None
    }
}

/// The sequential-character finding, when three or more characters step by
/// one code point: penalty one and a half bits per character.
pub open spec fn sequential_finding(s: Seq<char>) -> Option<(nat, Seq<char>)> {
    let m = longest_run(s, s.len() as int, true);
    if m >= 3 {
        Some((3 * m, "Sequential character pattern (length "@ + decimal(m) + ")"@))
    } else {
        None
    }
}

/// Whether a detected pattern has the given kind, penalty and description.
pub open spec fn pattern_is(p: DetectedPattern, kind: PatternType, finding: (nat, Seq<char>)) -> bool {
    p.pattern_type == kind && p.entropy_reduction_half_bits == finding.0 && p.description@ == finding.1
}

/// Detects runs of three or more identical characters.
pub fn detect_repeated_chars(password: &str) -> (r: Option<DetectedPattern>)
    ensures
        match repeated_finding(password@) {
            Some(f) => r matches Some(p) && pattern_is(p, PatternType::RepeatedChars, f),
            None => r is None,
        },
{
    let chars = chars_of(password);
    let m = longest_run_exec(&chars, false);
    if m >= 3 {
        let mut d = String::from_str("Repeated character sequence (x");
        push_decimal(&mut d, m as u64);
        d.append(")");
        Some(DetectedPattern {
            pattern_type: PatternType::RepeatedChars,
            description: d,
            entropy_reduction_half_bits: 4 * (m as u128),
        })
    } else {
        None
    }
}

/// Detects runs of three or more characters whose code points step by one
/// (ascending or descending).
pub fn detect_sequential_chars(password: &str) -> (r: Option<DetectedPattern>)
    ensures
        match sequential_finding(password@) {
            Some(f) => r matches Some(p) && pattern_is(p, PatternType::SequentialChars, f),
            None => r is None,
        },
{
    let chars = chars_of(password);
    let m = longest_run_exec(&chars, true);
    if m >= 3 {
        let mut d = String::from_str("Sequential character pattern (length ");
        push_decimal(&mut d, m as u64);
        d.append(")");
        Some(DetectedPattern {
            pattern_type: PatternType::SequentialChars,
            description: d,
            entropy_reduction_half_bits: 3 * (m as u128),
        })
    } else {
        None
    }
}

// ── keyboard walks ──────────────────────────────────────────────────

/// The keyboard rows scanned for walks, in scan order.
pub open spec fn walk_row(r: int) -> Seq<char> {
    if r == 0 {
        "qwertyuiop"@
    } else if r == 1 {
        "asdfghjkl"@
    } else if r == 2 {
        "zxcvbnm"@
    } else {
        "1234567890"@
    }
}

/// ASCII lower-casing of one byte; other bytes are kept.
pub open spec fn ascii_lower_byte(b: u8) -> u8 {
    if 65 <= b && b <= 90 {
        (b + 32) as u8
    } else {
        b
    }
}

/// ASCII lower-casing of a byte string.
pub open spec fn ascii_lower_bytes(s: Seq<u8>) -> Seq<u8> {
    s.map_values(|b: u8| ascii_lower_byte(b))
}

/// The window `low[i .. i + w]` (read backwards when `backwards`) equals
/// `row[k .. k + w]`.
pub open spec fn window_at(row: Seq<char>, low: Seq<char>, i: int, w: int, k: int, backwards: bool) -> bool {
    &&& 0 <= k
    &&& k + w <= row.len()
    &&& forall|t: int|
        k <= t < k + w ==> #[trigger] row[t] == (if backwards {
            low[i + w - 1 - (t - k)]
        } else {
            low[i + (t - k)]
        })
}

/// The row contains the window (read forwards or backwards).
pub open spec fn row_contains(row: Seq<char>, low: Seq<char>, i: int, w: int, backwards: bool) -> bool {
    exists|k: int| #[trigger] window_at(row, low, i, w, k, backwards)
}

/// The window of the lower-cased bytes at `i` of length `w` is a walk
/// along row `r`, in either direction.
pub open spec fn walk_at(low: Seq<char>, r: int, i: int, w: int) -> bool {
    row_contains(walk_row(r), low, i, w, false) || row_contains(walk_row(r), low, i, w, true)
}

/// Outcome of the keyboard-walk scan.
pub enum WalkScan {
    /// A walk of the given length (in characters) at the given position.
    Found(nat, nat),
    /// No walk.
    Missing,
}

/// The keyboard-walk scan from row `r`, window length `w`, position `i`
/// on: rows in order, then window lengths from 4 up to the length of the
/// text, then positions from 0; the first window that is a walk is
/// reported. Windows are taken in characters, so any text can be scanned.
pub open spec fn walk_scan(text: Seq<char>, r: int, w: int, i: int) -> WalkScan
    decreases 4 - r, text.len() + 1 - w, text.len() + 1 - i,
{
    if r < 0 || r >= 4 || w < 4 || i < 0 {
        WalkScan::Missing
    } else if w > text.len() {
        walk_scan(text, r + 1, 4, 0)
    } else if i > text.len() - w {
        walk_scan(text, r, w + 1, 0)
    } else if walk_at(ascii_lower_chars(text), r, i, w) {
        WalkScan::Found(w as nat, i as nat)
    } else {
        walk_scan(text, r, w, i + 1)
    }
}

/// The whole scan of a password.
pub open spec fn walk_outcome(text: Seq<char>) -> WalkScan {
    walk_scan(text, 0, 4, 0)
}

/// The keyboard-walk finding: penalty one and a half bits per character of
/// the walk, and the walk itself (lower-cased) in the description.
pub open spec fn walk_finding(text: Seq<char>) -> Option<(nat, Seq<char>)> {
    match walk_outcome(text) {
        WalkScan::Found(w, i) => Some(
            (
                3 * w,
                "Keyboard walk pattern detected: '"@ + ascii_lower_chars(text).subrange(i as int, (i + w) as int)
                    + "'"@,
            ),
        ),
        WalkScan::Missing => None,
    }
}

fn keyboard_row(r: usize) -> (v: Vec<char>)
    requires
        r < 4,
    ensures
        v@ == walk_row(r as int),
{
    if r == 0 {
        chars_of("qwertyuiop")
    } else if r == 1 {
        chars_of("asdfghjkl")
    } else if r == 2 {
        chars_of("zxcvbnm")
    } else {
        chars_of("1234567890")
    }
}

fn window_matches(row: &Vec<char>, low: &Vec<char>, i: usize, w: usize, k: usize, backwards: bool) -> (ok: bool)
    requires
        k + w <= row@.len(),
        i + w <= low@.len(),
    ensures
        ok == window_at(row@, low@, i as int, w as int, k as int, backwards),
{
    let nl = low.len();
    let nr = row.len();
    let mut j: usize = 0;
    while j < w
        invariant
            nl == low@.len(),
            nr == row@.len(),
            j <= w,
            k + w <= row@.len(),
            i + w <= low@.len(),
            forall|t: int|
                k <= t < k + j ==> #[trigger] row@[t] == (if backwards {
                    low@[i + w - 1 - (t - k)]
                } else {
                    low@[i + (t - k)]
                }),
        decreases w - j,
    {
        let b: char = if backwards {
            low[i + w - 1 - j]
        } else {
            low[i + j]
        };
        if row[k + j] != b {
            return false;
        }
        j = j + 1;
    }
    true
}

fn row_has_window(row: &Vec<char>, low: &Vec<char>, i: usize, w: usize, backwards: bool) -> (found: bool)
    requires
        i + w <= low@.len(),
    ensures
        found == row_contains(row@, low@, i as int, w as int, backwards),
{
    let m = row.len();
    if w > m {
        assert forall|k: int| !window_at(row@, low@, i as int, w as int, k, backwards) by {}
        return false;
    }
    let mut k: usize = 0;
    while k <= m - w
        invariant
            w <= m,
            m == row@.len(),
            i + w <= low@.len(),
            forall|k2: int| 0 <= k2 < k ==> !window_at(row@, low@, i as int, w as int, k2, backwards),
        decreases m - w + 1 - k,
    {
        if window_matches(row, low, i, w, k, backwards) {
            return true;
        }
        k = k + 1;
    }
    assert forall|k: int| !window_at(row@, low@, i as int, w as int, k, backwards) by {
        if 0 <= k < m - w + 1 {
        }
    }
    false
}

/// Detects keyboard walks of four or more characters along a row of the
/// keyboard ("qwertyuiop", "asdfghjkl", "zxcvbnm", "1234567890"), forwards
/// or backwards, ignoring ASCII case. Any text can be scanned: windows are
/// taken in characters.
pub fn detect_keyboard_walk(password: &str) -> (r: Option<DetectedPattern>)
    ensures
        match walk_finding(password@) {
            Some(f) => r matches Some(p) && pattern_is(p, PatternType::KeyboardWalk, f),
            None => r is None,
        },
{
    let chars = chars_of(password);
    let n = chars.len();
    let low = ascii_lower_char_vec(&chars);
    let ghost b = password@;
    let mut r: usize = 0;
    let mut w: usize = 4;
    let mut i: usize = 0;
    let mut row = keyboard_row(0);
    while r < 4
        invariant
            b == password@,
            chars@ == b,
            n == b.len(),
            low@ == ascii_lower_chars(b),
            r <= 4,
            4 <= w,
            w <= n ==> i <= n - w + 1,
            r < 4 ==> row@ == walk_row(r as int),
            walk_scan(b, r as int, w as int, i as int) == walk_outcome(b),
        decreases 4 - r, n + 1 - w, n + 1 - i,
    {
        if w > n {
            r = r + 1;
            w = 4;
            i = 0;
            if r < 4 {
                row = keyboard_row(r);
            }
        } else if i > n - w {
            if w < n {
                w = w + 1;
                i = 0;
            } else {
                assert(walk_scan(b, r as int, w + 1, 0) == walk_scan(b, r + 1, 4, 0));
                r = r + 1;
                w = 4;
                i = 0;
                if r < 4 {
                    row = keyboard_row(r);
                }
            }
        } else {
            let hit = row_has_window(&row, &low, i, w, false) || row_has_window(&row, &low, i, w, true);
            if hit {
                let mut d = String::from_str("Keyboard walk pattern detected: '");
                let ghost prefix = d@;
                let mut t: usize = i;
                while t < i + w
                    invariant
                        i <= t <= i + w,
                        i + w <= n,
                        low@.len() == n,
                        d@ == prefix + low@.subrange(i as int, t as int),
                    decreases i + w - t,
                {
                    push_char(&mut d, low[t]);
                    assert(low@.subrange(i as int, t + 1) =~= low@.subrange(i as int, t as int).push(low@[t as int]));
                    t = t + 1;
                }
                d.append("'");
                return Some(
                    DetectedPattern {
                        pattern_type: PatternType::KeyboardWalk,
                        description: d,
                        entropy_reduction_half_bits: 3 * (w as u128),
                    },
                );
            }
            i = i + 1;
        }
    }
    None
}

// ── common passwords ────────────────────────────────────────────────

/// The list of most common passwords checked against, by position.
pub open spec fn common_password_at(k: int) -> Seq<char> {
    if k == 0 {
        "password"@
    } else if k == 1 {
        "123456"@
    } else if k == 2 {
        "12345678"@
    } else if k == 3 {
        "qwerty"@
    } else if k == 4 {
        "abc123"@
    } else if k == 5 {
        "monkey"@
    } else if k == 6 {
        "1234567"@
    } else if k == 7 {
        "letmein"@
    } else if k == 8 {
        "trustno1"@
    } else if k == 9 {
        "dragon"@
    } else if k == 10 {
        "baseball"@
    } else if k == 11 {
        "iloveyou"@
    } else if k == 12 {
        "master"@
    } else if k == 13 {
        "sunshine"@
    } else if k == 14 {
        "ashley"@
    } else if k == 15 {
        "bailey"@
    } else if k == 16 {
        "passw0rd"@
    } else if k == 17 {
        "shadow"@
    } else if k == 18 {
        "123123"@
    } else {
        "654321"@
    }
}

/// Number of entries in the common-password list.
pub const COMMON_PASSWORD_COUNT: usize = 20;

/// ASCII lower-casing of one character; other characters are kept.
pub open spec fn ascii_lower_char(c: char) -> char {
    if 'A' <= c && c <= 'Z' {
        ((c as int) + 32) as char
    } else {
        c
    }
}

/// ASCII lower-casing of a character sequence.
pub open spec fn ascii_lower_chars(s: Seq<char>) -> Seq<char> {
    s.map_values(|c: char| ascii_lower_char(c))
}

/// Whether the lower-cased password is on the common list.
pub open spec fn is_common_password(s: Seq<char>) -> bool {
    exists|k: int| 0 <= k < COMMON_PASSWORD_COUNT && #[trigger] common_password_at(k) == ascii_lower_chars(s)
}

/// The common-password finding: penalty three bits per byte of the password.
pub open spec fn common_finding(s: Seq<char>, byte_len: nat) -> Option<(nat, Seq<char>)> {
    if is_common_password(s) {
        Some((6 * byte_len, "Password is in the list of most common passwords"@))
    } else {
        None
    }
}

fn common_password(k: usize) -> (s: &'static str)
    requires
        k < COMMON_PASSWORD_COUNT,
    ensures
        s@ == common_password_at(k as int),
{
    if k == 0 {
        "password"
    } else if k == 1 {
        "123456"
    } else if k == 2 {
        "12345678"
    } else if k == 3 {
        "qwerty"
    } else if k == 4 {
        "abc123"
    } else if k == 5 {
        "monkey"
    } else if k == 6 {
        "1234567"
    } else if k == 7 {
        "letmein"
    } else if k == 8 {
        "trustno1"
    } else if k == 9 {
        "dragon"
    } else if k == 10 {
        "baseball"
    } else if k == 11 {
        "iloveyou"
    } else if k == 12 {
        "master"
    } else if k == 13 {
        "sunshine"
    } else if k == 14 {
        "ashley"
    } else if k == 15 {
        "bailey"
    } else if k == 16 {
        "passw0rd"
    } else if k == 17 {
        "shadow"
    } else if k == 18 {
        "123123"
    } else {
        "654321"
    }
}

fn ascii_lower_char_vec(chars: &Vec<char>) -> (v: Vec<char>)
    ensures
        v@ == ascii_lower_chars(chars@),
{
    let mut v: Vec<char> = Vec::new();
    let mut t: usize = 0;
    while t < chars.len()
        invariant
            t <= chars@.len(),
            v@ == ascii_lower_chars(chars@.subrange(0, t as int)),
        decreases chars@.len() - t,
    {
        let c = chars[t];
        let l: char = if 'A' <= c && c <= 'Z' {
            ((c as u32 + 32) as u8) as char
        } else {
            c
        };
        v.push(l);
        assert(chars@.subrange(0, t + 1) =~= chars@.subrange(0, t as int).push(c));
        assert(ascii_lower_chars(chars@.subrange(0, t + 1)) =~= ascii_lower_chars(
            chars@.subrange(0, t as int),
        ).push(l));
        t = t + 1;
    }
    assert(chars@.subrange(0, chars@.len() as int) =~= chars@);
    v
}

fn same_chars(a: &Vec<char>, b: &Vec<char>) -> (eq: bool)
    ensures
        eq == (a@ == b@),
{
    if a.len() != b.len() {
        return false;
    }
    let mut t: usize = 0;
    while t < a.len()
        invariant
            a@.len() == b@.len(),
            t <= a@.len(),
            forall|j: int| 0 <= j < t ==> a@[j] == b@[j],
        decreases a@.len() - t,
    {
        if a[t] != b[t] {
            return false;
        }
        t = t + 1;
    }
    assert(a@ =~= b@);
    true
}

/// Detects passwords on the list of most common passwords, ignoring ASCII
/// case.
pub fn detect_common_password(password: &str) -> (r: Option<DetectedPattern>)
    ensures
        match common_finding(password@, password.spec_bytes().len()) {
            Some(f) => r matches Some(p) && pattern_is(p, PatternType::CommonPassword, f),
            None => r is None,
        },
{
    let chars = chars_of(password);
    let lower = ascii_lower_char_vec(&chars);
    let mut k: usize = 0;
    while k < COMMON_PASSWORD_COUNT
        invariant
            lower@ == ascii_lower_chars(password@),
            forall|j: int| 0 <= j < k ==> #[trigger] common_password_at(j) != ascii_lower_chars(password@),
        decreases COMMON_PASSWORD_COUNT - k,
    {
        let entry = chars_of(common_password(k));
        if same_chars(&lower, &entry) {
            assert(common_password_at(k as int) == ascii_lower_chars(password@));
            let len = password.as_bytes().len();
            return Some(
                DetectedPattern {
                    pattern_type: PatternType::CommonPassword,
                    description: String::from_str("Password is in the list of most common passwords"),
                    entropy_reduction_half_bits: 6 * (len as u128),
                },
            );
        }
        k = k + 1;
    }
    None
}

// ── the full pattern list ───────────────────────────────────────────

/// A finding tagged with its kind.
pub type Finding = (PatternType, nat, Seq<char>);

/// Appends a finding when there is one.
pub open spec fn push_finding(s: Seq<Finding>, kind: PatternType, f: Option<(nat, Seq<char>)>) -> Seq<Finding> {
    match f {
        Some(x) => s.push((kind, x.0, x.1)),
        None => s,
    }
}

/// The patterns reported for a password, in the order keyboard walk,
/// repeated characters, sequential characters, common password.
pub open spec fn pattern_findings(password: &str) -> Seq<Finding> {
    let s0 = push_finding(Seq::empty(), PatternType::KeyboardWalk, walk_finding(password@));
    let s1 = push_finding(s0, PatternType::RepeatedChars, repeated_finding(password@));
    let s2 = push_finding(s1, PatternType::SequentialChars, sequential_finding(password@));
    push_finding(
        s2,
        PatternType::CommonPassword,
        common_finding(password@, password.spec_bytes().len()),
    )
}

/// A detected pattern equals a tagged finding.
pub open spec fn pattern_matches(p: DetectedPattern, f: Finding) -> bool {
    p.pattern_type == f.0 && p.entropy_reduction_half_bits == f.1 && p.description@ == f.2
}

/// The detected patterns agree, one by one, with the findings.
pub open spec fn patterns_agree(ps: Seq<DetectedPattern>, fs: Seq<Finding>) -> bool {
    ps.len() == fs.len() && forall|i: int| 0 <= i < ps.len() ==> pattern_matches(#[trigger] ps[i], fs[i])
}

fn push_detected(
    v: &mut Vec<DetectedPattern>,
    p: Option<DetectedPattern>,
    kind: PatternType,
    Ghost(f): Ghost<Option<(nat, Seq<char>)>>,
    Ghost(fs): Ghost<Seq<Finding>>,
)
    requires
        patterns_agree(old(v)@, fs),
        match f {
            Some(x) => p matches Some(q) && pattern_is(q, kind, x),
            None => p is None,
        },
    ensures
        patterns_agree(final(v)@, push_finding(fs, kind, f)),
{
    match p {
        Some(q) => {
            v.push(q);
        },
        None => {},
    }
}

/// Detects the patterns that lower a password's effective entropy:
/// keyboard walks, repeated characters, sequences and common passwords.
pub fn detect_patterns(password: &str) -> (r: Vec<DetectedPattern>)
    ensures
        patterns_agree(r@, pattern_findings(password)),
{
    let mut patterns: Vec<DetectedPattern> = Vec::new();
    let ghost f0: Seq<Finding> = Seq::empty();
    let ghost f1 = push_finding(f0, PatternType::KeyboardWalk, walk_finding(password@));
    let ghost f2 = push_finding(f1, PatternType::RepeatedChars, repeated_finding(password@));
    let ghost f3 = push_finding(f2, PatternType::SequentialChars, sequential_finding(password@));
    push_detected(
        &mut patterns,
        detect_keyboard_walk(password),
        PatternType::KeyboardWalk,
        Ghost(walk_finding(password@)),
        Ghost(f0),
    );
    push_detected(
        &mut patterns,
        detect_repeated_chars(password),
        PatternType::RepeatedChars,
        Ghost(repeated_finding(password@)),
        Ghost(f1),
    );
    push_detected(
        &mut patterns,
        detect_sequential_chars(password),
        PatternType::SequentialChars,
        Ghost(sequential_finding(password@)),
        Ghost(f2),
    );
    push_detected(
        &mut patterns,
        detect_common_password(password),
        PatternType::CommonPassword,
        Ghost(common_finding(password@, password.spec_bytes().len())),
        Ghost(f3),
    );
    patterns
}

// ── warnings and suggestions ────────────────────────────────────────

/// The texts of a list of strings.
pub open spec fn texts(v: Seq<String>) -> Seq<Seq<char>> {
    v.map_values(|x: String| x@)
}

/// A one-line list when the condition holds, else the empty list.
pub open spec fn line_if(c: bool, t: Seq<char>) -> Seq<Seq<char>> {
    if c {
        seq![t]
    } else {
        Seq::empty()
    }
}

/// The descriptions of the detected patterns, in order.
pub open spec fn descriptions(ps: Seq<DetectedPattern>) -> Seq<Seq<char>> {
    ps.map_values(|p: DetectedPattern| p.description@)
}

/// The warnings for a password: length, missing character classes, then
/// one line per detected pattern.
pub open spec fn warnings_for(s: Seq<char>, byte_len: nat, ps: Seq<DetectedPattern>) -> Seq<Seq<char>> {
    line_if(byte_len < 8, "Password is too short (minimum 8 characters)"@) + line_if(
        byte_len < 12,
        "Consider using at least 12 characters"@,
    ) + line_if(!has_class(s, 1), "No uppercase letters detected"@) + line_if(
        !has_class(s, 0),
        "No lowercase letters detected"@,
    ) + line_if(!has_class(s, 2), "No digits detected"@) + line_if(
        !has_class(s, 3),
        "No symbols detected"@,
    ) + descriptions(ps)
}

/// Whether some detected pattern has the given kind.
pub open spec fn has_kind(ps: Seq<DetectedPattern>, k: PatternType) -> bool {
    exists|i: int| 0 <= i < ps.len() && (#[trigger] ps[i]).pattern_type == k
}

/// The suggestions that apply to a password.
pub open spec fn suggestion_lines(s: Seq<char>, byte_len: nat, ps: Seq<DetectedPattern>) -> Seq<Seq<char>> {
    line_if(byte_len < 16, "Use a longer password (16+ characters recommended)"@) + line_if(
        !has_class(s, 3),
        "Add symbols for higher entropy"@,
    ) + line_if(has_kind(ps, PatternType::KeyboardWalk), "Avoid keyboard walk patterns"@) + line_if(
        has_kind(ps, PatternType::CommonPassword),
        "This is a commonly used password — choose something unique"@,
    ) + line_if(has_kind(ps, PatternType::RepeatedChars), "Avoid repeating characters"@)
}

/// The suggestions shown: those that apply, or a single approving line
/// when none does.
pub open spec fn suggestions_for(s: Seq<char>, byte_len: nat, ps: Seq<DetectedPattern>) -> Seq<Seq<char>> {
    let l = suggestion_lines(s, byte_len, ps);
    if l.len() == 0 {
        seq!["Password looks good!"@]
    } else {
        l
    }
}

fn push_line_if(v: &mut Vec<String>, c: bool, t: &str)
    ensures
        texts(final(v)@) == texts(old(v)@) + line_if(c, t@),
{
    if c {
        v.push(String::from_str(t));
        assert(texts(v@) =~= texts(old(v)@) + line_if(c, t@));
    } else {
        assert(texts(v@) =~= texts(old(v)@) + line_if(c, t@));
    }
}

fn any_of_kind(ps: &[DetectedPattern], k: PatternType) -> (b: bool)
    ensures
        b == has_kind(ps@, k),
{
    let mut t: usize = 0;
    while t < ps.len()
        invariant
            t <= ps@.len(),
            forall|j: int| 0 <= j < t ==> (#[trigger] ps@[j]).pattern_type != k,
        decreases ps@.len() - t,
    {
        if ps[t].pattern_type == k {
            return true;
        }
        t = t + 1;
    }
    false
}

/// The warnings shown for a password and its detected patterns.
pub fn generate_warnings(password: &str, patterns: &[DetectedPattern]) -> (r: Vec<String>)
    ensures
        texts(r@) == warnings_for(password@, password.spec_bytes().len(), patterns@),
{
    let chars = chars_of(password);
    let len = password.as_bytes().len();
    let mut warnings: Vec<String> = Vec::new();
    push_line_if(&mut warnings, len < 8, "Password is too short (minimum 8 characters)");
    push_line_if(&mut warnings, len < 12, "Consider using at least 12 characters");
    push_line_if(&mut warnings, !uses_class(&chars, 1), "No uppercase letters detected");
    push_line_if(&mut warnings, !uses_class(&chars, 0), "No lowercase letters detected");
    push_line_if(&mut warnings, !uses_class(&chars, 2), "No digits detected");
    push_line_if(&mut warnings, !uses_class(&chars, 3), "No symbols detected");
    let ghost base = texts(warnings@);
    let mut t: usize = 0;
    while t < patterns.len()
        invariant
            t <= patterns@.len(),
            texts(warnings@) == base + descriptions(patterns@.subrange(0, t as int)),
        decreases patterns@.len() - t,
    {
        let d = patterns[t].description.clone();
        let ghost before = texts(warnings@);
        warnings.push(d);
        assert(texts(warnings@) =~= before.push(d@));
        assert(descriptions(patterns@.subrange(0, t + 1)) =~= descriptions(
            patterns@.subrange(0, t as int),
        ).push(patterns@[t as int].description@));
        assert(texts(warnings@) =~= base + descriptions(patterns@.subrange(0, t + 1)));
        t = t + 1;
    }
    assert(patterns@.subrange(0, patterns@.len() as int) =~= patterns@);
    warnings
}

/// The suggestions shown for a password and its detected patterns; never
/// empty.
pub fn generate_suggestions(password: &str, patterns: &[DetectedPattern]) -> (r: Vec<String>)
    ensures
        texts(r@) == suggestions_for(password@, password.spec_bytes().len(), patterns@),
        r@.len() >= 1,
{
    let chars = chars_of(password);
    let len = password.as_bytes().len();
    let mut suggestions: Vec<String> = Vec::new();
    push_line_if(&mut suggestions, len < 16, "Use a longer password (16+ characters recommended)");
    push_line_if(&mut suggestions, !uses_class(&chars, 3), "Add symbols for higher entropy");
    push_line_if(
        &mut suggestions,
        any_of_kind(patterns, PatternType::KeyboardWalk),
        "Avoid keyboard walk patterns",
    );
    push_line_if(
        &mut suggestions,
        any_of_kind(patterns, PatternType::CommonPassword),
        "This is a commonly used password — choose something unique",
    );
    push_line_if(
        &mut suggestions,
        any_of_kind(patterns, PatternType::RepeatedChars),
        "Avoid repeating characters",
    );
    if suggestions.len() == 0 {
        suggestions.push(String::from_str("Password looks good!"));
        assert(texts(suggestions@) =~= seq!["Password looks good!"@]);
    }
    suggestions
}

/// Every detected pattern is reported among the warnings, after the
/// general ones and in the order detected.
pub proof fn law_warnings_end_with_patterns(s: Seq<char>, byte_len: nat, ps: Seq<DetectedPattern>)
    ensures
        warnings_for(s, byte_len, ps).len() >= ps.len(),
        forall|i: int|
            0 <= i < ps.len() ==> #[trigger] warnings_for(s, byte_len, ps)[warnings_for(s, byte_len, ps).len()
                - ps.len() + i] == ps[i].description@,
{
}

/// There is always at least one suggestion, and the approving one appears
/// only when nothing else applies.
pub proof fn law_suggestions_never_empty(s: Seq<char>, byte_len: nat, ps: Seq<DetectedPattern>)
    ensures
        suggestions_for(s, byte_len, ps).len() >= 1,
        suggestion_lines(s, byte_len, ps).len() > 0 ==> suggestions_for(s, byte_len, ps) == suggestion_lines(
            s,
            byte_len,
            ps,
        ),
{
}

/// The character space of a password is one of the sums of the class sizes
/// and is zero only for the empty password.
pub proof fn law_character_space(s: Seq<char>)
    ensures
        char_space(s) <= 95,
        char_space(s) == 0 <==> s.len() == 0,
{
    if s.len() > 0 {
        let c = s[0];
        if is_lower(c) {
            assert(in_class(s[0], 0));
        } else if is_upper(c) {
            assert(in_class(s[0], 1));
        } else if is_digit(c) {
            assert(in_class(s[0], 2));
        } else {
            assert(in_class(s[0], 3));
        }
    }
}


/// Each of the twenty documented most common passwords (password, 123456,
/// 12345678, qwerty, abc123, monkey, 1234567, letmein, trustno1, dragon,
/// baseball, iloveyou, master, sunshine, ashley, bailey, passw0rd, shadow,
/// 123123, 654321), in any ASCII case, is recognised as a common password,
/// and `detect_common_password` reports it with a penalty of three bits per
/// byte.
pub proof fn law_documented_common_passwords(s: Seq<char>, byte_len: nat)
    requires
        ascii_lower_chars(s) == "password"@ ||
        ascii_lower_chars(s) == "123456"@ ||
        ascii_lower_chars(s) == "12345678"@ ||
        ascii_lower_chars(s) == "qwerty"@ ||
        ascii_lower_chars(s) == "abc123"@ ||
        ascii_lower_chars(s) == "monkey"@ ||
        ascii_lower_chars(s) == "1234567"@ ||
        ascii_lower_chars(s) == "letmein"@ ||
        ascii_lower_chars(s) == "trustno1"@ ||
        ascii_lower_chars(s) == "dragon"@ ||
        ascii_lower_chars(s) == "baseball"@ ||
        ascii_lower_chars(s) == "iloveyou"@ ||
        ascii_lower_chars(s) == "master"@ ||
        ascii_lower_chars(s) == "sunshine"@ ||
        ascii_lower_chars(s) == "ashley"@ ||
        ascii_lower_chars(s) == "bailey"@ ||
        ascii_lower_chars(s) == "passw0rd"@ ||
        ascii_lower_chars(s) == "shadow"@ ||
        ascii_lower_chars(s) == "123123"@ ||
        ascii_lower_chars(s) == "654321"@,
    ensures
        is_common_password(s),
        common_finding(s, byte_len) == Some((6 * byte_len, "Password is in the list of most common passwords"@)),
{
    if ascii_lower_chars(s) == "password"@ {
        assert(common_password_at(0) == ascii_lower_chars(s));
    } else if ascii_lower_chars(s) == "123456"@ {
        assert(common_password_at(1) == ascii_lower_chars(s));
    } else if ascii_lower_chars(s) == "12345678"@ {
        assert(common_password_at(2) == ascii_lower_chars(s));
    } else if ascii_lower_chars(s) == "qwerty"@ {
        assert(common_password_at(3) == ascii_lower_chars(s));
    } else if ascii_lower_chars(s) == "abc123"@ {
        assert(common_password_at(4) == ascii_lower_chars(s));
    } else if ascii_lower_chars(s) == "monkey"@ {
        assert(common_password_at(5) == ascii_lower_chars(s));
    } else if ascii_lower_chars(s) == "1234567"@ {
        assert(common_password_at(6) == ascii_lower_chars(s));
    } else if ascii_lower_chars(s) == "letmein"@ {
        assert(common_password_at(7) == ascii_lower_chars(s));
    } else if ascii_lower_chars(s) == "trustno1"@ {
        assert(common_password_at(8) == ascii_lower_chars(s));
    } else if ascii_lower_chars(s) == "dragon"@ {
        assert(common_password_at(9) == ascii_lower_chars(s));
    } else if ascii_lower_chars(s) == "baseball"@ {
        assert(common_password_at(10) == ascii_lower_chars(s));
    } else if ascii_lower_chars(s) == "iloveyou"@ {
        assert(common_password_at(11) == ascii_lower_chars(s));
    } else if ascii_lower_chars(s) == "master"@ {
        assert(common_password_at(12) == ascii_lower_chars(s));
    } else if ascii_lower_chars(s) == "sunshine"@ {
        assert(common_password_at(13) == ascii_lower_chars(s));
    } else if ascii_lower_chars(s) == "ashley"@ {
        assert(common_password_at(14) == ascii_lower_chars(s));
    } else if ascii_lower_chars(s) == "bailey"@ {
        assert(common_password_at(15) == ascii_lower_chars(s));
    } else if ascii_lower_chars(s) == "passw0rd"@ {
        assert(common_password_at(16) == ascii_lower_chars(s));
    } else if ascii_lower_chars(s) == "shadow"@ {
        assert(common_password_at(17) == ascii_lower_chars(s));
    } else if ascii_lower_chars(s) == "123123"@ {
        assert(common_password_at(18) == ascii_lower_chars(s));
    } else if ascii_lower_chars(s) == "654321"@ {
        assert(common_password_at(19) == ascii_lower_chars(s));
    }
}

/// A password shorter than 8 bytes always gets "Password is too short
/// (minimum 8 characters)" as its first warning; one of 8 bytes or more
/// never gets it (unless a detected pattern's own description says so).
pub proof fn law_short_password_warning(s: Seq<char>, byte_len: nat, ps: Seq<DetectedPattern>)
    requires
        forall|i: int| 0 <= i < ps.len() ==> (#[trigger] ps[i]).description@
            != "Password is too short (minimum 8 characters)"@,
    ensures
        byte_len < 8 ==> warnings_for(s, byte_len, ps).len() > 0 && warnings_for(s, byte_len, ps)[0]
            == "Password is too short (minimum 8 characters)"@,
        byte_len >= 8 ==> !warnings_for(s, byte_len, ps).contains("Password is too short (minimum 8 characters)"@),
{
    let short = "Password is too short (minimum 8 characters)"@;
    let w = warnings_for(s, byte_len, ps);
    if byte_len < 8 {
        assert(w[0] == short);
    } else {
        reveal_strlit("Password is too short (minimum 8 characters)");
        reveal_strlit("Consider using at least 12 characters");
        reveal_strlit("No uppercase letters detected");
        reveal_strlit("No lowercase letters detected");
        reveal_strlit("No digits detected");
        reveal_strlit("No symbols detected");
        let l12 = line_if(byte_len < 12, "Consider using at least 12 characters"@);
        let lu = line_if(!has_class(s, 1), "No uppercase letters detected"@);
        let ll = line_if(!has_class(s, 0), "No lowercase letters detected"@);
        let ld = line_if(!has_class(s, 2), "No digits detected"@);
        let ls = line_if(!has_class(s, 3), "No symbols detected"@);
        let d = descriptions(ps);
        assert(short[0] != "Consider using at least 12 characters"@[0]);
        assert(short[0] != "No uppercase letters detected"@[0]);
        assert(short[0] != "No lowercase letters detected"@[0]);
        assert(short[0] != "No digits detected"@[0]);
        assert(short[0] != "No symbols detected"@[0]);
        lemma_line_if_lacks(byte_len < 12, "Consider using at least 12 characters"@, short);
        lemma_line_if_lacks(!has_class(s, 1), "No uppercase letters detected"@, short);
        lemma_line_if_lacks(!has_class(s, 0), "No lowercase letters detected"@, short);
        lemma_line_if_lacks(!has_class(s, 2), "No digits detected"@, short);
        lemma_line_if_lacks(!has_class(s, 3), "No symbols detected"@, short);
        assert(!d.contains(short));
        assert(line_if(byte_len < 8, short) =~= Seq::<Seq<char>>::empty());
        assert(w =~= l12 + lu + ll + ld + ls + d);
        lemma_concat_lacks(l12, lu, short);
        lemma_concat_lacks(l12 + lu, ll, short);
        lemma_concat_lacks(l12 + lu + ll, ld, short);
        lemma_concat_lacks(l12 + lu + ll + ld, ls, short);
        lemma_concat_lacks(l12 + lu + ll + ld + ls, d, short);
    }
}

/// A one-line list lacks every other line.
proof fn lemma_line_if_lacks(c: bool, t: Seq<char>, x: Seq<char>)
    requires
        t != x,
    ensures
        !line_if(c, t).contains(x),
{
    if c {
        if line_if(c, t).contains(x) {
            let i = choose|i: int| 0 <= i < line_if(c, t).len() && line_if(c, t)[i] == x;
            assert(i == 0);
        }
    }
}

/// Two lists that lack an item have a concatenation that lacks it.
proof fn lemma_concat_lacks(a: Seq<Seq<char>>, b: Seq<Seq<char>>, x: Seq<char>)
    requires
        !a.contains(x),
        !b.contains(x),
    ensures
        !(a + b).contains(x),
{
    if (a + b).contains(x) {
        let i = choose|i: int| 0 <= i < (a + b).len() && (a + b)[i] == x;
        if i < a.len() {
            assert(a[i] == x);
        } else {
            assert(b[i - a.len()] == x);
        }
    }
}

} // verus!
