//! Battery status lookup support: the grammar of the kernel's input-device
//! listing, and the parsing of power-supply attribute files.
//!
//! The listing pairs each input device's `event` handler with the device's
//! unique address; the address then names the matching power-supply
//! directory. Reading `/proc` and `/sys` is the binary's work; every rule
//! about what the read text means lives here.

use vstd::prelude::*;
use vstd::string::StringExecFns;

verus! {

/// Whether a character may appear in a device address: an ASCII letter, a
/// digit, or a colon.
pub open spec fn is_address_char(c: char) -> bool {
    ||| ('a' as u32) <= (c as u32) <= ('z' as u32)
    ||| ('A' as u32) <= (c as u32) <= ('Z' as u32)
    ||| ('0' as u32) <= (c as u32) <= ('9' as u32)
    ||| c == ':'
}

/// Whether a character may appear in a handlers list: an ASCII letter, a
/// digit, or blank space.
pub open spec fn is_handlers_char(c: char) -> bool {
    ||| ('a' as u32) <= (c as u32) <= ('z' as u32)
    ||| ('A' as u32) <= (c as u32) <= ('Z' as u32)
    ||| ('0' as u32) <= (c as u32) <= ('9' as u32)
    ||| c == ' '
    ||| c == '\t'
}

/// Whether a character is an ASCII decimal digit.
pub open spec fn is_digit(c: char) -> bool {
    ('0' as u32) <= (c as u32) <= ('9' as u32)
}

/// Whether a character is blank: space, tab, or a line break.
pub open spec fn is_space(c: char) -> bool {
    c == ' ' || c == '\t' || c == '\n' || c == '\r'
}

/// Test an address character.
pub fn check_address_char(c: char) -> (r: bool)
    ensures
        r == is_address_char(c),
{
    let u = c as u32;
    (97 <= u && u <= 122) || (65 <= u && u <= 90) || (48 <= u && u <= 57) || c == ':'
}

/// Test a handlers character.
pub fn check_handlers_char(c: char) -> (r: bool)
    ensures
        r == is_handlers_char(c),
{
    let u = c as u32;
    (97 <= u && u <= 122) || (65 <= u && u <= 90) || (48 <= u && u <= 57) || c == ' ' || c == '\t'
}

/// Test a decimal digit.
pub fn check_digit(c: char) -> (r: bool)
    ensures
        r == is_digit(c),
{
    let u = c as u32;
    48 <= u && u <= 57
}

/// Test blank space.
pub fn check_space(c: char) -> (r: bool)
    ensures
        r == is_space(c),
{
    c == ' ' || c == '\t' || c == '\n' || c == '\r'
}

/// Whether `s` starts with `prefix`, character for character.
pub fn str_has_prefix(s: &str, prefix: &str) -> (r: bool)
    ensures
        r == (s@.len() >= prefix@.len() && s@.subrange(0, prefix@.len() as int) =~= prefix@),
{
    let n = prefix.unicode_len();
    if s.unicode_len() < n {
        return false;
    }
    let mut i: usize = 0;
    while i < n
        invariant
            i <= n,
            n == prefix@.len(),
            s@.len() >= n,
            forall|j: int| 0 <= j < i ==> s@[j] == prefix@[j],
        decreases n - i,
    {
        if s.get_char(i) != prefix.get_char(i) {
            return false;
        }
        i = i + 1;
    }
    proof {
        assert(s@.subrange(0, n as int) =~= prefix@);
    }
    true
}

/// Whether `s` ends with `suffix`, character for character.
pub fn str_ends_with(s: &str, suffix: &str) -> (r: bool)
    ensures
        r == (s@.len() >= suffix@.len() && s@.subrange(
            s@.len() - suffix@.len(),
            s@.len() as int,
        ) =~= suffix@),
{
    let n = suffix.unicode_len();
    let len = s.unicode_len();
    if len < n {
        return false;
    }
    let offset = len - n;
    let mut i: usize = 0;
    while i < n
        invariant
            i <= n,
            n == suffix@.len(),
            len == s@.len(),
            offset == len - n,
            forall|j: int| 0 <= j < i ==> s@[offset + j] == suffix@[j],
        decreases n - i,
    {
        if s.get_char(offset + i) != suffix.get_char(i) {
            return false;
        }
        i = i + 1;
    }
    proof {
        assert(s@.subrange(s@.len() - suffix@.len(), s@.len() as int) =~= suffix@);
    }
    true
}

/// A sequence with its blank margins stripped.
pub open spec fn spec_trimmed(s: Seq<char>) -> Seq<char>
    decreases s.len(),
{
    if s.len() > 0 && is_space(s[0]) {
        spec_trimmed(s.drop_first())
    } else if s.len() > 0 && is_space(s.last()) {
        spec_trimmed(s.drop_last())
    } else {
        s
    }
}

/// `s` with leading and trailing blank space removed.
pub fn trim_str<'a>(s: &'a str) -> (r: &'a str)
    ensures
        r@ =~= spec_trimmed(s@),
{
    let len = s.unicode_len();
    proof {
        assert(s@.skip(0) =~= s@);
    }
    let mut from: usize = 0;
    while from < len && check_space(s.get_char(from))
        invariant
            from <= len,
            len == s@.len(),
            forall|j: int| 0 <= j < from ==> is_space(s@[j]),
            spec_trimmed(s@) == spec_trimmed(s@.skip(from as int)),
        decreases len - from,
    {
        proof {
            assert(s@.skip(from as int)[0] == s@[from as int]);
            assert(s@.skip(from as int).drop_first() =~= s@.skip(from + 1));
        }
        from = from + 1;
    }
    let mut to: usize = len;
    proof {
        assert(s@.skip(from as int).take((to - from) as int) =~= s@.skip(from as int));
    }
    while to > from && check_space(s.get_char(to - 1))
        invariant
            from <= to <= len,
            len == s@.len(),
            forall|j: int| 0 <= j < from ==> is_space(s@[j]),
            from < len ==> !is_space(s@[from as int]),
            from == to ==> from == len || !is_space(s@[from as int]),
            spec_trimmed(s@) == spec_trimmed(s@.skip(from as int).take((to - from) as int)),
        decreases to,
    {
        proof {
            let window = s@.skip(from as int).take((to - from) as int);
            assert(window.last() == s@[to - 1]);
            assert(window.drop_last() =~= s@.skip(from as int).take((to - 1 - from) as int));
            if from < to - 1 {
                assert(window[0] == s@[from as int]);
            }
        }
        to = to - 1;
    }
    proof {
        let window = s@.skip(from as int).take((to - from) as int);
        if window.len() > 0 {
            assert(window[0] == s@[from as int]);
            assert(window.last() == s@[to - 1]);
        }
        assert(spec_trimmed(window) == window);
        assert(s@.subrange(from as int, to as int) =~= window);
    }
    s.substring_char(from, to)
}

/// The number a digit sequence denotes, most significant first.
pub open spec fn digits_value(s: Seq<char>) -> int
    decreases s.len(),
{
    if s.len() == 0 {
        0
    } else {
        digits_value(s.drop_last()) * 10 + (s.last() as u32) - ('0' as u32)
    }
}

/// Whether every character is a decimal digit.
pub open spec fn all_digits(s: Seq<char>) -> bool {
    forall|i: int| 0 <= i < s.len() ==> is_digit(#[trigger] s[i])
}

/// A digit string's value never shrinks as digits are appended.
proof fn lemma_digits_value_monotone(s: Seq<char>, k: int)
    requires
        all_digits(s),
        0 <= k <= s.len(),
    ensures
        digits_value(s) >= digits_value(s.take(k)),
        digits_value(s) >= 0,
    decreases s.len() - k,
{
    if k == s.len() {
        assert(s.take(k) =~= s);
        lemma_digits_value_nonnegative(s);
    } else {
        lemma_digits_value_monotone(s, k + 1);
        assert(s.take(k + 1).drop_last() =~= s.take(k));
        assert(s.take(k + 1).last() == s[k]);
        lemma_digits_value_nonnegative(s.take(k));
        assert(digits_value(s.take(k + 1)) >= digits_value(s.take(k))) by (nonlinear_arith)
            requires
                digits_value(s.take(k + 1)) == digits_value(s.take(k)) * 10 + (s[k] as u32) - (
                '0' as u32),
                is_digit(s[k]),
                digits_value(s.take(k)) >= 0,
        ;
    }
}

/// A digit string's value is never negative.
proof fn lemma_digits_value_nonnegative(s: Seq<char>)
    requires
        all_digits(s),
    ensures
        digits_value(s) >= 0,
    decreases s.len(),
{
    if s.len() > 0 {
        assert(all_digits(s.drop_last())) by {
            assert(forall|i: int| 0 <= i < s.len() - 1 ==> s.drop_last()[i] == s[i]);
        }
        lemma_digits_value_nonnegative(s.drop_last());
        assert(is_digit(s.last()));
        assert(digits_value(s.drop_last()) * 10 >= 0) by (nonlinear_arith)
            requires
                digits_value(s.drop_last()) >= 0,
        ;
    }
}

/// Parse a trimmed decimal string: defined exactly on nonempty all-digit
/// strings whose value fits.
pub fn parse_u32(s: &str) -> (r: Option<u32>)
    ensures
        r is Some <==> s@.len() > 0 && all_digits(s@) && digits_value(s@) <= u32::MAX,
        r matches Some(v) ==> v as int == digits_value(s@),
{
    let len = s.unicode_len();
    if len == 0 {
        return None;
    }
    let mut value: u32 = 0;
    let mut i: usize = 0;
    while i < len
        invariant
            i <= len,
            len == s@.len(),
            all_digits(s@.take(i as int)),
            value as int == digits_value(s@.take(i as int)),
        decreases len - i,
    {
        let c = s.get_char(i);
        if !check_digit(c) {
            proof {
                assert(s@.take(i + 1)[i as int] == s@[i as int]);
            }
            assert(!all_digits(s@));
            return None;
        }
        let d: u32 = (c as u32) - 48;
        proof {
            assert(s@.take(i + 1).drop_last() =~= s@.take(i as int));
            assert(s@.take(i + 1).last() == s@[i as int]);
            assert(forall|j: int| 0 <= j < i + 1 ==> s@.take(i + 1)[j] == s@[j]);
        }
        if value > u32::MAX / 10 || (value == u32::MAX / 10 && d > u32::MAX % 10) {
            proof {
                assert(digits_value(s@.take(i + 1)) == value * 10 + d);
                assert(digits_value(s@.take(i + 1)) > u32::MAX);
                if all_digits(s@) {
                    lemma_digits_value_monotone(s@, i + 1);
                }
            }
            return None;
        }
        value = value * 10 + d;
        i = i + 1;
    }
    proof {
        assert(s@.take(len as int) =~= s@);
    }
    Some(value)
}

/// One power-supply status: the battery percentage and the two descriptive
/// attribute strings.
#[derive(Debug)]
pub struct PowerStatus {
    /// Battery charge percentage.
    pub capacity: u32,
    /// Charging status, e.g. discharging.
    pub status: String,
    /// Kind of supply, e.g. battery.
    pub device_type: String,
}

/// Assemble a power status from the three attribute files' contents, each
/// taken with its blank margins stripped. Defined exactly when the capacity
/// file holds a decimal number.
pub fn power_status_from_files(capacity_text: &str, status_text: &str, type_text: &str)
    -> (r: Option<PowerStatus>)
    ensures
        r is Some <==> (spec_trimmed(capacity_text@).len() > 0
            && all_digits(spec_trimmed(capacity_text@))
            && digits_value(spec_trimmed(capacity_text@)) <= u32::MAX),
        r matches Some(ps) ==> ps.capacity as int == digits_value(spec_trimmed(capacity_text@))
            && ps.status@ == spec_trimmed(status_text@)
            && ps.device_type@ == spec_trimmed(type_text@),
{
    match parse_u32(trim_str(capacity_text)) {
        Some(capacity) => Some(PowerStatus {
            capacity,
            status: trim_str(status_text).to_owned(),
            device_type: trim_str(type_text).to_owned(),
        }),
        None => None,
    }
}

/// The prefix of a device-listing line that announces a unique address.
pub open spec fn uniq_prefix() -> Seq<char> {
    seq!['U', ':', ' ', 'U', 'n', 'i', 'q', '=']
}

/// The prefix of a device-listing line that announces the handler list.
pub open spec fn handlers_prefix() -> Seq<char> {
    seq!['H', ':', ' ', 'H', 'a', 'n', 'd', 'l', 'e', 'r', 's', '=']
}

/// The word an event-handler token starts with.
pub open spec fn event_word() -> Seq<char> {
    seq!['e', 'v', 'e', 'n', 't']
}

/// The directory under which an event handler becomes a device path.
pub open spec fn device_path_prefix() -> Seq<char> {
    seq!['/', 'd', 'e', 'v', '/', 'i', 'n', 'p', 'u', 't', '/']
}

/// The address payload of a `U: Uniq=` line: the rest of the line, when it
/// is nonempty and made of address characters only.
pub open spec fn uniq_payload(line: Seq<char>) -> Option<Seq<char>> {
    if line.len() > 8 && line.subrange(0, 8) == uniq_prefix() && (forall|i: int|
        8 <= i < line.len() ==> is_address_char(#[trigger] line[i])) {
        Some(line.skip(8))
    } else {
        None
    }
}

/// The handler-list payload of an `H: Handlers=` line: the rest of the
/// line, when it is nonempty and made of handler characters only.
pub open spec fn handlers_payload(line: Seq<char>) -> Option<Seq<char>> {
    if line.len() > 12 && line.subrange(0, 12) == handlers_prefix() && (forall|i: int|
        12 <= i < line.len() ==> is_handlers_char(#[trigger] line[i])) {
        Some(line.skip(12))
    } else {
        None
    }
}

/// Length of the run of digits starting at position `j`.
pub open spec fn digits_run(s: Seq<char>, j: int) -> nat
    decreases s.len() - j,
{
    if j < 0 || j >= s.len() || !is_digit(s[j]) {
        0
    } else {
        1 + digits_run(s, j + 1)
    }
}

/// Whether an event-handler token begins at position `i`: the event word,
/// then a nonzero digit.
pub open spec fn token_starts_at(s: Seq<char>, i: int) -> bool {
    &&& 0 <= i
    &&& i + 6 <= s.len()
    &&& s.subrange(i, i + 5) == event_word()
    &&& ('1' as u32) <= (s[i + 5] as u32) <= ('9' as u32)
}

/// Length of the token beginning at position `i`: the event word, the
/// nonzero digit, and every digit after it.
pub open spec fn token_len_at(s: Seq<char>, i: int) -> int {
    6 + digits_run(s, i + 6) as int
}

/// A digit run never reaches past the end of the sequence.
proof fn lemma_digits_run_bound(s: Seq<char>, j: int)
    ensures
        j <= s.len() ==> digits_run(s, j) <= s.len() - j,
        j > s.len() ==> digits_run(s, j) == 0,
    decreases s.len() - j,
{
    if 0 <= j < s.len() && is_digit(s[j]) {
        lemma_digits_run_bound(s, j + 1);
    }
}

/// The leftmost maximal event-handler tokens at or after position `i`.
pub open spec fn event_tokens_from(s: Seq<char>, i: int) -> Seq<Seq<char>>
    decreases s.len() - i,
    via event_tokens_from_decreases
{
    if i < 0 || i >= s.len() {
        Seq::empty()
    } else if token_starts_at(s, i) {
        seq![s.subrange(i, i + token_len_at(s, i))] + event_tokens_from(s, i + token_len_at(s, i))
    } else {
        event_tokens_from(s, i + 1)
    }
}

#[via_fn]
proof fn event_tokens_from_decreases(s: Seq<char>, i: int) {
    lemma_digits_run_bound(s, i + 6);
}

/// The device-path / address pairs one handler list contributes.
pub open spec fn address_pairs_for(tokens: Seq<Seq<char>>, address: Seq<char>)
    -> Seq<(Seq<char>, Seq<char>)> {
    tokens.map_values(|t: Seq<char>| (device_path_prefix() + t, address))
}

/// Parse one `U: Uniq=` line; yields its address payload.
pub fn parse_uniq_line(line: &str) -> (r: Option<String>)
    ensures
        r is Some <==> uniq_payload(line@) is Some,
        r matches Some(address) ==> uniq_payload(line@) == Some(address@),
{
    proof {
        reveal_strlit("U: Uniq=");
        assert("U: Uniq="@ =~= uniq_prefix());
    }
    if !str_has_prefix(line, "U: Uniq=") {
        return None;
    }
    let len = line.unicode_len();
    if len <= 8 {
        return None;
    }
    let mut i: usize = 8;
    while i < len
        invariant
            8 <= i <= len,
            len == line@.len(),
            forall|j: int| 8 <= j < i ==> is_address_char(#[trigger] line@[j]),
        decreases len - i,
    {
        if !check_address_char(line.get_char(i)) {
            return None;
        }
        i = i + 1;
    }
    proof {
        assert(line@.subrange(8, len as int) =~= line@.skip(8));
    }
    Some(line.substring_char(8, len).to_owned())
}

/// Parse one `H: Handlers=` line; yields its handler-list payload.
pub fn parse_handlers_line(line: &str) -> (r: Option<String>)
    ensures
        r is Some <==> handlers_payload(line@) is Some,
        r matches Some(handlers) ==> handlers_payload(line@) == Some(handlers@),
{
    proof {
        reveal_strlit("H: Handlers=");
        assert("H: Handlers="@ =~= handlers_prefix());
    }
    if !str_has_prefix(line, "H: Handlers=") {
        return None;
    }
    let len = line.unicode_len();
    if len <= 12 {
        return None;
    }
    let mut i: usize = 12;
    while i < len
        invariant
            12 <= i <= len,
            len == line@.len(),
            forall|j: int| 12 <= j < i ==> is_handlers_char(#[trigger] line@[j]),
        decreases len - i,
    {
        if !check_handlers_char(line.get_char(i)) {
            return None;
        }
        i = i + 1;
    }
    proof {
        assert(line@.subrange(12, len as int) =~= line@.skip(12));
    }
    Some(line.substring_char(12, len).to_owned())
}

/// Whether an event-handler token begins at position `i` of `s`.
fn is_token_start(s: &str, i: usize) -> (r: bool)
    requires
        i <= s@.len(),
    ensures
        r == token_starts_at(s@, i as int),
{
    let len = s.unicode_len();
    if len - i < 6 {
        return false;
    }
    let word_matches = s.get_char(i) == 'e' && s.get_char(i + 1) == 'v' && s.get_char(i + 2)
        == 'e' && s.get_char(i + 3) == 'n' && s.get_char(i + 4) == 't';
    if !word_matches {
        proof {
            assert(s@.subrange(i as int, i + 5) != event_word()) by {
                if s@.subrange(i as int, i + 5) == event_word() {
                    assert(s@[i as int] == s@.subrange(i as int, i + 5)[0]);
                    assert(s@[i + 1] == s@.subrange(i as int, i + 5)[1]);
                    assert(s@[i + 2] == s@.subrange(i as int, i + 5)[2]);
                    assert(s@[i + 3] == s@.subrange(i as int, i + 5)[3]);
                    assert(s@[i + 4] == s@.subrange(i as int, i + 5)[4]);
                }
            }
        }
        return false;
    }
    proof {
        assert(s@.subrange(i as int, i + 5) =~= event_word());
    }
    let digit = s.get_char(i + 5) as u32;
    49 <= digit && digit <= 57
}

/// The digit run of `s` starting at position `j`, as its end position.
fn digits_run_end(s: &str, j: usize) -> (r: usize)
    requires
        j <= s@.len(),
    ensures
        j <= r <= s@.len(),
        r as int == j + digits_run(s@, j as int),
{
    let len = s.unicode_len();
    let mut k: usize = j;
    while k < len && check_digit(s.get_char(k))
        invariant
            j <= k <= len,
            len == s@.len(),
            digits_run(s@, j as int) == (k - j) + digits_run(s@, k as int),
        decreases len - k,
    {
        proof {
            lemma_digits_run_shift(s@, j as int, k as int);
        }
        k = k + 1;
    }
    k
}

/// Extending a digit run one digit at a time: the run from `j` covers the
/// run from `k + 1` once every position in `[j, k]` is a digit.
proof fn lemma_digits_run_shift(s: Seq<char>, j: int, k: int)
    requires
        0 <= j <= k < s.len(),
        digits_run(s, j) == (k - j) + digits_run(s, k),
        is_digit(s[k]),
    ensures
        digits_run(s, j) == (k + 1 - j) + digits_run(s, k + 1),
{
}

/// Every leftmost maximal event-handler token of a handler list, in order.
pub fn find_event_tokens(handlers: &str) -> (r: Vec<String>)
    ensures
        strings_view(r@) == event_tokens_from(handlers@, 0),
{
    let len = handlers.unicode_len();
    let mut tokens: Vec<String> = Vec::new();
    let mut i: usize = 0;
    while i < len
        invariant
            i <= len,
            len == handlers@.len(),
            strings_view(tokens@) + event_tokens_from(handlers@, i as int)
                =~= event_tokens_from(handlers@, 0),
        decreases len - i,
    {
        if is_token_start(handlers, i) {
            let run_end = digits_run_end(handlers, i + 6);
            let token = handlers.substring_char(i, run_end).to_owned();
            proof {
                let before = strings_view(tokens@);
                assert(event_tokens_from(handlers@, i as int) == seq![
                    handlers@.subrange(i as int, run_end as int),
                ] + event_tokens_from(handlers@, run_end as int));
                assert(strings_view(tokens@.push(token)) =~= before.push(token@));
                assert(before.push(token@) + event_tokens_from(handlers@, run_end as int)
                    =~= before + event_tokens_from(handlers@, i as int));
            }
            tokens.push(token);
            proof {
                lemma_digits_run_bound(handlers@, i + 6);
            }
            i = run_end;
        } else {
            i = i + 1;
        }
    }
    proof {
        assert(event_tokens_from(handlers@, len as int) =~= Seq::<Seq<char>>::empty());
        assert(strings_view(tokens@)
            =~= strings_view(tokens@) + event_tokens_from(handlers@, len as int));
    }
    tokens
}

/// The character sequences of a sequence of strings.
pub open spec fn strings_view(v: Seq<String>) -> Seq<Seq<char>> {
    v.map_values(|s: String| s@)
}

/// The character sequences of a sequence of string pairs.
pub open spec fn pairs_view(v: Seq<(String, String)>) -> Seq<(Seq<char>, Seq<char>)> {
    v.map_values(|p: (String, String)| (p.0@, p.1@))
}

/// The device-path to address pairs a device listing denotes: a `U: Uniq=`
/// line sets the current address, and every event handler on a later
/// `H: Handlers=` line maps its device path to that address.
pub open spec fn address_map_lines(lines: Seq<Seq<char>>, current: Option<Seq<char>>)
    -> Seq<(Seq<char>, Seq<char>)>
    decreases lines.len(),
{
    if lines.len() == 0 {
        Seq::empty()
    } else {
        let line = lines[0];
        let rest = lines.drop_first();
        match uniq_payload(line) {
            Some(address) => address_map_lines(rest, Some(address)),
            None => match handlers_payload(line) {
                Some(handlers) => match current {
                    Some(address) => address_pairs_for(event_tokens_from(handlers, 0), address)
                        + address_map_lines(rest, current),
                    None => address_map_lines(rest, current),
                },
                None => address_map_lines(rest, current),
            },
        }
    }
}

/// The current address as the specification sees it.
pub open spec fn current_view(current: Option<String>) -> Option<Seq<char>> {
    match current {
        Some(address) => Some(address@),
        None => None,
    }
}

/// Build the device-path to address map of a device listing, one pair per
/// event handler, later pairs superseding earlier ones for the same path.
pub fn build_device_address_map(lines: &Vec<String>) -> (r: Vec<(String, String)>)
    ensures
        pairs_view(r@) == address_map_lines(strings_view(lines@), None),
{
    let ghost lines_view = strings_view(lines@);
    let mut pairs: Vec<(String, String)> = Vec::new();
    let mut current: Option<String> = None;
    let mut k: usize = 0;
    proof {
        assert(lines_view.skip(0) =~= lines_view);
    }
    while k < lines.len()
        invariant
            k <= lines.len(),
            lines_view == strings_view(lines@),
            pairs_view(pairs@) + address_map_lines(
                lines_view.skip(k as int),
                current_view(current),
            ) =~= address_map_lines(lines_view, None),
        decreases lines.len() - k,
    {
        proof {
            assert(lines_view.skip(k as int)[0] == lines@[k as int]@);
            assert(lines_view.skip(k as int).drop_first() =~= lines_view.skip(k + 1));
        }
        let line = &lines[k];
        match parse_uniq_line(line) {
            Some(address) => {
                current = Some(address);
            }
            None => {
                match parse_handlers_line(line) {
                    Some(handlers) => {
                        match &current {
                            Some(address) => {
                                push_handler_pairs(&mut pairs, &handlers, address);
                            }
                            None => {}
                        }
                    }
                    None => {}
                }
            }
        }
        k = k + 1;
    }
    proof {
        assert(address_map_lines(lines_view.skip(lines@.len() as int), current_view(current))
            =~= Seq::<(Seq<char>, Seq<char>)>::empty());
        assert(pairs_view(pairs@)
            =~= pairs_view(pairs@) + address_map_lines(
            lines_view.skip(lines@.len() as int),
            current_view(current),
        ));
    }
    pairs
}

/// Append the pairs one handler list contributes under the current address.
fn push_handler_pairs(pairs: &mut Vec<(String, String)>, handlers: &String, address: &String)
    ensures
        pairs_view(final(pairs)@) =~= pairs_view(old(pairs)@) + address_pairs_for(
            event_tokens_from(handlers@, 0),
            address@,
        ),
{
    proof {
        reveal_strlit("/dev/input/");
        assert("/dev/input/"@ =~= device_path_prefix());
    }
    let tokens = find_event_tokens(handlers.as_str());
    let ghost tokens_view = strings_view(tokens@);
    let mut t: usize = 0;
    while t < tokens.len()
        invariant
            t <= tokens.len(),
            tokens_view == strings_view(tokens@),
            tokens_view == event_tokens_from(handlers@, 0),
            pairs_view(pairs@) =~= pairs_view(old(pairs)@) + address_pairs_for(
                tokens_view.take(t as int),
                address@,
            ),
        decreases tokens.len() - t,
    {
        let path = "/dev/input/".to_owned().concat(tokens[t].as_str());
        let pair = (path, address.clone());
        proof {
            reveal_strlit("/dev/input/");
            assert("/dev/input/"@ =~= device_path_prefix());
            let before = pairs_view(pairs@);
            let contributed = address_pairs_for(tokens_view.take(t as int), address@);
            assert(pairs_view(pairs@.push(pair)) =~= before.push((pair.0@, pair.1@)));
            assert(tokens_view.take(t + 1).drop_last() =~= tokens_view.take(t as int));
            assert(tokens_view.take(t + 1).last() == tokens_view[t as int]);
            assert((pair.0@, pair.1@) == (device_path_prefix() + tokens_view[t as int], address@));
            assert(address_pairs_for(tokens_view.take(t + 1), address@) =~= contributed.push(
                (device_path_prefix() + tokens_view[t as int], address@),
            ));
            assert((pairs_view(old(pairs)@) + contributed).push((pair.0@, pair.1@))
                =~= pairs_view(old(pairs)@) + contributed.push((pair.0@, pair.1@)));
        }
        pairs.push(pair);
        t = t + 1;
    }
    proof {
        assert(tokens_view.take(tokens@.len() as int) =~= tokens_view);
    }
}

}

