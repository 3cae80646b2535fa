//! The device configuration parser: a key=value text blob kept in a
//! reset-surviving storage area, read once at boot.
//!
//! The blob is scanned line by line. Scanning stops at the first line that
//! is not valid UTF-8 (the text section has ended); a line without an equals
//! sign is skipped; keys are matched after trimming surrounding whitespace;
//! for a text key the first match wins and its value is trimmed, for a
//! duration key the first match whose raw value parses as decimal seconds
//! wins. A key that never matches falls back to its default.

use vstd::prelude::*;
use vstd::slice::slice_subrange;

verus! {

/// ASCII whitespace, as trimming treats it.
pub open spec fn is_ascii_ws(b: u8) -> bool {
    b == 32 || b == 9 || b == 10 || b == 11 || b == 12 || b == 13
}

/// A byte sequence with its leading whitespace removed.
pub open spec fn trim_start_spec(s: Seq<u8>) -> Seq<u8>
    decreases s.len(),
{
    if s.len() > 0 && is_ascii_ws(s[0]) {
        trim_start_spec(s.drop_first())
    } else {
        s
    }
}

/// A byte sequence with its trailing whitespace removed.
pub open spec fn trim_end_spec(s: Seq<u8>) -> Seq<u8>
    decreases s.len(),
{
    if s.len() > 0 && is_ascii_ws(s.last()) {
        trim_end_spec(s.drop_last())
    } else {
        s
    }
}

/// A byte sequence with whitespace removed on both sides.
pub open spec fn trim_spec(s: Seq<u8>) -> Seq<u8> {
    trim_end_spec(trim_start_spec(s))
}

/// Whether a byte is ASCII whitespace.
pub fn is_ws_byte(b: u8) -> (r: bool)
    ensures
        r == is_ascii_ws(b),
{
    b == 32 || b == 9 || b == 10 || b == 11 || b == 12 || b == 13
}

/// Removes surrounding ASCII whitespace.
pub fn trim(bytes: &[u8]) -> (r: Vec<u8>)
    ensures
        r@ == trim_spec(bytes@),
{
    let mut start: usize = 0;
    proof {
        assert(bytes@.skip(0) =~= bytes@);
    }
    while start < bytes.len() && is_ws_byte(bytes[start])
        invariant
            start <= bytes@.len(),
            trim_start_spec(bytes@) == trim_start_spec(bytes@.skip(start as int)),
        decreases bytes@.len() - start,
    {
        proof {
            assert(bytes@.skip(start as int).drop_first() =~= bytes@.skip(start as int + 1));
        }
        start = start + 1;
    }
    proof {
        assert(trim_start_spec(bytes@) == bytes@.skip(start as int));
    }
    let mut end: usize = bytes.len();
    while end > start && is_ws_byte(bytes[end - 1])
        invariant
            start <= end <= bytes@.len(),
            trim_start_spec(bytes@) == bytes@.skip(start as int),
            trim_end_spec(bytes@.skip(start as int)) == trim_end_spec(
                bytes@.subrange(start as int, end as int),
            ),
        decreases end,
    {
        proof {
            assert(bytes@.subrange(start as int, end as int).drop_last() =~= bytes@.subrange(
                start as int,
                end as int - 1,
            ));
        }
        end = end - 1;
    }
    proof {
        assert(bytes@.skip(start as int) =~= bytes@.subrange(start as int, bytes@.len() as int));
        assert(trim_spec(bytes@) == bytes@.subrange(start as int, end as int));
    }
    let piece = slice_subrange(bytes, start, end);
    let mut r: Vec<u8> = Vec::new();
    let mut i: usize = 0;
    while i < piece.len()
        invariant
            i <= piece@.len(),
            r@ == piece@.subrange(0, i as int),
        decreases piece@.len() - i,
    {
        r.push(piece[i]);
        i = i + 1;
        proof {
            assert(r@ =~= piece@.subrange(0, i as int));
        }
    }
    proof {
        assert(piece@.subrange(0, piece@.len() as int) =~= piece@);
    }
    r
}

/// Whether two byte slices hold the same bytes.
pub fn eq_bytes(a: &[u8], b: &[u8]) -> (r: bool)
    ensures
        r == (a@ == b@),
{
    if a.len() != b.len() {
        proof {
            assert(a@.len() != b@.len());
        }
        return false;
    }
    let mut i: usize = 0;
    while i < a.len()
        invariant
            i <= a@.len(),
            a@.len() == b@.len(),
            forall|j: int| 0 <= j < i ==> a@[j] == b@[j],
        decreases a@.len() - i,
    {
        if a[i] != b[i] {
            return false;
        }
        i = i + 1;
    }
    proof {
        assert(a@ =~= b@);
    }
    true
}

/// The position of the first equals sign, or a negative value if none.
pub open spec fn first_eq(s: Seq<u8>) -> int
    decreases s.len(),
{
    if s.len() == 0 {
        -1
    } else if s[0] == 61 {
        0
    } else {
        let rest = first_eq(s.drop_first());
        if rest < 0 {
            -1
        } else {
            1 + rest
        }
    }
}

/// What `first_eq` finds: the first equals sign, with nothing before it.
pub proof fn lemma_first_eq(s: Seq<u8>)
    ensures
        first_eq(s) < 0 ==> forall|j: int| 0 <= j < s.len() ==> s[j] != 61,
        first_eq(s) >= 0 ==> 0 <= first_eq(s) < s.len() && s[first_eq(s)] == 61 && forall|j: int|
            0 <= j < first_eq(s) ==> s[j] != 61,
    decreases s.len(),
{
    if s.len() > 0 && s[0] != 61 {
        let d = s.drop_first();
        lemma_first_eq(d);
        if first_eq(d) < 0 {
            assert forall|j: int| 0 <= j < s.len() implies s[j] != 61 by {
                if j > 0 {
                    assert(d[j - 1] == s[j]);
                }
            }
        } else {
            assert(s[first_eq(s)] == d[first_eq(d)]);
            assert forall|j: int| 0 <= j < first_eq(s) implies s[j] != 61 by {
                if j > 0 {
                    assert(d[j - 1] == s[j]);
                }
            }
        }
    }
}

/// Conversely, a first equals sign found by scanning is `first_eq`.
pub proof fn lemma_first_eq_unique(s: Seq<u8>, i: int)
    requires
        0 <= i < s.len(),
        s[i] == 61,
        forall|j: int| 0 <= j < i ==> s[j] != 61,
    ensures
        first_eq(s) == i,
    decreases s.len(),
{
    if i > 0 {
        assert(forall|j: int| 0 <= j < s.drop_first().len() ==> s.drop_first()[j] == s[j + 1]);
        lemma_first_eq_unique(s.drop_first(), i - 1);
    }
}

/// A line split at its first equals sign into raw key and raw value, or
/// nothing for a line that holds no equals sign.
pub open spec fn split_kv(line: Seq<u8>) -> Option<(Seq<u8>, Seq<u8>)> {
    let i = first_eq(line);
    if i < 0 {
        None
    } else {
        Some((line.subrange(0, i), line.subrange(i + 1, line.len() as int)))
    }
}

/// Splits a line at its first equals sign.
pub fn split_line_kv(line: &[u8]) -> (r: Option<(Vec<u8>, Vec<u8>)>)
    ensures
        r is Some <==> split_kv(line@) is Some,
        r matches Some(kv) ==> split_kv(line@) matches Some(kv_spec) && kv.0@ == kv_spec.0
            && kv.1@ == kv_spec.1,
{
    let mut i: usize = 0;
    while i < line.len()
        invariant
            i <= line@.len(),
            forall|j: int| 0 <= j < i ==> line@[j] != 61,
        decreases line@.len() - i,
    {
        if line[i] == 61 {
            proof {
                lemma_first_eq_unique(line@, i as int);
            }
            let key = slice_subrange(line, 0, i);
            let value = slice_subrange(line, i + 1, line.len());
            let mut key_v: Vec<u8> = Vec::new();
            let mut value_v: Vec<u8> = Vec::new();
            let mut k: usize = 0;
            while k < key.len()
                invariant
                    k <= key@.len(),
                    key_v@ == key@.subrange(0, k as int),
                decreases key@.len() - k,
            {
                key_v.push(key[k]);
                k = k + 1;
                proof {
                    assert(key_v@ =~= key@.subrange(0, k as int));
                }
            }
            let mut v: usize = 0;
            while v < value.len()
                invariant
                    v <= value@.len(),
                    value_v@ == value@.subrange(0, v as int),
                decreases value@.len() - v,
            {
                value_v.push(value[v]);
                v = v + 1;
                proof {
                    assert(value_v@ =~= value@.subrange(0, v as int));
                }
            }
            proof {
                assert(key_v@ =~= key@);
                assert(value_v@ =~= value@);
            }
            return Some((key_v, value_v));
        }
        i = i + 1;
    }
    proof {
        lemma_first_eq(line@);
        if first_eq(line@) >= 0 {
            assert(line@[first_eq(line@)] == 61);
        }
    }
    None
}

/// A decimal digit.
pub open spec fn is_digit(b: u8) -> bool {
    48 <= b <= 57
}

/// A sequence of decimal digits only.
pub open spec fn all_digits(s: Seq<u8>) -> bool {
    forall|j: int| 0 <= j < s.len() ==> is_digit(s[j])
}

/// The numeric value of a digit sequence, most significant digit first.
pub open spec fn digits_val(s: Seq<u8>) -> nat
    decreases s.len(),
{
    if s.len() == 0 {
        0
    } else {
        digits_val(s.drop_last()) * 10 + (s.last() - 48) as nat
    }
}

/// The digits of a decimal number: everything after one optional leading
/// plus sign.
pub open spec fn digits_body(s: Seq<u8>) -> Seq<u8> {
    if s.len() > 0 && s[0] == 43 {
        s.drop_first()
    } else {
        s
    }
}

/// What parsing a decimal second count yields: the value of the digits if
/// the text is one optional plus sign followed by digits only and the value
/// fits, nothing otherwise.
pub open spec fn parse_u64_spec(s: Seq<u8>) -> Option<u64> {
    let body = digits_body(s);
    if body.len() > 0 && all_digits(body) && digits_val(body) <= u64::MAX {
        Some(digits_val(body) as u64)
    } else {
        None
    }
}

/// A digit sequence is worth at least any of its prefixes.
pub proof fn lemma_digits_val_prefix(s: Seq<u8>, j: int)
    requires
        0 <= j <= s.len(),
        all_digits(s),
    ensures
        digits_val(s.take(j)) <= digits_val(s),
    decreases s.len() - j,
{
    if j < s.len() {
        assert(s.take(j + 1).drop_last() =~= s.take(j));
        assert(s.take(j + 1).last() == s[j]);
        lemma_digits_val_prefix(s, j + 1);
    } else {
        assert(s.take(j) =~= s);
    }
}

/// Parses a decimal number the way the duration values are parsed: one
/// optional plus sign, then digits only, no surrounding whitespace, and the
/// value must fit.
pub fn parse_u64(bytes: &[u8]) -> (r: Option<u64>)
    ensures
        r == parse_u64_spec(bytes@),
{
    let start: usize = if bytes.len() > 0 && bytes[0] == 43 {
        1
    } else {
        0
    };
    let ghost body = digits_body(bytes@);
    proof {
        assert(body =~= bytes@.skip(start as int));
    }
    if start == bytes.len() {
        return None;
    }
    let mut acc: u64 = 0;
    let mut i: usize = start;
    while i < bytes.len()
        invariant
            start <= i <= bytes@.len(),
            start < bytes@.len(),
            body == digits_body(bytes@),
            body =~= bytes@.skip(start as int),
            all_digits(body.take(i - start)),
            acc == digits_val(body.take(i - start)),
        decreases bytes@.len() - i,
    {
        let b = bytes[i];
        proof {
            assert(body[(i - start) as int] == bytes@[i as int]);
        }
        if b < 48 || b > 57 {
            proof {
                assert(!is_digit(body[(i - start) as int]));
                assert(!all_digits(body));
            }
            return None;
        }
        let d = (b - 48) as u64;
        if acc > (u64::MAX - d) / 10 {
            proof {
                let k = (i - start) as int;
                let m = u64::MAX as int;
                let dd = d as int;
                assert((m - dd) == (m - dd) / 10 * 10 + (m - dd) % 10);
                assert(acc * 10 + dd > m);
                assert(body.take(k + 1).drop_last() =~= body.take(k));
                assert(body.take(k + 1).last() == body[k]);
                assert(digits_val(body.take(k + 1)) > u64::MAX);
                if all_digits(body) {
                    lemma_digits_val_prefix(body, k + 1);
                    assert(digits_val(body) > u64::MAX);
                }
            }
            return None;
        }
        acc = acc * 10 + d;
        i = i + 1;
        proof {
            let k = (i - start) as int;
            assert(body.take(k).drop_last() =~= body.take(k - 1));
            assert(body.take(k).last() == body[k - 1]);
        }
    }
    proof {
        assert(body.take((i - start) as int) =~= body);
    }
    Some(acc)
}

/// Whether a byte sequence is valid UTF-8 text.
pub uninterp spec fn utf8_valid(bytes: Seq<u8>) -> bool;

/// Relies on core::str::from_utf8: whether a byte sequence is valid UTF-8
/// depends on the bytes alone.
#[verifier::external_body]
fn is_valid_utf8(bytes: &[u8]) -> (r: bool)
    ensures
        r == utf8_valid(bytes@),
{
    core::str::from_utf8(bytes).is_ok()
}

/// The blob split at every newline: one piece more than there are newlines,
/// separators not included.
pub open spec fn split_lines_spec(s: Seq<u8>) -> Seq<Seq<u8>>
    decreases s.len(),
{
    if s.len() == 0 {
        seq![Seq::<u8>::empty()]
    } else if s[0] == 10 {
        seq![Seq::<u8>::empty()] + split_lines_spec(s.drop_first())
    } else {
        let rest = split_lines_spec(s.drop_first());
        seq![seq![s[0]] + rest[0]] + rest.drop_first()
    }
}

/// A split yields at least one piece.
pub proof fn lemma_split_lines_nonempty(s: Seq<u8>)
    ensures
        split_lines_spec(s).len() >= 1,
    decreases s.len(),
{
    if s.len() > 0 {
        lemma_split_lines_nonempty(s.drop_first());
    }
}

/// The pieces of a suffix, with the given prefix glued onto the first piece.
pub open spec fn prepend_first(prefix: Seq<u8>, pieces: Seq<Seq<u8>>) -> Seq<Seq<u8>>
    recommends
        pieces.len() >= 1,
{
    seq![prefix + pieces[0]] + pieces.drop_first()
}

/// The lines a vector of line buffers holds.
pub open spec fn lines_view(lines: Seq<Vec<u8>>) -> Seq<Seq<u8>> {
    lines.map_values(|l: Vec<u8>| l@)
}

/// Splits the blob at every newline.
pub fn split_lines(blob: &[u8]) -> (r: Vec<Vec<u8>>)
    ensures
        lines_view(r@) == split_lines_spec(blob@),
{
    let mut out: Vec<Vec<u8>> = Vec::new();
    let mut cur: Vec<u8> = Vec::new();
    let mut i: usize = 0;
    proof {
        assert(blob@.skip(0) =~= blob@);
        lemma_split_lines_nonempty(blob@);
        assert(prepend_first(cur@, split_lines_spec(blob@)) =~~= split_lines_spec(blob@));
        assert(lines_view(out@) + prepend_first(cur@, split_lines_spec(blob@)) =~~=
            split_lines_spec(blob@));
    }
    while i < blob.len()
        invariant
            i <= blob@.len(),
            lines_view(out@) + prepend_first(cur@, split_lines_spec(blob@.skip(i as int)))
                == split_lines_spec(blob@),
        decreases blob@.len() - i,
    {
        let ghost out_old = out@;
        let ghost cur_old = cur@;
        let ghost tail = blob@.skip(i as int);
        let ghost tail1 = blob@.skip(i as int + 1);
        proof {
            assert(tail[0] == blob@[i as int]);
            assert(tail.drop_first() =~= tail1);
            lemma_split_lines_nonempty(tail1);
        }
        let b = blob[i];
        if b == 10 {
            out.push(cur);
            cur = Vec::new();
            proof {
                let x = split_lines_spec(tail1);
                assert(split_lines_spec(tail) == seq![Seq::<u8>::empty()] + x);
                assert(prepend_first(cur_old, seq![Seq::<u8>::empty()] + x) =~~= seq![cur_old]
                    + x);
                assert(prepend_first(cur@, x) =~~= x);
                assert(lines_view(out@) =~~= lines_view(out_old).push(cur_old));
                assert(lines_view(out@) + prepend_first(cur@, x) =~~= lines_view(out_old)
                    + prepend_first(cur_old, split_lines_spec(tail)));
            }
        } else {
            cur.push(b);
            proof {
                let x = split_lines_spec(tail1);
                assert(split_lines_spec(tail) == seq![seq![tail[0]] + x[0]] + x.drop_first());
                assert(cur@ + x[0] =~= cur_old + (seq![tail[0]] + x[0]));
                assert(prepend_first(cur@, x) =~~= prepend_first(
                    cur_old,
                    split_lines_spec(tail),
                ));
            }
        }
        i = i + 1;
    }
    proof {
        assert(blob@.skip(blob@.len() as int) =~= Seq::<u8>::empty());
        assert(prepend_first(cur@, split_lines_spec(Seq::<u8>::empty())) =~~= seq![cur@]);
    }
    let ghost out_old = out@;
    let ghost cur_old = cur@;
    out.push(cur);
    proof {
        assert(lines_view(out@) =~~= lines_view(out_old).push(cur_old));
        assert(lines_view(out@) =~~= lines_view(out_old) + seq![cur_old]);
        assert(lines_view(out@) =~~= split_lines_spec(blob@));
    }
    out
}

/// The first text value for a key: scanning from line `i`, the trimmed
/// value of the first line whose trimmed key matches, stopping at the end
/// of the lines or at the first line that is not UTF-8 text.
pub open spec fn scan_text_from(lines: Seq<Seq<u8>>, key: Seq<u8>, i: int) -> Option<Seq<u8>>
    decreases lines.len() - i,
{
    if i < 0 || i >= lines.len() {
        None
    } else if !utf8_valid(lines[i]) {
        None
    } else {
        let kv = split_kv(lines[i]);
        if kv is Some && trim_spec((kv->0).0) == key {
            Some(trim_spec((kv->0).1))
        } else {
            scan_text_from(lines, key, i + 1)
        }
    }
}

/// The first duration for a key: as the text scan, but a matching line
/// counts only if its raw value parses as decimal seconds, and later lines
/// may still provide the value when an earlier match does not parse.
pub open spec fn scan_secs_from(lines: Seq<Seq<u8>>, key: Seq<u8>, i: int) -> Option<u64>
    decreases lines.len() - i,
{
    if i < 0 || i >= lines.len() {
        None
    } else if !utf8_valid(lines[i]) {
        None
    } else {
        let kv = split_kv(lines[i]);
        if kv is Some && trim_spec((kv->0).0) == key && parse_u64_spec((kv->0).1) is Some {
            parse_u64_spec((kv->0).1)
        } else {
            scan_secs_from(lines, key, i + 1)
        }
    }
}

/// The text value a blob holds for a key, if any.
pub open spec fn config_text(blob: Seq<u8>, key: Seq<u8>) -> Option<Seq<u8>> {
    scan_text_from(split_lines_spec(blob), key, 0)
}

/// The duration value a blob holds for a key, if any.
pub open spec fn config_secs(blob: Seq<u8>, key: Seq<u8>) -> Option<u64> {
    scan_secs_from(split_lines_spec(blob), key, 0)
}

/// Looks the first text value for a key up in the blob.
pub fn lookup_text(blob: &[u8], key: &[u8]) -> (r: Option<Vec<u8>>)
    ensures
        r is Some <==> config_text(blob@, key@) is Some,
        r matches Some(v) ==> config_text(blob@, key@) == Some(v@),
{
    let lines = split_lines(blob);
    let ghost lv = lines_view(lines@);
    let mut i: usize = 0;
    while i < lines.len()
        invariant
            i <= lines@.len(),
            lv == lines_view(lines@),
            lv == split_lines_spec(blob@),
            lv.len() == lines@.len(),
            scan_text_from(lv, key@, 0) == scan_text_from(lv, key@, i as int),
        decreases lines@.len() - i,
    {
        let line: &Vec<u8> = &lines[i];
        proof {
            assert(lv[i as int] == lines@[i as int]@);
        }
        if !is_valid_utf8(line.as_slice()) {
            return None;
        }
        match split_line_kv(line.as_slice()) {
            Some((k, v)) => {
                let kt = trim(k.as_slice());
                if eq_bytes(kt.as_slice(), key) {
                    let vt = trim(v.as_slice());
                    return Some(vt);
                }
            },
            None => {},
        }
        i = i + 1;
    }
    None
}

/// Looks the first duration value for a key up in the blob.
pub fn lookup_secs(blob: &[u8], key: &[u8]) -> (r: Option<u64>)
    ensures
        r == config_secs(blob@, key@),
{
    let lines = split_lines(blob);
    let ghost lv = lines_view(lines@);
    let mut i: usize = 0;
    while i < lines.len()
        invariant
            i <= lines@.len(),
            lv == lines_view(lines@),
            lv == split_lines_spec(blob@),
            lv.len() == lines@.len(),
            scan_secs_from(lv, key@, 0) == scan_secs_from(lv, key@, i as int),
        decreases lines@.len() - i,
    {
        let line: &Vec<u8> = &lines[i];
        proof {
            assert(lv[i as int] == lines@[i as int]@);
        }
        if !is_valid_utf8(line.as_slice()) {
            return None;
        }
        match split_line_kv(line.as_slice()) {
            Some((k, v)) => {
                let kt = trim(k.as_slice());
                if eq_bytes(kt.as_slice(), key) {
                    match parse_u64(v.as_slice()) {
                        Some(secs) => {
                            return Some(secs);
                        },
                        None => {},
                    }
                }
            },
            None => {},
        }
        i = i + 1;
    }
    None
}

/// The configuration keys the device knows.
#[derive(Clone, Copy, Debug, PartialEq, Eq, Structural)]
pub enum ConfigKey {
    /// The wireless network name.
    WifiSsid,
    /// The wireless network password.
    WifiPass,
    /// The report server address and port.
    MqttAddr,
    /// The report server username.
    MqttUser,
    /// The report server password.
    MqttPass,
    /// The report topic prefix, also used as the client identifier.
    MqttPrefix,
    /// The sleep duration between two measurement cycles, in seconds.
    SensorSleepSecs,
    /// The fault-signal duration, in seconds.
    SensorAlertSecs,
}

/// A key as it is written in the blob (ASCII).
pub open spec fn key_name(key: ConfigKey) -> Seq<u8> {
    match key {
        ConfigKey::WifiSsid => seq![87u8, 73, 70, 73, 95, 83, 83, 73, 68],  // WIFI_SSID
        ConfigKey::WifiPass => seq![87u8, 73, 70, 73, 95, 80, 65, 83, 83],  // WIFI_PASS
        ConfigKey::MqttAddr => seq![77u8, 81, 84, 84, 95, 65, 68, 68, 82],  // MQTT_ADDR
        ConfigKey::MqttUser => seq![77u8, 81, 84, 84, 95, 85, 83, 69, 82],  // MQTT_USER
        ConfigKey::MqttPass => seq![77u8, 81, 84, 84, 95, 80, 65, 83, 83],  // MQTT_PASS
        ConfigKey::MqttPrefix => seq![77u8, 81, 84, 84, 95, 80, 82, 70, 88],  // MQTT_PRFX
        ConfigKey::SensorSleepSecs => seq![
            83u8, 69, 78, 83, 79, 82, 95, 83, 76, 69, 69, 80, 95, 83, 69, 67, 83,
        ],  // SENSOR_SLEEP_SECS
        ConfigKey::SensorAlertSecs => seq![
            83u8, 69, 78, 83, 79, 82, 95, 65, 76, 69, 82, 84, 95, 83, 69, 67, 83,
        ],  // SENSOR_ALERT_SECS
    }
}

/// The placeholder marker put before a key name to form the default text of
/// the keys that must never be empty (ASCII "DEFAULT_").
pub open spec fn default_marker() -> Seq<u8> {
    seq![68u8, 69, 70, 65, 85, 76, 84, 95]
}

/// The fallback text of a key the blob does not provide: a visible
/// placeholder for the keys that must never be empty, empty text otherwise.
pub open spec fn default_text(key: ConfigKey) -> Seq<u8> {
    match key {
        ConfigKey::WifiSsid => default_marker() + key_name(key),
        ConfigKey::WifiPass => default_marker() + key_name(key),
        ConfigKey::MqttAddr => default_marker() + key_name(key),
        _ => Seq::empty(),
    }
}

/// The fallback duration of a key the blob does not provide, in seconds.
pub const DEFAULT_SECS: u64 = 30;

/// A key as a byte buffer.
pub fn key_bytes(key: ConfigKey) -> (r: Vec<u8>)
    ensures
        r@ == key_name(key),
{
    let mut v: Vec<u8> = Vec::new();
    match key {
        ConfigKey::WifiSsid => {
            v.push(87);
            v.push(73);
            v.push(70);
            v.push(73);
            v.push(95);
            v.push(83);
            v.push(83);
            v.push(73);
            v.push(68);
        },
        ConfigKey::WifiPass => {
            v.push(87);
            v.push(73);
            v.push(70);
            v.push(73);
            v.push(95);
            v.push(80);
            v.push(65);
            v.push(83);
            v.push(83);
        },
        ConfigKey::MqttAddr => {
            v.push(77);
            v.push(81);
            v.push(84);
            v.push(84);
            v.push(95);
            v.push(65);
            v.push(68);
            v.push(68);
            v.push(82);
        },
        ConfigKey::MqttUser => {
            v.push(77);
            v.push(81);
            v.push(84);
            v.push(84);
            v.push(95);
            v.push(85);
            v.push(83);
            v.push(69);
            v.push(82);
        },
        ConfigKey::MqttPass => {
            v.push(77);
            v.push(81);
            v.push(84);
            v.push(84);
            v.push(95);
            v.push(80);
            v.push(65);
            v.push(83);
            v.push(83);
        },
        ConfigKey::MqttPrefix => {
            v.push(77);
            v.push(81);
            v.push(84);
            v.push(84);
            v.push(95);
            v.push(80);
            v.push(82);
            v.push(70);
            v.push(88);
        },
        ConfigKey::SensorSleepSecs => {
            v.push(83);
            v.push(69);
            v.push(78);
            v.push(83);
            v.push(79);
            v.push(82);
            v.push(95);
            v.push(83);
            v.push(76);
            v.push(69);
            v.push(69);
            v.push(80);
            v.push(95);
            v.push(83);
            v.push(69);
            v.push(67);
            v.push(83);
        },
        ConfigKey::SensorAlertSecs => {
            v.push(83);
            v.push(69);
            v.push(78);
            v.push(83);
            v.push(79);
            v.push(82);
            v.push(95);
            v.push(65);
            v.push(76);
            v.push(69);
            v.push(82);
            v.push(84);
            v.push(95);
            v.push(83);
            v.push(69);
            v.push(67);
            v.push(83);
        },
    }
    proof {
        assert(v@ =~= key_name(key));
    }
    v
}

/// A key's fallback text as a byte buffer.
pub fn default_text_bytes(key: ConfigKey) -> (r: Vec<u8>)
    ensures
        r@ == default_text(key),
{
    match key {
        ConfigKey::WifiSsid | ConfigKey::WifiPass | ConfigKey::MqttAddr => {
            let mut v: Vec<u8> = Vec::new();
            v.push(68);
            v.push(69);
            v.push(70);
            v.push(65);
            v.push(85);
            v.push(76);
            v.push(84);
            v.push(95);
            proof {
                assert(v@ =~= default_marker());
            }
            let name = key_bytes(key);
            let mut i: usize = 0;
            while i < name.len()
                invariant
                    i <= name@.len(),
                    v@ == default_marker() + name@.subrange(0, i as int),
                decreases name@.len() - i,
            {
                v.push(name[i]);
                i = i + 1;
                proof {
                    assert(v@ =~= default_marker() + name@.subrange(0, i as int));
                }
            }
            proof {
                assert(name@.subrange(0, name@.len() as int) =~= name@);
            }
            v
        },
        _ => {
            let v: Vec<u8> = Vec::new();
            proof {
                assert(v@ =~= default_text(key));
            }
            v
        },
    }
}

/// The text a loaded configuration holds for a key: the blob's first value,
/// or the key's fallback.
pub open spec fn text_or_default(blob: Seq<u8>, key: ConfigKey) -> Seq<u8> {
    match config_text(blob, key_name(key)) {
        Some(v) => v,
        None => default_text(key),
    }
}

/// The duration a loaded configuration holds for a key, in seconds.
pub open spec fn secs_or_default(blob: Seq<u8>, key: ConfigKey) -> u64 {
    match config_secs(blob, key_name(key)) {
        Some(v) => v,
        None => DEFAULT_SECS,
    }
}

/// The device configuration, loaded once at boot from the blob kept in the
/// reset-surviving storage area.
#[derive(Debug)]
#[allow(non_snake_case)]
pub struct AppConfig {
    /// The wireless network name.
    pub WIFI_SSID: Vec<u8>,
    /// The wireless network password.
    pub WIFI_PASS: Vec<u8>,
    /// The report server address and port.
    pub MQTT_ADDR: Vec<u8>,
    /// The report server username.
    pub MQTT_USER: Vec<u8>,
    /// The report server password.
    pub MQTT_PASS: Vec<u8>,
    /// The report topic prefix, also used as the client identifier.
    pub MQTT_PRFX: Vec<u8>,
    /// The sleep duration between two measurement cycles, in seconds.
    pub SENSOR_SLEEP_SECS: u64,
    /// The fault-signal duration, in seconds.
    pub SENSOR_ALERT_SECS: u64,
}

impl AppConfig {
    /// Loads the configuration from the blob: every key gets the blob's
    /// first valid value, or its fallback.
    pub fn load(blob: &[u8]) -> (r: AppConfig)
        ensures
            r.WIFI_SSID@ == text_or_default(blob@, ConfigKey::WifiSsid),
            r.WIFI_PASS@ == text_or_default(blob@, ConfigKey::WifiPass),
            r.MQTT_ADDR@ == text_or_default(blob@, ConfigKey::MqttAddr),
            r.MQTT_USER@ == text_or_default(blob@, ConfigKey::MqttUser),
            r.MQTT_PASS@ == text_or_default(blob@, ConfigKey::MqttPass),
            r.MQTT_PRFX@ == text_or_default(blob@, ConfigKey::MqttPrefix),
            r.SENSOR_SLEEP_SECS == secs_or_default(blob@, ConfigKey::SensorSleepSecs),
            r.SENSOR_ALERT_SECS == secs_or_default(blob@, ConfigKey::SensorAlertSecs),
    {
        let wifi_ssid = Self::load_text(blob, ConfigKey::WifiSsid);
        let wifi_pass = Self::load_text(blob, ConfigKey::WifiPass);
        let mqtt_addr = Self::load_text(blob, ConfigKey::MqttAddr);
        let mqtt_user = Self::load_text(blob, ConfigKey::MqttUser);
        let mqtt_pass = Self::load_text(blob, ConfigKey::MqttPass);
        let mqtt_prfx = Self::load_text(blob, ConfigKey::MqttPrefix);
        let sleep_secs = Self::load_secs(blob, ConfigKey::SensorSleepSecs);
        let alert_secs = Self::load_secs(blob, ConfigKey::SensorAlertSecs);
        AppConfig {
            WIFI_SSID: wifi_ssid,
            WIFI_PASS: wifi_pass,
            MQTT_ADDR: mqtt_addr,
            MQTT_USER: mqtt_user,
            MQTT_PASS: mqtt_pass,
            MQTT_PRFX: mqtt_prfx,
            SENSOR_SLEEP_SECS: sleep_secs,
            SENSOR_ALERT_SECS: alert_secs,
        }
    }

    /// One key's text, from the blob or its fallback.
    fn load_text(blob: &[u8], key: ConfigKey) -> (r: Vec<u8>)
        ensures
            r@ == text_or_default(blob@, key),
    {
        let name = key_bytes(key);
        match lookup_text(blob, name.as_slice()) {
            Some(v) => v,
            None => default_text_bytes(key),
        }
    }

    /// One key's duration, from the blob or its fallback.
    fn load_secs(blob: &[u8], key: ConfigKey) -> (r: u64)
        ensures
            r == secs_or_default(blob@, key),
    {
        let name = key_bytes(key);
        match lookup_secs(blob, name.as_slice()) {
            Some(v) => v,
            None => DEFAULT_SECS,
        }
    }
}

} // verus!
