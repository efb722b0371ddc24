//! Linux-side logic: hex formatting of device ids, normalization of id
//! strings, extraction and rewriting of udev rules text, and the
//! configuration-path preference order.  Reading and writing the files
//! themselves is outside work; everything here is a function from plain
//! values to plain values.

use vstd::prelude::*;

use crate::strutil::{
    find_char_from, find_from, first_at_or_after, first_match_at_or_after,
    lemma_first_at_or_after, lemma_first_match_at_or_after, occurs_at,
};

verus! {

/// The lowercase hex digit for one value below sixteen.
pub open spec fn hex_digit_char(n: int) -> char {
    if n == 0 {
        '0'
    } else if n == 1 {
        '1'
    } else if n == 2 {
        '2'
    } else if n == 3 {
        '3'
    } else if n == 4 {
        '4'
    } else if n == 5 {
        '5'
    } else if n == 6 {
        '6'
    } else if n == 7 {
        '7'
    } else if n == 8 {
        '8'
    } else if n == 9 {
        '9'
    } else if n == 10 {
        'a'
    } else if n == 11 {
        'b'
    } else if n == 12 {
        'c'
    } else if n == 13 {
        'd'
    } else if n == 14 {
        'e'
    } else {
        'f'
    }
}

/// The one-character string for one hex digit.
fn hex_digit_str(n: u16) -> (r: &'static str)
    requires
        n < 16,
    ensures
        r@ =~= seq![hex_digit_char(n as int)],
{
    proof {
        reveal_strlit("0");
        reveal_strlit("1");
        reveal_strlit("2");
        reveal_strlit("3");
        reveal_strlit("4");
        reveal_strlit("5");
        reveal_strlit("6");
        reveal_strlit("7");
        reveal_strlit("8");
        reveal_strlit("9");
        reveal_strlit("a");
        reveal_strlit("b");
        reveal_strlit("c");
        reveal_strlit("d");
        reveal_strlit("e");
        reveal_strlit("f");
    }
    if n == 0 {
        "0"
    } else if n == 1 {
        "1"
    } else if n == 2 {
        "2"
    } else if n == 3 {
        "3"
    } else if n == 4 {
        "4"
    } else if n == 5 {
        "5"
    } else if n == 6 {
        "6"
    } else if n == 7 {
        "7"
    } else if n == 8 {
        "8"
    } else if n == 9 {
        "9"
    } else if n == 10 {
        "a"
    } else if n == 11 {
        "b"
    } else if n == 12 {
        "c"
    } else if n == 13 {
        "d"
    } else if n == 14 {
        "e"
    } else {
        "f"
    }
}

/// A sixteen-bit value as four zero-padded lowercase hex digits.
pub open spec fn hex4_spec(d: int) -> Seq<char> {
    seq![
        hex_digit_char(d / 4096 % 16),
        hex_digit_char(d / 256 % 16),
        hex_digit_char(d / 16 % 16),
        hex_digit_char(d % 16),
    ]
}

/// Formats a device id the way the udev rules carry it: four zero-padded
/// lowercase hex digits.
pub fn decimal_to_hex(decimal: u16) -> (r: String)
    ensures
        r@ == hex4_spec(decimal as int),
{
    let mut out = String::new();
    out.append(hex_digit_str(decimal / 4096 % 16));
    out.append(hex_digit_str(decimal / 256 % 16));
    out.append(hex_digit_str(decimal / 16 % 16));
    out.append(hex_digit_str(decimal % 16));
    proof {
        assert(out@ =~= hex4_spec(decimal as int));
    }
    out
}

/// The ASCII-lowercase counterpart of one character; everything outside
/// `A`..`Z` is kept as it is.
pub open spec fn ascii_lower_char(c: char) -> char {
    if c == 'A' {
        'a'
    } else if c == 'B' {
        'b'
    } else if c == 'C' {
        'c'
    } else if c == 'D' {
        'd'
    } else if c == 'E' {
        'e'
    } else if c == 'F' {
        'f'
    } else if c == 'G' {
        'g'
    } else if c == 'H' {
        'h'
    } else if c == 'I' {
        'i'
    } else if c == 'J' {
        'j'
    } else if c == 'K' {
        'k'
    } else if c == 'L' {
        'l'
    } else if c == 'M' {
        'm'
    } else if c == 'N' {
        'n'
    } else if c == 'O' {
        'o'
    } else if c == 'P' {
        'p'
    } else if c == 'Q' {
        'q'
    } else if c == 'R' {
        'r'
    } else if c == 'S' {
        's'
    } else if c == 'T' {
        't'
    } else if c == 'U' {
        'u'
    } else if c == 'V' {
        'v'
    } else if c == 'W' {
        'w'
    } else if c == 'X' {
        'x'
    } else if c == 'Y' {
        'y'
    } else if c == 'Z' {
        'z'
    } else {
        c
    }
}

/// The one-character string replacing an ASCII uppercase letter, or `None`
/// for a character that lowercases to itself.
fn upper_to_lower_str(c: char) -> (r: Option<&'static str>)
    ensures
        match r {
            Some(t) => t@ =~= seq![ascii_lower_char(c)],
            None => ascii_lower_char(c) == c,
        },
{
    proof {
        reveal_strlit("a");
        reveal_strlit("b");
        reveal_strlit("c");
        reveal_strlit("d");
        reveal_strlit("e");
        reveal_strlit("f");
        reveal_strlit("g");
        reveal_strlit("h");
        reveal_strlit("i");
        reveal_strlit("j");
        reveal_strlit("k");
        reveal_strlit("l");
        reveal_strlit("m");
        reveal_strlit("n");
        reveal_strlit("o");
        reveal_strlit("p");
        reveal_strlit("q");
        reveal_strlit("r");
        reveal_strlit("s");
        reveal_strlit("t");
        reveal_strlit("u");
        reveal_strlit("v");
        reveal_strlit("w");
        reveal_strlit("x");
        reveal_strlit("y");
        reveal_strlit("z");
    }
    if c == 'A' {
        Some("a")
    } else if c == 'B' {
        Some("b")
    } else if c == 'C' {
        Some("c")
    } else if c == 'D' {
        Some("d")
    } else if c == 'E' {
        Some("e")
    } else if c == 'F' {
        Some("f")
    } else if c == 'G' {
        Some("g")
    } else if c == 'H' {
        Some("h")
    } else if c == 'I' {
        Some("i")
    } else if c == 'J' {
        Some("j")
    } else if c == 'K' {
        Some("k")
    } else if c == 'L' {
        Some("l")
    } else if c == 'M' {
        Some("m")
    } else if c == 'N' {
        Some("n")
    } else if c == 'O' {
        Some("o")
    } else if c == 'P' {
        Some("p")
    } else if c == 'Q' {
        Some("q")
    } else if c == 'R' {
        Some("r")
    } else if c == 'S' {
        Some("s")
    } else if c == 'T' {
        Some("t")
    } else if c == 'U' {
        Some("u")
    } else if c == 'V' {
        Some("v")
    } else if c == 'W' {
        Some("w")
    } else if c == 'X' {
        Some("x")
    } else if c == 'Y' {
        Some("y")
    } else if c == 'Z' {
        Some("z")
    } else {
        None
    }
}

/// A sequence with every character ASCII-lowercased.
pub open spec fn ascii_lower_seq(s: Seq<char>) -> Seq<char> {
    s.map(|i: int, c: char| ascii_lower_char(c))
}

/// A sequence with every leading repetition of `0x` removed.
pub open spec fn strip_0x(s: Seq<char>) -> Seq<char>
    decreases s.len(),
{
    if s.len() >= 2 && s[0] == '0' && s[1] == 'x' {
        strip_0x(s.skip(2))
    } else {
        s
    }
}

/// Normalizes a hex id string for the udev rules: every leading `0x` is
/// removed, then the rest is ASCII-lowercased.
pub fn normalize_hex_id(s: &str) -> (r: String)
    ensures
        r@ == ascii_lower_seq(strip_0x(s@)),
{
    let n = s.unicode_len();
    let mut start: usize = 0;
    proof {
        assert(s@.skip(0) =~= s@);
    }
    loop
        invariant
            start <= n,
            n == s@.len(),
            strip_0x(s@) == strip_0x(s@.skip(start as int)),
        ensures
            start <= n,
            n == s@.len(),
            strip_0x(s@) == s@.skip(start as int),
        decreases n - start,
    {
        if n - start >= 2 && s.get_char(start) == '0' && s.get_char(start + 1) == 'x' {
            proof {
                assert(s@.skip(start as int).skip(2) =~= s@.skip(start + 2));
            }
            start = start + 2;
        } else {
            proof {
                assert(strip_0x(s@.skip(start as int)) == s@.skip(start as int));
            }
            break;
        }
    }
    let mut out = String::new();
    let mut i: usize = start;
    while i < n
        invariant
            start <= i <= n,
            n == s@.len(),
            out@ == ascii_lower_seq(s@.skip(start as int).take(i - start)),
        decreases n - i,
    {
        let c = s.get_char(i);
        match upper_to_lower_str(c) {
            Some(t) => out.append(t),
            None => {
                let piece = s.substring_char(i, i + 1);
                out.append(piece);
            },
        }
        proof {
            let t = s@.skip(start as int);
            assert(t.take(i + 1 - start) =~= t.take(i - start).push(s@[i as int]));
            assert(out@ =~= ascii_lower_seq(t.take(i + 1 - start)));
        }
        i += 1;
    }
    proof {
        assert(s@.skip(start as int).take(n - start) =~= s@.skip(start as int));
    }
    out
}

/// The udev matcher introducing one attribute's value.
pub open spec fn attr_pattern_spec(attr: Seq<char>) -> Seq<char> {
    "ATTRS{"@ + attr + "}==\""@
}

/// Builds the udev matcher for one attribute.
fn attr_pattern(attr: &str) -> (r: String)
    ensures
        r@ == attr_pattern_spec(attr@),
        r@.len() >= 1,
{
    let mut p = "ATTRS{".to_owned();
    p.append(attr);
    p.append("}==\"");
    proof {
        reveal_strlit("}==\"");
    }
    p
}

/// The value the rules text gives an attribute, scanning from `from`: at
/// the first matcher occurrence that a closing quote follows on the same
/// line, the characters between matcher and quote; an occurrence whose
/// line lacks a closing quote is skipped.
pub open spec fn extract_from(s: Seq<char>, pat: Seq<char>, from: int) -> Option<Seq<char>>
    decreases s.len() - from,
{
    if from < 0 || from + pat.len() > s.len() || pat.len() == 0 {
        None
    } else if occurs_at(s, pat, from) && first_at_or_after(s, '"', from + pat.len())
        < first_at_or_after(s, '\n', from + pat.len()) {
        Some(
            s.subrange(from + pat.len(), first_at_or_after(s, '"', from + pat.len())),
        )
    } else {
        extract_from(s, pat, from + 1)
    }
}

/// Stepping over positions without a usable match leaves the extraction
/// result unchanged.
proof fn lemma_extract_skip(s: Seq<char>, pat: Seq<char>, a: int, b: int)
    requires
        0 <= a <= b <= s.len(),
        forall|j: int| a <= j < b ==> !occurs_at(s, pat, j),
    ensures
        extract_from(s, pat, a) == extract_from(s, pat, b),
    decreases b - a,
{
    if a < b {
        assert(!occurs_at(s, pat, a));
        lemma_extract_skip(s, pat, a + 1, b);
    }
}

/// Stepping over a match whose line lacks a closing quote leaves the
/// extraction result unchanged.
proof fn lemma_extract_skip_unclosed(s: Seq<char>, pat: Seq<char>, i: int)
    requires
        occurs_at(s, pat, i),
        !(first_at_or_after(s, '"', i + pat.len()) < first_at_or_after(s, '\n', i + pat.len())),
    ensures
        extract_from(s, pat, i) == extract_from(s, pat, i + 1),
{
}

/// Extracts an attribute's value from the udev rules text: the characters
/// between the first usable `ATTRS{attr}=="` matcher and the closing quote
/// on its line.
pub fn extract_attr_value(content: &str, attr: &str) -> (r: Result<String, String>)
    ensures
        ({
            let e = extract_from(content@, attr_pattern_spec(attr@), 0);
            match r {
                Ok(v) => e == Some(v@),
                Err(msg) => e is None && msg@ == "Could not find "@ + attr@
                    + " in udev rules"@,
            }
        }),
{
    let pat = attr_pattern(attr);
    let n = content.unicode_len();
    let m = pat.as_str().unicode_len();
    let mut from: usize = 0;
    loop
        invariant
            from <= n,
            n == content@.len(),
            m == pat@.len(),
            1 <= m,
            pat@ == attr_pattern_spec(attr@),
            extract_from(content@, pat@, 0) == extract_from(content@, pat@, from as int),
        decreases n - from,
    {
        match find_from(content, pat.as_str(), from) {
            Option::None => {
                proof {
                    lemma_first_match_at_or_after(content@, pat@, from as int);
                    let k = first_match_at_or_after(content@, pat@, from as int);
                    assert forall|j: int| from <= j implies !occurs_at(content@, pat@, j) by {
                        if occurs_at(content@, pat@, j) {
                            assert(j + pat@.len() <= content@.len());
                            assert(j < k ==> !occurs_at(content@, pat@, j));
                        }
                    }
                    lemma_extract_skip(content@, pat@, from as int, n as int);
                    assert(extract_from(content@, pat@, n as int) is None);
                }
                let mut msg = "Could not find ".to_owned();
                msg.append(attr);
                msg.append(" in udev rules");
                return Err(msg);
            },
            Option::Some(i) => {
                proof {
                    lemma_first_match_at_or_after(content@, pat@, from as int);
                }
                let j = i + m;
                let nl = match find_char_from(content, '\n', j) {
                    Option::Some(x) => x,
                    Option::None => n,
                };
                let q = match find_char_from(content, '"', j) {
                    Option::Some(x) => x,
                    Option::None => n,
                };
                proof {
                    lemma_first_at_or_after(content@, '\n', j as int);
                    lemma_first_at_or_after(content@, '"', j as int);
                    lemma_extract_skip(content@, pat@, from as int, i as int);
                }
                if q < nl {
                    let v = content.substring_char(j, q);
                    return Ok(v.to_owned());
                } else {
                    proof {
                        lemma_extract_skip_unclosed(content@, pat@, i as int);
                    }
                    from = i + 1;
                }
            },
        }
    }
}

/// `s` with every non-overlapping occurrence of `pat`, scanned from the
/// left, replaced by `to`.
pub open spec fn replace_spec(s: Seq<char>, pat: Seq<char>, to: Seq<char>) -> Seq<char>
    decreases s.len(),
{
    if pat.len() == 0 || s.len() < pat.len() {
        s
    } else if s.subrange(0, pat.len() as int) == pat {
        to + replace_spec(s.skip(pat.len() as int), pat, to)
    } else {
        seq![s[0]] + replace_spec(s.skip(1), pat, to)
    }
}

/// Occurrences in a suffix are occurrences in the whole, shifted.
proof fn lemma_occurs_shift(s: Seq<char>, pat: Seq<char>, k: int)
    requires
        0 <= k <= s.len(),
    ensures
        forall|j: int|
            0 <= j ==> (#[trigger] occurs_at(s.skip(k), pat, j) <==> occurs_at(s, pat, j + k)),
{
    assert forall|j: int|
        0 <= j implies (#[trigger] occurs_at(s.skip(k), pat, j) <==> occurs_at(
        s,
        pat,
        j + k,
    )) by {
        if j + pat.len() <= s.len() - k {
            assert(s.skip(k).subrange(j, j + pat.len()) =~= s.subrange(j + k, j + k + pat.len()));
        }
    }
}

/// A stretch without any occurrence passes through a replacement
/// unchanged.
proof fn lemma_replace_skip_prefix(s: Seq<char>, pat: Seq<char>, to: Seq<char>, k: int)
    requires
        pat.len() > 0,
        0 <= k <= s.len(),
        forall|j: int| 0 <= j < k ==> !occurs_at(s, pat, j),
    ensures
        replace_spec(s, pat, to) == s.subrange(0, k) + replace_spec(s.skip(k), pat, to),
    decreases k,
{
    if k == 0 {
        assert(s.skip(0) =~= s);
        assert(s.subrange(0, 0) + replace_spec(s, pat, to) =~= replace_spec(s, pat, to));
    } else {
        if s.len() < pat.len() {
            assert(s.skip(k).len() < pat.len());
            assert(s.subrange(0, k) + s.skip(k) =~= s);
        } else {
            assert(!occurs_at(s, pat, 0));
            assert(s.subrange(0, pat.len() as int) != pat);
            lemma_occurs_shift(s, pat, 1);
            assert forall|j: int| 0 <= j < k - 1 implies !occurs_at(s.skip(1), pat, j) by {
                assert(!occurs_at(s, pat, j + 1));
            }
            lemma_replace_skip_prefix(s.skip(1), pat, to, k - 1);
            assert(s.skip(1).skip(k - 1) =~= s.skip(k));
            assert(seq![s[0]] + (s.skip(1).subrange(0, k - 1) + replace_spec(s.skip(k), pat, to))
                =~= s.subrange(0, k) + replace_spec(s.skip(k), pat, to));
        }
    }
}

/// A tail without any occurrence passes through a replacement unchanged.
proof fn lemma_replace_none(s: Seq<char>, pat: Seq<char>, to: Seq<char>)
    requires
        pat.len() > 0,
        forall|j: int| !occurs_at(s, pat, j),
    ensures
        replace_spec(s, pat, to) == s,
{
    lemma_replace_skip_prefix(s, pat, to, s.len() as int);
    assert(s.skip(s.len() as int).len() == 0);
    assert(s.skip(s.len() as int).len() < pat.len());
    assert(s.subrange(0, s.len() as int) + s.skip(s.len() as int) =~= s);
}

/// Replaces every non-overlapping occurrence of `pat` in `s` by `to`,
/// scanning from the left, exactly as the rules rewriting needs it.
pub fn replace_all(s: &str, pat: &str, to: &str) -> (r: String)
    requires
        pat@.len() >= 1,
    ensures
        r@ == replace_spec(s@, pat@, to@),
{
    let n = s.unicode_len();
    let m = pat.unicode_len();
    let mut out = String::new();
    let mut pos: usize = 0;
    proof {
        assert(s@.skip(0) =~= s@);
        assert(out@ + replace_spec(s@, pat@, to@) =~= replace_spec(s@, pat@, to@));
    }
    loop
        invariant
            pos <= n,
            n == s@.len(),
            m == pat@.len(),
            1 <= m,
            replace_spec(s@, pat@, to@) == out@ + replace_spec(s@.skip(pos as int), pat@, to@),
        decreases n - pos,
    {
        match find_from(s, pat, pos) {
            Option::Some(i) => {
                proof {
                    lemma_first_match_at_or_after(s@, pat@, pos as int);
                }
                let piece = s.substring_char(pos, i);
                out.append(piece);
                out.append(to);
                proof {
                    let t = s@.skip(pos as int);
                    lemma_occurs_shift(s@, pat@, pos as int);
                    assert forall|j: int| 0 <= j < i - pos implies !occurs_at(t, pat@, j) by {
                        assert(!occurs_at(s@, pat@, j + pos));
                    }
                    lemma_replace_skip_prefix(t, pat@, to@, i - pos);
                    assert(t.subrange(0, i - pos) =~= s@.subrange(pos as int, i as int));
                    assert(t.skip(i - pos) =~= s@.skip(i as int));
                    assert(occurs_at(s@.skip(i as int), pat@, 0)) by {
                        lemma_occurs_shift(s@, pat@, i as int);
                        assert(occurs_at(s@, pat@, i as int));
                    }
                    assert(s@.skip(i as int).subrange(0, pat@.len() as int) == pat@);
                    assert(s@.skip(i as int).skip(pat@.len() as int) =~= s@.skip(i + m));
                    assert(replace_spec(s@.skip(i as int), pat@, to@) == to@ + replace_spec(
                        s@.skip(i + m),
                        pat@,
                        to@,
                    ));
                }
                pos = i + m;
            },
            Option::None => {
                let piece = s.substring_char(pos, n);
                out.append(piece);
                proof {
                    lemma_first_match_at_or_after(s@, pat@, pos as int);
                    let k = first_match_at_or_after(s@, pat@, pos as int);
                    let t = s@.skip(pos as int);
                    lemma_occurs_shift(s@, pat@, pos as int);
                    assert forall|j: int| !occurs_at(t, pat@, j) by {
                        if 0 <= j {
                            assert(occurs_at(t, pat@, j) <==> occurs_at(s@, pat@, j + pos));
                            if occurs_at(s@, pat@, j + pos) {
                                assert(j + pos < k ==> !occurs_at(s@, pat@, j + pos));
                            }
                        }
                    }
                    lemma_replace_none(t, pat@, to@);
                    assert(t =~= s@.subrange(pos as int, n as int));
                }
                return out;
            },
        }
    }
}

/// Rewrites the udev rules text with fresh vendor and product ids: each
/// id is normalized (leading `0x` removed, lowercased), the current value
/// of the corresponding attribute is read out of the text, and every
/// matcher carrying the old value is given the new one.
pub fn rewrite_udev_rules(content: &str, vendor_id: &str, product_id: &str) -> (r: Result<
    String,
    String,
>)
    ensures
        ({
            let vpat = attr_pattern_spec("idVendor"@);
            let ppat = attr_pattern_spec("idProduct"@);
            let ev = extract_from(content@, vpat, 0);
            let ep = extract_from(content@, ppat, 0);
            match r {
                Ok(u) => ev is Some && ep is Some && u@ == replace_spec(
                    replace_spec(
                        content@,
                        vpat + ev.unwrap() + "\""@,
                        vpat + ascii_lower_seq(strip_0x(vendor_id@)) + "\""@,
                    ),
                    ppat + ep.unwrap() + "\""@,
                    ppat + ascii_lower_seq(strip_0x(product_id@)) + "\""@,
                ),
                Err(_) => ev is None || ep is None,
            }
        }),
{
    let vendor_norm = normalize_hex_id(vendor_id);
    let product_norm = normalize_hex_id(product_id);
    let old_vendor = match extract_attr_value(content, "idVendor") {
        Ok(v) => v,
        Err(e) => {
            return Err(e);
        },
    };
    let old_product = match extract_attr_value(content, "idProduct") {
        Ok(v) => v,
        Err(e) => {
            return Err(e);
        },
    };
    let vendor_old_matcher = quoted_matcher("idVendor", old_vendor.as_str());
    let vendor_new_matcher = quoted_matcher("idVendor", vendor_norm.as_str());
    let product_old_matcher = quoted_matcher("idProduct", old_product.as_str());
    let product_new_matcher = quoted_matcher("idProduct", product_norm.as_str());
    let step1 = replace_all(
        content,
        vendor_old_matcher.as_str(),
        vendor_new_matcher.as_str(),
    );
    let step2 = replace_all(
        step1.as_str(),
        product_old_matcher.as_str(),
        product_new_matcher.as_str(),
    );
    Ok(step2)
}

/// Builds the full matcher `ATTRS{attr}=="value"`.
fn quoted_matcher(attr: &str, value: &str) -> (r: String)
    ensures
        r@ == attr_pattern_spec(attr@) + value@ + "\""@,
        r@.len() >= 1,
{
    let mut p = attr_pattern(attr);
    p.append(value);
    p.append("\"");
    p
}

/// The view of an optional borrowed string.
pub open spec fn opt_str_view(o: Option<&str>) -> Option<Seq<char>> {
    match o {
        Some(s) => Some(s@),
        None => None,
    }
}

/// The configuration files tried on this platform, most preferred first:
/// the XDG configuration home, then the home directory's `.config`, then
/// the system-wide path.
pub open spec fn linux_config_paths_spec(
    xdg: Option<Seq<char>>,
    home: Option<Seq<char>>,
) -> Seq<Seq<char>> {
    (match xdg {
        Some(x) => seq![x + "/qmk-notifier/config.toml"@],
        None => Seq::<Seq<char>>::empty(),
    }) + (match home {
        Some(h) => seq![h + "/.config/qmk-notifier/config.toml"@],
        None => Seq::<Seq<char>>::empty(),
    }) + seq!["/etc/qmk-notifier/config.toml"@]
}

/// The configuration paths in order of preference, given what the
/// environment probes found.
pub fn get_config_paths(xdg_config_home: Option<&str>, home: Option<&str>) -> (r: Vec<String>)
    ensures
        r@.map_values(|s: String| s@) == linux_config_paths_spec(
            opt_str_view(xdg_config_home),
            opt_str_view(home),
        ),
{
    let mut paths: Vec<String> = Vec::new();
    if let Option::Some(x) = xdg_config_home {
        let mut p = x.to_owned();
        p.append("/qmk-notifier/config.toml");
        paths.push(p);
    }
    if let Option::Some(h) = home {
        let mut p = h.to_owned();
        p.append("/.config/qmk-notifier/config.toml");
        paths.push(p);
    }
    paths.push("/etc/qmk-notifier/config.toml".to_owned());
    proof {
        assert(paths@.map_values(|s: String| s@) =~= linux_config_paths_spec(
            opt_str_view(xdg_config_home),
            opt_str_view(home),
        ));
    }
    paths
}

/// The directory the configuration file is created in: the XDG
/// configuration home if set, else `.config` under the home directory.
pub fn config_dir_path(xdg_config_home: Option<&str>, home: Option<&str>) -> (r: Result<
    String,
    String,
>)
    ensures
        match r {
            Ok(p) => (match opt_str_view(xdg_config_home) {
                Some(x) => p@ == x + "/qmk-notifier"@,
                None => opt_str_view(home) is Some && p@ == opt_str_view(home).unwrap()
                    + "/.config/qmk-notifier"@,
            }),
            Err(e) => xdg_config_home is None && home is None && e@
                == "Could not determine configuration directory"@,
        },
{
    match xdg_config_home {
        Option::Some(x) => {
            let mut p = x.to_owned();
            p.append("/qmk-notifier");
            Ok(p)
        },
        Option::None => match home {
            Option::Some(h) => {
                let mut p = h.to_owned();
                p.append("/.config/qmk-notifier");
                Ok(p)
            },
            Option::None => Err("Could not determine configuration directory".to_owned()),
        },
    }
}

} // verus!
