//! String normalizers: canonical PascalCase project names, canonical font
//! version strings, and BCP-47 locale-to-language folding.
use vstd::prelude::*;

verus! {

/// The lowercase form of an ASCII uppercase letter; any other character is
/// left unchanged.
pub open spec fn lower_char(c: char) -> char {
    if 'A' <= c && c <= 'Z' {
        (((c as u8) + 32) as u8) as char
    } else {
        c
    }
}

/// The uppercase form of an ASCII lowercase letter; any other character is
/// left unchanged.
pub open spec fn upper_char(c: char) -> char {
    if 'a' <= c && c <= 'z' {
        (((c as u8) - 32) as u8) as char
    } else {
        c
    }
}

fn lower_char_exec(c: char) -> (r: char)
    ensures
        r == lower_char(c),
{
    if 'A' <= c && c <= 'Z' {
        ((c as u8) + 32) as char
    } else {
        c
    }
}

fn upper_char_exec(c: char) -> (r: char)
    ensures
        r == upper_char(c),
{
    if 'a' <= c && c <= 'z' {
        ((c as u8) - 32) as char
    } else {
        c
    }
}

/// Separators that are folded to word breaks in a project name.
pub open spec fn is_name_sep(c: char) -> bool {
    c == '-' || c == '_'
}

/// Whitespace, as the name normalizer understands it.
pub open spec fn is_name_space(c: char) -> bool {
    c == ' ' || c == '\t' || c == '\n' || c == '\r'
}

/// A character that ends one word of a project name and starts the next.
pub open spec fn is_word_boundary(c: char) -> bool {
    is_name_sep(c) || is_name_space(c)
}

/// An ASCII lowercase letter.
pub open spec fn is_ascii_lower(c: char) -> bool {
    'a' <= c && c <= 'z'
}

/// An ASCII uppercase letter.
pub open spec fn is_ascii_upper(c: char) -> bool {
    'A' <= c && c <= 'Z'
}

/// The canonical PascalCase name of `s`. A new word begins after a
/// boundary character (`at_start`) and also at an uppercase letter that
/// directly follows a lowercase one (`prev_lower`), the way a title-caser
/// detects camelCase seams. Boundary characters are dropped, the first
/// character of each word is uppercased and the rest are lowercased.
pub open spec fn spec_pname(s: Seq<char>, at_start: bool, prev_lower: bool) -> Seq<char>
    decreases s.len(),
{
    if s.len() == 0 {
        Seq::empty()
    } else if is_word_boundary(s[0]) {
        spec_pname(s.drop_first(), true, false)
    } else if at_start || (prev_lower && is_ascii_upper(s[0])) {
        seq![upper_char(s[0])] + spec_pname(s.drop_first(), false, is_ascii_lower(s[0]))
    } else {
        seq![lower_char(s[0])] + spec_pname(s.drop_first(), false, is_ascii_lower(s[0]))
    }
}

/// Canonicalizes arbitrary project-name text into a single PascalCase
/// token: hyphens, underscores and whitespace become word breaks, a
/// lowercase-to-uppercase seam starts a new word as well, each word is
/// title-cased, and all word breaks are removed. Only ASCII letters are
/// case-mapped; any other character passes through unchanged.
pub fn pname(input: &str) -> (r: String)
    ensures
        r@ == spec_pname(input@, true, false),
{
    let n = input.unicode_len();
    let mut out = String::new();
    let mut at_start = true;
    let mut prev_lower = false;
    let mut i: usize = 0;
    proof {
        assert(input@.skip(0) =~= input@);
        assert(out@ + spec_pname(input@, true, false) =~= spec_pname(input@, true, false));
    }
    while i < n
        invariant
            n == input@.len(),
            i <= n,
            spec_pname(input@, true, false) == out@ + spec_pname(
                input@.skip(i as int),
                at_start,
                prev_lower,
            ),
        decreases n - i,
    {
        let c = input.get_char(i);
        proof {
            assert(input@.skip(i as int).drop_first() =~= input@.skip(i as int + 1));
            assert(input@.skip(i as int)[0] == input@[i as int]);
        }
        if c == '-' || c == '_' || c == ' ' || c == '\t' || c == '\n' || c == '\r' {
            at_start = true;
            prev_lower = false;
        } else {
            let c_is_lower = 'a' <= c && c <= 'z';
            let c_is_upper = 'A' <= c && c <= 'Z';
            if at_start || (prev_lower && c_is_upper) {
                push_char(&mut out, upper_char_exec(c));
            } else {
                push_char(&mut out, lower_char_exec(c));
            }
            at_start = false;
            prev_lower = c_is_lower;
        }
        i = i + 1;
    }
    proof {
        assert(input@.skip(n as int) =~= Seq::<char>::empty());
        assert(out@ + Seq::<char>::empty() =~= out@);
    }
    out
}

/// A canonical project name is a single token: no hyphen, underscore or
/// whitespace of the input survives normalization.
pub proof fn lemma_pname_single_token(s: Seq<char>, at_start: bool, prev_lower: bool)
    ensures
        forall|i: int|
            0 <= i < spec_pname(s, at_start, prev_lower).len() ==> !is_word_boundary(
                #[trigger] spec_pname(s, at_start, prev_lower)[i],
            ),
    decreases s.len(),
{
    if s.len() == 0 {
    } else if is_word_boundary(s[0]) {
        lemma_pname_single_token(s.drop_first(), true, false);
        let r = spec_pname(s, at_start, prev_lower);
        let rest = spec_pname(s.drop_first(), true, false);
        assert forall|i: int| 0 <= i < r.len() implies !is_word_boundary(#[trigger] r[i]) by {
            assert(r[i] == rest[i]);
        }
    } else {
        lemma_pname_single_token(s.drop_first(), false, is_ascii_lower(s[0]));
        let r = spec_pname(s, at_start, prev_lower);
        let c = if at_start || (prev_lower && is_ascii_upper(s[0])) {
            upper_char(s[0])
        } else {
            lower_char(s[0])
        };
        let rest = spec_pname(s.drop_first(), false, is_ascii_lower(s[0]));
        assert(!is_word_boundary(c));
        assert(r == seq![c] + rest);
        assert forall|i: int| 0 <= i < r.len() implies !is_word_boundary(#[trigger] r[i]) by {
            if i == 0 {
                assert(r[0] == c);
            } else {
                assert(r[i] == rest[i - 1]);
            }
        }
    }
}

/// A name already in canonical PascalCase shape: it holds no word
/// boundary, does not begin with a lowercase letter, and every interior
/// uppercase letter stands directly after a lowercase one. Every name the
/// normalizer produces from ordinary words has this shape; the exception
/// is a run of adjacent capitals with nothing lowercase between them, as
/// adjacent single-letter words leave behind.
pub open spec fn is_canonical_name(r: Seq<char>) -> bool {
    &&& forall|i: int| 0 <= i < r.len() ==> !is_word_boundary(#[trigger] r[i])
    &&& r.len() > 0 ==> !is_ascii_lower(r[0])
    &&& forall|i: int|
        1 <= i < r.len() && is_ascii_upper(#[trigger] r[i]) ==> is_ascii_lower(r[i - 1])
}

proof fn lemma_canonical_fixed_from(r: Seq<char>, at_start: bool, prev_lower: bool)
    requires
        forall|i: int| 0 <= i < r.len() ==> !is_word_boundary(#[trigger] r[i]),
        forall|i: int|
            1 <= i < r.len() && is_ascii_upper(#[trigger] r[i]) ==> is_ascii_lower(r[i - 1]),
        r.len() > 0 && at_start ==> !is_ascii_lower(r[0]),
        r.len() > 0 && !at_start && is_ascii_upper(r[0]) ==> prev_lower,
    ensures
        spec_pname(r, at_start, prev_lower) == r,
    decreases r.len(),
{
    if r.len() > 0 {
        let c = r[0];
        let t = r.drop_first();
        assert forall|i: int| 0 <= i < t.len() implies !is_word_boundary(#[trigger] t[i]) by {
            assert(t[i] == r[i + 1]);
        }
        assert forall|i: int|
            1 <= i < t.len() && is_ascii_upper(#[trigger] t[i]) implies is_ascii_lower(
            t[i - 1],
        ) by {
            assert(t[i] == r[i + 1]);
            assert(t[i - 1] == r[i]);
        }
        if t.len() > 0 {
            assert(t[0] == r[1]);
        }
        lemma_canonical_fixed_from(t, false, is_ascii_lower(c));
        if at_start || (prev_lower && is_ascii_upper(c)) {
            assert(upper_char(c) == c);
        } else {
            assert(lower_char(c) == c);
        }
        assert(seq![c] + t =~= r);
    }
}

/// A name already in canonical shape is a fixed point of normalization:
/// normalizing it changes nothing.
pub proof fn lemma_canonical_name_fixed(r: Seq<char>)
    requires
        is_canonical_name(r),
    ensures
        spec_pname(r, true, false) == r,
{
    lemma_canonical_fixed_from(r, true, false);
}

/// Name normalization is idempotent on every input whose canonical name
/// is in canonical shape — that is, on every name whose words carry a
/// lowercase letter before each interior capital. A name of adjacent
/// single-letter words is the exception: its canonical form is a run of
/// capitals, which a second pass folds to a single word.
pub proof fn lemma_pname_idempotent(s: Seq<char>)
    requires
        is_canonical_name(spec_pname(s, true, false)),
    ensures
        spec_pname(spec_pname(s, true, false), true, false) == spec_pname(s, true, false),
{
    lemma_canonical_name_fixed(spec_pname(s, true, false));
}

/// True when no release-revision marker `-r` occurs anywhere in `s`.
pub open spec fn has_no_revision_marker(s: Seq<char>) -> bool {
    forall|j: int| 0 <= j && j + 1 < s.len() ==> !(#[trigger] s[j] == '-' && s[j + 1] == 'r')
}

/// The canonical font version: everything before the first release-revision
/// marker `-r`, or all of `s` when no marker occurs.
pub open spec fn spec_strip_revision(s: Seq<char>) -> Seq<char>
    decreases s.len(),
{
    if s.len() < 2 {
        s
    } else if s[0] == '-' && s[1] == 'r' {
        Seq::empty()
    } else {
        seq![s[0]] + spec_strip_revision(s.drop_first())
    }
}

proof fn lemma_strip_revision_no_marker(s: Seq<char>)
    requires
        has_no_revision_marker(s),
    ensures
        spec_strip_revision(s) == s,
    decreases s.len(),
{
    if s.len() < 2 {
    } else {
        assert(!(s[0] == '-' && s[1] == 'r'));
        assert(has_no_revision_marker(s.drop_first())) by {
            assert forall|j: int| 0 <= j && j + 1 < s.drop_first().len() implies !(
            #[trigger] s.drop_first()[j] == '-' && s.drop_first()[j + 1] == 'r') by {
                assert(s.drop_first()[j] == s[j + 1]);
                assert(s.drop_first()[j + 1] == s[j + 2]);
            }
        }
        lemma_strip_revision_no_marker(s.drop_first());
        assert(seq![s[0]] + s.drop_first() =~= s);
    }
}

proof fn lemma_strip_revision_at_marker(s: Seq<char>, i: int)
    requires
        0 <= i,
        i + 1 < s.len(),
        s[i] == '-' && s[i + 1] == 'r',
        forall|j: int| 0 <= j < i ==> !(#[trigger] s[j] == '-' && s[j + 1] == 'r'),
    ensures
        spec_strip_revision(s) == s.take(i),
    decreases i,
{
    if i == 0 {
        assert(s.take(0) =~= Seq::<char>::empty());
    } else {
        assert(!(s[0] == '-' && s[1] == 'r'));
        let t = s.drop_first();
        assert forall|j: int| 0 <= j < i - 1 implies !(#[trigger] t[j] == '-' && t[j + 1] == 'r') by {
            assert(t[j] == s[j + 1]);
            assert(t[j + 1] == s[j + 2]);
        }
        assert(t[i - 1] == s[i]);
        assert(t[i] == s[i + 1]);
        lemma_strip_revision_at_marker(t, i - 1);
        assert(seq![s[0]] + t.take(i - 1) =~= s.take(i));
    }
}

proof fn lemma_strip_revision_result_has_no_marker(s: Seq<char>)
    ensures
        has_no_revision_marker(spec_strip_revision(s)),
    decreases s.len(),
{
    if s.len() < 2 {
        assert(has_no_revision_marker(s));
    } else if s[0] == '-' && s[1] == 'r' {
    } else {
        let t = s.drop_first();
        let rest = spec_strip_revision(t);
        lemma_strip_revision_result_has_no_marker(t);
        let r = seq![s[0]] + rest;
        assert forall|j: int| 0 <= j && j + 1 < r.len() implies !(#[trigger] r[j] == '-' && r[j + 1] == 'r') by {
            if j == 0 {
                if rest.len() > 0 {
                    // The first character of the stripped tail is the tail's own
                    // first character, so the pair at the seam is a pair of `s`.
                    if t.len() < 2 {
                        assert(rest[0] == t[0]);
                    } else if t[0] == '-' && t[1] == 'r' {
                        assert(rest.len() == 0);
                    } else {
                        assert(rest[0] == t[0]);
                    }
                    assert(r[0] == s[0]);
                    assert(r[1] == rest[0]);
                    assert(rest[0] == s[1]);
                }
            } else {
                assert(r[j] == rest[j - 1]);
                assert(r[j + 1] == rest[j]);
            }
        }
    }
}

/// Stripping the release-revision marker is idempotent: a second
/// application returns its input unchanged.
pub proof fn lemma_strip_revision_idempotent(s: Seq<char>)
    ensures
        spec_strip_revision(spec_strip_revision(s)) == spec_strip_revision(s),
{
    lemma_strip_revision_result_has_no_marker(s);
    lemma_strip_revision_no_marker(spec_strip_revision(s));
}

/// Strips a trailing `-r<anything>` packaging-revision suffix from a font
/// version string; a string without such a marker passes through unchanged.
pub fn format_font_version(version: String) -> (r: String)
    ensures
        r@ == spec_strip_revision(version@),
{
    let s = version.as_str();
    let n = s.unicode_len();
    let mut i: usize = 0;
    while n > 0 && i < n - 1
        invariant
            s@ == version@,
            n == s@.len(),
            i <= n,
            forall|j: int| 0 <= j < i ==> !(#[trigger] s@[j] == '-' && s@[j + 1] == 'r'),
        decreases n - i,
    {
        if s.get_char(i) == '-' && s.get_char(i + 1) == 'r' {
            let prefix = s.substring_char(0, i);
            proof {
                lemma_strip_revision_at_marker(s@, i as int);
                assert(s@.subrange(0, i as int) =~= s@.take(i as int));
            }
            return String::from_str(prefix);
        }
        i = i + 1;
    }
    proof {
        lemma_strip_revision_no_marker(s@);
    }
    version
}

/// A separator that ends the language subtag of a locale tag.
pub open spec fn is_locale_sep(c: char) -> bool {
    c == '-' || c == '_' || c == '.'
}

/// The lowercased language subtag of a locale tag: every character before
/// the first `-`, `_` or `.`, with ASCII uppercase letters lowercased.
pub open spec fn spec_language_subtag(s: Seq<char>) -> Seq<char>
    decreases s.len(),
{
    if s.len() == 0 {
        Seq::empty()
    } else if is_locale_sep(s[0]) {
        Seq::empty()
    } else {
        seq![lower_char(s[0])] + spec_language_subtag(s.drop_first())
    }
}

/// The resolved language of a locale tag: its lowercased language subtag,
/// with the POSIX default locale `c` folded to `en`.
pub open spec fn spec_locale_to_language(s: Seq<char>) -> Seq<char> {
    if spec_language_subtag(s) == seq!['c'] {
        "en"@
    } else {
        spec_language_subtag(s)
    }
}

/// A locale tag that begins with a language character resolves to a
/// non-empty language code: only an empty tag, or one that begins with a
/// separator, yields an empty result.
pub proof fn lemma_locale_language_nonempty(s: Seq<char>)
    requires
        s.len() > 0,
        !is_locale_sep(s[0]),
    ensures
        spec_locale_to_language(s).len() > 0,
{
    reveal_strlit("en");
}

/// Folds a raw locale tag (case-insensitive, possibly carrying region,
/// encoding or modifier suffixes) to its bare lowercase language subtag;
/// the POSIX `"C"` locale resolves to `"en"`. Only ASCII letters are
/// lowercased — all a well-formed language tag can hold — and any other
/// character passes through unchanged.
pub fn locale_to_language(lang: String) -> (r: String)
    ensures
        r@ == spec_locale_to_language(lang@),
{
    let s = lang.as_str();
    let n = s.unicode_len();
    let mut out = String::new();
    let mut i: usize = 0;
    proof {
        assert(s@.skip(0) =~= s@);
        assert(out@ + spec_language_subtag(s@) =~= spec_language_subtag(s@));
    }
    let mut stop = false;
    while i < n && !stop
        invariant
            s@ == lang@,
            n == s@.len(),
            i <= n,
            spec_language_subtag(s@) == out@ + spec_language_subtag(s@.skip(i as int)),
            stop ==> spec_language_subtag(s@.skip(i as int)) == Seq::<char>::empty(),
        decreases n - i, if stop { 0int } else { 1int },
    {
        let c = s.get_char(i);
        proof {
            assert(s@.skip(i as int).drop_first() =~= s@.skip(i as int + 1));
            assert(s@.skip(i as int)[0] == s@[i as int]);
        }
        if c == '-' || c == '_' || c == '.' {
            stop = true;
        } else {
            push_char(&mut out, lower_char_exec(c));
            i = i + 1;
        }
    }
    proof {
        assert(s@.skip(n as int) =~= Seq::<char>::empty());
        assert(out@ + Seq::<char>::empty() =~= out@);
        assert(out@ == spec_language_subtag(lang@));
    }
    let single_c = out.unicode_len() == 1 && out.as_str().get_char(0) == 'c';
    proof {
        assert(single_c <==> out@ =~= seq!['c']);
    }
    if single_c {
        String::from_str("en")
    } else {
        out
    }
}

/// Relies on std's String::push: appends exactly the given character at
/// the end of the string.
#[verifier::external_body]
fn push_char(s: &mut String, c: char)
    ensures
        final(s)@ == old(s)@.push(c),
{
    s.push(c);
}

} // verus!
