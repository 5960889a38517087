use vstd::prelude::*;

verus! {

/// Whether `c` has the Unicode `White_Space` property.
pub open spec fn is_white_space(c: char) -> bool {
    let u = c as u32;
    (0x09 <= u && u <= 0x0D) || u == 0x20 || u == 0x85 || u == 0xA0 || u == 0x1680 || (0x2000
        <= u && u <= 0x200A) || u == 0x2028 || u == 0x2029 || u == 0x202F || u == 0x205F || u
        == 0x3000
}

/// `s` without its leading white space.
pub open spec fn trim_start(s: Seq<char>) -> Seq<char>
    decreases s.len(),
{
    if s.len() > 0 && is_white_space(s[0]) {
        trim_start(s.drop_first())
    } else {
        s
    }
}

/// `s` without its trailing white space.
pub open spec fn trim_end(s: Seq<char>) -> Seq<char>
    decreases s.len(),
{
    if s.len() > 0 && is_white_space(s.last()) {
        trim_end(s.drop_last())
    } else {
        s
    }
}

/// `s` without white space at either end.
pub open spec fn trimmed(s: Seq<char>) -> Seq<char> {
    trim_end(trim_start(s))
}

/// `c` with an ASCII capital letter turned into its small letter.
pub open spec fn ascii_lower(c: char) -> char {
    if 'A' <= c && c <= 'Z' {
        ((c as u32) + 32) as char
    } else {
        c
    }
}

/// Every character of `s` passed through `ascii_lower`.
pub open spec fn lowered(s: Seq<char>) -> Seq<char> {
    s.map_values(|c: char| ascii_lower(c))
}

/// The form in which typed text is compared: trimmed, then lowered.
pub open spec fn normalized(s: Seq<char>) -> Seq<char> {
    lowered(trimmed(s))
}

/// Relies on `str::trim`: leading and trailing `White_Space` characters are
/// removed and nothing else changes.
#[verifier::external_body]
fn trim(s: &str) -> (r: &str)
    ensures
        r@ == trimmed(s@),
{
    s.trim()
}

/// Relies on `str::to_ascii_lowercase`: `A` to `Z` become `a` to `z`, every
/// other character stays as it is.
#[verifier::external_body]
fn to_lower(s: &str) -> (r: String)
    ensures
        r@ == lowered(s@),
{
    s.to_ascii_lowercase()
}

/// Trims `s` and lowers its ASCII letters.
pub fn normalize(s: &str) -> (r: String)
    ensures
        r@ == normalized(s@),
{
    to_lower(trim(s))
}

/// Text that can be brought into its comparable form.
pub trait Format {
    spec fn formatted(&self) -> Seq<char>;

    /// Removes surrounding white space and lowers ASCII letters.
    fn fmt(&self) -> (r: String)
        ensures
            r@ == self.formatted(),
    ;
}

impl Format for String {
    open spec fn formatted(&self) -> Seq<char> {
        normalized(self@)
    }

    fn fmt(&self) -> (r: String) {
        normalize(self.as_str())
    }
}

/// Whether `s` reads exactly `word`.
pub fn is_word(s: &String, word: &str) -> (r: bool)
    ensures
        r == (s@ == word@),
{
    let w = word.to_owned();
    *s == w
}

/// Every character of `s` is white space.
pub open spec fn all_white_space(s: Seq<char>) -> bool {
    forall|i: int| 0 <= i < s.len() ==> is_white_space(#[trigger] s[i])
}

proof fn lemma_trim_start_blank(t: Seq<char>)
    requires
        all_white_space(t),
    ensures
        trim_start(t) == Seq::<char>::empty(),
    decreases t.len(),
{
    if t.len() > 0 {
        assert(is_white_space(t[0]));
        lemma_trim_start_blank(t.drop_first());
    }
}

proof fn lemma_trim_start_prefix(p: Seq<char>, x: Seq<char>)
    requires
        all_white_space(p),
    ensures
        trim_start(p + x) == trim_start(x),
    decreases p.len(),
{
    if p.len() == 0 {
        assert(p + x == x);
    } else {
        assert(is_white_space(p[0]));
        assert((p + x)[0] == p[0]);
        assert((p + x).drop_first() == p.drop_first() + x);
        lemma_trim_start_prefix(p.drop_first(), x);
    }
}

proof fn lemma_trim_end_suffix(x: Seq<char>, t: Seq<char>)
    requires
        all_white_space(t),
    ensures
        trim_end(x + t) == trim_end(x),
    decreases t.len(),
{
    if t.len() == 0 {
        assert(x + t == x);
    } else {
        assert(is_white_space(t.last()));
        assert((x + t).last() == t.last());
        assert((x + t).drop_last() == x + t.drop_last());
        lemma_trim_end_suffix(x, t.drop_last());
    }
}

proof fn lemma_trimmed_suffix(x: Seq<char>, t: Seq<char>)
    requires
        all_white_space(t),
    ensures
        trimmed(x + t) == trimmed(x),
    decreases x.len(),
{
    if x.len() == 0 {
        assert(x + t == t);
        lemma_trim_start_blank(t);
    } else if is_white_space(x[0]) {
        assert((x + t)[0] == x[0]);
        assert((x + t).drop_first() == x.drop_first() + t);
        lemma_trimmed_suffix(x.drop_first(), t);
    } else {
        assert((x + t)[0] == x[0]);
        lemma_trim_end_suffix(x, t);
    }
}

/// Text padded with white space on either side trims to the same text.
pub proof fn lemma_trimmed_padding(p: Seq<char>, q: Seq<char>, t: Seq<char>)
    requires
        all_white_space(p),
        all_white_space(t),
    ensures
        trimmed(p + q + t) == trimmed(q),
{
    lemma_trimmed_suffix(p + q, t);
    lemma_trim_start_prefix(p, q);
}

proof fn lemma_lower_keeps_white_space(c: char)
    ensures
        is_white_space(ascii_lower(c)) == is_white_space(c),
{
}

proof fn lemma_trim_start_lowered(s: Seq<char>)
    ensures
        trim_start(lowered(s)) == lowered(trim_start(s)),
    decreases s.len(),
{
    if s.len() > 0 {
        lemma_lower_keeps_white_space(s[0]);
        assert(lowered(s).drop_first() == lowered(s.drop_first()));
        lemma_trim_start_lowered(s.drop_first());
    }
}

proof fn lemma_trim_end_lowered(s: Seq<char>)
    ensures
        trim_end(lowered(s)) == lowered(trim_end(s)),
    decreases s.len(),
{
    if s.len() > 0 {
        lemma_lower_keeps_white_space(s.last());
        assert(lowered(s).drop_last() == lowered(s.drop_last()));
        lemma_trim_end_lowered(s.drop_last());
    }
}

/// Two texts that match once their ASCII letters are lowered, up to white
/// space padding around the second, have the same normalized form.
pub proof fn lemma_normalized_ignores_case_and_padding(
    a: Seq<char>,
    p: Seq<char>,
    b: Seq<char>,
    t: Seq<char>,
)
    requires
        all_white_space(p),
        all_white_space(t),
        lowered(a) == lowered(p + b + t),
    ensures
        normalized(a) == normalized(b),
{
    lemma_trim_start_lowered(a);
    lemma_trim_end_lowered(trim_start(a));
    lemma_trim_start_lowered(p + b + t);
    lemma_trim_end_lowered(trim_start(p + b + t));
    lemma_trimmed_padding(p, b, t);
}

} // verus!
