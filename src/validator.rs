//! When the two fields are ready to be encoded.
use vstd::prelude::*;
use vstd::string::StrSliceExecFns;
use crate::state::{FormState, Model};

verus! {

/// Unicode's White_Space property, which `char::is_whitespace` and
/// `str::trim` go by.
pub open spec fn is_white_space(c: char) -> bool {
    let u = c as u32;
    (0x9 <= u && u <= 0xd) || u == 0x20 || u == 0x85 || u == 0xa0 || u == 0x1680 || (0x2000 <= u
        && u <= 0x200a) || u == 0x2028 || u == 0x2029 || u == 0x202f || u == 0x205f || u == 0x3000
}

/// The text left after trimming white space from both ends still holds a
/// space: some space has a character that is not white space on each side.
pub open spec fn has_interior_space(s: Seq<char>) -> bool {
    exists|j: int, i: int, k: int|
        0 <= j < i < k < s.len() && !is_white_space(#[trigger] s[j]) && #[trigger] s[i] == ' '
            && !is_white_space(#[trigger] s[k])
}

/// The name rule: more than five characters, and looks like "first last".
pub open spec fn name_ok(s: Seq<char>) -> bool {
    s.len() > 5 && has_interior_space(s)
}

/// Whether `c` is white space.
pub fn white_space(c: char) -> (r: bool)
    ensures
        r == is_white_space(c),
{
    let u = c as u32;
    (0x9 <= u && u <= 0xd) || u == 0x20 || u == 0x85 || u == 0xa0 || u == 0x1680 || (0x2000 <= u
        && u <= 0x200a) || u == 0x2028 || u == 0x2029 || u == 0x202f || u == 0x205f || u == 0x3000
}

/// Whether `name` passes the name rule.
pub fn name_valid(name: &str) -> (r: bool)
    ensures
        r == name_ok(name@),
{
    let n = name.unicode_len();
    if n <= 5 {
        return false;
    }
    let ghost s = name@;
    let mut i: usize = 0;
    let mut started = false;
    let mut pending = false;
    let mut found = false;
    while i < n
        invariant
            n == s.len(),
            s == name@,
            i <= n,
            started == exists|j: int| 0 <= j < i && !is_white_space(#[trigger] s[j]),
            pending == exists|j: int, k: int|
                0 <= j < k < i && !is_white_space(#[trigger] s[j]) && #[trigger] s[k] == ' ',
            found == exists|j: int, k: int, l: int|
                0 <= j < k < l < i && !is_white_space(#[trigger] s[j]) && #[trigger] s[k] == ' '
                    && !is_white_space(#[trigger] s[l]),
        decreases n - i,
    {
        let c = name.get_char(i);
        let w = white_space(c);
        proof {
            let ii = i as int;
            if !w && pending {
                let (j, k) = choose|j: int, k: int|
                    0 <= j < k < ii && !is_white_space(#[trigger] s[j]) && #[trigger] s[k] == ' ';
                assert(0 <= j < k < ii + 1 && !is_white_space(s[j]) && s[k] == ' '
                    && !is_white_space(s[ii]));
            }
            if c == ' ' && started {
                let j = choose|j: int| 0 <= j < ii && !is_white_space(#[trigger] s[j]);
                assert(0 <= j < ii && !is_white_space(s[j]) && s[ii] == ' ');
            }
            if !w {
                assert(!is_white_space(s[ii]));
            }
        }
        if !w && pending {
            found = true;
        }
        if c == ' ' && started {
            pending = true;
        }
        if !w {
            started = true;
        }
        i += 1;
        proof {
            let ii = i as int;
            assert forall|j: int, k: int, l: int|
                0 <= j < k < l < ii && !is_white_space(#[trigger] s[j]) && #[trigger] s[k] == ' '
                    && !is_white_space(#[trigger] s[l]) implies found by {
                if l < ii - 1 {
                    assert(0 <= j < k < l < ii - 1);
                } else {
                    assert(0 <= j < k < ii - 1);
                }
            }
            assert forall|j: int, k: int|
                0 <= j < k < ii && !is_white_space(#[trigger] s[j]) && #[trigger] s[k]
                    == ' ' implies pending by {
                if k < ii - 1 {
                    assert(0 <= j < k < ii - 1);
                } else {
                    assert(0 <= j < ii - 1);
                }
            }
            assert forall|j: int| 0 <= j < ii && !is_white_space(#[trigger] s[j]) implies started by {
                if j < ii - 1 {
                    assert(0 <= j < ii - 1);
                }
            }
        }
    }
    proof {
        if has_interior_space(s) {
            let (j, k, l) = choose|j: int, i: int, k: int|
                0 <= j < i < k < s.len() && !is_white_space(#[trigger] s[j]) && #[trigger] s[i]
                    == ' ' && !is_white_space(#[trigger] s[k]);
            assert(0 <= j < k < l < n && !is_white_space(s[j]) && s[k] == ' ' && !is_white_space(
                s[l],
            ));
        }
    }
    found
}

/// Whether `phonenumber::parse` accepts the text under the GB region.
pub uninterp spec fn parses_gb(t: Seq<char>) -> bool;

/// What `phonenumber::is_valid` says of the number parsed from the text under
/// the GB region.
pub uninterp spec fn valid_gb(t: Seq<char>) -> bool;

/// The telephone rule: the text parses under GB and the number is valid there.
pub open spec fn phone_ok(t: Seq<char>) -> bool {
    parses_gb(t) && valid_gb(t)
}

/// Relies on `phonenumber::parse` with region GB, and on `phonenumber::is_valid`
/// for the number it returns: `None` when the text does not parse, else the
/// validity of the parsed number. Both depend on the text alone.
#[verifier::external_body]
fn check_gb(t: &str) -> (r: Option<bool>)
    ensures
        r is Some <==> parses_gb(t@),
        r matches Some(v) ==> v == valid_gb(t@),
{
    match phonenumber::parse(Some(phonenumber::country::Id::GB), t) {
        Ok(n) => Some(phonenumber::is_valid(&n)),
        Err(_) => None,
    }
}

/// The telephone verdict from the outcome of parsing: `None` for text that
/// did not parse, else the parsed number's validity.
pub fn phone_verdict(parsed: Option<bool>) -> (r: bool)
    ensures
        r == (parsed == Some(true)),
{
    match parsed {
        Some(v) => v,
        None => false,
    }
}

/// Whether `telephone` passes the telephone rule. Text that does not parse
/// is simply not valid.
pub fn phone_valid(telephone: &str) -> (r: bool)
    ensures
        r == phone_ok(telephone@),
        !parses_gb(telephone@) ==> !r,
{
    phone_verdict(check_gb(telephone))
}

/// The validity of both fields.
#[derive(Clone, Copy, PartialEq, Eq, Structural, Debug)]
pub struct Verdict {
    pub name_valid: bool,
    pub phone_valid: bool,
}

impl Verdict {
    /// Both fields are valid: the image may be shown.
    pub open spec fn ready(self) -> bool {
        self.name_valid && self.phone_valid
    }
}

/// The verdict on a form state.
pub open spec fn verdict_of(f: FormState) -> Verdict {
    Verdict { name_valid: name_ok(f.name), phone_valid: phone_ok(f.telephone) }
}

/// Checks both fields of the form.
pub fn validate(model: &Model) -> (v: Verdict)
    ensures
        v == verdict_of(model@),
{
    Verdict { name_valid: name_valid(model.name.as_str()), phone_valid: phone_valid(model.telephone.as_str()) }
}

/// A name of five characters or fewer is never valid, whatever it holds.
pub proof fn lemma_short_name_invalid(s: Seq<char>)
    requires
        s.len() <= 5,
    ensures
        !name_ok(s),
{
}

/// `s.subrange(a, b)` is `s` trimmed: white space before `a` and from `b` on,
/// and no white space at either end of what is left.
pub open spec fn trims_to(s: Seq<char>, a: int, b: int) -> bool {
    &&& 0 <= a <= b <= s.len()
    &&& forall|i: int| 0 <= i < a ==> is_white_space(#[trigger] s[i])
    &&& forall|i: int| b <= i < s.len() ==> is_white_space(#[trigger] s[i])
    &&& a < b ==> !is_white_space(s[a]) && !is_white_space(s[b - 1])
}

/// A name longer than five characters is valid exactly when, trimmed of
/// white space at both ends, it still holds a space.
pub proof fn lemma_long_name_rule(s: Seq<char>, a: int, b: int)
    requires
        s.len() > 5,
        trims_to(s, a, b),
    ensures
        name_ok(s) <==> s.subrange(a, b).contains(' '),
{
    let t = s.subrange(a, b);
    if has_interior_space(s) {
        let (j, i, k) = choose|j: int, i: int, k: int|
            0 <= j < i < k < s.len() && !is_white_space(#[trigger] s[j]) && #[trigger] s[i] == ' '
                && !is_white_space(#[trigger] s[k]);
        assert(a <= j);
        assert(k < b);
        assert(t[i - a] == ' ');
    }
    if t.contains(' ') {
        let m = choose|m: int| 0 <= m < t.len() && t[m] == ' ';
        assert(s[a + m] == ' ');
        assert(is_white_space(' '));
        assert(0 <= a < a + m < b - 1 < s.len() && !is_white_space(s[a]) && s[a + m] == ' '
            && !is_white_space(s[b - 1]));
    }
}

/// Text that does not parse, or parses to a number that is not valid, fails
/// the telephone rule; and the verdict on a text is the same each time it is
/// checked.
pub proof fn lemma_phone_rule(t: Seq<char>, u: Seq<char>)
    requires
        t == u,
    ensures
        !parses_gb(t) ==> !phone_ok(t),
        !valid_gb(t) ==> !phone_ok(t),
        phone_ok(t) == phone_ok(u),
{
}

} // verus!
