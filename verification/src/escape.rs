//! Escape decoding for string literals. The raw text of a literal is turned
//! into its character data only at the point it becomes an IR constant,
//! replacing, in order, `\"`, `\\`, `\n`, `\r`, `\t`, `\0` with their
//! literal characters. Unknown escape sequences pass through unchanged;
//! whether that is intended is an open question, and the behaviour is kept
//! as it is rather than silently changed.
use vstd::prelude::*;
use crate::text::push_char;
use crate::text::str_to_chars;
use crate::text::chars_to_string;

verus! {

/// One replacement pass: every non-overlapping occurrence of the two-character
/// pattern `a b`, scanned left to right, becomes the single character `r`.
pub open spec fn spec_replace2(s: Seq<char>, a: char, b: char, rep: char) -> Seq<char>
    decreases s.len(),
{
    if s.len() >= 2 && s[0] == a && s[1] == b {
        seq![rep] + spec_replace2(s.skip(2), a, b, rep)
    } else if s.len() >= 1 {
        seq![s[0]] + spec_replace2(s.skip(1), a, b, rep)
    } else {
        Seq::empty()
    }
}

/// What decoding a raw literal text returns: the six replacement passes,
/// in order.
pub open spec fn spec_decode(s: Seq<char>) -> Seq<char> {
    spec_replace2(
        spec_replace2(
            spec_replace2(
                spec_replace2(
                    spec_replace2(spec_replace2(s, '\\', '"', '"'), '\\', '\\', '\\'),
                    '\\',
                    'n',
                    '\n',
                ),
                '\\',
                'r',
                '\r',
            ),
            '\\',
            't',
            '\t',
        ),
        '\\',
        '0',
        '\0',
    )
}

fn replace2(v: &Vec<char>, a: char, b: char, rep: char) -> (out: Vec<char>)
    ensures
        out@ == spec_replace2(v@, a, b, rep),
{
    let mut out: Vec<char> = Vec::new();
    let mut i: usize = 0;
    proof {
        assert(v@.skip(0) =~= v@);
        assert(Seq::<char>::empty() + spec_replace2(v@, a, b, rep) =~= spec_replace2(v@, a, b, rep));
    }
    while i < v.len()
        invariant
            i <= v@.len(),
            spec_replace2(v@, a, b, rep) == out@ + spec_replace2(v@.skip(i as int), a, b, rep),
        decreases v@.len() - i,
    {
        if i + 1 < v.len() && v[i] == a && v[i + 1] == b {
            out.push(rep);
            proof {
                assert(v@.skip(i as int).skip(2) =~= v@.skip(i + 2));
            }
            i = i + 2;
        } else {
            out.push(v[i]);
            proof {
                assert(v@.skip(i as int).skip(1) =~= v@.skip(i + 1));
            }
            i = i + 1;
        }
    }
    proof {
        assert(v@.skip(i as int) =~= Seq::<char>::empty());
        assert(out@ + Seq::<char>::empty() =~= out@);
    }
    out
}

/// Decodes the raw text of a string literal into its character data, as
/// [`spec_decode`] says.
pub fn decode_user_string(raw: &str) -> (r: String)
    ensures
        r@ == spec_decode(raw@),
{
    let v0 = str_to_chars(raw);
    let v1 = replace2(&v0, '\\', '"', '"');
    let v2 = replace2(&v1, '\\', '\\', '\\');
    let v3 = replace2(&v2, '\\', 'n', '\n');
    let v4 = replace2(&v3, '\\', 'r', '\r');
    let v5 = replace2(&v4, '\\', 't', '\t');
    let v6 = replace2(&v5, '\\', '0', '\0');
    let r = chars_to_string(&v6, 0, v6.len());
    proof {
        assert(v6@.subrange(0, v6@.len() as int) =~= v6@);
    }
    r
}

/// A replacement pass whose pattern starts with a backslash leaves a text
/// without backslashes unchanged.
proof fn lemma_replace2_no_backslash(s: Seq<char>, b: char, rep: char)
    requires
        forall|i: int| 0 <= i < s.len() ==> s[i] != '\\',
    ensures
        spec_replace2(s, '\\', b, rep) == s,
    decreases s.len(),
{
    if s.len() >= 1 {
        lemma_replace2_no_backslash(s.skip(1), b, rep);
        assert(seq![s[0]] + s.skip(1) =~= s);
    } else {
        assert(spec_replace2(s, '\\', b, rep) =~= s);
    }
}

/// Escape decoding leaves text without backslashes unchanged. In particular
/// decoding is idempotent there: text decoded once holds the decoded
/// characters, and if those hold no backslash a second decoding returns
/// them as they are.
pub proof fn lemma_decode_no_backslash(s: Seq<char>)
    requires
        forall|i: int| 0 <= i < s.len() ==> s[i] != '\\',
    ensures
        spec_decode(s) == s,
{
    lemma_replace2_no_backslash(s, '"', '"');
    lemma_replace2_no_backslash(s, '\\', '\\');
    lemma_replace2_no_backslash(s, 'n', '\n');
    lemma_replace2_no_backslash(s, 'r', '\r');
    lemma_replace2_no_backslash(s, 't', '\t');
    lemma_replace2_no_backslash(s, '0', '\0');
}

} // verus!
