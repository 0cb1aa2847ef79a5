//! The mappings that the code generator's command line takes: `IDENT=VALUE` and
//! `IDENT=VARIANT1,VARIANT2`.
use vstd::prelude::*;
use vstd::string::StrSliceExecFns;

use crate::utils::text::{first_index_of, lemma_first_index_of, owned, string_views};

verus! {

/// An identifier and a value, written `IDENT=VALUE`.
#[derive(Debug, Clone, PartialEq)]
pub struct ValueMapping {
    pub ident: String,
    pub value: String,
}

/// An identifier and enum variants, written `IDENT=VARIANT1,VARIANT2`.
#[derive(Debug, Clone, PartialEq)]
pub struct EnumVariantMapping {
    pub ident: String,
    pub variants: Vec<String>,
}

/// Unicode white space, as `char::is_whitespace` tells it.
pub open spec fn is_white_space(c: char) -> bool {
    ||| ('\u{9}' <= c && c <= '\u{d}')
    ||| c == ' '
    ||| c == '\u{85}'
    ||| c == '\u{a0}'
    ||| c == '\u{1680}'
    ||| ('\u{2000}' <= c && c <= '\u{200a}')
    ||| c == '\u{2028}'
    ||| c == '\u{2029}'
    ||| c == '\u{202f}'
    ||| c == '\u{205f}'
    ||| c == '\u{3000}'
}

/// The text without its leading white space.
pub open spec fn trim_start(s: Seq<char>) -> Seq<char>
    decreases s.len(),
{
    if s.len() > 0 && is_white_space(s[0]) {
        trim_start(s.drop_first())
    } else {
        s
    }
}

/// The text without its trailing white space.
pub open spec fn trim_end(s: Seq<char>) -> Seq<char>
    decreases s.len(),
{
    if s.len() > 0 && is_white_space(s.last()) {
        trim_end(s.drop_last())
    } else {
        s
    }
}

/// The text without its leading and trailing white space.
pub open spec fn trim(s: Seq<char>) -> Seq<char> {
    trim_end(trim_start(s))
}

/// The pieces of a text between the separator `c`, in order; a text without it is one
/// piece.
pub open spec fn split_on(s: Seq<char>, c: char) -> Seq<Seq<char>>
    decreases s.len(),
{
    let i = first_index_of(s, c);
    if i < 0 {
        seq![s]
    } else {
        proof {
            lemma_first_index_of(s, c);
        }
        seq![s.take(i)] + split_on(s.skip(i + 1), c)
    }
}

fn white_space(c: char) -> (b: bool)
    ensures
        b == is_white_space(c),
{
    ('\u{9}' <= c && c <= '\u{d}') || c == ' ' || c == '\u{85}' || c == '\u{a0}' || c
        == '\u{1680}' || ('\u{2000}' <= c && c <= '\u{200a}') || c == '\u{2028}' || c
        == '\u{2029}' || c == '\u{202f}' || c == '\u{205f}' || c == '\u{3000}'
}

/// The text without its leading and trailing white space.
pub fn trim_text(s: &str) -> (r: &str)
    ensures
        r@ == trim(s@),
{
    let n = s.unicode_len();
    let mut i: usize = 0;
    assert(s@.skip(0) =~= s@);
    while i < n && white_space(s.get_char(i))
        invariant
            n == s@.len(),
            i <= n,
            trim_start(s@) == trim_start(s@.skip(i as int)),
        decreases n - i,
    {
        assert(s@.skip(i as int).drop_first() =~= s@.skip(i + 1));
        i = i + 1;
    }
    let ghost t = s@.skip(i as int);
    assert(trim_start(t) == t);
    let mut j: usize = n;
    while j > i && white_space(s.get_char(j - 1))
        invariant
            n == s@.len(),
            i <= j <= n,
            t == s@.skip(i as int),
            trim_end(t) == trim_end(s@.subrange(i as int, j as int)),
        decreases j,
    {
        assert(s@.subrange(i as int, j as int).drop_last() =~= s@.subrange(i as int, j - 1));
        j = j - 1;
    }
    let ghost u = s@.subrange(i as int, j as int);
    assert(trim_end(u) == u);
    s.substring_char(i, j)
}

/// The error of a mapping without `=`.
pub open spec fn value_mapping_error() -> Seq<char> {
    "Invalid value mapping, expected an identifier and a value separated by `=`"@
}

impl ValueMapping {
    /// Splits `IDENT=VALUE` at its first `=`.
    pub fn from_str(s: &str) -> (r: Result<ValueMapping, String>)
        ensures
            first_index_of(s@, '=') < 0 ==> (r matches Err(e) && e@ == value_mapping_error()),
            first_index_of(s@, '=') >= 0 ==> (r matches Ok(m) && m.ident@ == s@.take(
                first_index_of(s@, '='),
            ) && m.value@ == s@.skip(first_index_of(s@, '=') + 1)),
    {
        match split_once_eq(s) {
            Some((ident, value)) => Ok(ValueMapping { ident: owned(ident), value: owned(value) }),
            None => Err(
                owned(
                    "Invalid value mapping, expected an identifier and a value separated by `=`",
                ),
            ),
        }
    }
}

/// The text before and after the first `=`.
fn split_once_eq(s: &str) -> (r: Option<(&str, &str)>)
    ensures
        r is None <==> first_index_of(s@, '=') < 0,
        r matches Some((a, b)) ==> a@ == s@.take(first_index_of(s@, '=')) && b@ == s@.skip(
            first_index_of(s@, '=') + 1,
        ),
{
    proof {
        lemma_first_index_of(s@, '=');
    }
    let n = s.unicode_len();
    let mut i: usize = 0;
    while i < n
        invariant
            n == s@.len(),
            i <= n,
            forall|j: int| 0 <= j < i ==> s@[j] != '=',
        decreases n - i,
    {
        if s.get_char(i) == '=' {
            proof {
                lemma_first_index_of(s@, '=');
            }
            assert(first_index_of(s@, '=') == i);
            let a = s.substring_char(0, i);
            let b = s.substring_char(i + 1, n);
            assert(a@ =~= s@.take(i as int));
            assert(b@ =~= s@.skip(i + 1));
            return Some((a, b));
        }
        i = i + 1;
    }
    None
}

/// The trimmed pieces of a text between commas.
pub open spec fn trimmed_pieces(s: Seq<char>) -> Seq<Seq<char>> {
    split_on(s, ',').map_values(|p: Seq<char>| trim(p))
}

proof fn lemma_split_step(s: Seq<char>, start: int, i: int)
    requires
        0 <= start <= i < s.len(),
        s[i] == ',',
        forall|j: int| start <= j < i ==> s[j] != ',',
    ensures
        split_on(s.skip(start), ',') == seq![s.subrange(start, i)] + split_on(s.skip(i + 1), ','),
{
    let t = s.skip(start);
    lemma_first_index_of(t, ',');
    assert(t[i - start] == ',');
    assert forall|j: int| 0 <= j < i - start implies t[j] != ',' by {
        assert(t[j] == s[start + j]);
    }
    assert(first_index_of(t, ',') == i - start);
    assert(t.take(i - start) =~= s.subrange(start, i));
    assert(t.skip(i - start + 1) =~= s.skip(i + 1));
}

proof fn lemma_split_last(s: Seq<char>, start: int)
    requires
        0 <= start <= s.len(),
        forall|j: int| start <= j < s.len() ==> s[j] != ',',
    ensures
        split_on(s.skip(start), ',') == seq![s.skip(start)],
{
    let t = s.skip(start);
    lemma_first_index_of(t, ',');
    assert forall|j: int| 0 <= j < t.len() implies t[j] != ',' by {
        assert(t[j] == s[start + j]);
    }
}

impl EnumVariantMapping {
    /// Splits `IDENT=VARIANTS` at its first `=`, and the variants at each comma, trimming
    /// white space around each.
    pub fn from_str(s: &str) -> (r: Result<EnumVariantMapping, String>)
        ensures
            first_index_of(s@, '=') < 0 ==> (r matches Err(e) && e@ == "Invalid value mapping"@),
            first_index_of(s@, '=') >= 0 ==> (r matches Ok(m) && m.ident@ == s@.take(
                first_index_of(s@, '='),
            ) && string_views(m.variants@) == trimmed_pieces(
                s@.skip(first_index_of(s@, '=') + 1),
            )),
    {
        let (ident, value) = match split_once_eq(s) {
            Some(p) => p,
            None => {
                return Err(owned("Invalid value mapping"));
            },
        };
        let ghost v = value@;
        let n = value.unicode_len();
        let mut variants: Vec<String> = Vec::new();
        let mut start: usize = 0;
        let mut i: usize = 0;
        assert(v.skip(0) =~= v);
        assert(string_views(variants@) + split_on(v, ',').map_values(|p: Seq<char>| trim(p))
            =~= trimmed_pieces(v));
        while i < n
            invariant
                n == v.len(),
                v == value@,
                start <= i <= n,
                forall|j: int| start <= j < i ==> v[j] != ',',
                trimmed_pieces(v) == string_views(variants@) + split_on(v.skip(start as int), ',').map_values(
                    |p: Seq<char>| trim(p),
                ),
            decreases n - i,
        {
            if value.get_char(i) == ',' {
                proof {
                    lemma_split_step(v, start as int, i as int);
                }
                let piece = trim_text(value.substring_char(start, i));
                let ghost before = string_views(variants@);
                variants.push(owned(piece));
                proof {
                    let rest = split_on(v.skip(i + 1), ',');
                    assert(string_views(variants@) =~= before.push(trim(v.subrange(start as int, i as int))));
                    assert((seq![v.subrange(start as int, i as int)] + rest).map_values(|p: Seq<char>| trim(p))
                        =~= seq![trim(v.subrange(start as int, i as int))] + rest.map_values(|p: Seq<char>| trim(p)));
                    assert(before + (seq![trim(v.subrange(start as int, i as int))] + rest.map_values(|p: Seq<char>| trim(p)))
                        =~= string_views(variants@) + rest.map_values(|p: Seq<char>| trim(p)));
                }
                start = i + 1;
            }
            i = i + 1;
        }
        proof {
            lemma_split_last(v, start as int);
        }
        let piece = trim_text(value.substring_char(start, n));
        let ghost before = string_views(variants@);
        variants.push(owned(piece));
        proof {
            assert(v.subrange(start as int, n as int) =~= v.skip(start as int));
            assert(seq![v.skip(start as int)].map_values(|p: Seq<char>| trim(p)) =~= seq![trim(v.skip(start as int))]);
            assert(string_views(variants@) =~= before.push(trim(v.skip(start as int))));
            assert(before + seq![trim(v.skip(start as int))] =~= string_views(variants@));
        }
        Ok(EnumVariantMapping { ident: owned(ident), variants })
    }
}

} // verus!
