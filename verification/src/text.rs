//! Text rules: stripping quotes, joining author names, filling the template.

use vstd::prelude::*;
use vstd::string::*;

verus! {

/// Whether `s` starts and ends with a double quote, the two being different
/// characters of `s`.
pub open spec fn is_quoted(s: Seq<char>) -> bool {
    s.len() >= 2 && s[0] == '"' && s[s.len() - 1] == '"'
}

/// `s` without its enclosing pair of double quotes, if it has one.
pub open spec fn dequoted(s: Seq<char>) -> Seq<char> {
    if is_quoted(s) {
        s.subrange(1, s.len() - 1)
    } else {
        s
    }
}

/// Strips one enclosing pair of double quotes from a value's text.
pub fn dequote_str(text: String) -> (r: String)
    ensures
        r@ == dequoted(text@),
{
    let n: usize = text.as_str().unicode_len();
    if n >= 2 && text.as_str().get_char(0) == '"' && text.as_str().get_char(n - 1) == '"' {
        text.as_str().substring_char(1, n - 1).to_owned()
    } else {
        text
    }
}

/// What stands between the author at `index - 1` and the author at `index`
/// in a list of `count` authors: `" and "` before the last, `", "` elsewhere.
pub open spec fn separator(index: int, count: int) -> Seq<char> {
    if index == count - 1 {
        " and "@
    } else {
        ", "@
    }
}

/// The first `upto` authors of `names` as they stand in the display string,
/// each without its quotes.
pub open spec fn joined_prefix(names: Seq<Seq<char>>, upto: int) -> Seq<char>
    decreases upto,
{
    if upto <= 0 {
        Seq::empty()
    } else if upto == 1 {
        dequoted(names[0])
    } else {
        joined_prefix(names, upto - 1) + separator(upto - 1, names.len() as int) + dequoted(
            names[upto - 1],
        )
    }
}

/// The display string of a list of authors: `"A"`, `"A and B"`,
/// `"A, B and C"`, and so on; empty for no author.
pub open spec fn joined_authors(names: Seq<Seq<char>>) -> Seq<char> {
    joined_prefix(names, names.len() as int)
}

/// Joins the texts of the authors into one display string.
pub fn join_authors(names: &Vec<String>) -> (r: String)
    ensures
        r@ == joined_authors(names.deep_view()),
{
    let ghost texts = names.deep_view();
    let mut out = String::new();
    let mut i: usize = 0;
    while i < names.len()
        invariant
            i <= names.len(),
            texts == names.deep_view(),
            texts.len() == names.len(),
            out@ == joined_prefix(texts, i as int),
        decreases names.len() - i,
    {
        assert(texts[i as int] == names[i as int]@);
        let name = dequote_str(names[i].clone());
        if i > 0 {
            if i == names.len() - 1 {
                out.append(" and ");
            } else {
                out.append(", ");
            }
        }
        out.append(name.as_str());
        proof {
            assert(Seq::<char>::empty() + name@ =~= name@);
        }
        i += 1;
    }
    out
}

/// A single author is shown as written, two are joined by `" and "`, and of
/// three or more all but the last two are followed by `", "`.
pub proof fn lemma_joined_authors_shape(names: Seq<Seq<char>>)
    ensures
        names.len() == 0 ==> joined_authors(names) == Seq::<char>::empty(),
        names.len() >= 1 ==> joined_prefix(names, 1) == dequoted(names[0]),
        names.len() == 1 ==> joined_authors(names) == dequoted(names[0]),
        names.len() == 2 ==> joined_authors(names) == dequoted(names[0]) + " and "@ + dequoted(
            names[1],
        ),
        names.len() == 3 ==> joined_authors(names) == dequoted(names[0]) + ", "@ + dequoted(
            names[1],
        ) + " and "@ + dequoted(names[2]),
        names.len() >= 2 ==> joined_authors(names) == joined_prefix(names, names.len() - 1)
            + " and "@ + dequoted(names.last()),
        forall|k: int|
            2 <= k < names.len() ==> #[trigger] joined_prefix(names, k) == joined_prefix(
                names,
                k - 1,
            ) + ", "@ + dequoted(names[k - 1]),
{
    reveal_with_fuel(joined_prefix, 4);
}

/// How often the character `c` stands in `s`.
pub open spec fn count_char(s: Seq<char>, c: char) -> nat
    decreases s.len(),
{
    if s.len() == 0 {
        0
    } else {
        count_char(s.drop_last(), c) + if s.last() == c {
            1nat
        } else {
            0nat
        }
    }
}

/// A character stands in two texts put together as often as in the one and
/// in the other.
pub proof fn lemma_count_char_concat(a: Seq<char>, b: Seq<char>, c: char)
    ensures
        count_char(a + b, c) == count_char(a, c) + count_char(b, c),
    decreases b.len(),
{
    if b.len() == 0 {
        assert(a + b =~= a);
    } else {
        assert((a + b).drop_last() =~= a + b.drop_last());
        assert((a + b).last() == b.last());
        lemma_count_char_concat(a, b.drop_last(), c);
    }
}

/// A text without the character `c` holds it no times.
pub proof fn lemma_count_char_absent(s: Seq<char>, c: char)
    requires
        forall|i: int| 0 <= i < s.len() ==> s[i] != c,
    ensures
        count_char(s, c) == 0,
    decreases s.len(),
{
    if s.len() > 0 {
        lemma_count_char_absent(s.drop_last(), c);
    }
}

/// The separator before the last author holds no comma, any other holds one.
pub proof fn lemma_separator_commas(index: int, count: int)
    ensures
        count_char(separator(index, count), ',') == (if index == count - 1 {
            0nat
        } else {
            1nat
        }),
{
    reveal_strlit(" and ");
    reveal_strlit(", ");
    lemma_count_char_absent(" and "@, ',');
    let comma = ", "@;
    assert(comma.drop_last().drop_last() =~= Seq::<char>::empty());
    assert(comma.last() == ' ');
    assert(comma.drop_last().last() == ',');
    reveal_with_fuel(count_char, 3);
}

/// The commas among the first `upto` authors as they stand in the display
/// string, where no author's name holds a comma: one behind each author but
/// the last of them, and none before the last author of all.
pub proof fn lemma_joined_prefix_commas(names: Seq<Seq<char>>, upto: int)
    requires
        1 <= upto <= names.len(),
        forall|i: int| 0 <= i < names.len() ==> count_char(#[trigger] dequoted(names[i]), ',') == 0,
    ensures
        count_char(joined_prefix(names, upto), ',') == (if upto == names.len() && upto >= 2 {
            upto - 2
        } else {
            upto - 1
        }),
    decreases upto,
{
    assert(count_char(dequoted(names[upto - 1]), ',') == 0);
    if upto >= 2 {
        lemma_joined_prefix_commas(names, upto - 1);
        let head = joined_prefix(names, upto - 1);
        let gap = separator(upto - 1, names.len() as int);
        let last = dequoted(names[upto - 1]);
        lemma_count_char_concat(head + gap, last, ',');
        lemma_count_char_concat(head, gap, ',');
        lemma_separator_commas(upto - 1, names.len() as int);
    }
}

/// Where no author's name holds a comma, the display string of `N` authors
/// holds `N - 2` commas, and none for one or two authors.
pub proof fn lemma_joined_authors_commas(names: Seq<Seq<char>>)
    requires
        names.len() >= 1,
        forall|i: int| 0 <= i < names.len() ==> count_char(#[trigger] dequoted(names[i]), ',') == 0,
    ensures
        count_char(joined_authors(names), ',') == (if names.len() >= 2 {
            names.len() - 2
        } else {
            0
        }),
{
    lemma_joined_prefix_commas(names, names.len() as int);
}

} // verus!
