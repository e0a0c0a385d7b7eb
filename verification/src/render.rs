//! Filling the license template: one pass over the template, from left to
//! right, in which each placeholder is replaced where it stands. What was
//! put in is never read again.

use vstd::prelude::*;
use vstd::string::*;

verus! {

/// The four placeholders of a template.
#[derive(Clone, Copy, Debug, PartialEq, Eq, Structural)]
pub enum Placeholder {
    Name,
    Version,
    Year,
    Authors,
}

/// The values that take the placeholders' places.
pub struct Values {
    pub name: Seq<char>,
    pub version: Seq<char>,
    pub year: Seq<char>,
    pub authors: Seq<char>,
}

impl Placeholder {
    /// The placeholder as it is written in a template.
    pub open spec fn token(self) -> Seq<char> {
        match self {
            Placeholder::Name => "{{name}}"@,
            Placeholder::Version => "{{version}}"@,
            Placeholder::Year => "{{year}}"@,
            Placeholder::Authors => "{{authors}}"@,
        }
    }

    /// The number of characters of the placeholder.
    pub open spec fn width(self) -> int {
        match self {
            Placeholder::Name => 8,
            Placeholder::Version => 11,
            Placeholder::Year => 8,
            Placeholder::Authors => 11,
        }
    }

    /// The value that takes the placeholder's place.
    pub open spec fn value(self, values: Values) -> Seq<char> {
        match self {
            Placeholder::Name => values.name,
            Placeholder::Version => values.version,
            Placeholder::Year => values.year,
            Placeholder::Authors => values.authors,
        }
    }

    /// Whether the placeholder stands in `template` at `index`.
    pub open spec fn stands_at(self, template: Seq<char>, index: int) -> bool {
        &&& 0 <= index
        &&& index + self.width() <= template.len()
        &&& template.subrange(index, index + self.width()) == self.token()
    }
}

/// The placeholder that stands in `template` at `index`, if one does. No
/// two of them can stand at one place.
pub open spec fn placeholder_at(template: Seq<char>, index: int) -> Option<Placeholder> {
    if Placeholder::Name.stands_at(template, index) {
        Some(Placeholder::Name)
    } else if Placeholder::Version.stands_at(template, index) {
        Some(Placeholder::Version)
    } else if Placeholder::Year.stands_at(template, index) {
        Some(Placeholder::Year)
    } else if Placeholder::Authors.stands_at(template, index) {
        Some(Placeholder::Authors)
    } else {
        None
    }
}

/// The rendering of `template` from `index` on: a placeholder at `index`
/// gives its value and the scan goes on behind it; any other character is
/// kept.
pub open spec fn rendered_from(template: Seq<char>, values: Values, index: int) -> Seq<char>
    decreases template.len() - index,
{
    if index < 0 || index >= template.len() {
        Seq::empty()
    } else {
        match placeholder_at(template, index) {
            Some(p) => p.value(values) + rendered_from(template, values, index + p.width()),
            None => seq![template[index]] + rendered_from(template, values, index + 1),
        }
    }
}

/// The template with its placeholders filled in a single pass.
pub open spec fn rendered(
    template: Seq<char>,
    name: Seq<char>,
    version: Seq<char>,
    year: Seq<char>,
    authors: Seq<char>,
) -> Seq<char> {
    rendered_from(template, Values { name, version, year, authors }, 0)
}

/// The written form of each placeholder has the width that is stated of it.
pub proof fn lemma_token_widths()
    ensures
        forall|p: Placeholder| #[trigger] p.token().len() == p.width(),
{
    reveal_strlit("{{name}}");
    reveal_strlit("{{version}}");
    reveal_strlit("{{year}}");
    reveal_strlit("{{authors}}");
    assert forall|p: Placeholder| #[trigger] p.token().len() == p.width() by {
        match p {
            Placeholder::Name => {},
            Placeholder::Version => {},
            Placeholder::Year => {},
            Placeholder::Authors => {},
        }
    }
}

/// Whether `token`, of `width` characters, stands in `template` at `index`.
fn token_stands_at(template: &str, length: usize, index: usize, token: &str, width: usize) -> (r:
    bool)
    requires
        length == template@.len(),
        index <= length,
        width == token@.len(),
    ensures
        r == (index + width <= length && template@.subrange(index as int, index + width)
            == token@),
{
    if width <= length - index {
        let part = template.substring_char(index, index + width).to_owned();
        let wanted = token.to_owned();
        part == wanted
    } else {
        false
    }
}

/// Finds the placeholder that stands in `template` at `index`.
fn find_placeholder(template: &str, length: usize, index: usize) -> (r: Option<Placeholder>)
    requires
        length == template@.len(),
        index < length,
    ensures
        r == placeholder_at(template@, index as int),
{
    proof {
        lemma_token_widths();
        assert(Placeholder::Name.token().len() == 8);
        assert(Placeholder::Version.token().len() == 11);
        assert(Placeholder::Year.token().len() == 8);
        assert(Placeholder::Authors.token().len() == 11);
    }
    if token_stands_at(template, length, index, "{{name}}", 8) {
        Some(Placeholder::Name)
    } else if token_stands_at(template, length, index, "{{version}}", 11) {
        Some(Placeholder::Version)
    } else if token_stands_at(template, length, index, "{{year}}", 8) {
        Some(Placeholder::Year)
    } else if token_stands_at(template, length, index, "{{authors}}", 11) {
        Some(Placeholder::Authors)
    } else {
        None
    }
}

/// Fills the four placeholders of `template` in one pass from left to right.
/// A value that holds a placeholder is put in as it is; a placeholder that
/// the template lacks is no error, and any other `{{..}}` stays.
pub fn render_license(template: &str, name: &str, version: &str, year: &str, authors: &str) -> (r:
    String)
    ensures
        r@ == rendered(template@, name@, version@, year@, authors@),
{
    let ghost values = Values { name: name@, version: version@, year: year@, authors: authors@ };
    let length: usize = template.unicode_len();
    let mut out = String::new();
    let mut index: usize = 0;
    proof {
        assert(out@ + rendered_from(template@, values, 0) =~= rendered_from(template@, values, 0));
    }
    while index < length
        invariant
            index <= length,
            length == template@.len(),
            values == (Values { name: name@, version: version@, year: year@, authors: authors@ }),
            out@ + rendered_from(template@, values, index as int) == rendered_from(
                template@,
                values,
                0,
            ),
        decreases length - index,
    {
        let ghost before = out@;
        let ghost rest = rendered_from(template@, values, index as int);
        match find_placeholder(template, length, index) {
            Some(p) => {
                let (value, width): (&str, usize) = match p {
                    Placeholder::Name => (name, 8),
                    Placeholder::Version => (version, 11),
                    Placeholder::Year => (year, 8),
                    Placeholder::Authors => (authors, 11),
                };
                assert(value@ == p.value(values) && width == p.width());
                out.append(value);
                index += width;
                proof {
                    let after = rendered_from(template@, values, index as int);
                    assert(rest == value@ + after);
                    assert(out@ + after =~= before + (value@ + after));
                }
            },
            None => {
                out.append(template.substring_char(index, index + 1));
                index += 1;
                proof {
                    let after = rendered_from(template@, values, index as int);
                    assert(template@.subrange(index - 1, index as int) =~= seq![
                        template@[index - 1],
                    ]);
                    assert(rest == seq![template@[index - 1]] + after);
                    assert(out@ + after =~= before + (seq![template@[index - 1]] + after));
                }
            },
        }
    }
    proof {
        assert(out@ + Seq::<char>::empty() =~= out@);
    }
    out
}

/// From a place behind which no placeholder stands, the template is kept as
/// it is.
pub proof fn lemma_rendered_without_placeholder(template: Seq<char>, values: Values, index: int)
    requires
        0 <= index <= template.len(),
        forall|at: int| index <= at < template.len() ==> placeholder_at(template, at) is None,
    ensures
        rendered_from(template, values, index) == template.subrange(
            index,
            template.len() as int,
        ),
    decreases template.len() - index,
{
    if index < template.len() {
        assert(placeholder_at(template, index) is None);
        lemma_rendered_without_placeholder(template, values, index + 1);
        assert(seq![template[index]] + template.subrange(index + 1, template.len() as int)
            =~= template.subrange(index, template.len() as int));
    } else {
        assert(template.subrange(index, template.len() as int) =~= Seq::<char>::empty());
    }
}

/// A template that is one placeholder and nothing else renders to that
/// placeholder's value, whatever the value holds: a value is not filled
/// again.
pub proof fn lemma_rendered_single_pass(p: Placeholder, values: Values)
    ensures
        rendered_from(p.token(), values, 0) == p.value(values),
{
    lemma_token_widths();
    reveal_strlit("{{name}}");
    reveal_strlit("{{version}}");
    reveal_strlit("{{year}}");
    reveal_strlit("{{authors}}");
    let template = p.token();
    assert(template.subrange(0, p.width()) =~= template);
    assert(p.stands_at(template, 0));
    assert(placeholder_at(template, 0) == Some(p)) by {
        assert(template[2] == p.token()[2]);
        if p != Placeholder::Name && Placeholder::Name.stands_at(template, 0) {
            assert(template.subrange(0, 8)[2] == 'n');
        }
        if p != Placeholder::Version && Placeholder::Version.stands_at(template, 0) {
            assert(template.subrange(0, 11)[2] == 'v');
        }
        if p != Placeholder::Year && Placeholder::Year.stands_at(template, 0) {
            assert(template.subrange(0, 8)[2] == 'y');
        }
        if p != Placeholder::Authors && Placeholder::Authors.stands_at(template, 0) {
            assert(template.subrange(0, 11)[2] == 'a');
        }
    }
    assert(rendered_from(template, values, p.width()) == Seq::<char>::empty());
    assert(p.value(values) + Seq::<char>::empty() =~= p.value(values));
}

/// Whether `c` stands in `s` at `index` and again right behind it.
pub open spec fn pair_at(s: Seq<char>, c: char, index: int) -> bool {
    &&& 0 <= index
    &&& index + 1 < s.len()
    &&& s[index] == c
    &&& s[index + 1] == c
}

/// Whether `s` holds no opening brace.
pub open spec fn without_open_brace(s: Seq<char>) -> bool {
    forall|i: int| 0 <= i < s.len() ==> s[i] != '{'
}

/// Whether none of the four values holds an opening brace.
pub open spec fn values_without_open_brace(values: Values) -> bool {
    &&& without_open_brace(values.name)
    &&& without_open_brace(values.version)
    &&& without_open_brace(values.year)
    &&& without_open_brace(values.authors)
}

/// Whether each `{{` of `template` is the start of one of the four
/// placeholders.
pub open spec fn opens_only_placeholders(template: Seq<char>) -> bool {
    forall|i: int| #[trigger] pair_at(template, '{', i) ==> placeholder_at(template, i) is Some
}

/// Where no value holds an opening brace and each `{{` of the template
/// starts a placeholder, the rendering from `index` on holds no `{{`, and
/// starts with an opening brace only where the template has one at `index`.
pub proof fn lemma_no_open_pair_from(template: Seq<char>, values: Values, index: int)
    requires
        0 <= index <= template.len(),
        values_without_open_brace(values),
        opens_only_placeholders(template),
    ensures
        forall|k: int| !pair_at(rendered_from(template, values, index), '{', k),
        rendered_from(template, values, index).len() > 0 && rendered_from(
            template,
            values,
            index,
        )[0] == '{' ==> index < template.len() && template[index] == '{',
    decreases template.len() - index,
{
    if index < template.len() {
        match placeholder_at(template, index) {
            Some(p) => {
                lemma_token_widths();
                reveal_strlit("{{name}}");
                reveal_strlit("{{version}}");
                reveal_strlit("{{year}}");
                reveal_strlit("{{authors}}");
                assert(p.stands_at(template, index));
                assert(template.subrange(index, index + p.width())[0] == p.token()[0]);
                assert(template[index] == '{');
                lemma_no_open_pair_from(template, values, index + p.width());
                let value = p.value(values);
                let rest = rendered_from(template, values, index + p.width());
                assert(without_open_brace(value));
                assert forall|k: int| !pair_at(value + rest, '{', k) by {
                    if pair_at(value + rest, '{', k) {
                        if k < value.len() {
                            assert((value + rest)[k] == value[k]);
                        } else {
                            assert((value + rest)[k] == rest[k - value.len()]);
                            assert((value + rest)[k + 1] == rest[k + 1 - value.len()]);
                            assert(pair_at(rest, '{', k - value.len()));
                        }
                    }
                }
            },
            None => {
                lemma_no_open_pair_from(template, values, index + 1);
                let rest = rendered_from(template, values, index + 1);
                let whole = seq![template[index]] + rest;
                assert forall|k: int| !pair_at(whole, '{', k) by {
                    if pair_at(whole, '{', k) {
                        if k == 0 {
                            assert(whole[0] == template[index]);
                            assert(whole[1] == rest[0]);
                            assert(pair_at(template, '{', index));
                        } else {
                            assert(whole[k] == rest[k - 1]);
                            assert(whole[k + 1] == rest[k]);
                            assert(pair_at(rest, '{', k - 1));
                        }
                    }
                }
            },
        }
    }
}

/// Where no value holds an opening brace and each `{{` of the template
/// starts a placeholder, no `{{` is left in the rendered text, however
/// often a placeholder stands in the template.
pub proof fn lemma_no_placeholder_start_left(
    template: Seq<char>,
    name: Seq<char>,
    version: Seq<char>,
    year: Seq<char>,
    authors: Seq<char>,
)
    requires
        values_without_open_brace(Values { name, version, year, authors }),
        opens_only_placeholders(template),
    ensures
        forall|k: int| !pair_at(rendered(template, name, version, year, authors), '{', k),
{
    lemma_no_open_pair_from(template, Values { name, version, year, authors }, 0);
}

} // verus!
