//! Rendering of an issue body from a free-text description and an ordered
//! list of system-info pairs.

use vstd::prelude::*;

verus! {

/// Whether `c` has Unicode's White_Space property, which is what
/// `char::is_whitespace` tests.
pub open spec fn is_ws(c: char) -> bool {
    ('\u{9}' <= c && c <= '\u{d}') || c == ' ' || c == '\u{85}' || c == '\u{a0}'
        || c == '\u{1680}' || ('\u{2000}' <= c && c <= '\u{200a}') || c == '\u{2028}'
        || c == '\u{2029}' || c == '\u{202f}' || c == '\u{205f}' || c == '\u{3000}'
}

/// `s` without its trailing whitespace.
pub open spec fn trim_trailing(s: Seq<char>) -> Seq<char>
    decreases s.len(),
{
    if s.len() > 0 && is_ws(s.last()) {
        trim_trailing(s.drop_last())
    } else {
        s
    }
}

/// The description followed by a blank line, or nothing.
pub open spec fn description_part(description: Option<Seq<char>>) -> Seq<char> {
    match description {
        Some(d) => d + seq!['\n', '\n'],
        None => Seq::empty(),
    }
}

/// The heading and header rows that open the system-info table.
pub open spec fn table_header() -> Seq<char> {
    "## System Info\n\n| Field | Value |\n|-------|-------|\n"@
}

/// One table row: `| key | value |` and a newline.
pub open spec fn table_row(key: Seq<char>, value: Seq<char>) -> Seq<char> {
    seq!['|', ' '] + key + seq![' ', '|', ' '] + value + seq![' ', '|', '\n']
}

/// The rows of the table, one per pair, in the given order.
pub open spec fn table_rows(info: Seq<(Seq<char>, Seq<char>)>) -> Seq<char>
    decreases info.len(),
{
    if info.len() == 0 {
        Seq::empty()
    } else {
        table_rows(info.drop_last()) + table_row(info.last().0, info.last().1)
    }
}

/// The system-info table: empty when there are no pairs.
pub open spec fn table(info: Seq<(Seq<char>, Seq<char>)>) -> Seq<char> {
    if info.len() == 0 {
        Seq::empty()
    } else {
        table_header() + table_rows(info)
    }
}

/// The rendered issue body.
pub open spec fn rendered(
    description: Option<Seq<char>>,
    info: Seq<(Seq<char>, Seq<char>)>,
) -> Seq<char> {
    trim_trailing(description_part(description) + table(info))
}

/// The pairs of a slice of string pairs, as character sequences.
pub open spec fn pairs_view(info: Seq<(&str, &str)>) -> Seq<(Seq<char>, Seq<char>)> {
    info.map_values(|p: (&str, &str)| (p.0@, p.1@))
}

/// The view of an optional string slice.
pub open spec fn opt_view(s: Option<&str>) -> Option<Seq<char>> {
    match s {
        Some(t) => Some(t@),
        None => None,
    }
}

proof fn lemma_trim_trailing_ends_clean(s: Seq<char>)
    ensures
        trim_trailing(s).len() > 0 ==> !is_ws(trim_trailing(s).last()),
    decreases s.len(),
{
    if s.len() > 0 && is_ws(s.last()) {
        lemma_trim_trailing_ends_clean(s.drop_last());
    }
}

proof fn lemma_rows_end(info: Seq<(Seq<char>, Seq<char>)>)
    requires
        info.len() > 0,
    ensures
        table_rows(info).len() >= 2,
        table_rows(info).last() == '\n',
        table_rows(info)[table_rows(info).len() - 2] == '|',
{
    let row = table_row(info.last().0, info.last().1);
    assert(table_rows(info) == table_rows(info.drop_last()) + row);
    assert(row.last() == '\n');
    assert(row[row.len() - 2] == '|');
}

proof fn lemma_trim_description(d: Seq<char>)
    ensures
        trim_trailing(d + seq!['\n', '\n']) == trim_trailing(d),
{
    let s = d + seq!['\n', '\n'];
    let t = d + seq!['\n'];
    assert(s.drop_last() =~= t);
    assert(t.drop_last() =~= d);
    assert(s.last() == '\n' && is_ws('\n'));
    assert(t.last() == '\n');
    assert(trim_trailing(t) == trim_trailing(d));
}

/// The rendered body never ends in whitespace. With at least one pair it is
/// the description part, then the whole table but for its final newline;
/// with none it is the description alone, trimmed, and no table.
pub proof fn lemma_rendered_shape(
    description: Option<Seq<char>>,
    info: Seq<(Seq<char>, Seq<char>)>,
)
    ensures
        rendered(description, info).len() > 0 ==> !is_ws(rendered(description, info).last()),
        info.len() > 0 ==> rendered(description, info) == description_part(description)
            + table_header() + table_rows(info).drop_last(),
        info.len() == 0 ==> rendered(description, info) == trim_trailing(
            match description {
                Some(d) => d,
                None => Seq::empty(),
            },
        ),
{
    let s = description_part(description) + table(info);
    lemma_trim_trailing_ends_clean(s);
    if info.len() > 0 {
        lemma_rows_end(info);
        let rows = table_rows(info);
        let kept = description_part(description) + table_header() + rows.drop_last();
        assert(s.drop_last() =~= kept);
        assert(s.last() == '\n');
        assert(kept.last() == '|');
        assert(trim_trailing(kept) == kept);
        assert(trim_trailing(s) == trim_trailing(s.drop_last()));
    } else {
        assert(s =~= description_part(description));
        match description {
            Some(d) => lemma_trim_description(d),
            None => {
                assert(s =~= Seq::<char>::empty());
            },
        }
    }
}

/// Relies on `str::trim_end`: the slice without its trailing characters that
/// have the White_Space property.
#[verifier::external_body]
fn trim_end(s: &str) -> (r: &str)
    ensures
        r@ == trim_trailing(s@),
{
    s.trim_end()
}

/// Renders the issue body: the description and a blank line, then a Markdown
/// table of the system-info pairs if there are any, with trailing whitespace
/// removed. Cells are not escaped.
pub fn format_description(description: Option<&str>, system_info: &[(&str, &str)]) -> (r: String)
    ensures
        r@ == rendered(opt_view(description), pairs_view(system_info@)),
{
    let mut body = String::new();
    if let Some(desc) = description {
        body.append(desc);
        body.append("\n\n");
        proof {
            reveal_strlit("\n\n");
        }
    }
    assert(body@ == description_part(opt_view(description)));
    let ghost start = body@;
    let ghost info = pairs_view(system_info@);
    if system_info.len() > 0 {
        body.append("## System Info\n\n| Field | Value |\n|-------|-------|\n");
        let mut i: usize = 0;
        while i < system_info.len()
            invariant
                0 <= i <= system_info@.len(),
                info == pairs_view(system_info@),
                body@ == start + table_header() + table_rows(info.take(i as int)),
            decreases system_info@.len() - i,
        {
            let (key, value) = system_info[i];
            body.append("| ");
            body.append(key);
            body.append(" | ");
            body.append(value);
            body.append(" |\n");
            proof {
                reveal_strlit("| ");
                reveal_strlit(" | ");
                reveal_strlit(" |\n");
                assert(info.take(i + 1).drop_last() =~= info.take(i as int));
            }
            i = i + 1;
            assert(body@ =~= start + table_header() + table_rows(info.take(i as int)));
        }
        assert(info.take(i as int) =~= info);
    } else {
        assert(table(info) =~= Seq::<char>::empty());
    }
    assert(body@ =~= description_part(opt_view(description)) + table(info));
    let trimmed = trim_end(body.as_str());
    String::from_str(trimmed)
}

} // verus!
