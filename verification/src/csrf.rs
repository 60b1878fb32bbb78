use vstd::prelude::*;

use crate::error::WorldlineError;

verus! {

/// The attribute values that the HTML parser and CSS selector engine find in `html`: one row
/// per element that the selector `css` matches, in the order the parser created the
/// elements (document order, except for elements the parser moves, such as content
/// fostered out of a table), holding for each name
/// of `names` the value of that attribute (`None` where the element lacks it); `None` when
/// `css` is not a valid selector.
pub uninterp spec fn selected_attributes(
    html: Seq<char>,
    css: Seq<char>,
    names: Seq<Seq<char>>,
) -> Option<Seq<Seq<Option<Seq<char>>>>>;

pub open spec fn str_seq_view(names: Seq<&str>) -> Seq<Seq<char>> {
    names.map_values(|n: &str| n@)
}

/// Parses `html` as a whole document with `scraper::Html::parse_document`, selects with
/// `scraper::Selector::parse(css)` and `Html::select`, and reads `ElementRef::attr` for each
/// name. Claimed: the result is the named function of the three arguments, every row has
/// one entry per name, and the selector `input[id]` (a type selector with an attribute
/// presence test) parses, so it gives `Some`. Not claimed: anything about how HTML is
/// parsed or which elements a selector matches.
#[verifier::external_body]
fn select_attributes(html: &str, css: &str, names: &[&str]) -> (r: Option<
    Vec<Vec<Option<String>>>,
>)
    ensures
        r.deep_view() == selected_attributes(html@, css@, str_seq_view(names@)),
        css@ == "input[id]"@ ==> r is Some,
        r matches Some(rows) ==> forall|i: int|
            0 <= i < rows.len() ==> (#[trigger] rows[i]).len() == names.len(),
{
    let document = scraper::Html::parse_document(html);
    let selector = scraper::Selector::parse(css).ok()?;
    Some(
        document.select(&selector).map(
            |element| names.iter().map(|name| element.attr(name).map(|v| v.to_string())).collect(),
        ).collect(),
    )
}

pub open spec fn ascii_lower(c: char) -> char {
    if 'A' <= c <= 'Z' {
        ((c as int) + 32) as char
    } else {
        c
    }
}

/// ASCII case-insensitive equality, as `str::eq_ignore_ascii_case` decides it.
pub open spec fn eq_ignore_ascii_case(a: Seq<char>, b: Seq<char>) -> bool {
    &&& a.len() == b.len()
    &&& forall|i: int| 0 <= i < a.len() ==> ascii_lower(a[i]) == ascii_lower(b[i])
}

fn lower_char(c: char) -> (r: char)
    ensures
        r == ascii_lower(c),
{
    if 'A' <= c && c <= 'Z' {
        ((c as u32) + 32) as u8 as char
    } else {
        c
    }
}

/// Whether `a` and `b` are equal up to ASCII case.
pub fn eq_ignore_ascii_case_str(a: &str, b: &str) -> (r: bool)
    ensures
        r == eq_ignore_ascii_case(a@, b@),
{
    let n: usize = a.unicode_len();
    if n != b.unicode_len() {
        return false;
    }
    let mut i: usize = 0;
    while i < n
        invariant
            n == a@.len(),
            n == b@.len(),
            i <= n,
            forall|j: int| 0 <= j < i ==> ascii_lower(a@[j]) == ascii_lower(b@[j]),
        decreases n - i,
    {
        if lower_char(a.get_char(i)) != lower_char(b.get_char(i)) {
            return false;
        }
        i = i + 1;
    }
    true
}

/// The `k`-th entry of a row, `None` past its end.
pub open spec fn row_attr(row: Seq<Option<Seq<char>>>, k: int) -> Option<Seq<char>> {
    if 0 <= k < row.len() {
        row[k]
    } else {
        None
    }
}

/// A row of `[id, value]` attributes describes the hidden `__CSRF` input (id compared
/// without regard to ASCII case).
pub open spec fn is_csrf_input(row: Seq<Option<Seq<char>>>) -> bool {
    row_attr(row, 0) matches Some(id) && eq_ignore_ascii_case(id, "__csrf"@)
}

/// The value of the first `__CSRF` input among `rows` (empty when it has no value), or
/// `None` when there is no such input.
pub open spec fn csrf_lookup(rows: Seq<Seq<Option<Seq<char>>>>) -> Option<Seq<char>>
    decreases rows.len(),
{
    if rows.len() == 0 {
        None
    } else if is_csrf_input(rows[0]) {
        match row_attr(rows[0], 1) {
            Some(v) => Some(v),
            None => Some(Seq::empty()),
        }
    } else {
        csrf_lookup(rows.drop_first())
    }
}

/// The outcome of a CSRF extraction for the given lookup result.
pub open spec fn csrf_outcome(found: Option<Seq<char>>, r: Result<String, WorldlineError>) -> bool {
    match r {
        Ok(v) => found == Some(v@),
        Err(e) => found is None && e is CsrfNotFound,
    }
}

/// The attribute names read from each candidate input, in row order.
pub open spec fn csrf_attribute_names() -> Seq<Seq<char>> {
    seq!["id"@, "value"@]
}

/// The CSS selector of the candidate inputs.
pub open spec fn csrf_selector() -> Seq<char> {
    "input[id]"@
}

proof fn lemma_csrf_lookup_skip(rows: Seq<Seq<Option<Seq<char>>>>, i: int)
    requires
        0 <= i < rows.len(),
        !is_csrf_input(rows[i]),
    ensures
        csrf_lookup(rows.skip(i)) == csrf_lookup(rows.skip(i + 1)),
{
    assert(rows.skip(i).drop_first() =~= rows.skip(i + 1));
    assert(rows.skip(i)[0] == rows[i]);
}

/// Picks the `__CSRF` value out of `[id, value]` attribute rows of the page's inputs.
pub fn csrf_from_inputs(rows: &Vec<Vec<Option<String>>>) -> (r: Result<String, WorldlineError>)
    ensures
        csrf_outcome(csrf_lookup(rows.deep_view()), r),
{
    let ghost all = rows.deep_view();
    let mut i: usize = 0;
    assert(all.skip(0) =~= all);
    while i < rows.len()
        invariant
            all == rows.deep_view(),
            i <= rows.len(),
            csrf_lookup(all.skip(i as int)) == csrf_lookup(all),
        decreases rows.len() - i,
    {
        let row = &rows[i];
        assert(all[i as int] == row.deep_view());
        let is_match = if row.len() > 0 {
            match &row[0] {
                Some(id) => {
                    proof { reveal_strlit("__csrf"); }
                    eq_ignore_ascii_case_str(id.as_str(), "__csrf")
                },
                None => false,
            }
        } else {
            false
        };
        if is_match {
            assert(all.skip(i as int)[0] == all[i as int]);
            let value = if row.len() > 1 {
                match &row[1] {
                    Some(v) => v.clone(),
                    None => String::new(),
                }
            } else {
                String::new()
            };
            return Ok(value);
        }
        proof { lemma_csrf_lookup_skip(all, i as int); }
        i = i + 1;
    }
    assert(all.skip(i as int).len() == 0);
    Err(WorldlineError::CsrfNotFound)
}

/// Extracts the value of the hidden `__CSRF` input field from an HTML page: the `value` of
/// the first `<input>` carrying an `id` that equals `__csrf` up to ASCII case (empty when it
/// has no `value`), or `CsrfNotFound` when there is none.
pub fn extract_csrf(html: &str) -> (r: Result<String, WorldlineError>)
    ensures
        selected_attributes(html@, csrf_selector(), csrf_attribute_names()) matches Some(rows)
            && csrf_outcome(csrf_lookup(rows), r),
{
    let names: [&str; 2] = ["id", "value"];
    let rows = select_attributes(html, "input[id]", names.as_slice());
    proof {
        assert(str_seq_view(names@) =~= csrf_attribute_names());
    }
    match rows {
        Some(rows) => csrf_from_inputs(&rows),
        None => Err(WorldlineError::CsrfNotFound),
    }
}


/// The value reported for a `[id, value]` row: its `value`, or empty when it has none.
pub open spec fn row_value(row: Seq<Option<Seq<char>>>) -> Seq<char> {
    match row_attr(row, 1) {
        Some(v) => v,
        None => Seq::empty(),
    }
}

/// A CSRF value is found exactly when some input's id is `__csrf` up to ASCII case, and the
/// value found is that of the first such input.
pub proof fn law_csrf_first_match(rows: Seq<Seq<Option<Seq<char>>>>)
    ensures
        csrf_lookup(rows) is Some <==> exists|i: int|
            0 <= i < rows.len() && #[trigger] is_csrf_input(rows[i]),
        csrf_lookup(rows) matches Some(v) ==> exists|i: int|
            0 <= i < rows.len() && #[trigger] is_csrf_input(rows[i]) && (forall|j: int|
                0 <= j < i ==> !is_csrf_input(#[trigger] rows[j])) && v == row_value(rows[i]),
    decreases rows.len(),
{
    if rows.len() > 0 {
        let rest = rows.drop_first();
        law_csrf_first_match(rest);
        if is_csrf_input(rows[0]) {
            assert(is_csrf_input(rows[0]));
        } else {
            assert forall|i: int| 1 <= i < rows.len() implies rows[i] == rest[i - 1] by {}
            if exists|i: int| 0 <= i < rows.len() && #[trigger] is_csrf_input(rows[i]) {
                let i: int = choose|i: int| 0 <= i < rows.len() && #[trigger] is_csrf_input(rows[i]);
                assert(is_csrf_input(rest[i - 1]));
            }
            if csrf_lookup(rows) is Some {
                let v = csrf_lookup(rows).unwrap();
                let k: int = choose|k: int|
                    0 <= k < rest.len() && #[trigger] is_csrf_input(rest[k]) && (forall|j: int|
                        0 <= j < k ==> !is_csrf_input(#[trigger] rest[j])) && v == row_value(rest[k]);
                assert(is_csrf_input(rows[k + 1]));
                assert forall|j: int| 0 <= j < k + 1 implies !is_csrf_input(#[trigger] rows[j]) by {
                    if j > 0 {
                        assert(rows[j] == rest[j - 1]);
                    }
                }
            }
        }
    }
}

/// Ids are compared without regard to ASCII case: two ids that differ only in ASCII case
/// are either both taken for the CSRF field or both not.
pub proof fn law_csrf_id_case_insensitive(a: Seq<char>, b: Seq<char>, target: Seq<char>)
    requires
        eq_ignore_ascii_case(a, b),
    ensures
        eq_ignore_ascii_case(a, target) <==> eq_ignore_ascii_case(b, target),
{
}

} // verus!
