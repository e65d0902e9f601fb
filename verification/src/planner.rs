//! Whitelist-based field-projection planning.
//!
//! A caller may request an arbitrary subset of an entity's attributes.  Before
//! any requested name reaches a storage query it is intersected with the
//! entity's known column names; unknown names are silently dropped, and an
//! empty intersection degrades to the universal wildcard marker instead of an
//! empty (invalid) column list.

use vstd::prelude::*;
use vstd::string::*;

verus! {

/// The views of a sequence of strings, as sequences of characters.
pub open spec fn views_of(s: Seq<String>) -> Seq<Seq<char>> {
    s.map_values(|x: String| x@)
}

/// A sequence holds no element twice.
pub open spec fn distinct_seq(s: Seq<Seq<char>>) -> bool {
    forall|i: int, j: int| 0 <= i < j < s.len() ==> s[i] != s[j]
}

/// The known columns that the request names, in known-column (canonical) order.
pub open spec fn selected_columns(known: Seq<Seq<char>>, requested: Seq<Seq<char>>) -> Seq<
    Seq<char>,
>
    decreases known.len(),
{
    if known.len() == 0 {
        Seq::empty()
    } else if requested.contains(known.last()) {
        selected_columns(known.drop_last(), requested).push(known.last())
    } else {
        selected_columns(known.drop_last(), requested)
    }
}

/// The columns a plan keeps, over the string vectors handed to the planner.
pub open spec fn planned_columns(known: Seq<String>, requested: Seq<String>) -> Seq<Seq<char>> {
    selected_columns(views_of(known), views_of(requested))
}

/// A comma-joined column list.
pub open spec fn joined_columns(cols: Seq<Seq<char>>) -> Seq<char>
    decreases cols.len(),
{
    if cols.len() == 0 {
        Seq::empty()
    } else if cols.len() == 1 {
        cols[0]
    } else {
        joined_columns(cols.drop_last()) + ","@ + cols.last()
    }
}

/// A resolved projection: either every known column, or a non-empty
/// whitelisted subset of them in canonical order.
pub enum Projection {
    All,
    Columns(Vec<String>),
}

/// Whether a plan computed from `known` and `requested` keeps the column
/// `name`: every column when the request is empty or names no known column
/// (the wildcard fallback), else exactly the selected columns.
pub open spec fn keeps_column(
    known: Seq<Seq<char>>,
    requested: Seq<Seq<char>>,
    name: Seq<char>,
) -> bool {
    requested.len() == 0 || selected_columns(known, requested).len() == 0 || selected_columns(
        known,
        requested,
    ).contains(name)
}

/// Whether the projection keeps the column `name`.
pub open spec fn includes_column(p: &Projection, name: Seq<char>) -> bool {
    match *p {
        Projection::All => true,
        Projection::Columns(cols) => views_of(cols@).contains(name),
    }
}

/// Whether `v` holds a string whose characters equal `x`'s.
pub fn contains_string(v: &Vec<String>, x: &str) -> (r: bool)
    ensures
        r == views_of(v@).contains(x@),
{
    let needle: String = x.to_owned();
    let mut i: usize = 0;
    while i < v.len()
        invariant
            0 <= i <= v@.len(),
            needle@ == x@,
            forall|k: int| 0 <= k < i ==> v@[k]@ != x@,
        decreases v@.len() - i,
    {
        if v[i] == needle {
            assert(views_of(v@)[i as int] == x@);
            return true;
        }
        i = i + 1;
    }
    assert(forall|k: int| 0 <= k < v@.len() ==> views_of(v@)[k] == v@[k]@);
    false
}

/// An empty request selects nothing, whatever the known columns are.
pub proof fn lemma_empty_request_selects_nothing(known: Seq<Seq<char>>)
    ensures
        selected_columns(known, Seq::empty()).len() == 0,
    decreases known.len(),
{
    if known.len() > 0 {
        lemma_empty_request_selects_nothing(known.drop_last());
    }
}

/// Resolve a request against the known columns of an entity.
pub fn plan_projection(known: &Vec<String>, requested: &Vec<String>) -> (r: Projection)
    ensures
        planned_columns(known@, requested@).len() == 0 ==> (r is All),
        requested@.len() == 0 ==> (r is All),
        planned_columns(known@, requested@).len() > 0 ==> (r matches Projection::Columns(cols)
            && views_of(cols@) == planned_columns(known@, requested@)),
        forall|name: Seq<char>| #[trigger] includes_column(&r, name) == keeps_column(
            views_of(known@),
            views_of(requested@),
            name,
        ),
{
    if requested.len() == 0 {
        proof {
            assert(views_of(requested@) =~= Seq::<Seq<char>>::empty());
            lemma_empty_request_selects_nothing(views_of(known@));
        }
        return Projection::All;
    }
    let mut cols: Vec<String> = Vec::new();
    let mut i: usize = 0;
    while i < known.len()
        invariant
            0 <= i <= known@.len(),
            views_of(cols@) =~= selected_columns(
                views_of(known@).take(i as int),
                views_of(requested@),
            ),
        decreases known@.len() - i,
    {
        let hit = contains_string(requested, known[i].as_str());
        proof {
            assert(views_of(known@).take(i + 1).drop_last() =~= views_of(known@).take(i as int));
            assert(views_of(known@).take(i + 1).last() == known@[i as int]@);
        }
        if hit {
            let kept = known[i].clone();
            assert(kept@ == known@[i as int]@);
            cols.push(kept);
        }
        i = i + 1;
    }
    proof {
        assert(views_of(known@).take(known@.len() as int) =~= views_of(known@));
    }
    if cols.len() == 0 {
        assert(planned_columns(known@, requested@).len() == 0);
        Projection::All
    } else {
        assert(views_of(cols@) == planned_columns(known@, requested@));
        Projection::Columns(cols)
    }
}

/// Whether the resolved projection keeps the column named `name`.
pub fn projection_includes(p: &Projection, name: &str) -> (r: bool)
    ensures
        r == includes_column(p, name@),
{
    match p {
        Projection::All => true,
        Projection::Columns(cols) => contains_string(cols, name),
    }
}

/// Resolve a request against the known columns and render it as query text:
/// the comma-joined kept columns, or the `*` wildcard when the request is
/// empty or names no known column.
pub fn get_columns(struct_fields: &Vec<String>, fields: &Vec<String>) -> (r: String)
    ensures
        planned_columns(struct_fields@, fields@).len() == 0 ==> r@ == "*"@,
        fields@.len() == 0 ==> r@ == "*"@,
        planned_columns(struct_fields@, fields@).len() > 0 ==> r@ == joined_columns(
            planned_columns(struct_fields@, fields@),
        ),
{
    let plan = plan_projection(struct_fields, fields);
    match plan {
        Projection::All => {
            let r: String = "*".to_owned();
            r
        },
        Projection::Columns(cols) => {
            let ghost sel = planned_columns(struct_fields@, fields@);
            assert(views_of(cols@) == sel);
            assert(cols@.len() == sel.len());
            let mut r: String = cols[0].clone();
            assert(r@ == sel[0]);
            let mut i: usize = 1;
            while i < cols.len()
                invariant
                    1 <= i <= cols@.len(),
                    views_of(cols@) == sel,
                    cols@.len() == sel.len(),
                    r@ == joined_columns(sel.take(i as int)),
                decreases cols@.len() - i,
            {
                proof {
                    assert(sel.take(i + 1).drop_last() =~= sel.take(i as int));
                    assert(sel.take(i + 1).last() == sel[i as int]);
                    assert(sel.take(1) =~= seq![sel[0]]);
                }
                r.append(",");
                r.append(cols[i].as_str());
                assert(cols@[i as int]@ == sel[i as int]);
                i = i + 1;
            }
            proof {
                assert(sel.take(sel.len() as int) =~= sel);
            }
            r
        },
    }
}

/// Every selected column is both a known column and a requested one: nothing
/// foreign to the whitelist, and nothing the caller did not ask for (except
/// through the wildcard), can appear in a projection.
pub proof fn lemma_selected_sound(known: Seq<Seq<char>>, requested: Seq<Seq<char>>)
    ensures
        forall|x: Seq<char>| #[trigger] selected_columns(known, requested).contains(x) ==> known.contains(x)
            && requested.contains(x),
    decreases known.len(),
{
    if known.len() > 0 {
        lemma_selected_sound(known.drop_last(), requested);
        assert forall|x: Seq<char>| #[trigger] selected_columns(known, requested).contains(x) implies known.contains(
            x,
        ) && requested.contains(x) by {
            let sel = selected_columns(known, requested);
            let prev = selected_columns(known.drop_last(), requested);
            let k = choose|k: int| 0 <= k < sel.len() && sel[k] == x;
            if requested.contains(known.last()) {
                if k < prev.len() {
                    assert(prev.contains(x));
                } else {
                    assert(x == known.last());
                    assert(known[known.len() - 1] == known.last());
                }
            } else {
                assert(prev.contains(x));
            }
            if known.drop_last().contains(x) {
                let j = choose|j: int| 0 <= j < known.drop_last().len() && known.drop_last()[j]
                    == x;
                assert(known[j] == x);
            }
        }
    }
}

/// A column that is both known and requested is selected.
pub proof fn lemma_selected_complete(known: Seq<Seq<char>>, requested: Seq<Seq<char>>, x: Seq<char>)
    requires
        known.contains(x),
        requested.contains(x),
    ensures
        selected_columns(known, requested).contains(x),
    decreases known.len(),
{
    let sel = selected_columns(known, requested);
    let prev = selected_columns(known.drop_last(), requested);
    if known.last() == x {
        assert(sel[sel.len() - 1] == x);
    } else {
        let j = choose|j: int| 0 <= j < known.len() && known[j] == x;
        assert(known.drop_last()[j] == x);
        assert(known.drop_last().contains(x));
        lemma_selected_complete(known.drop_last(), requested, x);
        let k = choose|k: int| 0 <= k < prev.len() && prev[k] == x;
        assert(sel[k] == x);
    }
}

/// Law: a request whose every element is foreign to the known columns selects
/// nothing, so the planner falls back to the wildcard marker rather than an
/// empty column list.
pub proof fn lemma_foreign_request_selects_nothing(known: Seq<Seq<char>>, requested: Seq<Seq<char>>)
    requires
        forall|i: int| 0 <= i < requested.len() ==> !known.contains(#[trigger] requested[i]),
    ensures
        selected_columns(known, requested).len() == 0,
{
    lemma_selected_sound(known, requested);
    let sel = selected_columns(known, requested);
    if sel.len() > 0 {
        assert(sel.contains(sel[0]));
        let i = choose|i: int| 0 <= i < requested.len() && requested[i] == sel[0];
        assert(false);
    }
}

/// Duplicate-free known columns give a duplicate-free selection.
pub proof fn lemma_selected_distinct(known: Seq<Seq<char>>, requested: Seq<Seq<char>>)
    requires
        distinct_seq(known),
    ensures
        distinct_seq(selected_columns(known, requested)),
    decreases known.len(),
{
    if known.len() > 0 {
        let sel = selected_columns(known, requested);
        let prev = selected_columns(known.drop_last(), requested);
        assert(distinct_seq(known.drop_last()));
        lemma_selected_distinct(known.drop_last(), requested);
        lemma_selected_sound(known.drop_last(), requested);
        if requested.contains(known.last()) {
            assert forall|i: int, j: int| 0 <= i < j < sel.len() implies sel[i] != sel[j] by {
                if j == sel.len() - 1 {
                    assert(sel[i] == prev[i]);
                    assert(prev.contains(prev[i]));
                    if sel[i] == known.last() {
                        let k = choose|k: int| 0 <= k < known.drop_last().len()
                            && known.drop_last()[k] == known.last();
                        assert(known[k] == known[known.len() - 1]);
                        assert(false);
                    }
                } else {
                    assert(sel[i] == prev[i] && sel[j] == prev[j]);
                }
            }
        }
    }
}

/// Law: when the known columns are duplicate-free and every requested name is
/// known, the plan keeps exactly the requested names -- no duplicates, no
/// foreign names, and none of the request dropped -- whatever order the
/// request came in.
pub proof fn lemma_subset_request_planned_exactly(known: Seq<Seq<char>>, requested: Seq<Seq<char>>)
    requires
        distinct_seq(known),
        forall|i: int| 0 <= i < requested.len() ==> known.contains(#[trigger] requested[i]),
    ensures
        forall|x: Seq<char>| #[trigger] selected_columns(known, requested).contains(x)
            <==> requested.contains(x),
        distinct_seq(selected_columns(known, requested)),
{
    lemma_selected_sound(known, requested);
    assert forall|x: Seq<char>| requested.contains(x) implies #[trigger] selected_columns(
        known,
        requested,
    ).contains(x) by {
        let i = choose|i: int| 0 <= i < requested.len() && requested[i] == x;
        lemma_selected_complete(known, requested, x);
    }
    lemma_selected_distinct(known, requested);
}

} // verus!
