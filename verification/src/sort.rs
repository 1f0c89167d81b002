//! The sort chain: an ordered list of columns with a direction each, the
//! first being the primary key of the sort.

use crate::names::{lemma_first_index, lemma_no_index, Name};
use crate::strings::{joined, same_text};
use vstd::prelude::*;
use vstd::string::*;

verus! {

#[derive(Debug, Clone, Copy, PartialEq, Eq, Structural)]
pub enum SortDirection {
    Ascending,
    Descending,
}

impl Default for SortDirection {
    fn default() -> (direction: Self)
        ensures
            direction == SortDirection::Ascending,
    {
        SortDirection::Ascending
    }
}

#[derive(Debug, Clone)]
pub struct SortColumnSpec {
    pub column_name: String,
    pub direction: SortDirection,
}

/// One entry of the sort chain as contracts see it.
pub ghost struct SortKey {
    pub column_name: Name,
    pub direction: SortDirection,
}

impl DeepView for SortColumnSpec {
    type V = SortKey;

    open spec fn deep_view(&self) -> SortKey {
        SortKey { column_name: self.column_name@, direction: self.direction }
    }
}

/// The direction that a key press asks for.
pub open spec fn direction_for(ascending: bool) -> SortDirection {
    if ascending {
        SortDirection::Ascending
    } else {
        SortDirection::Descending
    }
}

/// The columns of a chain, in order of priority.
pub open spec fn chain_columns(chain: Seq<SortKey>) -> Seq<Name> {
    chain.map_values(|k: SortKey| k.column_name)
}

/// The chain after a request to sort by `column` alone: the single entry
/// asked for, unless the chain already begins with exactly that entry, in
/// which case the request clears the chain.
pub open spec fn toggled_primary(chain: Seq<SortKey>, column: Name, ascending: bool) -> Seq<
    SortKey,
> {
    let wanted = SortKey { column_name: column, direction: direction_for(ascending) };
    if chain.len() > 0 && chain[0] == wanted {
        Seq::empty()
    } else {
        seq![wanted]
    }
}

/// The chain after a request to toggle `column` in it: an entry with the
/// same direction leaves the chain, one with the other direction changes
/// direction where it stands, and a column that is not in the chain joins
/// it at the end.
pub open spec fn toggled_in_chain(chain: Seq<SortKey>, column: Name, ascending: bool) -> Seq<
    SortKey,
> {
    let wanted = SortKey { column_name: column, direction: direction_for(ascending) };
    match chain_columns(chain).index_of_first(column) {
        Some(i) => if chain[i].direction == wanted.direction {
            chain.remove(i)
        } else {
            chain.update(i, wanted)
        },
        None => chain.push(wanted),
    }
}

/// "ASC" or "DESC".
pub open spec fn direction_keyword(direction: SortDirection) -> Seq<char> {
    match direction {
        SortDirection::Ascending => seq!['A', 'S', 'C'],
        SortDirection::Descending => seq!['D', 'E', 'S', 'C'],
    }
}

/// One term of an ORDER BY clause: the column, a space, the keyword.
pub open spec fn order_term(key: SortKey) -> Seq<char> {
    key.column_name + seq![' '] + direction_keyword(key.direction)
}

/// The entries of the chain whose column is among `known`.
pub open spec fn known_keys(chain: Seq<SortKey>, known: Seq<Name>) -> Seq<SortKey> {
    chain.filter(|k: SortKey| known.contains(k.column_name))
}

/// The ORDER BY clause of a chain: its entries on known columns in chain
/// order, separated by a comma and a space; no clause where none is left.
pub open spec fn order_by_clause(chain: Seq<SortKey>, known: Seq<Name>) -> Option<Seq<char>> {
    let terms = known_keys(chain, known).map_values(|k: SortKey| order_term(k));
    if terms.len() == 0 {
        None
    } else {
        Some(
            seq!['O', 'R', 'D', 'E', 'R', ' ', 'B', 'Y', ' '] + joined(terms, seq![',', ' ']),
        )
    }
}

/// No column stands twice in the chain.
pub open spec fn chain_is_distinct(chain: Seq<SortKey>) -> bool {
    chain_columns(chain).no_duplicates()
}

/// Asking twice for the same primary sort ends with an empty chain, unless
/// the chain began with that very entry; asking for the other direction the
/// second time ends with that single entry.
pub proof fn lemma_toggle_primary_twice(chain: Seq<SortKey>, column: Name, ascending: bool)
    ensures
        !(chain.len() > 0 && chain[0] == (SortKey {
            column_name: column,
            direction: direction_for(ascending),
        })) ==> toggled_primary(toggled_primary(chain, column, ascending), column, ascending)
            == Seq::<SortKey>::empty(),
        toggled_primary(toggled_primary(chain, column, ascending), column, !ascending) == seq![
            SortKey { column_name: column, direction: direction_for(!ascending) },
        ],
{
}

/// From an empty chain, toggling two different columns in lists them in
/// that order, and toggling the first once more with its direction leaves
/// the second alone.
pub proof fn lemma_toggle_in_chain_order(a: Name, a_ascending: bool, b: Name, b_ascending: bool)
    requires
        a != b,
    ensures
        toggled_in_chain(
            toggled_in_chain(Seq::empty(), a, a_ascending),
            b,
            b_ascending,
        ) == seq![
            SortKey { column_name: a, direction: direction_for(a_ascending) },
            SortKey { column_name: b, direction: direction_for(b_ascending) },
        ],
        toggled_in_chain(
            toggled_in_chain(toggled_in_chain(Seq::empty(), a, a_ascending), b, b_ascending),
            a,
            a_ascending,
        ) == seq![SortKey { column_name: b, direction: direction_for(b_ascending) }],
{
    let ka = SortKey { column_name: a, direction: direction_for(a_ascending) };
    let kb = SortKey { column_name: b, direction: direction_for(b_ascending) };
    let empty = Seq::<SortKey>::empty();
    lemma_no_index(chain_columns(empty), a);
    let one = toggled_in_chain(empty, a, a_ascending);
    assert(one =~= seq![ka]);
    assert(chain_columns(one)[0] == a);
    lemma_no_index(chain_columns(one), b);
    let two = toggled_in_chain(one, b, b_ascending);
    assert(two =~= seq![ka, kb]);
    assert(chain_columns(two)[0] == a);
    lemma_first_index(chain_columns(two), a, 0);
    assert(two.remove(0) =~= seq![kb]);
}

/// Both toggles keep a chain free of repeated columns.
pub proof fn lemma_toggles_keep_distinct(chain: Seq<SortKey>, column: Name, ascending: bool)
    requires
        chain_is_distinct(chain),
    ensures
        chain_is_distinct(toggled_primary(chain, column, ascending)),
        chain_is_distinct(toggled_in_chain(chain, column, ascending)),
{
    let after = toggled_in_chain(chain, column, ascending);
    let cols = chain_columns(chain);
    cols.index_of_first_ensures(column);
    match cols.index_of_first(column) {
        Some(i) => {
            if chain[i].direction == direction_for(ascending) {
                assert forall|x: int, y: int|
                    0 <= x < after.len() && 0 <= y < after.len() && x != y implies chain_columns(
                    after,
                )[x] != chain_columns(after)[y] by {
                    let x0 = if x < i {
                        x
                    } else {
                        x + 1
                    };
                    let y0 = if y < i {
                        y
                    } else {
                        y + 1
                    };
                    assert(chain_columns(after)[x] == cols[x0]);
                    assert(chain_columns(after)[y] == cols[y0]);
                }
            } else {
                assert(chain_columns(after) =~= cols);
            }
        },
        None => {
            assert forall|x: int, y: int|
                0 <= x < after.len() && 0 <= y < after.len() && x != y implies chain_columns(
                after,
            )[x] != chain_columns(after)[y] by {
                if x < cols.len() {
                    assert(chain_columns(after)[x] == cols[x]);
                    assert(cols.contains(cols[x]));
                }
                if y < cols.len() {
                    assert(chain_columns(after)[y] == cols[y]);
                    assert(cols.contains(cols[y]));
                }
            }
        },
    }
}

/// The direction for `ascending`.
pub fn direction_of(ascending: bool) -> (direction: SortDirection)
    ensures
        direction == direction_for(ascending),
{
    if ascending {
        SortDirection::Ascending
    } else {
        SortDirection::Descending
    }
}

/// The index of the first entry of the chain on `column_name`.
pub fn chain_position(chain: &Vec<SortColumnSpec>, column_name: &str) -> (found: Option<usize>)
    ensures
        match found {
            Some(i) => i < chain.len() && chain_columns(chain.deep_view()).index_of_first(
                column_name@,
            ) == Some(i as int),
            None => chain_columns(chain.deep_view()).index_of_first(column_name@) is None,
        },
{
    let mut i: usize = 0;
    while i < chain.len()
        invariant
            i <= chain.len(),
            forall|j: int| 0 <= j < i ==> chain_columns(chain.deep_view())[j] != column_name@,
        decreases chain.len() - i,
    {
        if same_text(chain[i].column_name.as_str(), column_name) {
            proof {
                assert(chain_columns(chain.deep_view())[i as int] == column_name@);
                lemma_first_index(chain_columns(chain.deep_view()), column_name@, i as int);
            }
            return Some(i);
        }
        i += 1;
    }
    proof {
        lemma_no_index(chain_columns(chain.deep_view()), column_name@);
    }
    None
}

/// Sorts by `column_name` alone, or clears the chain where it already
/// begins with that column and direction.
pub fn toggle_primary(chain: &mut Vec<SortColumnSpec>, column_name: &str, ascending: bool)
    ensures
        final(chain).deep_view() == toggled_primary(
            old(chain).deep_view(),
            column_name@,
            ascending,
        ),
{
    let direction = direction_of(ascending);
    let begins_with_it = chain.len() > 0 && same_text(
        chain[0].column_name.as_str(),
        column_name,
    ) && chain[0].direction == direction;
    chain.clear();
    if !begins_with_it {
        chain.push(SortColumnSpec { column_name: column_name.to_owned(), direction });
    }
    assert(chain.deep_view() =~= toggled_primary(
        old(chain).deep_view(),
        column_name@,
        ascending,
    ));
}

/// Toggles `column_name` in the chain: out where it stands with the same
/// direction, turned round where it stands with the other, in at the end
/// where it does not stand at all.
pub fn toggle_in_chain(chain: &mut Vec<SortColumnSpec>, column_name: &str, ascending: bool)
    ensures
        final(chain).deep_view() == toggled_in_chain(
            old(chain).deep_view(),
            column_name@,
            ascending,
        ),
{
    let direction = direction_of(ascending);
    let ghost before = chain.deep_view();
    match chain_position(chain, column_name) {
        Some(i) => {
            if chain[i].direction == direction {
                chain.remove(i);
                assert(chain.deep_view() =~= before.remove(i as int));
            } else {
                chain[i] = SortColumnSpec { column_name: column_name.to_owned(), direction };
                assert(chain.deep_view() =~= before.update(
                    i as int,
                    SortKey { column_name: column_name@, direction },
                ));
            }
        },
        None => {
            chain.push(SortColumnSpec { column_name: column_name.to_owned(), direction });
            assert(chain.deep_view() =~= before.push(
                SortKey { column_name: column_name@, direction },
            ));
        },
    }
}

/// Whether `name` is among `names`.
fn is_listed(names: &[String], name: &str) -> (found: bool)
    ensures
        found == names.deep_view().contains(name@),
{
    let mut i: usize = 0;
    while i < names.len()
        invariant
            i <= names.len(),
            forall|j: int| 0 <= j < i ==> names.deep_view()[j] != name@,
        decreases names.len() - i,
    {
        if same_text(names[i].as_str(), name) {
            assert(names.deep_view()[i as int] == name@);
            return true;
        }
        i += 1;
    }
    false
}

/// Writes the ORDER BY clause of `chain`, leaving out entries on columns
/// that are not among `column_names`.
pub fn render_order_by(chain: &Vec<SortColumnSpec>, column_names: &[String]) -> (clause: Option<
    String,
>)
    ensures
        clause.deep_view() == order_by_clause(chain.deep_view(), column_names.deep_view()),
{
    let ghost known = column_names.deep_view();
    let ghost keep = |k: SortKey| known.contains(k.column_name);
    let ghost term = |k: SortKey| order_term(k);
    let mut out = String::new();
    let mut terms: usize = 0;
    let mut i: usize = 0;
    proof {
        reveal(Seq::filter);
        assert(chain.deep_view().take(0).filter(keep) =~= Seq::<SortKey>::empty());
    }
    while i < chain.len()
        invariant
            i <= chain.len(),
            known == column_names.deep_view(),
            keep == |k: SortKey| known.contains(k.column_name),
            term == |k: SortKey| order_term(k),
            terms == chain.deep_view().take(i as int).filter(keep).len(),
            out@ == joined(
                chain.deep_view().take(i as int).filter(keep).map_values(term),
                seq![',', ' '],
            ),
        decreases chain.len() - i,
    {
        let ghost done = chain.deep_view().take(i as int);
        let ghost key = chain.deep_view()[i as int];
        proof {
            assert(chain.deep_view().take(i + 1) =~= done.push(key));
            done.lemma_filter_push(key, keep);
            done.lemma_filter_len(keep);
        }
        if is_listed(column_names, chain[i].column_name.as_str()) {
            proof {
                reveal_strlit(", ");
                reveal_strlit(" ");
                reveal_strlit("ASC");
                reveal_strlit("DESC");
            }
            if terms > 0 {
                out.append(", ");
            }
            out.append(chain[i].column_name.as_str());
            out.append(" ");
            match chain[i].direction {
                SortDirection::Ascending => out.append("ASC"),
                SortDirection::Descending => out.append("DESC"),
            }
            proof {
                let kept = done.filter(keep);
                let next = kept.push(key).map_values(term);
                assert(next.drop_last() =~= kept.map_values(term));
                assert(next.last() == order_term(key));
                assert(", "@ =~= seq![',', ' ']);
                assert(" "@ =~= seq![' ']);
                assert("ASC"@ =~= direction_keyword(SortDirection::Ascending));
                assert("DESC"@ =~= direction_keyword(SortDirection::Descending));
                if terms > 0 {
                    assert(out@ =~= joined(next.drop_last(), seq![',', ' ']) + seq![',', ' ']
                        + next.last());
                } else {
                    assert(out@ =~= next.last());
                }
            }
            terms += 1;
        }
        i += 1;
    }
    proof {
        assert(chain.deep_view().take(i as int) =~= chain.deep_view());
    }
    if terms == 0 {
        None
    } else {
        proof {
            reveal_strlit("ORDER BY ");
        }
        let mut clause = "ORDER BY ".to_owned();
        clause.append(out.as_str());
        assert(clause@ =~= order_by_clause(chain.deep_view(), known)->0);
        Some(clause)
    }
}

} // verus!
