//! The table of the profile page and the fields it gives.

use vstd::prelude::*;

verus! {

/// A table as the page shows it: its rows in document order, each row the
/// texts of its cells.
pub type Table = Seq<Seq<Seq<char>>>;

/// The fields of a table: of each row that has cells the text of its last
/// cell, in the order of the rows. A row without cells gives nothing.
pub open spec fn last_cells(table: Table) -> Seq<Seq<char>> {
    table.filter(|row: Seq<Seq<char>>| row.len() > 0).map_values(
        |row: Seq<Seq<char>>| row.last(),
    )
}

/// A table without rows has no fields.
pub proof fn lemma_last_cells_empty(table: Table)
    requires
        table.len() == 0,
    ensures
        last_cells(table) == Seq::<Seq<char>>::empty(),
{
    reveal_with_fuel(Seq::filter, 1);
    assert(last_cells(table) =~= Seq::<Seq<char>>::empty());
}

/// The fields of a table with one more row at its end are the fields of the
/// table and then, if that row has cells, the text of its last cell.
pub proof fn lemma_last_cells_push(table: Table, row: Seq<Seq<char>>)
    ensures
        last_cells(table.push(row)) == if row.len() > 0 {
            last_cells(table).push(row.last())
        } else {
            last_cells(table)
        },
{
    let has_cells = |row: Seq<Seq<char>>| row.len() > 0;
    let last = |row: Seq<Seq<char>>| row.last();
    table.lemma_filter_push(row, has_cells);
    if row.len() > 0 {
        assert(table.filter(has_cells).push(row).map_values(last) =~= table.filter(
            has_cells,
        ).map_values(last).push(row.last()));
    }
}

/// The fields of a table are those of its first row and then those of the
/// other rows.
pub proof fn lemma_last_cells_first(table: Table)
    requires
        table.len() > 0,
    ensures
        last_cells(table) == if table.first().len() > 0 {
            seq![table.first().last()] + last_cells(table.drop_first())
        } else {
            last_cells(table.drop_first())
        },
    decreases table.len(),
{
    let rest = table.drop_first();
    if rest.len() == 0 {
        assert(table =~= Seq::<Seq<Seq<char>>>::empty().push(table.first()));
        lemma_last_cells_push(Seq::empty(), table.first());
        lemma_last_cells_empty(Seq::empty());
        lemma_last_cells_empty(rest);
        if table.first().len() > 0 {
            assert(Seq::<Seq<char>>::empty().push(table.first().last()) =~= seq![
                table.first().last(),
            ] + Seq::<Seq<char>>::empty());
        }
    } else {
        let front = table.drop_last();
        assert(table =~= front.push(table.last()));
        assert(rest =~= front.drop_first().push(table.last()));
        assert(front.first() == table.first());
        lemma_last_cells_first(front);
        lemma_last_cells_push(front, table.last());
        lemma_last_cells_push(front.drop_first(), table.last());
        if table.first().len() > 0 && table.last().len() > 0 {
            assert((seq![table.first().last()] + last_cells(front.drop_first())).push(
                table.last().last(),
            ) =~= seq![table.first().last()] + last_cells(front.drop_first()).push(
                table.last().last(),
            ));
        }
    }
}

/// A field of a table is the last cell of a row that has cells, and every
/// such row has its field: `rows` gives, for each field, the index of its
/// row, in rising order.
pub proof fn law_last_cells_by_row(table: Table) -> (rows: Seq<int>)
    ensures
        rows.len() == last_cells(table).len(),
        forall|k: int|
            0 <= k < rows.len() ==> 0 <= #[trigger] rows[k] < table.len() && table[rows[k]].len()
                > 0 && last_cells(table)[k] == table[rows[k]].last(),
        forall|j: int, k: int| 0 <= j < k < rows.len() ==> rows[j] < rows[k],
        forall|i: int|
            0 <= i < table.len() && table[i].len() > 0 ==> exists|k: int|
                0 <= k < rows.len() && #[trigger] rows[k] == i,
    decreases table.len(),
{
    if table.len() == 0 {
        lemma_last_cells_empty(table);
        Seq::empty()
    } else {
        let front = table.drop_last();
        let row = table.last();
        let before = law_last_cells_by_row(front);
        assert(table =~= front.push(row));
        lemma_last_cells_push(front, row);
        if row.len() > 0 {
            let rows = before.push(table.len() - 1);
            assert forall|i: int| 0 <= i < table.len() && table[i].len() > 0 implies exists|k: int|
                0 <= k < rows.len() && #[trigger] rows[k] == i by {
                if i < front.len() {
                    assert(front[i] == table[i]);
                    let k = choose|k: int| 0 <= k < before.len() && #[trigger] before[k] == i;
                    assert(rows[k] == i);
                } else {
                    assert(rows[rows.len() - 1] == i);
                }
            }
            rows
        } else {
            assert forall|i: int| 0 <= i < table.len() && table[i].len() > 0 implies exists|k: int|
                0 <= k < before.len() && #[trigger] before[k] == i by {
                assert(front[i] == table[i]);
            }
            before
        }
    }
}

/// The fields of a table, computed: `last_cells` of its view.
pub fn fields_of(table: &Vec<Vec<String>>) -> (fields: Vec<String>)
    ensures
        fields.deep_view() == last_cells(table.deep_view()),
{
    let mut fields: Vec<String> = Vec::new();
    let mut index: usize = 0;
    proof {
        lemma_last_cells_empty(table.deep_view().take(0));
        assert(fields.deep_view() =~= Seq::<Seq<char>>::empty());
    }
    while index < table.len()
        invariant
            index <= table.len(),
            fields.deep_view() == last_cells(table.deep_view().take(index as int)),
        decreases table.len() - index,
    {
        let row = &table[index];
        let ghost before = fields.deep_view();
        proof {
            assert(table.deep_view().take(index + 1) =~= table.deep_view().take(index as int).push(
                row.deep_view(),
            ));
            lemma_last_cells_push(table.deep_view().take(index as int), row.deep_view());
        }
        if row.len() > 0 {
            let field = row[row.len() - 1].clone();
            fields.push(field);
            assert(fields.deep_view() =~= before.push(row.deep_view().last()));
        }
        index = index + 1;
    }
    assert(table.deep_view().take(index as int) =~= table.deep_view());
    fields
}

} // verus!
