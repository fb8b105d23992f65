use crate::flatten::flatten;
use crate::flatten::flatten_column_value;
use crate::models::column_value_views;
use crate::models::group_views;
use crate::models::item_views;
use crate::models::ColumnValue;
use crate::models::ColumnValueModel;
use crate::models::Group;
use crate::models::GroupModel;
use crate::models::Item;
use crate::models::ItemModel;
use crate::text::contains_char;
use crate::text::str_eq;
use crate::text::string_views;
use vstd::prelude::*;
use vstd::string::*;

verus! {

/// `seen`, and after it the ids of `columns` that are new: each id once, in
/// the order in which it is first met.
pub open spec fn add_ids(seen: Seq<Seq<char>>, columns: Seq<ColumnValueModel>) -> Seq<Seq<char>>
    decreases columns.len(),
{
    if columns.len() == 0 {
        seen
    } else {
        let before = add_ids(seen, columns.drop_last());
        if before.contains(columns.last().id) {
            before
        } else {
            before.push(columns.last().id)
        }
    }
}

/// The column ids of all the items: each id once, in the order in which it
/// is first met, going through the items and through each item's columns.
pub open spec fn all_column_ids(items: Seq<ItemModel>) -> Seq<Seq<char>>
    decreases items.len(),
{
    if items.len() == 0 {
        seq![]
    } else {
        add_ids(all_column_ids(items.drop_last()), items.last().column_values)
    }
}

/// The title under which a group id is shown: the title of the last group
/// that has this id, and `Unknown` where no group has it.
pub open spec fn title_of(groups: Seq<GroupModel>, id: Seq<char>) -> Seq<char>
    decreases groups.len(),
{
    if groups.len() == 0 {
        "Unknown"@
    } else if groups.last().id == id {
        groups.last().title
    } else {
        title_of(groups.drop_last(), id)
    }
}

/// What an item shows in the column `id`: the display form of its first
/// column value with this id, and nothing where it has none.
pub open spec fn cell_of(columns: Seq<ColumnValueModel>, id: Seq<char>) -> Seq<char>
    decreases columns.len(),
{
    if columns.len() == 0 {
        seq![]
    } else if columns[0].id == id {
        flatten(columns[0].value)
    } else {
        cell_of(columns.drop_first(), id)
    }
}

/// The header of the items table: three fixed titles, then one per column.
pub open spec fn header_row(ids: Seq<Seq<char>>) -> Seq<Seq<char>> {
    seq!["ID"@, "Name"@, "Group"@] + Seq::new(ids.len(), |k: int| "Column "@ + ids[k])
}

/// The row of one item: its id, its name, the title of its group, then what
/// it shows in each column.
pub open spec fn item_row(item: ItemModel, ids: Seq<Seq<char>>, groups: Seq<GroupModel>) -> Seq<
    Seq<char>,
> {
    seq![item.id, item.name, title_of(groups, item.group_id)] + Seq::new(
        ids.len(),
        |k: int| cell_of(item.column_values, ids[k]),
    )
}

/// The rows of the items table: the header, then one row per item.
pub open spec fn item_rows(items: Seq<ItemModel>, groups: Seq<GroupModel>) -> Seq<Seq<Seq<char>>> {
    let ids = all_column_ids(items);
    seq![header_row(ids)] + Seq::new(items.len(), |k: int| item_row(items[k], ids, groups))
}

/// The rows of the groups table: the header, then id and title of each group.
pub open spec fn group_rows(groups: Seq<GroupModel>) -> Seq<Seq<Seq<char>>> {
    seq![seq!["Group ID"@, "Group Title"@]] + Seq::new(
        groups.len(),
        |k: int| seq![groups[k].id, groups[k].title],
    )
}

/// Adding the ids of some columns keeps what was seen where it was, adds
/// every id of the columns, adds nothing else, and repeats nothing.
pub proof fn lemma_add_ids(seen: Seq<Seq<char>>, columns: Seq<ColumnValueModel>)
    requires
        seen.no_duplicates(),
    ensures
        add_ids(seen, columns).no_duplicates(),
        seen.len() <= add_ids(seen, columns).len(),
        add_ids(seen, columns).take(seen.len() as int) == seen,
        forall|k: int| 0 <= k < columns.len() ==> add_ids(seen, columns).contains(columns[k].id),
        forall|x: Seq<char>|
            add_ids(seen, columns).contains(x) ==> seen.contains(x) || exists|k: int|
                0 <= k < columns.len() && columns[k].id == x,
    decreases columns.len(),
{
    let after = add_ids(seen, columns);
    if columns.len() == 0 {
        assert(after.take(seen.len() as int) =~= seen);
    } else {
        let shorter = columns.drop_last();
        let before = add_ids(seen, shorter);
        let id = columns.last().id;
        lemma_add_ids(seen, shorter);
        assert(after.take(seen.len() as int) =~= before.take(seen.len() as int));
        assert forall|k: int| 0 <= k < columns.len() implies after.contains(columns[k].id) by {
            if k < shorter.len() {
                assert(shorter[k] == columns[k]);
                let at = choose|at: int| 0 <= at < before.len() && before[at] == columns[k].id;
                assert(after[at] == columns[k].id);
            } else if before.contains(id) {
            } else {
                assert(after[before.len() as int] == id);
            }
        }
        assert forall|x: Seq<char>| after.contains(x) implies seen.contains(x) || exists|k: int|
            0 <= k < columns.len() && columns[k].id == x by {
            let at = choose|at: int| 0 <= at < after.len() && after[at] == x;
            if at < before.len() {
                assert(before[at] == x);
                if !seen.contains(x) {
                    let k = choose|k: int| 0 <= k < shorter.len() && shorter[k].id == x;
                    assert(columns[k].id == x);
                }
            } else {
                assert(columns[columns.len() - 1].id == x);
            }
        }
    }
}

/// The column ids of the items name every column of every item, name no
/// other, and name none twice.
pub proof fn lemma_all_column_ids(items: Seq<ItemModel>)
    ensures
        all_column_ids(items).no_duplicates(),
        forall|i: int, k: int|
            0 <= i < items.len() && 0 <= k < items[i].column_values.len() ==> all_column_ids(
                items,
            ).contains(#[trigger] items[i].column_values[k].id),
        forall|x: Seq<char>|
            all_column_ids(items).contains(x) ==> exists|i: int, k: int|
                0 <= i < items.len() && 0 <= k < items[i].column_values.len()
                    && #[trigger] items[i].column_values[k].id == x,
    decreases items.len(),
{
    let ids = all_column_ids(items);
    if items.len() > 0 {
        let shorter = items.drop_last();
        let before = all_column_ids(shorter);
        let columns = items.last().column_values;
        lemma_all_column_ids(shorter);
        lemma_add_ids(before, columns);
        assert forall|i: int, k: int|
            0 <= i < items.len() && 0 <= k < items[i].column_values.len() implies ids.contains(
            #[trigger] items[i].column_values[k].id,
        ) by {
            if i < shorter.len() {
                assert(shorter[i] == items[i]);
                let x = items[i].column_values[k].id;
                let at = choose|at: int| 0 <= at < before.len() && before[at] == x;
                assert(ids.take(before.len() as int)[at] == x);
                assert(ids[at] == x);
            }
        }
        assert forall|x: Seq<char>| ids.contains(x) implies exists|i: int, k: int|
            0 <= i < items.len() && 0 <= k < items[i].column_values.len()
                && #[trigger] items[i].column_values[k].id == x by {
            if before.contains(x) {
                let (i, k) = choose|i: int, k: int|
                    0 <= i < shorter.len() && 0 <= k < shorter[i].column_values.len()
                        && #[trigger] shorter[i].column_values[k].id == x;
                assert(items[i].column_values[k].id == x);
            } else {
                let k = choose|k: int| 0 <= k < columns.len() && columns[k].id == x;
                assert(items[items.len() - 1].column_values[k].id == x);
            }
        }
    }
}

/// The ids come in first-seen order: the ids of the first items stay at the
/// front when more items follow.
pub proof fn lemma_column_ids_keep_their_order(items: Seq<ItemModel>, n: int)
    requires
        0 <= n <= items.len(),
    ensures
        all_column_ids(items.take(n)).len() <= all_column_ids(items).len(),
        all_column_ids(items).take(all_column_ids(items.take(n)).len() as int) == all_column_ids(
            items.take(n),
        ),
    decreases items.len() - n,
{
    let ids = all_column_ids(items);
    if n == items.len() {
        assert(items.take(n) =~= items);
        assert(ids.take(ids.len() as int) =~= ids);
    } else {
        let shorter = items.drop_last();
        let before = all_column_ids(shorter);
        lemma_column_ids_keep_their_order(shorter, n);
        lemma_all_column_ids(shorter);
        lemma_add_ids(before, items.last().column_values);
        assert(shorter.take(n) =~= items.take(n));
        let front = all_column_ids(items.take(n));
        assert(ids.take(front.len() as int) =~= ids.take(before.len() as int).take(
            front.len() as int,
        ));
    }
}

/// Every row of the items table is as wide as its header, and the table has
/// one row more than there are items.
pub proof fn lemma_item_rows_are_rectangular(items: Seq<ItemModel>, groups: Seq<GroupModel>)
    ensures
        item_rows(items, groups).len() == items.len() + 1,
        forall|i: int|
            0 <= i < item_rows(items, groups).len() ==> (#[trigger] item_rows(items, groups)[i]).len()
                == 3 + all_column_ids(items).len(),
{
}

/// A group id that no group has is shown as `Unknown`.
pub proof fn lemma_unknown_group(groups: Seq<GroupModel>, id: Seq<char>)
    requires
        forall|k: int| 0 <= k < groups.len() ==> groups[k].id != id,
    ensures
        title_of(groups, id) == "Unknown"@,
    decreases groups.len(),
{
    if groups.len() > 0 {
        lemma_unknown_group(groups.drop_last(), id);
    }
}

/// An item without a column value for a column shows nothing in it.
pub proof fn lemma_missing_column_is_empty(columns: Seq<ColumnValueModel>, id: Seq<char>)
    requires
        forall|k: int| 0 <= k < columns.len() ==> columns[k].id != id,
    ensures
        cell_of(columns, id) == Seq::<char>::empty(),
    decreases columns.len(),
{
    if columns.len() > 0 {
        let rest = columns.drop_first();
        assert forall|k: int| 0 <= k < rest.len() implies rest[k].id != id by {
            assert(rest[k] == columns[k + 1]);
        }
        lemma_missing_column_is_empty(rest, id);
    }
}

/// The texts of a list of rows, row by row.
pub open spec fn rows_view(rows: Seq<Vec<String>>) -> Seq<Seq<Seq<char>>> {
    Seq::new(rows.len(), |i: int| string_views(rows[i]@))
}

/// Whether `text` is among `list`.
pub fn contains_text(list: &Vec<String>, text: &str) -> (res: bool)
    ensures
        res == string_views(list@).contains(text@),
{
    let mut i: usize = 0;
    while i < list.len()
        invariant
            i <= list.len(),
            forall|k: int| 0 <= k < i ==> string_views(list@)[k] != text@,
        decreases list.len() - i,
    {
        if str_eq(list[i].as_str(), text) {
            assert(string_views(list@)[i as int] == text@);
            return true;
        }
        i += 1;
    }
    false
}

/// The column ids of all the items, each once, in first-seen order.
pub fn column_ids(items: &Vec<Item>) -> (res: Vec<String>)
    ensures
        string_views(res@) == all_column_ids(item_views(items@)),
{
    let ghost all = item_views(items@);
    let mut ids: Vec<String> = Vec::new();
    let mut i: usize = 0;
    assert(all.take(0) =~= seq![]);
    assert(string_views(ids@) =~= seq![]);
    while i < items.len()
        invariant
            i <= items.len(),
            all == item_views(items@),
            string_views(ids@) == all_column_ids(all.take(i as int)),
        decreases items.len() - i,
    {
        let columns = &items[i].column_values;
        let ghost seen = all_column_ids(all.take(i as int));
        let ghost cols = column_value_views(columns@);
        let mut j: usize = 0;
        assert(cols.take(0) =~= seq![]);
        while j < columns.len()
            invariant
                j <= columns.len(),
                cols == column_value_views(columns@),
                string_views(ids@) == add_ids(seen, cols.take(j as int)),
            decreases columns.len() - j,
        {
            let ghost before = string_views(ids@);
            proof {
                assert(cols.take(j + 1).drop_last() =~= cols.take(j as int));
                assert(cols.take(j + 1).last() == columns@[j as int]@);
            }
            if !contains_text(&ids, columns[j].id.as_str()) {
                ids.push(columns[j].id.clone());
                assert(string_views(ids@) =~= before.push(columns@[j as int].id@));
            }
            j += 1;
        }
        proof {
            assert(cols.take(columns.len() as int) =~= cols);
            assert(all.take(i + 1).drop_last() =~= all.take(i as int));
            assert(all.take(i + 1).last().column_values == cols);
        }
        i += 1;
    }
    assert(all.take(items.len() as int) =~= all);
    ids
}

/// The title under which a group id is shown.
pub fn group_title(groups: &Vec<Group>, id: &str) -> (res: String)
    ensures
        res@ == title_of(group_views(groups@), id@),
{
    let ghost all = group_views(groups@);
    let mut i: usize = groups.len();
    assert(all.take(i as int) =~= all);
    while i > 0
        invariant
            i <= groups.len(),
            all == group_views(groups@),
            title_of(all, id@) == title_of(all.take(i as int), id@),
        decreases i,
    {
        i -= 1;
        proof {
            assert(all.take(i + 1).drop_last() =~= all.take(i as int));
            assert(all.take(i + 1).last() == groups@[i as int]@);
        }
        if str_eq(groups[i].id.as_str(), id) {
            return groups[i].title.clone();
        }
    }
    "Unknown".to_owned()
}

/// What an item shows in the column `id`.
pub fn cell(columns: &Vec<ColumnValue>, id: &str) -> (res: String)
    ensures
        res@ == cell_of(column_value_views(columns@), id@),
{
    let ghost all = column_value_views(columns@);
    let mut i: usize = 0;
    assert(all.skip(0) =~= all);
    while i < columns.len()
        invariant
            i <= columns.len(),
            all == column_value_views(columns@),
            cell_of(all, id@) == cell_of(all.skip(i as int), id@),
        decreases columns.len() - i,
    {
        proof {
            assert(all.skip(i as int).drop_first() =~= all.skip(i + 1));
            assert(all.skip(i as int)[0] == columns@[i as int]@);
        }
        if str_eq(columns[i].id.as_str(), id) {
            return flatten_column_value(&columns[i].value);
        }
        i += 1;
    }
    assert(all.skip(columns.len() as int) =~= seq![]);
    String::new()
}

/// The header of the items table.
pub fn items_header(ids: &Vec<String>) -> (res: Vec<String>)
    ensures
        string_views(res@) == header_row(string_views(ids@)),
{
    let ghost titles = string_views(ids@);
    let mut row: Vec<String> = Vec::new();
    row.push("ID".to_owned());
    row.push("Name".to_owned());
    row.push("Group".to_owned());
    let mut i: usize = 0;
    while i < ids.len()
        invariant
            i <= ids.len(),
            titles == string_views(ids@),
            row@.len() == 3 + i,
            row@[0]@ == "ID"@,
            row@[1]@ == "Name"@,
            row@[2]@ == "Group"@,
            forall|k: int| 0 <= k < i ==> row@[3 + k]@ == "Column "@ + titles[k],
        decreases ids.len() - i,
    {
        let mut title = "Column ".to_owned();
        title.append(ids[i].as_str());
        row.push(title);
        i += 1;
    }
    assert(string_views(row@) =~= header_row(titles));
    row
}

/// The row of one item.
pub fn row_of_item(item: &Item, ids: &Vec<String>, groups: &Vec<Group>) -> (res: Vec<String>)
    ensures
        string_views(res@) == item_row(item@, string_views(ids@), group_views(groups@)),
{
    let ghost titles = string_views(ids@);
    let mut row: Vec<String> = Vec::new();
    row.push(item.id.clone());
    row.push(item.name.clone());
    row.push(group_title(groups, item.group.id.as_str()));
    let mut i: usize = 0;
    while i < ids.len()
        invariant
            i <= ids.len(),
            titles == string_views(ids@),
            row@.len() == 3 + i,
            row@[0]@ == item@.id,
            row@[1]@ == item@.name,
            row@[2]@ == title_of(group_views(groups@), item@.group_id),
            forall|k: int| 0 <= k < i ==> row@[3 + k]@ == cell_of(item@.column_values, titles[k]),
        decreases ids.len() - i,
    {
        row.push(cell(&item.column_values, ids[i].as_str()));
        i += 1;
    }
    assert(string_views(row@) =~= item_row(item@, titles, group_views(groups@)));
    row
}

/// The rows of the items table: the header, then one row per item.
pub fn rows_of_items(items: &Vec<Item>, groups: &Vec<Group>) -> (res: Vec<Vec<String>>)
    ensures
        rows_view(res@) == item_rows(item_views(items@), group_views(groups@)),
{
    let ids = column_ids(items);
    let ghost all = item_views(items@);
    let ghost titles = string_views(ids@);
    let mut rows: Vec<Vec<String>> = Vec::new();
    rows.push(items_header(&ids));
    let mut i: usize = 0;
    while i < items.len()
        invariant
            i <= items.len(),
            all == item_views(items@),
            titles == string_views(ids@),
            rows@.len() == 1 + i,
            string_views(rows@[0]@) == header_row(titles),
            forall|k: int|
                0 <= k < i ==> string_views(rows@[1 + k]@) == item_row(
                    all[k],
                    titles,
                    group_views(groups@),
                ),
        decreases items.len() - i,
    {
        rows.push(row_of_item(&items[i], &ids, groups));
        i += 1;
    }
    assert(rows_view(rows@) =~= item_rows(all, group_views(groups@)));
    rows
}

/// The rows of the groups table: the header, then one row per group.
pub fn rows_of_groups(groups: &Vec<Group>) -> (res: Vec<Vec<String>>)
    ensures
        rows_view(res@) == group_rows(group_views(groups@)),
{
    let ghost all = group_views(groups@);
    let mut rows: Vec<Vec<String>> = Vec::new();
    let header = vec!["Group ID".to_owned(), "Group Title".to_owned()];
    assert(string_views(header@) =~= seq!["Group ID"@, "Group Title"@]);
    rows.push(header);
    let mut i: usize = 0;
    while i < groups.len()
        invariant
            i <= groups.len(),
            all == group_views(groups@),
            rows@.len() == 1 + i,
            string_views(rows@[0]@) == seq!["Group ID"@, "Group Title"@],
            forall|k: int|
                0 <= k < i ==> string_views(rows@[1 + k]@) == seq![all[k].id, all[k].title],
        decreases groups.len() - i,
    {
        let row = vec![groups[i].id.clone(), groups[i].title.clone()];
        assert(string_views(row@) =~= seq![all[i as int].id, all[i as int].title]);
        rows.push(row);
        i += 1;
    }
    assert(rows_view(rows@) =~= group_rows(all));
    rows
}

/// `prettytable::Table`, the table that is printed.
#[verifier::external_type_specification]
#[verifier::external_body]
pub struct ExTable(prettytable::Table);

/// What the cells of a `prettytable::Table` hold, row by row: of each cell
/// what `get_content` returns.
pub uninterp spec fn table_rows(table: prettytable::Table) -> Seq<Seq<Seq<char>>>;

/// What a cell made from a text by `prettytable::Cell::new` holds: what its
/// `get_content` returns.
pub uninterp spec fn cell_content(text: Seq<char>) -> Seq<char>;

/// What the cells made from the texts of `row` hold.
pub open spec fn cells_of_row(row: Seq<Seq<char>>) -> Seq<Seq<char>> {
    Seq::new(row.len(), |j: int| cell_content(row[j]))
}

/// What the cells made from the texts of `rows` hold, row by row.
pub open spec fn cells_of(rows: Seq<Seq<Seq<char>>>) -> Seq<Seq<Seq<char>>> {
    Seq::new(rows.len(), |i: int| cells_of_row(rows[i]))
}

/// Calls `prettytable::Table::new`. Trusted: the new table has no rows.
#[verifier::external_body]
fn table_new() -> (res: prettytable::Table)
    ensures
        table_rows(res) == Seq::<Seq<Seq<char>>>::empty(),
{
    prettytable::Table::new()
}

/// Whether a text holds the escape character U+001B. The table cannot lay
/// out such a text: the width of a cell is not defined for every one of them.
pub open spec fn holds_escape(text: Seq<char>) -> bool {
    text.contains('\u{1b}')
}

/// Whether no text of the row holds the escape character.
pub open spec fn row_is_plain(row: Seq<Seq<char>>) -> bool {
    forall|j: int| 0 <= j < row.len() ==> !holds_escape(#[trigger] row[j])
}

/// Whether the rows can be laid out as a table: no text of any row holds the
/// escape character.
pub open spec fn can_lay_out(rows: Seq<Seq<Seq<char>>>) -> bool {
    forall|i: int| 0 <= i < rows.len() ==> row_is_plain(#[trigger] rows[i])
}

/// Whether a text is one line: it holds neither a line feed nor a carriage
/// return.
pub open spec fn is_one_line(text: Seq<char>) -> bool {
    !text.contains('\n') && !text.contains('\r')
}

/// Whether every text of `rows` that is one line stands in `cells` as it is,
/// at its own place.
pub open spec fn one_line_texts_stand(cells: Seq<Seq<Seq<char>>>, rows: Seq<Seq<Seq<char>>>) -> bool {
    forall|i: int, j: int|
        0 <= i < rows.len() && 0 <= j < rows[i].len() && is_one_line(#[trigger] rows[i][j])
            ==> cells[i][j] == rows[i][j]
}

/// Calls `prettytable::Table::add_row` with a row that has one cell, made by
/// `prettytable::Cell::new`, for each text. No text may hold the escape
/// character: the width that `Cell::new` computes is asserted only without
/// it. Trusted: the row is added after the rows that the table had, which
/// stay as they were; and a cell made from a text of one line holds that text.
#[verifier::external_body]
fn table_add_row(table: &mut prettytable::Table, texts: &Vec<String>)
    requires
        row_is_plain(string_views(texts@)),
    ensures
        table_rows(*final(table)) == table_rows(*old(table)).push(
            Seq::new(texts@.len(), |j: int| cell_content(texts@[j]@)),
        ),
        forall|j: int|
            0 <= j < texts@.len() && is_one_line(#[trigger] texts@[j]@) ==> table_rows(
                *final(table),
            ).last()[j] == texts@[j]@,
{
    table.add_row(prettytable::Row::new(texts.iter().map(|text| prettytable::Cell::new(text)).collect()));
}

/// Whether no text of the row holds the escape character.
pub fn row_has_no_escape(row: &Vec<String>) -> (res: bool)
    ensures
        res == row_is_plain(string_views(row@)),
{
    let mut j: usize = 0;
    while j < row.len()
        invariant
            j <= row.len(),
            forall|k: int| 0 <= k < j ==> !holds_escape(#[trigger] string_views(row@)[k]),
        decreases row.len() - j,
    {
        if contains_char(row[j].as_str(), '\u{1b}') {
            assert(holds_escape(string_views(row@)[j as int]));
            return false;
        }
        j += 1;
    }
    true
}

/// Whether the rows can be laid out as a table.
pub fn rows_can_be_laid_out(rows: &Vec<Vec<String>>) -> (res: bool)
    ensures
        res == can_lay_out(rows_view(rows@)),
{
    let mut i: usize = 0;
    while i < rows.len()
        invariant
            i <= rows.len(),
            forall|k: int| 0 <= k < i ==> row_is_plain(#[trigger] rows_view(rows@)[k]),
        decreases rows.len() - i,
    {
        if !row_has_no_escape(&rows[i]) {
            assert(!row_is_plain(rows_view(rows@)[i as int]));
            return false;
        }
        i += 1;
    }
    true
}

/// How a list of rows is shown.
#[derive(Debug)]
pub enum Layout {
    /// The rows as a table: one row for each, and in each row one cell for
    /// each of its texts.
    Table(prettytable::Table),
    /// The rows themselves, where they cannot be laid out as a table.
    Plain(Vec<Vec<String>>),
}

/// Whether `layout` is how `rows` are shown: as a table of their cells where
/// they can be laid out, in which every text of one line stands as it is;
/// and else as the rows themselves.
pub open spec fn is_layout_of(layout: Layout, rows: Seq<Seq<Seq<char>>>) -> bool {
    match layout {
        Layout::Table(table) => {
            &&& can_lay_out(rows)
            &&& table_rows(table) == cells_of(rows)
            &&& one_line_texts_stand(table_rows(table), rows)
        },
        Layout::Plain(back) => !can_lay_out(rows) && rows_view(back@) == rows,
    }
}

/// Lays the rows out as a table, or hands them back where that cannot be done.
pub fn build_table(rows: Vec<Vec<String>>) -> (res: Layout)
    ensures
        is_layout_of(res, rows_view(rows@)),
        res matches Layout::Plain(back) ==> back == rows,
{
    if !rows_can_be_laid_out(&rows) {
        return Layout::Plain(rows);
    }
    let ghost all = rows_view(rows@);
    let mut table = table_new();
    let mut i: usize = 0;
    assert(cells_of(all.take(0)) =~= seq![]);
    while i < rows.len()
        invariant
            i <= rows.len(),
            all == rows_view(rows@),
            can_lay_out(all),
            table_rows(table) == cells_of(all.take(i as int)),
            one_line_texts_stand(table_rows(table), all.take(i as int)),
        decreases rows.len() - i,
    {
        let ghost before = table_rows(table);
        assert(row_is_plain(all[i as int]));
        table_add_row(&mut table, &rows[i]);
        proof {
            let after = table_rows(table);
            assert(Seq::new(rows@[i as int]@.len(), |j: int| cell_content(rows@[i as int]@[j]@))
                =~= cells_of_row(all[i as int]));
            assert(cells_of(all.take(i + 1)) =~= cells_of(all.take(i as int)).push(
                cells_of_row(all[i as int]),
            ));
            assert forall|r: int, j: int|
                0 <= r < all.take(i + 1).len() && 0 <= j < all.take(i + 1)[r].len() && is_one_line(
                    #[trigger] all.take(i + 1)[r][j],
                ) implies after[r][j] == all.take(i + 1)[r][j] by {
                if r < i {
                    assert(all.take(i as int)[r][j] == all.take(i + 1)[r][j]);
                    assert(after[r] == before[r]);
                } else {
                    assert(after[r] == after.last());
                    assert(all[r][j] == rows@[i as int]@[j]@);
                }
            }
        }
        i += 1;
    }
    assert(all.take(rows.len() as int) =~= all);
    Layout::Table(table)
}

/// How the items of a board are shown; `None` where there are no items, and
/// so nothing to show.
pub fn items_table(items: &Vec<Item>, groups: &Vec<Group>) -> (res: Option<Layout>)
    ensures
        match res {
            Some(layout) => items@.len() > 0 && is_layout_of(
                layout,
                item_rows(item_views(items@), group_views(groups@)),
            ),
            None => items@.len() == 0,
        },
{
    if items.len() == 0 {
        None
    } else {
        Some(build_table(rows_of_items(items, groups)))
    }
}

/// How the groups of a board are shown; `None` where there are no groups,
/// and so nothing to show.
pub fn groups_table(groups: &Vec<Group>) -> (res: Option<Layout>)
    ensures
        match res {
            Some(layout) => groups@.len() > 0 && is_layout_of(
                layout,
                group_rows(group_views(groups@)),
            ),
            None => groups@.len() == 0,
        },
{
    if groups.len() == 0 {
        None
    } else {
        Some(build_table(rows_of_groups(groups)))
    }
}

} // verus!
