use vstd::prelude::*;

verus! {

/// Where `next` moves a selection in a collection of `len` items: the first
/// item when nothing is selected, the item after the selected one, and the
/// first again after the last. An empty collection has no selection.
pub open spec fn next_selection(sel: Option<usize>, len: nat) -> Option<usize> {
    if len == 0 {
        None
    } else {
        match sel {
            None => Some(0),
            Some(i) => if i + 1 >= len {
                Some(0)
            } else {
                Some((i + 1) as usize)
            },
        }
    }
}

/// Where `previous` moves a selection: the first item when nothing is
/// selected, the item before the selected one, and the last after the first.
pub open spec fn previous_selection(sel: Option<usize>, len: nat) -> Option<usize> {
    if len == 0 {
        None
    } else {
        match sel {
            None => Some(0),
            Some(i) => if i == 0 {
                Some((len - 1) as usize)
            } else {
                Some((i - 1) as usize)
            },
        }
    }
}

/// Where `last` moves a selection: the last item, or none when there is none.
pub open spec fn last_selection(len: nat) -> Option<usize> {
    if len == 0 {
        None
    } else {
        Some((len - 1) as usize)
    }
}

/// Where `first` moves a selection: the first item, or none when there is none.
pub open spec fn first_selection(len: nat) -> Option<usize> {
    if len == 0 {
        None
    } else {
        Some(0)
    }
}

/// The selection after `k` calls of `next`.
pub open spec fn repeat_next(sel: Option<usize>, len: nat, k: nat) -> Option<usize>
    decreases k,
{
    if k == 0 {
        sel
    } else {
        repeat_next(next_selection(sel, len), len, (k - 1) as nat)
    }
}

/// The selection after `k` calls of `previous`.
pub open spec fn repeat_previous(sel: Option<usize>, len: nat, k: nat) -> Option<usize>
    decreases k,
{
    if k == 0 {
        sel
    } else {
        repeat_previous(previous_selection(sel, len), len, (k - 1) as nat)
    }
}

/// A selection is valid when it names an item of the collection.
pub open spec fn valid_selection(sel: Option<usize>, len: nat) -> bool {
    match sel {
        Some(i) => i < len,
        None => true,
    }
}

/// The abstract state of a collection: its items in order, and the index of
/// the selected one, if any.
pub struct CollectionState<T> {
    pub items: Seq<T>,
    pub selected: Option<usize>,
}

impl<T> CollectionState<T> {
    /// The selection names an item, and the items fit in memory.
    pub open spec fn wf(self) -> bool {
        &&& valid_selection(self.selected, self.items.len())
        &&& self.items.len() <= usize::MAX
    }
}

proof fn lemma_next_steps(j: usize, len: nat, k: nat)
    requires
        j + k < len <= usize::MAX,
    ensures
        repeat_next(Some(j), len, k) == Some((j + k) as usize),
    decreases k,
{
    if k > 0 {
        lemma_next_steps((j + 1) as usize, len, (k - 1) as nat);
    }
}

proof fn lemma_next_split(sel: Option<usize>, len: nat, a: nat, b: nat)
    ensures
        repeat_next(sel, len, a + b) == repeat_next(repeat_next(sel, len, a), len, b),
    decreases a,
{
    if a > 0 {
        lemma_next_split(next_selection(sel, len), len, (a - 1) as nat, b);
        assert((a + b - 1) as nat == (a - 1) as nat + b);
    }
}

proof fn lemma_previous_steps(j: usize, len: nat, k: nat)
    requires
        k <= j < len <= usize::MAX,
    ensures
        repeat_previous(Some(j), len, k) == Some((j - k) as usize),
    decreases k,
{
    if k > 0 {
        lemma_previous_steps((j - 1) as usize, len, (k - 1) as nat);
    }
}

proof fn lemma_previous_split(sel: Option<usize>, len: nat, a: nat, b: nat)
    ensures
        repeat_previous(sel, len, a + b) == repeat_previous(repeat_previous(sel, len, a), len, b),
    decreases a,
{
    if a > 0 {
        lemma_previous_split(previous_selection(sel, len), len, (a - 1) as nat, b);
        assert((a + b - 1) as nat == (a - 1) as nat + b);
    }
}

/// In a collection of `len` items, `len` calls of `next` from a selected item
/// come back to that item, and so do `len` calls of `previous`.
pub proof fn lemma_selection_cycles(i: usize, len: nat)
    requires
        i < len <= usize::MAX,
    ensures
        repeat_next(Some(i), len, len) == Some(i),
        repeat_previous(Some(i), len, len) == Some(i),
{
    let before: nat = (len - 1 - i) as nat;
    lemma_next_steps(i, len, before);
    lemma_next_split(Some(i), len, before, 1);
    assert(repeat_next(Some((len - 1) as usize), len, 1) == Some(0usize)) by {
        reveal_with_fuel(repeat_next, 2);
    }
    lemma_next_split(Some(i), len, before + 1, i as nat);
    lemma_next_steps(0, len, i as nat);
    assert(before + 1 + i == len);

    lemma_previous_steps(i, len, i as nat);
    lemma_previous_split(Some(i), len, i as nat, 1);
    assert(repeat_previous(Some(0usize), len, 1) == Some((len - 1) as usize)) by {
        reveal_with_fuel(repeat_previous, 2);
    }
    lemma_previous_split(Some(i), len, i as nat + 1, before);
    lemma_previous_steps((len - 1) as usize, len, before);
}

/// `previous` undoes `next` on a selected item.
pub proof fn lemma_next_then_previous(i: usize, len: nat)
    requires
        i < len <= usize::MAX,
    ensures
        previous_selection(next_selection(Some(i), len), len) == Some(i),
{
}

/// Moving the selection keeps it on an item of the collection, and on an
/// empty collection `next`, `previous`, `first` and `last` select nothing.
pub proof fn lemma_selection_stays_valid(sel: Option<usize>, len: nat)
    requires
        valid_selection(sel, len),
        len <= usize::MAX,
    ensures
        valid_selection(next_selection(sel, len), len),
        valid_selection(previous_selection(sel, len), len),
        valid_selection(first_selection(len), len),
        valid_selection(last_selection(len), len),
        len == 0 ==> next_selection(sel, len) is None && previous_selection(sel, len) is None
            && first_selection(len) is None && last_selection(len) is None,
{
}

/// An ordered collection of items with at most one selected item, moved
/// through cyclically.
#[derive(Clone, Debug)]
pub struct SelectableCollection<T> {
    items: Vec<T>,
    selected: Option<usize>,
}

impl<T> View for SelectableCollection<T> {
    type V = CollectionState<T>;

    closed spec fn view(&self) -> CollectionState<T> {
        CollectionState { items: self.items@, selected: self.selected }
    }
}

impl<T> Default for SelectableCollection<T> {
    fn default() -> (r: SelectableCollection<T>)
        ensures
            r@.items.len() == 0,
            r@.selected is None,
    {
        SelectableCollection::new()
    }
}

impl<T> SelectableCollection<T> {
    /// An empty collection.
    pub fn new() -> (r: SelectableCollection<T>)
        ensures
            r@.items.len() == 0,
            r@.selected is None,
    {
        SelectableCollection { items: Vec::new(), selected: None }
    }

    /// A collection of the given items, in order, with nothing selected.
    pub fn with_items(items: Vec<T>) -> (r: SelectableCollection<T>)
        ensures
            r@.items == items@,
            r@.selected is None,
            r@.wf(),
    {
        // the length of a vector fits in usize
        let count: usize = items.len();
        assert(count == items@.len());
        SelectableCollection { items, selected: None }
    }

    pub fn len(&self) -> (r: usize)
        ensures
            r == self@.items.len(),
    {
        self.items.len()
    }

    pub fn is_empty(&self) -> (r: bool)
        ensures
            r == (self@.items.len() == 0),
    {
        self.items.len() == 0
    }

    pub fn items(&self) -> (r: &Vec<T>)
        ensures
            r@ == self@.items,
    {
        &self.items
    }

    /// The index of the selected item, if any.
    pub fn selected(&self) -> (r: Option<usize>)
        ensures
            r == self@.selected,
    {
        self.selected
    }

    /// The selected item, if any.
    pub fn selected_item(&self) -> (r: Option<&T>)
        requires
            self@.wf(),
        ensures
            self@.selected is None ==> r is None,
            self@.selected is Some ==> r == Some(&self@.items[self@.selected->0 as int]),
    {
        match self.selected {
            Some(i) => Some(&self.items[i]),
            None => None,
        }
    }

    /// Selects the next item, wrapping from the last to the first.
    pub fn next(&mut self)
        requires
            old(self)@.wf(),
        ensures
            final(self)@.items == old(self)@.items,
            final(self)@.selected == next_selection(old(self)@.selected, old(self)@.items.len()),
            final(self)@.wf(),
    {
        let len: usize = self.items.len();
        if len > 0 {
            self.selected = match self.selected {
                Some(i) => if i + 1 >= len {
                    Some(0)
                } else {
                    Some(i + 1)
                },
                None => Some(0),
            };
        }
    }

    /// Selects the previous item, wrapping from the first to the last.
    pub fn previous(&mut self)
        requires
            old(self)@.wf(),
        ensures
            final(self)@.items == old(self)@.items,
            final(self)@.selected == previous_selection(old(self)@.selected, old(self)@.items.len()),
            final(self)@.wf(),
    {
        let len: usize = self.items.len();
        if len > 0 {
            self.selected = match self.selected {
                Some(i) => if i == 0 {
                    Some(len - 1)
                } else {
                    Some(i - 1)
                },
                None => Some(0),
            };
        }
    }

    /// Selects the first item, if there is one.
    pub fn first(&mut self)
        ensures
            final(self)@.items == old(self)@.items,
            final(self)@.selected == first_selection(old(self)@.items.len()),
            final(self)@.wf(),
    {
        if self.items.len() > 0 {
            self.selected = Some(0);
        } else {
            self.selected = None;
        }
    }

    /// Selects the last item, if there is one.
    pub fn last(&mut self)
        ensures
            final(self)@.items == old(self)@.items,
            final(self)@.selected == last_selection(old(self)@.items.len()),
            final(self)@.wf(),
    {
        let len: usize = self.items.len();
        if len > 0 {
            self.selected = Some(len - 1);
        } else {
            self.selected = None;
        }
    }

    /// Selects the item at `index`, or nothing.
    pub fn select(&mut self, index: Option<usize>)
        requires
            old(self)@.wf(),
            valid_selection(index, old(self)@.items.len()),
        ensures
            final(self)@.items == old(self)@.items,
            final(self)@.selected == index,
            final(self)@.wf(),
    {
        self.selected = index;
    }

    /// Hands out every item, in order, leaving the collection empty with
    /// nothing selected.
    pub fn take_items(&mut self) -> (r: Vec<T>)
        ensures
            r@ == old(self)@.items,
            final(self)@.items.len() == 0,
            final(self)@.selected is None,
            final(self)@.wf(),
    {
        let mut items: Vec<T> = Vec::new();
        std::mem::swap(&mut items, &mut self.items);
        self.selected = None;
        items
    }

    /// Removes every item; nothing stays selected.
    pub fn clear(&mut self)
        ensures
            final(self)@.items.len() == 0,
            final(self)@.selected is None,
            final(self)@.wf(),
    {
        self.items.clear();
        self.selected = None;
    }

    /// Adds an item at the end; the selection does not move.
    pub fn push(&mut self, item: T)
        requires
            old(self)@.wf(),
        ensures
            final(self)@.items == old(self)@.items.push(item),
            final(self)@.selected == old(self)@.selected,
            final(self)@.wf(),
    {
        self.items.push(item);
        // the length of a vector fits in usize
        let count: usize = self.items.len();
        assert(count == self@.items.len());
    }

    /// Replaces every item by the given ones, in order; nothing is selected.
    pub fn replace_all(&mut self, items: Vec<T>)
        ensures
            final(self)@.items == items@,
            final(self)@.selected is None,
            final(self)@.wf(),
    {
        // the length of a vector fits in usize
        let count: usize = items.len();
        assert(count == items@.len());
        self.items = items;
        self.selected = None;
    }
}

/// A table: named columns over a selectable collection of rows.
#[derive(Clone, Debug)]
pub struct StatefulTable<T> {
    columns: Vec<String>,
    rows: SelectableCollection<T>,
}

impl<T> View for StatefulTable<T> {
    type V = CollectionState<T>;

    closed spec fn view(&self) -> CollectionState<T> {
        self.rows@
    }
}

impl<T> StatefulTable<T> {
    pub closed spec fn column_names(&self) -> Seq<String> {
        self.columns@
    }

    /// A table with the given columns and no rows.
    pub fn with_columns(columns: Vec<String>) -> (r: StatefulTable<T>)
        ensures
            r.column_names() == columns@,
            r@.items.len() == 0,
            r@.selected is None,
    {
        StatefulTable { columns, rows: SelectableCollection::new() }
    }

    pub fn columns(&self) -> (r: &Vec<String>)
        ensures
            r@ == self.column_names(),
    {
        &self.columns
    }

    pub fn rows(&self) -> (r: &SelectableCollection<T>)
        ensures
            r@ == self@,
    {
        &self.rows
    }

    /// Adds a row at the end; the selection does not move.
    pub fn add_row(&mut self, row: T)
        requires
            old(self)@.wf(),
        ensures
            final(self)@.items == old(self)@.items.push(row),
            final(self)@.selected == old(self)@.selected,
            final(self)@.wf(),
            final(self).column_names() == old(self).column_names(),
    {
        self.rows.push(row);
    }

    /// Removes every row; nothing stays selected.
    pub fn clear(&mut self)
        ensures
            final(self)@.items.len() == 0,
            final(self)@.selected is None,
            final(self)@.wf(),
            final(self).column_names() == old(self).column_names(),
    {
        self.rows.clear();
    }

    /// Replaces every row by the given ones, in order; nothing is selected.
    pub fn replace_rows(&mut self, rows: Vec<T>)
        ensures
            final(self)@.items == rows@,
            final(self)@.selected is None,
            final(self)@.wf(),
            final(self).column_names() == old(self).column_names(),
    {
        self.rows.replace_all(rows);
    }

    /// Selects the next row, wrapping from the last to the first.
    pub fn next(&mut self)
        requires
            old(self)@.wf(),
        ensures
            final(self)@.items == old(self)@.items,
            final(self)@.selected == next_selection(old(self)@.selected, old(self)@.items.len()),
            final(self)@.wf(),
            final(self).column_names() == old(self).column_names(),
    {
        self.rows.next();
    }

    /// Selects the previous row, wrapping from the first to the last.
    pub fn previous(&mut self)
        requires
            old(self)@.wf(),
        ensures
            final(self)@.items == old(self)@.items,
            final(self)@.selected == previous_selection(old(self)@.selected, old(self)@.items.len()),
            final(self)@.wf(),
            final(self).column_names() == old(self).column_names(),
    {
        self.rows.previous();
    }

    /// The selected row, if any.
    pub fn selected_row(&self) -> (r: Option<&T>)
        requires
            self@.wf(),
        ensures
            self@.selected is None ==> r is None,
            self@.selected is Some ==> r == Some(&self@.items[self@.selected->0 as int]),
    {
        self.rows.selected_item()
    }
}

} // verus!
