//! What the shopping-list and recipe tools compute from the service's data:
//! the compact views handed to the model and the items to mark as done.
use crate::mealie::{Recipe, ShoppingListItem};
use crate::pagination::FetchError;
use vstd::prelude::*;

verus! {

/// A shopping-list item as the model sees it.
#[derive(Debug, PartialEq)]
pub struct FilteredItem {
    pub name: String,
    pub label: Option<String>,
    pub checked: bool,
}

/// The content of a [`FilteredItem`].
pub ghost struct FilteredItemView {
    pub name: Seq<char>,
    pub label: Option<Seq<char>>,
    pub checked: bool,
}

impl View for FilteredItem {
    type V = FilteredItemView;

    open spec fn view(&self) -> FilteredItemView {
        FilteredItemView {
            name: self.name@,
            label: match self.label {
                Some(l) => Some(l@),
                None => None,
            },
            checked: self.checked,
        }
    }
}

/// Arguments of the tool that adds one item to the shopping list.
#[derive(Debug, PartialEq)]
pub struct ItemRequest {
    pub name: String,
}

/// Arguments of the tool that marks items as done.
#[derive(Debug, PartialEq)]
pub struct ManyItemRequest {
    pub names: Vec<String>,
}

/// Arguments of the tool that creates a recipe.
#[derive(Debug, PartialEq)]
pub struct NewRecipe {
    pub name: String,
    pub ingredients: Vec<String>,
    pub steps: Vec<String>,
}

/// A recipe as the model sees it.
#[derive(Debug, PartialEq)]
pub struct FilteredRecipe {
    pub slug: String,
    pub name: String,
    pub description: String,
}

impl From<Recipe> for FilteredRecipe {
    fn from(value: Recipe) -> (r: FilteredRecipe) {
        FilteredRecipe { name: value.name, slug: value.slug, description: value.description }
    }
}

impl vstd::std_specs::convert::FromSpecImpl<Recipe> for FilteredRecipe {
    open spec fn obeys_from_spec() -> bool {
        true
    }

    open spec fn from_spec(v: Recipe) -> FilteredRecipe {
        FilteredRecipe { name: v.name, slug: v.slug, description: v.description }
    }
}

/// The view of `item` handed to the model: its text as the name, the name
/// of its label, and whether it is checked.
pub open spec fn simplified(item: ShoppingListItem) -> FilteredItemView {
    FilteredItemView {
        name: item.note@,
        label: match item.label {
            Some(l) => Some(l.name@),
            None => None,
        },
        checked: item.checked,
    }
}

/// The "current items" view of a fetched list: the unchecked items, in
/// order, simplified; failed entries are left out.
pub open spec fn current_view(results: Seq<Result<ShoppingListItem, FetchError>>) -> Seq<
    FilteredItemView,
>
    decreases results.len(),
{
    if results.len() == 0 {
        Seq::empty()
    } else {
        let prev = current_view(results.drop_last());
        match results.last() {
            Ok(item) => if item.checked {
                prev
            } else {
                prev.push(simplified(item))
            },
            Err(_) => prev,
        }
    }
}

/// Whether one of `names` is exactly `note`.
pub open spec fn names_include(names: Seq<String>, note: Seq<char>) -> bool {
    exists|i: int| 0 <= i < names.len() && (#[trigger] names[i])@ == note
}

/// `item` with its `checked` flag set.
pub open spec fn checked_off(item: ShoppingListItem) -> ShoppingListItem {
    ShoppingListItem { checked: true, ..item }
}

/// The items whose text is one of `names`, in order, each checked off; the
/// others are left out.
pub open spec fn marked_done(items: Seq<ShoppingListItem>, names: Seq<String>) -> Seq<
    ShoppingListItem,
>
    decreases items.len(),
{
    if items.len() == 0 {
        Seq::empty()
    } else {
        let prev = marked_done(items.drop_last(), names);
        if names_include(names, items.last().note@) {
            prev.push(checked_off(items.last()))
        } else {
            prev
        }
    }
}

/// The views of `items`, in order.
pub open spec fn views_of(items: Seq<FilteredItem>) -> Seq<FilteredItemView> {
    items.map_values(|f: FilteredItem| f@)
}

fn names_contain(names: &[String], note: &String) -> (r: bool)
    ensures
        r == names_include(names@, note@),
{
    for i in 0..names.len()
        invariant
            forall|j: int| 0 <= j < i ==> (#[trigger] names@[j])@ != note@,
    {
        if names[i] == *note {
            return true;
        }
    }
    false
}

/// Selects the items whose text is one of `names` and checks them off: the
/// result is what is sent back to the service as the update.  Items named by
/// no entry of `names` are left out of it.
pub fn mark_named_items_as_checked(items: Vec<ShoppingListItem>, names: &[String]) -> (r: Vec<
    ShoppingListItem,
>)
    ensures
        r@ == marked_done(items@, names@),
{
    let ghost all = items@;
    let mut out: Vec<ShoppingListItem> = Vec::new();
    for item in it: items.into_iter()
        invariant
            it.seq() == all,
            out@ == marked_done(all.take(it.index() as int), names@),
    {
        assert(all.take(it.index() as int + 1).drop_last() =~= all.take(it.index() as int));
        assert(all.take(it.index() as int + 1).last() == item);
        if names_contain(names, &item.note) {
            out.push(ShoppingListItem { checked: true, ..item });
        }
    }
    assert(all.take(all.len() as int) =~= all);
    out
}

/// The view of one item handed to the model.
pub fn simplify(item: &ShoppingListItem) -> (r: FilteredItem)
    ensures
        r@ == simplified(*item),
{
    let label = match &item.label {
        Some(l) => Some(l.name.clone()),
        None => None,
    };
    FilteredItem { name: item.note.clone(), label, checked: item.checked }
}

/// The "current items" view of a fetched shopping list: every unchecked
/// item, simplified, in list order.  Entries that failed to arrive are
/// skipped; checked items are not shown.
pub fn current_items(results: &Vec<Result<ShoppingListItem, FetchError>>) -> (r: Vec<FilteredItem>)
    ensures
        views_of(r@) == current_view(results@),
{
    let mut out: Vec<FilteredItem> = Vec::new();
    for i in 0..results.len()
        invariant
            views_of(out@) == current_view(results@.take(i as int)),
    {
        assert(results@.take(i as int + 1).drop_last() =~= results@.take(i as int));
        match &results[i] {
            Ok(item) => {
                if !item.checked {
                    let f = simplify(item);
                    out.push(f);
                    assert(views_of(out@) =~= current_view(results@.take(i as int)).push(f@));
                }
            },
            Err(_) => {},
        }
    }
    assert(results@.take(results.len() as int) =~= results@);
    out
}

} // verus!
