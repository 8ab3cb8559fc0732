//! Data of the recipe and shopping-list service, and the rules that build
//! new recipe content from plain text.
use vstd::prelude::*;

verus! {

/// Where the service is and which shopping list the tools work on.
#[derive(Debug, PartialEq)]
pub struct Conf {
    pub api_key: String,
    pub base_url: String,
    pub list_id: String,
}

/// A shopping list of the service.
#[derive(Debug, PartialEq)]
pub struct ShoppingList {
    pub name: String,
    pub id: String,
}

/// A label attached to a shopping-list item.
#[derive(Debug, PartialEq)]
pub struct Label {
    pub name: String,
    pub id: String,
}

/// One entry of a shopping list; `note` is the text the user sees.
#[derive(Debug, PartialEq)]
pub struct ShoppingListItem {
    pub id: String,
    pub note: String,
    pub checked: bool,
    pub label: Option<Label>,
    pub shopping_list_id: String,
}

/// A food known to the service.
#[derive(Debug, PartialEq)]
pub struct Food {
    pub id: Option<String>,
    pub name: String,
}

/// A unit of measure known to the service.
#[derive(Debug, PartialEq)]
pub struct Unit {
    pub id: String,
    pub name: String,
}

/// One ingredient line of a recipe.
#[derive(Debug, PartialEq)]
pub struct RecipeIngredient {
    pub reference_id: String,
    pub note: String,
}

/// One step of a recipe.
#[derive(Debug, PartialEq)]
pub struct RecipeInstruction {
    pub id: String,
    pub title: String,
    pub summary: String,
    pub text: String,
    pub ingredient_references: Vec<serde_json::Value>,
}

/// A recipe; the ingredient and step lists may be missing from listings but
/// must be present when a recipe is updated.
#[derive(Debug, PartialEq)]
pub struct Recipe {
    pub id: String,
    pub name: String,
    pub slug: String,
    pub description: String,
    pub recipe_ingredient: Option<Vec<RecipeIngredient>>,
    pub recipe_instructions: Option<Vec<RecipeInstruction>>,
}

pub open spec fn is_lower_hex_digit(c: char) -> bool {
    ('0' <= c && c <= '9') || ('a' <= c && c <= 'f')
}

/// `s` has the shape of a UUID in lower-case hyphenated form:
/// `xxxxxxxx-xxxx-xxxx-xxxx-xxxxxxxxxxxx`.
pub open spec fn is_hyphenated_uuid(s: Seq<char>) -> bool {
    &&& s.len() == 36
    &&& forall|i: int|
        0 <= i < 36 ==> if i == 8 || i == 13 || i == 18 || i == 23 {
            #[trigger] s[i] == '-'
        } else {
            is_lower_hex_digit(s[i])
        }
}

/// Relies on uuid::Uuid::new_v4 for a random UUID, and on its `Display`,
/// which writes the lower-case hyphenated form.
#[verifier::external_body]
fn random_uuid() -> (r: String)
    ensures
        is_hyphenated_uuid(r@),
{
    uuid::Uuid::new_v4().to_string()
}

/// `ing` is a new ingredient line with text `note` and a fresh reference id.
pub open spec fn is_new_ingredient(ing: RecipeIngredient, note: Seq<char>) -> bool {
    &&& is_hyphenated_uuid(ing.reference_id@)
    &&& ing.note@ == note
}

/// `step` is a new untitled step with text `text` and a fresh id.
pub open spec fn is_new_step(step: RecipeInstruction, text: Seq<char>) -> bool {
    &&& is_hyphenated_uuid(step.id@)
    &&& step.title@ == Seq::<char>::empty()
    &&& step.summary@ == Seq::<char>::empty()
    &&& step.text@ == text
    &&& step.ingredient_references@ == Seq::<serde_json::Value>::empty()
}

impl RecipeIngredient {
    /// An empty ingredient line with a fresh random reference id.
    pub fn new() -> (r: RecipeIngredient)
        ensures
            is_new_ingredient(r, Seq::empty()),
    {
        RecipeIngredient { reference_id: random_uuid(), note: String::new() }
    }

    /// The same line with its text replaced by `note`.
    pub fn with_note(self, note: &str) -> (r: RecipeIngredient)
        ensures
            r.note@ == note@,
            r.reference_id == self.reference_id,
    {
        RecipeIngredient { note: String::from_str(note), ..self }
    }
}

impl RecipeInstruction {
    /// An empty, untitled step with a fresh random id.
    pub fn new() -> (r: RecipeInstruction)
        ensures
            is_new_step(r, Seq::empty()),
    {
        RecipeInstruction {
            id: random_uuid(),
            title: String::new(),
            summary: String::new(),
            text: String::new(),
            ingredient_references: Vec::new(),
        }
    }

    /// The same step with its text replaced by `text`.
    pub fn with_text(self, text: &str) -> (r: RecipeInstruction)
        ensures
            r.text@ == text@,
            r.id == self.id,
            r.title == self.title,
            r.summary == self.summary,
            r.ingredient_references == self.ingredient_references,
    {
        RecipeInstruction { text: String::from_str(text), ..self }
    }
}

impl Recipe {
    /// The recipe with its ingredient list and its steps replaced by new
    /// entries made from `ingredients` and `steps`, in order; every other
    /// field is kept.
    pub fn with_contents(self, ingredients: &Vec<String>, steps: &Vec<String>) -> (r: Recipe)
        ensures
            r.id == self.id,
            r.name == self.name,
            r.slug == self.slug,
            r.description == self.description,
            r.recipe_ingredient matches Some(list) && list.len() == ingredients.len() && (forall|
                i: int,
            |
                0 <= i < list.len() ==> is_new_ingredient(#[trigger] list[i], ingredients[i]@)),
            r.recipe_instructions matches Some(list) && list.len() == steps.len() && (forall|
                i: int,
            | 0 <= i < list.len() ==> is_new_step(#[trigger] list[i], steps[i]@)),
    {
        let mut lines: Vec<RecipeIngredient> = Vec::new();
        for i in 0..ingredients.len()
            invariant
                lines.len() == i,
                forall|j: int| 0 <= j < i ==> is_new_ingredient(#[trigger] lines[j], ingredients[j]@),
        {
            lines.push(RecipeIngredient::new().with_note(ingredients[i].as_str()));
        }
        let mut instructions: Vec<RecipeInstruction> = Vec::new();
        for i in 0..steps.len()
            invariant
                instructions.len() == i,
                forall|j: int| 0 <= j < i ==> is_new_step(#[trigger] instructions[j], steps[j]@),
        {
            instructions.push(RecipeInstruction::new().with_text(steps[i].as_str()));
        }
        Recipe {
            recipe_ingredient: Some(lines),
            recipe_instructions: Some(instructions),
            ..self
        }
    }
}

} // verus!
