use vstd::prelude::*;
use vstd::std_specs::cmp::PartialEqSpec;

verus! {

/// The mathematical value of an optional text.
pub open spec fn opt_text(o: Option<String>) -> Option<Seq<char>> {
    match o {
        Some(s) => Some(s@),
        None => None,
    }
}

/// The value of an attribute of a category.
pub struct AttributeModel {
    pub id: Seq<char>,
    pub name: Seq<char>,
    pub data_type: Seq<char>,
    pub unit: Option<Seq<char>>,
    pub optional: bool,
}

/// The value of a category, with its nested attributes.
pub struct CategoryModel {
    pub id: Seq<char>,
    pub parent: Option<Seq<char>>,
    pub parent_name: Option<Seq<char>>,
    pub name: Seq<char>,
    pub selectable_as_last: bool,
    pub attributes: Seq<AttributeModel>,
}

/// The value of a definition: two definitions are the same definition exactly
/// when their models are equal.
pub struct DefinitionModel {
    pub version: Seq<char>,
    pub categories: Seq<CategoryModel>,
}

/// A validated attribute of a category.
#[derive(Debug)]
pub struct Attribute {
    pub id: String,
    pub name: String,
    pub data_type: String,
    pub unit: Option<String>,
    pub optional: bool,
}

/// A validated category: every field is known, every attribute validated.
#[derive(Debug)]
pub struct Category {
    pub id: String,
    pub parent: Option<String>,
    pub parent_name: Option<String>,
    pub name: String,
    pub selectable_as_last: bool,
    pub attributes: Vec<Attribute>,
}

/// A version token together with the ordered categories that exist at it.
#[derive(Debug)]
pub struct Definition {
    pub version: String,
    pub categories: Vec<Category>,
}

impl View for Attribute {
    type V = AttributeModel;

    open spec fn view(&self) -> AttributeModel {
        AttributeModel {
            id: self.id@,
            name: self.name@,
            data_type: self.data_type@,
            unit: opt_text(self.unit),
            optional: self.optional,
        }
    }
}

impl View for Category {
    type V = CategoryModel;

    open spec fn view(&self) -> CategoryModel {
        CategoryModel {
            id: self.id@,
            parent: opt_text(self.parent),
            parent_name: opt_text(self.parent_name),
            name: self.name@,
            selectable_as_last: self.selectable_as_last,
            attributes: self.attributes@.map_values(|a: Attribute| a@),
        }
    }
}

impl View for Definition {
    type V = DefinitionModel;

    open spec fn view(&self) -> DefinitionModel {
        DefinitionModel {
            version: self.version@,
            categories: self.categories@.map_values(|c: Category| c@),
        }
    }
}

/// Copies an optional text.
pub fn copy_opt_text(o: &Option<String>) -> (r: Option<String>)
    ensures
        opt_text(r) == opt_text(*o),
{
    match o {
        Some(s) => Some(s.clone()),
        None => None,
    }
}

impl Attribute {
    /// A copy with the same value.
    pub fn duplicate(&self) -> (r: Attribute)
        ensures
            r@ == self@,
    {
        Attribute {
            id: self.id.clone(),
            name: self.name.clone(),
            data_type: self.data_type.clone(),
            unit: copy_opt_text(&self.unit),
            optional: self.optional,
        }
    }
}

impl Category {
    /// A copy with the same value, nested attributes included.
    pub fn duplicate(&self) -> (r: Category)
        ensures
            r@ == self@,
    {
        let mut attributes: Vec<Attribute> = Vec::new();
        let mut i: usize = 0;
        while i < self.attributes.len()
            invariant
                i <= self.attributes.len(),
                attributes.len() == i,
                forall|j: int| 0 <= j < i ==> attributes@[j]@ == self.attributes@[j]@,
            decreases self.attributes.len() - i,
        {
            attributes.push(self.attributes[i].duplicate());
            i = i + 1;
        }
        assert(attributes@.map_values(|a: Attribute| a@) =~= self@.attributes);
        Category {
            id: self.id.clone(),
            parent: copy_opt_text(&self.parent),
            parent_name: copy_opt_text(&self.parent_name),
            name: self.name.clone(),
            selectable_as_last: self.selectable_as_last,
            attributes,
        }
    }
}

/// Compares two optional texts by their characters.
pub fn same_opt_text(a: &Option<String>, b: &Option<String>) -> (r: bool)
    ensures
        r == (opt_text(*a) == opt_text(*b)),
{
    match (a, b) {
        (Some(x), Some(y)) => *x == *y,
        (None, None) => true,
        _ => false,
    }
}

impl PartialEq for Attribute {
    fn eq(&self, other: &Attribute) -> (r: bool)
        ensures
            r == (self@ == other@),
    {
        self.id == other.id && self.name == other.name && self.data_type == other.data_type
            && same_opt_text(&self.unit, &other.unit) && self.optional == other.optional
    }
}

impl vstd::std_specs::cmp::PartialEqSpecImpl for Attribute {
    open spec fn obeys_eq_spec() -> bool {
        true
    }

    open spec fn eq_spec(&self, other: &Attribute) -> bool {
        self@ == other@
    }
}

impl PartialEq for Category {
    fn eq(&self, other: &Category) -> (r: bool)
        ensures
            r == (self@ == other@),
    {
        if !(self.id == other.id && same_opt_text(&self.parent, &other.parent)
            && same_opt_text(&self.parent_name, &other.parent_name) && self.name == other.name
            && self.selectable_as_last == other.selectable_as_last) {
            return false;
        }
        if self.attributes.len() != other.attributes.len() {
            assert(self@.attributes.len() != other@.attributes.len());
            return false;
        }
        let n = self.attributes.len();
        let mut i: usize = 0;
        while i < n
            invariant
                n == self.attributes.len(),
                n == other.attributes.len(),
                i <= n,
                forall|j: int| 0 <= j < i ==> self.attributes@[j]@ == other.attributes@[j]@,
            decreases n - i,
        {
            if !(self.attributes[i] == other.attributes[i]) {
                assert(self@.attributes[i as int] != other@.attributes[i as int]);
                return false;
            }
            i = i + 1;
        }
        assert(self@.attributes =~= other@.attributes);
        true
    }
}

impl vstd::std_specs::cmp::PartialEqSpecImpl for Category {
    open spec fn obeys_eq_spec() -> bool {
        true
    }

    open spec fn eq_spec(&self, other: &Category) -> bool {
        self@ == other@
    }
}

impl Definition {
    pub fn new(version: String, categories: Vec<Category>) -> (r: Definition)
        ensures
            r.version@ == version@,
            r.categories@ == categories@,
    {
        Definition { version, categories }
    }

    pub fn version(&self) -> (r: String)
        ensures
            r@ == self.version@,
    {
        self.version.clone()
    }

    pub fn categories(&self) -> (r: Vec<Category>)
        ensures
            r@.map_values(|c: Category| c@) == self@.categories,
    {
        let mut out: Vec<Category> = Vec::new();
        let mut i: usize = 0;
        while i < self.categories.len()
            invariant
                i <= self.categories.len(),
                out.len() == i,
                forall|j: int| 0 <= j < i ==> out@[j]@ == self.categories@[j]@,
            decreases self.categories.len() - i,
        {
            let c = self.categories[i].duplicate();
            out.push(c);
            i = i + 1;
        }
        assert(out@.map_values(|c: Category| c@) =~= self@.categories);
        out
    }

    /// A copy with the same value, nested categories included.
    pub fn duplicate(&self) -> (r: Definition)
        ensures
            r@ == self@,
    {
        Definition { version: self.version.clone(), categories: self.categories() }
    }
}

impl PartialEq for Definition {
    fn eq(&self, other: &Definition) -> (r: bool)
        ensures
            r == (self@ == other@),
    {
        if self.version != other.version {
            return false;
        }
        if self.categories.len() != other.categories.len() {
            assert(self@.categories.len() != other@.categories.len());
            return false;
        }
        let n = self.categories.len();
        let mut i: usize = 0;
        while i < n
            invariant
                n == self.categories.len(),
                n == other.categories.len(),
                i <= n,
                forall|j: int| 0 <= j < i ==> self.categories@[j]@ == other.categories@[j]@,
            decreases n - i,
        {
            if !(self.categories[i] == other.categories[i]) {
                assert(self@.categories[i as int] != other@.categories[i as int]);
                return false;
            }
            i = i + 1;
        }
        assert(self@.categories =~= other@.categories);
        true
    }
}

impl vstd::std_specs::cmp::PartialEqSpecImpl for Definition {
    open spec fn obeys_eq_spec() -> bool {
        true
    }

    open spec fn eq_spec(&self, other: &Definition) -> bool {
        self@ == other@
    }
}

} // verus!

verus! {

/// Equality of definitions is reflexive, and a definition rebuilt from the same
/// version and the same categories, one by one, is equal to the first.
pub proof fn lemma_definition_equality_reflexive(d: Definition, rebuilt: Definition)
    requires
        rebuilt.version@ == d.version@,
        rebuilt.categories@.len() == d.categories@.len(),
        forall|i: int|
            0 <= i < d.categories@.len() ==> #[trigger] rebuilt.categories@[i]@ == d.categories@[i]@,
    ensures
        d.eq_spec(&d),
        d.eq_spec(&rebuilt),
        rebuilt.eq_spec(&d),
{
    assert(rebuilt@.categories =~= d@.categories);
}

} // verus!
