use vstd::prelude::*;

use crate::definition::{
    opt_text, Attribute, AttributeModel, Category, CategoryModel, Definition, DefinitionModel,
};
use crate::error::{Error, ErrorKind};
use crate::text::{message, with_cause};

verus! {

/// An attribute as it is written in the file source, before validation.
#[derive(Debug)]
pub struct SourceAttribute {
    pub id: Option<String>,
    pub name: String,
    pub data_type: String,
    pub unit: Option<String>,
    pub optional: Option<bool>,
}

/// A category as it is written in the file source, before validation.
#[derive(Debug)]
pub struct SourceCategory {
    pub id: Option<String>,
    pub parent: Option<String>,
    pub parent_name: Option<String>,
    pub name: String,
    pub selectable_as_last: Option<bool>,
    pub attributes: Vec<SourceAttribute>,
}

/// An attribute is valid when it has an id.
pub open spec fn attribute_is_valid(s: SourceAttribute) -> bool {
    s.id is Some
}

/// The validated form of a valid attribute: a missing `optional` means false.
pub open spec fn validated_attribute(s: SourceAttribute) -> AttributeModel {
    AttributeModel {
        id: s.id->Some_0@,
        name: s.name@,
        data_type: s.data_type@,
        unit: opt_text(s.unit),
        optional: s.optional == Some(true),
    }
}

/// A category is valid when it has an id and all of its attributes are valid.
pub open spec fn category_is_valid(s: SourceCategory) -> bool {
    &&& s.id is Some
    &&& forall|i: int| 0 <= i < s.attributes@.len() ==> attribute_is_valid(#[trigger] s.attributes@[i])
}

/// The validated form of a valid category: a missing `selectable_as_last`
/// means false, and the attributes keep their order.
pub open spec fn validated_category(s: SourceCategory) -> CategoryModel {
    CategoryModel {
        id: s.id->Some_0@,
        parent: opt_text(s.parent),
        parent_name: opt_text(s.parent_name),
        name: s.name@,
        selectable_as_last: s.selectable_as_last == Some(true),
        attributes: s.attributes@.map_values(|a: SourceAttribute| validated_attribute(a)),
    }
}

fn flag_or_false(o: Option<bool>) -> (r: bool)
    ensures
        r == (o == Some(true)),
{
    match o {
        Some(b) => b,
        None => false,
    }
}

/// Validates one attribute; `None` when it has no id.
pub fn validate_attribute(s: SourceAttribute) -> (r: Option<Attribute>)
    ensures
        r is Some <==> attribute_is_valid(s),
        r matches Some(a) ==> a@ == validated_attribute(s),
{
    match s.id {
        Some(id) => Some(Attribute {
            id,
            name: s.name,
            data_type: s.data_type,
            unit: s.unit,
            optional: flag_or_false(s.optional),
        }),
        None => None,
    }
}

/// Validates one category with all its attributes; `None` when the category
/// or any of its attributes has no id.
pub fn validate_category(s: SourceCategory) -> (r: Option<Category>)
    ensures
        r is Some <==> category_is_valid(s),
        r matches Some(c) ==> c@ == validated_category(s),
{
    let ghost g = s;
    let SourceCategory { id, parent, parent_name, name, selectable_as_last, attributes: source } = s;
    let id = match id {
        Some(id) => id,
        None => return None,
    };
    let mut source = source;
    let mut attributes: Vec<Attribute> = Vec::new();
    let n = source.len();
    let mut i: usize = 0;
    while i < n
        invariant
            g == s,
            n == g.attributes@.len(),
            i <= n,
            source@ == g.attributes@.subrange(i as int, n as int),
            attributes.len() == i,
            forall|j: int| 0 <= j < i ==> attribute_is_valid(#[trigger] g.attributes@[j]),
            forall|j: int|
                0 <= j < i ==> #[trigger] attributes@[j]@ == validated_attribute(g.attributes@[j]),
        decreases n - i,
    {
        let a = source.remove(0);
        assert(a == g.attributes@[i as int]);
        match validate_attribute(a) {
            Some(v) => attributes.push(v),
            None => {
                assert(!attribute_is_valid(g.attributes@[i as int]));
                assert(!category_is_valid(g));
                            return None;
            },
        }
        i = i + 1;
        assert(source@ =~= g.attributes@.subrange(i as int, n as int));
    }
    let c = Category {
        id,
        parent,
        parent_name,
        name,
        selectable_as_last: flag_or_false(selectable_as_last),
        attributes,
    };
    assert(c@.attributes =~= validated_category(g).attributes);
    Some(c)
}

} // verus!

verus! {

/// Every category could be read and every category that was read is valid.
pub open spec fn all_read_and_valid(reads: Seq<Result<SourceCategory, String>>) -> bool {
    forall|i: int|
        0 <= i < reads.len() ==> #[trigger] reads[i] is Ok && category_is_valid(reads[i]->Ok_0)
}

/// The definition made of the validated categories, in the order in which they
/// were listed, stamped with the given version.
pub open spec fn assembled_definition(
    reads: Seq<Result<SourceCategory, String>>,
    version: Seq<char>,
) -> DefinitionModel {
    DefinitionModel {
        version,
        categories: reads.map_values(|r: Result<SourceCategory, String>| validated_category(r->Ok_0)),
    }
}

/// Builds the definition that the file source holds, from the listing of its
/// categories (each one read, or the reason it could not be), and the version
/// that the working copy reports. Nothing partial comes out: a failure to list,
/// to read or to validate any category, or to learn the version, is an error.
/// The version is consulted only once every category has been validated.
pub fn assemble_definition(
    listing: Result<Vec<Result<SourceCategory, String>>, String>,
    version: Result<String, String>,
) -> (r: Result<Definition, Error>)
    ensures
        r is Ok <==> (listing is Ok && all_read_and_valid(listing->Ok_0@) && version is Ok),
        r matches Ok(d) ==> d@ == assembled_definition(listing->Ok_0@, version->Ok_0@),
        r matches Err(e) ==> e.kind == ErrorKind::ConsumerFailure,
        listing is Err ==> r is Err && r->Err_0.message@ == "failed to read category: "@
            + listing->Err_0@,
        (listing is Ok && all_read_and_valid(listing->Ok_0@) && version is Err) ==> r is Err
            && r->Err_0.message@ == "failed to read definition's version: "@ + version->Err_0@,
{
    let ghost lg = listing;
    let reads = match listing {
        Ok(reads) => reads,
        Err(m) => {
            return Err(Error::new(ErrorKind::ConsumerFailure, with_cause("failed to read category: ", &m)));
        },
    };
    let ghost all = reads@;
    let mut reads = reads;
    let n = reads.len();
    let mut categories: Vec<Category> = Vec::new();
    let mut i: usize = 0;
    while i < n
        invariant
            lg == listing,
            listing matches Ok(v) && v@ == all,
            n == all.len(),
            i <= n,
            reads@ == all.subrange(i as int, n as int),
            categories.len() == i,
            forall|j: int| 0 <= j < i ==> #[trigger] all[j] is Ok && category_is_valid(all[j]->Ok_0),
            forall|j: int|
                0 <= j < i ==> #[trigger] categories@[j]@ == validated_category(all[j]->Ok_0),
        decreases n - i,
    {
        let item = reads.remove(0);
        assert(item == all[i as int]);
        match item {
            Ok(source) => match validate_category(source) {
                Some(c) => categories.push(c),
                None => {
                    assert(!all_read_and_valid(all));
                    return Err(Error::new(
                        ErrorKind::ConsumerFailure,
                        message("failed to validate source category"),
                    ));
                },
            },
            Err(m) => {
                assert(!all_read_and_valid(all));
                return Err(Error::new(
                    ErrorKind::ConsumerFailure,
                    with_cause("failed to read source category: ", &m),
                ));
            },
        }
        i = i + 1;
        assert(reads@ =~= all.subrange(i as int, n as int));
    }
    assert(all_read_and_valid(all));
    match version {
        Ok(v) => {
            let d = Definition::new(v, categories);
            assert(d@.categories =~= assembled_definition(all, d.version@).categories);
            Ok(d)
        },
        Err(m) => Err(Error::new(
            ErrorKind::ConsumerFailure,
            with_cause("failed to read definition's version: ", &m),
        )),
    }
}

} // verus!
