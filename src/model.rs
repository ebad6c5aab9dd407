//! The typed parts of a drug record: property triples, the collections that
//! hold them, identifiers and the record's many sections.

use vstd::prelude::*;
use crate::json::{
    field_or_null, json_views, shape_seq, text_field, Json, JsonValue,
};

verus! {

/// One calculated or experimental property: its kind (such as "SMILES"),
/// its source and its value, the last two kept as they came.
pub struct Property {
    pub kind: String,
    pub source: JsonValue,
    pub value: JsonValue,
}

/// The model of a property triple.
pub struct PropertyView {
    pub kind: Seq<char>,
    pub source: Json,
    pub value: Json,
}

impl View for Property {
    type V = PropertyView;

    open spec fn view(&self) -> PropertyView {
        PropertyView { kind: self.kind@, source: self.source@, value: self.value@ }
    }
}

/// The models of a sequence of properties.
pub open spec fn property_views(s: Seq<Property>) -> Seq<PropertyView> {
    Seq::new(s.len(), |i: int| s[i]@)
}

/// The property that a JSON value stands for: an object whose "kind" is a
/// string; a missing "source" or "value" reads as null.
pub open spec fn property_of(v: Json) -> Option<PropertyView> {
    match text_field(v, "kind"@) {
        Some(k) => Some(
            PropertyView {
                kind: k,
                source: field_or_null(v, "source"@),
                value: field_or_null(v, "value"@),
            },
        ),
        None => None,
    }
}

/// Whether every item is a property.
pub open spec fn all_properties(items: Seq<Json>) -> bool {
    forall|i: int| 0 <= i < items.len() ==> (#[trigger] property_of(items[i])) is Some
}

/// The properties that `items` stand for, in order, when every item is one.
/// A collection with an item of another shape is a soft failure of the whole
/// field, which then holds no properties.
pub open spec fn properties_of(items: Seq<Json>) -> Seq<PropertyView> {
    if all_properties(items) {
        Seq::new(items.len(), |i: int| property_of(items[i]).unwrap())
    } else {
        Seq::empty()
    }
}

/// The elements of a property collection: its "property" field, resolved by
/// the shape rule.
pub open spec fn property_items(collection: Json) -> Seq<Json> {
    shape_seq(field_or_null(collection, "property"@))
}

impl Property {
    /// Reads a property triple out of a JSON value, if it is one.
    pub fn from_json(v: &JsonValue) -> (r: Option<Property>)
        ensures
            match r {
                Some(p) => property_of(v@) == Some(p@),
                None => property_of(v@) is None,
            },
    {
        match v.field("kind").as_text() {
            Some(kind) => {
                let source = v.field("source").deep_copy();
                let value = v.field("value").deep_copy();
                Some(Property { kind, source, value })
            },
            None => None,
        }
    }
}

/// Reads the properties that `items` stand for; none at all when an item is
/// not a property.
fn decode_items(items: &Vec<JsonValue>) -> (r: Vec<Property>)
    ensures
        property_views(r@) == properties_of(json_views(items@)),
{
    let ghost seq_items = json_views(items@);
    let mut out: Vec<Property> = Vec::new();
    let mut i: usize = 0;
    while i < items.len()
        invariant
            i <= items@.len(),
            seq_items == json_views(items@),
            out@.len() == i,
            forall|j: int| 0 <= j < i ==> (#[trigger] property_of(seq_items[j])) is Some,
            forall|j: int|
                0 <= j < i ==> Some((#[trigger] out@[j])@) == property_of(seq_items[j]),
        decreases items@.len() - i,
    {
        assert(seq_items[i as int] == items@[i as int]@);
        match Property::from_json(&items[i]) {
            Some(p) => {
                out.push(p);
            },
            None => {
                assert(!all_properties(seq_items));
                let none: Vec<Property> = Vec::new();
                assert(property_views(none@) =~= properties_of(seq_items));
                return none;
            },
        }
        i = i + 1;
    }
    assert(all_properties(seq_items));
    assert(property_views(out@) =~= properties_of(seq_items));
    out
}

/// Reads every property of a collection ("calculated-properties" or
/// "experimental-properties"), whether it holds one or many, in order.
pub fn decode_properties(collection: &JsonValue) -> (r: Vec<Property>)
    ensures
        property_views(r@) == properties_of(property_items(collection@)),
{
    Properties::from_json(collection).into_vec()
}

/// A property collection as a typed value: one property, or a list of them.
pub enum PropertyEnum {
    ARR(Vec<Property>),
    OO(Property),
}

impl PropertyEnum {
    /// The properties held, as a list: a single property is a list of one.
    pub open spec fn items(self) -> Seq<Property> {
        match self {
            PropertyEnum::ARR(v) => v@,
            PropertyEnum::OO(p) => seq![p],
        }
    }

    /// The properties held, as a list: a single property becomes a list of one.
    pub fn into_vec(self) -> (r: Vec<Property>)
        ensures
            r@ == self.items(),
    {
        match self {
            PropertyEnum::ARR(v) => v,
            PropertyEnum::OO(p) => vec![p],
        }
    }
}

/// A property collection whose "property" field may be missing.
pub struct Properties {
    pub property: Option<PropertyEnum>,
}

/// The properties of a collection that may be missing; none when it is.
pub open spec fn collection_items(c: Option<Properties>) -> Seq<Property> {
    match c {
        Some(p) => p.items(),
        None => Seq::empty(),
    }
}

impl Properties {
    /// The properties held; none when the field is missing.
    pub open spec fn items(self) -> Seq<Property> {
        match self.property {
            Some(e) => e.items(),
            None => Seq::empty(),
        }
    }

    /// Reads a collection by the shape rule: its "property" field holds no
    /// property when null or missing, a list when it is an array, and one
    /// property otherwise. A collection with an entry that is not a
    /// property holds none.
    pub fn from_json(collection: &JsonValue) -> (r: Properties)
        ensures
            property_views(r.items()) == properties_of(property_items(collection@)),
    {
        let p = collection.field("property");
        match p {
            JsonValue::Null => {
                let r = Properties { property: None };
                assert(property_views(r.items()) =~= Seq::<PropertyView>::empty());
                assert(properties_of(property_items(collection@)) =~= Seq::<PropertyView>::empty());
                r
            },
            JsonValue::Array(items) => {
                assert(json_views(items@) =~= property_items(collection@));
                let v = decode_items(items);
                Properties { property: Some(PropertyEnum::ARR(v)) }
            },
            _ => {
                let ghost one = seq![p@];
                assert(property_items(collection@) == one);
                assert(one[0] == p@);
                match Property::from_json(p) {
                    Some(x) => {
                        let r = Properties { property: Some(PropertyEnum::OO(x)) };
                        assert(all_properties(one));
                        assert(property_views(r.items()) =~= properties_of(one));
                        r
                    },
                    None => {
                        assert(!all_properties(one));
                        let r = Properties { property: None };
                        assert(property_views(r.items()) =~= Seq::<PropertyView>::empty());
                        r
                    },
                }
            },
        }
    }

    /// The properties held, as a list; none when the field is missing.
    pub fn into_vec(self) -> (r: Vec<Property>)
        ensures
            r@ == self.items(),
    {
        match self.property {
            Some(p) => p.into_vec(),
            None => Vec::new(),
        }
    }
}

/// The properties of a collection that may be missing, as their models.
pub open spec fn collection_views(c: Option<Properties>) -> Seq<PropertyView> {
    property_views(collection_items(c))
}

/// Reads a collection that may be missing: null or missing reads as none.
fn optional_properties(c: &JsonValue) -> (r: Option<Properties>)
    ensures
        collection_views(r) == properties_of(property_items(c@)),
{
    match c {
        JsonValue::Null => {
            assert(property_items(c@) =~= Seq::<Json>::empty());
            assert(collection_views(None) =~= Seq::<PropertyView>::empty());
            None
        },
        _ => Some(Properties::from_json(c)),
    }
}

/// One raw drug record, as the normalizer reads it.
pub struct Drugbank {
    pub created: String,
    pub type_field: String,
    pub calculated_properties: Option<Properties>,
    pub drugbank_id: JsonValue,
    pub experimental_properties: Option<Properties>,
    pub groups: Groups,
}

/// The model of a raw drug record.
pub struct DrugbankView {
    pub created: Seq<char>,
    pub type_field: Seq<char>,
    pub calculated: Seq<PropertyView>,
    pub drugbank_id: Json,
    pub experimental: Seq<PropertyView>,
    pub group: Json,
}

impl View for Drugbank {
    type V = DrugbankView;

    open spec fn view(&self) -> DrugbankView {
        DrugbankView {
            created: self.created@,
            type_field: self.type_field@,
            calculated: collection_views(self.calculated_properties),
            drugbank_id: self.drugbank_id@,
            experimental: collection_views(self.experimental_properties),
            group: self.groups.group@,
        }
    }
}

/// A text that may be missing, read as empty when it is.
pub open spec fn text_or_empty(t: Option<Seq<char>>) -> Seq<char> {
    match t {
        Some(s) => s,
        None => Seq::empty(),
    }
}

/// The raw drug record that a JSON record stands for: a missing text reads as
/// empty, a missing value as null, a missing collection as no properties.
pub open spec fn drugbank_of(record: Json) -> DrugbankView {
    DrugbankView {
        created: text_or_empty(text_field(record, "@created"@)),
        type_field: text_or_empty(text_field(record, "@type"@)),
        calculated: properties_of(property_items(field_or_null(record, "calculated-properties"@))),
        drugbank_id: field_or_null(record, "drugbank-id"@),
        experimental: properties_of(
            property_items(field_or_null(record, "experimental-properties"@)),
        ),
        group: field_or_null(field_or_null(record, "groups"@), "group"@),
    }
}

impl Drugbank {
    /// Reads a raw drug record out of its JSON form.
    pub fn from_json(record: &JsonValue) -> (r: Drugbank)
        ensures
            r@ == drugbank_of(record@),
    {
        let created = match record.field("@created").as_text() {
            Some(t) => t,
            None => String::new(),
        };
        let type_field = match record.field("@type").as_text() {
            Some(t) => t,
            None => String::new(),
        };
        let calculated_properties = optional_properties(record.field("calculated-properties"));
        let experimental_properties = optional_properties(record.field("experimental-properties"));
        let drugbank_id = record.field("drugbank-id").deep_copy();
        let group = record.field("groups").field("group").deep_copy();
        Drugbank {
            created,
            type_field,
            calculated_properties,
            drugbank_id,
            experimental_properties,
            groups: Groups { group },
        }
    }
}

/// A drug identifier with its "primary" flag.
pub struct DrugbankId {
    pub text: String,
    pub primary: bool,
}

/// An identifier as it may appear: an object with a flag, or a bare name.
pub enum DrugbankIdEnum {
    Id(DrugbankId),
    Name(String),
}

/// The "groups" section: one group name or a list of them.
pub struct Groups {
    pub group: JsonValue,
}

/// An identifier of the drug in another resource.
#[derive(Debug, Clone, PartialEq, Eq, Default)]
pub struct ExternalIdentifier {
    pub identifier: i64,
    pub resource: String,
}

/// The "external-identifiers" section.
#[derive(Debug, Clone, PartialEq, Eq, Default)]
pub struct ExternalIdentifiers {
    pub external_identifier: ExternalIdentifier,
}

/// The "absorption" section; no field of it is read.
#[derive(Debug, Clone, Copy, PartialEq, Eq, Default)]
pub struct Absorption {}

/// The "affected organisms" section; no field of it is read.
#[derive(Debug, Clone, Copy, PartialEq, Eq, Default)]
pub struct AffectedOrganisms {}

/// The "ahfs codes" section; no field of it is read.
#[derive(Debug, Clone, Copy, PartialEq, Eq, Default)]
pub struct AhfsCodes {}

/// The "atc codes" section; no field of it is read.
#[derive(Debug, Clone, Copy, PartialEq, Eq, Default)]
pub struct AtcCodes {}

/// The "carriers" section; no field of it is read.
#[derive(Debug, Clone, Copy, PartialEq, Eq, Default)]
pub struct Carriers {}

/// The "categories" section; no field of it is read.
#[derive(Debug, Clone, Copy, PartialEq, Eq, Default)]
pub struct Categories {}

/// The "clearance" section; no field of it is read.
#[derive(Debug, Clone, Copy, PartialEq, Eq, Default)]
pub struct Clearance {}

/// The "dosages" section; no field of it is read.
#[derive(Debug, Clone, Copy, PartialEq, Eq, Default)]
pub struct Dosages {}

/// The "drug interactions" section; no field of it is read.
#[derive(Debug, Clone, Copy, PartialEq, Eq, Default)]
pub struct DrugInteractions {}

/// The "enzymes" section; no field of it is read.
#[derive(Debug, Clone, Copy, PartialEq, Eq, Default)]
pub struct Enzymes {}

/// The "external links" section; no field of it is read.
#[derive(Debug, Clone, Copy, PartialEq, Eq, Default)]
pub struct ExternalLinks {}

/// The "food interactions" section; no field of it is read.
#[derive(Debug, Clone, Copy, PartialEq, Eq, Default)]
pub struct FoodInteractions {}

/// The "articles" section; no field of it is read.
#[derive(Debug, Clone, Copy, PartialEq, Eq, Default)]
pub struct Articles {}

/// The "attachments" section; no field of it is read.
#[derive(Debug, Clone, Copy, PartialEq, Eq, Default)]
pub struct Attachments {}

/// The "links" section; no field of it is read.
#[derive(Debug, Clone, Copy, PartialEq, Eq, Default)]
pub struct Links {}

/// The "textbooks" section; no field of it is read.
#[derive(Debug, Clone, Copy, PartialEq, Eq, Default)]
pub struct Textbooks {}

/// The "general-references" section.
#[derive(Debug, Clone, Copy, PartialEq, Eq, Default)]
pub struct GeneralReferences {
    pub articles: Articles,
    pub attachments: Attachments,
    pub links: Links,
    pub textbooks: Textbooks,
}

/// The "half life" section; no field of it is read.
#[derive(Debug, Clone, Copy, PartialEq, Eq, Default)]
pub struct HalfLife {}

/// The "indication" section; no field of it is read.
#[derive(Debug, Clone, Copy, PartialEq, Eq, Default)]
pub struct Indication {}

/// The "international brands" section; no field of it is read.
#[derive(Debug, Clone, Copy, PartialEq, Eq, Default)]
pub struct InternationalBrands {}

/// The "manufacturers" section; no field of it is read.
#[derive(Debug, Clone, Copy, PartialEq, Eq, Default)]
pub struct Manufacturers {}

/// The "mechanism of action" section; no field of it is read.
#[derive(Debug, Clone, Copy, PartialEq, Eq, Default)]
pub struct MechanismOfAction {}

/// The "metabolism" section; no field of it is read.
#[derive(Debug, Clone, Copy, PartialEq, Eq, Default)]
pub struct Metabolism {}

/// The "mixtures" section; no field of it is read.
#[derive(Debug, Clone, Copy, PartialEq, Eq, Default)]
pub struct Mixtures {}

/// The "packagers" section; no field of it is read.
#[derive(Debug, Clone, Copy, PartialEq, Eq, Default)]
pub struct Packagers {}

/// The "patents" section; no field of it is read.
#[derive(Debug, Clone, Copy, PartialEq, Eq, Default)]
pub struct Patents {}

/// The "pathways" section; no field of it is read.
#[derive(Debug, Clone, Copy, PartialEq, Eq, Default)]
pub struct Pathways {}

/// The "pdb entries" section; no field of it is read.
#[derive(Debug, Clone, Copy, PartialEq, Eq, Default)]
pub struct PdbEntries {}

/// The "pharmacodynamics" section; no field of it is read.
#[derive(Debug, Clone, Copy, PartialEq, Eq, Default)]
pub struct Pharmacodynamics {}

/// The "prices" section; no field of it is read.
#[derive(Debug, Clone, Copy, PartialEq, Eq, Default)]
pub struct Prices {}

/// The "products" section; no field of it is read.
#[derive(Debug, Clone, Copy, PartialEq, Eq, Default)]
pub struct Products {}

/// The "protein binding" section; no field of it is read.
#[derive(Debug, Clone, Copy, PartialEq, Eq, Default)]
pub struct ProteinBinding {}

/// The "reactions" section; no field of it is read.
#[derive(Debug, Clone, Copy, PartialEq, Eq, Default)]
pub struct Reactions {}

/// The "route of elimination" section; no field of it is read.
#[derive(Debug, Clone, Copy, PartialEq, Eq, Default)]
pub struct RouteOfElimination {}

/// The "salts" section; no field of it is read.
#[derive(Debug, Clone, Copy, PartialEq, Eq, Default)]
pub struct Salts {}

/// The "snp adverse drug reactions" section; no field of it is read.
#[derive(Debug, Clone, Copy, PartialEq, Eq, Default)]
pub struct SnpAdverseDrugReactions {}

/// The "snp effects" section; no field of it is read.
#[derive(Debug, Clone, Copy, PartialEq, Eq, Default)]
pub struct SnpEffects {}

/// The "synonyms" section; no field of it is read.
#[derive(Debug, Clone, Copy, PartialEq, Eq, Default)]
pub struct Synonyms {}

/// The "synthesis reference" section; no field of it is read.
#[derive(Debug, Clone, Copy, PartialEq, Eq, Default)]
pub struct SynthesisReference {}

/// The "targets" section; no field of it is read.
#[derive(Debug, Clone, Copy, PartialEq, Eq, Default)]
pub struct Targets {}

/// The "toxicity" section; no field of it is read.
#[derive(Debug, Clone, Copy, PartialEq, Eq, Default)]
pub struct Toxicity {}

/// The "transporters" section; no field of it is read.
#[derive(Debug, Clone, Copy, PartialEq, Eq, Default)]
pub struct Transporters {}

/// The "volume of distribution" section; no field of it is read.
#[derive(Debug, Clone, Copy, PartialEq, Eq, Default)]
pub struct VolumeOfDistribution {}

/// When every item is a property, decoding keeps them all, one for one and in
/// order.
pub proof fn lemma_properties_pass_through(items: Seq<Json>)
    requires
        forall|i: int| 0 <= i < items.len() ==> (#[trigger] property_of(items[i])) is Some,
    ensures
        properties_of(items).len() == items.len(),
        forall|i: int|
            0 <= i < items.len() ==> Some(#[trigger] properties_of(items)[i]) == property_of(
                items[i],
            ),
{
    assert(all_properties(items));
}

} // verus!
