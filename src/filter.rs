//! The storage-bound record of a small-molecule drug, and the path that builds
//! it from a raw record.

use vstd::prelude::*;
use vstd::string::*;
use crate::json::{
    field_or_null, json_views, resolve_shape, shape_seq, text_field, text_of, texts_of, Json,
    JsonValue,
};
use crate::model::{
    decode_properties, drugbank_of, properties_of, property_items, collection_views, property_views, Drugbank, DrugbankView, Properties, Property, PropertyView,
};

verus! {

/// The canonical record kept in the store for one small-molecule drug.
pub struct Filter {
    pub type_filed: String,
    pub drugbank_id: String,
    pub smiles: String,
    pub inchi: String,
    pub inchi_key: String,
    pub groups: Vec<String>,
    pub experimental_properties: Vec<Property>,
}

/// The model of a canonical record.
pub struct FilterView {
    pub type_filed: Seq<char>,
    pub drugbank_id: Seq<char>,
    pub smiles: Seq<char>,
    pub inchi: Seq<char>,
    pub inchi_key: Seq<char>,
    pub groups: Seq<Seq<char>>,
    pub experimental_properties: Seq<PropertyView>,
}

/// The texts of a sequence of strings.
pub open spec fn string_views(s: Seq<String>) -> Seq<Seq<char>> {
    Seq::new(s.len(), |i: int| s[i]@)
}

impl View for Filter {
    type V = FilterView;

    open spec fn view(&self) -> FilterView {
        FilterView {
            type_filed: self.type_filed@,
            drugbank_id: self.drugbank_id@,
            smiles: self.smiles@,
            inchi: self.inchi@,
            inchi_key: self.inchi_key@,
            groups: string_views(self.groups@),
            experimental_properties: property_views(self.experimental_properties@),
        }
    }
}

impl Filter {
    /// Builds a record from its fields.
    pub fn new(
        type_filed: String,
        smiles: String,
        drugbank_id: String,
        inchi: String,
        experimental_properties: Vec<Property>,
        inchi_key: String,
        groups: Vec<String>,
    ) -> (r: Filter)
        ensures
            r.type_filed == type_filed,
            r.smiles == smiles,
            r.drugbank_id == drugbank_id,
            r.inchi == inchi,
            r.experimental_properties == experimental_properties,
            r.inchi_key == inchi_key,
            r.groups == groups,
    {
        Filter {
            type_filed,
            drugbank_id,
            smiles,
            inchi,
            inchi_key,
            groups,
            experimental_properties,
        }
    }
}

/// A field of the canonical record that extraction can leave at its default
/// when the raw data has an unexpected shape or type.
#[derive(Debug, Clone, Copy, PartialEq, Eq)]
pub enum FilterField {
    DrugbankId,
    Smiles,
    InChI,
    InChIKey,
    Groups,
    ExperimentalProperties,
}

/// `field` once when `cond` holds, else nothing.
pub open spec fn flagged(cond: bool, field: FilterField) -> Seq<FilterField> {
    if cond {
        seq![field]
    } else {
        Seq::empty()
    }
}

/// Whether some item has "kind" equal to `kind`.
pub open spec fn kind_mentioned(items: Seq<Json>, kind: Seq<char>) -> bool {
    exists|i: int| 0 <= i < items.len() && #[trigger] text_field(items[i], "kind"@) == Some(kind)
}

/// Whether some property of kind `kind` has a string value.
pub open spec fn kind_found(props: Seq<PropertyView>, kind: Seq<char>) -> bool {
    exists|i: int|
        0 <= i < props.len() && (#[trigger] props[i]).kind == kind && text_of(props[i].value) is Some
}

/// Whether some item has a string under "#text".
pub open spec fn identifier_found(items: Seq<Json>) -> bool {
    exists|i: int| 0 <= i < items.len() && (#[trigger] text_field(items[i], "#text"@)) is Some
}

/// Whether the value of kind `kind` defaulted although the calculated
/// properties mention that kind: its values were not strings, or the
/// collection was malformed.
pub open spec fn kind_defaulted(record: Json, kind: Seq<char>) -> bool {
    let items = property_items(field_or_null(record, "calculated-properties"@));
    kind_mentioned(items, kind) && !kind_found(properties_of(items), kind)
}

/// The fields that defaulted because of a shape or type mismatch, in the
/// record's order:
/// - the identifier, when its field has elements but none has a string "#text";
/// - each chemical descriptor, as `kind_defaulted` says;
/// - the groups, when the field has elements but none is a string;
/// - the experimental properties, when the collection has elements but is
///   malformed.
///
/// A field that is simply missing, or present and empty, is no mismatch.
pub open spec fn defaulted_of(record: Json) -> Seq<FilterField> {
    let d = drugbank_of(record);
    let ids = shape_seq(d.drugbank_id);
    let groups = shape_seq(d.group);
    let exp = property_items(field_or_null(record, "experimental-properties"@));
    flagged(ids.len() > 0 && !identifier_found(ids), FilterField::DrugbankId) + flagged(
        kind_defaulted(record, "SMILES"@),
        FilterField::Smiles,
    ) + flagged(kind_defaulted(record, "InChI"@), FilterField::InChI) + flagged(
        kind_defaulted(record, "InChIKey"@),
        FilterField::InChIKey,
    ) + flagged(groups.len() > 0 && texts_of(groups).len() == 0, FilterField::Groups) + flagged(
        exp.len() > 0 && properties_of(exp).len() == 0,
        FilterField::ExperimentalProperties,
    )
}

/// Whether some item has "kind" equal to `kind`.
fn mentions_kind(items: &Vec<JsonValue>, kind: &str) -> (r: bool)
    ensures
        r == kind_mentioned(json_views(items@), kind@),
{
    let ghost views = json_views(items@);
    let wanted = String::from_str(kind);
    let mut i: usize = 0;
    while i < items.len()
        invariant
            i <= items@.len(),
            views == json_views(items@),
            wanted@ == kind@,
            forall|j: int| 0 <= j < i ==> #[trigger] text_field(views[j], "kind"@) != Some(kind@),
        decreases items@.len() - i,
    {
        assert(views[i as int] == items@[i as int]@);
        match items[i].field("kind").as_text() {
            Some(t) => {
                if t == wanted {
                    assert(text_field(views[i as int], "kind"@) == Some(kind@));
                    return true;
                }
            },
            None => {},
        }
        i = i + 1;
    }
    false
}

/// Whether some property of kind `kind` has a string value.
fn finds_kind(props: &Vec<Property>, kind: &str) -> (r: bool)
    ensures
        r == kind_found(property_views(props@), kind@),
{
    let ghost views = property_views(props@);
    let wanted = String::from_str(kind);
    let mut i: usize = 0;
    while i < props.len()
        invariant
            i <= props@.len(),
            views == property_views(props@),
            wanted@ == kind@,
            forall|j: int|
                0 <= j < i ==> !((#[trigger] views[j]).kind == kind@ && text_of(views[j].value) is Some),
        decreases props@.len() - i,
    {
        assert(views[i as int] == props@[i as int]@);
        if props[i].kind == wanted {
            match props[i].value.as_text() {
                Some(_) => {
                    return true;
                },
                None => {},
            }
        }
        i = i + 1;
    }
    false
}

/// Whether some item has a string under "#text".
fn finds_identifier(items: &Vec<JsonValue>) -> (r: bool)
    ensures
        r == identifier_found(json_views(items@)),
{
    let ghost views = json_views(items@);
    let mut i: usize = 0;
    while i < items.len()
        invariant
            i <= items@.len(),
            views == json_views(items@),
            forall|j: int| 0 <= j < i ==> (#[trigger] text_field(views[j], "#text"@)) is None,
        decreases items@.len() - i,
    {
        assert(views[i as int] == items@[i as int]@);
        match items[i].field("#text").as_text() {
            Some(_) => {
                assert(text_field(views[i as int], "#text"@) is Some);
                return true;
            },
            None => {},
        }
        i = i + 1;
    }
    false
}

/// The fields of a raw record that extraction leaves at their default because
/// of a shape or type mismatch, so that a caller can count data-quality
/// problems without failing the record.
pub fn defaulted_fields(record: &JsonValue) -> (r: Vec<FilterField>)
    ensures
        r@ == defaulted_of(record@),
{
    let calculated = record.field("calculated-properties");
    let calc_items = resolve_shape(calculated.field("property").deep_copy());
    let calc = decode_properties(calculated);
    let ids = resolve_shape(record.field("drugbank-id").deep_copy());
    let group = record.field("groups").field("group");
    let group_items = resolve_shape(group.deep_copy());
    let groups = resolve_groups(group);
    let experimental = record.field("experimental-properties");
    let exp_items = resolve_shape(experimental.field("property").deep_copy());
    let exp = decode_properties(experimental);
    proof {
        assert(groups@.len() == string_views(groups@).len());
        assert(exp@.len() == property_views(exp@).len());
        assert(ids@.len() == json_views(ids@).len());
        assert(group_items@.len() == json_views(group_items@).len());
        assert(exp_items@.len() == json_views(exp_items@).len());
    }
    let mut r: Vec<FilterField> = Vec::new();
    if ids.len() > 0 && !finds_identifier(&ids) {
        r.push(FilterField::DrugbankId);
    }
    let ghost r0 = r@;
    if mentions_kind(&calc_items, "SMILES") && !finds_kind(&calc, "SMILES") {
        r.push(FilterField::Smiles);
    }
    let ghost r1 = r@;
    if mentions_kind(&calc_items, "InChI") && !finds_kind(&calc, "InChI") {
        r.push(FilterField::InChI);
    }
    let ghost r2 = r@;
    if mentions_kind(&calc_items, "InChIKey") && !finds_kind(&calc, "InChIKey") {
        r.push(FilterField::InChIKey);
    }
    let ghost r3 = r@;
    if group_items.len() > 0 && groups.len() == 0 {
        r.push(FilterField::Groups);
    }
    let ghost r4 = r@;
    if exp_items.len() > 0 && exp.len() == 0 {
        r.push(FilterField::ExperimentalProperties);
    }
    proof {
        let d = drugbank_of(record@);
        assert(r0 =~= flagged(
            shape_seq(d.drugbank_id).len() > 0 && !identifier_found(shape_seq(d.drugbank_id)),
            FilterField::DrugbankId,
        ));
        assert(r1 =~= r0 + flagged(kind_defaulted(record@, "SMILES"@), FilterField::Smiles));
        assert(r2 =~= r1 + flagged(kind_defaulted(record@, "InChI"@), FilterField::InChI));
        assert(r3 =~= r2 + flagged(kind_defaulted(record@, "InChIKey"@), FilterField::InChIKey));
        assert(r4 =~= r3 + flagged(
            shape_seq(d.group).len() > 0 && texts_of(shape_seq(d.group)).len() == 0,
            FilterField::Groups,
        ));
        assert(r@ =~= defaulted_of(record@));
    }
    r
}

/// The record type that qualifies for storage.
pub open spec fn small_molecule() -> Seq<char> {
    "small molecule"@
}

/// The string value of the last property of kind `kind` whose value is a
/// string; empty when there is none. Later entries win over earlier ones.
pub open spec fn last_value_of_kind(props: Seq<PropertyView>, kind: Seq<char>) -> Seq<char>
    decreases props.len(),
{
    if props.len() == 0 {
        Seq::empty()
    } else {
        let p = props.last();
        if p.kind == kind && text_of(p.value) is Some {
            text_of(p.value).unwrap()
        } else {
            last_value_of_kind(props.drop_last(), kind)
        }
    }
}

/// The text under "#text" of the last element that has one as a string;
/// empty when none does. Later elements win over earlier ones.
pub open spec fn identifier_of(items: Seq<Json>) -> Seq<char>
    decreases items.len(),
{
    if items.len() == 0 {
        Seq::empty()
    } else {
        match text_field(items.last(), "#text"@) {
            Some(t) => t,
            None => identifier_of(items.drop_last()),
        }
    }
}

/// The canonical record that a raw record yields.
pub open spec fn filter_of(d: DrugbankView) -> FilterView {
    FilterView {
        type_filed: d.type_field,
        drugbank_id: identifier_of(shape_seq(d.drugbank_id)),
        smiles: last_value_of_kind(d.calculated, "SMILES"@),
        inchi: last_value_of_kind(d.calculated, "InChI"@),
        inchi_key: last_value_of_kind(d.calculated, "InChIKey"@),
        groups: texts_of(shape_seq(d.group)),
        experimental_properties: d.experimental,
    }
}

/// The value of the last property of kind `kind` whose value is a string;
/// empty when there is none.
pub fn last_value(props: &Vec<Property>, kind: &str) -> (r: String)
    ensures
        r@ == last_value_of_kind(property_views(props@), kind@),
{
    let ghost views = property_views(props@);
    let wanted = String::from_str(kind);
    let mut r = String::new();
    let mut i: usize = 0;
    while i < props.len()
        invariant
            i <= props@.len(),
            views == property_views(props@),
            wanted@ == kind@,
            r@ == last_value_of_kind(views.subrange(0, i as int), kind@),
        decreases props@.len() - i,
    {
        assert(views.subrange(0, i + 1).drop_last() =~= views.subrange(0, i as int));
        assert(views.subrange(0, i + 1).last() == props@[i as int]@);
        if props[i].kind == wanted {
            match props[i].value.as_text() {
                Some(t) => {
                    r = t;
                },
                None => {},
            }
        }
        i = i + 1;
    }
    assert(views.subrange(0, props@.len() as int) =~= views);
    r
}

/// Resolves the identifier field: the "#text" string of the last element that
/// has one; empty when none does (a bare string is no such element).
pub fn resolve_identifier(id: &JsonValue) -> (r: String)
    ensures
        r@ == identifier_of(shape_seq(id@)),
{
    let items = resolve_shape(id.deep_copy());
    let ghost views = json_views(items@);
    let mut r = String::new();
    let mut i: usize = 0;
    while i < items.len()
        invariant
            i <= items@.len(),
            views == json_views(items@),
            r@ == identifier_of(views.subrange(0, i as int)),
        decreases items@.len() - i,
    {
        assert(views.subrange(0, i + 1).drop_last() =~= views.subrange(0, i as int));
        assert(views.subrange(0, i + 1).last() == items@[i as int]@);
        match items[i].field("#text").as_text() {
            Some(t) => {
                r = t;
            },
            None => {},
        }
        i = i + 1;
    }
    assert(views.subrange(0, items@.len() as int) =~= views);
    r
}

/// Resolves the group field: a single name becomes a list of one, a list is
/// kept in order; elements that are not strings are left out.
pub fn resolve_groups(group: &JsonValue) -> (r: Vec<String>)
    ensures
        string_views(r@) == texts_of(shape_seq(group@)),
{
    let items = resolve_shape(group.deep_copy());
    let ghost views = json_views(items@);
    let mut r: Vec<String> = Vec::new();
    let mut i: usize = 0;
    while i < items.len()
        invariant
            i <= items@.len(),
            views == json_views(items@),
            string_views(r@) == texts_of(views.subrange(0, i as int)),
        decreases items@.len() - i,
    {
        let ghost before = r@;
        assert(views.subrange(0, i + 1).drop_last() =~= views.subrange(0, i as int));
        assert(views.subrange(0, i + 1).last() == items@[i as int]@);
        match items[i].as_text() {
            Some(t) => {
                r.push(t);
                assert(string_views(r@) =~= string_views(before).push(r@.last()@));
            },
            None => {},
        }
        i = i + 1;
    }
    assert(views.subrange(0, items@.len() as int) =~= views);
    r
}

/// The properties of a collection that may be missing, as a list.
fn properties_list(c: Option<Properties>) -> (r: Vec<Property>)
    ensures
        property_views(r@) == collection_views(c),
{
    match c {
        Some(p) => p.into_vec(),
        None => {
            let r: Vec<Property> = Vec::new();
            assert(property_views(r@) =~= collection_views(c));
            r
        },
    }
}

/// Normalizes one raw record along the storage path: a record of type
/// "small molecule" yields its canonical record, any other yields nothing.
pub fn get_drug(v: Drugbank) -> (r: Option<Filter>)
    ensures
        r is Some <==> v@.type_field == small_molecule(),
        r matches Some(f) ==> f@ == filter_of(v@),
{
    let ghost record = v@;
    let wanted = String::from_str("small molecule");
    if !(v.type_field == wanted) {
        return None;
    }
    let calculated = properties_list(v.calculated_properties);
    let smiles = last_value(&calculated, "SMILES");
    let inchi = last_value(&calculated, "InChI");
    let inchi_key = last_value(&calculated, "InChIKey");
    let experimental_properties = properties_list(v.experimental_properties);
    let drugbank_id = resolve_identifier(&v.drugbank_id);
    let groups = resolve_groups(&v.groups.group);
    Some(
        Filter::new(
            v.type_field,
            smiles,
            drugbank_id,
            inchi,
            experimental_properties,
            inchi_key,
            groups,
        ),
    )
}

/// Normalizes one raw JSON record along the storage path, and reports
/// alongside the canonical record the fields that defaulted because of a
/// shape or type mismatch. Records of other types yield nothing.
pub fn normalize(record: &JsonValue) -> (r: Option<(Filter, Vec<FilterField>)>)
    ensures
        r is Some <==> drugbank_of(record@).type_field == small_molecule(),
        r matches Some((f, d)) ==> f@ == filter_of(drugbank_of(record@)) && d@ == defaulted_of(
            record@,
        ),
{
    match get_drug(Drugbank::from_json(record)) {
        Some(f) => Some((f, defaulted_fields(record))),
        None => None,
    }
}

/// Last wins: when property `x` has kind `kind` and a string value, and no
/// property after it has that kind with a string value, the value extracted
/// for `kind` is that of `x`, whatever came before it.
pub proof fn lemma_last_value_wins(
    before: Seq<PropertyView>,
    x: PropertyView,
    after: Seq<PropertyView>,
    kind: Seq<char>,
)
    requires
        x.kind == kind,
        text_of(x.value) is Some,
        forall|i: int|
            0 <= i < after.len() ==> !((#[trigger] after[i]).kind == kind && text_of(
                after[i].value,
            ) is Some),
    ensures
        last_value_of_kind(before.push(x) + after, kind) == text_of(x.value).unwrap(),
    decreases after.len(),
{
    if after.len() == 0 {
        assert(before.push(x) + after =~= before.push(x));
        assert(before.push(x).drop_last() =~= before);
    } else {
        let init = after.drop_last();
        assert forall|i: int| 0 <= i < init.len() implies !((#[trigger] init[i]).kind == kind
            && text_of(init[i].value) is Some) by {
            assert(init[i] == after[i]);
        }
        lemma_last_value_wins(before, x, init, kind);
        let all = before.push(x) + after;
        assert(all.drop_last() =~= before.push(x) + init);
        assert(all.last() == after[after.len() - 1]);
    }
}

/// A bare group name resolves to a list of that one name; a list of names
/// resolves to the same names, in order, duplicates kept.
pub proof fn lemma_groups_of_strings(items: Seq<Json>)
    requires
        forall|i: int| 0 <= i < items.len() ==> (#[trigger] items[i]) is Str,
    ensures
        texts_of(items).len() == items.len(),
        forall|i: int|
            0 <= i < items.len() ==> Some(#[trigger] texts_of(items)[i]) == text_of(items[i]),
        forall|t: Seq<char>| #[trigger] texts_of(shape_seq(Json::Str(t))) == seq![t],
    decreases items.len(),
{
    assert forall|t: Seq<char>| #[trigger] texts_of(shape_seq(Json::Str(t))) == seq![t] by {
        let one = seq![Json::Str(t)];
        assert(one.drop_last() =~= Seq::<Json>::empty());
        assert(texts_of(one.drop_last()) == Seq::<Seq<char>>::empty());
        assert(Seq::<Seq<char>>::empty().push(t) =~= seq![t]);
    }
    if items.len() > 0 {
        let init = items.drop_last();
        assert forall|i: int| 0 <= i < init.len() implies (#[trigger] init[i]) is Str by {
            assert(init[i] == items[i]);
        }
        lemma_groups_of_strings(init);
        assert forall|i: int| 0 <= i < items.len() implies Some(#[trigger] texts_of(items)[i])
            == text_of(items[i]) by {
            if i < init.len() {
                assert(init[i] == items[i]);
            }
        }
    }
}

} // verus!
