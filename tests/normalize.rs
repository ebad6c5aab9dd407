use drugbank::db::{Db, SaveStep};
use drugbank::filter::{
    defaulted_fields, get_drug, last_value, normalize, resolve_groups, resolve_identifier, FilterField,
};
use drugbank::filter_target::{
    gene_names, join_genes, strip_line_breaks, Drug, DrugCsv, PolypeptideOrVec, Target, Targets,
};
use drugbank::json::{resolve_shape, JsonValue};
use drugbank::model::{decode_properties, Drugbank, Properties, Property, PropertyEnum};
use drugbank::shell::Shell;

fn s(t: &str) -> JsonValue {
    JsonValue::Str(t.to_string())
}

fn num(t: &str) -> JsonValue {
    JsonValue::Number(t.to_string())
}

fn obj(entries: Vec<(&str, JsonValue)>) -> JsonValue {
    JsonValue::Object(entries.into_iter().map(|(k, v)| (k.to_string(), v)).collect())
}

fn arr(items: Vec<JsonValue>) -> JsonValue {
    JsonValue::Array(items)
}

fn prop(kind: &str, value: JsonValue) -> JsonValue {
    obj(vec![("kind", s(kind)), ("value", value), ("source", s("ChemAxon"))])
}

fn get_drug_json(v: &JsonValue) -> Option<drugbank::filter::Filter> {
    get_drug(Drugbank::from_json(v))
}

fn text(v: &JsonValue) -> Option<String> {
    v.as_text()
}

fn record(kind: &str) -> JsonValue {
    obj(vec![
        ("@type", s(kind)),
        ("@created", s("2005-06-13")),
        (
            "drugbank-id",
            arr(vec![
                obj(vec![("#text", s("DB001")), ("@primary", JsonValue::Bool(true))]),
                s("BTD00054"),
            ]),
        ),
        (
            "calculated-properties",
            obj(vec![(
                "property",
                arr(vec![
                    prop("logP", num("1.5")),
                    prop("SMILES", s("CCO")),
                    prop("InChI", s("InChI=1S/C2H6O")),
                    prop("InChIKey", s("LFQSCWFLJHTTHZ-UHFFFAOYSA-N")),
                ]),
            )]),
        ),
        (
            "experimental-properties",
            obj(vec![("property", prop("melting point", s("-114 oC")))]),
        ),
        ("groups", obj(vec![("group", arr(vec![s("approved"), s("investigational")]))])),
    ])
}

#[test]
fn shape_absent_is_empty() {
    assert!(resolve_shape(JsonValue::Null).is_empty());
}

#[test]
fn shape_bare_object_equals_one_element_array() {
    let bare = resolve_shape(obj(vec![("a", s("x"))]));
    let wrapped = resolve_shape(arr(vec![obj(vec![("a", s("x"))])]));
    assert_eq!(bare.len(), 1);
    assert_eq!(wrapped.len(), 1);
    assert_eq!(text(bare[0].field("a")), Some("x".to_string()));
    assert_eq!(text(wrapped[0].field("a")), Some("x".to_string()));
}

#[test]
fn shape_array_passes_through() {
    let r = resolve_shape(arr(vec![s("a"), s("b"), s("a")]));
    let texts: Vec<Option<String>> = r.iter().map(text).collect();
    assert_eq!(texts, vec![Some("a".to_string()), Some("b".to_string()), Some("a".to_string())]);
}

#[test]
fn field_lookup_takes_first_and_defaults_to_null() {
    let v = obj(vec![("k", s("one")), ("k", s("two"))]);
    assert_eq!(text(v.field("k")), Some("one".to_string()));
    assert!(v.get("missing").is_none());
    assert!(matches!(v.field("missing"), JsonValue::Null));
    assert!(s("x").get("k").is_none());
}

#[test]
fn small_molecule_yields_record() {
    let f = get_drug_json(&record("small molecule")).expect("a record");
    assert_eq!(f.type_filed, "small molecule");
    assert_eq!(f.drugbank_id, "DB001");
    assert_eq!(f.smiles, "CCO");
    assert_eq!(f.inchi, "InChI=1S/C2H6O");
    assert_eq!(f.inchi_key, "LFQSCWFLJHTTHZ-UHFFFAOYSA-N");
    assert_eq!(f.groups, vec!["approved".to_string(), "investigational".to_string()]);
    assert_eq!(f.experimental_properties.len(), 1);
    assert_eq!(f.experimental_properties[0].kind, "melting point");
    assert_eq!(text(&f.experimental_properties[0].value), Some("-114 oC".to_string()));
    assert_eq!(text(&f.experimental_properties[0].source), Some("ChemAxon".to_string()));
}

#[test]
fn other_record_types_yield_nothing() {
    assert!(get_drug_json(&record("biotech")).is_none());
    assert!(get_drug_json(&record("Small Molecule")).is_none());
    assert!(get_drug_json(&obj(vec![])).is_none());
    assert!(get_drug_json(&JsonValue::Null).is_none());
    assert!(get_drug_json(&obj(vec![("@type", num("1"))])).is_none());
}

#[test]
fn missing_fields_default_to_empty() {
    let f = get_drug_json(&obj(vec![("@type", s("small molecule"))])).expect("a record");
    assert_eq!(f.drugbank_id, "");
    assert_eq!(f.smiles, "");
    assert_eq!(f.inchi, "");
    assert_eq!(f.inchi_key, "");
    assert!(f.groups.is_empty());
    assert!(f.experimental_properties.is_empty());
}

#[test]
fn smiles_last_wins() {
    let calc = obj(vec![(
        "property",
        arr(vec![prop("SMILES", s("CCO")), prop("logP", num("2")), prop("SMILES", s("CCN"))]),
    )]);
    let props = decode_properties(&calc);
    assert_eq!(last_value(&props, "SMILES"), "CCN");
}

#[test]
fn non_string_value_keeps_earlier() {
    let calc = obj(vec![(
        "property",
        arr(vec![prop("SMILES", s("CCO")), prop("SMILES", num("5")), prop("smiles", s("X"))]),
    )]);
    let props = decode_properties(&calc);
    assert_eq!(last_value(&props, "SMILES"), "CCO");
    assert_eq!(last_value(&props, "InChI"), "");
}

#[test]
fn single_calculated_property_is_read() {
    let rec = obj(vec![
        ("@type", s("small molecule")),
        ("calculated-properties", obj(vec![("property", prop("SMILES", s("C")))])),
    ]);
    assert_eq!(get_drug_json(&rec).expect("a record").smiles, "C");
}

#[test]
fn experimental_properties_pass_through() {
    let coll = obj(vec![(
        "property",
        arr(vec![
            prop("logP", num("1.5")),
            prop("Water Solubility", s("1000 mg/mL")),
            prop("logP", num("0.3")),
        ]),
    )]);
    let props = decode_properties(&coll);
    let kinds: Vec<&str> = props.iter().map(|p| p.kind.as_str()).collect();
    assert_eq!(kinds, vec!["logP", "Water Solubility", "logP"]);
    assert!(matches!(&props[0].value, JsonValue::Number(n) if n == "1.5"));
    assert!(matches!(&props[2].value, JsonValue::Number(n) if n == "0.3"));
}

#[test]
fn malformed_property_collection_is_empty() {
    let coll = obj(vec![("property", arr(vec![s("junk"), prop("a", s("b"))]))]);
    assert!(decode_properties(&coll).is_empty());
    let coll = obj(vec![("property", arr(vec![obj(vec![("value", s("x"))]), prop("a", s("b"))]))]);
    assert!(decode_properties(&coll).is_empty());
    let p = Property::from_json(&obj(vec![("kind", s("k"))])).expect("a property");
    assert!(matches!(p.source, JsonValue::Null));
    assert!(matches!(p.value, JsonValue::Null));
}

#[test]
fn property_enum_single_becomes_list_of_one() {
    let p = Property { kind: "SMILES".to_string(), source: JsonValue::Null, value: s("C") };
    let v = PropertyEnum::OO(p).into_vec();
    assert_eq!(v.len(), 1);
    assert_eq!(v[0].kind, "SMILES");
}

#[test]
fn gene_name_join() {
    let rec = obj(vec![(
        "targets",
        obj(vec![(
            "target",
            arr(vec![
                obj(vec![("polypeptide", obj(vec![("gene-name", s("ABC1"))]))]),
                obj(vec![(
                    "polypeptide",
                    arr(vec![obj(vec![("gene-name", s("DEF2"))]), obj(vec![("gene-name", num("5"))])]),
                )]),
            ]),
        )]),
    )]);
    assert_eq!(DrugCsv::from_json(&rec).gene, "ABC1|DEF2");
}

#[test]
fn gene_names_keep_duplicates_and_order() {
    let rec = obj(vec![(
        "targets",
        obj(vec![(
            "target",
            obj(vec![(
                "polypeptide",
                arr(vec![
                    obj(vec![("gene-name", s("B"))]),
                    obj(vec![("gene-name", obj(vec![]))]),
                    obj(vec![("gene-name", s("A"))]),
                    obj(vec![("gene-name", s("B"))]),
                ]),
            )]),
        )]),
    )]);
    assert_eq!(gene_names(&Drug::from_json(&rec)), vec!["B".to_string(), "A".to_string(), "B".to_string()]);
    assert_eq!(DrugCsv::from_json(&rec).gene, "B|A|B");
}

#[test]
fn flat_targets_map_has_no_genes() {
    let rec = obj(vec![("name", s("Water")), ("targets", obj(vec![("note", s("none"))]))]);
    let csv = DrugCsv::from_json(&rec);
    assert_eq!(csv.name, "Water");
    assert_eq!(csv.gene, "");
    assert_eq!(csv.toxicity, "");
}

#[test]
fn target_without_polypeptide_has_no_genes() {
    let rec = obj(vec![(
        "targets",
        obj(vec![("target", arr(vec![obj(vec![("polypeptide", JsonValue::Null)]), obj(vec![])]))]),
    )]);
    assert!(gene_names(&Drug::from_json(&rec)).is_empty());
}

#[test]
fn join_genes_exact() {
    assert_eq!(join_genes(&vec![]), "");
    assert_eq!(join_genes(&vec!["X".to_string()]), "X");
    assert_eq!(join_genes(&vec!["X".to_string(), "".to_string(), "Y".to_string()]), "X||Y");
}

#[test]
fn toxicity_line_breaks_removed() {
    assert_eq!(strip_line_breaks("a\r\nb\nc"), "abc");
    assert_eq!(strip_line_breaks("a\rb"), "ab");
    assert_eq!(strip_line_breaks(""), "");
    assert_eq!(strip_line_breaks("LD50 (oral, rat): 7060 mg/kg"), "LD50 (oral, rat): 7060 mg/kg");
    let rec = obj(vec![("name", s("Ethanol")), ("toxicity", s("a\r\nb\nc"))]);
    assert_eq!(DrugCsv::from_json(&rec).toxicity, "abc");
    let rec = obj(vec![("toxicity", num("3"))]);
    let csv = DrugCsv::from_json(&rec);
    assert_eq!(csv.toxicity, "");
    assert_eq!(csv.name, "");
}

#[test]
fn groups_scalar_and_array() {
    assert_eq!(resolve_groups(&s("approved")), vec!["approved".to_string()]);
    assert_eq!(
        resolve_groups(&arr(vec![s("approved"), s("investigational")])),
        vec!["approved".to_string(), "investigational".to_string()]
    );
    assert_eq!(
        resolve_groups(&arr(vec![s("approved"), num("1"), s("approved")])),
        vec!["approved".to_string(), "approved".to_string()]
    );
    assert!(resolve_groups(&JsonValue::Null).is_empty());
    assert!(resolve_groups(&obj(vec![])).is_empty());
}

#[test]
fn identifier_last_wins() {
    let ids = arr(vec![
        obj(vec![("#text", s("DB001")), ("@primary", JsonValue::Bool(true))]),
        obj(vec![("#text", s("DB002")), ("@primary", JsonValue::Bool(false))]),
    ]);
    assert_eq!(resolve_identifier(&ids), "DB002");
}

#[test]
fn identifier_shapes() {
    assert_eq!(resolve_identifier(&obj(vec![("#text", s("DB00316"))])), "DB00316");
    assert_eq!(resolve_identifier(&s("DB00316")), "");
    assert_eq!(resolve_identifier(&JsonValue::Null), "");
    assert_eq!(
        resolve_identifier(&arr(vec![obj(vec![("#text", s("DB1"))]), s("APRD"), obj(vec![("#text", num("7"))])])),
        "DB1"
    );
}

#[test]
fn save_step_by_presence() {
    assert_eq!(Db::save_step(true), SaveStep::Update);
    assert_eq!(Db::save_step(false), SaveStep::Insert);
    assert!(Db::save_step(false).sets_create_time());
    assert!(!Db::save_step(true).sets_create_time());
}

#[test]
fn shell_paths_and_outcome() {
    let shell = Shell::new(".");
    assert_eq!(shell.current_dir, ".");
    assert_eq!(shell.path, "/tmp");
    assert_eq!(shell.script_path("abc"), "/tmp/abc.sh");
    assert_eq!(Shell::outcome(0, "out".to_string(), "err".to_string()), Ok("out".to_string()));
    assert_eq!(Shell::outcome(2, "out".to_string(), "err".to_string()), Err("err".to_string()));
}

#[test]
fn polypeptide_shapes() {
    assert!(PolypeptideOrVec::from_json(&JsonValue::Null).is_none());
    match PolypeptideOrVec::from_json(&obj(vec![("gene-name", s("G"))])) {
        Some(PolypeptideOrVec::One(p)) => assert_eq!(text(&p.gene_name), Some("G".to_string())),
        _ => panic!("expected one polypeptide"),
    }
    match PolypeptideOrVec::from_json(&arr(vec![obj(vec![("gene-name", s("G"))]), obj(vec![])])) {
        Some(PolypeptideOrVec::Many(v)) => {
            assert_eq!(v.len(), 2);
            assert!(matches!(v[1].gene_name, JsonValue::Null));
        }
        _ => panic!("expected a list of polypeptides"),
    }
}

#[test]
fn targets_shapes() {
    let one = Targets::from_json(&obj(vec![("target", obj(vec![]))]));
    assert_eq!(one.target.len(), 1);
    let many = Targets::from_json(&obj(vec![("target", arr(vec![obj(vec![]), obj(vec![]), obj(vec![])]))]));
    assert_eq!(many.target.len(), 3);
    let flat = Targets::from_json(&obj(vec![("#text", s(""))]));
    assert!(flat.target.is_empty());
    let t = Target::from_json(&obj(vec![("polypeptide", obj(vec![("gene-name", s("X"))]))]));
    let mut out = vec!["A".to_string()];
    t.push_gene_names(&mut out);
    assert_eq!(out, vec!["A".to_string(), "X".to_string()]);
}

#[test]
fn drug_csv_from_typed_drug() {
    let rec = obj(vec![
        ("name", s("Lepirudin")),
        ("toxicity", s("line one\nline two")),
        ("targets", obj(vec![("target", obj(vec![("polypeptide", obj(vec![("gene-name", s("F2"))]))]))])),
    ]);
    let drug = Drug::from_json(&rec);
    assert_eq!(drug.name, "Lepirudin");
    let csv = DrugCsv::from_drug(&drug);
    assert_eq!(csv.name, "Lepirudin");
    assert_eq!(csv.gene, "F2");
    assert_eq!(csv.toxicity, "line oneline two");
}

#[test]
fn drugbank_record_fields() {
    let d = Drugbank::from_json(&record("small molecule"));
    assert_eq!(d.type_field, "small molecule");
    assert_eq!(d.created, "2005-06-13");
    assert_eq!(d.calculated_properties.expect("present").into_vec().len(), 4);
    let bare = Drugbank::from_json(&obj(vec![]));
    assert_eq!(bare.type_field, "");
    assert!(bare.calculated_properties.is_none());
    assert!(bare.experimental_properties.is_none());
    assert!(matches!(bare.drugbank_id, JsonValue::Null));
}

#[test]
fn properties_single_and_missing() {
    let one = Properties::from_json(&obj(vec![("property", prop("SMILES", s("C")))]));
    assert!(matches!(one.property, Some(PropertyEnum::OO(_))));
    let none = Properties::from_json(&obj(vec![]));
    assert!(none.property.is_none());
    let junk = Properties::from_json(&obj(vec![("property", num("3"))]));
    assert!(junk.into_vec().is_empty());
}

#[test]
fn defaulted_fields_reported() {
    let missing = obj(vec![("@type", s("small molecule"))]);
    let (_, defaulted) = normalize(&missing).expect("a record");
    assert!(defaulted.is_empty());
    let full = normalize(&record("small molecule")).expect("a record");
    assert!(full.1.is_empty());
    let empty_values = obj(vec![
        ("@type", s("small molecule")),
        ("calculated-properties", obj(vec![("property", prop("SMILES", s("")))])),
        ("groups", obj(vec![("group", arr(vec![]))])),
    ]);
    assert!(defaulted_fields(&empty_values).is_empty());
    let mistyped = obj(vec![
        ("@type", s("small molecule")),
        ("drugbank-id", s("DB00316")),
        (
            "calculated-properties",
            obj(vec![("property", arr(vec![prop("SMILES", num("5")), prop("InChI", s("I"))]))]),
        ),
        ("experimental-properties", obj(vec![("property", arr(vec![num("1")]))])),
        ("groups", obj(vec![("group", num("7"))])),
    ]);
    let (f, defaulted) = normalize(&mistyped).expect("a record");
    assert_eq!(f.inchi, "I");
    assert_eq!(
        defaulted,
        vec![FilterField::DrugbankId, FilterField::Smiles, FilterField::Groups, FilterField::ExperimentalProperties]
    );
    let broken = obj(vec![
        ("@type", s("small molecule")),
        ("calculated-properties", obj(vec![("property", arr(vec![prop("InChIKey", s("K")), s("junk")]))])),
    ]);
    assert_eq!(defaulted_fields(&broken), vec![FilterField::InChIKey]);
    assert!(normalize(&record("biotech")).is_none());
}

#[test]
fn flat_targets_map_with_target_key_has_no_targets() {
    let flat = Targets::from_json(&obj(vec![("target", s("v"))]));
    assert!(flat.target.is_empty());
    let mixed = Targets::from_json(&obj(vec![("target", arr(vec![s("v"), obj(vec![]), num("1")]))]));
    assert_eq!(mixed.target.len(), 1);
    let rec = obj(vec![("name", s("N")), ("targets", obj(vec![("target", s("v"))]))]);
    assert!(Drug::from_json(&rec).targets.target.is_empty());
}

#[test]
fn test_get_drug() {
    let f = get_drug(Drugbank::from_json(&record("small molecule"))).expect("a record");
    assert_eq!(f.drugbank_id, "DB001");
    assert_eq!(f.smiles, "CCO");
    assert_eq!(f.groups, vec!["approved".to_string(), "investigational".to_string()]);
    assert!(get_drug(Drugbank::from_json(&record("biotech"))).is_none());
}

#[test]
fn test_read_file() {
    let rec = obj(vec![
        ("name", s("Lepirudin")),
        ("toxicity", s("Bleeding.\r\nRare.")),
        (
            "targets",
            obj(vec![(
                "target",
                arr(vec![
                    obj(vec![("polypeptide", obj(vec![("gene-name", s("F2"))]))]),
                    obj(vec![("polypeptide", arr(vec![obj(vec![("gene-name", s("F10"))]), obj(vec![("gene-name", s("F2"))])]))]),
                ]),
            )]),
        ),
    ]);
    let csv = DrugCsv::from_json(&rec);
    assert_eq!(csv.name, "Lepirudin");
    assert_eq!(csv.gene, "F2|F10|F2");
    assert_eq!(csv.toxicity, "Bleeding.Rare.");
}
