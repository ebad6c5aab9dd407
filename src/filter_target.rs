//! The export-bound record of a drug: its name, the gene names of its targets
//! and its toxicity text.

use vstd::prelude::*;
use vstd::string::*;
use crate::filter::string_views;
use crate::model::text_or_empty;
use crate::json::{
    field_or_null, json_model, json_views, resolve_shape, shape_seq, text_field, text_of, texts_of, Json,
    JsonValue,
};

verus! {

/// The record written out for one drug: its name, its gene names joined by
/// `|`, and its toxicity text without line breaks.
pub struct DrugCsv {
    pub name: String,
    pub gene: String,
    pub toxicity: String,
}

/// A polypeptide of a target; only its gene name is read.
pub struct Polypeptide {
    pub gene_name: JsonValue,
}

/// The polypeptides of a target: none, one, or a list of them.
pub enum PolypeptideOrVec {
    Absent,
    One(Polypeptide),
    Many(Vec<Polypeptide>),
}

/// One target of a drug.
pub struct Target {
    pub polypeptide: Option<PolypeptideOrVec>,
}

/// The targets of a drug.
pub struct Targets {
    pub target: Vec<Target>,
}

/// The part of a raw record that the export reads.
pub struct Drug {
    pub name: String,
    pub toxicity: JsonValue,
    pub targets: Targets,
}

/// The gene-name values of a target's polypeptides, in order.
pub open spec fn gene_values(p: Option<PolypeptideOrVec>) -> Seq<Json> {
    match p {
        Some(PolypeptideOrVec::One(x)) => seq![x.gene_name@],
        Some(PolypeptideOrVec::Many(v)) => Seq::new(v@.len(), |i: int| v@[i].gene_name@),
        _ => Seq::empty(),
    }
}

impl View for Target {
    type V = Seq<Json>;

    open spec fn view(&self) -> Seq<Json> {
        gene_values(self.polypeptide)
    }
}

/// The model of a drug as the export reads it: its name, its toxicity value,
/// and for each target the gene-name values of its polypeptides.
pub struct DrugView {
    pub name: Seq<char>,
    pub toxicity: Json,
    pub targets: Seq<Seq<Json>>,
}

/// The models of a sequence of targets.
pub open spec fn target_views(ts: Seq<Target>) -> Seq<Seq<Json>> {
    Seq::new(ts.len(), |i: int| ts[i]@)
}

impl View for Drug {
    type V = DrugView;

    open spec fn view(&self) -> DrugView {
        DrugView {
            name: self.name@,
            toxicity: self.toxicity@,
            targets: target_views(self.targets.target@),
        }
    }
}

/// The "gene-name" value of each polypeptide, a missing one read as null.
pub open spec fn gene_name_values(polypeptides: Seq<Json>) -> Seq<Json> {
    Seq::new(polypeptides.len(), |i: int| field_or_null(polypeptides[i], "gene-name"@))
}

/// The gene-name values of one target's polypeptides, resolved by the shape
/// rule.
pub open spec fn target_of(target: Json) -> Seq<Json> {
    gene_name_values(shape_seq(field_or_null(target, "polypeptide"@)))
}

/// The objects among `items`, in order.
pub open spec fn objects_of(items: Seq<Json>) -> Seq<Json>
    decreases items.len(),
{
    if items.len() == 0 {
        Seq::empty()
    } else if items.last() is Object {
        objects_of(items.drop_last()).push(items.last())
    } else {
        objects_of(items.drop_last())
    }
}

/// The targets of a "targets" section: the objects that its "target" field
/// holds, resolved by the shape rule. A flat map of strings holds none, with
/// or without a "target" key.
pub open spec fn section_targets(section: Json) -> Seq<Json> {
    objects_of(shape_seq(field_or_null(section, "target"@)))
}

/// The targets of a raw record: those of its "targets" section.
pub open spec fn targets_of(record: Json) -> Seq<Json> {
    section_targets(field_or_null(record, "targets"@))
}

/// The drug that a raw record stands for.
pub open spec fn drug_of(record: Json) -> DrugView {
    DrugView {
        name: text_or_empty(text_field(record, "name"@)),
        toxicity: field_or_null(record, "toxicity"@),
        targets: Seq::new(targets_of(record).len(), |i: int| target_of(targets_of(record)[i])),
    }
}

/// The string gene names of all targets, target by target, in order,
/// duplicates kept; gene names that are not strings are left out.
pub open spec fn genes_of(targets: Seq<Seq<Json>>) -> Seq<Seq<char>>
    decreases targets.len(),
{
    if targets.len() == 0 {
        Seq::empty()
    } else {
        genes_of(targets.drop_last()) + texts_of(targets.last())
    }
}

/// `s` without its carriage returns and line feeds.
pub open spec fn strip_breaks(s: Seq<char>) -> Seq<char>
    decreases s.len(),
{
    if s.len() == 0 {
        Seq::empty()
    } else {
        let rest = strip_breaks(s.drop_last());
        if s.last() == '\r' || s.last() == '\n' {
            rest
        } else {
            rest.push(s.last())
        }
    }
}

/// The names joined with `|` between each two.
pub open spec fn join_pipe(names: Seq<Seq<char>>) -> Seq<char>
    decreases names.len(),
{
    if names.len() == 0 {
        Seq::empty()
    } else if names.len() == 1 {
        names[0]
    } else {
        join_pipe(names.drop_last()) + seq!['|'] + names.last()
    }
}

/// Removes every carriage return and line feed from `s`.
pub fn strip_line_breaks(s: &str) -> (r: String)
    ensures
        r@ == strip_breaks(s@),
{
    let n = s.unicode_len();
    let mut r = String::new();
    let mut i: usize = 0;
    while i < n
        invariant
            n == s@.len(),
            i <= n,
            r@ == strip_breaks(s@.subrange(0, i as int)),
        decreases n - i,
    {
        assert(s@.subrange(0, i + 1).drop_last() =~= s@.subrange(0, i as int));
        let c = s.get_char(i);
        if c != '\r' && c != '\n' {
            let piece = s.substring_char(i, i + 1);
            assert(piece@ =~= seq![c]);
            r.append(piece);
        }
        i = i + 1;
    }
    assert(s@.subrange(0, n as int) =~= s@);
    r
}

/// Joins the names with `|` between each two.
pub fn join_genes(names: &Vec<String>) -> (r: String)
    ensures
        r@ == join_pipe(string_views(names@)),
{
    let ghost views = string_views(names@);
    let mut r = String::new();
    let mut i: usize = 0;
    while i < names.len()
        invariant
            i <= names@.len(),
            views == string_views(names@),
            r@ == join_pipe(views.subrange(0, i as int)),
        decreases names@.len() - i,
    {
        assert(views.subrange(0, i + 1).drop_last() =~= views.subrange(0, i as int));
        if i > 0 {
            r.append("|");
            proof {
                reveal_strlit("|");
            }
        } else {
            assert(views.subrange(0, 0) =~= Seq::<Seq<char>>::empty());
        }
        r.append(names[i].as_str());
        i = i + 1;
    }
    assert(views.subrange(0, names@.len() as int) =~= views);
    r
}

impl Polypeptide {
    /// Reads a polypeptide; a missing gene name reads as null.
    pub fn from_json(v: &JsonValue) -> (r: Polypeptide)
        ensures
            r.gene_name@ == field_or_null(v@, "gene-name"@),
    {
        Polypeptide { gene_name: v.field("gene-name").deep_copy() }
    }
}

impl PolypeptideOrVec {
    /// Reads the polypeptide field of a target by the shape rule: nothing for
    /// null, a list for an array, one polypeptide for anything else.
    pub fn from_json(v: &JsonValue) -> (r: Option<PolypeptideOrVec>)
        ensures
            gene_values(r) == gene_name_values(shape_seq(v@)),
    {
        match v {
            JsonValue::Null => {
                assert(gene_name_values(shape_seq(v@)) =~= Seq::<Json>::empty());
                None
            },
            JsonValue::Array(items) => {
                let mut out: Vec<Polypeptide> = Vec::new();
                let mut i: usize = 0;
                while i < items.len()
                    invariant
                        i <= items@.len(),
                        out@.len() == i,
                        forall|j: int|
                            0 <= j < i ==> (#[trigger] out@[j]).gene_name@ == field_or_null(
                                items@[j]@,
                                "gene-name"@,
                            ),
                    decreases items@.len() - i,
                {
                    out.push(Polypeptide::from_json(&items[i]));
                    i = i + 1;
                }
                let r = Some(PolypeptideOrVec::Many(out));
                proof {
                    let a = gene_values(r);
                    let b = gene_name_values(shape_seq(v@));
                    assert forall|j: int| 0 <= j < a.len() implies a[j] == b[j] by {
                        assert(out@[j].gene_name@ == field_or_null(items@[j]@, "gene-name"@));
                        assert(shape_seq(v@)[j] == json_model(items@[j]));
                    }
                    assert(a =~= b);
                }
                r
            },
            _ => {
                let r = Some(PolypeptideOrVec::One(Polypeptide::from_json(v)));
                assert(shape_seq(v@) == seq![v@]);
                assert(gene_values(r) =~= gene_name_values(shape_seq(v@)));
                r
            },
        }
    }
}

impl Target {
    /// Reads one target.
    pub fn from_json(v: &JsonValue) -> (r: Target)
        ensures
            r@ == target_of(v@),
    {
        Target { polypeptide: PolypeptideOrVec::from_json(v.field("polypeptide")) }
    }

    /// Appends the gene names of this target that are strings to `out`.
    pub fn push_gene_names(&self, out: &mut Vec<String>)
        ensures
            string_views(final(out)@) == string_views(old(out)@) + texts_of(self@),
    {
        let ghost start = string_views(out@);
        match &self.polypeptide {
            Some(PolypeptideOrVec::One(p)) => {
                let ghost one = seq![p.gene_name@];
                assert(one.drop_last() =~= Seq::<Json>::empty());
                assert(one.last() == p.gene_name@);
                assert(self@ == one);
                assert(texts_of(one.drop_last()) == Seq::<Seq<char>>::empty());
                match p.gene_name.as_text() {
                    Some(g) => {
                        assert(texts_of(one) == Seq::<Seq<char>>::empty().push(g@));
                        out.push(g);
                        assert(string_views(out@) =~= start + texts_of(self@));
                    },
                    None => {
                        assert(texts_of(one) == Seq::<Seq<char>>::empty());
                        assert(string_views(out@) =~= start + texts_of(self@));
                    },
                }
            },
            Some(PolypeptideOrVec::Many(v)) => {
                let ghost views = self@;
                let mut i: usize = 0;
                while i < v.len()
                    invariant
                        i <= v@.len(),
                        views == self@,
                        views == Seq::new(v@.len(), |k: int| v@[k].gene_name@),
                        string_views(out@) == start + texts_of(views.subrange(0, i as int)),
                    decreases v@.len() - i,
                {
                    let ghost before = out@;
                    assert(views.subrange(0, i + 1).drop_last() =~= views.subrange(0, i as int));
                    assert(views.subrange(0, i + 1).last() == v@[i as int].gene_name@);
                    match v[i].gene_name.as_text() {
                        Some(g) => {
                            out.push(g);
                            assert(string_views(out@) =~= string_views(before).push(out@.last()@));
                        },
                        None => {},
                    }
                    i = i + 1;
                }
                assert(views.subrange(0, v@.len() as int) =~= views);
            },
            _ => {
                assert(string_views(out@) =~= start + texts_of(self@));
            },
        }
    }
}

impl Targets {
    /// Reads the targets of a "targets" section: the objects under its
    /// "target" field, one or many. A section that is a flat map of strings
    /// (a string or no value under "target") has no targets.
    pub fn from_json(section: &JsonValue) -> (r: Targets)
        ensures
            target_views(r.target@) == Seq::new(
                section_targets(section@).len(),
                |i: int| target_of(section_targets(section@)[i]),
            ),
            field_or_null(section@, "target"@) !is Object && field_or_null(section@, "target"@)
                !is Array ==> r.target@.len() == 0,
    {
        let items = resolve_shape(section.field("target").deep_copy());
        let ghost views = json_views(items@);
        let mut out: Vec<Target> = Vec::new();
        let mut i: usize = 0;
        while i < items.len()
            invariant
                i <= items@.len(),
                views == json_views(items@),
                out@.len() == objects_of(views.subrange(0, i as int)).len(),
                forall|j: int|
                    0 <= j < out@.len() ==> (#[trigger] out@[j])@ == target_of(
                        objects_of(views.subrange(0, i as int))[j],
                    ),
            decreases items@.len() - i,
        {
            assert(views.subrange(0, i + 1).drop_last() =~= views.subrange(0, i as int));
            assert(views.subrange(0, i + 1).last() == items@[i as int]@);
            match &items[i] {
                JsonValue::Object(_) => {
                    out.push(Target::from_json(&items[i]));
                },
                _ => {},
            }
            i = i + 1;
        }
        assert(views.subrange(0, items@.len() as int) =~= views);
        let r = Targets { target: out };
        assert(target_views(r.target@) =~= Seq::new(
            section_targets(section@).len(),
            |i: int| target_of(section_targets(section@)[i]),
        ));
        proof {
            let f = field_or_null(section@, "target"@);
            if f !is Object && f !is Array {
                if f is Null {
                    assert(shape_seq(f) =~= Seq::<Json>::empty());
                } else {
                    assert(shape_seq(f) == seq![f]);
                    assert(seq![f].drop_last() =~= Seq::<Json>::empty());
                    assert(objects_of(seq![f].drop_last()) == Seq::<Json>::empty());
                    assert(seq![f].last() == f);
                }
                assert(section_targets(section@).len() == 0);
                assert(target_views(r.target@).len() == r.target@.len());
            }
        }
        r
    }
}

impl Drug {
    /// Reads the part of a raw record that the export needs; a missing name
    /// reads as empty, a missing toxicity as null.
    pub fn from_json(record: &JsonValue) -> (r: Drug)
        ensures
            r@ == drug_of(record@),
    {
        let name = match record.field("name").as_text() {
            Some(n) => n,
            None => String::new(),
        };
        let toxicity = record.field("toxicity").deep_copy();
        let targets = Targets::from_json(record.field("targets"));
        let r = Drug { name, toxicity, targets };
        assert(r@.targets =~= drug_of(record@).targets);
        r
    }
}

/// The string gene names of every target of a drug, in the order met,
/// duplicates kept.
pub fn gene_names(drug: &Drug) -> (r: Vec<String>)
    ensures
        string_views(r@) == genes_of(drug@.targets),
{
    let ghost views = drug@.targets;
    let targets = &drug.targets.target;
    let mut r: Vec<String> = Vec::new();
    let mut i: usize = 0;
    assert(string_views(r@) =~= Seq::<Seq<char>>::empty());
    while i < targets.len()
        invariant
            i <= targets@.len(),
            views == target_views(targets@),
            string_views(r@) == genes_of(views.subrange(0, i as int)),
        decreases targets@.len() - i,
    {
        assert(views.subrange(0, i + 1).drop_last() =~= views.subrange(0, i as int));
        assert(views.subrange(0, i + 1).last() == targets@[i as int]@);
        targets[i].push_gene_names(&mut r);
        i = i + 1;
    }
    assert(views.subrange(0, targets@.len() as int) =~= views);
    r
}

impl DrugCsv {
    /// Normalizes a drug for export: its name, its string gene names joined by
    /// `|`, and its toxicity text without line breaks (empty when the toxicity
    /// is not a string).
    pub fn from_drug(drug: &Drug) -> (r: DrugCsv)
        ensures
            r.name@ == drug@.name,
            r.gene@ == join_pipe(genes_of(drug@.targets)),
            r.toxicity@ == strip_breaks(text_or_empty(text_of(drug@.toxicity))),
    {
        let genes = gene_names(drug);
        let gene = join_genes(&genes);
        let toxicity = match drug.toxicity.as_text() {
            Some(t) => strip_line_breaks(t.as_str()),
            None => {
                assert(strip_breaks(Seq::<char>::empty()) == Seq::<char>::empty());
                String::new()
            },
        };
        DrugCsv { name: drug.name.clone(), gene, toxicity }
    }

    /// Normalizes one raw record along the export path.
    pub fn from_json(record: &JsonValue) -> (r: DrugCsv)
        ensures
            r.name@ == drug_of(record@).name,
            r.gene@ == join_pipe(genes_of(drug_of(record@).targets)),
            r.toxicity@ == strip_breaks(text_or_empty(text_of(drug_of(record@).toxicity))),
    {
        DrugCsv::from_drug(&Drug::from_json(record))
    }
}

} // verus!
