//! The static information as JSON. The JSON values are built and printed
//! by `serde_json`; what is proved here is which values are built from a
//! `ModuleInfo`.

use crate::ast::{Signature, ValType};
use crate::static_info::{BrTableInfo, BrTableView, FunctionInfo, ModuleInfo, ModuleInfoView};
use vstd::prelude::*;
use vstd::string::*;

verus! {

/// `serde_json::Value`, a JSON value. Nothing of its inside is known here.
#[verifier::external_type_specification]
#[verifier::external_body]
pub struct ExValue(serde_json::Value);

/// `serde_json::Error`, which `serde_json` returns where it fails.
#[verifier::external_type_specification]
#[verifier::external_body]
pub struct ExError(serde_json::Error);

/// The JSON number that `serde_json` makes of an unsigned integer.
pub uninterp spec fn json_number(n: u64) -> serde_json::Value;

/// The JSON string that `serde_json` makes of a text.
pub uninterp spec fn json_string(s: Seq<char>) -> serde_json::Value;

/// The JSON array that `serde_json` makes of a list of values.
pub uninterp spec fn json_array(items: Seq<serde_json::Value>) -> serde_json::Value;

/// The JSON object that `serde_json` makes of a list of keys with their
/// values.
pub uninterp spec fn json_object(fields: Seq<(Seq<char>, serde_json::Value)>) -> serde_json::Value;

/// What `serde_json` prints for a value, with line breaks and indentation:
/// the text, or `None` where it gives an error and no text.
pub uninterp spec fn json_pretty(v: serde_json::Value) -> Option<Seq<char>>;

/// `serde_json::Value::from` on a `u64`. The result depends on the number
/// alone.
#[verifier::external_body]
fn number_value(n: u64) -> (v: serde_json::Value)
    ensures
        v == json_number(n),
{
    serde_json::Value::from(n)
}

/// `serde_json::Value::from` on a `&str`. The result depends on the text
/// alone.
#[verifier::external_body]
fn string_value(s: &str) -> (v: serde_json::Value)
    ensures
        v == json_string(s@),
{
    serde_json::Value::from(s)
}

/// `serde_json::Value::from` on a vector of values. The result depends on
/// the values and their order alone.
#[verifier::external_body]
fn array_value(items: Vec<serde_json::Value>) -> (v: serde_json::Value)
    ensures
        v == json_array(items@),
{
    serde_json::Value::from(items)
}

/// The keys and values of the fields.
pub open spec fn field_views(fields: Seq<(String, serde_json::Value)>) -> Seq<
    (Seq<char>, serde_json::Value),
> {
    fields.map_values(|f: (String, serde_json::Value)| (f.0@, f.1))
}

/// `serde_json::Value::from_iter` on pairs of a key and a value, which
/// makes an object. The result depends on the keys, the values and their
/// order alone.
#[verifier::external_body]
fn object_value(fields: Vec<(String, serde_json::Value)>) -> (v: serde_json::Value)
    ensures
        v == json_object(field_views(fields@)),
{
    serde_json::Value::from_iter(fields)
}

/// `serde_json::to_string_pretty` on a value. It writes to memory and
/// reads nothing but the value, so whether it gives a text, and which,
/// depends on the value alone. Nothing is claimed of the values for which
/// it gives a text.
#[verifier::external_body]
fn pretty_text(v: &serde_json::Value) -> (r: Result<String, serde_json::Error>)
    ensures
        match r {
            Ok(text) => json_pretty(*v) == Some(text@),
            Err(_) => json_pretty(*v).is_none(),
        },
{
    serde_json::to_string_pretty(v)
}

/// The names of the types, as a JSON array of strings.
pub open spec fn types_json(tys: Seq<ValType>) -> serde_json::Value {
    json_array(tys.map_values(|ty: ValType| json_string(ty.name())))
}

/// The numbers as a JSON array.
pub open spec fn numbers_json(numbers: Seq<usize>) -> serde_json::Value {
    json_array(numbers.map_values(|n: usize| json_number(n as u64)))
}

/// A function type as the object `{"params": [..], "results": [..]}`.
pub open spec fn signature_json(sig: Signature) -> serde_json::Value {
    json_object(seq![("params"@, types_json(sig.params)), ("results"@, types_json(sig.results))])
}

/// A function as the object `{"type": ..}`.
pub open spec fn function_json(sig: Signature) -> serde_json::Value {
    json_object(seq![("type"@, signature_json(sig))])
}

/// The labels of a `br_table` as the object `{"table": [..], "default": ..}`.
pub open spec fn br_table_json(t: BrTableView) -> serde_json::Value {
    json_object(
        seq![("table"@, numbers_json(t.table)), ("default"@, json_number(t.default as u64))],
    )
}

/// The static information as the object
/// `{"functions": [..], "globals": [..], "brTables": [..]}`.
pub open spec fn module_info_json(info: ModuleInfoView) -> serde_json::Value {
    json_object(
        seq![
            ("functions"@, json_array(info.functions.map_values(|f: Signature| function_json(f)))),
            ("globals"@, types_json(info.globals)),
            ("brTables"@, json_array(info.br_tables.map_values(|t: BrTableView| br_table_json(t)))),
        ],
    )
}

fn types_value(tys: &Vec<ValType>) -> (v: serde_json::Value)
    ensures
        v == types_json(tys@),
{
    let mut items: Vec<serde_json::Value> = Vec::new();
    let mut i: usize = 0;
    while i < tys.len()
        invariant
            i <= tys.len(),
            items@.len() == i,
            forall|k: int| 0 <= k < i ==> items@[k] == json_string(tys@[k].name()),
        decreases tys.len() - i,
    {
        items.push(string_value(tys[i].to_str()));
        i += 1;
    }
    assert(items@ =~= tys@.map_values(|ty: ValType| json_string(ty.name())));
    array_value(items)
}

fn numbers_value(numbers: &Vec<usize>) -> (v: serde_json::Value)
    ensures
        v == numbers_json(numbers@),
{
    let mut items: Vec<serde_json::Value> = Vec::new();
    let mut i: usize = 0;
    while i < numbers.len()
        invariant
            i <= numbers.len(),
            items@.len() == i,
            forall|k: int| 0 <= k < i ==> items@[k] == json_number(numbers@[k] as u64),
        decreases numbers.len() - i,
    {
        items.push(number_value(numbers[i] as u64));
        i += 1;
    }
    assert(items@ =~= numbers@.map_values(|n: usize| json_number(n as u64)));
    array_value(items)
}

/// The object with two fields.
fn object2(key0: &str, value0: serde_json::Value, key1: &str, value1: serde_json::Value) -> (v:
    serde_json::Value)
    ensures
        v == json_object(seq![(key0@, value0), (key1@, value1)]),
{
    let fields = vec![(String::from_str(key0), value0), (String::from_str(key1), value1)];
    assert(field_views(fields@) =~= seq![(key0@, value0), (key1@, value1)]);
    object_value(fields)
}

fn function_value(f: &FunctionInfo) -> (v: serde_json::Value)
    ensures
        v == function_json(f.type_@),
{
    let ty = object2("params", types_value(&f.type_.params), "results", types_value(&f.type_.results));
    let fields = vec![(String::from_str("type"), ty)];
    assert(field_views(fields@) =~= seq![("type"@, ty)]);
    object_value(fields)
}

fn br_table_value(t: &BrTableInfo) -> (v: serde_json::Value)
    ensures
        v == br_table_json(t@),
{
    object2("table", numbers_value(&t.table), "default", number_value(t.default as u64))
}

impl ModuleInfo {
    /// The JSON value of the static information.
    pub fn to_value(&self) -> (v: serde_json::Value)
        ensures
            v == module_info_json(self@),
    {
        let mut functions: Vec<serde_json::Value> = Vec::new();
        let mut i: usize = 0;
        while i < self.functions.len()
            invariant
                i <= self.functions.len(),
                functions@.len() == i,
                forall|k: int| 0 <= k < i ==> functions@[k] == function_json(self.functions@[k].type_@),
            decreases self.functions.len() - i,
        {
            functions.push(function_value(&self.functions[i]));
            i += 1;
        }
        let mut br_tables: Vec<serde_json::Value> = Vec::new();
        let mut j: usize = 0;
        while j < self.br_tables.len()
            invariant
                j <= self.br_tables.len(),
                br_tables@.len() == j,
                forall|k: int| 0 <= k < j ==> br_tables@[k] == br_table_json(self.br_tables@[k]@),
            decreases self.br_tables.len() - j,
        {
            br_tables.push(br_table_value(&self.br_tables[j]));
            j += 1;
        }
        proof {
            assert(functions@ =~= self@.functions.map_values(|f: Signature| function_json(f)));
            assert(br_tables@ =~= self@.br_tables.map_values(|t: BrTableView| br_table_json(t)));
        }
        let functions = array_value(functions);
        let globals = types_value(&self.globals);
        let br_tables = array_value(br_tables);
        let fields = vec![
            (String::from_str("functions"), functions),
            (String::from_str("globals"), globals),
            (String::from_str("brTables"), br_tables),
        ];
        assert(field_views(fields@) =~= seq![
            ("functions"@, functions),
            ("globals"@, globals),
            ("brTables"@, br_tables),
        ]);
        object_value(fields)
    }

    /// The static information as JSON text: what `serde_json` prints for
    /// its JSON value, and `None` exactly where `serde_json` gives no text.
    pub fn to_json(&self) -> (r: Option<String>)
        ensures
            match r {
                Some(text) => json_pretty(module_info_json(self@)) == Some(text@),
                None => json_pretty(module_info_json(self@)).is_none(),
            },
    {
        let value = self.to_value();
        match pretty_text(&value) {
            Ok(text) => Some(text),
            Err(_) => None,
        }
    }
}

} // verus!
