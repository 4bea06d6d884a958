//! Reading lists out of request data.
use vstd::prelude::*;
use crate::json::{Json, JsonValue, items_model};
use crate::mailbox::strings_view;
use crate::oid::{Oid, is_oid_text, oid_of_text, parse_oid};
use crate::text::{to_lower, unicode_lower};

verus! {

/// The strings among `items`, in order; with `skip_empty`, empty ones are left out.
pub open spec fn string_items(items: Seq<Json>, skip_empty: bool) -> Seq<Seq<char>>
    decreases items.len(),
{
    if items.len() == 0 {
        Seq::empty()
    } else {
        let rest = string_items(items.drop_last(), skip_empty);
        match items.last() {
            Json::Str(s) => if skip_empty && s.len() == 0 { rest } else { rest.push(s) },
            _ => rest,
        }
    }
}

/// The strings among `items`, in order, as [`string_items`] says.
pub fn collect_strings(items: &Vec<JsonValue>, skip_empty: bool) -> (r: Vec<String>)
    ensures
        strings_view(r@) == string_items(items_model(items@), skip_empty),
{
    let ghost model = items_model(items@);
    let mut out: Vec<String> = Vec::new();
    let mut i: usize = 0;
    while i < items.len()
        invariant
            i <= items.len(),
            model == items_model(items@),
            strings_view(out@) == string_items(model.take(i as int), skip_empty),
        decreases items.len() - i,
    {
        assert(model.take(i + 1).drop_last() =~= model.take(i as int));
        match items[i].as_str() {
            Some(s) => {
                if !(skip_empty && s.is_empty()) {
                    out.push(s.to_owned());
                    assert(strings_view(out@) =~= string_items(model.take(i + 1), skip_empty));
                }
            },
            None => {},
        }
        i += 1;
    }
    assert(model.take(items.len() as int) =~= model);
    out
}

/// The texts among `items` that write object ids, in order.
pub open spec fn oid_items(items: Seq<Json>) -> Seq<Seq<char>>
    decreases items.len(),
{
    if items.len() == 0 {
        Seq::empty()
    } else {
        let rest = oid_items(items.drop_last());
        match items.last() {
            Json::Str(s) => if is_oid_text(s) { rest.push(s) } else { rest },
            _ => rest,
        }
    }
}

/// Whether `ids` are the ids the texts `texts` write, one for one.
pub open spec fn ids_of_texts(ids: Seq<Oid>, texts: Seq<Seq<char>>) -> bool {
    ids.len() == texts.len() && forall|j: int| 0 <= j < ids.len() ==> oid_of_text(texts[j], #[trigger] ids[j].bytes@)
}

/// The ids that `items` write, in order, skipping what is not an id.
pub fn collect_ids(items: &Vec<JsonValue>) -> (r: Vec<Oid>)
    ensures
        ids_of_texts(r@, oid_items(items_model(items@))),
{
    let ghost model = items_model(items@);
    let mut out: Vec<Oid> = Vec::new();
    let mut i: usize = 0;
    while i < items.len()
        invariant
            i <= items.len(),
            model == items_model(items@),
            ids_of_texts(out@, oid_items(model.take(i as int))),
        decreases items.len() - i,
    {
        assert(model.take(i + 1).drop_last() =~= model.take(i as int));
        match items[i].as_str() {
            Some(s) => match parse_oid(s) {
                Some(o) => {
                    out.push(o);
                    assert(oid_items(model.take(i + 1)) =~= oid_items(model.take(i as int)).push(s@));
                },
                None => {},
            },
            None => {},
        }
        i += 1;
    }
    assert(model.take(items.len() as int) =~= model);
    out
}

/// Each address in lower case, as recipients are looked up.
pub fn lower_all(v: &Vec<String>) -> (r: Vec<String>)
    ensures
        r@.len() == v@.len(),
        forall|j: int| 0 <= j < v@.len() ==> (#[trigger] r@[j])@ == unicode_lower(v@[j]@),
{
    let mut out: Vec<String> = Vec::new();
    let mut i: usize = 0;
    while i < v.len()
        invariant
            i <= v.len(),
            out@.len() == i,
            forall|j: int| 0 <= j < i ==> (#[trigger] out@[j])@ == unicode_lower(v@[j]@),
        decreases v.len() - i,
    {
        out.push(to_lower(v[i].as_str()));
        i += 1;
    }
    out
}

} // verus!
