//! Patch operations on YAML documents.
//!
//! An operation names a patch verb (`add`, `remove` or `replace`), a path of
//! `/`-separated keys, and for `add` and `replace` a scalar payload. The
//! path's first segment (the text before the first `/`) is ignored, the last
//! segment names the entry operated on, and the segments between them
//! navigate through nested mappings. `walk` replaces every scalar equal to a
//! target throughout a document.

use vstd::prelude::*;

use crate::git::repo::{find_char, lemma_find_char};
use crate::git::scan::str_equal;
use crate::yaml::{
    YamlModel, YamlValue, lemma_models_of_map, lemma_models_of_seq, models_of_map, models_of_seq,
};

verus! {

/// The segments of `s` from `i` on, split on `/`.
pub open spec fn split_from(s: Seq<char>, i: int) -> Seq<Seq<char>>
    decreases s.len() - i
    when 0 <= i <= s.len()
    via split_from_decreases
{
    let j = find_char(s, '/', i);
    if j >= s.len() {
        seq![s.subrange(i, s.len() as int)]
    } else {
        seq![s.subrange(i, j)] + split_from(s, j + 1)
    }
}

#[via_fn]
proof fn split_from_decreases(s: Seq<char>, i: int) {
    lemma_find_char(s, '/', i);
}

/// First position in `entries` of the key, or the length of `entries`.
pub open spec fn model_find(entries: Seq<(Seq<char>, YamlModel)>, key: Seq<char>, i: int) -> int
    decreases entries.len() - i
    when 0 <= i <= entries.len()
{
    if i == entries.len() || entries[i].0 == key {
        i
    } else {
        model_find(entries, key, i + 1)
    }
}

/// `model_find` is the first occurrence.
pub proof fn lemma_model_find(entries: Seq<(Seq<char>, YamlModel)>, key: Seq<char>, i: int)
    requires
        0 <= i <= entries.len(),
    ensures
        i <= model_find(entries, key, i) <= entries.len(),
        forall|k: int| i <= k < model_find(entries, key, i) ==> (#[trigger] entries[k]).0 != key,
        model_find(entries, key, i) < entries.len() ==> entries[model_find(entries, key, i)].0
            == key,
    decreases entries.len() - i,
{
    if i < entries.len() && entries[i].0 != key {
        lemma_model_find(entries, key, i + 1);
    }
}

/// A position with the properties of `lemma_model_find` is `model_find`.
pub proof fn lemma_model_find_unique(
    entries: Seq<(Seq<char>, YamlModel)>,
    key: Seq<char>,
    i: int,
    j: int,
)
    requires
        0 <= i <= j <= entries.len(),
        forall|k: int| i <= k < j ==> (#[trigger] entries[k]).0 != key,
        j < entries.len() ==> entries[j].0 == key,
    ensures
        model_find(entries, key, i) == j,
    decreases entries.len() - i,
{
    if i < entries.len() && entries[i].0 != key {
        lemma_model_find_unique(entries, key, i + 1, j);
    }
}

/// Whether the keys navigate through nested mappings of `m` and end at a
/// mapping.
pub open spec fn model_navigable(m: YamlModel, keys: Seq<Seq<char>>) -> bool
    decreases keys.len(),
{
    match m {
        YamlModel::Mapping(entries) => keys.len() == 0 || {
            let j = model_find(entries, keys.first(), 0);
            j < entries.len() && model_navigable(entries[j].1, keys.drop_first())
        },
        _ => false,
    }
}

/// `m` with `val` put in at the entry the keys navigate to, under `last`:
/// the entry of that key is replaced in place, or appended when the key is
/// new. Away from a navigable path the document is unchanged.
pub open spec fn model_put(
    m: YamlModel,
    keys: Seq<Seq<char>>,
    last: Seq<char>,
    val: YamlModel,
) -> YamlModel
    decreases keys.len(),
{
    match m {
        YamlModel::Mapping(entries) => if keys.len() == 0 {
            let j = model_find(entries, last, 0);
            if j < entries.len() {
                YamlModel::Mapping(entries.update(j, (last, val)))
            } else {
                YamlModel::Mapping(entries.push((last, val)))
            }
        } else {
            let j = model_find(entries, keys.first(), 0);
            if j < entries.len() {
                YamlModel::Mapping(
                    entries.update(
                        j,
                        (entries[j].0, model_put(entries[j].1, keys.drop_first(), last, val)),
                    ),
                )
            } else {
                m
            }
        },
        _ => m,
    }
}

/// `m` with the entry named `last` removed from the mapping the keys
/// navigate to; an absent key, and a document away from a navigable path,
/// are left unchanged.
pub open spec fn model_remove_at(m: YamlModel, keys: Seq<Seq<char>>, last: Seq<char>) -> YamlModel
    decreases keys.len(),
{
    match m {
        YamlModel::Mapping(entries) => if keys.len() == 0 {
            let j = model_find(entries, last, 0);
            if j < entries.len() {
                YamlModel::Mapping(entries.remove(j))
            } else {
                m
            }
        } else {
            let j = model_find(entries, keys.first(), 0);
            if j < entries.len() {
                YamlModel::Mapping(
                    entries.update(
                        j,
                        (entries[j].0, model_remove_at(entries[j].1, keys.drop_first(), last)),
                    ),
                )
            } else {
                m
            }
        },
        _ => m,
    }
}

/// `m` with every scalar equal to `target` replaced by `replacement`;
/// mapping keys are left as they are.
pub open spec fn walk_model(m: YamlModel, target: Seq<char>, replacement: Seq<char>) -> YamlModel
    decreases m,
{
    match m {
        YamlModel::Null => m,
        YamlModel::Scalar(s) => if s == target {
            YamlModel::Scalar(replacement)
        } else {
            m
        },
        YamlModel::Sequence(items) => YamlModel::Sequence(
            walk_model_seq(items, target, replacement),
        ),
        YamlModel::Mapping(entries) => YamlModel::Mapping(
            walk_model_map(entries, target, replacement),
        ),
    }
}

/// `walk_model` over each item of a sequence.
pub open spec fn walk_model_seq(
    items: Seq<YamlModel>,
    target: Seq<char>,
    replacement: Seq<char>,
) -> Seq<YamlModel>
    decreases items,
{
    if items.len() == 0 {
        Seq::empty()
    } else {
        seq![walk_model(items.first(), target, replacement)] + walk_model_seq(
            items.drop_first(),
            target,
            replacement,
        )
    }
}

/// `walk_model` over each value of a mapping.
pub open spec fn walk_model_map(
    entries: Seq<(Seq<char>, YamlModel)>,
    target: Seq<char>,
    replacement: Seq<char>,
) -> Seq<(Seq<char>, YamlModel)>
    decreases entries,
{
    if entries.len() == 0 {
        Seq::empty()
    } else {
        seq![(entries.first().0, walk_model(entries.first().1, target, replacement))]
            + walk_model_map(entries.drop_first(), target, replacement)
    }
}

/// Size of a document: one for the node plus the sizes of what it holds.
pub open spec fn size_of(v: YamlValue) -> nat
    decreases v,
{
    match v {
        YamlValue::Null => 1,
        YamlValue::Scalar(_) => 1,
        YamlValue::Sequence(items) => 1 + size_seq(items@),
        YamlValue::Mapping(entries) => 1 + size_map(entries@),
    }
}

/// Combined size of a sequence's items.
pub open spec fn size_seq(items: Seq<YamlValue>) -> nat
    decreases items,
{
    if items.len() == 0 {
        0
    } else {
        size_of(items.first()) + size_seq(items.drop_first())
    }
}

/// Combined size of a mapping's values.
pub open spec fn size_map(entries: Seq<(String, YamlValue)>) -> nat
    decreases entries,
{
    if entries.len() == 0 {
        0
    } else {
        size_of(entries.first().1) + size_map(entries.drop_first())
    }
}

/// Every document has size at least one.
proof fn lemma_size_pos(v: YamlValue)
    ensures
        size_of(v) >= 1,
{
    match v {
        YamlValue::Null => {},
        YamlValue::Scalar(_) => {},
        YamlValue::Sequence(_) => {},
        YamlValue::Mapping(_) => {},
    }
}

/// The segments of `s` from `i` on, split on `/`.
fn split_rec(s: &str, i: usize) -> (r: Vec<String>)
    requires
        i <= s@.len(),
    ensures
        r.deep_view() == split_from(s@, i as int),
        r@.len() >= 1,
    decreases s@.len() - i,
{
    let n = s.unicode_len();
    let j = crate::git::repo::scan_char(s, '/', i);
    let seg = s.substring_char(i, j).to_owned();
    if j == n {
        let mut v: Vec<String> = Vec::new();
        v.push(seg);
        proof {
            assert(v.deep_view() =~= split_from(s@, i as int));
        }
        v
    } else {
        let mut rest = split_rec(s, j + 1);
        rest.insert(0, seg);
        proof {
            assert(rest.deep_view() =~= seq![s@.subrange(i as int, j as int)] + split_from(
                s@,
                j + 1,
            ));
        }
        rest
    }
}

/// The segments of a path, split on `/`.
pub fn split_path(path: &str) -> (r: Vec<String>)
    ensures
        r.deep_view() == split_from(path@, 0),
        r@.len() >= 1,
{
    split_rec(path, 0)
}

/// First position in `entries` of the key, or the length of `entries`.
fn find_entry(entries: &Vec<(String, YamlValue)>, key: &str) -> (j: usize)
    ensures
        j as int == model_find(models_of_map(entries@), key@, 0),
        j <= entries@.len(),
{
    proof {
        lemma_models_of_map(entries@);
    }
    let n = entries.len();
    let mut j: usize = 0;
    while j < n
        invariant
            j <= n,
            n == entries@.len(),
            models_of_map(entries@).len() == entries@.len(),
            forall|k: int|
                0 <= k < entries@.len() ==> #[trigger] models_of_map(entries@)[k] == (
                entries@[k].0@,
                model_of_entry(entries@[k]),
                ),
            forall|k: int| 0 <= k < j ==> (#[trigger] models_of_map(entries@)[k]).0 != key@,
        decreases n - j,
    {
        if str_equal(entries[j].0.as_str(), key) {
            proof {
                lemma_model_find_unique(models_of_map(entries@), key@, 0, j as int);
            }
            return j;
        }
        j = j + 1;
    }
    proof {
        lemma_model_find_unique(models_of_map(entries@), key@, 0, n as int);
    }
    n
}

/// The model of a mapping entry's value.
pub open spec fn model_of_entry(e: (String, YamlValue)) -> YamlModel {
    crate::yaml::model_of(e.1)
}

/// Puts `val` in under `last`, at the mapping that the keys
/// `segs[i..end]` navigate to.
fn put_value(v: YamlValue, segs: &Vec<String>, i: usize, end: usize, last: &String, val: YamlValue)
    -> (r: YamlValue)
    requires
        i <= end < segs@.len(),
        model_navigable(v@, segs.deep_view().subrange(i as int, end as int)),
    ensures
        r@ == model_put(v@, segs.deep_view().subrange(i as int, end as int), last@, val@),
    decreases end - i,
{
    let ghost keys = segs.deep_view().subrange(i as int, end as int);
    match v {
        YamlValue::Mapping(mut entries) => {
            let ghost entries0 = entries@;
            let ghost ms = models_of_map(entries@);
            proof {
                lemma_models_of_map(entries@);
            }
            if i == end {
                let j = find_entry(&entries, last.as_str());
                proof {
                    lemma_model_find(ms, last@, 0);
                }
                if j < entries.len() {
                    let pair = entries.remove(j);
                    entries.insert(j, (pair.0, val));
                    proof {
                        lemma_models_of_map(entries@);
                        vstd::seq_lib::lemma_update_is_remove_insert(
                            entries0,
                            j as int,
                            (pair.0, val),
                        );
                        assert(models_of_map(entries@) =~= ms.update(j as int, (last@, val@)));
                    }
                } else {
                    entries.push((last.clone(), val));
                    proof {
                        lemma_models_of_map(entries@);
                        assert(models_of_map(entries@) =~= ms.push((last@, val@)));
                    }
                }
                YamlValue::Mapping(entries)
            } else {
                let j = find_entry(&entries, segs[i].as_str());
                proof {
                    assert(keys.first() == segs@[i as int]@);
                    lemma_model_find(ms, keys.first(), 0);
                }
                let pair = entries.remove(j);
                proof {
                    assert(keys.drop_first() =~= segs.deep_view().subrange(
                        i as int + 1,
                        end as int,
                    ));
                    assert(pair.1@ == ms[j as int].1);
                }
                let sub = put_value(pair.1, segs, i + 1, end, last, val);
                entries.insert(j, (pair.0, sub));
                proof {
                    lemma_models_of_map(entries@);
                    vstd::seq_lib::lemma_update_is_remove_insert(
                        entries0,
                        j as int,
                        (pair.0, sub),
                    );
                    assert(models_of_map(entries@) =~= ms.update(
                        j as int,
                        (ms[j as int].0, model_put(ms[j as int].1, keys.drop_first(), last@, val@)),
                    ));
                }
                YamlValue::Mapping(entries)
            }
        },
        _ => {
            proof {
                assert(false);
            }
            v
        },
    }
}

/// Removes the entry named `last` from the mapping that the keys
/// `segs[i..end]` navigate to.
fn remove_value(v: YamlValue, segs: &Vec<String>, i: usize, end: usize, last: &String) -> (r:
    YamlValue)
    requires
        i <= end < segs@.len(),
        model_navigable(v@, segs.deep_view().subrange(i as int, end as int)),
    ensures
        r@ == model_remove_at(v@, segs.deep_view().subrange(i as int, end as int), last@),
    decreases end - i,
{
    let ghost keys = segs.deep_view().subrange(i as int, end as int);
    match v {
        YamlValue::Mapping(mut entries) => {
            let ghost entries0 = entries@;
            let ghost ms = models_of_map(entries@);
            proof {
                lemma_models_of_map(entries@);
            }
            if i == end {
                let j = find_entry(&entries, last.as_str());
                proof {
                    lemma_model_find(ms, last@, 0);
                }
                if j < entries.len() {
                    entries.remove(j);
                    proof {
                        lemma_models_of_map(entries@);
                        assert(models_of_map(entries@) =~= ms.remove(j as int));
                    }
                }
                YamlValue::Mapping(entries)
            } else {
                let j = find_entry(&entries, segs[i].as_str());
                proof {
                    assert(keys.first() == segs@[i as int]@);
                    lemma_model_find(ms, keys.first(), 0);
                }
                let pair = entries.remove(j);
                proof {
                    assert(keys.drop_first() =~= segs.deep_view().subrange(
                        i as int + 1,
                        end as int,
                    ));
                    assert(pair.1@ == ms[j as int].1);
                }
                let sub = remove_value(pair.1, segs, i + 1, end, last);
                entries.insert(j, (pair.0, sub));
                proof {
                    lemma_models_of_map(entries@);
                    vstd::seq_lib::lemma_update_is_remove_insert(
                        entries0,
                        j as int,
                        (pair.0, sub),
                    );
                    assert(models_of_map(entries@) =~= ms.update(
                        j as int,
                        (ms[j as int].0, model_remove_at(ms[j as int].1, keys.drop_first(), last@)),
                    ));
                }
                YamlValue::Mapping(entries)
            }
        },
        _ => {
            proof {
                assert(false);
            }
            v
        },
    }
}

/// Replaces every scalar of `v` equal to `target` by `replacement`.
fn walk_value(v: YamlValue, target: &str, replacement: &str) -> (r: YamlValue)
    ensures
        r@ == walk_model(v@, target@, replacement@),
    decreases size_of(v), 0nat,
{
    match v {
        YamlValue::Null => YamlValue::Null,
        YamlValue::Scalar(s) => {
            if str_equal(s.as_str(), target) {
                YamlValue::Scalar(replacement.to_owned())
            } else {
                YamlValue::Scalar(s)
            }
        },
        YamlValue::Sequence(items) => YamlValue::Sequence(walk_items(items, target, replacement)),
        YamlValue::Mapping(entries) => YamlValue::Mapping(
            walk_entries(entries, target, replacement),
        ),
    }
}

/// `walk_value` over each item of a sequence.
fn walk_items(items: Vec<YamlValue>, target: &str, replacement: &str) -> (r: Vec<YamlValue>)
    ensures
        models_of_seq(r@) == walk_model_seq(models_of_seq(items@), target@, replacement@),
    decreases size_seq(items@), 1nat,
{
    let ghost items0 = items@;
    let mut items = items;
    if items.len() == 0 {
        proof {
            assert(models_of_seq(items@) =~= Seq::<YamlModel>::empty());
        }
        items
    } else {
        let first = items.remove(0);
        proof {
            assert(first == items0.first());
            assert(items@ =~= items0.drop_first());
            lemma_size_pos(first);
        }
        let w = walk_value(first, target, replacement);
        let mut rest = walk_items(items, target, replacement);
        let ghost walked = rest@;
        rest.insert(0, w);
        proof {
            lemma_models_of_seq(items0);
            lemma_models_of_seq(items0.drop_first());
            assert(rest@.drop_first() =~= walked);
            assert(rest@.first() == w);
            assert(models_of_seq(items0).drop_first() =~= models_of_seq(items0.drop_first()));
            assert(models_of_seq(rest@) == seq![crate::yaml::model_of(w)] + models_of_seq(
                walked,
            ));
            assert(models_of_seq(items0).first() == crate::yaml::model_of(first));
            assert(walk_model_seq(models_of_seq(items0), target@, replacement@) == seq![
                walk_model(crate::yaml::model_of(first), target@, replacement@)
            ] + walk_model_seq(models_of_seq(items0).drop_first(), target@, replacement@));
        }
        rest
    }
}

/// `walk_value` over each value of a mapping; keys are left as they are.
fn walk_entries(entries: Vec<(String, YamlValue)>, target: &str, replacement: &str) -> (r: Vec<
    (String, YamlValue),
>)
    ensures
        models_of_map(r@) == walk_model_map(models_of_map(entries@), target@, replacement@),
    decreases size_map(entries@), 1nat,
{
    let ghost entries0 = entries@;
    let mut entries = entries;
    if entries.len() == 0 {
        proof {
            assert(models_of_map(entries@) =~= Seq::<(Seq<char>, YamlModel)>::empty());
        }
        entries
    } else {
        let pair = entries.remove(0);
        proof {
            assert(pair == entries0.first());
            assert(entries@ =~= entries0.drop_first());
            lemma_size_pos(pair.1);
        }
        let w = walk_value(pair.1, target, replacement);
        let mut rest = walk_entries(entries, target, replacement);
        let ghost walked = rest@;
        rest.insert(0, (pair.0, w));
        proof {
            lemma_models_of_map(entries0);
            lemma_models_of_map(entries0.drop_first());
            assert(rest@.drop_first() =~= walked);
            assert(rest@.first() == (pair.0, w));
            assert(models_of_map(entries0).drop_first() =~= models_of_map(
                entries0.drop_first(),
            ));
            assert(models_of_map(rest@) == seq![(pair.0@, crate::yaml::model_of(w))]
                + models_of_map(walked));
            assert(models_of_map(entries0).first() == (
                entries0.first().0@,
                crate::yaml::model_of(entries0.first().1),
            ));
            assert(walk_model_map(models_of_map(entries0), target@, replacement@) == seq![(
                entries0.first().0@,
                walk_model(crate::yaml::model_of(entries0.first().1), target@, replacement@),
            )] + walk_model_map(models_of_map(entries0).drop_first(), target@, replacement@));
        }
        rest
    }
}

/// Replaces, throughout the document, every scalar equal to `target` by the
/// fixed text `something else`.
pub fn walk(value: &mut YamlValue, target: &str, _path: &str)
    ensures
        final(value)@ == walk_model(old(value)@, target@, "something else"@),
{
    let mut tmp = YamlValue::Null;
    core::mem::swap(&mut tmp, value);
    let walked = walk_value(tmp, target, "something else");
    *value = walked;
}

/// A patch operation: a verb, a path, and for `add` and `replace` a scalar
/// payload. `from` is carried for verbs that name a source; none of the
/// supported verbs uses it.
#[derive(Debug)]
pub struct Operation {
    pub op: String,
    pub path: String,
    pub from: Option<String>,
    pub value: Option<String>,
}

impl Operation {
    /// An operation with the given verb, path, source and payload.
    pub fn new(op: String, path: String, from: Option<String>, value: Option<String>) -> (r:
        Operation)
        ensures
            r.op == op,
            r.path == path,
            r.from == from,
            r.value == value,
    {
        Operation { op, path, from, value }
    }

    /// Applies the operation to a document. The path must hold at least two
    /// segments (the first is ignored); the segments between the first and
    /// the last must navigate through nested mappings of the document; `add`
    /// and `replace` put the payload in as a scalar under the last segment,
    /// and `remove` takes the entry of that name out.
    pub fn run(&self, value: &mut YamlValue)
        requires
            self.op@ == "add"@ || self.op@ == "remove"@ || self.op@ == "replace"@,
            split_from(self.path@, 0).len() >= 2,
            self.op@ == "add"@ || self.op@ == "replace"@ ==> self.value is Some,
            model_navigable(
                old(value)@,
                split_from(self.path@, 0).drop_first().drop_last(),
            ),
        ensures
            ({
                let keys = split_from(self.path@, 0).drop_first();
                if self.op@ == "remove"@ {
                    final(value)@ == model_remove_at(old(value)@, keys.drop_last(), keys.last())
                } else {
                    final(value)@ == model_put(
                        old(value)@,
                        keys.drop_last(),
                        keys.last(),
                        YamlModel::Scalar(self.value.unwrap()@),
                    )
                }
            }),
    {
        let segs = split_path(self.path.as_str());
        let end = segs.len() - 1;
        let last = segs[end].clone();
        proof {
            let keys = split_from(self.path@, 0).drop_first();
            assert(keys.drop_last() =~= segs.deep_view().subrange(1, end as int));
            assert(last@ == keys.last());
        }
        let mut tmp = YamlValue::Null;
        core::mem::swap(&mut tmp, value);
        let is_remove = str_equal(self.op.as_str(), "remove");
        let result: YamlValue;
        if is_remove {
            result = remove_value(tmp, &segs, 1, end, &last);
        } else {
            let payload: String = match &self.value {
                Some(vs) => vs.clone(),
                None => {
                    proof {
                        assert(false);
                    }
                    String::new()
                },
            };
            result = put_value(tmp, &segs, 1, end, &last, YamlValue::Scalar(payload));
        }
        *value = result;
    }
}

} // verus!
